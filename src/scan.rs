use vstd::prelude::*;

verus! {

/// One information element of a basic service set, held as plain values.
///
/// `labels` holds the display text of the element's table columns (id, name,
/// length); `fields` holds the display text of its sub-fields.
pub struct Ie {
    pub id: u32,
    pub labels: Vec<String>,
    pub fields: Vec<String>,
}

/// Mathematical model of an [`Ie`].
pub struct IeModel {
    pub id: u32,
    pub labels: Seq<String>,
    pub fields: Seq<String>,
}

impl View for Ie {
    type V = IeModel;

    open spec fn view(&self) -> IeModel {
        IeModel { id: self.id, labels: self.labels@, fields: self.fields@ }
    }
}

/// A basic service set seen by a scan, held as plain values.
///
/// The integer fields are the keys the table sorts by: `bssid` is the
/// hardware address read as a big-endian 48-bit number, `ssid` the raw bytes
/// of the network name, and `channel_width`, `band` and `wifi_protocols` are
/// the ranks of those values in their own order. `labels` holds the display
/// text of each column, in the order of `BssTableColumnHeader::index`; the
/// frequency, signal, security and maximum-rate cells are written by the
/// table itself, and their labels are not read.
pub struct Bss {
    pub bssid: u64,
    pub ssid: Option<Vec<u8>>,
    pub channel_number: u32,
    pub channel_width: u32,
    pub band: u32,
    pub center_freq_mhz: u32,
    pub signal_dbm: i32,
    pub wifi_protocols: u32,
    pub labels: Vec<String>,
    pub ies: Vec<Ie>,
}

/// The models of a sequence of elements.
pub open spec fn ies_model(s: Seq<Ie>) -> Seq<IeModel> {
    s.map_values(|e: Ie| e@)
}

/// A copy of a list of strings.
pub fn copy_strings(v: &Vec<String>) -> (r: Vec<String>)
    ensures
        r@ == v@,
{
    let mut r: Vec<String> = Vec::new();
    let mut i: usize = 0;
    while i < v.len()
        invariant
            i <= v.len(),
            r@ == v@.subrange(0, i as int),
        decreases v.len() - i,
    {
        r.push(v[i].clone());
        i += 1;
        assert(r@ =~= v@.subrange(0, i as int));
    }
    assert(r@ =~= v@);
    r
}

impl Ie {
    /// A copy of this element.
    pub fn duplicate(&self) -> (r: Ie)
        ensures
            r@ == self@,
    {
        Ie { id: self.id, labels: copy_strings(&self.labels), fields: copy_strings(&self.fields) }
    }
}

/// A copy of a list of elements.
pub fn copy_ies(v: &[Ie]) -> (r: Vec<Ie>)
    ensures
        ies_model(r@) == ies_model(v@),
{
    let mut r: Vec<Ie> = Vec::new();
    let mut i: usize = 0;
    while i < v.len()
        invariant
            i <= v@.len(),
            r@.len() == i,
            forall|k: int| 0 <= k < i ==> (#[trigger] r@[k])@ == v@[k]@,
        decreases v@.len() - i,
    {
        r.push(v[i].duplicate());
        i += 1;
    }
    assert(ies_model(r@) =~= ies_model(v@));
    r
}

} // verus!
