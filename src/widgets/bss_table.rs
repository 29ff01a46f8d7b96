use vstd::prelude::*;
use vstd::string::StringExecFns;
use crate::scan::{Bss, Ie, IeModel, copy_ies, ies_model};
use crate::widgets::TableSortOrder;
use vstd::seq_lib::{to_multiset_build, to_multiset_contains, to_multiset_insert};
use vstd::multiset::{Multiset, group_multiset_axioms};

verus! {

/// The table of basic service sets, as handed to a drawing surface.
pub struct BssTable {}

impl BssTable {
    pub fn new() -> (r: BssTable) {
        BssTable {}
    }
}

/// A column of the table of basic service sets.
#[derive(Debug, Copy, Clone, PartialEq, Eq, Structural)]
pub enum BssTableColumnHeader {
    Bssid,
    Ssid,
    Channel,
    ChannelWidth,
    Band,
    Frequency,
    Signal,
    WiFiProtocols,
    Security,
    MaxRate,
}

impl BssTableColumnHeader {
    /// Place of the column among all columns, in declaration order.
    pub open spec fn position(self) -> nat {
        match self {
            BssTableColumnHeader::Bssid => 0,
            BssTableColumnHeader::Ssid => 1,
            BssTableColumnHeader::Channel => 2,
            BssTableColumnHeader::ChannelWidth => 3,
            BssTableColumnHeader::Band => 4,
            BssTableColumnHeader::Frequency => 5,
            BssTableColumnHeader::Signal => 6,
            BssTableColumnHeader::WiFiProtocols => 7,
            BssTableColumnHeader::Security => 8,
            BssTableColumnHeader::MaxRate => 9,
        }
    }

    pub fn index(&self) -> (r: usize)
        ensures
            r == self.position(),
    {
        match self {
            BssTableColumnHeader::Bssid => 0,
            BssTableColumnHeader::Ssid => 1,
            BssTableColumnHeader::Channel => 2,
            BssTableColumnHeader::ChannelWidth => 3,
            BssTableColumnHeader::Band => 4,
            BssTableColumnHeader::Frequency => 5,
            BssTableColumnHeader::Signal => 6,
            BssTableColumnHeader::WiFiProtocols => 7,
            BssTableColumnHeader::Security => 8,
            BssTableColumnHeader::MaxRate => 9,
        }
    }

    /// Title of the column as shown in the header row.
    pub open spec fn spec_title(self) -> Seq<char> {
        match self {
            BssTableColumnHeader::Bssid => "BSSID"@,
            BssTableColumnHeader::Ssid => "SSID"@,
            BssTableColumnHeader::Channel => "Channel"@,
            BssTableColumnHeader::ChannelWidth => "Channel Width"@,
            BssTableColumnHeader::Band => "Band"@,
            BssTableColumnHeader::Frequency => "Frequency"@,
            BssTableColumnHeader::Signal => "Signal"@,
            BssTableColumnHeader::WiFiProtocols => "Wi-Fi Protocols"@,
            BssTableColumnHeader::Security => "Security"@,
            BssTableColumnHeader::MaxRate => "Max Rate"@,
        }
    }

    pub fn title(&self) -> (r: &'static str)
        ensures
            r@ == self.spec_title(),
    {
        match self {
            BssTableColumnHeader::Bssid => "BSSID",
            BssTableColumnHeader::Ssid => "SSID",
            BssTableColumnHeader::Channel => "Channel",
            BssTableColumnHeader::ChannelWidth => "Channel Width",
            BssTableColumnHeader::Band => "Band",
            BssTableColumnHeader::Frequency => "Frequency",
            BssTableColumnHeader::Signal => "Signal",
            BssTableColumnHeader::WiFiProtocols => "Wi-Fi Protocols",
            BssTableColumnHeader::Security => "Security",
            BssTableColumnHeader::MaxRate => "Max Rate",
        }
    }
}

/// The columns of the table, in the order they are shown.
pub open spec fn default_columns() -> Seq<BssTableColumnHeader> {
    seq![
        BssTableColumnHeader::Bssid,
        BssTableColumnHeader::Ssid,
        BssTableColumnHeader::Channel,
        BssTableColumnHeader::ChannelWidth,
        BssTableColumnHeader::Band,
        BssTableColumnHeader::Frequency,
        BssTableColumnHeader::Signal,
        BssTableColumnHeader::WiFiProtocols,
        BssTableColumnHeader::Security,
        BssTableColumnHeader::MaxRate,
    ]
}

/// Three-way comparison of two integers: -1, 0 or 1.
pub open spec fn cmp_int(a: int, b: int) -> int {
    if a < b {
        -1
    } else if a > b {
        1
    } else {
        0
    }
}

/// Lexicographic comparison of two byte strings from position `i` on.
pub open spec fn cmp_bytes_from(a: Seq<u8>, b: Seq<u8>, i: int) -> int
    decreases a.len() - i,
{
    if i >= a.len() && i >= b.len() {
        0
    } else if i >= a.len() {
        -1
    } else if i >= b.len() {
        1
    } else if a[i] != b[i] {
        cmp_int(a[i] as int, b[i] as int)
    } else {
        cmp_bytes_from(a, b, i + 1)
    }
}

/// Comparison of two optional names: an absent name comes first, present
/// names compare byte by byte.
pub open spec fn cmp_ssid(a: Option<Vec<u8>>, b: Option<Vec<u8>>) -> int {
    match (a, b) {
        (None, None) => 0,
        (None, Some(_)) => -1,
        (Some(_), None) => 1,
        (Some(x), Some(y)) => cmp_bytes_from(x@, y@, 0),
    }
}

/// The comparison of two records on one column. Columns without a sort key
/// of their own compare by hardware address.
pub open spec fn column_cmp(c: BssTableColumnHeader, a: Bss, b: Bss) -> int {
    match c {
        BssTableColumnHeader::Ssid => cmp_ssid(a.ssid, b.ssid),
        BssTableColumnHeader::Channel => cmp_int(a.channel_number as int, b.channel_number as int),
        BssTableColumnHeader::ChannelWidth => cmp_int(a.channel_width as int, b.channel_width as int),
        BssTableColumnHeader::Band => cmp_int(a.band as int, b.band as int),
        BssTableColumnHeader::Frequency => cmp_int(a.center_freq_mhz as int, b.center_freq_mhz as int),
        BssTableColumnHeader::Signal => cmp_int(a.signal_dbm as int, b.signal_dbm as int),
        BssTableColumnHeader::WiFiProtocols => cmp_int(a.wifi_protocols as int, b.wifi_protocols as int),
        _ => cmp_int(a.bssid as int, b.bssid as int),
    }
}

/// The comparison under a sort order: `Descending` keeps the column's own
/// comparison, `Ascending` reverses it.
pub open spec fn order_cmp(c: BssTableColumnHeader, o: TableSortOrder, a: Bss, b: Bss) -> int {
    match o {
        TableSortOrder::Descending => column_cmp(c, a, b),
        TableSortOrder::Ascending => -column_cmp(c, a, b),
    }
}

/// Record `a` (first seen at `ia`) stands correctly before record `b`
/// (first seen at `ib`): it compares lower, or equal with the earlier origin.
pub open spec fn in_order(c: BssTableColumnHeader, o: TableSortOrder, a: Bss, b: Bss, ia: int, ib: int) -> bool {
    order_cmp(c, o, a, b) < 0 || (order_cmp(c, o, a, b) == 0 && ia < ib)
}

/// `out` is `inp` sorted stably on column `c` in order `o`, where `out[k]` was
/// `inp[p[k]]`.
pub open spec fn is_stable_sort_of(
    out: Seq<Bss>,
    inp: Seq<Bss>,
    p: Seq<int>,
    c: BssTableColumnHeader,
    o: TableSortOrder,
) -> bool {
    &&& out.len() == inp.len()
    &&& out.to_multiset() == inp.to_multiset()
    &&& p.len() == inp.len()
    &&& forall|k: int| 0 <= k < out.len() ==> 0 <= #[trigger] p[k] < inp.len() && out[k] == inp[p[k]]
    &&& forall|k: int, l: int| 0 <= k < l < out.len() ==> #[trigger] p[k] != #[trigger] p[l]
    &&& forall|k: int, l: int|
        0 <= k < l < out.len() ==> #[trigger] in_order(c, o, out[k], out[l], p[k], p[l])
}

/// Neighbouring records of `out` stand in order.
pub open spec fn neighbours_in_order(
    out: Seq<Bss>,
    p: Seq<int>,
    c: BssTableColumnHeader,
    o: TableSortOrder,
) -> bool {
    forall|k: int| 0 <= k < out.len() - 1 ==> #[trigger] in_order(c, o, out[k], out[k + 1], p[k], p[k + 1])
}

proof fn lemma_empty_to_multiset(s: Seq<Bss>)
    requires
        s.len() == 0,
    ensures
        s.to_multiset() == Multiset::<Bss>::empty(),
{
    assert forall|a: Bss| s.to_multiset().count(a) == 0 by {
        to_multiset_contains(s, a);
    }
    assert(s.to_multiset() =~= Multiset::<Bss>::empty());
}

proof fn lemma_cmp_bytes_trans(a: Seq<u8>, b: Seq<u8>, d: Seq<u8>, i: int)
    requires
        cmp_bytes_from(a, b, i) <= 0,
        cmp_bytes_from(b, d, i) <= 0,
    ensures
        cmp_bytes_from(a, d, i) <= 0,
    decreases a.len() - i,
{
    if i < a.len() && i < b.len() && i < d.len() && a[i] == b[i] && b[i] == d[i] {
        lemma_cmp_bytes_trans(a, b, d, i + 1);
    }
}

proof fn lemma_column_cmp_trans(c: BssTableColumnHeader, a: Bss, b: Bss, d: Bss)
    requires
        column_cmp(c, a, b) <= 0,
        column_cmp(c, b, d) <= 0,
    ensures
        column_cmp(c, a, d) <= 0,
{
    if c == BssTableColumnHeader::Ssid {
        if let (Some(x), Some(y), Some(z)) = (a.ssid, b.ssid, d.ssid) {
            lemma_cmp_bytes_trans(x@, y@, z@, 0);
        }
    }
}

proof fn lemma_order_cmp_trans(c: BssTableColumnHeader, o: TableSortOrder, a: Bss, b: Bss, d: Bss)
    requires
        order_cmp(c, o, a, b) <= 0,
        order_cmp(c, o, b, d) <= 0,
    ensures
        order_cmp(c, o, a, d) <= 0,
{
    match o {
        TableSortOrder::Descending => lemma_column_cmp_trans(c, a, b, d),
        TableSortOrder::Ascending => {
            lemma_order_cmp_antisym(c, o, a, b);
            lemma_order_cmp_antisym(c, o, b, d);
            lemma_order_cmp_antisym(c, o, a, d);
            lemma_column_cmp_trans(c, d, b, a);
        },
    }
}

proof fn lemma_in_order_trans(
    c: BssTableColumnHeader,
    o: TableSortOrder,
    a: Bss,
    b: Bss,
    d: Bss,
    ia: int,
    ib: int,
    id: int,
)
    requires
        in_order(c, o, a, b, ia, ib),
        in_order(c, o, b, d, ib, id),
    ensures
        in_order(c, o, a, d, ia, id),
{
    lemma_order_cmp_trans(c, o, a, b, d);
    if order_cmp(c, o, a, d) == 0 {
        lemma_order_cmp_antisym(c, o, a, d);
        if order_cmp(c, o, a, b) < 0 {
            lemma_order_cmp_trans(c, o, b, d, a);
            lemma_order_cmp_antisym(c, o, a, b);
        }
        if order_cmp(c, o, b, d) < 0 {
            lemma_order_cmp_trans(c, o, d, a, b);
            lemma_order_cmp_antisym(c, o, b, d);
        }
    }
}

proof fn lemma_chain(out: Seq<Bss>, p: Seq<int>, c: BssTableColumnHeader, o: TableSortOrder, k: int, l: int)
    requires
        neighbours_in_order(out, p, c, o),
        0 <= k < l < out.len(),
    ensures
        in_order(c, o, out[k], out[l], p[k], p[l]),
    decreases l - k,
{
    if l > k + 1 {
        lemma_chain(out, p, c, o, k, l - 1);
        let m = l - 1;
        assert(in_order(c, o, out[m], out[m + 1], p[m], p[m + 1]));
        lemma_in_order_trans(c, o, out[k], out[m], out[l], p[k], p[m], p[l]);
    }
}

proof fn lemma_cmp_bytes_antisym(a: Seq<u8>, b: Seq<u8>, i: int)
    ensures
        cmp_bytes_from(a, b, i) == -cmp_bytes_from(b, a, i),
    decreases a.len() - i,
{
    if i < a.len() && i < b.len() && a[i] == b[i] {
        lemma_cmp_bytes_antisym(a, b, i + 1);
    }
}

proof fn lemma_cmp_bytes_range(a: Seq<u8>, b: Seq<u8>, i: int)
    ensures
        -1 <= cmp_bytes_from(a, b, i) <= 1,
    decreases a.len() - i,
{
    if i < a.len() && i < b.len() && a[i] == b[i] {
        lemma_cmp_bytes_range(a, b, i + 1);
    }
}

proof fn lemma_column_cmp_range(c: BssTableColumnHeader, a: Bss, b: Bss)
    ensures
        -1 <= column_cmp(c, a, b) <= 1,
{
    if let (Some(x), Some(y)) = (a.ssid, b.ssid) {
        lemma_cmp_bytes_range(x@, y@, 0);
    }
}

proof fn lemma_order_cmp_antisym(c: BssTableColumnHeader, o: TableSortOrder, a: Bss, b: Bss)
    ensures
        order_cmp(c, o, a, b) == -order_cmp(c, o, b, a),
{
    if let (Some(x), Some(y)) = (a.ssid, b.ssid) {
        lemma_cmp_bytes_antisym(x@, y@, 0);
    }
}

fn compare_int(a: i64, b: i64) -> (r: i8)
    ensures
        r == cmp_int(a as int, b as int),
{
    if a < b {
        -1
    } else if a > b {
        1
    } else {
        0
    }
}

fn compare_bytes(a: &Vec<u8>, b: &Vec<u8>) -> (r: i8)
    ensures
        r == cmp_bytes_from(a@, b@, 0),
{
    let mut i: usize = 0;
    while i < a.len() && i < b.len()
        invariant
            i <= a.len(),
            i <= b.len(),
            cmp_bytes_from(a@, b@, 0) == cmp_bytes_from(a@, b@, i as int),
        decreases a.len() - i,
    {
        if a[i] != b[i] {
            return compare_int(a[i] as i64, b[i] as i64);
        }
        i += 1;
    }
    if i >= a.len() && i >= b.len() {
        0
    } else if i >= a.len() {
        -1
    } else {
        1
    }
}

fn compare_column(c: BssTableColumnHeader, a: &Bss, b: &Bss) -> (r: i8)
    ensures
        r == column_cmp(c, *a, *b),
{
    match c {
        BssTableColumnHeader::Ssid => match (&a.ssid, &b.ssid) {
            (None, None) => 0,
            (None, Some(_)) => -1,
            (Some(_), None) => 1,
            (Some(x), Some(y)) => compare_bytes(x, y),
        },
        BssTableColumnHeader::Channel => compare_int(a.channel_number as i64, b.channel_number as i64),
        BssTableColumnHeader::ChannelWidth => compare_int(a.channel_width as i64, b.channel_width as i64),
        BssTableColumnHeader::Band => compare_int(a.band as i64, b.band as i64),
        BssTableColumnHeader::Frequency => compare_int(a.center_freq_mhz as i64, b.center_freq_mhz as i64),
        BssTableColumnHeader::Signal => compare_int(a.signal_dbm as i64, b.signal_dbm as i64),
        BssTableColumnHeader::WiFiProtocols => compare_int(a.wifi_protocols as i64, b.wifi_protocols as i64),
        _ => {
            if a.bssid < b.bssid {
                -1
            } else if a.bssid > b.bssid {
                1
            } else {
                0
            }
        },
    }
}

/// Three-way comparison of two records on column `c` in order `o`.
pub fn compare_bss(c: BssTableColumnHeader, o: TableSortOrder, a: &Bss, b: &Bss) -> (r: i8)
    ensures
        r == order_cmp(c, o, *a, *b),
{
    let r = compare_column(c, a, b);
    proof {
        lemma_column_cmp_range(c, *a, *b);
    }
    match o {
        TableSortOrder::Descending => r,
        TableSortOrder::Ascending => -r,
    }
}

/// Sorts the records stably on column `c` in order `o`.
pub fn sort_by_column(v: &mut Vec<Bss>, c: BssTableColumnHeader, o: TableSortOrder)
    ensures
        exists|p: Seq<int>| is_stable_sort_of(final(v)@, old(v)@, p, c, o),
{
    broadcast use group_multiset_axioms;

    let ghost inp = v@;
    let n = v.len();
    let mut rest: Vec<Bss> = Vec::new();
    std::mem::swap(v, &mut rest);
    let mut out: Vec<Bss> = Vec::new();
    let ghost mut p: Seq<int> = Seq::empty();
    proof {
        assert(rest@ =~= inp.subrange(0, rest@.len() as int));
        lemma_empty_to_multiset(out@);
        assert(out@.to_multiset().add(rest@.to_multiset()) =~= inp.to_multiset());
    }
    while rest.len() > 0
        invariant
            n == inp.len(),
            rest@ == inp.subrange(0, rest@.len() as int),
            out@.len() + rest@.len() == n,
            out@.to_multiset().add(rest@.to_multiset()) == inp.to_multiset(),
            p.len() == out@.len(),
            forall|k: int|
                0 <= k < out@.len() ==> rest@.len() <= #[trigger] p[k] < n && out@[k] == inp[p[k]],
            forall|k: int, l: int| 0 <= k < l < out@.len() ==> #[trigger] p[k] != #[trigger] p[l],
            neighbours_in_order(out@, p, c, o),
        decreases rest@.len(),
    {
        let ghost idx = rest@.len() - 1;
        let ghost old_rest = rest@;
        let b = rest.pop().unwrap();
        assert(b == inp[idx]);
        assert(rest@ =~= inp.subrange(0, rest@.len() as int));
        let mut j: usize = 0;
        while j < out.len() && compare_bss(c, o, &b, &out[j]) > 0
            invariant
                j <= out@.len(),
                j > 0 ==> order_cmp(c, o, b, out@[j - 1]) > 0,
            decreases out@.len() - j,
        {
            j += 1;
        }
        proof {
            if j > 0 {
                lemma_order_cmp_antisym(c, o, b, out@[j - 1]);
            }
        }
        let ghost old_out = out@;
        let ghost old_p = p;
        out.insert(j, b);
        proof {
            assert(old_rest == rest@.push(b));
            to_multiset_build(rest@, b);
            to_multiset_insert(old_out, j as int, b);
            assert(out@.to_multiset().add(rest@.to_multiset()) =~= inp.to_multiset());
            p = old_p.insert(j as int, idx);
            assert forall|k: int| 0 <= k < out@.len() - 1 implies #[trigger] in_order(
                c,
                o,
                out@[k],
                out@[k + 1],
                p[k],
                p[k + 1],
            ) by {
                if k < j as int - 1 {
                    assert(in_order(c, o, old_out[k], old_out[k + 1], old_p[k], old_p[k + 1]));
                } else if k > j as int {
                    let m = k - 1;
                    assert(in_order(c, o, old_out[m], old_out[m + 1], old_p[m], old_p[m + 1]));
                    assert(out@[k] == old_out[m] && out@[k + 1] == old_out[m + 1]);
                    assert(p[k] == old_p[m] && p[k + 1] == old_p[m + 1]);
                }
            }
            assert forall|k: int, l: int| 0 <= k < l < out@.len() implies #[trigger] p[k] != #[trigger] p[l] by {
                if k != j as int && l != j as int {
                    let k2 = if k < j as int { k } else { k - 1 };
                    let l2 = if l < j as int { l } else { l - 1 };
                    assert(old_p[k2] != old_p[l2]);
                } else if k == j as int {
                    assert(old_p[l - 1] >= rest@.len() + 1);
                } else {
                    assert(old_p[k] >= rest@.len() + 1);
                }
            }
        }
    }
    proof {
        lemma_empty_to_multiset(rest@);
        assert(out@.to_multiset() =~= out@.to_multiset().add(rest@.to_multiset()));
    }
    *v = out;
    assert forall|k: int, l: int| 0 <= k < l < v@.len() implies #[trigger] in_order(c, o, v@[k], v@[l], p[k], p[l]) by {
        lemma_chain(v@, p, c, o, k, l);
    }
    assert(is_stable_sort_of(v@, inp, p, c, o));
}

} // verus!

verus! {

/// Decimal text of one digit.
pub open spec fn digit_text(d: nat) -> Seq<char> {
    if d == 0 {
        "0"@
    } else if d == 1 {
        "1"@
    } else if d == 2 {
        "2"@
    } else if d == 3 {
        "3"@
    } else if d == 4 {
        "4"@
    } else if d == 5 {
        "5"@
    } else if d == 6 {
        "6"@
    } else if d == 7 {
        "7"@
    } else if d == 8 {
        "8"@
    } else {
        "9"@
    }
}

/// Decimal text of a natural number, without leading zeros.
pub open spec fn decimal(n: nat) -> Seq<char>
    decreases n,
{
    if n < 10 {
        digit_text(n)
    } else {
        decimal(n / 10) + digit_text(n % 10)
    }
}

/// Decimal text of an integer, with a minus sign when it is negative.
pub open spec fn signed_decimal(x: int) -> Seq<char> {
    if x < 0 {
        "-"@ + decimal((-x) as nat)
    } else {
        decimal(x as nat)
    }
}

/// Text of one cell. Frequency and signal are written from the record's
/// numbers with their units; security and maximum rate show fixed text; the
/// other columns show the record's label for the column, or empty text when
/// the record has none.
pub open spec fn cell_text(b: Bss, c: BssTableColumnHeader) -> Seq<char> {
    match c {
        BssTableColumnHeader::Frequency => decimal(b.center_freq_mhz as nat) + " MHz"@,
        BssTableColumnHeader::Signal => signed_decimal(b.signal_dbm as int) + " dBm"@,
        BssTableColumnHeader::Security => "None"@,
        BssTableColumnHeader::MaxRate => "0.0 Mbps"@,
        _ => if c.position() < b.labels@.len() {
            b.labels@[c.position() as int]@
        } else {
            Seq::empty()
        },
    }
}

fn digit_str(d: u64) -> (r: &'static str)
    requires
        d < 10,
    ensures
        r@ == digit_text(d as nat),
{
    if d == 0 {
        "0"
    } else if d == 1 {
        "1"
    } else if d == 2 {
        "2"
    } else if d == 3 {
        "3"
    } else if d == 4 {
        "4"
    } else if d == 5 {
        "5"
    } else if d == 6 {
        "6"
    } else if d == 7 {
        "7"
    } else if d == 8 {
        "8"
    } else {
        "9"
    }
}

/// Appends the decimal text of `n`.
fn push_decimal(s: &mut String, n: u64)
    ensures
        final(s)@ == old(s)@ + decimal(n as nat),
    decreases n,
{
    if n >= 10 {
        push_decimal(s, n / 10);
        s.append(digit_str(n % 10));
        assert(final(s)@ =~= old(s)@ + decimal(n as nat));
    } else {
        s.append(digit_str(n));
    }
}

/// Decimal text of an integer followed by a unit.
pub fn signed_with_unit(x: i64, unit: &str) -> (r: String)
    requires
        x > i64::MIN,
    ensures
        r@ == signed_decimal(x as int) + unit@,
{
    let mut s = String::new();
    if x < 0 {
        s.append("-");
        push_decimal(&mut s, (-x) as u64);
    } else {
        push_decimal(&mut s, x as u64);
    }
    s.append(unit);
    assert(s@ =~= signed_decimal(x as int) + unit@);
    s
}

/// Text of the row of a record under the given columns.
pub open spec fn row_text(b: Bss, cols: Seq<BssTableColumnHeader>) -> Seq<Seq<char>> {
    cols.map_values(|c: BssTableColumnHeader| cell_text(b, c))
}

/// Text of a row as stored.
pub open spec fn row_model(r: Vec<String>) -> Seq<Seq<char>> {
    r@.map_values(|s: String| s@)
}

/// The selection that follows a move forward in a list of `len` items.
pub open spec fn next_selection(sel: Option<int>, len: int) -> Option<int> {
    match sel {
        Some(i) => if i + 1 < len { Some(i + 1) } else { Some(i) },
        None => if len > 0 { Some(0) } else { None },
    }
}

/// The selection that follows a move backward.
pub open spec fn previous_selection(sel: Option<int>) -> Option<int> {
    match sel {
        Some(i) => if i > 0 { Some(i - 1) } else { Some(i) },
        None => None,
    }
}

/// `sel` is the selection after a list was replaced by `s`, where `prev` is
/// the identifier that was selected before: the first item that carries
/// `prev`, else the first item, else nothing when `s` is empty.
pub open spec fn reconciled_selection<K>(ids: Seq<K>, prev: Option<K>, sel: Option<int>) -> bool {
    if ids.len() == 0 {
        sel is None
    } else if prev is Some && ids.contains(prev->Some_0) {
        &&& sel is Some
        &&& 0 <= sel->Some_0 < ids.len()
        &&& ids[sel->Some_0] == prev->Some_0
        &&& forall|q: int| 0 <= q < sel->Some_0 ==> ids[q] != prev->Some_0
    } else {
        sel == Some(0int)
    }
}

/// Hardware addresses of a sequence of records.
pub open spec fn bssids(s: Seq<Bss>) -> Seq<u64> {
    s.map_values(|b: Bss| b.bssid)
}

fn cell(b: &Bss, c: BssTableColumnHeader) -> (r: String)
    ensures
        r@ == cell_text(*b, c),
{
    match c {
        BssTableColumnHeader::Frequency => {
            let r = signed_with_unit(b.center_freq_mhz as i64, " MHz");
            assert(r@ == cell_text(*b, c));
            r
        },
        BssTableColumnHeader::Signal => signed_with_unit(b.signal_dbm as i64, " dBm"),
        BssTableColumnHeader::Security => String::from_str("None"),
        BssTableColumnHeader::MaxRate => String::from_str("0.0 Mbps"),
        _ => {
            let i = c.index();
            if i < b.labels.len() {
                b.labels[i].clone()
            } else {
                String::new()
            }
        },
    }
}

fn build_row(b: &Bss, cols: &Vec<BssTableColumnHeader>) -> (r: Vec<String>)
    ensures
        row_model(r) == row_text(*b, cols@),
{
    let mut r: Vec<String> = Vec::new();
    let mut i: usize = 0;
    while i < cols.len()
        invariant
            i <= cols@.len(),
            r@.len() == i,
            forall|k: int| 0 <= k < i ==> (#[trigger] r@[k])@ == cell_text(*b, cols@[k]),
        decreases cols@.len() - i,
    {
        r.push(cell(b, cols[i]));
        i += 1;
    }
    assert(row_model(r) =~= row_text(*b, cols@));
    r
}

fn build_rows(recs: &Vec<Bss>, cols: &Vec<BssTableColumnHeader>) -> (r: Vec<Vec<String>>)
    ensures
        r@.len() == recs@.len(),
        forall|k: int| 0 <= k < recs@.len() ==> row_model(#[trigger] r@[k]) == row_text(recs@[k], cols@),
{
    let mut r: Vec<Vec<String>> = Vec::new();
    let mut i: usize = 0;
    while i < recs.len()
        invariant
            i <= recs@.len(),
            r@.len() == i,
            forall|k: int| 0 <= k < i ==> row_model(#[trigger] r@[k]) == row_text(recs@[k], cols@),
        decreases recs@.len() - i,
    {
        r.push(build_row(&recs[i], cols));
        i += 1;
    }
    r
}

/// Index of the first record that carries hardware address `id`.
fn position_of(recs: &Vec<Bss>, id: u64) -> (r: Option<usize>)
    ensures
        match r {
            Some(k) => k < recs@.len() && recs@[k as int].bssid == id && forall|q: int|
                0 <= q < k ==> recs@[q].bssid != id,
            None => forall|q: int| 0 <= q < recs@.len() ==> recs@[q].bssid != id,
        },
{
    let mut i: usize = 0;
    while i < recs.len()
        invariant
            i <= recs@.len(),
            forall|q: int| 0 <= q < i ==> recs@[q].bssid != id,
        decreases recs@.len() - i,
    {
        if recs[i].bssid == id {
            return Some(i);
        }
        i += 1;
    }
    None
}

/// State of the table of basic service sets: the records in display order,
/// their rows, the selection, the focus flag and the active sort.
pub struct BssTableState {
    scan_results: Vec<Bss>,
    rows: Vec<Vec<String>>,
    column_headers: Vec<BssTableColumnHeader>,
    selected: Option<usize>,
    is_focused: bool,
    sorting: (BssTableColumnHeader, TableSortOrder),
}

impl BssTableState {
    /// The records in display order.
    pub closed spec fn records(&self) -> Seq<Bss> {
        self.scan_results@
    }

    /// The selected index, if any.
    pub closed spec fn selection(&self) -> Option<int> {
        match self.selected {
            Some(i) => Some(i as int),
            None => None,
        }
    }

    pub closed spec fn focused(&self) -> bool {
        self.is_focused
    }

    /// The active sort column and order.
    pub closed spec fn sort_key(&self) -> (BssTableColumnHeader, TableSortOrder) {
        self.sorting
    }

    pub closed spec fn columns(&self) -> Seq<BssTableColumnHeader> {
        self.column_headers@
    }

    /// The display rows.
    pub closed spec fn row_texts(&self) -> Seq<Seq<Seq<char>>> {
        self.rows@.map_values(|r: Vec<String>| row_model(r))
    }

    /// The record under the selection, if any.
    pub open spec fn selected_record(&self) -> Option<Bss> {
        match self.selection() {
            Some(i) => Some(self.records()[i]),
            None => None,
        }
    }

    /// The rows are those of the records, a selection exists exactly when
    /// there are records, and it lies among them.
    pub open spec fn wf(&self) -> bool {
        &&& self.columns() == default_columns()
        &&& (self.selection() is None <==> self.records().len() == 0)
        &&& (self.selection() is Some ==> 0 <= self.selection()->Some_0 < self.records().len())
        &&& self.row_texts() == self.records().map_values(|b: Bss| row_text(b, self.columns()))
    }

    /// An empty table, unfocused, sorted by hardware address in `Descending` order.
    pub fn new() -> (r: Self)
        ensures
            r.wf(),
            r.records().len() == 0,
            !r.focused(),
            r.sort_key() == (BssTableColumnHeader::Bssid, TableSortOrder::Descending),
    {
        let r = BssTableState {
            column_headers: vec![
                BssTableColumnHeader::Bssid,
                BssTableColumnHeader::Ssid,
                BssTableColumnHeader::Channel,
                BssTableColumnHeader::ChannelWidth,
                BssTableColumnHeader::Band,
                BssTableColumnHeader::Frequency,
                BssTableColumnHeader::Signal,
                BssTableColumnHeader::WiFiProtocols,
                BssTableColumnHeader::Security,
                BssTableColumnHeader::MaxRate,
            ],
            scan_results: Vec::new(),
            rows: Vec::new(),
            selected: None,
            is_focused: false,
            sorting: (BssTableColumnHeader::Bssid, TableSortOrder::Descending),
        };
        assert(r.column_headers@ =~= default_columns());
        assert(r.row_texts() =~= r.records().map_values(|b: Bss| row_text(b, r.columns())));
        r
    }

    pub fn is_focused(&self) -> (r: bool)
        ensures
            r == self.focused(),
    {
        self.is_focused
    }

    pub fn focus(&mut self)
        requires
            old(self).wf(),
        ensures
            final(self).wf(),
            final(self).focused(),
            final(self).records() == old(self).records(),
            final(self).selection() == old(self).selection(),
            final(self).sort_key() == old(self).sort_key(),
            final(self).row_texts() == old(self).row_texts(),
    {
        self.is_focused = true;
    }

    pub fn unfocus(&mut self)
        requires
            old(self).wf(),
        ensures
            final(self).wf(),
            !final(self).focused(),
            final(self).records() == old(self).records(),
            final(self).selection() == old(self).selection(),
            final(self).sort_key() == old(self).sort_key(),
            final(self).row_texts() == old(self).row_texts(),
    {
        self.is_focused = false;
    }

    fn rebuild_rows(&mut self)
        requires
            old(self).columns() == default_columns(),
        ensures
            final(self).row_texts() == final(self).records().map_values(|b: Bss| row_text(b, final(self).columns())),
            final(self).records() == old(self).records(),
            final(self).selection() == old(self).selection(),
            final(self).sort_key() == old(self).sort_key(),
            final(self).columns() == old(self).columns(),
            final(self).focused() == old(self).focused(),
    {
        self.rows = build_rows(&self.scan_results, &self.column_headers);
        assert(self.row_texts() =~= self.records().map_values(|b: Bss| row_text(b, self.columns())));
    }

    /// Replaces the records by a new scan. The new records are sorted by the
    /// active sort; the selection follows the hardware address that was
    /// selected, else falls to the first record, else is cleared when there
    /// are no records.
    pub fn set_scan_results(&mut self, scan_results: Vec<Bss>)
        requires
            old(self).wf(),
        ensures
            final(self).wf(),
            exists|p: Seq<int>|
                is_stable_sort_of(final(self).records(), scan_results@, p, old(self).sort_key().0, old(self).sort_key().1),
            reconciled_selection(
                bssids(final(self).records()),
                match old(self).selected_record() {
                    Some(b) => Some(b.bssid),
                    None => None,
                },
                final(self).selection(),
            ),
            final(self).sort_key() == old(self).sort_key(),
            final(self).focused() == old(self).focused(),
    {
        let ghost inp = scan_results@;
        let ghost key = self.sort_key();
        let mut recs = scan_results;
        sort_by_column(&mut recs, self.sorting.0, self.sorting.1);
        let ghost p = choose|p: Seq<int>| is_stable_sort_of(recs@, inp, p, self.sorting.0, self.sorting.1);
        let prev: Option<u64> = match self.selected {
            Some(i) => Some(self.scan_results[i].bssid),
            None => None,
        };
        let mut sel: Option<usize> = None;
        if let Some(id) = prev {
            sel = position_of(&recs, id);
        }
        if sel.is_none() && recs.len() > 0 {
            sel = Some(0);
        }
        let ghost ids = bssids(recs@);
        proof {
            if let Some(id) = prev {
                if ids.contains(id) {
                    let w = choose|q: int| 0 <= q < ids.len() && ids[q] == id;
                    assert(recs@[w].bssid == id);
                }
                match sel {
                    Some(k) => {
                        if k > 0 || recs@[0].bssid == id {
                            assert(ids[k as int] == id);
                        }
                    },
                    None => {},
                }
            }
        }
        self.scan_results = recs;
        self.selected = sel;
        self.rebuild_rows();
        assert(is_stable_sort_of(self.records(), inp, p, key.0, key.1));
    }

    /// Moves the selection one record forward; stays at the last record.
    pub fn select_next(&mut self)
        requires
            old(self).wf(),
        ensures
            final(self).wf(),
            final(self).selection() == next_selection(old(self).selection(), old(self).records().len() as int),
            final(self).records() == old(self).records(),
            final(self).sort_key() == old(self).sort_key(),
            final(self).focused() == old(self).focused(),
            final(self).row_texts() == old(self).row_texts(),
    {
        if let Some(selected) = self.selected {
            assert(selected < self.scan_results@.len());
            if selected < self.scan_results.len() - 1 {
                self.selected = Some(selected + 1);
            }
        } else if self.scan_results.len() > 0 {
            self.selected = Some(0);
        }
    }

    /// Moves the selection one record backward; stays at the first record.
    pub fn select_previous(&mut self)
        requires
            old(self).wf(),
        ensures
            final(self).wf(),
            final(self).selection() == previous_selection(old(self).selection()),
            final(self).records() == old(self).records(),
            final(self).sort_key() == old(self).sort_key(),
            final(self).focused() == old(self).focused(),
            final(self).row_texts() == old(self).row_texts(),
    {
        if let Some(selected) = self.selected {
            if selected > 0 {
                self.selected = Some(selected - 1);
            }
        }
    }

    /// The record under the selection, if any.
    pub fn selected_bss(&self) -> (r: Option<&Bss>)
        requires
            self.wf(),
        ensures
            match r {
                Some(b) => self.selected_record() == Some(*b),
                None => self.selected_record() is None,
            },
    {
        match self.selected {
            Some(i) => Some(&self.scan_results[i]),
            None => None,
        }
    }

    /// A copy of the elements of the selected record, or no elements when
    /// nothing is selected.
    pub fn selected_ies(&self) -> (r: Vec<Ie>)
        requires
            self.wf(),
        ensures
            ies_model(r@) == match self.selected_record() {
                Some(b) => ies_model(b.ies@),
                None => Seq::<IeModel>::empty(),
            },
    {
        match self.selected {
            Some(i) => copy_ies(self.scan_results[i].ies.as_slice()),
            None => {
                let r: Vec<Ie> = Vec::new();
                assert(ies_model(r@) =~= Seq::<IeModel>::empty());
                r
            },
        }
    }

    pub fn header(&self) -> (r: &Vec<BssTableColumnHeader>)
        ensures
            r@ == self.columns(),
    {
        &self.column_headers
    }

    /// Re-sorts the present records on `column` in `sort_order`, which
    /// becomes the active sort, and selects the first record.
    pub fn sort(&mut self, column: BssTableColumnHeader, sort_order: TableSortOrder)
        requires
            old(self).wf(),
        ensures
            final(self).wf(),
            exists|p: Seq<int>| is_stable_sort_of(final(self).records(), old(self).records(), p, column, sort_order),
            final(self).selection() == if old(self).records().len() > 0 { Some(0int) } else { None },
            final(self).sort_key() == (column, sort_order),
            final(self).focused() == old(self).focused(),
    {
        let ghost inp = self.scan_results@;
        sort_by_column(&mut self.scan_results, column, sort_order);
        let ghost p = choose|p: Seq<int>| is_stable_sort_of(self.scan_results@, inp, p, column, sort_order);
        self.rebuild_rows();
        self.sorting = (column, sort_order);
        if self.scan_results.len() > 0 {
            self.selected = Some(0);
        }
        assert(is_stable_sort_of(self.records(), inp, p, column, sort_order));
    }

    /// Number of records.
    pub fn len(&self) -> (r: usize)
        ensures
            r == self.records().len(),
    {
        self.scan_results.len()
    }

    pub fn selected(&self) -> (r: Option<usize>)
        ensures
            match r {
                Some(i) => self.selection() == Some(i as int),
                None => self.selection() is None,
            },
    {
        self.selected
    }

    pub fn sorting(&self) -> (r: (BssTableColumnHeader, TableSortOrder))
        ensures
            r == self.sort_key(),
    {
        self.sorting
    }

    pub fn records_in_order(&self) -> (r: &Vec<Bss>)
        ensures
            r@ == self.records(),
    {
        &self.scan_results
    }

    pub fn rows(&self) -> (r: &Vec<Vec<String>>)
        ensures
            r@.map_values(|x: Vec<String>| row_model(x)) == self.row_texts(),
    {
        &self.rows
    }
}

impl Default for BssTableState {
    fn default() -> (r: Self)
        ensures
            r.wf(),
            r.records().len() == 0,
            !r.focused(),
            r.sort_key() == (BssTableColumnHeader::Bssid, TableSortOrder::Descending),
    {
        BssTableState::new()
    }
}

} // verus!
