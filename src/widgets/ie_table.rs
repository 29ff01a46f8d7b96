use vstd::prelude::*;
use crate::scan::{Ie, IeModel, copy_ies, ies_model};
use crate::widgets::bss_table::{next_selection, previous_selection, reconciled_selection};

verus! {

/// The table of information elements, as handed to a drawing surface.
pub struct IeTable {}

impl IeTable {
    pub fn new() -> (r: IeTable) {
        IeTable {}
    }
}

/// A column of the table of information elements.
#[derive(Debug, Copy, Clone, PartialEq, Eq, Structural)]
pub enum IeTableColumnHeader {
    Id,
    Element,
    Length,
}

impl IeTableColumnHeader {
    /// Place of the column among all columns, in declaration order.
    pub open spec fn position(self) -> nat {
        match self {
            IeTableColumnHeader::Id => 0,
            IeTableColumnHeader::Element => 1,
            IeTableColumnHeader::Length => 2,
        }
    }

    pub fn index(&self) -> (r: usize)
        ensures
            r == self.position(),
    {
        match self {
            IeTableColumnHeader::Id => 0,
            IeTableColumnHeader::Element => 1,
            IeTableColumnHeader::Length => 2,
        }
    }

    /// Title of the column as shown in the header row.
    pub open spec fn spec_title(self) -> Seq<char> {
        match self {
            IeTableColumnHeader::Id => "ID"@,
            IeTableColumnHeader::Element => "Element"@,
            IeTableColumnHeader::Length => "Length"@,
        }
    }

    pub fn title(&self) -> (r: &'static str)
        ensures
            r@ == self.spec_title(),
    {
        match self {
            IeTableColumnHeader::Id => "ID",
            IeTableColumnHeader::Element => "Element",
            IeTableColumnHeader::Length => "Length",
        }
    }
}

/// The columns of the table, in the order they are shown.
pub open spec fn ie_columns() -> Seq<IeTableColumnHeader> {
    seq![IeTableColumnHeader::Id, IeTableColumnHeader::Element, IeTableColumnHeader::Length]
}

/// Text of one cell: the element's label for the column, or empty text.
pub open spec fn ie_cell_text(e: IeModel, c: IeTableColumnHeader) -> Seq<char> {
    if c.position() < e.labels.len() {
        e.labels[c.position() as int]@
    } else {
        Seq::empty()
    }
}

/// Text of the row of an element under the given columns.
pub open spec fn ie_row_text(e: IeModel, cols: Seq<IeTableColumnHeader>) -> Seq<Seq<char>> {
    cols.map_values(|c: IeTableColumnHeader| ie_cell_text(e, c))
}

/// `sel` is the selection after the elements were replaced by ones with
/// identifiers `ids`, where `prev` holds the index that was selected and the
/// identifier of the element there: the same index when the new element
/// there carries that identifier, else as [`reconciled_selection`] says.
pub open spec fn kept_selection(ids: Seq<u32>, prev: Option<(int, u32)>, sel: Option<int>) -> bool {
    match prev {
        Some((i, id)) => if 0 <= i < ids.len() && ids[i] == id {
            sel == Some(i)
        } else {
            reconciled_selection(ids, Some(id), sel)
        },
        None => reconciled_selection(ids, None::<u32>, sel),
    }
}

/// Identifiers of a sequence of elements.
pub open spec fn ie_ids(s: Seq<IeModel>) -> Seq<u32> {
    s.map_values(|e: IeModel| e.id)
}

fn ie_cell(e: &Ie, c: IeTableColumnHeader) -> (r: String)
    ensures
        r@ == ie_cell_text(e@, c),
{
    let i = c.index();
    if i < e.labels.len() {
        e.labels[i].clone()
    } else {
        String::new()
    }
}

fn build_ie_rows(ies: &Vec<Ie>, cols: &Vec<IeTableColumnHeader>) -> (r: Vec<Vec<String>>)
    ensures
        r@.len() == ies@.len(),
        forall|k: int|
            0 <= k < ies@.len() ==> (#[trigger] r@[k])@.map_values(|s: String| s@) == ie_row_text(
                ies@[k]@,
                cols@,
            ),
{
    let mut r: Vec<Vec<String>> = Vec::new();
    let mut i: usize = 0;
    while i < ies.len()
        invariant
            i <= ies@.len(),
            r@.len() == i,
            forall|k: int|
                0 <= k < i ==> (#[trigger] r@[k])@.map_values(|s: String| s@) == ie_row_text(
                    ies@[k]@,
                    cols@,
                ),
        decreases ies@.len() - i,
    {
        let mut row: Vec<String> = Vec::new();
        let mut j: usize = 0;
        while j < cols.len()
            invariant
                i < ies@.len(),
                j <= cols@.len(),
                row@.len() == j,
                forall|k: int| 0 <= k < j ==> (#[trigger] row@[k])@ == ie_cell_text(ies@[i as int]@, cols@[k]),
            decreases cols@.len() - j,
        {
            row.push(ie_cell(&ies[i], cols[j]));
            j += 1;
        }
        assert(row@.map_values(|s: String| s@) =~= ie_row_text(ies@[i as int]@, cols@));
        r.push(row);
        i += 1;
    }
    r
}

/// Index of the first element with identifier `id`.
fn position_of_ie(ies: &[Ie], id: u32) -> (r: Option<usize>)
    ensures
        match r {
            Some(k) => k < ies@.len() && ies@[k as int].id == id && forall|q: int|
                0 <= q < k ==> ies@[q].id != id,
            None => forall|q: int| 0 <= q < ies@.len() ==> ies@[q].id != id,
        },
{
    let mut i: usize = 0;
    while i < ies.len()
        invariant
            i <= ies@.len(),
            forall|q: int| 0 <= q < i ==> ies@[q].id != id,
        decreases ies@.len() - i,
    {
        if ies[i].id == id {
            return Some(i);
        }
        i += 1;
    }
    None
}

/// State of the table of information elements: the elements of one record,
/// their rows, the selection and the focus flag.
pub struct IeTableState {
    ies: Vec<Ie>,
    rows: Vec<Vec<String>>,
    column_headers: Vec<IeTableColumnHeader>,
    selected: Option<usize>,
    is_focused: bool,
}

impl IeTableState {
    /// The elements, in the order of their record.
    pub closed spec fn elements(&self) -> Seq<IeModel> {
        ies_model(self.ies@)
    }

    /// The selected index, if any.
    pub closed spec fn selection(&self) -> Option<int> {
        match self.selected {
            Some(i) => Some(i as int),
            None => None,
        }
    }

    pub closed spec fn focused(&self) -> bool {
        self.is_focused
    }

    pub closed spec fn columns(&self) -> Seq<IeTableColumnHeader> {
        self.column_headers@
    }

    /// The display rows.
    pub closed spec fn row_texts(&self) -> Seq<Seq<Seq<char>>> {
        self.rows@.map_values(|r: Vec<String>| r@.map_values(|s: String| s@))
    }

    /// The element under the selection, if any.
    pub open spec fn selected_element(&self) -> Option<IeModel> {
        match self.selection() {
            Some(i) => Some(self.elements()[i]),
            None => None,
        }
    }

    /// The rows are those of the elements, a selection exists exactly when
    /// there are elements, and it lies among them.
    pub open spec fn wf(&self) -> bool {
        &&& self.columns() == ie_columns()
        &&& (self.selection() is None <==> self.elements().len() == 0)
        &&& (self.selection() is Some ==> 0 <= self.selection()->Some_0 < self.elements().len())
        &&& self.row_texts() == self.elements().map_values(|e: IeModel| ie_row_text(e, self.columns()))
    }

    /// An empty, unfocused table.
    pub fn new() -> (r: Self)
        ensures
            r.wf(),
            r.elements().len() == 0,
            !r.focused(),
    {
        let r = IeTableState {
            column_headers: vec![IeTableColumnHeader::Id, IeTableColumnHeader::Element, IeTableColumnHeader::Length],
            ies: Vec::new(),
            rows: Vec::new(),
            selected: None,
            is_focused: false,
        };
        assert(r.column_headers@ =~= ie_columns());
        assert(r.elements() =~= Seq::<IeModel>::empty());
        assert(r.row_texts() =~= r.elements().map_values(|e: IeModel| ie_row_text(e, r.columns())));
        r
    }

    pub fn is_focused(&self) -> (r: bool)
        ensures
            r == self.focused(),
    {
        self.is_focused
    }

    pub fn focus(&mut self)
        requires
            old(self).wf(),
        ensures
            final(self).wf(),
            final(self).focused(),
            final(self).elements() == old(self).elements(),
            final(self).selection() == old(self).selection(),
    {
        self.is_focused = true;
    }

    pub fn unfocus(&mut self)
        requires
            old(self).wf(),
        ensures
            final(self).wf(),
            !final(self).focused(),
            final(self).elements() == old(self).elements(),
            final(self).selection() == old(self).selection(),
    {
        self.is_focused = false;
    }

    /// The selected index with the identifier of the element there, if any.
    pub open spec fn selected_pair(&self) -> Option<(int, u32)> {
        match self.selection() {
            Some(i) => Some((i, self.elements()[i].id)),
            None => None,
        }
    }

    /// Replaces the elements by `ies`, kept in their order. The selection
    /// stays where it is when the element there carries the identifier that
    /// was selected; else it moves to the first element with that
    /// identifier, else to the first element, else is cleared when there are
    /// no elements.
    pub fn set_ies(&mut self, ies: &[Ie])
        requires
            old(self).wf(),
        ensures
            final(self).wf(),
            final(self).elements() == ies_model(ies@),
            kept_selection(ie_ids(final(self).elements()), old(self).selected_pair(), final(self).selection()),
            final(self).focused() == old(self).focused(),
    {
        let prev: Option<(usize, u32)> = match self.selected {
            Some(i) => Some((i, self.ies[i].id)),
            None => None,
        };
        let mut sel: Option<usize> = None;
        if let Some((i, id)) = prev {
            if i < ies.len() && ies[i].id == id {
                sel = Some(i);
            } else {
                sel = position_of_ie(ies, id);
            }
        }
        if sel.is_none() && ies.len() > 0 {
            sel = Some(0);
        }
        let copied = copy_ies(ies);
        let ghost ids = ie_ids(ies_model(ies@));
        proof {
            assert(ids =~= ie_ids(ies_model(ies@)));
            if let Some((i, id)) = prev {
                if !(i < ies@.len() && ies@[i as int].id == id) {
                    if ids.contains(id) {
                        let w = choose|q: int| 0 <= q < ids.len() && ids[q] == id;
                        assert(ies@[w].id == id);
                    }
                    match sel {
                        Some(k) => {
                            if k > 0 || ies@[0].id == id {
                                assert(ids[k as int] == id);
                            }
                        },
                        None => {},
                    }
                }
            }
        }
        self.rows = build_ie_rows(&copied, &self.column_headers);
        self.ies = copied;
        self.selected = sel;
        assert(self.row_texts() =~= self.elements().map_values(|e: IeModel| ie_row_text(e, self.columns())));
    }

    /// Moves the selection one element forward; stays at the last element.
    pub fn select_next(&mut self)
        requires
            old(self).wf(),
        ensures
            final(self).wf(),
            final(self).selection() == next_selection(old(self).selection(), old(self).elements().len() as int),
            final(self).elements() == old(self).elements(),
            final(self).focused() == old(self).focused(),
    {
        if let Some(selected) = self.selected {
            assert(selected < self.ies@.len());
            if selected < self.ies.len() - 1 {
                self.selected = Some(selected + 1);
            }
        } else if self.ies.len() > 0 {
            self.selected = Some(0);
        }
    }

    /// Moves the selection one element backward; stays at the first element.
    pub fn select_previous(&mut self)
        requires
            old(self).wf(),
        ensures
            final(self).wf(),
            final(self).selection() == previous_selection(old(self).selection()),
            final(self).elements() == old(self).elements(),
            final(self).focused() == old(self).focused(),
    {
        if let Some(selected) = self.selected {
            if selected > 0 {
                self.selected = Some(selected - 1);
            }
        }
    }

    /// The element under the selection, if any.
    pub fn selected_ie(&self) -> (r: Option<&Ie>)
        requires
            self.wf(),
        ensures
            match r {
                Some(e) => self.selected_element() == Some(e@),
                None => self.selected_element() is None,
            },
    {
        match self.selected {
            Some(i) => Some(&self.ies[i]),
            None => None,
        }
    }

    pub fn header(&self) -> (r: &Vec<IeTableColumnHeader>)
        ensures
            r@ == self.columns(),
    {
        &self.column_headers
    }

    /// Number of elements.
    pub fn len(&self) -> (r: usize)
        ensures
            r == self.elements().len(),
    {
        self.ies.len()
    }

    pub fn selected(&self) -> (r: Option<usize>)
        ensures
            match r {
                Some(i) => self.selection() == Some(i as int),
                None => self.selection() is None,
            },
    {
        self.selected
    }

    pub fn ies(&self) -> (r: &Vec<Ie>)
        ensures
            ies_model(r@) == self.elements(),
    {
        &self.ies
    }

    pub fn rows(&self) -> (r: &Vec<Vec<String>>)
        ensures
            r@.map_values(|x: Vec<String>| x@.map_values(|s: String| s@)) == self.row_texts(),
    {
        &self.rows
    }
}

impl Default for IeTableState {
    fn default() -> (r: Self)
        ensures
            r.wf(),
            r.elements().len() == 0,
            !r.focused(),
    {
        IeTableState::new()
    }
}

} // verus!
