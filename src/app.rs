use vstd::prelude::*;
use crate::scan::{Bss, IeModel, ies_model};
use crate::widgets::bss_table::{
    BssTableColumnHeader, BssTableState, bssids, is_stable_sort_of, reconciled_selection,
};
use crate::widgets::ie_table::{IeTableState, ie_ids, kept_selection};
use crate::widgets::TableSortOrder;

verus! {

/// The element list that the detail table shows for a primary selection.
pub open spec fn detail_of(sel: Option<Bss>) -> Seq<IeModel> {
    match sel {
        Some(b) => ies_model(b.ies@),
        None => Seq::empty(),
    }
}

/// Which table has focus after one cycle, given whether the primary table
/// had it.
pub open spec fn cycled_focus(primary_focused: bool) -> bool {
    !primary_focused
}

/// Cycling focus twice gives focus back to the table that had it.
pub proof fn cycle_focus_twice(primary_focused: bool)
    ensures
        cycled_focus(cycled_focus(primary_focused)) == primary_focused,
{
}

/// The two tables of the dashboard: the basic service sets, and the
/// information elements of the selected one.
pub struct App {
    bss_table: BssTableState,
    ie_table: IeTableState,
}

impl App {
    pub closed spec fn primary(&self) -> BssTableState {
        self.bss_table
    }

    pub closed spec fn detail(&self) -> IeTableState {
        self.ie_table
    }

    /// Both tables are well formed, exactly one of them has focus, and the
    /// detail table shows the elements of the selected record.
    pub open spec fn wf(&self) -> bool {
        &&& self.primary().wf()
        &&& self.detail().wf()
        &&& self.primary().focused() != self.detail().focused()
        &&& self.detail().elements() == detail_of(self.primary().selected_record())
    }

    /// Empty tables, with focus on the table of basic service sets.
    pub fn new() -> (r: Self)
        ensures
            r.wf(),
            r.primary().focused(),
            r.primary().records().len() == 0,
            r.primary().sort_key() == (BssTableColumnHeader::Bssid, TableSortOrder::Descending),
    {
        let mut bss_table = BssTableState::new();
        bss_table.focus();
        let r = App { bss_table, ie_table: IeTableState::new() };
        assert(r.detail().elements() =~= detail_of(r.primary().selected_record()));
        r
    }

    /// Shows a new scan in the primary table, and the elements of the record
    /// then selected in the detail table.
    pub fn update_scan_results(&mut self, scan_results: Vec<Bss>)
        requires
            old(self).wf(),
        ensures
            final(self).wf(),
            exists|p: Seq<int>|
                is_stable_sort_of(
                    final(self).primary().records(),
                    scan_results@,
                    p,
                    old(self).primary().sort_key().0,
                    old(self).primary().sort_key().1,
                ),
            reconciled_selection(
                bssids(final(self).primary().records()),
                match old(self).primary().selected_record() {
                    Some(b) => Some(b.bssid),
                    None => None,
                },
                final(self).primary().selection(),
            ),
            final(self).primary().sort_key() == old(self).primary().sort_key(),
            final(self).primary().focused() == old(self).primary().focused(),
    {
        self.bss_table.set_scan_results(scan_results);
        self.reset_ie_table();
    }

    /// Sorts the primary table, which selects its first record, and shows
    /// that record's elements.
    pub fn sort_bss_table(&mut self, column_header: BssTableColumnHeader, sort_order: TableSortOrder)
        requires
            old(self).wf(),
        ensures
            final(self).wf(),
            final(self).primary().sort_key() == (column_header, sort_order),
            exists|p: Seq<int>|
                is_stable_sort_of(final(self).primary().records(), old(self).primary().records(), p, column_header, sort_order),
            final(self).primary().selection() == if old(self).primary().records().len() > 0 {
                Some(0int)
            } else {
                None
            },
            final(self).primary().focused() == old(self).primary().focused(),
    {
        self.bss_table.sort(column_header, sort_order);
        self.reset_ie_table();
    }

    /// Puts the elements of the selected record (none when nothing is
    /// selected) into the detail table.
    pub fn reset_ie_table(&mut self)
        requires
            old(self).primary().wf(),
            old(self).detail().wf(),
            old(self).primary().focused() != old(self).detail().focused(),
        ensures
            final(self).wf(),
            final(self).primary() == old(self).primary(),
            final(self).detail().focused() == old(self).detail().focused(),
            kept_selection(
                ie_ids(final(self).detail().elements()),
                old(self).detail().selected_pair(),
                final(self).detail().selection(),
            ),
    {
        let ies = self.bss_table.selected_ies();
        self.ie_table.set_ies(ies.as_slice());
    }

    /// Moves the selection of the focused table forward.
    pub fn select_next(&mut self)
        requires
            old(self).wf(),
        ensures
            final(self).wf(),
            old(self).primary().focused() ==> final(self).primary().selection() == crate::widgets::bss_table::next_selection(
                old(self).primary().selection(),
                old(self).primary().records().len() as int,
            ),
            !old(self).primary().focused() ==> final(self).primary() == old(self).primary(),
            !old(self).primary().focused() ==> final(self).detail().elements() == old(self).detail().elements()
                && final(self).detail().selection() == crate::widgets::bss_table::next_selection(
                old(self).detail().selection(),
                old(self).detail().elements().len() as int,
            ),
            final(self).primary().records() == old(self).primary().records(),
            final(self).primary().focused() == old(self).primary().focused(),
            final(self).primary().sort_key() == old(self).primary().sort_key(),
    {
        if self.bss_table.is_focused() {
            self.bss_table.select_next();
        } else {
            self.ie_table.select_next();
        }
        self.reset_ie_table();
    }

    /// Moves the selection of the focused table backward.
    pub fn select_previous(&mut self)
        requires
            old(self).wf(),
        ensures
            final(self).wf(),
            old(self).primary().focused() ==> final(self).primary().selection() == crate::widgets::bss_table::previous_selection(
                old(self).primary().selection(),
            ),
            !old(self).primary().focused() ==> final(self).primary() == old(self).primary(),
            !old(self).primary().focused() ==> final(self).detail().elements() == old(self).detail().elements()
                && final(self).detail().selection() == crate::widgets::bss_table::previous_selection(
                old(self).detail().selection(),
            ),
            final(self).primary().records() == old(self).primary().records(),
            final(self).primary().focused() == old(self).primary().focused(),
            final(self).primary().sort_key() == old(self).primary().sort_key(),
    {
        if self.bss_table.is_focused() {
            self.bss_table.select_previous();
        } else {
            self.ie_table.select_previous();
        }
        self.reset_ie_table();
    }

    /// Hands focus to the other table.
    pub fn focus_next(&mut self)
        requires
            old(self).wf(),
        ensures
            final(self).wf(),
            final(self).primary().focused() == cycled_focus(old(self).primary().focused()),
            final(self).primary().sort_key() == old(self).primary().sort_key(),
            final(self).primary().records() == old(self).primary().records(),
            final(self).primary().selection() == old(self).primary().selection(),
            final(self).detail().elements() == old(self).detail().elements(),
            final(self).detail().selection() == old(self).detail().selection(),
    {
        if self.bss_table.is_focused() {
            self.ie_table.focus();
            self.bss_table.unfocus();
        } else {
            self.bss_table.focus();
            self.ie_table.unfocus();
        }
    }

    pub fn bss_table(&self) -> (r: &BssTableState)
        ensures
            *r == self.primary(),
    {
        &self.bss_table
    }

    pub fn ie_table(&self) -> (r: &IeTableState)
        ensures
            *r == self.detail(),
    {
        &self.ie_table
    }
}

impl Default for App {
    fn default() -> (r: Self)
        ensures
            r.wf(),
            r.primary().focused(),
            r.primary().records().len() == 0,
            r.primary().sort_key() == (BssTableColumnHeader::Bssid, TableSortOrder::Descending),
    {
        App::new()
    }
}

} // verus!
