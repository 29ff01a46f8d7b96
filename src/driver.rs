use vstd::prelude::*;
use crate::app::{App, cycled_focus};
use crate::scan::Bss;
use crate::widgets::bss_table::{
    BssTableColumnHeader, bssids, is_stable_sort_of, next_selection, previous_selection,
    reconciled_selection,
};
use crate::widgets::TableSortOrder;

verus! {

/// A key press, as far as the dashboard tells keys apart.
#[derive(Debug, Copy, Clone, PartialEq, Eq, Structural)]
pub enum Key {
    Char(char),
    Up,
    Down,
    Enter,
    Other,
}

/// What a key asks the dashboard to do.
#[derive(Debug, Copy, Clone, PartialEq, Eq, Structural)]
pub enum Command {
    Quit,
    Sort(BssTableColumnHeader, TableSortOrder),
    SelectPrevious,
    SelectNext,
    CycleFocus,
    Ignore,
}

/// What the main loop does after handling one message.
#[derive(Debug, Copy, Clone, PartialEq, Eq, Structural)]
pub enum Flow {
    /// Nothing changed; go on.
    Continue,
    /// The state changed; draw it, then go on.
    Redraw,
    /// Leave the loop.
    Quit,
}

/// One non-blocking look at the channel of scans.
pub enum ScanPoll {
    Snapshot(Vec<Bss>),
    Empty,
    Disconnected,
}

/// One non-blocking look at the channel of input events. Events other than
/// key presses arrive as `NotAKey`.
#[derive(Debug, Copy, Clone, PartialEq, Eq, Structural)]
pub enum InputPoll {
    Pressed(Key),
    NotAKey,
    Empty,
    Disconnected,
}

/// The key bindings: `q` quits, `b` and `s` sort by hardware address and by
/// name in `Descending` order, up and down move the selection, enter moves
/// the focus.
pub open spec fn spec_command_for_key(k: Key) -> Command {
    match k {
        Key::Char('q') => Command::Quit,
        Key::Char('b') => Command::Sort(BssTableColumnHeader::Bssid, TableSortOrder::Descending),
        Key::Char('s') => Command::Sort(BssTableColumnHeader::Ssid, TableSortOrder::Descending),
        Key::Up => Command::SelectPrevious,
        Key::Down => Command::SelectNext,
        Key::Enter => Command::CycleFocus,
        _ => Command::Ignore,
    }
}

pub fn command_for_key(k: Key) -> (r: Command)
    ensures
        r == spec_command_for_key(k),
{
    match k {
        Key::Char('q') => Command::Quit,
        Key::Char('b') => Command::Sort(BssTableColumnHeader::Bssid, TableSortOrder::Descending),
        Key::Char('s') => Command::Sort(BssTableColumnHeader::Ssid, TableSortOrder::Descending),
        Key::Up => Command::SelectPrevious,
        Key::Down => Command::SelectNext,
        Key::Enter => Command::CycleFocus,
        _ => Command::Ignore,
    }
}

/// The flow that follows a command: quitting leaves, ignoring goes on, and
/// every other command changes the state and asks for a redraw.
pub open spec fn flow_of(c: Command) -> Flow {
    match c {
        Command::Quit => Flow::Quit,
        Command::Ignore => Flow::Continue,
        _ => Flow::Redraw,
    }
}

/// `new` is `old` after a scan `v` replaced the records: they are `v` sorted
/// stably by the active sort, the selection follows the hardware address
/// that was selected, and the sort and focus are kept.
pub open spec fn replaced(old: App, v: Seq<Bss>, new: App) -> bool {
    &&& exists|p: Seq<int>|
        is_stable_sort_of(new.primary().records(), v, p, old.primary().sort_key().0, old.primary().sort_key().1)
    &&& reconciled_selection(
        bssids(new.primary().records()),
        match old.primary().selected_record() {
            Some(b) => Some(b.bssid),
            None => None,
        },
        new.primary().selection(),
    )
    &&& new.primary().sort_key() == old.primary().sort_key()
    &&& new.primary().focused() == old.primary().focused()
}

/// `new` is `old` after command `c`: a sort re-sorts the records stably,
/// selects the first one and becomes the active sort; a move changes the
/// selection of the focused table only; a focus cycle flips the focus only;
/// quitting and ignoring change nothing.
pub open spec fn applied(old: App, c: Command, new: App) -> bool {
    match c {
        Command::Sort(col, ord) => {
            &&& exists|p: Seq<int>| is_stable_sort_of(new.primary().records(), old.primary().records(), p, col, ord)
            &&& new.primary().selection() == if old.primary().records().len() > 0 {
                Some(0int)
            } else {
                None
            }
            &&& new.primary().sort_key() == (col, ord)
            &&& new.primary().focused() == old.primary().focused()
        },
        Command::SelectNext => if old.primary().focused() {
            &&& new.primary().records() == old.primary().records()
            &&& new.primary().selection() == next_selection(
                old.primary().selection(),
                old.primary().records().len() as int,
            )
            &&& new.primary().sort_key() == old.primary().sort_key()
            &&& new.primary().focused()
        } else {
            &&& new.primary() == old.primary()
            &&& new.detail().elements() == old.detail().elements()
            &&& new.detail().selection() == next_selection(
                old.detail().selection(),
                old.detail().elements().len() as int,
            )
        },
        Command::SelectPrevious => if old.primary().focused() {
            &&& new.primary().records() == old.primary().records()
            &&& new.primary().selection() == previous_selection(old.primary().selection())
            &&& new.primary().sort_key() == old.primary().sort_key()
            &&& new.primary().focused()
        } else {
            &&& new.primary() == old.primary()
            &&& new.detail().elements() == old.detail().elements()
            &&& new.detail().selection() == previous_selection(old.detail().selection())
        },
        Command::CycleFocus => {
            &&& new.primary().focused() == cycled_focus(old.primary().focused())
            &&& new.primary().records() == old.primary().records()
            &&& new.primary().selection() == old.primary().selection()
            &&& new.primary().sort_key() == old.primary().sort_key()
            &&& new.detail().elements() == old.detail().elements()
            &&& new.detail().selection() == old.detail().selection()
        },
        Command::Quit | Command::Ignore => new == old,
    }
}

impl App {
    /// Carries out one command.
    pub fn apply(&mut self, c: Command) -> (r: Flow)
        requires
            old(self).wf(),
        ensures
            final(self).wf(),
            r == flow_of(c),
            applied(*old(self), c, *final(self)),
    {
        match c {
            Command::Quit => Flow::Quit,
            Command::Sort(col, ord) => {
                self.sort_bss_table(col, ord);
                Flow::Redraw
            },
            Command::SelectPrevious => {
                self.select_previous();
                Flow::Redraw
            },
            Command::SelectNext => {
                self.select_next();
                Flow::Redraw
            },
            Command::CycleFocus => {
                self.focus_next();
                Flow::Redraw
            },
            Command::Ignore => Flow::Continue,
        }
    }

    /// Handles one look at the channel of scans: a snapshot replaces the
    /// records and asks for a redraw, an empty channel changes nothing, and a
    /// channel without sender ends the loop.
    pub fn on_scan(&mut self, poll: ScanPoll) -> (r: Flow)
        requires
            old(self).wf(),
        ensures
            final(self).wf(),
            match poll {
                ScanPoll::Snapshot(v) => r == Flow::Redraw && replaced(*old(self), v@, *final(self)),
                ScanPoll::Empty => r == Flow::Continue && *final(self) == *old(self),
                ScanPoll::Disconnected => r == Flow::Quit && *final(self) == *old(self),
            },
    {
        match poll {
            ScanPoll::Snapshot(v) => {
                self.update_scan_results(v);
                Flow::Redraw
            },
            ScanPoll::Empty => Flow::Continue,
            ScanPoll::Disconnected => Flow::Quit,
        }
    }

    /// Handles one look at the channel of input events: a key runs its
    /// command, other events and an empty channel change nothing, and a
    /// channel without sender ends the loop.
    pub fn on_input(&mut self, poll: InputPoll) -> (r: Flow)
        requires
            old(self).wf(),
        ensures
            final(self).wf(),
            match poll {
                InputPoll::Pressed(k) => r == flow_of(spec_command_for_key(k)) && applied(
                    *old(self),
                    spec_command_for_key(k),
                    *final(self),
                ),
                InputPoll::NotAKey => r == Flow::Continue && *final(self) == *old(self),
                InputPoll::Empty => r == Flow::Continue && *final(self) == *old(self),
                InputPoll::Disconnected => r == Flow::Quit && *final(self) == *old(self),
            },
    {
        match poll {
            InputPoll::Pressed(k) => {
                let c = command_for_key(k);
                self.apply(c)
            },
            InputPoll::NotAKey => Flow::Continue,
            InputPoll::Empty => Flow::Continue,
            InputPoll::Disconnected => Flow::Quit,
        }
    }
}

} // verus!
