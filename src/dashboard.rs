use vstd::prelude::*;

use crate::db::{PGStatActivity, PGSystemInfo};
use crate::event::{Event, Key};
use crate::render::{frame_of, render_frame, FrameModel};
use crate::selection::{clamp_selection, select_down, select_up, Selection};

verus! {

/// What the main loop does after the controller has taken an event.
#[derive(Clone, Copy, Debug, PartialEq, Eq, Structural)]
pub enum Command {
    /// Leave the loop: no further fetch and no further frame.
    Quit,
    /// Fetch a new snapshot and activities, hand them to `apply_refresh`,
    /// then draw.
    Fetch,
    /// Draw the current state.
    Redraw,
}

/// The command that follows an event.
pub open spec fn command_of(e: Event) -> Command {
    match e {
        Event::Input(Key::Quit) => Command::Quit,
        Event::Input(Key::Refresh) => Command::Fetch,
        Event::Tick => Command::Fetch,
        _ => Command::Redraw,
    }
}

/// The selection after an event among `n` rows, before any fetch it asks for.
pub open spec fn selection_after(e: Event, sel: Option<usize>, n: usize) -> Option<usize> {
    match e {
        Event::Input(Key::Up) => select_up(sel, n),
        Event::Input(Key::Down) => select_down(sel, n),
        _ => sel,
    }
}

/// The selection after a run of events among `n` rows, taken in order.
pub open spec fn selection_after_all(events: Seq<Event>, sel: Option<usize>, n: usize) -> Option<
    usize,
>
    decreases events.len(),
{
    if events.len() == 0 {
        sel
    } else {
        selection_after_all(events.drop_first(), selection_after(events[0], sel, n), n)
    }
}

/// A selection that fits a table of `n` rows: present and below `n` when
/// there are rows, absent when there are none.
pub open spec fn fits(sel: Option<usize>, n: usize) -> bool {
    match sel {
        Some(i) => i < n,
        None => n == 0,
    }
}

/// Any run of Up and Down keys, with no refresh between them, leaves a
/// fitting selection fitting the same rows.
pub proof fn lemma_navigation_stays_in_range(events: Seq<Event>, sel: Option<usize>, n: usize)
    requires
        forall|i: int|
            0 <= i < events.len() ==> #[trigger] events[i] == Event::Input(Key::Up) || events[i]
                == Event::Input(Key::Down),
        fits(sel, n),
    ensures
        fits(selection_after_all(events, sel, n), n),
    decreases events.len(),
{
    if events.len() > 0 {
        let next = selection_after(events[0], sel, n);
        assert(events[0] == Event::Input(Key::Up) || events[0] == Event::Input(Key::Down));
        assert forall|i: int| 0 <= i < events.drop_first().len() implies #[trigger] events.drop_first()[i]
            == Event::Input(Key::Up) || events.drop_first()[i] == Event::Input(Key::Down) by {
            assert(events.drop_first()[i] == events[i + 1]);
        }
        lemma_navigation_stays_in_range(events.drop_first(), next, n);
    }
}

/// Navigation wraps exactly at the ends: Down on the last row selects the
/// first, Up on the first row selects the last.
pub proof fn lemma_navigation_wraps(n: usize)
    requires
        n > 0,
    ensures
        selection_after(Event::Input(Key::Down), Some((n - 1) as usize), n) == Some(0usize),
        selection_after(Event::Input(Key::Up), Some(0usize), n) == Some((n - 1) as usize),
{
}

/// After a refresh to `n` rows the selection is absent when `n` is zero, and
/// is the last row when it pointed at or past the new end.
pub proof fn lemma_refresh_clamps(sel: Option<usize>, n: usize)
    ensures
        n == 0 ==> clamp_selection(sel, n) is None,
        match sel {
            Some(i) => 0 < n && n < i + 1 ==> clamp_selection(sel, n) == Some((n - 1) as usize),
            None => true,
        },
        fits(clamp_selection(sel, n), n),
{
}

/// The dashboard's whole state: the latest snapshot, the activities fetched
/// with it in the order they came, and the selected row.
pub struct StatActivityView {
    system_info: PGSystemInfo,
    activities: Vec<PGStatActivity>,
    state: Selection,
}

impl StatActivityView {
    pub closed spec fn spec_system_info(&self) -> PGSystemInfo {
        self.system_info
    }

    pub closed spec fn spec_activities(&self) -> Seq<PGStatActivity> {
        self.activities@
    }

    pub closed spec fn spec_selected(&self) -> Option<usize> {
        self.state.spec_selected()
    }

    /// The selection counts exactly the rows held, and lies among them.
    pub closed spec fn wf(&self) -> bool {
        &&& self.state.wf()
        &&& self.state.spec_row_count() == self.activities@.len()
    }

    /// The state after the first fetch: the first row is selected if there
    /// is any.
    pub fn new(system_info: PGSystemInfo, activities: Vec<PGStatActivity>) -> (r: StatActivityView)
        ensures
            r.wf(),
            r.spec_system_info() == system_info,
            r.spec_activities() == activities@,
            r.spec_selected() == clamp_selection(None, activities@.len() as usize),
    {
        let mut state = Selection::new();
        state.resize(activities.len());
        StatActivityView { system_info, activities, state }
    }

    /// Moves the selection one row down, wrapping to the first row.
    pub fn next(&mut self)
        requires
            old(self).wf(),
        ensures
            final(self).wf(),
            final(self).spec_system_info() == old(self).spec_system_info(),
            final(self).spec_activities() == old(self).spec_activities(),
            final(self).spec_selected() == select_down(
                old(self).spec_selected(),
                old(self).spec_activities().len() as usize,
            ),
    {
        self.state.next();
    }

    /// Moves the selection one row up, wrapping to the last row.
    pub fn previous(&mut self)
        requires
            old(self).wf(),
        ensures
            final(self).wf(),
            final(self).spec_system_info() == old(self).spec_system_info(),
            final(self).spec_activities() == old(self).spec_activities(),
            final(self).spec_selected() == select_up(
                old(self).spec_selected(),
                old(self).spec_activities().len() as usize,
            ),
    {
        self.state.previous();
    }

    /// Takes one event. Navigation moves the selection; every other event
    /// leaves the state as it is. The result says whether to quit, to fetch
    /// and then draw, or only to draw.
    pub fn on_event(&mut self, event: Event) -> (r: Command)
        requires
            old(self).wf(),
        ensures
            final(self).wf(),
            r == command_of(event),
            final(self).spec_system_info() == old(self).spec_system_info(),
            final(self).spec_activities() == old(self).spec_activities(),
            final(self).spec_selected() == selection_after(
                event,
                old(self).spec_selected(),
                old(self).spec_activities().len() as usize,
            ),
    {
        match event {
            Event::Input(Key::Quit) => Command::Quit,
            Event::Input(Key::Up) => {
                self.previous();
                Command::Redraw
            },
            Event::Input(Key::Down) => {
                self.next();
                Command::Redraw
            },
            Event::Input(Key::Refresh) => Command::Fetch,
            Event::Tick => Command::Fetch,
            Event::Input(Key::Other) => Command::Redraw,
        }
    }

    /// Takes the outcome of a fetch. A successful one replaces the snapshot
    /// and the activities wholesale and clamps the selection to the new rows;
    /// a failed one is handed back and leaves the state untouched.
    pub fn apply_refresh<E>(&mut self, fetched: Result<(PGSystemInfo, Vec<PGStatActivity>), E>) -> (r:
        Result<(), E>)
        requires
            old(self).wf(),
        ensures
            final(self).wf(),
            match fetched {
                Ok((info, rows)) => {
                    &&& r is Ok
                    &&& final(self).spec_system_info() == info
                    &&& final(self).spec_activities() == rows@
                    &&& final(self).spec_selected() == clamp_selection(
                        old(self).spec_selected(),
                        rows@.len() as usize,
                    )
                },
                Err(e) => {
                    &&& r == Err::<(), E>(e)
                    &&& *final(self) == *old(self)
                },
            },
    {
        match fetched {
            Ok((info, rows)) => {
                self.state.resize(rows.len());
                self.system_info = info;
                self.activities = rows;
                Ok(())
            },
            Err(e) => Err(e),
        }
    }

    /// The frame for the current state.
    pub fn render(&self) -> (r: FrameModel)
        ensures
            r@ == frame_of(self.spec_system_info(), self.spec_activities(), self.spec_selected()),
    {
        render_frame(&self.system_info, &self.activities, self.state.selected())
    }

    pub fn system_info(&self) -> (r: &PGSystemInfo)
        ensures
            *r == self.spec_system_info(),
    {
        &self.system_info
    }

    pub fn activities(&self) -> (r: &Vec<PGStatActivity>)
        ensures
            r@ == self.spec_activities(),
    {
        &self.activities
    }

    pub fn selected(&self) -> (r: Option<usize>)
        ensures
            r == self.spec_selected(),
            self.wf() ==> fits(r, self.spec_activities().len() as usize),
    {
        self.state.selected()
    }
}

} // verus!
