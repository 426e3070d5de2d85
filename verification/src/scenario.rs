use vstd::prelude::*;
use crate::catalog::{catalog_next_day, catalog_seed};
use crate::circulation::{circulation_checkout, circulation_return};
use crate::members::members_pay;
use crate::model::{checkout, lemma_next_day_n, next_day_n, pay, return_book, seed, StateModel};
use crate::types::LibraryState;

verus! {

/// One line of the demo run's report: either a whole snapshot or the outcome
/// of an action (its success flag and code).
#[derive(Clone, Copy, Debug, PartialEq, Eq, Structural)]
pub enum ScenarioEvent {
    Snapshot(LibraryState),
    Outcome(bool, i32),
}

/// Ghost counterpart of [`ScenarioEvent`], over the model.
pub enum EventModel {
    Snap(StateModel),
    Out(bool, int),
}

impl View for ScenarioEvent {
    type V = EventModel;

    open spec fn view(&self) -> EventModel {
        match *self {
            ScenarioEvent::Snapshot(s) => EventModel::Snap(s@),
            ScenarioEvent::Outcome(ok, code) => EventModel::Out(ok, code as int),
        }
    }
}

/// The fixed demo sequence over the model: seed, three checkouts, four day
/// advances, one late return, one payment, two more day advances and a last
/// checkout, laid out as the snapshots and outcomes a report would show.
pub open spec fn demo_trace() -> Seq<EventModel> {
    let s0 = seed();
    let c1 = checkout(s0, 1, 1);
    let c2 = checkout(c1.0, 2, 1);
    let c3 = checkout(c2.0, 2, 3);
    let mid = next_day_n(c3.0, 4);
    let ret = return_book(mid, 2, 1, 5);
    let paid = pay(ret.0, 2, 100);
    let last = checkout(next_day_n(paid, 2), 1, 2);
    seq![
        EventModel::Snap(s0),
        EventModel::Out(c1.1, c1.2),
        EventModel::Out(c2.1, c2.2),
        EventModel::Out(c3.1, c3.2),
        EventModel::Out(ret.1, ret.2),
        EventModel::Snap(paid),
        EventModel::Out(last.1, last.2),
        EventModel::Snap(last.0),
    ]
}

/// Run the fixed demo sequence and hand back its report as a list of
/// events, in print order: exactly the eight entries of [`demo_trace`].
pub fn scenario_run() -> (events: Vec<ScenarioEvent>)
    ensures
        events@.len() == 8,
        forall|i: int| 0 <= i < 8 ==> #[trigger] events@[i]@ == demo_trace()[i],
{
    let mut events: Vec<ScenarioEvent> = Vec::new();

    let state0 = catalog_seed();
    events.push(ScenarioEvent::Snapshot(state0));

    let checkout1 = circulation_checkout(state0, 1, 1);
    events.push(ScenarioEvent::Outcome(checkout1.ok, checkout1.code));

    let checkout2 = circulation_checkout(checkout1.state, 2, 1);
    events.push(ScenarioEvent::Outcome(checkout2.ok, checkout2.code));

    let checkout3 = circulation_checkout(checkout2.state, 2, 3);
    events.push(ScenarioEvent::Outcome(checkout3.ok, checkout3.code));

    let mut state = checkout3.state;
    let ghost mid_base = state@;
    let mut i: i32 = 0;
    while i < 4
        invariant
            0 <= i <= 4,
            state@ == next_day_n(mid_base, i as nat),
            state@.wf(),
            state@.day == mid_base.day + i,
            mid_base.day == 1,
        decreases 4 - i,
    {
        state = catalog_next_day(state);
        i = i + 1;
    }

    proof {
        lemma_next_day_n(mid_base, 4);
    }
    let late_return = circulation_return(state, 2, 1, 5);
    events.push(ScenarioEvent::Outcome(late_return.ok, late_return.code));

    let paid_state = members_pay(late_return.state, 2, 100);
    events.push(ScenarioEvent::Snapshot(paid_state));

    let mut state2 = paid_state;
    let ghost late_base = state2@;
    let mut extra: i32 = 0;
    while extra < 2
        invariant
            0 <= extra <= 2,
            state2@ == next_day_n(late_base, extra as nat),
            state2@.wf(),
            state2@.day == late_base.day + extra,
            late_base.day == 5,
        decreases 2 - extra,
    {
        state2 = catalog_next_day(state2);
        extra = extra + 1;
    }

    proof {
        lemma_next_day_n(late_base, 2);
    }
    let last_checkout = circulation_checkout(state2, 1, 2);
    events.push(ScenarioEvent::Outcome(last_checkout.ok, last_checkout.code));
    events.push(ScenarioEvent::Snapshot(last_checkout.state));

    proof {
        let t = demo_trace();
        assert(events@[0]@ == t[0]);
        assert(events@[1]@ == t[1]);
        assert(events@[2]@ == t[2]);
        assert(events@[3]@ == t[3]);
        assert(events@[4]@ == t[4]);
        assert(events@[5]@ == t[5]);
        assert(events@[6]@ == t[6]);
        assert(events@[7]@ == t[7]);
    }
    events
}

} // verus!
