use vstd::prelude::*;
use crate::model::StateModel;

verus! {

/// Immutable whole-system snapshot: the current day, the shelf count of each
/// of the three titles, and the open-loan count and outstanding fine balance
/// (in minor currency units) of each of the two member classes.
///
/// Its ghost view is a [`StateModel`], which folds the per-title and
/// per-class fields into mappings keyed by title key and class key.
#[derive(Clone, Copy, Debug, PartialEq, Eq, Structural)]
pub struct LibraryState {
    pub day: i32,
    pub available_a: i32,
    pub available_b: i32,
    pub available_c: i32,
    pub loans_m1: i32,
    pub loans_m2: i32,
    pub fines_m1: i32,
    pub fines_m2: i32,
}

impl View for LibraryState {
    type V = StateModel;

    open spec fn view(&self) -> StateModel {
        StateModel {
            day: self.day as int,
            avail: map![
                1 => self.available_a as int,
                2 => self.available_b as int,
                3 => self.available_c as int,
            ],
            loans: map![1 => self.loans_m1 as int, 2 => self.loans_m2 as int],
            fines: map![1 => self.fines_m1 as int, 2 => self.fines_m2 as int],
        }
    }
}

/// Outcome of an action: the snapshot after it, whether it succeeded, and a
/// numeric outcome code. Its ghost view is the triple an action transition
/// of the model returns.
#[derive(Clone, Copy, Debug, PartialEq, Eq, Structural)]
pub struct ActionResult {
    pub state: LibraryState,
    pub ok: bool,
    pub code: i32,
}

impl View for ActionResult {
    type V = (StateModel, bool, int);

    open spec fn view(&self) -> (StateModel, bool, int) {
        (self.state@, self.ok, self.code as int)
    }
}

} // verus!
