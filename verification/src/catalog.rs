use vstd::prelude::*;
use crate::model;
use crate::model::{title_key, CODE_OK, CODE_UNAVAILABLE_BASE};
use crate::types::{ActionResult, LibraryState};

verus! {

/// The initial snapshot: day 1, shelves stocked 3/2/1, no loans, no fines.
pub fn catalog_seed() -> (state: LibraryState)
    ensures
        state@ == model::seed(),
        state@.wf(),
{
    let state = LibraryState {
        day: 1,
        available_a: 3,
        available_b: 2,
        available_c: 1,
        loans_m1: 0,
        loans_m2: 0,
        fines_m1: 0,
        fines_m2: 0,
    };
    proof {
        assert(state@ =~= model::seed());
    }
    state
}

/// Advance the day by one; every other field is carried over unchanged.
pub fn catalog_next_day(state: LibraryState) -> (next: LibraryState)
    requires
        state@.wf(),
        state.day < i32::MAX,
    ensures
        next@ == model::next_day(state@),
        next@.wf(),
{
    let next = LibraryState {
        day: state.day + 1,
        available_a: state.available_a,
        available_b: state.available_b,
        available_c: state.available_c,
        loans_m1: state.loans_m1,
        loans_m2: state.loans_m2,
        fines_m1: state.fines_m1,
        fines_m2: state.fines_m2,
    };
    proof {
        assert(next@ =~= model::next_day(state@));
    }
    next
}

/// Report whether the title still has a copy on the shelf: success with code
/// 0 exactly when the count is positive, else failure with a code naming the
/// title. The snapshot passes through unchanged either way.
pub fn catalog_check_available(state: LibraryState, book_code: i32) -> (result: ActionResult)
    requires
        state@.wf(),
        book_code <= i32::MAX - CODE_UNAVAILABLE_BASE,
    ensures
        result@ == model::check_available(state@, book_code as int),
        result.state == state,
        result.ok <==> state@.avail[title_key(book_code as int)] > 0,
{
    let available = if book_code == 1 {
        state.available_a
    } else if book_code == 2 {
        state.available_b
    } else {
        state.available_c
    };

    if available > 0 {
        return ActionResult { state, ok: true, code: CODE_OK };
    }

    ActionResult { state, ok: false, code: CODE_UNAVAILABLE_BASE + book_code }
}

/// Remove one copy of the title from the shelf. The caller guards the count
/// with an availability check: taking from an empty shelf is excluded.
pub fn catalog_take_copy(state: LibraryState, book_code: i32) -> (next: LibraryState)
    requires
        state@.wf(),
        state@.avail[title_key(book_code as int)] > 0,
    ensures
        next@ == model::take_copy(state@, book_code as int),
        next@.wf(),
{
    let mut next_a = state.available_a;
    let mut next_b = state.available_b;
    let mut next_c = state.available_c;

    if book_code == 1 {
        next_a = state.available_a - 1;
    } else {
        if book_code == 2 {
            next_b = state.available_b - 1;
        } else {
            next_c = state.available_c - 1;
        }
    }

    let next = LibraryState {
        day: state.day,
        available_a: next_a,
        available_b: next_b,
        available_c: next_c,
        loans_m1: state.loans_m1,
        loans_m2: state.loans_m2,
        fines_m1: state.fines_m1,
        fines_m2: state.fines_m2,
    };
    proof {
        assert(next@ =~= model::take_copy(state@, book_code as int));
    }
    next
}

/// Put one copy of the title back on the shelf; no upper capacity is
/// modelled, so this always succeeds.
pub fn catalog_put_copy(state: LibraryState, book_code: i32) -> (next: LibraryState)
    requires
        state@.wf(),
        state@.avail[title_key(book_code as int)] < i32::MAX,
    ensures
        next@ == model::put_copy(state@, book_code as int),
        next@.wf(),
{
    let mut next_a = state.available_a;
    let mut next_b = state.available_b;
    let mut next_c = state.available_c;

    if book_code == 1 {
        next_a = state.available_a + 1;
    } else {
        if book_code == 2 {
            next_b = state.available_b + 1;
        } else {
            next_c = state.available_c + 1;
        }
    }

    let next = LibraryState {
        day: state.day,
        available_a: next_a,
        available_b: next_b,
        available_c: next_c,
        loans_m1: state.loans_m1,
        loans_m2: state.loans_m2,
        fines_m1: state.fines_m1,
        fines_m2: state.fines_m2,
    };
    proof {
        assert(next@ =~= model::put_copy(state@, book_code as int));
    }
    next
}

} // verus!
