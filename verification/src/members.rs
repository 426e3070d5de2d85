use vstd::prelude::*;
use crate::model;
use crate::model::{
    class_key, loan_limit, CODE_OK, CODE_OVER_FINE_CEILING_BASE, CODE_OVER_LOAN_LIMIT_BASE,
    FINE_CEILING_CENTS, LOAN_LIMIT_CLASS_ONE, LOAN_LIMIT_DEFAULT,
};
use crate::types::{ActionResult, LibraryState};

verus! {

/// Decide whether the member may borrow: fails with a loan-limit code when
/// the class is at or over its limit, else with a fine-ceiling code when the
/// class's balance is over the ceiling, else succeeds with code 0. The loan
/// limit is checked first. The snapshot passes through unchanged either way.
pub fn members_check_eligibility(state: LibraryState, member_code: i32) -> (result: ActionResult)
    requires
        state@.wf(),
        member_code <= i32::MAX - CODE_OVER_FINE_CEILING_BASE,
    ensures
        result@ == model::check_eligibility(state@, member_code as int),
        result.state == state,
        result.ok <==> (state@.loans[class_key(member_code as int)] < loan_limit(member_code as int)
            && state@.fines[class_key(member_code as int)] <= FINE_CEILING_CENTS),
{
    let mut loans = state.loans_m2;
    let mut fines = state.fines_m2;
    let mut limit = LOAN_LIMIT_DEFAULT;

    if member_code == 1 {
        loans = state.loans_m1;
        fines = state.fines_m1;
        limit = LOAN_LIMIT_CLASS_ONE;
    }

    if loans >= limit {
        return ActionResult { state, ok: false, code: CODE_OVER_LOAN_LIMIT_BASE + member_code };
    }

    if fines > FINE_CEILING_CENTS {
        return ActionResult { state, ok: false, code: CODE_OVER_FINE_CEILING_BASE + member_code };
    }

    ActionResult { state, ok: true, code: CODE_OK }
}

/// Open one more loan for the member's class. The loan limit is not checked
/// here: the caller validates it through `members_check_eligibility` first.
pub fn members_add_loan(state: LibraryState, member_code: i32) -> (next: LibraryState)
    requires
        state@.wf(),
        state@.loans[class_key(member_code as int)] < i32::MAX,
    ensures
        next@ == model::add_loan(state@, member_code as int),
        next@.wf(),
{
    let mut next_m1 = state.loans_m1;
    let mut next_m2 = state.loans_m2;

    if member_code == 1 {
        next_m1 = state.loans_m1 + 1;
    } else {
        next_m2 = state.loans_m2 + 1;
    }

    let next = LibraryState {
        day: state.day,
        available_a: state.available_a,
        available_b: state.available_b,
        available_c: state.available_c,
        loans_m1: next_m1,
        loans_m2: next_m2,
        fines_m1: state.fines_m1,
        fines_m2: state.fines_m2,
    };
    proof {
        assert(next@ =~= model::add_loan(state@, member_code as int));
    }
    next
}

/// Close one loan for the member's class, floored at zero: closing with no
/// open loan leaves the count at zero, never negative.
pub fn members_close_loan(state: LibraryState, member_code: i32) -> (next: LibraryState)
    requires
        state@.wf(),
    ensures
        next@ == model::close_loan(state@, member_code as int),
        next@.wf(),
        state@.loans[class_key(member_code as int)] == 0 ==> next@ == state@,
{
    let mut next_m1 = state.loans_m1;
    let mut next_m2 = state.loans_m2;

    if member_code == 1 {
        if state.loans_m1 > 0 {
            next_m1 = state.loans_m1 - 1;
        }
    } else {
        if state.loans_m2 > 0 {
            next_m2 = state.loans_m2 - 1;
        }
    }

    let next = LibraryState {
        day: state.day,
        available_a: state.available_a,
        available_b: state.available_b,
        available_c: state.available_c,
        loans_m1: next_m1,
        loans_m2: next_m2,
        fines_m1: state.fines_m1,
        fines_m2: state.fines_m2,
    };
    proof {
        assert(next@ =~= model::close_loan(state@, member_code as int));
    }
    next
}

/// Add the amount to the member class's fine balance; no upper bound is
/// modelled.
pub fn members_add_fine(state: LibraryState, member_code: i32, amount_cents: i32) -> (next: LibraryState)
    requires
        state@.wf(),
        amount_cents >= 0,
        state@.fines[class_key(member_code as int)] + amount_cents <= i32::MAX,
    ensures
        next@ == model::add_fine(state@, member_code as int, amount_cents as int),
        next@.wf(),
{
    let mut next_fine_m1 = state.fines_m1;
    let mut next_fine_m2 = state.fines_m2;

    if member_code == 1 {
        next_fine_m1 = state.fines_m1 + amount_cents;
    } else {
        next_fine_m2 = state.fines_m2 + amount_cents;
    }

    let next = LibraryState {
        day: state.day,
        available_a: state.available_a,
        available_b: state.available_b,
        available_c: state.available_c,
        loans_m1: state.loans_m1,
        loans_m2: state.loans_m2,
        fines_m1: next_fine_m1,
        fines_m2: next_fine_m2,
    };
    proof {
        assert(next@ =~= model::add_fine(state@, member_code as int, amount_cents as int));
    }
    next
}

/// Pay down the member class's fine balance, floored at zero: a payment at
/// or above the balance clears it exactly; overpayment is absorbed, never
/// carried as credit or refunded.
pub fn members_pay(state: LibraryState, member_code: i32, payment_cents: i32) -> (next: LibraryState)
    requires
        state@.wf(),
        payment_cents >= 0,
    ensures
        next@ == model::pay(state@, member_code as int, payment_cents as int),
        next@.wf(),
        payment_cents >= state@.fines[class_key(member_code as int)]
            ==> next@.fines[class_key(member_code as int)] == 0,
{
    let mut next_fine_m1 = state.fines_m1;
    let mut next_fine_m2 = state.fines_m2;

    if member_code == 1 {
        if payment_cents >= state.fines_m1 {
            next_fine_m1 = 0;
        } else {
            next_fine_m1 = state.fines_m1 - payment_cents;
        }
    } else {
        if payment_cents >= state.fines_m2 {
            next_fine_m2 = 0;
        } else {
            next_fine_m2 = state.fines_m2 - payment_cents;
        }
    }

    let next = LibraryState {
        day: state.day,
        available_a: state.available_a,
        available_b: state.available_b,
        available_c: state.available_c,
        loans_m1: state.loans_m1,
        loans_m2: state.loans_m2,
        fines_m1: next_fine_m1,
        fines_m2: next_fine_m2,
    };
    proof {
        assert(next@ =~= model::pay(state@, member_code as int, payment_cents as int));
    }
    next
}

} // verus!
