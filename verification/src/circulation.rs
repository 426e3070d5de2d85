use vstd::prelude::*;
use crate::catalog::{catalog_check_available, catalog_put_copy, catalog_take_copy};
use crate::members::{
    members_add_fine, members_add_loan, members_check_eligibility, members_close_loan,
};
use crate::model;
use crate::model::{
    class_key, loan_limit, title_key, CODE_OK, CODE_OVER_FINE_CEILING_BASE,
    CODE_OVER_LOAN_LIMIT_BASE, CODE_RETURN_BASE, CODE_UNAVAILABLE_BASE, FINE_CEILING_CENTS,
    LATE_FEE_CENTS_PER_DAY,
};
use crate::types::{ActionResult, LibraryState};

verus! {

/// Checkout as a short-circuiting pipeline: eligibility first, then
/// availability, each failure returned verbatim with the snapshot unchanged;
/// on success one copy leaves the shelf and one loan opens, with code 0.
/// Eligibility is checked before availability, so a member who is both
/// ineligible and facing an empty shelf gets the eligibility code.
pub fn circulation_checkout(state: LibraryState, member_code: i32, book_code: i32) -> (result: ActionResult)
    requires
        state@.wf(),
        member_code <= i32::MAX - CODE_OVER_FINE_CEILING_BASE,
        book_code <= i32::MAX - CODE_UNAVAILABLE_BASE,
    ensures
        result@ == model::checkout(state@, member_code as int, book_code as int),
        result.state@.wf(),
        result.ok <==> (state@.loans[class_key(member_code as int)] < loan_limit(member_code as int)
            && state@.fines[class_key(member_code as int)] <= FINE_CEILING_CENTS
            && state@.avail[title_key(book_code as int)] > 0),
        !result.ok ==> result.state == state,
        state@.loans[class_key(member_code as int)] >= loan_limit(member_code as int)
            ==> result.code == CODE_OVER_LOAN_LIMIT_BASE + member_code,
{
    let eligibility = members_check_eligibility(state, member_code);
    if !eligibility.ok {
        return ActionResult {
            state: eligibility.state,
            ok: false,
            code: eligibility.code,
        };
    }

    let availability = catalog_check_available(eligibility.state, book_code);
    if !availability.ok {
        return ActionResult {
            state: availability.state,
            ok: false,
            code: availability.code,
        };
    }

    let after_take = catalog_take_copy(availability.state, book_code);
    let next_state = members_add_loan(after_take, member_code);

    ActionResult { state: next_state, ok: true, code: CODE_OK }
}

/// Return as an unconditional pipeline: restock the title, close a loan
/// (floored at zero), and, when the return is late, fine the member's class
/// a flat amount per late day. A return never fails; its code encodes the
/// lateness.
pub fn circulation_return(
    state: LibraryState,
    member_code: i32,
    book_code: i32,
    late_days: i32,
) -> (result: ActionResult)
    requires
        state@.wf(),
        state@.avail[title_key(book_code as int)] < i32::MAX,
        late_days <= i32::MAX - CODE_RETURN_BASE,
        late_days > 0 ==> state@.fines[class_key(member_code as int)]
            + late_days * (LATE_FEE_CENTS_PER_DAY as int) <= i32::MAX,
    ensures
        result@ == model::return_book(state@, member_code as int, book_code as int, late_days as int),
        result.state@.wf(),
        result.ok,
        result.code == CODE_RETURN_BASE + late_days,
        late_days > 0 ==> result.state@.fines[class_key(member_code as int)]
            == state@.fines[class_key(member_code as int)]
                + late_days * (LATE_FEE_CENTS_PER_DAY as int),
        late_days <= 0 ==> result.state@.fines[class_key(member_code as int)]
            == state@.fines[class_key(member_code as int)],
{
    let after_put = catalog_put_copy(state, book_code);
    let after_close = members_close_loan(after_put, member_code);

    let next_state = if late_days > 0 {
        members_add_fine(after_close, member_code, late_days * LATE_FEE_CENTS_PER_DAY)
    } else {
        after_close
    };

    ActionResult { state: next_state, ok: true, code: CODE_RETURN_BASE + late_days }
}

} // verus!
