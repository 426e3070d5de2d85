use vstd::prelude::*;
use crate::model;
use crate::model::{class_key, loan_limit, title_key, StateModel, CODE_OVER_LOAN_LIMIT_BASE};

verus! {

/// Conservation: when a checkout succeeds, returning the same title — on any
/// later day and however late — restores that title's shelf count to exactly
/// its value before the checkout.
pub proof fn lemma_checkout_then_return_conserves(
    m: StateModel,
    member_code: int,
    book_code: int,
    late_days: int,
)
    requires
        m.wf(),
        model::checkout(m, member_code, book_code).1,
    ensures
        model::return_book(
            model::checkout(m, member_code, book_code).0,
            member_code,
            book_code,
            late_days,
        ).0.avail[title_key(book_code)] == m.avail[title_key(book_code)],
{
}

/// Precedence: a member over the loan limit who also faces a title with no
/// copy on the shelf always gets the loan-limit outcome from a checkout,
/// never the availability one.
pub proof fn lemma_loan_limit_precedes_availability(m: StateModel, member_code: int, book_code: int)
    requires
        m.loans[class_key(member_code)] >= loan_limit(member_code),
        m.avail[title_key(book_code)] == 0,
    ensures
        !model::checkout(m, member_code, book_code).1,
        model::checkout(m, member_code, book_code).2 == CODE_OVER_LOAN_LIMIT_BASE + member_code,
{
}

} // verus!
