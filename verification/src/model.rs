use vstd::prelude::*;

verus! {

/// How many loans a class-1 member may have open at once.
pub const LOAN_LIMIT_CLASS_ONE: i32 = 3;

/// How many loans a member of any other class may have open at once.
pub const LOAN_LIMIT_DEFAULT: i32 = 2;

/// A member may borrow while the class's fine balance is at or under this
/// many minor currency units.
pub const FINE_CEILING_CENTS: i32 = 2000;

/// Flat penalty, in minor currency units, for each day a return is late.
pub const LATE_FEE_CENTS_PER_DAY: i32 = 75;

/// Outcome code of a successful action.
pub const CODE_OK: i32 = 0;

/// Base of the outcome codes for an unavailable title; the title key is added.
pub const CODE_UNAVAILABLE_BASE: i32 = 200;

/// Base of the outcome codes for a member over the loan limit; the member
/// code is added.
pub const CODE_OVER_LOAN_LIMIT_BASE: i32 = 300;

/// Base of the outcome codes for a member over the fine ceiling; the member
/// code is added.
pub const CODE_OVER_FINE_CEILING_BASE: i32 = 400;

/// Base of the outcome codes of a completed return; the late-day count is
/// added.
pub const CODE_RETURN_BASE: i32 = 1000;

/// Ghost view of a whole-system snapshot: the day, and mappings from title
/// key to shelf count, and from member-class key to open-loan count and to
/// the outstanding fine balance in minor units.
#[verifier::ext_equal]
pub struct StateModel {
    pub day: int,
    pub avail: Map<int, int>,
    pub loans: Map<int, int>,
    pub fines: Map<int, int>,
}

/// The catalog holds three titles; every book code outside {1, 2} falls to
/// the third title, as the shelf-count lookup does.
pub open spec fn title_key(book_code: int) -> int {
    if book_code == 1 {
        1
    } else if book_code == 2 {
        2
    } else {
        3
    }
}

/// There are two member classes; every member code other than 1 falls to
/// class 2.
pub open spec fn class_key(member_code: int) -> int {
    if member_code == 1 {
        1
    } else {
        2
    }
}

/// The loan limit a member code is held to.
pub open spec fn loan_limit(member_code: int) -> int {
    if member_code == 1 {
        LOAN_LIMIT_CLASS_ONE as int
    } else {
        LOAN_LIMIT_DEFAULT as int
    }
}

impl StateModel {
    /// Every shelf count, loan count and fine balance is non-negative.
    pub open spec fn wf(self) -> bool {
        &&& forall|t: int| 1 <= t <= 3 ==> #[trigger] self.avail[t] >= 0
        &&& forall|c: int| 1 <= c <= 2 ==> #[trigger] self.loans[c] >= 0
        &&& forall|c: int| 1 <= c <= 2 ==> #[trigger] self.fines[c] >= 0
    }
}

/// The initial snapshot: day 1, shelves stocked 3/2/1, no loans, no fines.
pub open spec fn seed() -> StateModel {
    StateModel {
        day: 1,
        avail: map![1 => 3, 2 => 2, 3 => 1],
        loans: map![1 => 0, 2 => 0],
        fines: map![1 => 0, 2 => 0],
    }
}

/// Advance the day by one; nothing else changes.
pub open spec fn next_day(m: StateModel) -> StateModel {
    StateModel { day: m.day + 1, ..m }
}

/// Advance the day `n` times.
pub open spec fn next_day_n(m: StateModel, n: nat) -> StateModel
    decreases n,
{
    if n == 0 {
        m
    } else {
        next_day(next_day_n(m, (n - 1) as nat))
    }
}

/// Advancing the day `n` times raises `day` by exactly `n` and leaves every
/// shelf count, loan count and fine balance untouched.
pub proof fn lemma_next_day_n(m: StateModel, n: nat)
    ensures
        next_day_n(m, n).day == m.day + n,
        next_day_n(m, n).avail == m.avail,
        next_day_n(m, n).loans == m.loans,
        next_day_n(m, n).fines == m.fines,
    decreases n,
{
    if n > 0 {
        lemma_next_day_n(m, (n - 1) as nat);
    }
}

/// Availability check: succeeds exactly when the title still has a copy on
/// the shelf; a failure reports which title was missed. The snapshot passes
/// through unchanged either way.
pub open spec fn check_available(m: StateModel, book_code: int) -> (StateModel, bool, int) {
    if m.avail[title_key(book_code)] > 0 {
        (m, true, CODE_OK as int)
    } else {
        (m, false, CODE_UNAVAILABLE_BASE + book_code)
    }
}

/// Remove one copy of the title from the shelf.
pub open spec fn take_copy(m: StateModel, book_code: int) -> StateModel {
    StateModel {
        avail: m.avail.insert(title_key(book_code), m.avail[title_key(book_code)] - 1),
        ..m
    }
}

/// Put one copy of the title back on the shelf.
pub open spec fn put_copy(m: StateModel, book_code: int) -> StateModel {
    StateModel {
        avail: m.avail.insert(title_key(book_code), m.avail[title_key(book_code)] + 1),
        ..m
    }
}

/// Eligibility check: fails first on the loan limit, then on the fine
/// ceiling; the snapshot passes through unchanged either way.
pub open spec fn check_eligibility(m: StateModel, member_code: int) -> (StateModel, bool, int) {
    if m.loans[class_key(member_code)] >= loan_limit(member_code) {
        (m, false, CODE_OVER_LOAN_LIMIT_BASE + member_code)
    } else if m.fines[class_key(member_code)] > FINE_CEILING_CENTS as int {
        (m, false, CODE_OVER_FINE_CEILING_BASE + member_code)
    } else {
        (m, true, CODE_OK as int)
    }
}

/// Open one more loan for the member's class.
pub open spec fn add_loan(m: StateModel, member_code: int) -> StateModel {
    StateModel {
        loans: m.loans.insert(class_key(member_code), m.loans[class_key(member_code)] + 1),
        ..m
    }
}

/// Close one loan for the member's class, floored at zero: closing with no
/// open loan is a no-op, never a negative count.
pub open spec fn close_loan(m: StateModel, member_code: int) -> StateModel {
    if m.loans[class_key(member_code)] > 0 {
        StateModel {
            loans: m.loans.insert(class_key(member_code), m.loans[class_key(member_code)] - 1),
            ..m
        }
    } else {
        m
    }
}

/// Add to the member class's fine balance.
pub open spec fn add_fine(m: StateModel, member_code: int, amount_cents: int) -> StateModel {
    StateModel {
        fines: m.fines.insert(class_key(member_code), m.fines[class_key(member_code)] + amount_cents),
        ..m
    }
}

/// Pay down the member class's fine balance, floored at zero: overpayment is
/// absorbed, never carried as credit.
pub open spec fn pay(m: StateModel, member_code: int, payment_cents: int) -> StateModel {
    StateModel {
        fines: m.fines.insert(
            class_key(member_code),
            if payment_cents >= m.fines[class_key(member_code)] {
                0
            } else {
                m.fines[class_key(member_code)] - payment_cents
            },
        ),
        ..m
    }
}

/// Checkout: eligibility first, then availability, each aborting with its own
/// outcome and the snapshot unchanged; on success one copy leaves the shelf
/// and one loan opens.
pub open spec fn checkout(m: StateModel, member_code: int, book_code: int) -> (StateModel, bool, int) {
    let eligibility = check_eligibility(m, member_code);
    if !eligibility.1 {
        eligibility
    } else {
        let availability = check_available(eligibility.0, book_code);
        if !availability.1 {
            availability
        } else {
            (add_loan(take_copy(availability.0, book_code), member_code), true, CODE_OK as int)
        }
    }
}

/// Return: restock the title and close a loan unconditionally, fine the class
/// when the return is late, and always succeed with a code that encodes the
/// lateness.
pub open spec fn return_book(
    m: StateModel,
    member_code: int,
    book_code: int,
    late_days: int,
) -> (StateModel, bool, int) {
    let closed = close_loan(put_copy(m, book_code), member_code);
    let fined = if late_days > 0 {
        add_fine(closed, member_code, late_days * (LATE_FEE_CENTS_PER_DAY as int))
    } else {
        closed
    };
    (fined, true, CODE_RETURN_BASE + late_days)
}

} // verus!
