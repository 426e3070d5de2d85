use library_system::{
    catalog_check_available, catalog_next_day, catalog_put_copy, catalog_seed, catalog_take_copy,
    circulation_checkout, circulation_return, members_add_fine, members_add_loan,
    members_check_eligibility, members_close_loan, members_pay, LibraryState,
};

fn quiet_state() -> LibraryState {
    LibraryState {
        day: 1,
        available_a: 3,
        available_b: 2,
        available_c: 1,
        loans_m1: 0,
        loans_m2: 0,
        fines_m1: 0,
        fines_m2: 0,
    }
}

#[test]
fn seed_starts_day_one_with_stocked_shelves() {
    let s = catalog_seed();
    assert_eq!(s.day, 1);
    assert_eq!(s.available_a, 3);
    assert_eq!(s.available_b, 2);
    assert_eq!(s.available_c, 1);
    assert_eq!(s.loans_m1, 0);
    assert_eq!(s.loans_m2, 0);
    assert_eq!(s.fines_m1, 0);
    assert_eq!(s.fines_m2, 0);
}

#[test]
fn next_day_changes_only_the_day() {
    let s = catalog_seed();
    let n = catalog_next_day(s);
    assert_eq!(n.day, 2);
    assert_eq!(
        n,
        LibraryState {
            day: 2,
            ..s
        }
    );
}

#[test]
fn advancing_three_days_adds_exactly_three() {
    let mut s = catalog_seed();
    for _ in 0..3 {
        s = catalog_next_day(s);
    }
    assert_eq!(s.day, 4);
    assert_eq!(LibraryState { day: 1, ..s }, catalog_seed());
}

#[test]
fn availability_check_passes_state_through() {
    let s = catalog_seed();
    let r = catalog_check_available(s, 2);
    assert!(r.ok);
    assert_eq!(r.code, 0);
    assert_eq!(r.state, s);
}

#[test]
fn availability_check_fails_with_title_code_when_shelf_is_empty() {
    let s = LibraryState {
        available_b: 0,
        ..quiet_state()
    };
    let r = catalog_check_available(s, 2);
    assert!(!r.ok);
    assert_eq!(r.code, 202);
    assert_eq!(r.state, s);
}

#[test]
fn unknown_book_code_falls_to_the_third_title() {
    let s = quiet_state();
    let taken = catalog_take_copy(s, 7);
    assert_eq!(taken.available_c, 0);
    assert_eq!(taken.available_a, 3);
    assert_eq!(taken.available_b, 2);
}

#[test]
fn take_and_put_move_one_copy() {
    let s = quiet_state();
    let taken = catalog_take_copy(s, 1);
    assert_eq!(taken.available_a, 2);
    let back = catalog_put_copy(taken, 1);
    assert_eq!(back.available_a, 3);
    assert_eq!(back, s);
}

#[test]
fn eligibility_passes_a_quiet_member() {
    let r = members_check_eligibility(quiet_state(), 1);
    assert!(r.ok);
    assert_eq!(r.code, 0);
}

#[test]
fn class_one_is_limited_to_three_loans() {
    let two = LibraryState {
        loans_m1: 2,
        ..quiet_state()
    };
    assert!(members_check_eligibility(two, 1).ok);
    let three = LibraryState {
        loans_m1: 3,
        ..quiet_state()
    };
    let r = members_check_eligibility(three, 1);
    assert!(!r.ok);
    assert_eq!(r.code, 301);
}

#[test]
fn class_two_is_limited_to_two_loans() {
    let one = LibraryState {
        loans_m2: 1,
        ..quiet_state()
    };
    assert!(members_check_eligibility(one, 2).ok);
    let two = LibraryState {
        loans_m2: 2,
        ..quiet_state()
    };
    let r = members_check_eligibility(two, 2);
    assert!(!r.ok);
    assert_eq!(r.code, 302);
}

#[test]
fn fines_at_the_ceiling_still_pass_but_over_it_fail() {
    let at = LibraryState {
        fines_m2: 2000,
        ..quiet_state()
    };
    assert!(members_check_eligibility(at, 2).ok);
    let over = LibraryState {
        fines_m2: 2001,
        ..quiet_state()
    };
    let r = members_check_eligibility(over, 2);
    assert!(!r.ok);
    assert_eq!(r.code, 402);
}

#[test]
fn loan_limit_is_reported_before_the_fine_ceiling() {
    let s = LibraryState {
        loans_m1: 3,
        fines_m1: 5000,
        ..quiet_state()
    };
    let r = members_check_eligibility(s, 1);
    assert!(!r.ok);
    assert_eq!(r.code, 301);
}

#[test]
fn unknown_member_code_falls_to_class_two() {
    let s = LibraryState {
        loans_m2: 2,
        ..quiet_state()
    };
    let r = members_check_eligibility(s, 9);
    assert!(!r.ok);
    assert_eq!(r.code, 309);
}

#[test]
fn add_loan_raises_only_that_class() {
    let s = quiet_state();
    let n = members_add_loan(s, 2);
    assert_eq!(n.loans_m2, 1);
    assert_eq!(n.loans_m1, 0);
    assert_eq!(LibraryState { loans_m2: 0, ..n }, s);
}

#[test]
fn close_loan_lowers_an_open_count() {
    let s = LibraryState {
        loans_m1: 2,
        ..quiet_state()
    };
    let n = members_close_loan(s, 1);
    assert_eq!(n.loans_m1, 1);
}

#[test]
fn close_loan_on_zero_is_a_no_op() {
    let s = quiet_state();
    let n = members_close_loan(s, 1);
    assert_eq!(n.loans_m1, 0);
    assert_eq!(n, s);
}

#[test]
fn add_fine_raises_only_that_balance() {
    let s = quiet_state();
    let n = members_add_fine(s, 1, 150);
    assert_eq!(n.fines_m1, 150);
    assert_eq!(n.fines_m2, 0);
}

#[test]
fn paying_the_exact_balance_clears_it() {
    let s = LibraryState {
        fines_m2: 400,
        ..quiet_state()
    };
    let n = members_pay(s, 2, 400);
    assert_eq!(n.fines_m2, 0);
}

#[test]
fn overpaying_clears_the_balance_without_credit() {
    let s = LibraryState {
        fines_m1: 300,
        ..quiet_state()
    };
    let n = members_pay(s, 1, 1000);
    assert_eq!(n.fines_m1, 0);
}

#[test]
fn a_partial_payment_leaves_the_difference() {
    let s = LibraryState {
        fines_m2: 375,
        ..quiet_state()
    };
    let n = members_pay(s, 2, 100);
    assert_eq!(n.fines_m2, 275);
}

#[test]
fn checkout_takes_a_copy_and_opens_a_loan() {
    let r = circulation_checkout(catalog_seed(), 1, 1);
    assert!(r.ok);
    assert_eq!(r.code, 0);
    assert_eq!(r.state.available_a, 2);
    assert_eq!(r.state.loans_m1, 1);
}

#[test]
fn checkout_of_an_empty_shelf_reports_the_title() {
    let s = LibraryState {
        available_c: 0,
        ..quiet_state()
    };
    let r = circulation_checkout(s, 1, 3);
    assert!(!r.ok);
    assert_eq!(r.code, 203);
    assert_eq!(r.state, s);
}

#[test]
fn checkout_over_the_loan_limit_reports_the_member() {
    let s = LibraryState {
        loans_m2: 2,
        ..quiet_state()
    };
    let r = circulation_checkout(s, 2, 1);
    assert!(!r.ok);
    assert_eq!(r.code, 302);
    assert_eq!(r.state, s);
}

#[test]
fn checkout_over_the_fine_ceiling_reports_the_member() {
    let s = LibraryState {
        fines_m1: 2500,
        ..quiet_state()
    };
    let r = circulation_checkout(s, 1, 1);
    assert!(!r.ok);
    assert_eq!(r.code, 401);
    assert_eq!(r.state, s);
}

#[test]
fn over_limit_member_facing_empty_shelf_gets_the_loan_limit_code() {
    let s = LibraryState {
        available_a: 0,
        loans_m1: 3,
        ..quiet_state()
    };
    let r = circulation_checkout(s, 1, 1);
    assert!(!r.ok);
    assert_eq!(r.code, 301);
}

#[test]
fn checkout_then_return_restores_the_shelf_count() {
    let s = catalog_seed();
    let out = circulation_checkout(s, 2, 2);
    assert!(out.ok);
    assert_eq!(out.state.available_b, 1);
    let back = circulation_return(out.state, 2, 2, 0);
    assert!(back.ok);
    assert_eq!(back.state.available_b, s.available_b);
}

#[test]
fn an_on_time_return_leaves_fines_alone() {
    let s = LibraryState {
        available_a: 2,
        loans_m1: 1,
        fines_m1: 50,
        ..quiet_state()
    };
    let r = circulation_return(s, 1, 1, 0);
    assert!(r.ok);
    assert_eq!(r.code, 1000);
    assert_eq!(r.state.fines_m1, 50);
    assert_eq!(r.state.available_a, 3);
    assert_eq!(r.state.loans_m1, 0);
}

#[test]
fn a_late_return_fines_seventy_five_cents_per_day() {
    let s = LibraryState {
        available_a: 2,
        loans_m2: 1,
        fines_m2: 10,
        ..quiet_state()
    };
    let r = circulation_return(s, 2, 1, 3);
    assert!(r.ok);
    assert_eq!(r.code, 1003);
    assert_eq!(r.state.fines_m2, 10 + 3 * 75);
}

#[test]
fn a_return_with_no_open_loan_still_succeeds() {
    let s = quiet_state();
    let r = circulation_return(s, 1, 2, 0);
    assert!(r.ok);
    assert_eq!(r.code, 1000);
    assert_eq!(r.state.loans_m1, 0);
    assert_eq!(r.state.available_b, 3);
}
