//! A library-circulation engine modelled as a pure state-transition system.
//!
//! A whole-system snapshot ([`LibraryState`]) holds the current day, the
//! per-title shelf counts, and the per-member-class open-loan counts and fine
//! balances. Every action takes a snapshot plus parameters and returns a new
//! snapshot, possibly paired with an outcome code ([`ActionResult`]); nothing
//! is ever mutated in place. Each executable action is proved to refine a
//! mathematical transition on [`model::StateModel`], the ghost view of a
//! snapshot.

pub mod catalog;
pub mod circulation;
pub mod laws;
pub mod members;
pub mod model;
pub mod scenario;
pub mod types;

pub use catalog::{
    catalog_check_available, catalog_next_day, catalog_put_copy, catalog_seed, catalog_take_copy,
};
pub use circulation::{circulation_checkout, circulation_return};
pub use members::{
    members_add_fine, members_add_loan, members_check_eligibility, members_close_loan, members_pay,
};
pub use scenario::{scenario_run, ScenarioEvent};
pub use types::{ActionResult, LibraryState};
