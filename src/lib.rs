//! Settlement of a single payment instruction: expiry guard, fee skim and
//! weighted fee split, swap delta accounting, and the ordered transfer legs
//! that an atomic host transaction executes.
pub mod error;
pub mod types;
pub mod ledger;
pub mod fee;
pub mod settlement;
pub mod ownership;
pub mod instruction;
