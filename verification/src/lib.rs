//! The ledger core of an organizational budget kept on chain.
//!
//! A budget is a collection unit with a record beside it; an expense is a
//! spending category under a budget, with an approved amount, an allowed
//! variance and a unit type of its own; a spend burns units of an expense
//! and settles their value from the treasury.
//!
//! The core decides and never acts. Each operation starts with a function
//! that judges its arguments and says what the token and metadata service is
//! to do first. The host carries that out and hands the outcome to the next
//! step, until the last step hands back the record to store. A step that
//! ends in an error hands back no record: nothing of an abandoned operation
//! can be stored.

pub mod address;
pub mod budget;
pub mod error;
pub mod expense;
pub mod laws;
pub mod records;
pub mod service;
pub mod spending;

pub use address::{Account, Address};
pub use budget::{create_budget_collection, CreateBudgetCollection};
pub use error::{BudgetError, Failure};
pub use expense::{create_expense, CreateExpense};
pub use records::{BudgetPDA, ExpensePDA};
pub use spending::{spend, Spend};
