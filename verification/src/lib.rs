//! A minimal account-balance ledger: exact decimal amounts, the requests that
//! create, read and atomically adjust an account in a conditional key-value
//! store, and the classification of every store outcome into an internal
//! failure or a business rejection.

pub mod dao;
pub mod decimal;
pub mod error;
pub mod ledger;
pub mod service;
pub mod store;
pub mod web;

pub use dao::AccountDao;
pub use decimal::{Decimal, DecimalValue, Sign};
pub use error::{AppError, Classification, ErrorView};
pub use service::{Account, AccountService, Adjustment, Balance};
pub use web::{create_request_handler, RequestHandler, RequestRouter};
