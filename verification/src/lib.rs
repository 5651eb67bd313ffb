//! Verified core of a licence-management service: registration-code
//! validation, payment orchestration, permission checks, request
//! authentication helpers and file-browser listings.

pub mod errors;
pub mod text;
pub mod registration;
pub mod payment;
pub mod checkout;
pub mod response;
pub mod permissions;
pub mod accounts;
pub mod finder;
pub mod catalog;
pub mod paging;
pub mod models;
pub mod storage;
