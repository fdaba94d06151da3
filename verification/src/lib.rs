use vstd::prelude::*;

pub mod audit;
pub mod backup;
pub mod documents;
pub mod auth;
pub mod catalogue;
pub mod dashboard;
pub mod error;
pub mod expenses;
pub mod fulfilment;
pub mod inventory;
pub mod ledger;
pub mod licensing;
pub mod products;
pub mod purchases;
pub mod receivables;
pub mod sales;
pub mod setup;
pub mod text;
