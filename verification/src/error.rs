//! The error kinds every command can answer with.
use vstd::prelude::*;

verus! {

/// Why a command was refused. Each kind carries a human-readable message.
#[derive(Debug)]
pub enum AppError {
    Validation(String),
    NotFound(String),
    Conflict(String),
    Unauthorized(String),
    InsufficientStock(String),
    License(String),
    Internal(String),
    Integrity(String),
    SessionLocked(String),
    InvalidCredentials,
    RateLimited(i64),
}

/// An error as its kind's name and its message, for contracts that pin both.
pub open spec fn kind_and_message(e: AppError) -> (Seq<char>, Seq<char>) {
    match e {
        AppError::Validation(m) => ("validation"@, m@),
        AppError::NotFound(m) => ("not_found"@, m@),
        AppError::Conflict(m) => ("conflict"@, m@),
        AppError::Unauthorized(m) => ("unauthorized"@, m@),
        AppError::InsufficientStock(m) => ("insufficient_stock"@, m@),
        AppError::License(m) => ("license"@, m@),
        AppError::Internal(m) => ("internal"@, m@),
        AppError::Integrity(m) => ("integrity"@, m@),
        AppError::SessionLocked(m) => ("session_locked"@, m@),
        AppError::InvalidCredentials => ("invalid_credentials"@, Seq::empty()),
        AppError::RateLimited(_) => ("rate_limited"@, Seq::empty()),
    }
}

pub fn validation(msg: &str) -> (e: AppError)
    ensures
        e matches AppError::Validation(m) && m@ == msg@,
{
    AppError::Validation(String::from_str(msg))
}

pub fn not_found(msg: &str) -> (e: AppError)
    ensures
        e matches AppError::NotFound(m) && m@ == msg@,
{
    AppError::NotFound(String::from_str(msg))
}

pub fn conflict(msg: &str) -> (e: AppError)
    ensures
        e matches AppError::Conflict(m) && m@ == msg@,
{
    AppError::Conflict(String::from_str(msg))
}

pub fn unauthorized(msg: &str) -> (e: AppError)
    ensures
        e matches AppError::Unauthorized(m) && m@ == msg@,
{
    AppError::Unauthorized(String::from_str(msg))
}

pub fn insufficient(msg: &str) -> (e: AppError)
    ensures
        e matches AppError::InsufficientStock(m) && m@ == msg@,
{
    AppError::InsufficientStock(String::from_str(msg))
}

pub fn license(msg: &str) -> (e: AppError)
    ensures
        e matches AppError::License(m) && m@ == msg@,
{
    AppError::License(String::from_str(msg))
}

pub fn internal(msg: &str) -> (e: AppError)
    ensures
        e matches AppError::Internal(m) && m@ == msg@,
{
    AppError::Internal(String::from_str(msg))
}

} // verus!
