//! Errors of the controller layer, the layer that turns requests into calls of
//! the flows.
use crate::auth;
use crate::database;
use crate::response::ErrorResponse;
use crate::text::decimal;
use vstd::prelude::*;

verus! {

/// Errors that any controller may raise: the request breaks a rule of the API.
#[derive(Clone, Debug)]
pub enum GenericControllerError {
    /// A path id that is not a positive 32-bit integer (a Postgres serial).
    IdNotInPostgresSerialRange { id: String },
}

/// Errors of the stock listing.
#[derive(Clone, Debug)]
pub enum StocksError {
    DatabaseError(database::Error),
    GenericControllerError(GenericControllerError),
}

/// Errors of any controller.
#[derive(Debug)]
pub enum Error {
    Stocks(StocksError),
    Auth(auth::Error),
    GenericControllerError(GenericControllerError),
}

impl StocksError {
    /// Every failure of the stock listing answers 500, without detail.
    pub fn response(&self) -> (r: ErrorResponse)
        ensures
            crate::response::is_internal_server_error(r),
    {
        ErrorResponse::internal_server_error()
    }
}

/// What `str::parse::<i32>` reads from a text, if it accepts it.
pub uninterp spec fn i32_parsed(s: Seq<char>) -> Option<i32>;

/// How `i32`'s `Display` writes a number: its decimal digits, after a `-`
/// when it is negative.
pub open spec fn i32_text(n: i32) -> Seq<char> {
    if n < 0 {
        seq!['-'] + decimal((-(n as int)) as nat)
    } else {
        decimal(n as nat)
    }
}

/// Relies on `str::parse::<i32>`: the outcome depends on the text alone.
#[verifier::external_body]
fn parse_i32(s: &str) -> (r: Option<i32>)
    ensures
        r == i32_parsed(s@),
{
    s.parse::<i32>().ok()
}

/// Relies on `i32`'s `Display` through `ToString`: the decimal digits, after a
/// `-` for a negative number.
#[verifier::external_body]
fn write_i32(n: i32) -> (r: String)
    ensures
        r@ == i32_text(n),
{
    n.to_string()
}

/// The id that a path segment names, or the text that the error reports: a
/// text that is no `i32` is reported as it is, a number below one as written
/// by `i32`'s `Display`.
pub open spec fn stock_id_outcome(id: Seq<char>) -> Result<i32, Seq<char>> {
    match i32_parsed(id) {
        None => Err(id),
        Some(n) => if n < 1 {
            Err(i32_text(n))
        } else {
            Ok(n)
        },
    }
}

/// Reads the id of a stock from its path segment: a positive `i32`.
pub fn parse_stock_id(id: String) -> (r: Result<i32, GenericControllerError>)
    ensures
        r matches Ok(n) ==> stock_id_outcome(id@) == Ok::<i32, Seq<char>>(n),
        r matches Err(GenericControllerError::IdNotInPostgresSerialRange { id: text })
            ==> stock_id_outcome(id@) == Err::<i32, Seq<char>>(text@),
{
    match parse_i32(id.as_str()) {
        None => Err(GenericControllerError::IdNotInPostgresSerialRange { id }),
        Some(n) => if n < 1 {
            Err(GenericControllerError::IdNotInPostgresSerialRange { id: write_i32(n) })
        } else {
            Ok(n)
        },
    }
}

} // verus!
