//! Declarations of the database driver's types that the library carries
//! through its own data structures, together with the few trusted calls it
//! makes into them.
//!
//! Every item here is believed, not verified: each doc comment names the
//! outside item relied on.

use vstd::prelude::*;

use packageurl::Error as PurlParseError;

verus! {

/// Declares `sea_orm::DbErr`, the driver's error for a failed connection,
/// statement, commit or rollback. The library carries such values through
/// its error taxonomy without reading their structure.
#[verifier::external_type_specification]
#[verifier::external_body]
pub struct ExDbErr(sea_orm::DbErr);

/// Declares `sea_orm::DatabaseConnection`, the pool-backed connection handle
/// that a `System` shares between transaction invocations.
#[verifier::external_type_specification]
#[verifier::external_body]
pub struct ExDatabaseConnection(sea_orm::DatabaseConnection);

/// Declares `sea_orm::DatabaseTransaction`, one in-flight transaction; a
/// `Context` borrows it for the duration of a single invocation.
#[verifier::external_type_specification]
#[verifier::external_body]
pub struct ExDatabaseTransaction(sea_orm::DatabaseTransaction);

/// Declares `packageurl::Error`, the parse error for a malformed package
/// URL. The library carries such values into its reporting layer without
/// reading their structure.
#[verifier::external_type_specification]
#[verifier::external_body]
pub struct ExPurlError(PurlParseError);

/// The text that rendering a driver error yields: a function of the error
/// value alone, named here so that contracts can carry it, and otherwise
/// left unstated.
pub uninterp spec fn db_err_text_of(err: sea_orm::DbErr) -> Seq<char>;

/// Relies on the `Display` impl of `sea_orm::DbErr` (derived by
/// `thiserror`): every variant renders to text from the error value alone.
/// The library names that text and states nothing of its content.
#[verifier::external_body]
pub(crate) fn db_err_text(err: &sea_orm::DbErr) -> (r: String)
    ensures
        r@ == db_err_text_of(*err),
{
    format!("{}", err)
}

/// The text that rendering a package-URL parse error yields: a function of
/// the error value alone, named here so that contracts can carry it, and
/// otherwise left unstated.
pub uninterp spec fn purl_error_text_of(err: PurlParseError) -> Seq<char>;

/// Relies on the `Display` impl of `packageurl::Error` (derived by
/// `thiserror`): every variant renders to text from the error value alone.
/// The library names that text and states nothing of its content.
#[verifier::external_body]
pub(crate) fn purl_error_text(err: &PurlParseError) -> (r: String)
    ensures
        r@ == purl_error_text_of(*err),
{
    format!("{}", err)
}

} // verus!
