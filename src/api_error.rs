//! Errors reported by the API, and how they are shown: a localized message
//! looked up by error code, and for a few codes a remedy beside the text.

use vstd::prelude::*;
use crate::text::{chars_of, concat, contains_seq, has_infix, has_prefix, matches_at, same_text};

verus! {

/// An error as the API reports it: a code from a known set and, for some
/// codes, free text such as a security-scan report.
#[derive(Clone, Debug)]
pub struct ApiError {
    pub error_code: String,
    pub details: Option<String>,
}

/// What the dashboard offers beside an error's message.
#[derive(PartialEq, Eq, Debug)]
pub enum Remedy {
    /// Nothing but the message.
    Message,
    /// A link to install the repository integration.
    InstallIntegration,
    /// A link to manage the integration's installations.
    ManageInstallations,
    /// The scan report, shown verbatim.
    ScanReport(String),
}

/// An error with the given code and no details.
pub fn api_error(code: &str) -> (r: ApiError)
    ensures
        r.error_code@ == code@,
        r.details is None,
{
    ApiError { error_code: String::from_str(code), details: None }
}

/// The error reported when a database was created but could not be linked.
pub fn link_failed() -> (r: ApiError)
    ensures
        r.error_code@ == "LINK_FAILED"@,
        r.details is None,
{
    api_error("LINK_FAILED")
}

/// The error reported when the owner names themself as a participant.
pub fn owner_cannot_be_participant() -> (r: ApiError)
    ensures
        r.error_code@ == "OWNER_CANNOT_BE_PARTICIPANT"@,
        r.details is None,
{
    api_error("OWNER_CANNOT_BE_PARTICIPANT")
}

/// The translation key of an error code.
pub fn error_key(code: &str) -> (r: String)
    ensures
        r@ == "errors."@ + code@,
{
    concat("errors.", code)
}

/// The translation key used when an error code has no message of its own.
pub fn default_error_key() -> (r: String)
    ensures
        r@ == "errors.DEFAULT"@,
{
    String::from_str("errors.DEFAULT")
}

/// What the translation table hands back for a key it does not hold:
/// `Key '<key>' not found for language '<language>'`.
pub open spec fn is_missing(t: Seq<char>) -> bool {
    has_prefix(t, "Key '"@) && has_infix(t, " not found for language "@)
}

/// Whether a looked-up text is the translation table's note of a missing key.
pub fn is_translation_missing(translation: &str) -> (r: bool)
    ensures
        r == is_missing(translation@),
{
    let t = chars_of(translation);
    let head = chars_of("Key '");
    let middle = chars_of(" not found for language ");
    matches_at(&t, &head, 0) && contains_seq(&t, &middle)
}

/// The looked-up text, or `fallback` when the key was missing.
pub fn translation_or(found: String, fallback: String) -> (r: String)
    ensures
        r@ == if is_missing(found@) {
            fallback@
        } else {
            found@
        },
{
    if is_translation_missing(found.as_str()) {
        fallback
    } else {
        found
    }
}

/// The remedy shown beside an error.
pub fn remedy_for(e: &ApiError) -> (r: Remedy)
    ensures
        e.error_code@ == "GITHUB_ACCOUNT_NOT_LINKED"@ ==> r == Remedy::InstallIntegration,
        e.error_code@ == "GITHUB_REPO_NOT_ACCESSIBLE"@ ==> r == Remedy::ManageInstallations,
        e.error_code@ == "IMAGE_SCAN_FAILED"@ ==> match e.details {
            Some(d) => r matches Remedy::ScanReport(s) && s@ == d@,
            None => r == Remedy::Message,
        },
        e.error_code@ != "GITHUB_ACCOUNT_NOT_LINKED"@ && e.error_code@
            != "GITHUB_REPO_NOT_ACCESSIBLE"@ && e.error_code@ != "IMAGE_SCAN_FAILED"@ ==> r
            == Remedy::Message,
{
    proof {
        reveal_strlit("GITHUB_ACCOUNT_NOT_LINKED");
        reveal_strlit("GITHUB_REPO_NOT_ACCESSIBLE");
        reveal_strlit("IMAGE_SCAN_FAILED");
        assert("GITHUB_ACCOUNT_NOT_LINKED"@.len() != "IMAGE_SCAN_FAILED"@.len());
        assert("GITHUB_REPO_NOT_ACCESSIBLE"@.len() != "IMAGE_SCAN_FAILED"@.len());
    }
    let code = e.error_code.as_str();
    if same_text(code, "GITHUB_ACCOUNT_NOT_LINKED") {
        Remedy::InstallIntegration
    } else if same_text(code, "GITHUB_REPO_NOT_ACCESSIBLE") {
        Remedy::ManageInstallations
    } else if same_text(code, "IMAGE_SCAN_FAILED") {
        match &e.details {
            Some(d) => Remedy::ScanReport(String::from_str(d.as_str())),
            None => Remedy::Message,
        }
    } else {
        Remedy::Message
    }
}

} // verus!
