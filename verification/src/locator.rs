//! The output destination: the per-session file name and the file-scheme
//! locator handed to the external recorder process.

use vstd::prelude::*;
use crate::error::ApertureError;

verus! {

/// The output file name for the session `id`: `aperture-<id>.mp4`.
pub open spec fn spec_destination_file_name(id: Seq<char>) -> Seq<char> {
    "aperture-"@ + id + ".mp4"@
}

/// Builds the output file name for the session `id`.
pub fn destination_file_name(id: &str) -> (r: String)
    ensures
        r@ == spec_destination_file_name(id@),
{
    let mut name = String::from_str("aperture-");
    name.append(id);
    name.append(".mp4");
    proof {
        assert(name@ =~= spec_destination_file_name(id@));
    }
    name
}

/// The file-scheme locator that the url crate's file-path conversion yields
/// for `path`, or `None` for a path it refuses (one that is not absolute).
pub uninterp spec fn spec_file_url(path: Seq<char>) -> Option<Seq<char>>;

/// Relies on url's `Url::from_file_path` and `Url::to_string`: an absolute
/// path is turned into a file-scheme URL, whose serialization starts with
/// `file://`; a path the crate refuses (one that is not absolute) gives
/// back `None`.  The conversion depends on the path alone.
#[verifier::external_body]
fn file_url_of(path: &str) -> (r: Option<String>)
    ensures
        r matches Some(u) ==> spec_file_url(path@) == Some(u@) && u@.len() >= 7 && u@.take(7)
            == "file://"@,
        r is None ==> spec_file_url(path@) is None,
{
    match url::Url::from_file_path(path) {
        Ok(u) => Some(u.to_string()),
        Err(()) => None,
    }
}

/// Converts an allocated destination path into the locator the external
/// recorder expects.  A path that cannot be expressed as a file-scheme URL
/// is reported as a failed allocation.
pub fn destination_url(path: &str) -> (r: Result<String, ApertureError>)
    ensures
        r matches Ok(u) ==> spec_file_url(path@) == Some(u@) && u@.len() >= 7 && u@.take(7)
            == "file://"@,
        r matches Err(e) ==> e == ApertureError::PathAllocationFailure && spec_file_url(path@)
            is None,
{
    match file_url_of(path) {
        Some(u) => Ok(u),
        None => Err(ApertureError::PathAllocationFailure),
    }
}

} // verus!
