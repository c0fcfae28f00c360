//! The `url` field written onto a module's import-metadata object.

use crate::errors::{LoaderError, LoaderErrorView};
use crate::paths::{opt_str_view, opt_string_view, path_is_absolute};
use crate::specifier::has_prefix;
use vstd::prelude::*;

verus! {

/// The serialization of the `file:` URL that `url::Url::from_file_path` builds
/// for a path, or nothing where it refuses the path.
pub uninterp spec fn file_url_of(p: Seq<char>) -> Option<Seq<char>>;

/// The scheme and authority marker that begin every file URL.
pub open spec fn file_url_prefix() -> Seq<char> {
    seq!['f', 'i', 'l', 'e', ':', '/', '/']
}

/// Relies on `url::Url::from_file_path`: the URL of an absolute path, whose
/// serialization starts with `file://`; a path that is not absolute is refused.
#[verifier::external_body]
fn file_url(path: &str) -> (r: Option<String>)
    ensures
        opt_string_view(r) == file_url_of(path@),
        r matches Some(u) ==> has_prefix(u@, file_url_prefix()),
        !path_is_absolute(path@) ==> r is None,
{
    url::Url::from_file_path(path).ok().map(|u| u.as_str().to_owned())
}

/// The view of a metadata result.
pub open spec fn metadata_view(r: Result<Option<String>, LoaderError>) -> Result<Option<Seq<char>>, LoaderErrorView> {
    match r {
        Ok(u) => Ok(opt_string_view(u)),
        Err(e) => Err(e@),
    }
}

/// The `url` value for a referrer: nothing when no path is recorded for it;
/// otherwise the file URL of the canonical form of that path, and an error
/// when canonicalizing failed or the URL cannot be built.
pub open spec fn metadata_outcome(recorded: Option<Seq<char>>, canonical: Option<Seq<char>>) -> Result<Option<Seq<char>>, LoaderErrorView> {
    match recorded {
        None => Ok(None),
        Some(p) => match canonical {
            None => Err(LoaderErrorView::InvalidPath(p)),
            Some(c) => match file_url_of(c) {
                Some(u) => Ok(Some(u)),
                None => Err(LoaderErrorView::InvalidPath(c)),
            },
        },
    }
}

/// What to write under `url` on the import-metadata object of a module whose
/// referrer has the recorded path `recorded`. `canonical` is the absolute,
/// canonical form of that path, or nothing when canonicalizing it failed; it
/// is not looked at when no path is recorded. `Ok(None)` means: write no field.
/// A written value is always a file URL.
pub fn metadata_url(recorded: Option<&str>, canonical: Option<String>) -> (r: Result<Option<String>, LoaderError>)
    ensures
        metadata_view(r) == metadata_outcome(opt_str_view(recorded), opt_string_view(canonical)),
        recorded is None ==> r matches Ok(None),
        r matches Ok(Some(u)) ==> has_prefix(u@, file_url_prefix()),
{
    match recorded {
        None => Ok(None),
        Some(p) => match canonical {
            None => Err(LoaderError::InvalidPath(p.to_owned())),
            Some(c) => match file_url(c.as_str()) {
                Some(u) => Ok(Some(u)),
                None => Err(LoaderError::InvalidPath(c)),
            },
        },
    }
}

} // verus!
