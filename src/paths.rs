//! Host path operations, taken from `std::path` on the target platform.

use crate::specifier::is_relative_specifier;
use std::path::Path;
use vstd::prelude::*;

verus! {

/// The parent directory that `std::path::Path::parent` gives for a path.
pub uninterp spec fn path_parent(p: Seq<char>) -> Option<Seq<char>>;

/// The path that `std::path::Path::join` builds from a base and a second path.
pub uninterp spec fn path_join(base: Seq<char>, rest: Seq<char>) -> Seq<char>;

/// The component-wise normal form of a path, by which std compares paths:
/// repeated separators and interior `.` components are gone.
pub uninterp spec fn path_normal(p: Seq<char>) -> Seq<char>;

/// Whether `std::path::Path::is_absolute` holds of a path.
pub uninterp spec fn path_is_absolute(p: Seq<char>) -> bool;

/// The extension that `std::path::Path::extension` finds in a path.
pub uninterp spec fn path_extension(p: Seq<char>) -> Option<Seq<char>>;

/// The view of an optional string.
pub open spec fn opt_string_view(o: Option<String>) -> Option<Seq<char>> {
    match o {
        Some(s) => Some(s@),
        None => None,
    }
}

/// The view of an optional string slice.
pub open spec fn opt_str_view(o: Option<&str>) -> Option<Seq<char>> {
    match o {
        Some(s) => Some(s@),
        None => None,
    }
}

/// Relies on `std::path::Path::parent`: the path without its final component,
/// or nothing for a root or an empty path.
#[verifier::external_body]
pub(crate) fn parent_of(p: &str) -> (r: Option<String>)
    ensures
        opt_string_view(r) == path_parent(p@),
{
    Path::new(p).parent().map(|q| q.to_string_lossy().into_owned())
}

/// Relies on `std::path::Path::join`: `rest` appended to `base` with a separator.
#[verifier::external_body]
pub(crate) fn join(base: &str, rest: &str) -> (r: String)
    ensures
        r@ == path_join(base@, rest@),
{
    Path::new(base).join(rest).to_string_lossy().into_owned()
}

/// Relies on `std::path::Path::components`, collected into a `PathBuf`: the
/// path rebuilt from its components.
#[verifier::external_body]
pub(crate) fn normalize(p: &str) -> (r: String)
    ensures
        r@ == path_normal(p@),
{
    Path::new(p).components().collect::<std::path::PathBuf>().to_string_lossy().into_owned()
}

/// Whether a path has neither a root nor a drive prefix: it does not start
/// with `/` or `\`, and its second character is not `:`.
pub open spec fn rootless(p: Seq<char>) -> bool {
    (p.len() == 0 || (p[0] != '/' && p[0] != '\\')) && (p.len() < 2 || p[1] != ':')
}

/// Relies on `std::path::Path::is_absolute`: whether the path is independent of
/// the working directory, which a path starting with `./` or `../`, or one with
/// neither a root nor a prefix, is not.
#[verifier::external_body]
pub(crate) fn is_absolute(p: &str) -> (r: bool)
    ensures
        r == path_is_absolute(p@),
        is_relative_specifier(p@) ==> !r,
        rootless(p@) ==> !r,
{
    Path::new(p).is_absolute()
}

/// Relies on `std::path::Path::extension`: the part of the file name after its
/// last dot.
#[verifier::external_body]
pub(crate) fn extension_of(p: &str) -> (r: Option<String>)
    ensures
        opt_string_view(r) == path_extension(p@),
{
    Path::new(p).extension().map(|e| e.to_string_lossy().into_owned())
}

} // verus!
