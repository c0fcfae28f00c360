//! Module specifiers: what a raw import string names, and the cache identity
//! built from it.

use crate::paths::{
    is_absolute, join, normalize, opt_str_view, parent_of, path_is_absolute, path_join, path_normal, path_parent,
    rootless,
};
use vstd::prelude::*;

verus! {

/// What a raw module string names once resolved.
#[derive(Debug, PartialEq, Eq, Hash)]
pub enum Specifier {
    /// A host filesystem path, in the component-wise normal form by which
    /// paths are compared, so that two spellings of one path are one key.
    Path(String),
    /// A reference to an external package; resolving these is not supported.
    NodeModule(String),
}

/// The mathematical value of a [`Specifier`].
pub enum SpecifierView {
    Path(Seq<char>),
    NodeModule(Seq<char>),
}

impl View for Specifier {
    type V = SpecifierView;

    open spec fn view(&self) -> SpecifierView {
        match self {
            Specifier::Path(p) => SpecifierView::Path(p@),
            Specifier::NodeModule(n) => SpecifierView::NodeModule(n@),
        }
    }
}

/// How the source of a module is compiled.
#[derive(Clone, Copy, Debug, PartialEq, Eq, Hash, Structural)]
pub enum ModuleKind {
    /// Script source, possibly in the superset dialect.
    Script,
    /// JSON data, compiled from the raw file content.
    JsonData,
}

/// The cache identity of a module: its specifier and its kind.
#[derive(Debug, PartialEq, Eq, Hash)]
pub struct ModuleKey {
    pub specifier: Specifier,
    pub kind: ModuleKind,
}

/// The mathematical value of a [`ModuleKey`].
pub type KeyView = (SpecifierView, ModuleKind);

impl View for ModuleKey {
    type V = KeyView;

    open spec fn view(&self) -> KeyView {
        (self.specifier@, self.kind)
    }
}

impl Clone for Specifier {
    fn clone(&self) -> (r: Self)
        ensures
            r == *self,
    {
        match self {
            Specifier::Path(p) => Specifier::Path(p.clone()),
            Specifier::NodeModule(n) => Specifier::NodeModule(n.clone()),
        }
    }
}

impl Clone for ModuleKey {
    fn clone(&self) -> (r: Self)
        ensures
            r == *self,
    {
        ModuleKey { specifier: self.specifier.clone(), kind: self.kind }
    }
}

impl Specifier {
    /// Whether two specifiers are the same.
    pub fn same_as(&self, other: &Specifier) -> (r: bool)
        ensures
            r == (self@ == other@),
    {
        match (self, other) {
            (Specifier::Path(a), Specifier::Path(b)) => a.eq(b),
            (Specifier::NodeModule(a), Specifier::NodeModule(b)) => a.eq(b),
            _ => false,
        }
    }
}

impl ModuleKey {
    /// Whether two keys name the same module.
    pub fn same_as(&self, other: &ModuleKey) -> (r: bool)
        ensures
            r == (self@ == other@),
    {
        self.kind == other.kind && self.specifier.same_as(&other.specifier)
    }
}

/// Whether `s` begins with `prefix`.
pub open spec fn has_prefix(s: Seq<char>, prefix: Seq<char>) -> bool {
    prefix.len() <= s.len() && s.subrange(0, prefix.len() as int) == prefix
}

/// Whether a raw specifier is relative: it starts with `./` or `../`.
pub open spec fn is_relative_specifier(raw: Seq<char>) -> bool {
    has_prefix(raw, seq!['.', '/']) || has_prefix(raw, seq!['.', '.', '/'])
}

/// The directory a relative specifier is joined to: the parent of the
/// referrer's path, or the working directory `.` when there is no referrer or
/// the referrer's path has no parent.
pub open spec fn base_directory(referrer: Option<Seq<char>>) -> Seq<char> {
    match referrer {
        Some(p) => match path_parent(p) {
            Some(parent) => parent,
            None => seq!['.'],
        },
        None => seq!['.'],
    }
}

/// What a raw specifier resolves to against an optional referrer path.
/// Relative strings come first, then absolute paths, then package names; a
/// path is kept in normal form.
pub open spec fn resolved(raw: Seq<char>, referrer: Option<Seq<char>>) -> SpecifierView {
    if is_relative_specifier(raw) {
        SpecifierView::Path(path_normal(path_join(base_directory(referrer), raw)))
    } else if path_is_absolute(raw) {
        SpecifierView::Path(path_normal(raw))
    } else {
        SpecifierView::NodeModule(raw)
    }
}

/// Whether `s` begins with `prefix`.
fn starts_with(s: &str, prefix: &str) -> (r: bool)
    ensures
        r == has_prefix(s@, prefix@),
{
    let n = s.unicode_len();
    let m = prefix.unicode_len();
    if m > n {
        return false;
    }
    let mut i: usize = 0;
    while i < m
        invariant
            m == prefix@.len(),
            n == s@.len(),
            m <= n,
            i <= m,
            forall|j: int| 0 <= j < i ==> s@[j] == prefix@[j],
        decreases m - i,
    {
        if s.get_char(i) != prefix.get_char(i) {
            assert(s@.subrange(0, m as int)[i as int] != prefix@[i as int]);
            return false;
        }
        i = i + 1;
    }
    assert(s@.subrange(0, m as int) =~= prefix@);
    true
}

/// Resolves a raw module string against the path recorded for the referring
/// module, if any. An absolute path resolves to itself in normal form,
/// whatever the referrer; a string that is not relative and has neither a root
/// nor a drive prefix, such as a bare name, is a package.
pub fn resolve_specifier(raw: String, referrer: Option<&str>) -> (r: Specifier)
    ensures
        r@ == resolved(raw@, opt_str_view(referrer)),
        path_is_absolute(raw@) ==> r@ == SpecifierView::Path(path_normal(raw@)),
        !is_relative_specifier(raw@) && rootless(raw@) ==> r@ == SpecifierView::NodeModule(raw@),
{
    let absolute = is_absolute(raw.as_str());
    let dot_slash = "./";
    let dot_dot_slash = "../";
    proof {
        reveal_strlit("./");
        reveal_strlit("../");
        assert(dot_slash@ =~= seq!['.', '/']);
        assert(dot_dot_slash@ =~= seq!['.', '.', '/']);
    }
    if starts_with(raw.as_str(), dot_slash) || starts_with(raw.as_str(), dot_dot_slash) {
        let here = ".";
        proof {
            reveal_strlit(".");
            assert(here@ =~= seq!['.']);
        }
        let path = match referrer {
            Some(p) => match parent_of(p) {
                Some(parent) => join(parent.as_str(), raw.as_str()),
                None => join(here, raw.as_str()),
            },
            None => join(here, raw.as_str()),
        };
        return Specifier::Path(normalize(path.as_str()));
    }
    if absolute {
        return Specifier::Path(normalize(raw.as_str()));
    }
    Specifier::NodeModule(raw)
}

/// A specifier that starts with `./` or `../` resolves to the normal form of
/// itself joined to the referrer's parent directory, or to the working
/// directory `.` when there is no referrer; it is never taken for a package
/// name.
pub proof fn lemma_relative_joins_referrer_directory(raw: Seq<char>, referrer: Option<Seq<char>>)
    requires
        is_relative_specifier(raw),
    ensures
        resolved(raw, referrer) == SpecifierView::Path(path_normal(path_join(base_directory(referrer), raw))),
        referrer is None ==> resolved(raw, referrer) == SpecifierView::Path(path_normal(path_join(seq!['.'], raw))),
        referrer matches Some(p) ==> (path_parent(p) matches Some(parent)
            ==> resolved(raw, referrer) == SpecifierView::Path(path_normal(path_join(parent, raw)))),
{
}

/// Any other specifier names an external package.
pub proof fn lemma_other_is_package(raw: Seq<char>, referrer: Option<Seq<char>>)
    requires
        !path_is_absolute(raw),
        !is_relative_specifier(raw),
    ensures
        resolved(raw, referrer) == SpecifierView::NodeModule(raw),
{
}

} // verus!
