//! The module loader: a cache of compiled modules keyed by specifier and kind,
//! a cache of transformed superset-dialect sources keyed by path, and the
//! decisions taken at each step of a load.
//!
//! A load runs in steps, each a call here with the host's work in between:
//! [`Loader::resolve`] finds the module in the cache or asks for its file;
//! [`Loader::prepare_source`] takes what was read and says what to compile,
//! or that the source must first be transformed ([`Loader::record_transform`]);
//! [`Loader::complete`] takes the compiled module and registers it.

use crate::errors::{plain_result_view, result_view, LoaderError, LoaderErrorView};
use crate::specifier::{resolve_specifier, resolved, KeyView, ModuleKey, ModuleKind, Specifier, SpecifierView};
use crate::paths::{extension_of, normalize, opt_str_view, opt_string_view, path_extension, path_normal};
use vstd::prelude::*;

verus! {

/// The cache identity that a raw specifier of the given kind resolves to.
pub open spec fn key_for(raw: Seq<char>, kind: ModuleKind, referrer: Option<Seq<char>>) -> KeyView {
    (resolved(raw, referrer), kind)
}

/// A transformed source and its position map, kept for one file.
struct TransformEntry {
    path: String,
    source: String,
    position_map: String,
}

/// The module cache and the transform cache of one interpreter.
///
/// Both caches are vectors searched by key, each mirrored by a ghost map. std's
/// `HashMap` is specified in vstd only for keys whose hashing Verus models
/// (integers), and these keys hold strings.
pub struct Loader<M> {
    modules: Vec<(ModuleKey, M)>,
    transforms: Vec<TransformEntry>,
    module_map: Ghost<Map<KeyView, M>>,
    transform_map: Ghost<Map<Seq<char>, (Seq<char>, Seq<char>)>>,
}

/// The mathematical value of a [`Loader`]: the registered modules, and for each
/// transformed file its transformed source and position map.
pub struct LoaderView<M> {
    pub modules: Map<KeyView, M>,
    pub transforms: Map<Seq<char>, (Seq<char>, Seq<char>)>,
}

impl<M> View for Loader<M> {
    type V = LoaderView<M>;

    closed spec fn view(&self) -> LoaderView<M> {
        LoaderView { modules: self.module_map@, transforms: self.transform_map@ }
    }
}

/// Whether every registered key is at a path: only modules read from files are
/// registered.
pub open spec fn keys_at_paths<M>(modules: Map<KeyView, M>) -> bool {
    forall|k: KeyView| #[trigger] modules.contains_key(k) ==> k.0 is Path
}

/// The key under which a module registered by the name `name` is kept: the
/// normal form of that path, as a script.
pub open spec fn registered_key(name: Seq<char>) -> KeyView {
    (SpecifierView::Path(path_normal(name)), ModuleKind::Script)
}

/// What adding `module` under `key` does to a loader, and its result: a key
/// that is already registered is refused and nothing changes.
pub open spec fn insert_outcome<M>(l: LoaderView<M>, key: KeyView, module: M) -> (LoaderView<M>, Result<(), LoaderErrorView>) {
    if l.modules.contains_key(key) {
        (l, Err(LoaderErrorView::DuplicateIdentity(key)))
    } else {
        (LoaderView { modules: l.modules.insert(key, module), ..l }, Ok(()))
    }
}

/// What registering `module` under `name` does to a loader, and its result.
pub open spec fn register_outcome<M>(l: LoaderView<M>, name: Seq<char>, module: M) -> (LoaderView<M>, Result<(), LoaderErrorView>) {
    insert_outcome(l, registered_key(name), module)
}

/// The first step of a load, seen mathematically.
pub enum LookupView<M> {
    Cached(M),
    Read(KeyView),
}

/// The first step of a load: the module is already cached, or the file at the
/// key's path must be read.
pub enum Lookup<M> {
    /// The module registered under the key; nothing is read or compiled.
    Cached(M),
    /// The key to load; its specifier is a path.
    Read(ModuleKey),
}

impl<M> View for Lookup<M> {
    type V = LookupView<M>;

    open spec fn view(&self) -> LookupView<M> {
        match self {
            Lookup::Cached(m) => LookupView::Cached(*m),
            Lookup::Read(k) => LookupView::Read(k@),
        }
    }
}

/// What the first step of a load gives for a key.
pub open spec fn resolve_outcome<M>(modules: Map<KeyView, M>, key: KeyView) -> Result<LookupView<M>, LoaderErrorView> {
    if modules.contains_key(key) {
        Ok(LookupView::Cached(modules[key]))
    } else if key.0 is Path {
        Ok(LookupView::Read(key))
    } else {
        Err(LoaderErrorView::Resolution(key))
    }
}

/// Whether a path names a superset-dialect file: its extension is `ts`.
pub open spec fn is_superset_path(p: Seq<char>) -> bool {
    path_extension(p) == Some(seq!['t', 's'])
}

/// What to compile for a module whose file has been read, seen mathematically.
pub enum SourcePlanView {
    Plain(Seq<char>),
    Cached(Seq<char>, Seq<char>),
    Transform(Seq<char>),
}

/// What to compile for a module whose file has been read.
pub enum SourcePlan {
    /// Compile the source as read.
    Plain(String),
    /// Compile this transformed source, kept from an earlier transform of the
    /// same file with its position map.
    Cached { source: String, position_map: String },
    /// Run the transform on the source as read, record the result with
    /// [`Loader::record_transform`], keep its position map, and compile it.
    Transform(String),
}

impl View for SourcePlan {
    type V = SourcePlanView;

    open spec fn view(&self) -> SourcePlanView {
        match self {
            SourcePlan::Plain(s) => SourcePlanView::Plain(s@),
            SourcePlan::Cached { source, position_map } => SourcePlanView::Cached(source@, position_map@),
            SourcePlan::Transform(s) => SourcePlanView::Transform(s@),
        }
    }
}

/// What to compile for `key`, given what reading its file gave (nothing when
/// the read failed) and whether the superset dialect is enabled.
pub open spec fn plan_outcome(
    transforms: Map<Seq<char>, (Seq<char>, Seq<char>)>,
    key: KeyView,
    read: Option<Seq<char>>,
    superset: bool,
) -> Result<SourcePlanView, LoaderErrorView> {
    match (key.0, read) {
        (SpecifierView::Path(path), Some(source)) => {
            if key.1 == ModuleKind::Script && superset && is_superset_path(path) {
                if transforms.contains_key(path) {
                    Ok(SourcePlanView::Cached(transforms[path].0, transforms[path].1))
                } else {
                    Ok(SourcePlanView::Transform(source))
                }
            } else {
                Ok(SourcePlanView::Plain(source))
            }
        },
        _ => Err(LoaderErrorView::Resolution(key)),
    }
}

/// What recording a transform of the file at `path` does to a loader: the
/// first transform of a file is kept for the life of the loader.
pub open spec fn record_outcome<M>(l: LoaderView<M>, path: Seq<char>, source: Seq<char>, position_map: Seq<char>) -> LoaderView<M> {
    if l.transforms.contains_key(path) {
        l
    } else {
        LoaderView { transforms: l.transforms.insert(path, (source, position_map)), ..l }
    }
}

/// What completing the load of `key` does to a loader, given the compiled
/// module (nothing when compiling failed), and its result. The module is
/// registered under the key itself, its path and its kind.
pub open spec fn complete_outcome<M>(l: LoaderView<M>, key: KeyView, compiled: Option<M>) -> (LoaderView<M>, Result<M, LoaderErrorView>) {
    match (key.0, compiled) {
        (SpecifierView::Path(_), Some(module)) => {
            let (after, r) = insert_outcome(l, key, module);
            match r {
                Ok(_) => (after, Ok(module)),
                Err(e) => (after, Err(e)),
            }
        },
        (SpecifierView::Path(_), None) => (l, Err(LoaderErrorView::Compile(key))),
        (SpecifierView::NodeModule(_), _) => (l, Err(LoaderErrorView::Resolution(key))),
    }
}

/// Whether `path` names a superset-dialect file.
fn is_superset_file(path: &str) -> (r: bool)
    ensures
        r == is_superset_path(path@),
{
    let ts = "ts".to_owned();
    proof {
        reveal_strlit("ts");
        assert(ts@ =~= seq!['t', 's']);
    }
    match extension_of(path) {
        Some(e) => e.eq(&ts),
        None => false,
    }
}

impl<M: Copy> Loader<M> {
    /// Whether the entries agree with the view and keys and paths are unique.
    pub closed spec fn wf(&self) -> bool {
        &&& forall|i: int| 0 <= i < self.modules@.len() ==> {
            &&& #[trigger] self.module_map@.contains_key(self.modules@[i].0@)
            &&& self.module_map@[self.modules@[i].0@] == self.modules@[i].1
        }
        &&& forall|k: KeyView| #[trigger] self.module_map@.contains_key(k)
            ==> exists|i: int| 0 <= i < self.modules@.len() && self.modules@[i].0@ == k
        &&& keys_at_paths(self.module_map@)
        &&& forall|i: int| 0 <= i < self.transforms@.len() ==> {
            &&& #[trigger] self.transform_map@.contains_key(self.transforms@[i].path@)
            &&& self.transform_map@[self.transforms@[i].path@] == (
                self.transforms@[i].source@,
                self.transforms@[i].position_map@,
            )
        }
        &&& forall|p: Seq<char>| #[trigger] self.transform_map@.contains_key(p)
            ==> exists|i: int| 0 <= i < self.transforms@.len() && self.transforms@[i].path@ == p
    }

    /// An empty loader.
    pub fn new() -> (r: Self)
        ensures
            r.wf(),
            r@.modules == Map::<KeyView, M>::empty(),
            r@.transforms == Map::<Seq<char>, (Seq<char>, Seq<char>)>::empty(),
    {
        Loader {
            modules: Vec::new(),
            transforms: Vec::new(),
            module_map: Ghost(Map::empty()),
            transform_map: Ghost(Map::empty()),
        }
    }

    /// The module registered under `key`, if any.
    fn find_module(&self, key: &ModuleKey) -> (r: Option<M>)
        requires
            self.wf(),
        ensures
            r == (if self@.modules.contains_key(key@) { Some(self@.modules[key@]) } else { None::<M> }),
    {
        let mut i: usize = 0;
        while i < self.modules.len()
            invariant
                self.wf(),
                i <= self.modules@.len(),
                forall|j: int| 0 <= j < i ==> self.modules@[j].0@ != key@,
            decreases self.modules@.len() - i,
        {
            if self.modules[i].0.same_as(key) {
                assert(self.module_map@.contains_key(self.modules@[i as int].0@));
                return Some(self.modules[i].1);
            }
            i = i + 1;
        }
        None
    }

    /// Adds `module` under `key`, a key at a path, unless the key is already
    /// registered.
    fn insert(&mut self, key: ModuleKey, module: M) -> (r: Result<(), LoaderError>)
        requires
            old(self).wf(),
            key.specifier is Path,
        ensures
            final(self).wf(),
            (final(self)@, plain_result_view(r)) == insert_outcome(old(self)@, key@, module),
    {
        match self.find_module(&key) {
            Some(_) => Err(LoaderError::DuplicateIdentity(key)),
            None => {
                let ghost k = key@;
                let ghost old_modules = self.modules@;
                self.modules.push((key, module));
                self.module_map = Ghost(self.module_map@.insert(k, module));
                proof {
                    assert forall|i: int| 0 <= i < self.modules@.len() implies {
                        &&& #[trigger] self.module_map@.contains_key(self.modules@[i].0@)
                        &&& self.module_map@[self.modules@[i].0@] == self.modules@[i].1
                    } by {
                        if i < old_modules.len() {
                            assert(self.modules@[i] == old_modules[i]);
                            assert(self.modules@[i].0@ != k);
                        }
                    }
                    assert forall|kk: KeyView| #[trigger] self.module_map@.contains_key(kk)
                        implies exists|i: int| 0 <= i < self.modules@.len() && self.modules@[i].0@ == kk by {
                        if kk == k {
                            assert(self.modules@[old_modules.len() as int].0@ == kk);
                        } else {
                            let i = choose|i: int| 0 <= i < old_modules.len() && old_modules[i].0@ == kk;
                            assert(self.modules@[i] == old_modules[i]);
                        }
                    }
                    assert forall|kk: KeyView| #[trigger] self.module_map@.contains_key(kk)
                        implies kk.0 is Path by {
                        if kk != k {
                            assert(old(self).module_map@.contains_key(kk));
                        }
                    }
                    assert forall|p: Seq<char>| #[trigger] self.transform_map@.contains_key(p)
                        implies exists|i: int| 0 <= i < self.transforms@.len() && self.transforms@[i].path@ == p by {
                        assert(old(self).transform_map@.contains_key(p));
                        let i = choose|i: int| 0 <= i < old(self).transforms@.len() && old(self).transforms@[i].path@ == p;
                        assert(self.transforms@[i] == old(self).transforms@[i]);
                    }
                }
                Ok(())
            }
        }
    }

    /// Registers a compiled module by the path `name`, as a script, under the
    /// normal form of that path. A key that is already registered is refused
    /// and the cache left as it was.
    pub fn register(&mut self, name: String, module: M) -> (r: Result<(), LoaderError>)
        requires
            old(self).wf(),
        ensures
            final(self).wf(),
            (final(self)@, plain_result_view(r)) == register_outcome(old(self)@, name@, module),
    {
        let key = ModuleKey { specifier: Specifier::Path(normalize(name.as_str())), kind: ModuleKind::Script };
        self.insert(key, module)
    }

    /// The first step of loading `raw`, of the given kind, for a module whose
    /// recorded path is `referrer`: the cached module, or the key whose file to
    /// read. An external-package specifier is a resolution error.
    pub fn resolve(&self, raw: String, kind: ModuleKind, referrer: Option<&str>) -> (r: Result<Lookup<M>, LoaderError>)
        requires
            self.wf(),
        ensures
            result_view(r) == resolve_outcome(self@.modules, key_for(raw@, kind, opt_str_view(referrer))),
            resolved(raw@, opt_str_view(referrer)) is NodeModule ==> (r matches Err(LoaderError::Resolution(k))
                && k@ == key_for(raw@, kind, opt_str_view(referrer))),
    {
        let specifier = resolve_specifier(raw, referrer);
        let key = ModuleKey { specifier, kind };
        match self.find_module(&key) {
            Some(m) => Ok(Lookup::Cached(m)),
            None => match key.specifier {
                Specifier::Path(_) => Ok(Lookup::Read(key)),
                Specifier::NodeModule(_) => Err(LoaderError::Resolution(key)),
            },
        }
    }

    /// The transformed source and position map kept for `path`, if any.
    fn find_transform(&self, path: &String) -> (r: Option<(String, String)>)
        requires
            self.wf(),
        ensures
            self@.transforms.contains_key(path@) <==> r is Some,
            r matches Some((s, m)) ==> self@.transforms[path@] == (s@, m@),
    {
        let mut i: usize = 0;
        while i < self.transforms.len()
            invariant
                self.wf(),
                i <= self.transforms@.len(),
                forall|j: int| 0 <= j < i ==> self.transforms@[j].path@ != path@,
            decreases self.transforms@.len() - i,
        {
            if self.transforms[i].path.eq(path) {
                assert(self.transform_map@.contains_key(self.transforms@[i as int].path@));
                return Some((self.transforms[i].source.clone(), self.transforms[i].position_map.clone()));
            }
            i = i + 1;
        }
        None
    }

    /// The second step of a load: given what reading the file of `key` gave
    /// (nothing when the read failed), says what to compile. A superset-dialect
    /// script is transformed once per file; later loads get the kept result.
    pub fn prepare_source(&self, key: &ModuleKey, read: Option<String>, superset_enabled: bool) -> (r: Result<SourcePlan, LoaderError>)
        requires
            self.wf(),
        ensures
            result_view(r) == plan_outcome(self@.transforms, key@, opt_string_view(read), superset_enabled),
    {
        match (&key.specifier, read) {
            (Specifier::Path(path), Some(source)) => {
                if key.kind == ModuleKind::Script && superset_enabled && is_superset_file(path.as_str()) {
                    match self.find_transform(path) {
                        Some((s, m)) => Ok(SourcePlan::Cached { source: s, position_map: m }),
                        None => Ok(SourcePlan::Transform(source)),
                    }
                } else {
                    Ok(SourcePlan::Plain(source))
                }
            },
            _ => Err(LoaderError::Resolution(key.clone())),
        }
    }

    /// Keeps the transformed source and position map of the file at `path`.
    /// A file already transformed keeps its first result.
    pub fn record_transform(&mut self, path: String, source: String, position_map: String)
        requires
            old(self).wf(),
        ensures
            final(self).wf(),
            final(self)@ == record_outcome(old(self)@, path@, source@, position_map@),
    {
        if self.find_transform(&path).is_some() {
            return;
        }
        let ghost p = path@;
        let ghost v = (source@, position_map@);
        let ghost old_transforms = self.transforms@;
        self.transforms.push(TransformEntry { path, source, position_map });
        self.transform_map = Ghost(self.transform_map@.insert(p, v));
        proof {
            assert forall|i: int| 0 <= i < self.transforms@.len() implies {
                &&& #[trigger] self.transform_map@.contains_key(self.transforms@[i].path@)
                &&& self.transform_map@[self.transforms@[i].path@] == (
                    self.transforms@[i].source@,
                    self.transforms@[i].position_map@,
                )
            } by {
                if i < old_transforms.len() {
                    assert(self.transforms@[i] == old_transforms[i]);
                    assert(old_transforms[i].path@ != p);
                }
            }
            assert forall|q: Seq<char>| #[trigger] self.transform_map@.contains_key(q)
                implies exists|i: int| 0 <= i < self.transforms@.len() && self.transforms@[i].path@ == q by {
                if q == p {
                    assert(self.transforms@[old_transforms.len() as int].path@ == q);
                } else {
                    assert(old(self).transform_map@.contains_key(q));
                    let i = choose|i: int| 0 <= i < old_transforms.len() && old_transforms[i].path@ == q;
                    assert(self.transforms@[i] == old_transforms[i]);
                }
            }
            assert forall|k: KeyView| #[trigger] self.module_map@.contains_key(k)
                implies exists|i: int| 0 <= i < self.modules@.len() && self.modules@[i].0@ == k by {
                assert(old(self).module_map@.contains_key(k));
                let i = choose|i: int| 0 <= i < old(self).modules@.len() && old(self).modules@[i].0@ == k;
                assert(self.modules@[i] == old(self).modules@[i]);
            }
        }
    }

    /// The last step of a load: given the module compiled for `key` (nothing
    /// when compiling failed), registers it under that key, path and kind, and
    /// hands it back. A module that failed to compile is never registered.
    pub fn complete(&mut self, key: ModuleKey, compiled: Option<M>) -> (r: Result<M, LoaderError>)
        requires
            old(self).wf(),
        ensures
            final(self).wf(),
            (final(self)@, plain_result_view(r)) == complete_outcome(old(self)@, key@, compiled),
    {
        match (key.specifier, compiled) {
            (Specifier::Path(name), Some(module)) => {
                match self.insert(ModuleKey { specifier: Specifier::Path(name), kind: key.kind }, module) {
                    Ok(()) => Ok(module),
                    Err(e) => Err(e),
                }
            },
            (Specifier::Path(name), None) => {
                Err(LoaderError::Compile(ModuleKey { specifier: Specifier::Path(name), kind: key.kind }))
            },
            (Specifier::NodeModule(n), _) => {
                Err(LoaderError::Resolution(ModuleKey { specifier: Specifier::NodeModule(n), kind: key.kind }))
            },
        }
    }
}

impl<M: Copy> Default for Loader<M> {
    fn default() -> (r: Self)
        ensures
            r.wf(),
            r@.modules == Map::<KeyView, M>::empty(),
            r@.transforms == Map::<Seq<char>, (Seq<char>, Seq<char>)>::empty(),
    {
        Loader::new()
    }
}

/// Loading an external-package specifier always fails with a resolution error
/// carrying its key, whatever has been registered before.
pub proof fn lemma_package_load_fails<M>(modules: Map<KeyView, M>, raw: Seq<char>, kind: ModuleKind, referrer: Option<Seq<char>>)
    requires
        keys_at_paths(modules),
        resolved(raw, referrer) is NodeModule,
    ensures
        resolve_outcome(modules, key_for(raw, kind, referrer)) == Err::<LookupView<M>, LoaderErrorView>(
            LoaderErrorView::Resolution(key_for(raw, kind, referrer)),
        ),
{
    let key = key_for(raw, kind, referrer);
    if modules.contains_key(key) {
        assert(key.0 is Path);
    }
}

/// A module of either kind that is not cached is read on its first load; once
/// the module compiled from it is registered, every later load of the same
/// specifier and kind from the same referrer gets that same module without
/// reading or compiling.
pub proof fn lemma_second_load_cached<M>(
    l: LoaderView<M>,
    raw: Seq<char>,
    kind: ModuleKind,
    referrer: Option<Seq<char>>,
    module: M,
)
    requires
        resolved(raw, referrer) is Path,
        !l.modules.contains_key(key_for(raw, kind, referrer)),
    ensures
        ({
            let key = key_for(raw, kind, referrer);
            let (after, r) = complete_outcome(l, key, Some(module));
            &&& resolve_outcome(l.modules, key) == Ok::<LookupView<M>, LoaderErrorView>(LookupView::Read(key))
            &&& r == Ok::<M, LoaderErrorView>(module)
            &&& resolve_outcome(after.modules, key) == Ok::<LookupView<M>, LoaderErrorView>(LookupView::Cached(module))
            &&& after.transforms == l.transforms
        }),
{
}

/// Registering under a name that is already registered fails with a
/// duplicate-identity error and leaves the loader as it was.
pub proof fn lemma_duplicate_register_refused<M>(l: LoaderView<M>, name: Seq<char>, module: M)
    requires
        l.modules.contains_key(registered_key(name)),
    ensures
        register_outcome(l, name, module) == (l, Err::<(), LoaderErrorView>(
            LoaderErrorView::DuplicateIdentity(registered_key(name)),
        )),
{
}

/// A superset-dialect script loaded twice is transformed at most once: the
/// first load asks for the transform only when the file has none kept, and the
/// second load gets the kept source and position map as they were, whatever
/// the file reads by then.
pub proof fn lemma_transform_once<M>(
    l: LoaderView<M>,
    key: KeyView,
    first: Seq<char>,
    later: Seq<char>,
    source: Seq<char>,
    position_map: Seq<char>,
)
    requires
        key.0 is Path,
        key.1 == ModuleKind::Script,
        is_superset_path(key.0->Path_0),
    ensures
        ({
            let path = key.0->Path_0;
            let plan = plan_outcome(l.transforms, key, Some(first), true);
            let after = if plan == Ok::<SourcePlanView, LoaderErrorView>(SourcePlanView::Transform(first)) {
                record_outcome(l, path, source, position_map)
            } else {
                l
            };
            let kept = if l.transforms.contains_key(path) { l.transforms[path] } else { (source, position_map) };
            &&& l.transforms.contains_key(path) ==> plan == Ok::<SourcePlanView, LoaderErrorView>(
                SourcePlanView::Cached(kept.0, kept.1),
            )
            &&& !l.transforms.contains_key(path) ==> plan == Ok::<SourcePlanView, LoaderErrorView>(
                SourcePlanView::Transform(first),
            )
            &&& plan_outcome(after.transforms, key, Some(later), true) == Ok::<SourcePlanView, LoaderErrorView>(
                SourcePlanView::Cached(kept.0, kept.1),
            )
        }),
{
}

} // verus!
