use js_exec::{
    metadata_url, LoaderError, Loader, Lookup, ModuleKey, ModuleKind, SourcePlan, Specifier,
};

/// A host that serves files from a list and counts what it does.
struct Host {
    files: Vec<(String, String)>,
    reads: usize,
    compiles: usize,
    transforms: usize,
    superset: bool,
    next_module: u64,
}

impl Host {
    fn new(files: &[(&str, &str)], superset: bool) -> Host {
        Host {
            files: files.iter().map(|(p, s)| (p.to_string(), s.to_string())).collect(),
            reads: 0,
            compiles: 0,
            transforms: 0,
            superset,
            next_module: 100,
        }
    }

    fn read(&mut self, path: &str) -> Option<String> {
        self.reads += 1;
        self.files.iter().find(|(p, _)| p == path).map(|(_, s)| s.clone())
    }

    fn compile(&mut self, source: &str) -> Option<u64> {
        self.compiles += 1;
        if source.contains("syntax error") {
            None
        } else {
            self.next_module += 1;
            Some(self.next_module)
        }
    }

    fn load(
        &mut self,
        loader: &mut Loader<u64>,
        raw: &str,
        kind: ModuleKind,
        referrer: Option<&str>,
    ) -> Result<u64, LoaderError> {
        let key = match loader.resolve(raw.to_string(), kind, referrer)? {
            Lookup::Cached(m) => return Ok(m),
            Lookup::Read(key) => key,
        };
        let path = match &key.specifier {
            Specifier::Path(p) => p.clone(),
            Specifier::NodeModule(_) => unreachable!(),
        };
        let read = self.read(&path);
        let source = match loader.prepare_source(&key, read, self.superset)? {
            SourcePlan::Plain(s) => s,
            SourcePlan::Cached { source, .. } => source,
            SourcePlan::Transform(s) => {
                self.transforms += 1;
                let out = s.replace(": number", "");
                loader.record_transform(path.clone(), out.clone(), format!("map of {}", path));
                out
            }
        };
        let compiled = self.compile(&source);
        loader.complete(key, compiled)
    }
}

fn key(path: &str, kind: ModuleKind) -> ModuleKey {
    ModuleKey { specifier: Specifier::Path(path.to_string()), kind }
}

#[test]
fn second_load_is_cached() {
    let mut host = Host::new(&[("/proj/a.js", "export default 1;")], false);
    let mut loader = Loader::new();
    let first = host.load(&mut loader, "./a.js", ModuleKind::Script, Some("/proj/main.js"));
    let second = host.load(&mut loader, "./a.js", ModuleKind::Script, Some("/proj/main.js"));
    let first = first.unwrap();
    assert_eq!(second.unwrap(), first);
    assert_eq!(host.reads, 1);
    assert_eq!(host.compiles, 1);
    let third = host.load(&mut loader, "./a.js", ModuleKind::Script, Some("/proj/other.js"));
    assert_eq!(third.unwrap(), first);
    assert_eq!(host.reads, 1);
}

#[test]
fn resolve_reports_cached_module() {
    let mut loader: Loader<u64> = Loader::new();
    loader.register("/proj/./a.js".to_string(), 5).unwrap();
    match loader.resolve("./a.js".to_string(), ModuleKind::Script, Some("/proj/main.js")) {
        Ok(Lookup::Cached(m)) => assert_eq!(m, 5),
        _ => panic!("expected the cached module"),
    }
    match loader.resolve("./a.js".to_string(), ModuleKind::JsonData, Some("/proj/main.js")) {
        Ok(Lookup::Read(k)) => assert_eq!(k, key("/proj/a.js", ModuleKind::JsonData)),
        _ => panic!("expected a read"),
    }
}

#[test]
fn package_load_fails_with_resolution_error() {
    let mut host = Host::new(&[], false);
    let mut loader = Loader::new();
    let r = host.load(&mut loader, "lodash", ModuleKind::Script, Some("/proj/main.js"));
    match r {
        Err(LoaderError::Resolution(k)) => {
            assert_eq!(k.specifier, Specifier::NodeModule("lodash".to_string()));
            assert_eq!(k.kind, ModuleKind::Script);
        }
        other => panic!("unexpected {:?}", other),
    }
    assert_eq!(host.reads, 0);
}

#[test]
fn missing_file_is_resolution_error() {
    let mut host = Host::new(&[], false);
    let mut loader = Loader::new();
    let r = host.load(&mut loader, "/nowhere/x.js", ModuleKind::Script, None);
    match r {
        Err(LoaderError::Resolution(k)) => assert_eq!(k, key("/nowhere/x.js", ModuleKind::Script)),
        other => panic!("unexpected {:?}", other),
    }
}

#[test]
fn compile_failure_registers_nothing() {
    let mut host = Host::new(&[("/p/bad.js", "syntax error")], false);
    let mut loader = Loader::new();
    let r = host.load(&mut loader, "/p/bad.js", ModuleKind::Script, None);
    match r {
        Err(LoaderError::Compile(k)) => assert_eq!(k, key("/p/bad.js", ModuleKind::Script)),
        other => panic!("unexpected {:?}", other),
    }
    match loader.resolve("/p/bad.js".to_string(), ModuleKind::Script, None) {
        Ok(Lookup::Read(_)) => {}
        _ => panic!("a failed module must not be cached"),
    }
}

#[test]
fn duplicate_register_refused_and_entry_kept() {
    let mut loader: Loader<u64> = Loader::new();
    assert!(loader.register("/proj/a.js".to_string(), 1).is_ok());
    match loader.register("/proj/a.js".to_string(), 2) {
        Err(LoaderError::DuplicateIdentity(k)) => assert_eq!(k, key("/proj/a.js", ModuleKind::Script)),
        other => panic!("unexpected {:?}", other),
    }
    match loader.resolve("/proj/a.js".to_string(), ModuleKind::Script, None) {
        Ok(Lookup::Cached(m)) => assert_eq!(m, 1),
        _ => panic!("expected the first module"),
    }
}

#[test]
fn json_module_second_load_cached() {
    let mut host = Host::new(&[("/d/x.json", "{\"a\": 1}")], true);
    let mut loader = Loader::new();
    let first = host.load(&mut loader, "/d/x.json", ModuleKind::JsonData, None).unwrap();
    let again = host.load(&mut loader, "/d/x.json", ModuleKind::JsonData, None).unwrap();
    assert_eq!(again, first);
    assert_eq!(host.reads, 1);
    assert_eq!(host.compiles, 1);
    // The module is kept under its own kind: a script of that path is another key.
    match loader.resolve("/d/x.json".to_string(), ModuleKind::Script, None) {
        Ok(Lookup::Read(k)) => assert_eq!(k, key("/d/x.json", ModuleKind::Script)),
        _ => panic!("expected a read for the script key"),
    }
}

#[test]
fn superset_source_transformed_once() {
    let mut host = Host::new(&[("/proj/m.ts", "let x: number = 1;")], true);
    let mut loader: Loader<u64> = Loader::new();
    let k = key("/proj/m.ts", ModuleKind::Script);
    let plan = loader.prepare_source(&k, Some("let x: number = 1;".to_string()), true).unwrap();
    assert!(matches!(plan, SourcePlan::Transform(ref s) if s == "let x: number = 1;"));
    loader.record_transform("/proj/m.ts".to_string(), "let x = 1;".to_string(), "map-1".to_string());
    let plan = loader.prepare_source(&k, Some("changed on disk".to_string()), true).unwrap();
    match plan {
        SourcePlan::Cached { source, position_map } => {
            assert_eq!(source, "let x = 1;");
            assert_eq!(position_map, "map-1");
        }
        _ => panic!("expected the kept transform"),
    }
    let m = host.load(&mut loader, "./m.ts", ModuleKind::Script, Some("/proj/main.js")).unwrap();
    assert_eq!(host.transforms, 0);
    assert!(m > 100);
}

#[test]
fn superset_pipeline_runs_once_across_loaders_of_one_file() {
    let mut host = Host::new(&[("/q/m.ts", "let y: number = 2;")], true);
    let mut loader: Loader<u64> = Loader::new();
    host.load(&mut loader, "/q/m.ts", ModuleKind::Script, None).unwrap();
    assert_eq!(host.transforms, 1);
    let k = key("/q/m.ts", ModuleKind::Script);
    match loader.prepare_source(&k, Some("let y: number = 3;".to_string()), true).unwrap() {
        SourcePlan::Cached { source, position_map } => {
            assert_eq!(source, "let y = 2;");
            assert_eq!(position_map, "map of /q/m.ts");
        }
        _ => panic!("expected the kept transform"),
    }
}

#[test]
fn first_transform_is_kept() {
    let mut loader: Loader<u64> = Loader::new();
    loader.record_transform("/a.ts".to_string(), "one".to_string(), "m1".to_string());
    loader.record_transform("/a.ts".to_string(), "two".to_string(), "m2".to_string());
    match loader.prepare_source(&key("/a.ts", ModuleKind::Script), Some("src".to_string()), true).unwrap() {
        SourcePlan::Cached { source, position_map } => {
            assert_eq!(source, "one");
            assert_eq!(position_map, "m1");
        }
        _ => panic!("expected the kept transform"),
    }
}

#[test]
fn plain_when_not_superset() {
    let loader: Loader<u64> = Loader::new();
    let src = Some("let x: number = 1;".to_string());
    let disabled = loader.prepare_source(&key("/a.ts", ModuleKind::Script), src.clone(), false).unwrap();
    assert!(matches!(disabled, SourcePlan::Plain(ref s) if s == "let x: number = 1;"));
    let json = loader.prepare_source(&key("/a.ts", ModuleKind::JsonData), src.clone(), true).unwrap();
    assert!(matches!(json, SourcePlan::Plain(_)));
    let js = loader.prepare_source(&key("/a.js", ModuleKind::Script), src.clone(), true).unwrap();
    assert!(matches!(js, SourcePlan::Plain(_)));
    let tsx = loader.prepare_source(&key("/a.tsx", ModuleKind::Script), src, true).unwrap();
    assert!(matches!(tsx, SourcePlan::Plain(_)));
}

#[test]
fn read_failure_in_prepare_is_resolution_error() {
    let loader: Loader<u64> = Loader::new();
    let r = loader.prepare_source(&key("/a.js", ModuleKind::Script), None, false);
    assert!(matches!(r, Err(LoaderError::Resolution(k)) if k == key("/a.js", ModuleKind::Script)));
}

#[test]
fn metadata_url_for_recorded_path() {
    let r = metadata_url(Some("main.js"), Some("/proj/main.js".to_string())).unwrap();
    assert_eq!(r, Some("file:///proj/main.js".to_string()));
    let spaced = metadata_url(Some("a b.js"), Some("/tmp/a b.js".to_string())).unwrap();
    assert_eq!(spaced, Some("file:///tmp/a%20b.js".to_string()));
}

#[test]
fn metadata_without_recorded_path_writes_nothing() {
    assert_eq!(metadata_url(None, None).unwrap(), None);
    assert_eq!(metadata_url(None, Some("/x".to_string())).unwrap(), None);
}

#[test]
fn metadata_errors() {
    match metadata_url(Some("gone.js"), None) {
        Err(LoaderError::InvalidPath(p)) => assert_eq!(p, "gone.js"),
        other => panic!("unexpected {:?}", other),
    }
    match metadata_url(Some("rel.js"), Some("rel.js".to_string())) {
        Err(LoaderError::InvalidPath(p)) => assert_eq!(p, "rel.js"),
        other => panic!("unexpected {:?}", other),
    }
}

#[test]
fn default_loader_is_empty() {
    let loader: Loader<u64> = Loader::default();
    match loader.resolve("/a.js".to_string(), ModuleKind::Script, None) {
        Ok(Lookup::Read(k)) => assert_eq!(k, key("/a.js", ModuleKind::Script)),
        _ => panic!("expected a read"),
    }
}

#[test]
fn two_spellings_load_one_module() {
    let mut host = Host::new(&[("/proj/a.js", "export default 1;")], false);
    let mut loader = Loader::new();
    let first = host.load(&mut loader, "./a.js", ModuleKind::Script, Some("/proj/main.js")).unwrap();
    let second = host.load(&mut loader, "/proj/a.js", ModuleKind::Script, None).unwrap();
    assert_eq!(second, first);
    assert_eq!(host.reads, 1);
    assert_eq!(host.compiles, 1);
    let third = host.load(&mut loader, "../proj/a.js", ModuleKind::Script, Some("/proj/main.js"));
    // `..` is kept by the normal form, so this spelling is a key of its own.
    assert!(third.is_err());
    assert!(matches!(
        loader.register("/proj//a.js".to_string(), 1),
        Err(LoaderError::DuplicateIdentity(k)) if k == key("/proj/a.js", ModuleKind::Script)
    ));
}
