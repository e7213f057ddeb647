use build_config::{
    resolve, Config, ConfigDocument, ConfigError, Mode, OutputConfig, OutputDocument,
    ResolveConfig, ResolveDocument, RuntimeConfig, RuntimeDocument, StringMap,
};

fn strings(items: &[&str]) -> Vec<String> {
    items.iter().map(|s| s.to_string()).collect()
}

fn pair(k: &str, v: &str) -> (String, String) {
    (k.to_string(), v.to_string())
}

fn resolve_section() -> ResolveDocument {
    ResolveDocument {
        alias: None,
        main_fields: None,
        main_files: None,
        extensions: None,
        conditions: None,
        symlinks: None,
    }
}

#[test]
fn empty_document_gives_defaults() {
    let c = resolve(ConfigDocument::empty(), "/work".to_string()).unwrap();
    assert_eq!(c.output.path, "dist");
    assert_eq!(c.output.public_path, "/");
    assert_eq!(c.output.filename, "[name].[contenthash].[ext]");
    assert_eq!(c.root, "/work");
    assert_eq!(c.mode, Mode::Development);
    assert_eq!(c.input.len(), 0);
    assert!(c.external.is_empty());
    assert_eq!(
        c.resolve.extensions,
        strings(&["tsx", "ts", "jsx", "mjs", "js", "json", "html", "css"])
    );
    assert_eq!(c.resolve.main_fields, strings(&["browser", "module", "main"]));
    assert_eq!(c.resolve.main_files, strings(&["index"]));
    assert_eq!(
        c.resolve.conditions,
        strings(&["import", "require", "browser", "development", "production", "default"])
    );
    assert!(c.resolve.symlinks);
    assert_eq!(c.resolve.alias.len(), 0);
    assert_eq!(c.runtime.path, "");
    assert!(c.runtime.plugins.is_empty());
}

#[test]
fn empty_document_matches_with_root() {
    let c = resolve(ConfigDocument::empty(), "/work".to_string()).unwrap();
    assert_eq!(c, Config::with_root("/work".to_string()));
}

#[test]
fn section_defaults() {
    assert_eq!(OutputConfig::default().path, "dist");
    assert_eq!(ResolveConfig::default().extensions.len(), 8);
    assert_eq!(RuntimeConfig::default().path, "");
    assert_eq!(Mode::default(), Mode::Development);
}

#[test]
fn unknown_mode_is_refused() {
    let mut doc = ConfigDocument::empty();
    doc.mode = Some("staging".to_string());
    let r = resolve(doc, "/work".to_string());
    assert_eq!(r, Err(ConfigError::InvalidConfig("staging".to_string())));
}

#[test]
fn mode_spelling_is_exact() {
    let mut doc = ConfigDocument::empty();
    doc.mode = Some("Production".to_string());
    assert!(resolve(doc, "/work".to_string()).is_err());
}

#[test]
fn production_mode_is_read() {
    let mut doc = ConfigDocument::empty();
    doc.mode = Some("production".to_string());
    let c = resolve(doc, "/work".to_string()).unwrap();
    assert_eq!(c.mode, Mode::Production);
}

#[test]
fn mode_names() {
    assert_eq!(Mode::from_name(&"development".to_string()), Ok(Mode::Development));
    assert_eq!(Mode::from_name(&"production".to_string()), Ok(Mode::Production));
    assert_eq!(
        Mode::from_name(&"".to_string()),
        Err(ConfigError::InvalidConfig(String::new()))
    );
    assert_eq!(Mode::Development.name(), "development");
    assert_eq!(Mode::Production.name(), "production");
}

#[test]
fn given_extensions_replace_defaults() {
    let mut section = resolve_section();
    section.extensions = Some(strings(&["wasm"]));
    let mut doc = ConfigDocument::empty();
    doc.resolve = Some(section);
    let c = resolve(doc, "/work".to_string()).unwrap();
    assert_eq!(c.resolve.extensions, strings(&["wasm"]));
    assert_eq!(c.resolve.main_fields, strings(&["browser", "module", "main"]));
}

#[test]
fn given_empty_sequence_replaces_defaults() {
    let mut section = resolve_section();
    section.conditions = Some(Vec::new());
    section.symlinks = Some(false);
    let mut doc = ConfigDocument::empty();
    doc.resolve = Some(section);
    let c = resolve(doc, "/work".to_string()).unwrap();
    assert!(c.resolve.conditions.is_empty());
    assert!(!c.resolve.symlinks);
    assert_eq!(c.resolve.main_files, strings(&["index"]));
}

#[test]
fn repeated_resolution_is_identical() {
    let a = resolve(ConfigDocument::empty(), "/work".to_string()).unwrap();
    let b = resolve(ConfigDocument::empty(), "/work".to_string()).unwrap();
    assert_eq!(a, b);
    assert_eq!(format!("{:?}", a), format!("{:?}", b));
}

#[test]
fn duplicate_entry_last_wins() {
    let mut doc = ConfigDocument::empty();
    doc.input = Some(vec![
        pair("main", "./a.ts"),
        pair("admin", "./admin.ts"),
        pair("main", "./b.ts"),
    ]);
    let c = resolve(doc, "/work".to_string()).unwrap();
    assert_eq!(c.input.len(), 2);
    assert_eq!(c.input.get(&"main".to_string()), Some(&"./b.ts".to_string()));
    assert_eq!(c.input.get(&"admin".to_string()), Some(&"./admin.ts".to_string()));
    assert_eq!(c.input.get(&"other".to_string()), None);
}

#[test]
fn duplicate_alias_last_wins() {
    let mut section = resolve_section();
    section.alias = Some(vec![pair("@", "./src"), pair("@", "./lib")]);
    let mut doc = ConfigDocument::empty();
    doc.resolve = Some(section);
    let c = resolve(doc, "/work".to_string()).unwrap();
    assert_eq!(c.resolve.alias.len(), 1);
    assert_eq!(c.resolve.alias.get(&"@".to_string()), Some(&"./lib".to_string()));
}

#[test]
fn given_root_overrides_working_directory() {
    let mut doc = ConfigDocument::empty();
    doc.root = Some("/project".to_string());
    let c = resolve(doc, "/work".to_string()).unwrap();
    assert_eq!(c.root, "/project");
}

#[test]
fn partial_output_section_keeps_other_defaults() {
    let mut doc = ConfigDocument::empty();
    doc.output = Some(OutputDocument {
        path: Some("build".to_string()),
        public_path: None,
        filename: None,
    });
    let c = resolve(doc, "/work".to_string()).unwrap();
    assert_eq!(c.output.path, "build");
    assert_eq!(c.output.public_path, "/");
    assert_eq!(c.output.filename, "[name].[contenthash].[ext]");
}

#[test]
fn runtime_and_externals_are_taken() {
    let mut doc = ConfigDocument::empty();
    doc.runtime = Some(RuntimeDocument {
        path: Some("./runtime.js".to_string()),
        plugins: Some(strings(&["hmr", "css"])),
    });
    doc.external = Some(strings(&["react"]));
    let c = resolve(doc, "/work".to_string()).unwrap();
    assert_eq!(c.runtime.path, "./runtime.js");
    assert_eq!(c.runtime.plugins, strings(&["hmr", "css"]));
    assert_eq!(c.external, strings(&["react"]));
}

#[test]
fn round_trip_through_document() {
    let mut section = resolve_section();
    section.extensions = Some(strings(&["wasm"]));
    section.alias = Some(vec![pair("@", "./src")]);
    let mut doc = ConfigDocument::empty();
    doc.resolve = Some(section);
    doc.mode = Some("production".to_string());
    doc.input = Some(vec![pair("main", "./a.ts"), pair("main", "./b.ts")]);
    let first = resolve(doc, "/work".to_string()).unwrap();
    let again = resolve(first.clone().into_document(), "/elsewhere".to_string()).unwrap();
    assert_eq!(first, again);
}

#[test]
fn into_document_spells_out_every_field() {
    let d = Config::with_root("/work".to_string()).into_document();
    assert_eq!(d.root, Some("/work".to_string()));
    assert_eq!(d.mode, Some("development".to_string()));
    assert_eq!(d.input, Some(Vec::new()));
    assert_eq!(d.output.unwrap().path, Some("dist".to_string()));
    assert_eq!(d.resolve.unwrap().symlinks, Some(true));
}

#[test]
fn string_map_insert_replaces() {
    let mut m = StringMap::new();
    m.insert("a".to_string(), "1".to_string());
    m.insert("b".to_string(), "2".to_string());
    m.insert("a".to_string(), "3".to_string());
    assert_eq!(m.len(), 2);
    assert_eq!(m.get(&"a".to_string()), Some(&"3".to_string()));
    let copy = m.clone();
    assert_eq!(copy.get(&"b".to_string()), Some(&"2".to_string()));
    let pairs = StringMap::from_pairs(vec![pair("x", "1"), pair("x", "2")]).into_pairs();
    assert_eq!(pairs, vec![pair("x", "2")]);
}
