use vstd::prelude::*;

use crate::string_map::StringMap;

verus! {

/// The view of a sequence of owned strings.
pub open spec fn strings_view(v: Seq<String>) -> Seq<Seq<char>> {
    v.map_values(|s: String| s@)
}

/// Optimisation level that downstream build stages follow.
#[derive(Clone, Copy, Debug, PartialEq, Eq, Structural)]
pub enum Mode {
    Development,
    Production,
}

/// The external spelling of each mode.
pub open spec fn mode_name(m: Mode) -> Seq<char> {
    match m {
        Mode::Development => "development"@,
        Mode::Production => "production"@,
    }
}

/// The mode that an external spelling stands for; no other spelling is one.
pub open spec fn mode_named(s: Seq<char>) -> Option<Mode> {
    if s == "development"@ {
        Some(Mode::Development)
    } else if s == "production"@ {
        Some(Mode::Production)
    } else {
        None
    }
}

/// Reading back the spelling of a mode gives that mode.
pub proof fn lemma_mode_name_round_trip(m: Mode)
    ensures
        mode_named(mode_name(m)) == Some(m),
{
    reveal_strlit("development");
    reveal_strlit("production");
    assert("development"@.len() != "production"@.len());
}

/// A value of a configuration field that lies outside its allowed domain.
#[derive(Clone, Debug, PartialEq, Eq)]
pub enum ConfigError {
    /// The `mode` field holds this text, which names no mode.
    InvalidConfig(String),
}

impl Mode {
    /// Decodes the external spelling of a mode; any other text is refused.
    pub fn from_name(s: &String) -> (r: Result<Mode, ConfigError>)
        ensures
            match mode_named(s@) {
                Some(m) => r == Ok::<Mode, ConfigError>(m),
                None => r matches Err(ConfigError::InvalidConfig(v)) && v@ == s@,
            },
    {
        let development = "development".to_string();
        let production = "production".to_string();
        if *s == development {
            Ok(Mode::Development)
        } else if *s == production {
            Ok(Mode::Production)
        } else {
            Err(ConfigError::InvalidConfig(s.clone()))
        }
    }

    /// The external spelling of the mode.
    pub fn name(&self) -> (r: String)
        ensures
            r@ == mode_name(*self),
    {
        match self {
            Mode::Development => "development".to_string(),
            Mode::Production => "production".to_string(),
        }
    }
}

impl Default for Mode {
    fn default() -> (r: Self)
        ensures
            r == Mode::Development,
    {
        Mode::Development
    }
}

/// Where and under which names the emitter writes the build output.
#[derive(Clone, Debug, PartialEq, Eq)]
pub struct OutputConfig {
    pub path: String,
    pub public_path: String,
    /// A template whose `[name]`, `[contenthash]` and `[ext]` tokens the
    /// emitter substitutes.
    pub filename: String,
}

/// The value of an output configuration.
pub struct OutputModel {
    pub path: Seq<char>,
    pub public_path: Seq<char>,
    pub filename: Seq<char>,
}

impl View for OutputConfig {
    type V = OutputModel;

    open spec fn view(&self) -> OutputModel {
        OutputModel { path: self.path@, public_path: self.public_path@, filename: self.filename@ }
    }
}

/// The output settings when none are specified.
pub open spec fn default_output() -> OutputModel {
    OutputModel { path: "dist"@, public_path: "/"@, filename: "[name].[contenthash].[ext]"@ }
}

impl Default for OutputConfig {
    fn default() -> (r: Self)
        ensures
            r@ == default_output(),
    {
        OutputConfig {
            filename: "[name].[contenthash].[ext]".to_string(),
            public_path: "/".to_string(),
            path: "dist".to_string(),
        }
    }
}

/// How the module resolver looks up import specifiers. Every sequence is
/// tried in its order.
#[derive(Clone, Debug, PartialEq, Eq)]
pub struct ResolveConfig {
    /// Replacement paths for module-specifier prefixes.
    pub alias: StringMap,
    /// Package-manifest fields that name a package's entry module.
    pub main_fields: Vec<String>,
    /// File names that stand for a directory.
    pub main_files: Vec<String>,
    /// File extensions, without the leading dot.
    pub extensions: Vec<String>,
    /// Condition names of a package's conditional exports.
    pub conditions: Vec<String>,
    /// Whether symbolic links are followed.
    pub symlinks: bool,
}

/// The value of a resolution configuration.
pub struct ResolveModel {
    pub alias: Map<Seq<char>, Seq<char>>,
    pub main_fields: Seq<Seq<char>>,
    pub main_files: Seq<Seq<char>>,
    pub extensions: Seq<Seq<char>>,
    pub conditions: Seq<Seq<char>>,
    pub symlinks: bool,
}

impl View for ResolveConfig {
    type V = ResolveModel;

    open spec fn view(&self) -> ResolveModel {
        ResolveModel {
            alias: self.alias@,
            main_fields: strings_view(self.main_fields@),
            main_files: strings_view(self.main_files@),
            extensions: strings_view(self.extensions@),
            conditions: strings_view(self.conditions@),
            symlinks: self.symlinks,
        }
    }
}

/// Package-manifest fields tried by default, in order.
pub open spec fn default_main_fields() -> Seq<Seq<char>> {
    seq!["browser"@, "module"@, "main"@]
}

/// Directory index names tried by default.
pub open spec fn default_main_files() -> Seq<Seq<char>> {
    seq!["index"@]
}

/// File extensions tried by default, in order.
pub open spec fn default_extensions() -> Seq<Seq<char>> {
    seq!["tsx"@, "ts"@, "jsx"@, "mjs"@, "js"@, "json"@, "html"@, "css"@]
}

/// Export conditions tried by default, in order.
pub open spec fn default_conditions() -> Seq<Seq<char>> {
    seq!["import"@, "require"@, "browser"@, "development"@, "production"@, "default"@]
}

/// The resolution settings when none are specified.
pub open spec fn default_resolve() -> ResolveModel {
    ResolveModel {
        alias: Map::empty(),
        main_fields: default_main_fields(),
        main_files: default_main_files(),
        extensions: default_extensions(),
        conditions: default_conditions(),
        symlinks: true,
    }
}

impl Default for ResolveConfig {
    fn default() -> (r: Self)
        ensures
            r@ == default_resolve(),
    {
        let mut main_fields: Vec<String> = Vec::new();
        main_fields.push("browser".to_string());
        main_fields.push("module".to_string());
        main_fields.push("main".to_string());
        let mut main_files: Vec<String> = Vec::new();
        main_files.push("index".to_string());
        let mut extensions: Vec<String> = Vec::new();
        extensions.push("tsx".to_string());
        extensions.push("ts".to_string());
        extensions.push("jsx".to_string());
        extensions.push("mjs".to_string());
        extensions.push("js".to_string());
        extensions.push("json".to_string());
        extensions.push("html".to_string());
        extensions.push("css".to_string());
        let mut conditions: Vec<String> = Vec::new();
        conditions.push("import".to_string());
        conditions.push("require".to_string());
        conditions.push("browser".to_string());
        conditions.push("development".to_string());
        conditions.push("production".to_string());
        conditions.push("default".to_string());
        let r = ResolveConfig {
            alias: StringMap::new(),
            main_fields,
            main_files,
            extensions,
            conditions,
            symlinks: true,
        };
        assert(strings_view(r.main_fields@) =~= default_main_fields());
        assert(strings_view(r.main_files@) =~= default_main_files());
        assert(strings_view(r.extensions@) =~= default_extensions());
        assert(strings_view(r.conditions@) =~= default_conditions());
        r
    }
}

/// The runtime injected into the build output.
#[derive(Clone, Debug, PartialEq, Eq)]
pub struct RuntimeConfig {
    /// The compiled runtime file, which loads, executes and hot-updates
    /// script modules; empty when no runtime is injected.
    pub path: String,
    /// The runtime plugins, in the order they are applied.
    pub plugins: Vec<String>,
}

/// The value of a runtime configuration.
pub struct RuntimeModel {
    pub path: Seq<char>,
    pub plugins: Seq<Seq<char>>,
}

impl View for RuntimeConfig {
    type V = RuntimeModel;

    open spec fn view(&self) -> RuntimeModel {
        RuntimeModel { path: self.path@, plugins: strings_view(self.plugins@) }
    }
}

/// No injected runtime and no plugins.
pub open spec fn default_runtime() -> RuntimeModel {
    RuntimeModel { path: Seq::empty(), plugins: Seq::empty() }
}

impl Default for RuntimeConfig {
    fn default() -> (r: Self)
        ensures
            r@ == default_runtime(),
    {
        let r = RuntimeConfig { path: String::new(), plugins: Vec::new() };
        assert(strings_view(r.plugins@) =~= Seq::<Seq<char>>::empty());
        r
    }
}

/// A fully populated build configuration.
#[derive(Clone, Debug, PartialEq, Eq)]
pub struct Config {
    /// Source path of each named entry point.
    pub input: StringMap,
    pub output: OutputConfig,
    /// The absolute root directory of the build.
    pub root: String,
    pub mode: Mode,
    pub resolve: ResolveConfig,
    /// Module specifiers left out of the bundle.
    pub external: Vec<String>,
    pub runtime: RuntimeConfig,
}

/// The value of a build configuration.
pub struct ConfigModel {
    pub input: Map<Seq<char>, Seq<char>>,
    pub output: OutputModel,
    pub root: Seq<char>,
    pub mode: Mode,
    pub resolve: ResolveModel,
    pub external: Seq<Seq<char>>,
    pub runtime: RuntimeModel,
}

impl View for Config {
    type V = ConfigModel;

    open spec fn view(&self) -> ConfigModel {
        ConfigModel {
            input: self.input@,
            output: self.output@,
            root: self.root@,
            mode: self.mode,
            resolve: self.resolve@,
            external: strings_view(self.external@),
            runtime: self.runtime@,
        }
    }
}

/// The configuration of a build rooted at `root` when nothing is specified.
pub open spec fn default_config(root: Seq<char>) -> ConfigModel {
    ConfigModel {
        input: Map::empty(),
        output: default_output(),
        root,
        mode: Mode::Development,
        resolve: default_resolve(),
        external: Seq::empty(),
        runtime: default_runtime(),
    }
}

impl Config {
    /// The default configuration of a build rooted at `root`.
    pub fn with_root(root: String) -> (r: Config)
        ensures
            r@ == default_config(root@),
    {
        let r = Config {
            input: StringMap::new(),
            root,
            output: OutputConfig::default(),
            mode: Mode::Development,
            resolve: ResolveConfig::default(),
            external: Vec::new(),
            runtime: RuntimeConfig::default(),
        };
        assert(strings_view(r.external@) =~= Seq::<Seq<char>>::empty());
        r
    }
}

} // verus!
