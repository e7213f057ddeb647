use vstd::prelude::*;

use crate::config::{
    default_config, default_output, default_resolve, default_runtime, lemma_mode_name_round_trip,
    mode_name, mode_named, Config, ConfigError, ConfigModel, Mode, OutputConfig, OutputModel,
    ResolveConfig, ResolveModel, RuntimeConfig, RuntimeModel,
};
use crate::document::{
    empty_document, ConfigDocument, ConfigDocumentModel, OutputDocument, OutputDocumentModel,
    ResolveDocument, ResolveDocumentModel, RuntimeDocument, RuntimeDocumentModel,
};
use crate::string_map::{lemma_map_of_pairs_last_wins, map_of_pairs, StringMap};

verus! {

/// The given value, or `d` where none is given.
pub open spec fn given_or<A>(o: Option<A>, d: A) -> A {
    match o {
        Some(v) => v,
        None => d,
    }
}

/// The output settings that an output section specifies.
pub open spec fn resolved_output(o: Option<OutputDocumentModel>) -> OutputModel {
    match o {
        None => default_output(),
        Some(o) => OutputModel {
            path: given_or(o.path, default_output().path),
            public_path: given_or(o.public_path, default_output().public_path),
            filename: given_or(o.filename, default_output().filename),
        },
    }
}

/// The resolution settings that a resolution section specifies; a given
/// sequence replaces the default one whole.
pub open spec fn resolved_resolve(o: Option<ResolveDocumentModel>) -> ResolveModel {
    match o {
        None => default_resolve(),
        Some(o) => ResolveModel {
            alias: given_or(o.alias, default_resolve().alias),
            main_fields: given_or(o.main_fields, default_resolve().main_fields),
            main_files: given_or(o.main_files, default_resolve().main_files),
            extensions: given_or(o.extensions, default_resolve().extensions),
            conditions: given_or(o.conditions, default_resolve().conditions),
            symlinks: given_or(o.symlinks, default_resolve().symlinks),
        },
    }
}

/// The runtime settings that a runtime section specifies.
pub open spec fn resolved_runtime(o: Option<RuntimeDocumentModel>) -> RuntimeModel {
    match o {
        None => default_runtime(),
        Some(o) => RuntimeModel {
            path: given_or(o.path, default_runtime().path),
            plugins: given_or(o.plugins, default_runtime().plugins),
        },
    }
}

/// The mode field names a mode, or is absent.
pub open spec fn mode_valid(d: ConfigDocumentModel) -> bool {
    match d.mode {
        Some(m) => mode_named(m) is Some,
        None => true,
    }
}

/// The configuration that a document specifies for a build started in
/// `working_directory`, or none where its mode names no mode.
pub open spec fn resolved(d: ConfigDocumentModel, working_directory: Seq<char>) -> Option<
    ConfigModel,
> {
    if !mode_valid(d) {
        None
    } else {
        Some(
            ConfigModel {
                input: given_or(d.input, Map::empty()),
                output: resolved_output(d.output),
                root: given_or(d.root, working_directory),
                mode: match d.mode {
                    Some(m) => mode_named(m).unwrap(),
                    None => Mode::Development,
                },
                resolve: resolved_resolve(d.resolve),
                external: given_or(d.external, Seq::empty()),
                runtime: resolved_runtime(d.runtime),
            },
        )
    }
}

/// The document that spells out every field of a configuration.
pub open spec fn document_of(c: ConfigModel) -> ConfigDocumentModel {
    ConfigDocumentModel {
        input: Some(c.input),
        output: Some(
            OutputDocumentModel {
                path: Some(c.output.path),
                public_path: Some(c.output.public_path),
                filename: Some(c.output.filename),
            },
        ),
        root: Some(c.root),
        mode: Some(mode_name(c.mode)),
        resolve: Some(
            ResolveDocumentModel {
                alias: Some(c.resolve.alias),
                main_fields: Some(c.resolve.main_fields),
                main_files: Some(c.resolve.main_files),
                extensions: Some(c.resolve.extensions),
                conditions: Some(c.resolve.conditions),
                symlinks: Some(c.resolve.symlinks),
            },
        ),
        external: Some(c.external),
        runtime: Some(
            RuntimeDocumentModel { path: Some(c.runtime.path), plugins: Some(c.runtime.plugins) },
        ),
    }
}

fn resolve_output(doc: Option<OutputDocument>) -> (r: OutputConfig)
    ensures
        r@ == resolved_output(
            match doc {
                Some(o) => Some(o@),
                None => None,
            },
        ),
{
    let mut out = OutputConfig::default();
    if let Some(d) = doc {
        if let Some(path) = d.path {
            out.path = path;
        }
        if let Some(public_path) = d.public_path {
            out.public_path = public_path;
        }
        if let Some(filename) = d.filename {
            out.filename = filename;
        }
    }
    out
}

fn resolve_resolve(doc: Option<ResolveDocument>) -> (r: ResolveConfig)
    ensures
        r@ == resolved_resolve(
            match doc {
                Some(o) => Some(o@),
                None => None,
            },
        ),
{
    let mut res = ResolveConfig::default();
    if let Some(d) = doc {
        if let Some(alias) = d.alias {
            res.alias = StringMap::from_pairs(alias);
        }
        if let Some(main_fields) = d.main_fields {
            res.main_fields = main_fields;
        }
        if let Some(main_files) = d.main_files {
            res.main_files = main_files;
        }
        if let Some(extensions) = d.extensions {
            res.extensions = extensions;
        }
        if let Some(conditions) = d.conditions {
            res.conditions = conditions;
        }
        if let Some(symlinks) = d.symlinks {
            res.symlinks = symlinks;
        }
    }
    res
}

fn resolve_runtime(doc: Option<RuntimeDocument>) -> (r: RuntimeConfig)
    ensures
        r@ == resolved_runtime(
            match doc {
                Some(o) => Some(o@),
                None => None,
            },
        ),
{
    let mut rt = RuntimeConfig::default();
    if let Some(d) = doc {
        if let Some(path) = d.path {
            rt.path = path;
        }
        if let Some(plugins) = d.plugins {
            rt.plugins = plugins;
        }
    }
    rt
}

/// Merges a configuration document with the defaults. An absent root
/// directory becomes `working_directory`; a mode that names no mode is
/// refused, with the text that the document gave.
pub fn resolve(doc: ConfigDocument, working_directory: String) -> (r: Result<Config, ConfigError>)
    ensures
        match resolved(doc@, working_directory@) {
            Some(c) => r matches Ok(cfg) && cfg@ == c,
            None => r matches Err(ConfigError::InvalidConfig(v)) && doc@.mode == Some(v@),
        },
{
    let mode = match doc.mode {
        Some(name) => match Mode::from_name(&name) {
            Ok(m) => m,
            Err(e) => {
                return Err(e);
            },
        },
        None => Mode::Development,
    };
    let mut c = Config::with_root(working_directory);
    c.mode = mode;
    if let Some(input) = doc.input {
        c.input = StringMap::from_pairs(input);
    }
    c.output = resolve_output(doc.output);
    if let Some(root) = doc.root {
        c.root = root;
    }
    c.resolve = resolve_resolve(doc.resolve);
    if let Some(external) = doc.external {
        c.external = external;
    }
    c.runtime = resolve_runtime(doc.runtime);
    Ok(c)
}

impl Config {
    /// A document that spells out every field of this configuration.
    pub fn into_document(self) -> (r: ConfigDocument)
        ensures
            r@ == document_of(self@),
    {
        let mode = self.mode.name();
        ConfigDocument {
            input: Some(self.input.into_pairs()),
            output: Some(
                OutputDocument {
                    path: Some(self.output.path),
                    public_path: Some(self.output.public_path),
                    filename: Some(self.output.filename),
                },
            ),
            root: Some(self.root),
            mode: Some(mode),
            resolve: Some(
                ResolveDocument {
                    alias: Some(self.resolve.alias.into_pairs()),
                    main_fields: Some(self.resolve.main_fields),
                    main_files: Some(self.resolve.main_files),
                    extensions: Some(self.resolve.extensions),
                    conditions: Some(self.resolve.conditions),
                    symlinks: Some(self.resolve.symlinks),
                },
            ),
            external: Some(self.external),
            runtime: Some(
                RuntimeDocument { path: Some(self.runtime.path), plugins: Some(self.runtime.plugins) },
            ),
        }
    }
}

/// A document that specifies nothing gives the default configuration, rooted
/// at the working directory.
pub proof fn lemma_empty_document_gives_defaults(working_directory: Seq<char>)
    ensures
        resolved(empty_document(), working_directory) == Some(default_config(working_directory)),
{
}

/// Every document whose mode is absent or names a mode resolves to a
/// configuration, each field of which is the document's value or the default.
pub proof fn lemma_valid_document_resolves(d: ConfigDocumentModel, working_directory: Seq<char>)
    requires
        mode_valid(d),
    ensures
        resolved(d, working_directory) is Some,
        resolved(d, working_directory).unwrap().input == given_or(d.input, Map::empty()),
        resolved(d, working_directory).unwrap().root == given_or(d.root, working_directory),
        resolved(d, working_directory).unwrap().external == given_or(d.external, Seq::empty()),
        resolved(d, working_directory).unwrap().output == resolved_output(d.output),
        resolved(d, working_directory).unwrap().resolve == resolved_resolve(d.resolve),
        resolved(d, working_directory).unwrap().runtime == resolved_runtime(d.runtime),
{
}

/// Resolving the document that spells out a resolved configuration gives
/// that configuration again, whatever the working directory.
pub proof fn lemma_resolve_round_trip(
    d: ConfigDocumentModel,
    working_directory: Seq<char>,
    later_directory: Seq<char>,
)
    requires
        resolved(d, working_directory) is Some,
    ensures
        resolved(document_of(resolved(d, working_directory).unwrap()), later_directory) == resolved(
            d,
            working_directory,
        ),
{
    let c = resolved(d, working_directory).unwrap();
    lemma_mode_name_round_trip(c.mode);
}

/// A mode spelled other than `development` or `production` is refused, not
/// replaced by the default.
pub proof fn lemma_unknown_mode_refused(
    d: ConfigDocumentModel,
    working_directory: Seq<char>,
    m: Seq<char>,
)
    requires
        d.mode == Some(m),
        m != "development"@,
        m != "production"@,
    ensures
        resolved(d, working_directory) is None,
{
}

/// A sequence that the resolution section gives replaces the default one
/// whole: nothing of the default is kept.
pub proof fn lemma_given_sequences_replace_defaults(
    d: ConfigDocumentModel,
    working_directory: Seq<char>,
)
    requires
        mode_valid(d),
        d.resolve is Some,
    ensures
        ({
            let given = d.resolve.unwrap();
            let r = resolved(d, working_directory).unwrap().resolve;
            &&& given.extensions matches Some(e) ==> r.extensions == e
            &&& given.main_fields matches Some(f) ==> r.main_fields == f
            &&& given.main_files matches Some(f) ==> r.main_files == f
            &&& given.conditions matches Some(c) ==> r.conditions == c
        }),
{
}

/// The result depends on the document and the working directory alone: equal
/// documents resolved in the same directory give equal configurations.
pub proof fn lemma_resolve_deterministic(
    d1: ConfigDocumentModel,
    d2: ConfigDocumentModel,
    working_directory: Seq<char>,
)
    requires
        d1 == d2,
    ensures
        resolved(d1, working_directory) == resolved(d2, working_directory),
{
}

/// Where the entry points of a document repeat a name, the last pair with that
/// name gives its source path.
pub proof fn lemma_duplicate_entry_last_wins(
    d: ConfigDocumentModel,
    working_directory: Seq<char>,
    pairs: Seq<(Seq<char>, Seq<char>)>,
    i: int,
)
    requires
        mode_valid(d),
        d.input == Some(map_of_pairs(pairs)),
        0 <= i < pairs.len(),
        forall|j: int| i < j < pairs.len() ==> pairs[j].0 != pairs[i].0,
    ensures
        resolved(d, working_directory).unwrap().input.dom().contains(pairs[i].0),
        resolved(d, working_directory).unwrap().input[pairs[i].0] == pairs[i].1,
{
    lemma_map_of_pairs_last_wins(pairs, i);
}

} // verus!
