use vstd::prelude::*;

use crate::config::strings_view;
use crate::string_map::{map_of_pairs, pairs_view};

verus! {

/// The view of an optional string.
pub open spec fn opt_string_view(o: Option<String>) -> Option<Seq<char>> {
    match o {
        Some(s) => Some(s@),
        None => None,
    }
}

/// The view of an optional sequence of strings.
pub open spec fn opt_strings_view(o: Option<Vec<String>>) -> Option<Seq<Seq<char>>> {
    match o {
        Some(v) => Some(strings_view(v@)),
        None => None,
    }
}

/// The map that optional key-value pairs describe, a later pair overriding an
/// earlier one with the same key.
pub open spec fn opt_pairs_view(o: Option<Vec<(String, String)>>) -> Option<
    Map<Seq<char>, Seq<char>>,
> {
    match o {
        Some(v) => Some(map_of_pairs(pairs_view(v@))),
        None => None,
    }
}

/// The output section of a configuration document; each absent field takes
/// its default.
#[derive(Clone, Debug, PartialEq, Eq)]
pub struct OutputDocument {
    pub path: Option<String>,
    pub public_path: Option<String>,
    pub filename: Option<String>,
}

/// The value of an output section.
pub struct OutputDocumentModel {
    pub path: Option<Seq<char>>,
    pub public_path: Option<Seq<char>>,
    pub filename: Option<Seq<char>>,
}

impl View for OutputDocument {
    type V = OutputDocumentModel;

    open spec fn view(&self) -> OutputDocumentModel {
        OutputDocumentModel {
            path: opt_string_view(self.path),
            public_path: opt_string_view(self.public_path),
            filename: opt_string_view(self.filename),
        }
    }
}

/// The resolution section of a configuration document; each absent field
/// takes its default.
#[derive(Clone, Debug, PartialEq, Eq)]
pub struct ResolveDocument {
    /// Alias pairs in document order.
    pub alias: Option<Vec<(String, String)>>,
    pub main_fields: Option<Vec<String>>,
    pub main_files: Option<Vec<String>>,
    pub extensions: Option<Vec<String>>,
    pub conditions: Option<Vec<String>>,
    pub symlinks: Option<bool>,
}

/// The value of a resolution section.
pub struct ResolveDocumentModel {
    pub alias: Option<Map<Seq<char>, Seq<char>>>,
    pub main_fields: Option<Seq<Seq<char>>>,
    pub main_files: Option<Seq<Seq<char>>>,
    pub extensions: Option<Seq<Seq<char>>>,
    pub conditions: Option<Seq<Seq<char>>>,
    pub symlinks: Option<bool>,
}

impl View for ResolveDocument {
    type V = ResolveDocumentModel;

    open spec fn view(&self) -> ResolveDocumentModel {
        ResolveDocumentModel {
            alias: opt_pairs_view(self.alias),
            main_fields: opt_strings_view(self.main_fields),
            main_files: opt_strings_view(self.main_files),
            extensions: opt_strings_view(self.extensions),
            conditions: opt_strings_view(self.conditions),
            symlinks: self.symlinks,
        }
    }
}

/// The runtime section of a configuration document; each absent field takes
/// its default.
#[derive(Clone, Debug, PartialEq, Eq)]
pub struct RuntimeDocument {
    pub path: Option<String>,
    pub plugins: Option<Vec<String>>,
}

/// The value of a runtime section.
pub struct RuntimeDocumentModel {
    pub path: Option<Seq<char>>,
    pub plugins: Option<Seq<Seq<char>>>,
}

impl View for RuntimeDocument {
    type V = RuntimeDocumentModel;

    open spec fn view(&self) -> RuntimeDocumentModel {
        RuntimeDocumentModel {
            path: opt_string_view(self.path),
            plugins: opt_strings_view(self.plugins),
        }
    }
}

/// A configuration as its author wrote it: any subset of the fields, each
/// absent one to be filled with its default. Fields that the document format
/// has and that no field here stands for are ignored.
#[derive(Clone, Debug, PartialEq, Eq)]
pub struct ConfigDocument {
    /// Entry-point pairs in document order; a later pair overrides an earlier
    /// one with the same name.
    pub input: Option<Vec<(String, String)>>,
    pub output: Option<OutputDocument>,
    pub root: Option<String>,
    /// The mode as spelled in the document.
    pub mode: Option<String>,
    pub resolve: Option<ResolveDocument>,
    pub external: Option<Vec<String>>,
    pub runtime: Option<RuntimeDocument>,
}

/// The value of a configuration document; its entry points and aliases are
/// the maps that their pairs describe.
pub struct ConfigDocumentModel {
    pub input: Option<Map<Seq<char>, Seq<char>>>,
    pub output: Option<OutputDocumentModel>,
    pub root: Option<Seq<char>>,
    pub mode: Option<Seq<char>>,
    pub resolve: Option<ResolveDocumentModel>,
    pub external: Option<Seq<Seq<char>>>,
    pub runtime: Option<RuntimeDocumentModel>,
}

impl View for ConfigDocument {
    type V = ConfigDocumentModel;

    open spec fn view(&self) -> ConfigDocumentModel {
        ConfigDocumentModel {
            input: opt_pairs_view(self.input),
            output: match self.output {
                Some(o) => Some(o@),
                None => None,
            },
            root: opt_string_view(self.root),
            mode: opt_string_view(self.mode),
            resolve: match self.resolve {
                Some(r) => Some(r@),
                None => None,
            },
            external: opt_strings_view(self.external),
            runtime: match self.runtime {
                Some(r) => Some(r@),
                None => None,
            },
        }
    }
}

impl ConfigDocument {
    /// A document that specifies nothing.
    pub fn empty() -> (r: ConfigDocument)
        ensures
            r@ == empty_document(),
    {
        ConfigDocument {
            input: None,
            output: None,
            root: None,
            mode: None,
            resolve: None,
            external: None,
            runtime: None,
        }
    }
}

/// The value of a document that specifies nothing.
pub open spec fn empty_document() -> ConfigDocumentModel {
    ConfigDocumentModel {
        input: None,
        output: None,
        root: None,
        mode: None,
        resolve: None,
        external: None,
        runtime: None,
    }
}

} // verus!
