//! The problems found while reading a configuration, kept in the order in
//! which they were found.

use vstd::prelude::*;
use crate::path::ConfigPath;

verus! {

/// One problem: where in the configuration it lies and what is wrong there.
#[derive(Debug, Clone, PartialEq, Eq)]
pub struct ConfigError {
    pub path: ConfigPath,
    pub cause: String,
}

/// What a `ConfigError` is: its path and its cause as plain sequences.
pub struct ConfigErrorView {
    pub path: Seq<Seq<char>>,
    pub cause: Seq<char>,
}

impl View for ConfigError {
    type V = ConfigErrorView;

    open spec fn view(&self) -> ConfigErrorView {
        ConfigErrorView { path: self.path@, cause: self.cause@ }
    }
}

impl DeepView for ConfigError {
    type V = ConfigErrorView;

    open spec fn deep_view(&self) -> ConfigErrorView {
        self@
    }
}

/// An append-only, ordered collection of problems. Empty means success for
/// whatever scope owns the collection.
#[derive(Debug, Clone, PartialEq, Eq)]
pub struct ConfigParsingError {
    pub entries: Vec<ConfigError>,
}

impl View for ConfigParsingError {
    type V = Seq<ConfigErrorView>;

    open spec fn view(&self) -> Seq<ConfigErrorView> {
        self.entries.deep_view()
    }
}

impl ConfigParsingError {
    /// A collection with nothing in it.
    pub fn new() -> (errors: ConfigParsingError)
        ensures
            errors@ == Seq::<ConfigErrorView>::empty(),
    {
        let errors = ConfigParsingError { entries: Vec::new() };
        assert(errors@ =~= Seq::<ConfigErrorView>::empty());
        errors
    }

    /// Appends one problem.
    pub fn push(&mut self, path: ConfigPath, cause: String)
        ensures
            final(self)@ == old(self)@.push(ConfigErrorView { path: path@, cause: cause@ }),
    {
        let ghost before = self@;
        let entry = ConfigError { path, cause };
        self.entries.push(entry);
        assert(self@ =~= before.push(entry@));
    }

    /// Appends all problems of `other`, in their order, after those already
    /// here.
    pub fn merge(&mut self, other: ConfigParsingError)
        ensures
            final(self)@ == old(self)@ + other@,
    {
        let ghost before = self@;
        let mut other = other;
        let ghost added = other@;
        self.entries.append(&mut other.entries);
        assert(self@ =~= before + added);
    }

    /// Whether no problem has been recorded.
    pub fn is_ok(&self) -> (ok: bool)
        ensures
            ok == (self@.len() == 0),
    {
        self.entries.len() == 0
    }

    /// The number of problems recorded.
    pub fn len(&self) -> (n: usize)
        ensures
            n == self@.len(),
    {
        self.entries.len()
    }
}

impl Default for ConfigParsingError {
    fn default() -> (errors: ConfigParsingError)
        ensures
            errors@ == Seq::<ConfigErrorView>::empty(),
    {
        ConfigParsingError::new()
    }
}

} // verus!
