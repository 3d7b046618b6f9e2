//! Loading a configuration document into the state.

use vstd::prelude::*;
use crate::dispatch::load_configuration;
use crate::document::Document;
use crate::json::{json_text_document, parse_document};
use crate::paths::path_parent;
use crate::store::{AppStateSync, BroadcastState, StoreView};
use crate::text::opt_text;

verus! {

/// Why a configuration could not be loaded. The state stays as it was, but
/// for the base directory.
#[derive(Debug, PartialEq, Eq)]
pub enum ConfigError {
    /// There is no file at the path.
    Missing(String),
    /// The file could not be read; the reason is given in words.
    Unreadable(String),
    /// The file does not hold JSON; the parser's complaint is given in words.
    Malformed(String),
}

impl ConfigError {
    /// The words in which the error is reported.
    pub open spec fn words(self) -> Seq<char> {
        match self {
            ConfigError::Missing(path) => "Config file does not exist: "@ + path@,
            ConfigError::Unreadable(reason) => "Failed to read config file: "@ + reason@,
            ConfigError::Malformed(reason) => "Failed to parse config JSON: "@ + reason@,
        }
    }

    /// The error in words.
    pub fn describe(&self) -> (text: String)
        ensures
            text@ == self.words(),
    {
        match self {
            ConfigError::Missing(path) => {
                let mut text = String::from_str("Config file does not exist: ");
                text.append(path.as_str());
                text
            },
            ConfigError::Unreadable(reason) => {
                let mut text = String::from_str("Failed to read config file: ");
                text.append(reason.as_str());
                text
            },
            ConfigError::Malformed(reason) => {
                let mut text = String::from_str("Failed to parse config JSON: ");
                text.append(reason.as_str());
                text
            },
        }
    }
}

/// The state with the base directory set, where there is one to set.
pub open spec fn with_base_path(s: StoreView, base_path: Option<Seq<char>>) -> StoreView {
    match base_path {
        Some(base) => StoreView { config_base_path: Some(base), ..s },
        None => s,
    }
}

/// The state after the text of a configuration file is loaded: a text that is
/// JSON is applied as a configuration, any other changes nothing.
pub open spec fn with_config_text(s: StoreView, content: Seq<char>) -> StoreView {
    match json_text_document(content) {
        Some(config) => load_configuration(s, Some(config)),
        None => s,
    }
}

impl AppStateSync {
    /// Notes the base directory, where there is one to note.
    pub fn adopt_base_path(&mut self, base_path: Option<String>)
        ensures
            final(self)@ == with_base_path(old(self)@, opt_text(base_path)),
    {
        match base_path {
            Some(base) => {
                self.config_base_path = Some(base);
            },
            None => {},
        }
    }

    /// Notes the directory of the configuration file as the base directory,
    /// where the platform names one. Nothing else changes.
    pub fn adopt_config_path(&mut self, config_path: &str)
        ensures
            exists|base: Option<Seq<char>>| final(self)@ == with_base_path(old(self)@, base),
    {
        let base = path_parent(config_path);
        self.adopt_base_path(base);
    }

    /// Applies a configuration document and returns the snapshot to publish.
    /// A document that is no record changes nothing.
    pub fn load_config(&mut self, config: &Document) -> (state: BroadcastState)
        ensures
            final(self)@ == load_configuration(old(self)@, Some(config@)),
            state@ == final(self)@.snapshot(),
            old(self)@.consistent() ==> final(self)@.consistent(),
    {
        proof {
            if old(self)@.consistent() {
                crate::dispatch::lemma_load_configuration_consistent(old(self)@, Some(config@));
            }
        }
        self.load_configuration(Some(config));
        self.broadcast(None)
    }

    /// Loads the text of a configuration file and returns the snapshot to
    /// publish. It fails exactly where the text is not JSON, and then the
    /// state stays as it was.
    pub fn load_config_text(&mut self, content: &str) -> (loaded: Result<
        BroadcastState,
        ConfigError,
    >)
        ensures
            final(self)@ == with_config_text(old(self)@, content@),
            match loaded {
                Ok(state) => json_text_document(content@) is Some && state@
                    == final(self)@.snapshot(),
                Err(error) => json_text_document(content@) is None && error is Malformed,
            },
    {
        match parse_document(content) {
            Ok(config) => Ok(self.load_config(&config)),
            Err(error) => Err(ConfigError::Malformed(error.message)),
        }
    }

    /// Loads a configuration file, given its path and what was read from it:
    /// the directory of the file becomes the base directory, then the text
    /// is loaded. It fails exactly where the text is not JSON; the base
    /// directory is set all the same.
    pub fn load_config_from_file(&mut self, config_path: &str, content: &str) -> (loaded: Result<
        BroadcastState,
        ConfigError,
    >)
        ensures
            exists|base: Option<Seq<char>>|
                final(self)@ == with_config_text(with_base_path(old(self)@, base), content@),
            match loaded {
                Ok(state) => json_text_document(content@) is Some && state@
                    == final(self)@.snapshot(),
                Err(error) => json_text_document(content@) is None && error is Malformed,
            },
    {
        let base = path_parent(config_path);
        self.adopt_base_path(base);
        self.load_config_text(content)
    }
}

} // verus!
