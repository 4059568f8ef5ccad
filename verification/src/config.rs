//! Where the configuration comes from, and what is reported when it does
//! not validate.

use vstd::prelude::*;
use vstd::string::StringExecFns;

use crate::error::{Error, ErrorKind, ErrorView};
use crate::text::{framed, owned, push_framed, texts};

verus! {

/// The message of a configuration that did not validate: every error on a
/// line of its own, then the sources that the configuration was loaded
/// from, the built-in one first.
pub open spec fn config_message(errors: Seq<Seq<char>>, sources: Seq<Seq<char>>) -> Seq<char> {
    "Configuration errors were found:\n"@ + framed(errors, Seq::empty(), "\n"@)
        + "The configuration was loaded, in order, from the following files: \n\t- Default built-in configuration\n"@
        + framed(sources, "\t- "@, "\n"@)
}

/// The failure of a configuration that did not validate, from the errors
/// found and the sources that it was loaded from.
pub fn config_failure(errors: &Vec<String>, sources: &Vec<String>) -> (error: Error)
    ensures
        error@ == (ErrorView {
            kind: ErrorKind::Config,
            chain: seq![config_message(texts(errors@), texts(sources@))],
        }),
{
    let mut message = owned("Configuration errors were found:\n");
    push_framed(&mut message, errors, "", "\n");
    let head = owned(
        "The configuration was loaded, in order, from the following files: \n\t- Default built-in configuration\n",
    );
    message.append(head.as_str());
    push_framed(&mut message, sources, "\t- ", "\n");
    proof {
        reveal_strlit("");
        assert(""@ =~= Seq::<char>::empty());
    }
    Error::new(ErrorKind::Config, message)
}

/// Where the configuration is read from.
#[derive(Debug, Clone, Copy, PartialEq, Eq, Structural)]
pub enum ConfigSource {
    /// The system-wide file.
    Global,
    /// The file in the working directory.
    Local,
    /// No file: the built-in configuration.
    BuiltIn,
}

/// The source that is read, given whether the system is of the Unix family
/// and which files exist: the local file where there is one; without it, on
/// Unix, the system-wide file where there is one; else the built-in
/// configuration.
pub open spec fn chosen_source(unix: bool, local: bool, global: bool) -> ConfigSource {
    if local {
        ConfigSource::Local
    } else if unix && global {
        ConfigSource::Global
    } else {
        ConfigSource::BuiltIn
    }
}

impl ConfigSource {
    /// The source that is read, given whether the system is of the Unix
    /// family and which files exist.
    pub fn select(unix: bool, local: bool, global: bool) -> (source: ConfigSource)
        ensures
            source == chosen_source(unix, local, global),
    {
        if unix && !local && global {
            ConfigSource::Global
        } else if local {
            ConfigSource::Local
        } else {
            ConfigSource::BuiltIn
        }
    }

    /// The path of the file, for the sources that are files.
    pub open spec fn location(self) -> Option<Seq<char>> {
        match self {
            ConfigSource::Global => Some("/etc/super-analyzer/config.toml"@),
            ConfigSource::Local => Some("config.toml"@),
            ConfigSource::BuiltIn => None,
        }
    }

    /// The path of the file, for the sources that are files.
    pub fn path(&self) -> (path: Option<&'static str>)
        ensures
            match path {
                Some(path) => self.location() == Some(path@),
                None => self.location() is None,
            },
    {
        match self {
            ConfigSource::Global => Some("/etc/super-analyzer/config.toml"),
            ConfigSource::Local => Some("config.toml"),
            ConfigSource::BuiltIn => None,
        }
    }

    /// The message put on top of a failure to read this source, for the
    /// sources that are files.
    pub open spec fn read_context(self) -> Option<Seq<char>> {
        match self {
            ConfigSource::Global => Some(
                "There was an error when reading the /etc/super-analyzer/config.toml file"@,
            ),
            ConfigSource::Local => Some("There was an error when reading the config.toml file"@),
            ConfigSource::BuiltIn => None,
        }
    }

    /// The warning that goes with this source: one for the built-in
    /// configuration, which stands in where no file was found.
    pub open spec fn caution(self) -> Option<Seq<char>> {
        match self {
            ConfigSource::BuiltIn => Some("Config file not found. Using default configuration"@),
            _ => None,
        }
    }

    /// The warning that goes with this source.
    pub fn warning(&self) -> (warning: Option<&'static str>)
        ensures
            match warning {
                Some(text) => self.caution() == Some(text@),
                None => self.caution() is None,
            },
    {
        match self {
            ConfigSource::BuiltIn => Some("Config file not found. Using default configuration"),
            _ => None,
        }
    }

    /// The failure to read this source, on top of what caused it.
    pub fn read_failure(&self, cause: Vec<String>) -> (error: Error)
        ensures
            error@ == (ErrorView {
                kind: ErrorKind::Config,
                chain: match self.read_context() {
                    Some(context) => seq![context] + texts(cause@),
                    None => texts(cause@),
                },
            }),
    {
        match self {
            ConfigSource::Global => Error::caused(
                ErrorKind::Config,
                owned("There was an error when reading the /etc/super-analyzer/config.toml file"),
                cause,
            ),
            ConfigSource::Local => Error::caused(
                ErrorKind::Config,
                owned("There was an error when reading the config.toml file"),
                cause,
            ),
            ConfigSource::BuiltIn => Error { kind: ErrorKind::Config, chain: cause },
        }
    }
}

/// The failure to lay the command-line options over the configuration, on
/// top of what caused it.
pub fn cli_failure(cause: Vec<String>) -> (error: Error)
    ensures
        error@ == (ErrorView {
            kind: ErrorKind::Config,
            chain: seq!["There was an error reading config from CLI"@] + texts(cause@),
        }),
{
    Error::caused(ErrorKind::Config, owned("There was an error reading config from CLI"), cause)
}

} // verus!
