//! Failure taxonomy for the generation pipeline.
//!
//! Any error at any pipeline stage terminates the whole run; there are no
//! retries. Each variant carries what the caller needs to report the
//! originating diagnostic.

use vstd::prelude::*;
use vstd::string::StringExecFns;

verus! {

/// One failure of the pipeline or of the surrounding command line tooling.
#[derive(Debug)]
pub enum Error {
    /// A required command line argument was absent.
    ConnectionString,
    /// The database driver reported a failure; the diagnostic is kept verbatim.
    Driver(String),
    /// A descriptor field was never populated; holds the field's name.
    Build(String),
    /// The template failed to compile or render; holds the engine's diagnostic.
    Template(String),
    /// The rendered bytes were not valid UTF-8 text.
    Encoding,
    /// A row carried no columns, so no maximum column width exists.
    Max,
    /// The terminal for standard output could not be opened.
    Stdout,
    /// The scaffolding subcommand was not given.
    SubCommand,
    /// The requested license selection was not recognised.
    License,
    /// The scaffolding target path was not given.
    Path,
    /// The spawned tool ended without an exit code.
    ExitCode,
    /// The terminal for tool output could not be opened.
    TermCommand,
}

impl Error {
    /// The diagnostic text that `message` returns for this error.
    pub open spec fn spec_message(&self) -> Seq<char> {
        match self {
            Error::ConnectionString => "The connection string is a required command line argument!"@,
            Error::Driver(d) => d@,
            Error::Build(f) => "uninitialized field: "@ + f@,
            Error::Template(t) => t@,
            Error::Encoding => "The rendered output is not valid UTF-8 text!"@,
            Error::Max => ""@,
            Error::Stdout => "Unable to open the stdout terminal for writing!"@,
            Error::SubCommand => ""@,
            Error::License => ""@,
            Error::Path => ""@,
            Error::ExitCode => ""@,
            Error::TermCommand => ""@,
        }
    }

    /// The diagnostic text reported to the caller for this error.
    pub fn message(&self) -> (m: String)
        ensures
            m@ == self.spec_message(),
    {
        match self {
            Error::ConnectionString => {
                String::from_str("The connection string is a required command line argument!")
            },
            Error::Driver(d) => d.clone(),
            Error::Build(f) => {
                let mut m = String::from_str("uninitialized field: ");
                m.append(f.as_str());
                m
            },
            Error::Template(t) => t.clone(),
            Error::Encoding => String::from_str("The rendered output is not valid UTF-8 text!"),
            Error::Max => String::from_str(""),
            Error::Stdout => String::from_str("Unable to open the stdout terminal for writing!"),
            Error::SubCommand => String::from_str(""),
            Error::License => String::from_str(""),
            Error::Path => String::from_str(""),
            Error::ExitCode => String::from_str(""),
            Error::TermCommand => String::from_str(""),
        }
    }
}

} // verus!
