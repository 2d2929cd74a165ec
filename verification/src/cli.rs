//! Scaffolding command line logic: output levels, log line layout, the
//! license selection, and the argument list handed to the project
//! generator. The terminal writes and the spawned process stay with the
//! caller; everything decided here is decided on plain values.

use vstd::prelude::*;
use vstd::string::StrSliceExecFns;
use vstd::string::StringExecFns;
use crate::error::Error;
use crate::mapper::str_eq;
use crate::util::spec_spaces;

verus! {

/// Output level.
#[derive(Debug, Eq, Hash, PartialEq, Structural)]
pub enum Level {
    /// Output everything.
    Trace,
    /// Everything but TRACE.
    Debug,
    /// Everything but TRACE and DEBUG.
    Info,
    /// Warn and above only.
    Warn,
}

impl Level {
    /// The level's rank: more verbose levels rank lower.
    pub open spec fn spec_severity(&self) -> u32 {
        match self {
            Level::Trace => 0,
            Level::Debug => 1,
            Level::Info => 2,
            Level::Warn => 3,
        }
    }

    /// The level's rank: more verbose levels rank lower.
    pub fn severity(&self) -> (n: u32)
        ensures
            n == self.spec_severity(),
    {
        match self {
            Level::Trace => 0,
            Level::Debug => 1,
            Level::Info => 2,
            Level::Warn => 3,
        }
    }

    /// The level's display label.
    pub fn label(&self) -> (s: String)
        ensures
            self is Trace ==> s@ == "Trace"@,
            self is Debug ==> s@ == "Debug"@,
            self is Info ==> s@ == "Info"@,
            self is Warn ==> s@ == "Warn"@,
    {
        match self {
            Level::Trace => String::from_str("Trace"),
            Level::Debug => String::from_str("Debug"),
            Level::Info => String::from_str("Info"),
            Level::Warn => String::from_str("Warn"),
        }
    }
}

/// The text of one tool log line: the verb right-aligned to twelve
/// characters, one space, then the message.
pub open spec fn spec_log_line(verb: Seq<char>, message: Seq<char>) -> Seq<char> {
    let pad = if verb.len() < 12 {
        (12 - verb.len()) as nat
    } else {
        0
    };
    spec_spaces(pad) + verb + " "@ + message
}

/// Lay out a `cargo` formatted log line for the terminal.
pub fn log_message(verb: &str, message: &str) -> (line: String)
    ensures
        line@ == spec_log_line(verb@, message@),
{
    let n = verb.unicode_len();
    let mut line = String::new();
    let mut i: usize = 0;
    let pad: usize = if n < 12 {
        12 - n
    } else {
        0
    };
    while i < pad
        invariant
            i <= pad,
            line@ =~= spec_spaces(i as nat),
        decreases pad - i,
    {
        proof {
            reveal_strlit(" ");
        }
        line.append(" ");
        proof {
            assert(line@ =~= spec_spaces((i + 1) as nat));
        }
        i = i + 1;
    }
    line.append(verb);
    line.append(" ");
    line.append(message);
    proof {
        assert(line@ =~= spec_log_line(verb@, message@));
    }
    line
}

/// The line a debug level message puts on the terminal, where the output
/// level admits debug messages; nothing otherwise.
pub fn debug(verb: &str, message: &str, level: &Level) -> (r: Option<String>)
    ensures
        r is Some <==> level.spec_severity() <= 1,
        r matches Option::Some(l) ==> l@ == spec_log_line(verb@, message@),
{
    if level.severity() <= 1 {
        Option::Some(log_message(verb, message))
    } else {
        Option::None
    }
}

/// The line an info level message puts on the terminal, where the output
/// level admits info messages; nothing otherwise.
pub fn info(verb: &str, message: &str, level: &Level) -> (r: Option<String>)
    ensures
        r is Some <==> level.spec_severity() <= 2,
        r matches Option::Some(l) ==> l@ == spec_log_line(verb@, message@),
{
    if level.severity() <= 2 {
        Option::Some(log_message(verb, message))
    } else {
        Option::None
    }
}

/// Which licenses a selection flag asks for, as (mit, apache); a selection
/// outside the four known ones is the license error.
pub fn license_flags(license: &str) -> (r: Result<(bool, bool), Error>)
    ensures
        r is Ok <==> (license@ == "both"@ || license@ == "mit"@ || license@ == "apache"@
            || license@ == "none"@),
        license@ == "both"@ ==> r->Ok_0 == (true, true),
        license@ == "mit"@ ==> r->Ok_0 == (true, false),
        license@ == "apache"@ ==> r->Ok_0 == (false, true),
        license@ == "none"@ ==> r->Ok_0 == (false, false),
        r is Err ==> r->Err_0 is License,
{
    proof {
        reveal_strlit("both");
        reveal_strlit("mit");
        reveal_strlit("apache");
        reveal_strlit("none");
        assert("both"@.len() == 4 && "mit"@.len() == 3 && "apache"@.len() == 6 && "none"@.len()
            == 4);
        assert("both"@[0] == 'b' && "none"@[0] == 'n');
        assert("both"@ != "none"@);
    }
    if str_eq(license, "both") {
        Result::Ok((true, true))
    } else if str_eq(license, "mit") {
        Result::Ok((true, false))
    } else if str_eq(license, "apache") {
        Result::Ok((false, true))
    } else if str_eq(license, "none") {
        Result::Ok((false, false))
    } else {
        Result::Err(Error::License)
    }
}

/// The scaffolding inputs read from the command line.
pub struct NewArgs {
    /// Require the lock file and cache up to date.
    pub frozen: bool,
    /// Require the lock file up to date.
    pub locked: bool,
    /// No output printed to stdout.
    pub quiet: bool,
    /// How many times the verbose flag was given.
    pub verbose: u64,
    /// Coloring choice, when given.
    pub color: Option<String>,
    /// Version control choice, when given.
    pub vcs: Option<String>,
    /// The resulting package name, when given.
    pub name: Option<String>,
    /// The target path.
    pub path: Option<String>,
}

/// The output level the flags select: quiet warns only, and each verbose
/// repetition lowers the rank.
pub open spec fn spec_level_choice(a: NewArgs) -> Level {
    if a.quiet {
        Level::Warn
    } else if a.verbose == 0 {
        Level::Info
    } else if a.verbose == 1 {
        Level::Debug
    } else {
        Level::Trace
    }
}

/// The argument list handed to the project generator for the given flags,
/// in emission order.
pub open spec fn spec_cargo_new_argv(a: NewArgs) -> Seq<Seq<char>>
    recommends
        a.path is Some,
{
    let s0 = seq!["new"@];
    let s1 = if a.frozen {
        s0.push("--frozen"@)
    } else {
        s0
    };
    let s2 = if a.locked {
        s1.push("--locked"@)
    } else {
        s1
    };
    let s3 = if a.quiet {
        s2.push("--quiet"@)
    } else if a.verbose == 0 {
        s2
    } else if a.verbose == 1 {
        s2.push("-v"@)
    } else {
        s2.push("-vv"@)
    };
    let s4 = match a.color {
        Option::Some(c) => s3.push("--color"@).push(c@),
        Option::None => s3,
    };
    let s5 = match a.vcs {
        Option::Some(v) => s4.push("--vcs"@).push(v@),
        Option::None => s4,
    };
    match a.name {
        Option::Some(n) => s5.push("--name"@).push(n@).push(a.path->0@),
        Option::None => s5.push(a.path->0@),
    }
}

/// Set up the project generator's arguments from the given flags: the
/// target path, the package name (the path where no name was given), the
/// selected output level, and the argument list, in that order. A missing
/// path is the path error.
pub fn setup_cargo_new_args(args: NewArgs) -> (r: Result<(String, String, Level, Vec<String>), Error>)
    ensures
        r is Ok <==> args.path is Some,
        r is Err ==> r->Err_0 is Path,
        r is Ok ==> {
            &&& r->Ok_0.0@ == args.path->0@
            &&& r->Ok_0.1@ == (match args.name {
                Option::Some(n) => n@,
                Option::None => args.path->0@,
            })
            &&& r->Ok_0.2 == spec_level_choice(args)
            &&& r->Ok_0.3@.map_values(|s: String| s@) == spec_cargo_new_argv(args)
        },
{
    let mut argv: Vec<String> = Vec::new();
    argv.push(String::from_str("new"));
    if args.frozen {
        argv.push(String::from_str("--frozen"));
    }
    if args.locked {
        argv.push(String::from_str("--locked"));
    }
    let level = if args.quiet {
        argv.push(String::from_str("--quiet"));
        Level::Warn
    } else if args.verbose == 0 {
        Level::Info
    } else if args.verbose == 1 {
        argv.push(String::from_str("-v"));
        Level::Debug
    } else {
        argv.push(String::from_str("-vv"));
        Level::Trace
    };
    if let Option::Some(color) = args.color {
        argv.push(String::from_str("--color"));
        argv.push(color);
    }
    if let Option::Some(vcs) = args.vcs {
        argv.push(String::from_str("--vcs"));
        argv.push(vcs);
    }
    let path = match args.path {
        Option::Some(p) => p,
        Option::None => {
            return Result::Err(Error::Path);
        },
    };
    let name = match args.name {
        Option::Some(n) => {
            argv.push(String::from_str("--name"));
            argv.push(n.clone());
            argv.push(path.clone());
            n
        },
        Option::None => {
            argv.push(path.clone());
            path.clone()
        },
    };
    proof {
        assert(argv@.map_values(|s: String| s@) =~= spec_cargo_new_argv(args));
    }
    Result::Ok((path, name, level, argv))
}

} // verus!
