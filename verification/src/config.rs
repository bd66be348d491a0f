//! Configuration: log level filters and their textual form, defaults, and how
//! command-line flags decide the final configuration.

use vstd::prelude::*;

verus! {

/// The log level filter of the service, from most quiet to most verbose.
#[derive(Clone, Copy, Debug, PartialEq, Eq, Structural)]
pub enum LevelFilter {
    Off,
    Error,
    Warn,
    Info,
    Debug,
    Trace,
}

/// The text that names each level filter in configuration files.
pub open spec fn level_filter_text(level: LevelFilter) -> Seq<char> {
    match level {
        LevelFilter::Off => "off"@,
        LevelFilter::Error => "error"@,
        LevelFilter::Warn => "warn"@,
        LevelFilter::Info => "info"@,
        LevelFilter::Debug => "debug"@,
        LevelFilter::Trace => "trace"@,
    }
}

/// The level filter named by `text`, if any: only the exact lower-case names
/// are accepted.
pub open spec fn level_filter_from_text(text: Seq<char>) -> Option<LevelFilter> {
    if text == "off"@ {
        Some(LevelFilter::Off)
    } else if text == "error"@ {
        Some(LevelFilter::Error)
    } else if text == "warn"@ {
        Some(LevelFilter::Warn)
    } else if text == "info"@ {
        Some(LevelFilter::Info)
    } else if text == "debug"@ {
        Some(LevelFilter::Debug)
    } else if text == "trace"@ {
        Some(LevelFilter::Trace)
    } else {
        None
    }
}

/// A level filter text that names no level; it carries the rejected input.
#[derive(Debug)]
pub struct LevelFilterError {
    pub input: String,
}

impl LevelFilterError {
    /// What was expected in place of the rejected input.
    pub fn expected() -> (res: &'static str)
        ensures
            res@ == "a string containing valid values"@,
    {
        proof {
            reveal_strlit("a string containing valid values");
        }
        "a string containing valid values"
    }
}

/// Whether two strings hold the same characters.
fn str_equal(a: &str, b: &str) -> (res: bool)
    ensures
        res == (a@ == b@),
{
    let n = a.unicode_len();
    if n != b.unicode_len() {
        return false;
    }
    let mut i: usize = 0;
    while i < n
        invariant
            n == a@.len(),
            n == b@.len(),
            i <= n,
            forall|j: int| 0 <= j < i ==> a@[j] == b@[j],
        decreases n - i,
    {
        if a.get_char(i) != b.get_char(i) {
            return false;
        }
        i = i + 1;
    }
    assert(a@ =~= b@);
    true
}

/// Reads a level filter from its configuration text.
pub fn deserialize_level_filter(input: &str) -> (res: Result<LevelFilter, LevelFilterError>)
    ensures
        match level_filter_from_text(input@) {
            Some(level) => res == Ok::<LevelFilter, LevelFilterError>(level),
            None => res matches Err(e) && e.input@ == input@,
        },
        input@ == "off"@ ==> res == Ok::<LevelFilter, LevelFilterError>(LevelFilter::Off),
        input@ == "error"@ ==> res == Ok::<LevelFilter, LevelFilterError>(LevelFilter::Error),
        input@ == "warn"@ ==> res == Ok::<LevelFilter, LevelFilterError>(LevelFilter::Warn),
        input@ == "info"@ ==> res == Ok::<LevelFilter, LevelFilterError>(LevelFilter::Info),
        input@ == "debug"@ ==> res == Ok::<LevelFilter, LevelFilterError>(LevelFilter::Debug),
        input@ == "trace"@ ==> res == Ok::<LevelFilter, LevelFilterError>(LevelFilter::Trace),
        res is Err ==> input@ != "off"@ && input@ != "error"@ && input@ != "warn"@ && input@
            != "info"@ && input@ != "debug"@ && input@ != "trace"@,
{
    proof {
        reveal_strlit("off");
        reveal_strlit("error");
        reveal_strlit("warn");
        reveal_strlit("info");
        reveal_strlit("debug");
        reveal_strlit("trace");
        lemma_level_filter_text_round_trip(LevelFilter::Off);
        lemma_level_filter_text_round_trip(LevelFilter::Error);
        lemma_level_filter_text_round_trip(LevelFilter::Warn);
        lemma_level_filter_text_round_trip(LevelFilter::Info);
        lemma_level_filter_text_round_trip(LevelFilter::Debug);
        lemma_level_filter_text_round_trip(LevelFilter::Trace);
    }
    if str_equal(input, "off") {
        Ok(LevelFilter::Off)
    } else if str_equal(input, "error") {
        Ok(LevelFilter::Error)
    } else if str_equal(input, "warn") {
        Ok(LevelFilter::Warn)
    } else if str_equal(input, "info") {
        Ok(LevelFilter::Info)
    } else if str_equal(input, "debug") {
        Ok(LevelFilter::Debug)
    } else if str_equal(input, "trace") {
        Ok(LevelFilter::Trace)
    } else {
        Err(LevelFilterError { input: input.to_owned() })
    }
}

/// Writes a level filter as its configuration text.
pub fn serialize_level_filter(level_filter: &LevelFilter) -> (res: &'static str)
    ensures
        res@ == level_filter_text(*level_filter),
        *level_filter == LevelFilter::Off ==> res@ == "off"@,
        *level_filter == LevelFilter::Error ==> res@ == "error"@,
        *level_filter == LevelFilter::Warn ==> res@ == "warn"@,
        *level_filter == LevelFilter::Info ==> res@ == "info"@,
        *level_filter == LevelFilter::Debug ==> res@ == "debug"@,
        *level_filter == LevelFilter::Trace ==> res@ == "trace"@,
{
    match level_filter {
        LevelFilter::Off => "off",
        LevelFilter::Error => "error",
        LevelFilter::Warn => "warn",
        LevelFilter::Info => "info",
        LevelFilter::Debug => "debug",
        LevelFilter::Trace => "trace",
    }
}

/// Reading back what was written gives the same level filter.
pub proof fn lemma_level_filter_text_round_trip(level: LevelFilter)
    ensures
        level_filter_from_text(level_filter_text(level)) == Some(level),
{
    reveal_strlit("off");
    reveal_strlit("error");
    reveal_strlit("warn");
    reveal_strlit("info");
    reveal_strlit("debug");
    reveal_strlit("trace");
    assert("off"@.len() == 3 && "error"@.len() == 5 && "warn"@.len() == 4);
    assert("info"@.len() == 4 && "debug"@.len() == 5 && "trace"@.len() == 5);
    assert("error"@[0] != "debug"@[0] && "error"@[0] != "trace"@[0]);
    assert("debug"@[0] != "trace"@[0]);
    assert("warn"@[0] != "info"@[0]);
}

/// Every accepted text is exactly the text of the level filter it names.
pub proof fn lemma_level_filter_text_canonical(text: Seq<char>)
    ensures
        level_filter_from_text(text) matches Some(level) ==> level_filter_text(level) == text,
{
}

/// The configuration of the service, also the format of its configuration
/// file: the log level filter and the port to listen on.
#[derive(Clone, Copy, Debug, PartialEq, Eq, Structural)]
pub struct Configuration {
    pub log_level: LevelFilter,
    pub port: u16,
}

impl Default for Configuration {
    /// Log at `info` and listen on port 8081; also what a field missing from
    /// the configuration file takes.
    fn default() -> (res: Self)
        ensures
            res.log_level == LevelFilter::Info,
            res.port == 8081,
    {
        Configuration { log_level: LevelFilter::Info, port: 8081 }
    }
}

/// The command-line flags of the service.
pub struct Args {
    /// `-v`, `--verbose`: log at `debug`.
    pub verbose: bool,
    /// `-d`, `--debug`: log at `trace`.
    pub debug: bool,
    /// `-c`, `--config`: the configuration file to read.
    pub config_file: Option<String>,
}

/// The configuration file read when none is named.
pub open spec fn default_config_file() -> Seq<char> {
    "config.yml"@
}

/// The level filter the flags ask for: `trace` for debug, else `debug` for
/// verbose, else `info`.
pub open spec fn flags_level_filter(debug: bool, verbose: bool) -> LevelFilter {
    if debug {
        LevelFilter::Trace
    } else if verbose {
        LevelFilter::Debug
    } else {
        LevelFilter::Info
    }
}

impl Args {
    /// The configuration file to read: the one named on the command line, else
    /// "config.yml".
    pub fn config_path(&self) -> (res: String)
        ensures
            match self.config_file {
                Some(f) => res@ == f@,
                None => res@ == default_config_file(),
            },
    {
        match &self.config_file {
            Some(f) => f.clone(),
            None => String::from_str("config.yml"),
        }
    }
}

impl Configuration {
    /// The configuration the service runs with, from its flags and the
    /// configuration read from `config_path`: the port comes from the file,
    /// while the flags alone decide the log level filter.
    pub fn new(args: &Args, from_file: Configuration) -> (res: Self)
        ensures
            res.port == from_file.port,
            res.log_level == flags_level_filter(args.debug, args.verbose),
            args.debug ==> res.log_level == LevelFilter::Trace,
            !args.debug && args.verbose ==> res.log_level == LevelFilter::Debug,
            !args.debug && !args.verbose ==> res.log_level == LevelFilter::Info,
    {
        let log_level = if args.debug {
            LevelFilter::Trace
        } else if args.verbose {
            LevelFilter::Debug
        } else {
            LevelFilter::Info
        };
        Configuration { log_level, port: from_file.port }
    }
}

} // verus!
