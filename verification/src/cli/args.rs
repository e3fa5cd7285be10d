//! The global flags and the subcommands, as parsed from the command line.
use vstd::prelude::*;

verus! {

/// Default page size when `--limit` is not supplied.
pub const DEFAULT_PAGE_LIMIT: u32 = 50;

/// Largest page size a listing accepts.
pub const MAX_PAGE_LIMIT: u32 = 1000;

/// The stderr log level that the `-v` count selects.
#[derive(Debug, Clone, Copy, PartialEq, Eq, Structural)]
pub enum LogLevel {
    Warn,
    Info,
    Debug,
    Trace,
}

/// The level for a `-v` count: none is `Warn`, then `Info`, `Debug`, and
/// `Trace` from three on.
pub open spec fn level_for_verbosity(verbose: u8) -> LogLevel {
    if verbose == 0 {
        LogLevel::Warn
    } else if verbose == 1 {
        LogLevel::Info
    } else if verbose == 2 {
        LogLevel::Debug
    } else {
        LogLevel::Trace
    }
}

impl LogLevel {
    /// The upper-case name of the level, as it is printed.
    pub open spec fn text(self) -> Seq<char> {
        match self {
            LogLevel::Warn => "WARN"@,
            LogLevel::Info => "INFO"@,
            LogLevel::Debug => "DEBUG"@,
            LogLevel::Trace => "TRACE"@,
        }
    }

    pub fn as_str(&self) -> (r: &'static str)
        ensures
            r@ == self.text(),
    {
        match self {
            LogLevel::Warn => "WARN",
            LogLevel::Info => "INFO",
            LogLevel::Debug => "DEBUG",
            LogLevel::Trace => "TRACE",
        }
    }
}

/// `issuer register`: the fields of a new issuer given as flags.
#[derive(Debug, Clone)]
pub struct RegisterArgs {
    pub name: Option<String>,
    pub status: Option<String>,
    pub cnpj: Option<String>,
    pub lei: Option<String>,
    pub country_code: Option<String>,
}

/// `issuer list`: one page of issuers.
#[derive(Debug, Clone)]
pub struct ListArgs {
    pub limit: u32,
    pub after: Option<String>,
}

/// `issuer info`: one issuer by id.
#[derive(Debug, Clone)]
pub struct InfoArgs {
    pub id: String,
}

/// The issuer subcommands.
#[derive(Debug, Clone)]
pub enum IssuerCommand {
    Register(RegisterArgs),
    List(ListArgs),
    Info(InfoArgs),
}

/// `engine ping`: the version handshake round trip.
#[derive(Debug, Clone)]
pub struct PingArgs {}

/// `engine status`: the engine's diagnostics.
#[derive(Debug, Clone)]
pub struct StatusArgs {}

/// `engine list-background-tasks`: one page of background tasks.
#[derive(Debug, Clone)]
pub struct ListBackgroundTasksArgs {
    pub limit: u32,
    pub after: Option<String>,
}

/// The engine subcommands.
#[derive(Debug, Clone)]
pub enum EngineCommand {
    Ping(PingArgs),
    Status(StatusArgs),
    ListBackgroundTasks(ListBackgroundTasksArgs),
}

/// `init`: prepare local storage.
#[derive(Debug, Clone)]
pub struct InitArgs {}

/// The top-level subcommands.
#[derive(Debug, Clone)]
pub enum Commands {
    Issuer(IssuerCommand),
    Engine(EngineCommand),
}

/// The command line: a subcommand and the global flags. Paths are kept as
/// text.
#[derive(Debug, Clone)]
pub struct Cli {
    pub command: Commands,
    pub verbose: u8,
    pub output: Option<String>,
    pub input: Option<String>,
    pub dry_run: bool,
    pub pretty: bool,
    pub socket: Option<String>,
    pub log_file: Option<String>,
    pub no_log_file: bool,
}

impl Cli {
    /// The stderr log level that `-v` selects.
    pub fn log_level(&self) -> (r: LogLevel)
        ensures
            r == level_for_verbosity(self.verbose),
    {
        if self.verbose == 0 {
            LogLevel::Warn
        } else if self.verbose == 1 {
            LogLevel::Info
        } else if self.verbose == 2 {
            LogLevel::Debug
        } else {
            LogLevel::Trace
        }
    }

    /// `--log-file` as the configuration reads it: absent, given without a
    /// path (an empty value), or given with one.
    pub fn log_file_arg(&self) -> (r: Option<Option<String>>)
        ensures
            self.log_file is None ==> r is None,
            self.log_file matches Some(p) ==> (p@.len() == 0 ==> r == Some::<Option<String>>(None)),
            self.log_file matches Some(p) ==> (p@.len() > 0 ==> (r matches Some(Some(q)) && q@
                == p@)),
    {
        match &self.log_file {
            None => None,
            Some(p) => {
                if p.unicode_len() == 0 {
                    Some(None)
                } else {
                    Some(Some(p.clone()))
                }
            },
        }
    }
}

} // verus!
