//! Where the command line writes its log file, and at which level.
use vstd::prelude::*;
use crate::common::{is_off_word, lower_all, os_str_is_off};
use crate::engine_client::{join_path, path_joined};
use crate::text::trimmed;

verus! {

/// Environment variable naming the log file (or `off` to disable it).
pub const LOG_FILE_ENV: &'static str = "VALQERON_LOG_FILE";

/// Environment variable overriding the file log level.
pub const LOG_LEVEL_ENV: &'static str = "VALQERON_LOG_LEVEL";

/// Default log file name.
pub const LOG_FILE_NAME: &'static str = "valqeron-cli.log";

/// Level of the file log when the environment does not set one.
pub const DEFAULT_FILE_LOG_LEVEL: &'static str = "info";

/// The message when no home directory can be found for the log file.
pub const NO_HOME_DIRECTORY: &'static str = "could not determine a home directory for application files";

/// The platform's directories for the application, as the directory lookup
/// reports them: a state directory where the platform has one, and the data
/// directory.
#[derive(Debug, Clone)]
pub struct ProjectPaths {
    pub state_dir: Option<String>,
    pub data_dir: String,
}

/// The default log file: `valqeron-cli.log` in the state directory, or in
/// `logs` under the data directory where there is no state directory.
pub open spec fn default_log_path(dirs: ProjectPaths) -> Seq<char> {
    let dir = match dirs.state_dir {
        Some(s) => s@,
        None => path_joined(dirs.data_dir@, "logs"@),
    };
    path_joined(dir, "valqeron-cli.log"@)
}

/// The default log file for the platform's directories; fails when the
/// platform gives none.
pub fn default_log_file(dirs: &Option<ProjectPaths>) -> (r: Result<String, String>)
    ensures
        match dirs {
            Some(d) => (r matches Ok(p) && p@ == default_log_path(*d)),
            None => (r matches Err(m) && m@ == NO_HOME_DIRECTORY@),
        },
{
    match dirs {
        Some(d) => {
            let dir = match &d.state_dir {
                Some(s) => s.clone(),
                None => {
                    let logs = "logs";
                    proof {
                        reveal_strlit("logs");
                    }
                    join_path(d.data_dir.as_str(), logs)
                },
            };
            let file = LOG_FILE_NAME;
            proof {
                reveal_strlit("valqeron-cli.log");
            }
            Ok(join_path(dir.as_str(), file))
        },
        None => Err(String::from_str(NO_HOME_DIRECTORY)),
    }
}

/// Settings of the command line that come from flags, the environment and
/// the platform.
#[derive(Debug, Clone)]
pub struct ValqeronConfig {
    log_file: Option<String>,
}

/// Whether an environment value switches file logging off.
pub open spec fn env_switches_off(value: Seq<char>) -> bool {
    is_off_word(lower_all(trimmed(value)))
}

impl ValqeronConfig {
    pub closed spec fn log_file_spec(self) -> Option<String> {
        self.log_file
    }

    /// The log file rule: `--no-log-file` turns file logging off; otherwise
    /// a `--log-file` path wins, `--log-file` without a path takes the
    /// default; without the flag, `VALQERON_LOG_FILE` decides (a value that
    /// switches off disables it, any other is the path), and without either
    /// the default location is used. Fails only where the default is needed
    /// and the platform gives none.
    pub fn resolve(
        log_file_flag: Option<Option<String>>,
        no_log_file: bool,
        env_value: Option<&str>,
        dirs: &Option<ProjectPaths>,
    ) -> (r: Result<ValqeronConfig, String>)
        ensures
            no_log_file ==> (r matches Ok(c) && c.log_file_spec() is None),
            !no_log_file ==> match log_file_flag {
                Some(Some(p)) => (r matches Ok(c) && c.log_file_spec() matches Some(q) && q@ == p@),
                Some(None) => default_used(*dirs, r),
                None => match env_value {
                    Some(v) => if env_switches_off(v@) {
                        (r matches Ok(c) && c.log_file_spec() is None)
                    } else {
                        (r matches Ok(c) && c.log_file_spec() matches Some(q) && q@ == v@)
                    },
                    None => default_used(*dirs, r),
                },
            },
    {
        if no_log_file {
            return Ok(ValqeronConfig { log_file: None });
        }
        match log_file_flag {
            Some(Some(path)) => Ok(ValqeronConfig { log_file: Some(path) }),
            Some(None) => match default_log_file(dirs) {
                Ok(p) => Ok(ValqeronConfig { log_file: Some(p) }),
                Err(e) => Err(e),
            },
            None => match env_value {
                Some(v) => {
                    if os_str_is_off(v) {
                        Ok(ValqeronConfig { log_file: None })
                    } else {
                        Ok(ValqeronConfig { log_file: Some(String::from_str(v)) })
                    }
                },
                None => match default_log_file(dirs) {
                    Ok(p) => Ok(ValqeronConfig { log_file: Some(p) }),
                    Err(e) => Err(e),
                },
            },
        }
    }

    /// Where file logging writes, if it is on.
    pub fn log_file(&self) -> (r: Option<&str>)
        ensures
            r is None <==> self.log_file_spec() is None,
            r matches Some(p) ==> p@ == self.log_file_spec()->Some_0@,
    {
        match &self.log_file {
            Some(p) => Some(p.as_str()),
            None => None,
        }
    }

    /// The file log level: `VALQERON_LOG_LEVEL` where it is set, `info`
    /// otherwise.
    pub fn file_log_level(&self, env_value: Option<&str>) -> (r: String)
        ensures
            match env_value {
                Some(v) => r@ == v@,
                None => r@ == DEFAULT_FILE_LOG_LEVEL@,
            },
    {
        match env_value {
            Some(v) => String::from_str(v),
            None => String::from_str(DEFAULT_FILE_LOG_LEVEL),
        }
    }
}

/// `r` is the outcome of falling back to the default log location.
pub open spec fn default_used(dirs: Option<ProjectPaths>, r: Result<ValqeronConfig, String>) -> bool {
    match dirs {
        Some(d) => (r matches Ok(c) && c.log_file_spec() matches Some(q) && q@ == default_log_path(d)),
        None => (r matches Err(m) && m@ == NO_HOME_DIRECTORY@),
    }
}

} // verus!
