//! Shared data model: the raw configuration document, the validated
//! configuration record, and the verdict of one judging run.

use vstd::prelude::*;
use vstd::string::StringExecFns;

use crate::error::Error;

verus! {

/// The configuration document as it arrives, field for field, before any
/// validation. Optional fields are still absent here; paths have not been
/// defaulted yet.
#[derive(Debug, Clone)]
pub struct JsonDeConfig {
    pub lang: String,
    pub exe_file_path: String,
    pub input_file_path: Option<String>,
    pub output_file_path: Option<String>,
    pub error_file_path: Option<String>,
    pub cpu_time_limit: Option<u64>,
    pub real_time_limit: Option<u64>,
    pub memory_limit: Option<u64>,
    pub stack_limit: Option<u64>,
    pub max_output_size: Option<u64>,
    pub args: Option<Vec<String>>,
    pub env: Option<Vec<String>>,
    pub uid: Option<u32>,
    pub gid: Option<u32>,
}

/// The recognized submission languages.
#[derive(Debug, PartialEq, Eq, Structural, Clone, Copy)]
pub enum LanguageType {
    C,
    Cpp,
}

/// The language a `lang` field denotes, if any.
pub open spec fn language_of(s: Seq<char>) -> Option<LanguageType> {
    if s == "C"@ {
        Some(LanguageType::C)
    } else if s == "C++"@ {
        Some(LanguageType::Cpp)
    } else {
        None
    }
}

/// Fully validated input of one judging run. Immutable once constructed.
///
/// `cpu_time_limit` is in seconds (the kernel's unit for CPU limits);
/// `real_time_limit` is in milliseconds; `memory_limit`, `stack_limit` and
/// `output_size_limit` are in bytes.
#[derive(Debug, Clone)]
pub struct Config {
    pub lang: LanguageType,
    pub exe_file_path: String,
    pub input_file_path: String,
    pub output_file_path: String,
    pub error_file_path: String,
    pub cpu_time_limit: Option<u64>,
    pub real_time_limit: Option<u64>,
    pub memory_limit: Option<u64>,
    pub stack_limit: Option<u64>,
    pub output_size_limit: Option<u64>,
    pub args: Vec<String>,
    pub env: Vec<String>,
    pub uid: Option<u32>,
    pub gid: Option<u32>,
}

/// A positive limit: absent, or strictly greater than zero.
pub open spec fn limit_positive(l: Option<u64>) -> bool {
    l != Some(0u64)
}

impl Config {
    /// The invariant every validated configuration satisfies: a recognized
    /// language, non-empty paths, and no zero limit.
    pub open spec fn well_formed(&self) -> bool {
        &&& self.exe_file_path@.len() > 0
        &&& self.input_file_path@.len() > 0
        &&& self.output_file_path@.len() > 0
        &&& self.error_file_path@.len() > 0
        &&& limit_positive(self.cpu_time_limit)
        &&& limit_positive(self.real_time_limit)
        &&& limit_positive(self.memory_limit)
        &&& limit_positive(self.stack_limit)
        &&& limit_positive(self.output_size_limit)
    }
}

/// The path a possibly-absent path field resolves to: the configured value,
/// or the given default standard stream.
pub open spec fn resolved_path(p: Option<String>, default: Seq<char>) -> Seq<char> {
    match p {
        Some(s) => s@,
        None => default,
    }
}

/// The argument or environment list a possibly-absent field resolves to.
pub open spec fn resolved_list(l: Option<Vec<String>>) -> Seq<String> {
    match l {
        Some(v) => v@,
        None => Seq::empty(),
    }
}

/// Whether a path passed its existence check and is non-empty.
pub open spec fn path_acceptable(exists: bool, path: Seq<char>) -> bool {
    exists && path.len() > 0
}

/// Whether the executable and all three (defaulted) stream paths passed
/// their checks.
pub open spec fn all_paths_acceptable(
    j: JsonDeConfig,
    exe_ok: bool,
    input_ok: bool,
    output_ok: bool,
    error_ok: bool,
) -> bool {
    &&& path_acceptable(exe_ok, j.exe_file_path@)
    &&& path_acceptable(input_ok, resolved_path(j.input_file_path, "/dev/stdin"@))
    &&& path_acceptable(output_ok, resolved_path(j.output_file_path, "/dev/stdout"@))
    &&& path_acceptable(error_ok, resolved_path(j.error_file_path, "/dev/stderr"@))
}

/// The resolved path of a possibly-absent field, cloned or defaulted.
fn resolve_path(p: &Option<String>, default: &str) -> (r: String)
    ensures
        r@ == resolved_path(*p, default@),
{
    match p {
        Some(s) => s.clone(),
        None => default.to_owned(),
    }
}

impl Config {
    /// Pure validation of a raw configuration document, given the outcome of
    /// the four path-existence checks: resolves defaults, requires a
    /// recognized language, existing non-empty paths, and strictly positive
    /// limits, and reports the first failure in that order.
    pub fn validate(
        j: JsonDeConfig,
        exe_ok: bool,
        input_ok: bool,
        output_ok: bool,
        error_ok: bool,
    ) -> (r: Result<Config, Error>)
        ensures
            language_of(j.lang@) is None ==> r == Err::<Config, Error>(
                Error::InvalidLanguage(j.lang),
            ),
            r matches Ok(c) ==> {
                &&& c.well_formed()
                &&& language_of(j.lang@) == Some(c.lang)
                &&& c.exe_file_path == j.exe_file_path
                &&& c.input_file_path@ == resolved_path(j.input_file_path, "/dev/stdin"@)
                &&& c.output_file_path@ == resolved_path(j.output_file_path, "/dev/stdout"@)
                &&& c.error_file_path@ == resolved_path(j.error_file_path, "/dev/stderr"@)
                &&& c.cpu_time_limit == j.cpu_time_limit
                &&& c.real_time_limit == j.real_time_limit
                &&& c.memory_limit == j.memory_limit
                &&& c.stack_limit == j.stack_limit
                &&& c.output_size_limit == j.max_output_size
                &&& c.args@ == resolved_list(j.args)
                &&& c.env@ == resolved_list(j.env)
                &&& c.uid == j.uid
                &&& c.gid == j.gid
            },
            r is Ok <==> {
                &&& language_of(j.lang@) is Some
                &&& path_acceptable(exe_ok, j.exe_file_path@)
                &&& path_acceptable(input_ok, resolved_path(j.input_file_path, "/dev/stdin"@))
                &&& path_acceptable(output_ok, resolved_path(j.output_file_path, "/dev/stdout"@))
                &&& path_acceptable(error_ok, resolved_path(j.error_file_path, "/dev/stderr"@))
                &&& limit_positive(j.cpu_time_limit)
                &&& limit_positive(j.real_time_limit)
                &&& limit_positive(j.memory_limit)
                &&& limit_positive(j.stack_limit)
                &&& limit_positive(j.max_output_size)
            },
            r matches Err(e) ==> (e matches Error::InvalidLanguage(_) || e
                matches Error::InvalidFilePath(_) || e matches Error::InvalidLimit(_)),
            language_of(j.lang@) is Some && !path_acceptable(exe_ok, j.exe_file_path@) ==> r
                == Err::<Config, Error>(Error::InvalidFilePath(j.exe_file_path)),
            language_of(j.lang@) is Some && path_acceptable(exe_ok, j.exe_file_path@)
                && !path_acceptable(input_ok, resolved_path(j.input_file_path, "/dev/stdin"@)) ==> (
            r matches Err(Error::InvalidFilePath(p)) && p@ == resolved_path(
                j.input_file_path,
                "/dev/stdin"@,
            )),
            language_of(j.lang@) is Some && path_acceptable(exe_ok, j.exe_file_path@)
                && path_acceptable(input_ok, resolved_path(j.input_file_path, "/dev/stdin"@))
                && !path_acceptable(output_ok, resolved_path(j.output_file_path, "/dev/stdout"@))
                ==> (r matches Err(Error::InvalidFilePath(p)) && p@ == resolved_path(
                j.output_file_path,
                "/dev/stdout"@,
            )),
            language_of(j.lang@) is Some && path_acceptable(exe_ok, j.exe_file_path@)
                && path_acceptable(input_ok, resolved_path(j.input_file_path, "/dev/stdin"@))
                && path_acceptable(output_ok, resolved_path(j.output_file_path, "/dev/stdout"@))
                && !path_acceptable(error_ok, resolved_path(j.error_file_path, "/dev/stderr"@))
                ==> (r matches Err(Error::InvalidFilePath(p)) && p@ == resolved_path(
                j.error_file_path,
                "/dev/stderr"@,
            )),
            language_of(j.lang@) is Some && all_paths_acceptable(j, exe_ok, input_ok, output_ok, error_ok) && j.cpu_time_limit
                == Some(0u64) ==> (r matches Err(Error::InvalidLimit(n)) && n@
                == "cpu_time_limit"@),
            language_of(j.lang@) is Some && all_paths_acceptable(j, exe_ok, input_ok, output_ok, error_ok) && limit_positive(
                j.cpu_time_limit,
            ) && j.real_time_limit == Some(0u64) ==> (r matches Err(Error::InvalidLimit(n)) && n@
                == "real_time_limit"@),
            language_of(j.lang@) is Some && all_paths_acceptable(j, exe_ok, input_ok, output_ok, error_ok) && limit_positive(
                j.cpu_time_limit,
            ) && limit_positive(j.real_time_limit) && j.memory_limit == Some(0u64) ==> (r
                matches Err(Error::InvalidLimit(n)) && n@ == "memory_limit"@),
            language_of(j.lang@) is Some && all_paths_acceptable(j, exe_ok, input_ok, output_ok, error_ok) && limit_positive(
                j.cpu_time_limit,
            ) && limit_positive(j.real_time_limit) && limit_positive(j.memory_limit)
                && j.stack_limit == Some(0u64) ==> (r matches Err(Error::InvalidLimit(n)) && n@
                == "stack_limit"@),
            language_of(j.lang@) is Some && all_paths_acceptable(j, exe_ok, input_ok, output_ok, error_ok) && limit_positive(
                j.cpu_time_limit,
            ) && limit_positive(j.real_time_limit) && limit_positive(j.memory_limit)
                && limit_positive(j.stack_limit) && j.max_output_size == Some(0u64) ==> (r
                matches Err(Error::InvalidLimit(n)) && n@ == "max_output_size"@),
    {
        let lang = if j.lang == String::from_str("C") {
            LanguageType::C
        } else if j.lang == String::from_str("C++") {
            LanguageType::Cpp
        } else {
            return Err(Error::InvalidLanguage(j.lang));
        };
        let input_file_path = resolve_path(&j.input_file_path, "/dev/stdin");
        let output_file_path = resolve_path(&j.output_file_path, "/dev/stdout");
        let error_file_path = resolve_path(&j.error_file_path, "/dev/stderr");
        if !exe_ok || j.exe_file_path.as_str().is_empty() {
            return Err(Error::InvalidFilePath(j.exe_file_path));
        }
        if !input_ok || input_file_path.as_str().is_empty() {
            return Err(Error::InvalidFilePath(input_file_path));
        }
        if !output_ok || output_file_path.as_str().is_empty() {
            return Err(Error::InvalidFilePath(output_file_path));
        }
        if !error_ok || error_file_path.as_str().is_empty() {
            return Err(Error::InvalidFilePath(error_file_path));
        }
        if let Some(limit) = j.cpu_time_limit {
            if limit == 0 {
                return Err(Error::InvalidLimit("cpu_time_limit".to_owned()));
            }
        }
        if let Some(limit) = j.real_time_limit {
            if limit == 0 {
                return Err(Error::InvalidLimit("real_time_limit".to_owned()));
            }
        }
        if let Some(limit) = j.memory_limit {
            if limit == 0 {
                return Err(Error::InvalidLimit("memory_limit".to_owned()));
            }
        }
        if let Some(limit) = j.stack_limit {
            if limit == 0 {
                return Err(Error::InvalidLimit("stack_limit".to_owned()));
            }
        }
        if let Some(limit) = j.max_output_size {
            if limit == 0 {
                return Err(Error::InvalidLimit("max_output_size".to_owned()));
            }
        }
        let args = match j.args {
            Some(a) => a,
            None => Vec::new(),
        };
        let env = match j.env {
            Some(e) => e,
            None => Vec::new(),
        };
        Ok(
            Config {
                lang,
                exe_file_path: j.exe_file_path,
                input_file_path,
                output_file_path,
                error_file_path,
                cpu_time_limit: j.cpu_time_limit,
                real_time_limit: j.real_time_limit,
                memory_limit: j.memory_limit,
                stack_limit: j.stack_limit,
                output_size_limit: j.max_output_size,
                args,
                env,
                uid: j.uid,
                gid: j.gid,
            },
        )
    }

    /// Validates a raw configuration document against the filesystem: each
    /// of the executable and the three (defaulted) stream paths must exist.
    /// The language check comes first, so an unrecognized language is
    /// reported whatever is on disk; a zero limit is always refused.
    pub fn try_from(j: JsonDeConfig) -> (r: Result<Config, Error>)
        ensures
            language_of(j.lang@) is None ==> r == Err::<Config, Error>(
                Error::InvalidLanguage(j.lang),
            ),
            r matches Ok(c) ==> {
                &&& c.well_formed()
                &&& language_of(j.lang@) == Some(c.lang)
                &&& c.exe_file_path == j.exe_file_path
                &&& c.input_file_path@ == resolved_path(j.input_file_path, "/dev/stdin"@)
                &&& c.output_file_path@ == resolved_path(j.output_file_path, "/dev/stdout"@)
                &&& c.error_file_path@ == resolved_path(j.error_file_path, "/dev/stderr"@)
                &&& c.cpu_time_limit == j.cpu_time_limit
                &&& c.real_time_limit == j.real_time_limit
                &&& c.memory_limit == j.memory_limit
                &&& c.stack_limit == j.stack_limit
                &&& c.output_size_limit == j.max_output_size
                &&& c.args@ == resolved_list(j.args)
                &&& c.env@ == resolved_list(j.env)
                &&& c.uid == j.uid
                &&& c.gid == j.gid
            },
            r matches Err(e) ==> (e matches Error::InvalidLanguage(_) || e
                matches Error::InvalidFilePath(_) || e matches Error::InvalidLimit(_)),
            r matches Err(Error::InvalidLanguage(_)) ==> language_of(j.lang@) is None,
            !limit_positive(j.cpu_time_limit) ==> r is Err,
            !limit_positive(j.real_time_limit) ==> r is Err,
            !limit_positive(j.memory_limit) ==> r is Err,
            !limit_positive(j.stack_limit) ==> r is Err,
            !limit_positive(j.max_output_size) ==> r is Err,
    {
        let exe_ok = crate::sys::path_exists(&j.exe_file_path);
        let input_file_path = resolve_path(&j.input_file_path, "/dev/stdin");
        let output_file_path = resolve_path(&j.output_file_path, "/dev/stdout");
        let error_file_path = resolve_path(&j.error_file_path, "/dev/stderr");
        let input_ok = crate::sys::path_exists(&input_file_path);
        let output_ok = crate::sys::path_exists(&output_file_path);
        let error_ok = crate::sys::path_exists(&error_file_path);
        Self::validate(j, exe_ok, input_ok, output_ok, error_ok)
    }
}

/// The verdict of one run.
#[derive(Debug, PartialEq, Eq, Structural, Clone, Copy)]
pub enum JudgeState {
    SystemError,
    MemoryLimitExceeded,
    RealTimeLimitExceeded,
    CpuTimeLimitExceeded,
    RuntimeError,
    Accepted,
}

/// Output of one judging run: measured consumption and the verdict.
///
/// `cpu_time` and `real_time` are in milliseconds, `memory` in bytes.
/// `exit_code` is the low byte of the child's exit status if it exited
/// normally, and 0 otherwise.
#[derive(Debug, PartialEq, Eq, Structural, Clone, Copy)]
pub struct JudgeResult {
    pub cpu_time: u64,
    pub real_time: u64,
    pub memory: u64,
    pub state: JudgeState,
    pub exit_code: i32,
}

} // verus!
