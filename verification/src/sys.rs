//! Trusted boundary to the kernel and to the command line: every function
//! here wraps one outside call and converts its arguments and result to
//! plain values. Nothing about the machine's behaviour is proved; each
//! contract states only what the wrapped call's own documentation gives.

use vstd::prelude::*;

use crate::judge::{ChildOutcome, LimitKind};

verus! {

/// Relies on nix::unistd::access with F_OK: whether a path exists.
/// The result depends on what is on disk, so nothing more is stated.
#[verifier::external_body]
pub(crate) fn path_exists(path: &String) -> bool {
    nix::unistd::access(path.as_str(), nix::unistd::AccessFlags::F_OK).is_ok()
}

/// Relies on nix::unistd::geteuid: the caller's effective user id.
#[verifier::external_body]
pub(crate) fn effective_uid() -> u32 {
    nix::unistd::geteuid().as_raw()
}

/// Relies on nix::unistd::getgid: the process's real group id.
#[verifier::external_body]
pub(crate) fn current_gid() -> u32 {
    nix::unistd::getgid().as_raw()
}

/// Relies on nix::sys::resource::setrlimit: sets the chosen kernel resource's
/// soft and hard limits to the same value. Errors come back as the errno value.
#[verifier::external_body]
pub(crate) fn set_rlimit(kind: LimitKind, value: u64) -> Result<(), i32> {
    let resource = match kind {
        LimitKind::Stack => nix::sys::resource::Resource::RLIMIT_STACK,
        LimitKind::AddressSpace => nix::sys::resource::Resource::RLIMIT_AS,
        LimitKind::OutputSize => nix::sys::resource::Resource::RLIMIT_FSIZE,
        LimitKind::CpuTime => nix::sys::resource::Resource::RLIMIT_CPU,
    };
    match nix::sys::resource::setrlimit(resource, value, value) {
        Ok(()) => Ok(()),
        Err(e) => Err(e as i32),
    }
}

/// Relies on nix::fcntl::open with O_RDONLY: opens a file for reading and
/// returns its raw descriptor.
#[verifier::external_body]
pub(crate) fn open_read(path: &String) -> Result<i32, i32> {
    match nix::fcntl::open(
        path.as_str(),
        nix::fcntl::OFlag::O_RDONLY,
        nix::sys::stat::Mode::empty(),
    ) {
        Ok(fd) => Ok(fd),
        Err(e) => Err(e as i32),
    }
}

/// Relies on nix::fcntl::open with O_WRONLY | O_CREAT | O_TRUNC: opens a
/// file for writing, created or truncated, mode 0644.
#[verifier::external_body]
pub(crate) fn open_write_truncate(path: &String) -> Result<i32, i32> {
    match nix::fcntl::open(
        path.as_str(),
        nix::fcntl::OFlag::O_WRONLY.union(nix::fcntl::OFlag::O_CREAT).union(
            nix::fcntl::OFlag::O_TRUNC,
        ),
        nix::sys::stat::Mode::from_bits_truncate(0o644),
    ) {
        Ok(fd) => Ok(fd),
        Err(e) => Err(e as i32),
    }
}

/// Relies on nix::unistd::dup2: duplicates `oldfd` onto `newfd`.
#[verifier::external_body]
pub(crate) fn dup2_fd(oldfd: i32, newfd: i32) -> Result<(), i32> {
    match nix::unistd::dup2(oldfd, newfd) {
        Ok(_) => Ok(()),
        Err(e) => Err(e as i32),
    }
}

/// Relies on nix::unistd::setgid: sets the primary group id.
#[verifier::external_body]
pub(crate) fn set_gid(gid: u32) -> Result<(), i32> {
    match nix::unistd::setgid(nix::unistd::Gid::from_raw(gid)) {
        Ok(()) => Ok(()),
        Err(e) => Err(e as i32),
    }
}

/// Relies on nix::unistd::setgroups: replaces the supplementary group set
/// with the single given group.
#[verifier::external_body]
pub(crate) fn set_groups_one(gid: u32) -> Result<(), i32> {
    match nix::unistd::setgroups(&[nix::unistd::Gid::from_raw(gid)]) {
        Ok(()) => Ok(()),
        Err(e) => Err(e as i32),
    }
}

/// Relies on nix::unistd::setuid: sets the user id.
#[verifier::external_body]
pub(crate) fn set_uid(uid: u32) -> Result<(), i32> {
    match nix::unistd::setuid(nix::unistd::Uid::from_raw(uid)) {
        Ok(()) => Ok(()),
        Err(e) => Err(e as i32),
    }
}

/// Relies on nix::unistd::execve: replaces the process image. Arguments are
/// NUL-terminated byte strings without interior NUL bytes, so the CStr
/// conversions cannot fail. Returns only if the call failed, with the errno
/// value.
#[verifier::external_body]
pub(crate) fn exec_program(path: &Vec<u8>, argv: &Vec<Vec<u8>>, envp: &Vec<Vec<u8>>) -> (r: i32)
    requires
        crate::judge::z_string(path@),
        forall|i: int| 0 <= i < argv@.len() ==> crate::judge::z_string(argv@[i]@),
        forall|i: int| 0 <= i < envp@.len() ==> crate::judge::z_string(envp@[i]@),
{
    let path_c = core::ffi::CStr::from_bytes_with_nul(path.as_slice()).unwrap();
    let argv_c: Vec<&core::ffi::CStr> = argv
        .iter()
        .map(|a| core::ffi::CStr::from_bytes_with_nul(a.as_slice()).unwrap())
        .collect();
    let envp_c: Vec<&core::ffi::CStr> = envp
        .iter()
        .map(|e| core::ffi::CStr::from_bytes_with_nul(e.as_slice()).unwrap())
        .collect();
    match nix::unistd::execve(path_c, &argv_c, &envp_c) {
        Ok(_) => 0,
        Err(e) => e as i32,
    }
}

/// Relies on nix::sys::signal::raise with SIGUSR1: reports a setup failure
/// to the supervisor by terminating this process with the distinguished
/// signal (SIGUSR1's default disposition is termination).
#[verifier::external_body]
pub(crate) fn raise_setup_failure() -> Result<(), i32> {
    match nix::sys::signal::raise(nix::sys::signal::Signal::SIGUSR1) {
        Ok(()) => Ok(()),
        Err(e) => Err(e as i32),
    }
}

/// Relies on nix::sys::signal::Signal: the numeric value of SIGUSR1, the
/// signal that marks a setup failure.
#[verifier::external_body]
pub(crate) fn setup_failure_signal() -> i32 {
    nix::sys::signal::Signal::SIGUSR1 as i32
}

/// Relies on nix::sys::signal::kill with SIGKILL: forcibly terminates the
/// process with the given id.
#[verifier::external_body]
pub(crate) fn kill_process(pid: i32) -> Result<(), i32> {
    match nix::sys::signal::kill(
        nix::unistd::Pid::from_raw(pid),
        nix::sys::signal::Signal::SIGKILL,
    ) {
        Ok(()) => Ok(()),
        Err(e) => Err(e as i32),
    }
}

/// Relies on nix::sys::wait::waitpid with WUNTRACED: blocks until the child
/// exits, is killed by a signal, or is stopped, and reports which, with the
/// exit status byte or the signal number. A normal exit carries
/// WEXITSTATUS, the low 8 bits of the exit status, so it lies in 0..=255.
/// A report of a still-running or ptrace-related state is mapped to `None`.
#[verifier::external_body]
pub(crate) fn wait_child_blocking(pid: i32) -> (r: Result<Option<ChildOutcome>, i32>)
    ensures
        r matches Ok(Some(ChildOutcome::Exited(code))) ==> 0 <= code && code <= 255,
{
    match nix::sys::wait::waitpid(
        nix::unistd::Pid::from_raw(pid),
        Some(nix::sys::wait::WaitPidFlag::WUNTRACED),
    ) {
        Ok(nix::sys::wait::WaitStatus::Exited(_, code)) => Ok(Some(ChildOutcome::Exited(code))),
        Ok(nix::sys::wait::WaitStatus::Signaled(_, sig, _)) => Ok(
            Some(ChildOutcome::Signaled(sig as i32)),
        ),
        Ok(nix::sys::wait::WaitStatus::Stopped(_, sig)) => Ok(
            Some(ChildOutcome::Stopped(sig as i32)),
        ),
        Ok(_) => Ok(None),
        Err(e) => Err(e as i32),
    }
}

/// Relies on nix::sys::wait::waitpid with WNOHANG | WUNTRACED: like
/// `wait_child_blocking` but returns `None` at once while the child runs on.
#[verifier::external_body]
pub(crate) fn wait_child_nohang(pid: i32) -> (r: Result<Option<ChildOutcome>, i32>)
    ensures
        r matches Ok(Some(ChildOutcome::Exited(code))) ==> 0 <= code && code <= 255,
{
    match nix::sys::wait::waitpid(
        nix::unistd::Pid::from_raw(pid),
        Some(nix::sys::wait::WaitPidFlag::WNOHANG.union(nix::sys::wait::WaitPidFlag::WUNTRACED)),
    ) {
        Ok(nix::sys::wait::WaitStatus::Exited(_, code)) => Ok(Some(ChildOutcome::Exited(code))),
        Ok(nix::sys::wait::WaitStatus::Signaled(_, sig, _)) => Ok(
            Some(ChildOutcome::Signaled(sig as i32)),
        ),
        Ok(nix::sys::wait::WaitStatus::Stopped(_, sig)) => Ok(
            Some(ChildOutcome::Stopped(sig as i32)),
        ),
        Ok(_) => Ok(None),
        Err(e) => Err(e as i32),
    }
}

/// Relies on nix::sys::resource::getrusage with RUSAGE_CHILDREN: the user
/// CPU time (seconds, microseconds) and peak resident set size (kilobytes)
/// of the waited-for children.
#[verifier::external_body]
pub(crate) fn child_resource_usage() -> Result<(i64, i64, i64), i32> {
    match nix::sys::resource::getrusage(nix::sys::resource::UsageWho::RUSAGE_CHILDREN) {
        Ok(usage) => Ok(
            (usage.user_time().tv_sec(), usage.user_time().tv_usec(), usage.max_rss()),
        ),
        Err(e) => Err(e as i32),
    }
}

/// Relies on nix::time::clock_gettime with CLOCK_MONOTONIC: a monotonic
/// clock reading as (seconds, nanoseconds).
#[verifier::external_body]
pub(crate) fn monotonic_time() -> Result<(i64, i64), i32> {
    match nix::time::clock_gettime(nix::time::ClockId::CLOCK_MONOTONIC) {
        Ok(ts) => Ok((ts.tv_sec(), ts.tv_nsec())),
        Err(e) => Err(e as i32),
    }
}

/// Relies on nix::time::clock_nanosleep on CLOCK_MONOTONIC: sleeps for
/// about the given duration (less if interrupted).
#[verifier::external_body]
pub(crate) fn sleep_timespec(sec: i64, nsec: i64) {
    let request = nix::sys::time::TimeSpec::new(sec, nsec);
    let _ = nix::time::clock_nanosleep(
        nix::time::ClockId::CLOCK_MONOTONIC,
        nix::time::ClockNanosleepFlags::empty(),
        &request,
    );
}

/// Relies on clap's builder interface: reads the single positional command
/// line argument, the configuration file's path. The result depends on how
/// the process was invoked, so nothing more is stated.
#[verifier::external_body]
pub(crate) fn parse_config_path_argument() -> Option<String> {
    let matches = clap::Command::new("krocore")
        .arg(clap::Arg::new("config_json_path").required(true))
        .try_get_matches()
        .ok()?;
    matches.get_one::<String>("config_json_path").cloned()
}

} // verus!
