//! Supervised execution: the child-side sandbox setup sequence, the
//! parent-side supervision with wall-clock watchdog, and the verdict
//! classifier.

use vstd::prelude::*;
use vstd::utf8::encode_utf8;

use crate::data::{Config, JudgeResult, JudgeState, LanguageType};
use crate::error::Error;
use crate::sys;

verus! {

// ---------------------------------------------------------------------------
// Units: the kernel reports timevals (seconds, microseconds), clock readings
// (seconds, nanoseconds) and peak resident set sizes (kilobytes); verdicts
// speak milliseconds and bytes.
// ---------------------------------------------------------------------------

/// A possibly out-of-range mathematical value forced into `u64`.
pub open spec fn clamped_u64(v: int) -> u64 {
    if v < 0 {
        0u64
    } else if v > u64::MAX {
        u64::MAX
    } else {
        v as u64
    }
}

/// Milliseconds denoted by a (seconds, microseconds) resource-usage pair.
pub open spec fn ms_of_timeval(sec: int, usec: int) -> u64 {
    if sec < 0 || usec < 0 {
        0u64
    } else {
        clamped_u64(sec * 1000 + usec / 1000)
    }
}

/// Milliseconds denoted by a (seconds, nanoseconds) clock reading.
pub open spec fn ms_of_timespec(sec: int, nsec: int) -> u64 {
    if sec < 0 || nsec < 0 {
        0u64
    } else {
        clamped_u64(sec * 1000 + nsec / 1000000)
    }
}

/// Bytes denoted by a peak-resident-set figure in kilobytes.
pub open spec fn bytes_of_kilobytes(kb: int) -> u64 {
    if kb < 0 {
        0u64
    } else {
        clamped_u64(kb * 1024)
    }
}

pub fn cpu_time_ms(sec: i64, usec: i64) -> (r: u64)
    ensures
        r == ms_of_timeval(sec as int, usec as int),
{
    if sec < 0 || usec < 0 {
        return 0;
    }
    let total: i128 = (sec as i128) * 1000 + (usec as i128) / 1000;
    if total > u64::MAX as i128 {
        u64::MAX
    } else {
        total as u64
    }
}

pub fn real_time_of_clock(sec: i64, nsec: i64) -> (r: u64)
    ensures
        r == ms_of_timespec(sec as int, nsec as int),
{
    if sec < 0 || nsec < 0 {
        return 0;
    }
    let total: i128 = (sec as i128) * 1000 + (nsec as i128) / 1000000;
    if total > u64::MAX as i128 {
        u64::MAX
    } else {
        total as u64
    }
}

pub fn memory_bytes(kb: i64) -> (r: u64)
    ensures
        r == bytes_of_kilobytes(kb as int),
{
    if kb < 0 {
        return 0;
    }
    let total: i128 = (kb as i128) * 1024;
    if total > u64::MAX as i128 {
        u64::MAX
    } else {
        total as u64
    }
}

// ---------------------------------------------------------------------------
// Child termination and the verdict classifier.
// ---------------------------------------------------------------------------

/// How the child left the run queue: a normal exit with its status byte, a
/// terminating signal, or a stop signal (the judge treats a stopped child as
/// a failure, not as suspended forever).
#[derive(Debug, PartialEq, Eq, Structural, Clone, Copy)]
pub enum ChildOutcome {
    Exited(i32),
    Signaled(i32),
    Stopped(i32),
}

/// The exit code a verdict reports: the status byte of a normal exit,
/// 0 for any signal-terminated or stopped child.
pub open spec fn exit_code_of(o: ChildOutcome) -> i32 {
    match o {
        ChildOutcome::Exited(c) => c,
        ChildOutcome::Signaled(_) => 0,
        ChildOutcome::Stopped(_) => 0,
    }
}

/// Whether the outcome is anything but a normal exit.
pub open spec fn is_abnormal(o: ChildOutcome) -> bool {
    !(o is Exited)
}

/// The verdict classification: a pure function of the termination report,
/// the measured consumption, and the configured limits.
///
/// Priority: a reported setup failure is a `SystemError` outright. Otherwise
/// a signal or a non-zero exit begins as `RuntimeError`, and the limit checks
/// override it in the order memory, real time, CPU time — each overriding the
/// previous, so a CPU-time breach wins over a real-time breach, which wins
/// over a memory breach. A clean exit within all limits is `Accepted`.
///
/// `cpu_limit` is in seconds while `cpu_time` is in milliseconds, hence the
/// factor 1000; the other pairs share their units.
pub open spec fn classify(
    setup_failure: bool,
    abnormal: bool,
    exit_code: i32,
    cpu_time: u64,
    real_time: u64,
    memory: u64,
    cpu_limit: Option<u64>,
    real_limit: Option<u64>,
    mem_limit: Option<u64>,
) -> JudgeState {
    if setup_failure {
        JudgeState::SystemError
    } else if cpu_limit matches Some(t) && cpu_time > t * 1000 {
        JudgeState::CpuTimeLimitExceeded
    } else if real_limit matches Some(l) && real_time > l {
        JudgeState::RealTimeLimitExceeded
    } else if mem_limit matches Some(m) && memory > m {
        JudgeState::MemoryLimitExceeded
    } else if abnormal || exit_code != 0 {
        JudgeState::RuntimeError
    } else {
        JudgeState::Accepted
    }
}

fn classify_exec(
    setup_failure: bool,
    abnormal: bool,
    exit_code: i32,
    cpu_time: u64,
    real_time: u64,
    memory: u64,
    cpu_limit: Option<u64>,
    real_limit: Option<u64>,
    mem_limit: Option<u64>,
) -> (s: JudgeState)
    ensures
        s == classify(
            setup_failure,
            abnormal,
            exit_code,
            cpu_time,
            real_time,
            memory,
            cpu_limit,
            real_limit,
            mem_limit,
        ),
{
    if setup_failure {
        return JudgeState::SystemError;
    }
    if let Some(t) = cpu_limit {
        if t <= u64::MAX / 1000 && cpu_time > t * 1000 {
            return JudgeState::CpuTimeLimitExceeded;
        }
        proof {
            if t > u64::MAX as u64 / 1000 {
                assert(t * 1000 > u64::MAX) by (nonlinear_arith)
                    requires
                        t > u64::MAX as u64 / 1000,
                ;
            }
        }
    }
    if let Some(l) = real_limit {
        if real_time > l {
            return JudgeState::RealTimeLimitExceeded;
        }
    }
    if let Some(m) = mem_limit {
        if memory > m {
            return JudgeState::MemoryLimitExceeded;
        }
    }
    if abnormal || exit_code != 0 {
        return JudgeState::RuntimeError;
    }
    JudgeState::Accepted
}

/// Builds the verdict record from the raw termination report and kernel
/// accounting: unit conversions plus the classification, nothing else.
pub fn build_result(
    outcome: ChildOutcome,
    setup_failure: bool,
    utime_sec: i64,
    utime_usec: i64,
    maxrss_kb: i64,
    real_time: u64,
    config: &Config,
) -> (jr: JudgeResult)
    ensures
        jr.cpu_time == ms_of_timeval(utime_sec as int, utime_usec as int),
        jr.real_time == real_time,
        jr.memory == bytes_of_kilobytes(maxrss_kb as int),
        jr.exit_code == exit_code_of(outcome),
        jr.state == classify(
            setup_failure,
            is_abnormal(outcome),
            exit_code_of(outcome),
            jr.cpu_time,
            real_time,
            jr.memory,
            config.cpu_time_limit,
            config.real_time_limit,
            config.memory_limit,
        ),
{
    let cpu_time = cpu_time_ms(utime_sec, utime_usec);
    let memory = memory_bytes(maxrss_kb);
    let (abnormal, exit_code) = match outcome {
        ChildOutcome::Exited(c) => (false, c),
        ChildOutcome::Signaled(_) => (true, 0),
        ChildOutcome::Stopped(_) => (true, 0),
    };
    let state = classify_exec(
        setup_failure,
        abnormal,
        exit_code,
        cpu_time,
        real_time,
        memory,
        config.cpu_time_limit,
        config.real_time_limit,
        config.memory_limit,
    );
    JudgeResult { cpu_time, real_time, memory, state, exit_code }
}

// ---------------------------------------------------------------------------
// Laws of the classifier.
// ---------------------------------------------------------------------------

/// The verdict is a pure function of the termination report, the resource
/// accounting and the configured limits: equal inputs classify equally.
pub proof fn lemma_classification_deterministic(
    setup1: bool,
    abn1: bool,
    ec1: i32,
    cpu1: u64,
    real1: u64,
    mem1: u64,
    cl1: Option<u64>,
    rl1: Option<u64>,
    ml1: Option<u64>,
    setup2: bool,
    abn2: bool,
    ec2: i32,
    cpu2: u64,
    real2: u64,
    mem2: u64,
    cl2: Option<u64>,
    rl2: Option<u64>,
    ml2: Option<u64>,
)
    requires
        setup1 == setup2,
        abn1 == abn2,
        ec1 == ec2,
        cpu1 == cpu2,
        real1 == real2,
        mem1 == mem2,
        cl1 == cl2,
        rl1 == rl2,
        ml1 == ml2,
    ensures
        classify(setup1, abn1, ec1, cpu1, real1, mem1, cl1, rl1, ml1) == classify(
            setup2,
            abn2,
            ec2,
            cpu2,
            real2,
            mem2,
            cl2,
            rl2,
            ml2,
        ),
{
}

/// A run that consumed more address space than a configured memory limit is
/// never accepted, however it terminated.
pub proof fn lemma_memory_breach_not_accepted(
    setup_failure: bool,
    abnormal: bool,
    exit_code: i32,
    cpu_time: u64,
    real_time: u64,
    memory: u64,
    cpu_limit: Option<u64>,
    real_limit: Option<u64>,
    mem_limit: u64,
)
    requires
        memory > mem_limit,
    ensures
        classify(
            setup_failure,
            abnormal,
            exit_code,
            cpu_time,
            real_time,
            memory,
            cpu_limit,
            real_limit,
            Some(mem_limit),
        ) != JudgeState::Accepted,
{
}

/// A run whose CPU time exceeds a configured CPU limit of `t` seconds is
/// classified `CpuTimeLimitExceeded`, unless the child reported a setup
/// failure: the CPU check is the strongest override.
pub proof fn lemma_cpu_breach_classified(
    abnormal: bool,
    exit_code: i32,
    cpu_time: u64,
    real_time: u64,
    memory: u64,
    cpu_limit: u64,
    real_limit: Option<u64>,
    mem_limit: Option<u64>,
)
    requires
        cpu_time > cpu_limit * 1000,
    ensures
        classify(
            false,
            abnormal,
            exit_code,
            cpu_time,
            real_time,
            memory,
            Some(cpu_limit),
            real_limit,
            mem_limit,
        ) == JudgeState::CpuTimeLimitExceeded,
{
}

/// A run that outlived a configured real-time limit without also breaching
/// a CPU limit is classified `RealTimeLimitExceeded` (a sleeping child
/// killed by the watchdog lands here), unless it reported a setup failure.
pub proof fn lemma_real_time_breach_classified(
    abnormal: bool,
    exit_code: i32,
    cpu_time: u64,
    real_time: u64,
    memory: u64,
    cpu_limit: Option<u64>,
    real_limit: u64,
    mem_limit: Option<u64>,
)
    requires
        real_time > real_limit,
        cpu_limit matches Some(t) ==> cpu_time <= t * 1000,
    ensures
        classify(
            false,
            abnormal,
            exit_code,
            cpu_time,
            real_time,
            memory,
            cpu_limit,
            Some(real_limit),
            mem_limit,
        ) == JudgeState::RealTimeLimitExceeded,
{
}

/// Every verdict's state is consistent with its own measurements and the
/// configured limits: an accepting verdict implies a clean exit within every
/// limit, and each limit verdict implies that limit was configured and
/// breached.
pub open spec fn verdict_consistent(
    jr: JudgeResult,
    cpu_limit: Option<u64>,
    real_limit: Option<u64>,
    mem_limit: Option<u64>,
) -> bool {
    &&& jr.state == JudgeState::Accepted ==> {
        &&& jr.exit_code == 0
        &&& (cpu_limit matches Some(t) ==> jr.cpu_time <= t * 1000)
        &&& (real_limit matches Some(l) ==> jr.real_time <= l)
        &&& (mem_limit matches Some(m) ==> jr.memory <= m)
    }
    &&& jr.state == JudgeState::CpuTimeLimitExceeded ==> (cpu_limit matches Some(t)
        && jr.cpu_time > t * 1000)
    &&& jr.state == JudgeState::RealTimeLimitExceeded ==> (real_limit matches Some(l)
        && jr.real_time > l)
    &&& jr.state == JudgeState::MemoryLimitExceeded ==> (mem_limit matches Some(m)
        && jr.memory > m)
}

/// Whatever the classifier's inputs were, the verdict it produces is
/// consistent in the sense of `verdict_consistent`.
pub proof fn lemma_classify_consistent(
    setup_failure: bool,
    abnormal: bool,
    exit_code: i32,
    cpu_time: u64,
    real_time: u64,
    memory: u64,
    cpu_limit: Option<u64>,
    real_limit: Option<u64>,
    mem_limit: Option<u64>,
    jr: JudgeResult,
)
    requires
        jr.cpu_time == cpu_time,
        jr.real_time == real_time,
        jr.memory == memory,
        jr.exit_code == exit_code,
        jr.state == classify(
            setup_failure,
            abnormal,
            exit_code,
            cpu_time,
            real_time,
            memory,
            cpu_limit,
            real_limit,
            mem_limit,
        ),
    ensures
        verdict_consistent(jr, cpu_limit, real_limit, mem_limit),
{
}

/// A child that exits cleanly with status 0 within every configured limit is
/// accepted, and an accepted verdict carries exit code 0.
pub proof fn lemma_clean_run_accepted(
    outcome: ChildOutcome,
    cpu_time: u64,
    real_time: u64,
    memory: u64,
    cpu_limit: Option<u64>,
    real_limit: Option<u64>,
    mem_limit: Option<u64>,
)
    requires
        outcome == ChildOutcome::Exited(0i32),
        cpu_limit matches Some(t) ==> cpu_time <= t * 1000,
        real_limit matches Some(l) ==> real_time <= l,
        mem_limit matches Some(m) ==> memory <= m,
    ensures
        classify(
            false,
            is_abnormal(outcome),
            exit_code_of(outcome),
            cpu_time,
            real_time,
            memory,
            cpu_limit,
            real_limit,
            mem_limit,
        ) == JudgeState::Accepted,
        exit_code_of(outcome) == 0,
{
}

// ---------------------------------------------------------------------------
// Preflight.
// ---------------------------------------------------------------------------

/// Refuses every caller but uid 0: judging requires near-kernel-maximum
/// rlimits, setuid and opens in arbitrary places, and a half-configured
/// sandbox is strictly worse than none.
pub fn check_root(uid: u32) -> (r: Result<(), Error>)
    ensures
        r is Ok <==> uid == 0,
        r is Err ==> r == Err::<(), Error>(Error::PermissionDenied),
{
    if uid == 0 {
        Ok(())
    } else {
        Err(Error::PermissionDenied)
    }
}

/// Preflight of one judging run: fails fast with `PermissionDenied` unless
/// the effective user is root. Nothing is spawned before this passes.
pub fn preflight() -> (r: Result<(), Error>)
    ensures
        r is Err ==> r == Err::<(), Error>(Error::PermissionDenied),
{
    check_root(sys::effective_uid())
}

// ---------------------------------------------------------------------------
// Child side: limits, redirections, privilege drop, exec — in that order.
// ---------------------------------------------------------------------------

/// Kernel resources the sandbox limits before the program takes over.
#[derive(Debug, PartialEq, Eq, Structural, Clone, Copy)]
pub enum LimitKind {
    Stack,
    AddressSpace,
    OutputSize,
    CpuTime,
}

/// A NUL-terminated byte string without interior NUL bytes.
pub open spec fn z_string(v: Seq<u8>) -> bool {
    &&& v.len() > 0
    &&& v.last() == 0u8
    &&& forall|i: int| 0 <= i < v.len() - 1 ==> v[i] != 0u8
}

/// The UTF-8 bytes of the string with a trailing NUL appended; succeeds
/// exactly when the string has no interior NUL byte, so the result is
/// always a valid C string.
pub fn nul_terminated(s: &String) -> (r: Result<Vec<u8>, Error>)
    ensures
        r matches Ok(v) ==> v@ == encode_utf8(s@).push(0u8) && z_string(v@),
        r is Err <==> encode_utf8(s@).contains(0u8),
        r is Err ==> r matches Err(Error::Message(_)),
{
    let bytes = s.as_str().as_bytes();
    let mut v: Vec<u8> = Vec::new();
    let mut i: usize = 0;
    while i < bytes.len()
        invariant
            i <= bytes@.len(),
            v@ == bytes@.take(i as int),
            forall|j: int| 0 <= j < i ==> bytes@[j] != 0u8,
            bytes@ == encode_utf8(s@),
        decreases bytes@.len() - i,
    {
        if bytes[i] == 0 {
            proof {
                assert(encode_utf8(s@)[i as int] == 0u8);
            }
            return Err(Error::Message("string contains an interior NUL byte".to_owned()));
        }
        v.push(bytes[i]);
        i = i + 1;
    }
    v.push(0);
    proof {
        assert(bytes@.take(bytes@.len() as int) =~= bytes@);
        assert(v@ =~= encode_utf8(s@).push(0u8));
        assert(!encode_utf8(s@).contains(0u8));
    }
    Ok(v)
}

/// argv for the exec step: the executable's path followed by the argument
/// list in order, each rendered as a NUL-terminated byte string. Fails
/// exactly when one of them holds an interior NUL byte.
fn build_argv(exe: &String, args: &Vec<String>) -> (r: Result<Vec<Vec<u8>>, Error>)
    ensures
        r matches Ok(v) ==> {
            &&& v@.len() == args@.len() + 1
            &&& v@[0]@ == encode_utf8(exe@).push(0u8)
            &&& forall|k: int|
                1 <= k < v@.len() ==> (#[trigger] v@[k])@ == encode_utf8(args@[k - 1]@).push(0u8)
            &&& forall|k: int| 0 <= k < v@.len() ==> z_string((#[trigger] v@[k])@)
        },
        r is Err <==> (encode_utf8(exe@).contains(0u8) || exists|k: int|
            0 <= k < args@.len() && encode_utf8((#[trigger] args@[k])@).contains(0u8)),
        r matches Err(e) ==> e matches Error::Message(_),
{
    let mut v: Vec<Vec<u8>> = Vec::new();
    match nul_terminated(exe) {
        Ok(z) => v.push(z),
        Err(e) => return Err(e),
    }
    let mut i: usize = 0;
    while i < args.len()
        invariant
            i <= args@.len(),
            v@.len() == i + 1,
            v@[0]@ == encode_utf8(exe@).push(0u8),
            !encode_utf8(exe@).contains(0u8),
            forall|k: int|
                1 <= k < v@.len() ==> (#[trigger] v@[k])@ == encode_utf8(args@[k - 1]@).push(0u8),
            forall|k: int| 0 <= k < v@.len() ==> z_string((#[trigger] v@[k])@),
            forall|k: int| 0 <= k < i ==> !encode_utf8((#[trigger] args@[k])@).contains(0u8),
        decreases args@.len() - i,
    {
        match nul_terminated(&args[i]) {
            Ok(z) => v.push(z),
            Err(e) => {
                proof {
                    assert(encode_utf8((args@[i as int])@).contains(0u8));
                }
                return Err(e);
            },
        }
        i = i + 1;
    }
    Ok(v)
}

/// The environment for the exec step: exactly the configured `KEY=VALUE`
/// strings in order, each rendered as a NUL-terminated byte string —
/// nothing is inherited. Fails exactly when one of them holds an interior
/// NUL byte.
fn build_env(env: &Vec<String>) -> (r: Result<Vec<Vec<u8>>, Error>)
    ensures
        r matches Ok(v) ==> {
            &&& v@.len() == env@.len()
            &&& forall|k: int|
                0 <= k < v@.len() ==> (#[trigger] v@[k])@ == encode_utf8(env@[k]@).push(0u8)
            &&& forall|k: int| 0 <= k < v@.len() ==> z_string((#[trigger] v@[k])@)
        },
        r is Err <==> exists|k: int|
            0 <= k < env@.len() && encode_utf8((#[trigger] env@[k])@).contains(0u8),
        r matches Err(e) ==> e matches Error::Message(_),
{
    let mut v: Vec<Vec<u8>> = Vec::new();
    let mut i: usize = 0;
    while i < env.len()
        invariant
            i <= env@.len(),
            v@.len() == i as int,
            forall|k: int|
                0 <= k < v@.len() ==> (#[trigger] v@[k])@ == encode_utf8(env@[k]@).push(0u8),
            forall|k: int| 0 <= k < v@.len() ==> z_string((#[trigger] v@[k])@),
            forall|k: int| 0 <= k < i ==> !encode_utf8((#[trigger] env@[k])@).contains(0u8),
        decreases env@.len() - i,
    {
        match nul_terminated(&env[i]) {
            Ok(z) => v.push(z),
            Err(e) => {
                proof {
                    assert(encode_utf8((env@[i as int])@).contains(0u8));
                }
                return Err(e);
            },
        }
        i = i + 1;
    }
    Ok(v)
}

/// Reports a setup failure to the supervisor by raising the distinguished
/// signal (which terminates this process), then surfaces the error for the
/// case the signal could not be raised.
fn fail_child(e: Error) -> (r: Result<(), Error>)
    ensures
        r == Err::<(), Error>(e),
{
    let _ = sys::raise_setup_failure();
    Err(e)
}

/// The child side of the bifurcation: applies resource limits, rebinds the
/// three standard streams, drops privileges (gid, then supplementary groups,
/// then uid), and replaces the image with the configured program — in that
/// fixed order. On a successful exec the call never returns; so every
/// return is an `Err`, and the failure has then already been reported
/// through the setup-failure signal — user code never runs in a partially
/// configured sandbox, and the child never returns into shared code.
pub fn child_process(config: &Config) -> (r: Result<(), Error>)
    ensures
        r is Err,
        r matches Err(e) ==> (e matches Error::KernelError(_) || e matches Error::Message(_)),
{
    // Step 1: kernel limits, before redirection, so that descriptors opened
    // during redirection are already governed by them.
    if let Some(limit) = config.stack_limit {
        if let Err(en) = sys::set_rlimit(LimitKind::Stack, limit) {
            return fail_child(Error::KernelError(en));
        }
    }
    if let Some(limit) = config.memory_limit {
        if let Err(en) = sys::set_rlimit(LimitKind::AddressSpace, limit) {
            return fail_child(Error::KernelError(en));
        }
    }
    if let Some(limit) = config.output_size_limit {
        if let Err(en) = sys::set_rlimit(LimitKind::OutputSize, limit) {
            return fail_child(Error::KernelError(en));
        }
    }
    if let Some(limit) = config.cpu_time_limit {
        if let Err(en) = sys::set_rlimit(LimitKind::CpuTime, limit) {
            return fail_child(Error::KernelError(en));
        }
    }
    // Step 2: standard streams — input first (read-only, safe to retry),
    // so a missing input never truncates an output file.
    match sys::open_read(&config.input_file_path) {
        Err(_) => return fail_child(Error::Message("Failed to open input file.".to_owned())),
        Ok(fd) => {
            if sys::dup2_fd(fd, 0).is_err() {
                return fail_child(
                    Error::Message("Failed to redirect input file to stdin.".to_owned()),
                );
            }
        },
    }
    match sys::open_write_truncate(&config.output_file_path) {
        Err(_) => return fail_child(Error::Message("Failed to open output file.".to_owned())),
        Ok(fd) => {
            if sys::dup2_fd(fd, 1).is_err() {
                return fail_child(
                    Error::Message("Failed to redirect output file to stdout.".to_owned()),
                );
            }
        },
    }
    match sys::open_write_truncate(&config.error_file_path) {
        Err(_) => return fail_child(Error::Message("Failed to open error file.".to_owned())),
        Ok(fd) => {
            if sys::dup2_fd(fd, 2).is_err() {
                return fail_child(
                    Error::Message("Failed to redirect error file to stderr.".to_owned()),
                );
            }
        },
    }
    // Step 3: privilege drop. Order is load-bearing: after setuid to a
    // non-zero id, supplementary-group manipulation would fail, so the gid
    // and the supplementary set come first. A setgid refusal is tolerated
    // only when the process already runs under that gid.
    if let Some(gid) = config.gid {
        if let Err(en) = sys::set_gid(gid) {
            if sys::current_gid() != gid {
                return fail_child(Error::KernelError(en));
            }
        }
        if let Err(en) = sys::set_groups_one(gid) {
            return fail_child(Error::KernelError(en));
        }
    }
    if let Some(uid) = config.uid {
        if let Err(en) = sys::set_uid(uid) {
            return fail_child(Error::KernelError(en));
        }
    }
    // Step 4: exec. Both recognized languages are compiled binaries invoked
    // directly: argv is [exe_file_path, args...], the environment is `env`
    // verbatim with no inheritance.
    match config.lang {
        LanguageType::C => {},
        LanguageType::Cpp => {},
    }
    let exe_z = match nul_terminated(&config.exe_file_path) {
        Ok(v) => v,
        Err(e) => return fail_child(e),
    };
    let argv = match build_argv(&config.exe_file_path, &config.args) {
        Ok(v) => v,
        Err(e) => return fail_child(e),
    };
    let envp = match build_env(&config.env) {
        Ok(v) => v,
        Err(e) => return fail_child(e),
    };
    let en = sys::exec_program(&exe_z, &argv, &envp);
    fail_child(Error::KernelError(en))
}

// ---------------------------------------------------------------------------
// Parent side: watchdog, reaper, verdict.
// ---------------------------------------------------------------------------

/// How long the supervisor sleeps between child polls while a wall-clock
/// deadline is armed, in nanoseconds (one millisecond).
const POLL_INTERVAL_NSEC: i64 = 1000000;

/// The verdict that reports a supervision failure: nothing measured, state
/// `SystemError`.
fn supervision_failure_verdict(real_time: u64) -> (jr: JudgeResult)
    ensures
        jr.state == JudgeState::SystemError,
        jr.cpu_time == 0 && jr.memory == 0 && jr.exit_code == 0,
        jr.real_time == real_time,
{
    JudgeResult { cpu_time: 0, real_time, memory: 0, state: JudgeState::SystemError, exit_code: 0 }
}

/// The instant the wall-clock watchdog fires: the supervision's start plus
/// the configured limit, saturating at the clock's range.
pub open spec fn watchdog_deadline(start_ms: u64, limit: u64) -> u64 {
    clamped_u64(start_ms as int + limit as int)
}

/// The watchdog's one decision: whether the wall clock has reached the
/// deadline, so the child is to be killed.
fn past_deadline(now: u64, start_ms: u64, limit: u64) -> (r: bool)
    ensures
        r == (now >= watchdog_deadline(start_ms, limit)),
{
    let deadline: u64 = if start_ms <= u64::MAX - limit {
        start_ms + limit
    } else {
        u64::MAX
    };
    now >= deadline
}

/// Waits for the child to leave the run queue. With no wall-clock limit the
/// wait blocks in the kernel; with one, the supervisor polls, and once the
/// deadline has passed it sends SIGKILL on every further round until the
/// child dies — a kill racing a child that just exited is harmless, the
/// reap converges regardless.
fn await_child(child_pid: i32, real_time_limit: Option<u64>, start_ms: u64) -> (r: Result<
    ChildOutcome,
    i32,
>) {
    match real_time_limit {
        None => {
            match sys::wait_child_blocking(child_pid) {
                Err(en) => Err(en),
                Ok(Some(outcome)) => Ok(outcome),
                Ok(None) => Err(0),
            }
        },
        Some(limit) => {
            // Far more polling rounds than the deadline could ever need; if
            // they are somehow exhausted, fall through to an unconditional
            // kill and a blocking reap.
            let poll_cap: u64 = if limit <= (u64::MAX - 60000) / 10 {
                limit * 10 + 60000
            } else {
                u64::MAX
            };
            let mut polls: u64 = 0;
            while polls < poll_cap
                decreases poll_cap - polls,
            {
                match sys::wait_child_nohang(child_pid) {
                    Err(en) => return Err(en),
                    Ok(Some(outcome)) => return Ok(outcome),
                    Ok(None) => {
                        let now = match sys::monotonic_time() {
                            Ok((sec, nsec)) => real_time_of_clock(sec, nsec),
                            Err(en) => return Err(en),
                        };
                        if past_deadline(now, start_ms, limit) {
                            let _ = sys::kill_process(child_pid);
                        }
                        sys::sleep_timespec(0, POLL_INTERVAL_NSEC);
                    },
                }
                polls = polls + 1;
            }
            let _ = sys::kill_process(child_pid);
            match sys::wait_child_blocking(child_pid) {
                Err(en) => Err(en),
                Ok(Some(outcome)) => Ok(outcome),
                Ok(None) => Err(0),
            }
        },
    }
}

/// The supervisor: starts the wall clock, waits for the child under the
/// optional wall-clock watchdog, harvests kernel accounting, and classifies
/// the outcome. The child is already running here, so every supervision
/// failure — clock, wait or accounting — is folded into the verdict as
/// `SystemError` after a cleanup kill, and a verdict is always produced.
pub fn parent_process(config: &Config, child_pid: i32) -> (r: Result<JudgeResult, Error>)
    ensures
        r is Ok,
        r matches Ok(jr) ==> verdict_consistent(
            jr,
            config.cpu_time_limit,
            config.real_time_limit,
            config.memory_limit,
        ),
{
    let start_ms = match sys::monotonic_time() {
        Ok((sec, nsec)) => real_time_of_clock(sec, nsec),
        Err(_) => {
            let _ = sys::kill_process(child_pid);
            return Ok(supervision_failure_verdict(0));
        },
    };
    let outcome = match await_child(child_pid, config.real_time_limit, start_ms) {
        Ok(o) => o,
        Err(_) => {
            let _ = sys::kill_process(child_pid);
            return Ok(supervision_failure_verdict(0));
        },
    };
    let end_ms = match sys::monotonic_time() {
        Ok((sec, nsec)) => real_time_of_clock(sec, nsec),
        Err(_) => start_ms,
    };
    let real_time = if end_ms >= start_ms {
        end_ms - start_ms
    } else {
        0
    };
    // A stopped child still exists: kill and reap it so nothing lingers,
    // then judge the stop as a failure.
    if let ChildOutcome::Stopped(_) = outcome {
        let _ = sys::kill_process(child_pid);
        let _ = sys::wait_child_blocking(child_pid);
    }
    let (utime_sec, utime_usec, maxrss_kb) = match sys::child_resource_usage() {
        Ok(u) => u,
        Err(_) => {
            let _ = sys::kill_process(child_pid);
            return Ok(supervision_failure_verdict(real_time));
        },
    };
    let setup_failure = match outcome {
        ChildOutcome::Signaled(sig) => sig == sys::setup_failure_signal(),
        ChildOutcome::Stopped(_) => false,
        ChildOutcome::Exited(_) => false,
    };
    let jr = build_result(
        outcome,
        setup_failure,
        utime_sec,
        utime_usec,
        maxrss_kb,
        real_time,
        config,
    );
    proof {
        lemma_classify_consistent(
            setup_failure,
            is_abnormal(outcome),
            exit_code_of(outcome),
            jr.cpu_time,
            real_time,
            jr.memory,
            config.cpu_time_limit,
            config.real_time_limit,
            config.memory_limit,
            jr,
        );
    }
    Ok(jr)
}

} // verus!
