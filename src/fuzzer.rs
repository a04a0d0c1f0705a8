use crate::corpus::Testcase;
use crate::error::Error;
use crate::testcase_score::PowerSchedule;
use vstd::prelude::*;
use vstd::string::StringExecFns;

verus! {

/// Smallest input the fuzzer will produce, unless configured otherwise.
pub const AFL_DEFAULT_INPUT_LEN_MIN: usize = 1;

/// Largest input the fuzzer will produce, unless configured otherwise.
pub const AFL_DEFAULT_INPUT_LEN_MAX: usize = 1048576;

/// The options that the fuzzing core reads.
#[derive(Clone, Debug)]
pub struct Opt {
    pub unicorn_mode: bool,
    pub qemu_mode: bool,
    pub forkserver_cs: bool,
    pub no_forkserver: bool,
    pub crash_mode: bool,
    pub non_instrumented_mode: bool,
    pub is_persistent: bool,
    pub defer_forkserver: bool,
    pub ignore_timeouts: bool,
    pub cmplog_only_new: bool,
    pub debug_child: bool,
    /// The power schedule; `None` means `Explore`.
    pub power_schedule: Option<PowerSchedule>,
    /// Switch the power schedule each time the corpus has been cycled through.
    pub cycle_schedules: bool,
    /// Milliseconds a run may take before it counts as a hang.
    pub hang_timeout: u64,
    pub map_size: usize,
    pub kill_signal: i32,
    pub min_input_len: Option<usize>,
    pub max_input_len: Option<usize>,
    pub crash_exitcode: Option<i8>,
    /// Directory for the current input; only meaningful when the target reads a file.
    pub cur_input_dir: Option<String>,
    /// How the target takes its input (for instance `@@`); `None` means stdin.
    pub harness_input_type: Option<String>,
}

pub open spec fn word_if(flag: bool, word: Seq<char>) -> Seq<char> {
    if flag {
        word
    } else {
        Seq::empty()
    }
}

/// Whether no special mode is set, in which case the mode is described as default.
pub open spec fn is_default_mode(o: Opt) -> bool {
    !(o.unicorn_mode || o.qemu_mode || o.forkserver_cs || o.non_instrumented_mode
        || o.no_forkserver || o.crash_mode || o.is_persistent || o.defer_forkserver)
}

/// The words naming the target mode, each followed by a space, in a fixed order.
pub open spec fn target_mode_spec(o: Opt) -> Seq<char> {
    word_if(o.unicorn_mode, "unicorn "@) + word_if(o.qemu_mode, "qemu "@) + word_if(
        o.forkserver_cs,
        "coresight "@,
    ) + word_if(o.no_forkserver, "no_fsrv "@) + word_if(o.crash_mode, "crash "@) + word_if(
        o.is_persistent,
        "persistent "@,
    ) + "shmem_testcase "@ + word_if(o.defer_forkserver, "deferred "@) + word_if(
        is_default_mode(o),
        "default"@,
    )
}

/// Describes the target mode, as shown in the fuzzer's statistics.
pub fn fuzzer_target_mode(opt: &Opt) -> (r: String)
    ensures
        r@ == target_mode_spec(*opt),
{
    let mut res = String::new();
    if opt.unicorn_mode {
        res.append("unicorn ");
    }
    if opt.qemu_mode {
        res.append("qemu ");
    }
    if opt.forkserver_cs {
        res.append("coresight ");
    }
    if opt.no_forkserver {
        res.append("no_fsrv ");
    }
    if opt.crash_mode {
        res.append("crash ");
    }
    if opt.is_persistent {
        res.append("persistent ");
    }
    res.append("shmem_testcase ");
    if opt.defer_forkserver {
        res.append("deferred ");
    }
    if !(opt.unicorn_mode || opt.qemu_mode || opt.forkserver_cs || opt.non_instrumented_mode
        || opt.no_forkserver || opt.crash_mode || opt.is_persistent || opt.defer_forkserver) {
        res.append("default");
    }
    assert(res@ =~= target_mode_spec(*opt));
    res
}

/// The schedule for the `cycle`-th pass over the corpus: the configured one (by default
/// `Explore`), or, when schedules cycle, `Explore` and `Exploit` in turn from the
/// configured one.
pub open spec fn schedule_for_cycle_spec(opt: Opt, cycle: u64) -> PowerSchedule {
    let first = match opt.power_schedule {
        Some(s) => s,
        None => PowerSchedule::Explore,
    };
    if !opt.cycle_schedules || cycle % 2 == 0 {
        first
    } else if first == PowerSchedule::Explore {
        PowerSchedule::Exploit
    } else {
        PowerSchedule::Explore
    }
}

pub fn schedule_for_cycle(opt: &Opt, cycle: u64) -> (r: PowerSchedule)
    ensures
        r == schedule_for_cycle_spec(*opt, cycle),
{
    let first = match opt.power_schedule {
        Some(s) => s,
        None => PowerSchedule::Explore,
    };
    if !opt.cycle_schedules || cycle % 2 == 0 {
        first
    } else {
        match first {
            PowerSchedule::Explore => PowerSchedule::Exploit,
            PowerSchedule::Exploit => PowerSchedule::Explore,
        }
    }
}

/// Marks a testcase that came from the initial seeds.
#[derive(Clone, Copy, Debug, PartialEq, Eq, Structural)]
pub struct IsInitialCorpusEntryMetadata {}

/// Marks every loaded seed as an initial entry when tracing is only for new inputs;
/// otherwise leaves the corpus as it is.
pub fn mark_initial_entries(opt: &Opt, corpus: &mut Vec<Testcase>)
    ensures
        final(corpus)@.len() == old(corpus)@.len(),
        forall|i: int|
            0 <= i < old(corpus)@.len() ==> #[trigger] final(corpus)@[i] == (Testcase {
                is_initial_entry: old(corpus)@[i].is_initial_entry || opt.cmplog_only_new,
                ..old(corpus)@[i]
            }),
{
    if !opt.cmplog_only_new {
        return;
    }
    let n = corpus.len();
    let mut i: usize = 0;
    while i < n
        invariant
            opt.cmplog_only_new,
            n == old(corpus)@.len(),
            corpus@.len() == n,
            i <= n,
            forall|j: int|
                0 <= j < i ==> #[trigger] corpus@[j] == (Testcase {
                    is_initial_entry: true,
                    ..old(corpus)@[j]
                }),
            forall|j: int| i <= j < n ==> #[trigger] corpus@[j] == old(corpus)@[j],
        decreases n - i,
    {
        corpus[i].is_initial_entry = true;
        i = i + 1;
    }
}

/// Whether comparison tracing runs on the current testcase: on its second scheduling
/// only, and never on an initial seed when only new inputs are traced.
pub open spec fn should_trace_spec(scheduled_count: u64, is_initial_entry: bool, cmplog_only_new: bool) -> bool {
    !(cmplog_only_new && is_initial_entry) && scheduled_count == 1
}

pub fn should_run_cmplog(opt: &Opt, scheduled_count: u64, is_initial_entry: bool) -> (r: bool)
    ensures
        r == should_trace_spec(scheduled_count, is_initial_entry, opt.cmplog_only_new),
{
    if opt.cmplog_only_new && is_initial_entry {
        return false;
    }
    scheduled_count == 1
}

/// Rejects option combinations that cannot work: a directory for the current input
/// while the target reads stdin.
pub fn check_options(opt: &Opt) -> (r: Result<(), Error>)
    ensures
        r is Err <==> (opt.cur_input_dir is Some && opt.harness_input_type is None),
        r is Err ==> r == Err::<(), Error>(Error::IllegalConfiguration),
{
    if opt.cur_input_dir.is_some() && opt.harness_input_type.is_none() {
        return Err(Error::IllegalConfiguration);
    }
    Ok(())
}

/// The settings the executor is built with.
#[derive(Clone, Copy, Debug, PartialEq, Eq, Structural)]
pub struct ExecutorConfig {
    pub map_size: usize,
    pub kill_signal: i32,
    pub debug_child: bool,
    pub is_persistent: bool,
    pub is_deferred_forkserver: bool,
    pub min_input_size: usize,
    pub max_input_size: usize,
    pub timeout_ms: u64,
    pub crash_exitcode: Option<i8>,
}

/// The main executor's settings, with the default input sizes where none is given.
pub fn base_executor_config(opt: &Opt) -> (r: ExecutorConfig)
    ensures
        r.map_size == opt.map_size,
        r.kill_signal == opt.kill_signal,
        r.debug_child == opt.debug_child,
        r.is_persistent == opt.is_persistent,
        r.is_deferred_forkserver == opt.defer_forkserver,
        r.min_input_size == match opt.min_input_len {
            Some(n) => n,
            None => AFL_DEFAULT_INPUT_LEN_MIN,
        },
        r.max_input_size == match opt.max_input_len {
            Some(n) => n,
            None => AFL_DEFAULT_INPUT_LEN_MAX,
        },
        r.timeout_ms == opt.hang_timeout,
        r.crash_exitcode == opt.crash_exitcode,
{
    ExecutorConfig {
        map_size: opt.map_size,
        kill_signal: opt.kill_signal,
        debug_child: opt.debug_child,
        is_persistent: opt.is_persistent,
        is_deferred_forkserver: opt.defer_forkserver,
        min_input_size: match opt.min_input_len {
            Some(n) => n,
            None => AFL_DEFAULT_INPUT_LEN_MIN,
        },
        max_input_size: match opt.max_input_len {
            Some(n) => n,
            None => AFL_DEFAULT_INPUT_LEN_MAX,
        },
        timeout_ms: opt.hang_timeout,
        crash_exitcode: opt.crash_exitcode,
    }
}

/// The tracing executor's settings: the main ones with twice the timeout, since
/// tracing slows the target down.
pub fn cmplog_executor_config(opt: &Opt) -> (r: ExecutorConfig)
    requires
        opt.hang_timeout <= u64::MAX / 2,
    ensures
        r == (ExecutorConfig { timeout_ms: (2 * opt.hang_timeout) as u64, ..base_executor_config_spec(*opt) }),
{
    let base = base_executor_config(opt);
    ExecutorConfig { timeout_ms: opt.hang_timeout * 2, ..base }
}

pub open spec fn base_executor_config_spec(opt: Opt) -> ExecutorConfig {
    ExecutorConfig {
        map_size: opt.map_size,
        kill_signal: opt.kill_signal,
        debug_child: opt.debug_child,
        is_persistent: opt.is_persistent,
        is_deferred_forkserver: opt.defer_forkserver,
        min_input_size: match opt.min_input_len {
            Some(n) => n,
            None => AFL_DEFAULT_INPUT_LEN_MIN,
        },
        max_input_size: match opt.max_input_len {
            Some(n) => n,
            None => AFL_DEFAULT_INPUT_LEN_MAX,
        },
        timeout_ms: opt.hang_timeout,
        crash_exitcode: opt.crash_exitcode,
    }
}

} // verus!
