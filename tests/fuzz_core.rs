use libafl_fuzz::{
    evaluate_for_solutions, restrict_to_favored, select_index, Corpus, HIT_RANGE, RARITY_SCALE,
    base_score, cycle_complete, schedule_for_cycle, PowerSchedule,
    base_executor_config, check_options, classify_counts, classify_run, cmplog_executor_config,
    compute_score, evaluate_for_queue, objective_feedback, favored_entries, fuzzer_target_mode, iterations_for,
    len_time_factor, mark_initial_entries, rarest_edge_hits, read_control_word, select,
    should_run_cmplog, testcase_weight, top_rated, write_control_word, CaptureTimeoutFeedback,
    CorpusStats, CustomTestcaseFilenameFeedback, Error, Evaluator, ExecutionCountRestartHelper,
    Executor, ExitKind, FeedbackExpr, FuzzMetadata, IsInitialCorpusEntryMetadata, MaxMapFeedback, Mutator,
    Opt, PowerMutationalStage, RunStatus, XorShiftRand, Testcase, TimeoutExecutor,
    TimeoutsToVerify, VerifyTimeoutsStage, AFL_DEFAULT_INPUT_LEN_MAX, AFL_DEFAULT_INPUT_LEN_MIN,
    POWER_MUTATIONAL_STAGE_NAME,
};

/// Replays inputs, recording each with the timeout it ran under.
struct ScriptedExecutor {
    runs: Vec<(Vec<u8>, u64)>,
    fail_on_run: Option<usize>,
    hangs_below_ms: u64,
}

impl Executor for ScriptedExecutor {
    fn run_target(&mut self, input: &Vec<u8>, timeout_ms: u64) -> Result<ExitKind, Error> {
        if self.fail_on_run == Some(self.runs.len()) {
            return Err(Error::LaunchFailure);
        }
        self.runs.push((input.clone(), timeout_ms));
        if timeout_ms < self.hangs_below_ms {
            Ok(ExitKind::Timeout)
        } else {
            Ok(ExitKind::Normal)
        }
    }
}

fn executor(timeout_ms: u64) -> TimeoutExecutor<ScriptedExecutor> {
    executor_with(timeout_ms, None, 0)
}

fn executor_with(
    timeout_ms: u64,
    fail_on_run: Option<usize>,
    hangs_below_ms: u64,
) -> TimeoutExecutor<ScriptedExecutor> {
    TimeoutExecutor::new(ScriptedExecutor { runs: Vec::new(), fail_on_run, hangs_below_ms }, timeout_ms)
}

struct CountingEvaluator {
    inputs: Vec<Vec<u8>>,
}

impl Evaluator for CountingEvaluator {
    fn evaluate_input(&mut self, input: &Vec<u8>) -> Result<bool, Error> {
        self.inputs.push(input.clone());
        Ok(false)
    }
}

struct FlipFirst;

impl Mutator for FlipFirst {
    fn mutate(&mut self, input: &mut Vec<u8>) -> Result<(), Error> {
        if let Some(b) = input.first_mut() {
            *b ^= 0xff;
        }
        Ok(())
    }
}

fn plain_opt() -> Opt {
    Opt {
        unicorn_mode: false,
        qemu_mode: false,
        forkserver_cs: false,
        no_forkserver: false,
        crash_mode: false,
        non_instrumented_mode: false,
        is_persistent: false,
        defer_forkserver: false,
        ignore_timeouts: false,
        cmplog_only_new: false,
        debug_child: false,
        power_schedule: None,
        cycle_schedules: false,
        hang_timeout: 100,
        map_size: 65536,
        kill_signal: 9,
        min_input_len: None,
        max_input_len: None,
        crash_exitcode: None,
        cur_input_dir: None,
        harness_input_type: None,
    }
}

fn testcase(exec_time_us: u64, bitmap_size: u64, handicap: u64) -> Testcase {
    let mut tc = Testcase::new(vec![1, 2, 3]);
    tc.exec_time_us = exec_time_us;
    tc.bitmap_size = bitmap_size;
    tc.handicap = handicap;
    tc
}

const STATS: CorpusStats =
    CorpusStats { avg_exec_time_us: 100, avg_bitmap_size: 50, schedule: PowerSchedule::Explore };

#[test]
fn timeouts_queue_is_first_in_first_out() {
    let mut q: TimeoutsToVerify<u32> = TimeoutsToVerify::new();
    assert!(q.is_empty());
    q.push(1);
    q.push(2);
    q.push(3);
    assert_eq!(q.len(), 3);
    assert_eq!(q.pop(), Some(1));
    assert_eq!(q.pop(), Some(2));
    assert_eq!(q.pop(), Some(3));
    assert_eq!(q.pop(), None);
}

#[test]
fn verify_stage_doubles_the_timeout() {
    let stage = VerifyTimeoutsStage::new(100);
    assert_eq!(stage.doubled_timeout(), 200);
    assert_eq!(stage.original_timeout(), 100);
    assert!(stage.should_restart());
    assert_eq!(stage.clear_progress(), Ok(()));
}

#[test]
fn verification_drains_queue_and_restores_timeout() {
    let stage = VerifyTimeoutsStage::new(100);
    let mut meta = FuzzMetadata::new();
    meta.push_timeout(vec![1]);
    meta.push_timeout(vec![2, 2]);
    let mut exec = executor(100);
    assert_eq!(stage.perform(&mut exec, &mut meta), Ok(()));
    assert_eq!(meta.pending_len(), 0);
    assert_eq!(exec.timeout(), 100);
    assert_eq!(exec.inner().runs, vec![(vec![1], 200), (vec![2, 2], 200)]);
}

#[test]
fn verification_of_empty_queue_is_a_no_op() {
    let stage = VerifyTimeoutsStage::new(250);
    let mut meta = FuzzMetadata::new();
    let mut exec = executor(250);
    assert_eq!(stage.perform(&mut exec, &mut meta), Ok(()));
    assert_eq!(meta.pending_len(), 0);
    assert_eq!(exec.timeout(), 250);
    assert!(exec.inner().runs.is_empty());
}

#[test]
fn verification_restores_timeout_after_error() {
    let stage = VerifyTimeoutsStage::new(100);
    let mut meta = FuzzMetadata::new();
    meta.push_timeout(vec![1]);
    meta.push_timeout(vec![2]);
    meta.push_timeout(vec![3]);
    let mut exec = executor_with(100, Some(1), 0);
    assert_eq!(stage.perform(&mut exec, &mut meta), Err(Error::LaunchFailure));
    assert_eq!(exec.timeout(), 100);
    assert_eq!(meta.pending_len(), 0);
    assert_eq!(exec.inner().runs.len(), 1);
}

#[test]
fn hanging_input_is_queued_exactly_once() {
    let mut feedback = CaptureTimeoutFeedback::new();
    let mut meta = FuzzMetadata::new();
    let input = vec![b'h', b'a', b'n', b'g', b'!'];
    let kind = classify_run(RunStatus::TimedOut, None);
    assert_eq!(kind, ExitKind::Timeout);
    assert_eq!(feedback.is_interesting(&mut meta, &input, &kind), Ok(false));
    assert_eq!(meta.pending_len(), 1);
    let mut taken = meta.take_timeouts();
    assert_eq!(taken.pop(), Some(input));
    assert_eq!(taken.pop(), None);
}

#[test]
fn non_timeouts_are_not_queued() {
    let mut feedback = CaptureTimeoutFeedback::new();
    let mut meta = FuzzMetadata::new();
    for kind in [ExitKind::Normal, ExitKind::Crash, ExitKind::OutOfMemory] {
        assert_eq!(feedback.is_interesting(&mut meta, &vec![1], &kind), Ok(false));
    }
    assert_eq!(meta.pending_len(), 0);
    assert_eq!(feedback.name(), "CaptureTimeoutFeedback");
    assert_eq!(feedback.last_result(), Ok(false));
    let mut tc = Testcase::new(vec![7]);
    assert_eq!(feedback.append_metadata(&mut tc), Ok(()));
    assert_eq!(tc.filename, None);
}

#[test]
fn replayed_timeout_that_passes_is_no_objective() {
    let mut capture = CaptureTimeoutFeedback::new();
    let mut objective = objective_feedback(4, false);
    let mut meta = FuzzMetadata::new();
    let input = vec![1, 2, 3, 4, 5];
    let map = vec![0, 1, 0, 0];
    // The first run hits the timeout: it is queued, and checked as an objective once.
    assert_eq!(capture.is_interesting(&mut meta, &input, &ExitKind::Timeout), Ok(false));
    // The replay with 200 ms completes normally.
    let stage = VerifyTimeoutsStage::new(100);
    let mut exec = executor_with(100, None, 150);
    assert_eq!(stage.perform(&mut exec, &mut meta), Ok(()));
    assert_eq!(exec.inner().runs, vec![(input.clone(), 200)]);
    assert!(!objective.evaluate(&ExitKind::Normal, &map));
    assert_eq!(meta.pending_len(), 0);
}

#[test]
fn identical_coverage_admitted_once() {
    let mut feedback = MaxMapFeedback::new(8);
    let map = vec![0, 1, 0, 2, 0, 0, 4, 0];
    assert!(feedback.evaluate(&map));
    assert!(!feedback.evaluate(&map));
    let same = map.clone();
    assert!(!feedback.is_interesting(&same));
}

#[test]
fn higher_bucket_is_new_coverage() {
    let mut feedback = MaxMapFeedback::new(3);
    assert!(feedback.evaluate(&vec![0, 1, 0]));
    assert!(!feedback.evaluate(&vec![0, 1, 0]));
    assert!(feedback.evaluate(&vec![0, 2, 0]));
    assert!(!feedback.evaluate(&vec![0, 1, 0]));
    assert!(feedback.evaluate(&vec![1, 0, 0]));
    assert_eq!(feedback.map_size(), 3);
}

#[test]
fn empty_map_is_never_new() {
    let mut feedback = MaxMapFeedback::new(0);
    assert!(!feedback.evaluate(&vec![]));
    let mut zeros = MaxMapFeedback::new(4);
    assert!(!zeros.evaluate(&vec![0, 0, 0, 0]));
}

#[test]
fn hit_counts_fall_into_buckets() {
    let mut map = vec![0, 1, 2, 3, 4, 7, 8, 15, 16, 31, 32, 127, 128, 255];
    classify_counts(&mut map);
    assert_eq!(map, vec![0, 1, 2, 4, 8, 8, 16, 16, 32, 32, 64, 64, 128, 128]);
}

#[test]
fn objectives_need_kind_and_new_coverage() {
    let mut objective = objective_feedback(2, false);
    assert!(!objective.evaluate(&ExitKind::Normal, &vec![1, 0]));
    assert!(objective.evaluate(&ExitKind::Crash, &vec![1, 0]));
    assert!(!objective.evaluate(&ExitKind::Crash, &vec![1, 0]));
    assert!(objective.evaluate(&ExitKind::Timeout, &vec![0, 1]));
    let mut ignoring = objective_feedback(2, true);
    assert!(!ignoring.evaluate(&ExitKind::Timeout, &vec![1, 0]));
    assert!(ignoring.evaluate(&ExitKind::Crash, &vec![1, 0]));
}

#[test]
fn score_of_an_average_testcase() {
    let mut tc = testcase(100, 50, 0);
    assert_eq!(compute_score(&mut tc, &STATS), 10000);
    assert_eq!(iterations_for(10000), 100);
}

#[test]
fn score_is_floored_into_iterations() {
    let mut tc = testcase(1000, 10, 0);
    let score = compute_score(&mut tc, &STATS);
    assert_eq!(score, 625);
    assert_eq!(iterations_for(score), 6);
    assert_eq!(iterations_for(599), 5);
    assert_eq!(iterations_for(0), 0);
}

#[test]
fn fast_broad_testcase_scores_high() {
    let mut tc = testcase(20, 200, 0);
    assert_eq!(compute_score(&mut tc, &STATS), 300 * 25 * 12);
}

#[test]
fn handicap_boosts_and_decays() {
    let mut tc = testcase(100, 50, 5);
    assert_eq!(compute_score(&mut tc, &STATS), 40000);
    assert_eq!(tc.handicap, 1);
    assert_eq!(compute_score(&mut tc, &STATS), 20000);
    assert_eq!(tc.handicap, 0);
    assert_eq!(compute_score(&mut tc, &STATS), 10000);
    assert_eq!(tc.handicap, 0);
}

#[test]
fn score_is_capped() {
    let mut tc = testcase(1, 1000, 8);
    assert_eq!(compute_score(&mut tc, &CorpusStats { avg_exec_time_us: 100, avg_bitmap_size: 10, schedule: PowerSchedule::Explore }), 360000);
    let mut tc2 = testcase(1, 1000, 8);
    tc2.handicap = 4;
    assert!(compute_score(&mut tc2, &CorpusStats { avg_exec_time_us: 100, avg_bitmap_size: 10, schedule: PowerSchedule::Explore }) <= 640000);
}

fn rarity(h: u128) -> u128 {
    RARITY_SCALE / h + HIT_RANGE - h
}

#[test]
fn rare_coverage_outweighs_common_coverage_with_handicap() {
    let a = testcase(100, 50, 0);
    let b = testcase(100, 50, 4);
    let wa = testcase_weight(&a, &STATS, 1);
    assert_eq!(wa, 12089442663587028842577910000);
    let wb2 = testcase_weight(&b, &STATS, 2);
    assert_eq!(wb2, 6044813565513882969047020000);
    let wb8 = testcase_weight(&b, &STATS, 8);
    assert_eq!(wb8, 1511341741959023563898800000);
    assert!(wa > wb2 && wb2 > wb8);
    assert_eq!(b.handicap, 4);
}

#[test]
fn rarity_order_holds_for_many_sharers() {
    let slow_narrow = testcase(2000, 10, 0);
    let slow_narrow_boosted = testcase(2000, 10, 8);
    assert_eq!(base_score(&slow_narrow, &STATS), 250);
    let wa = testcase_weight(&slow_narrow, &STATS, 1100);
    let wb = testcase_weight(&slow_narrow_boosted, &STATS, 1101);
    assert_eq!(wa, 279367554112661290971250);
    assert_eq!(wb, 279118002915482150277500);
    assert!(wa > wb);
    let near_max = testcase_weight(&slow_narrow, &STATS, u64::MAX - 1);
    let at_max = testcase_weight(&slow_narrow, &STATS, u64::MAX);
    assert!(near_max > at_max);
}

#[test]
fn weight_follows_base_score() {
    let fast = testcase(20, 200, 0);
    assert_eq!(base_score(&fast, &STATS), 300 * 25 * 12);
    assert_eq!(testcase_weight(&fast, &STATS, 0), 300 * 25 * 12 * rarity(1));
    assert_eq!(testcase_weight(&fast, &STATS, 3), 300 * 25 * 12 * rarity(3));
}

#[test]
fn exploit_schedule_gives_the_largest_budget() {
    let mut tc = testcase(1000, 10, 0);
    let exploit = CorpusStats { schedule: PowerSchedule::Exploit, ..STATS };
    assert_eq!(compute_score(&mut tc, &exploit), 640000);
    assert_eq!(iterations_for(640000), 6400);
}

#[test]
fn schedules_cycle_when_asked() {
    let mut opt = plain_opt();
    assert_eq!(schedule_for_cycle(&opt, 0), PowerSchedule::Explore);
    assert_eq!(schedule_for_cycle(&opt, 1), PowerSchedule::Explore);
    opt.cycle_schedules = true;
    assert_eq!(schedule_for_cycle(&opt, 1), PowerSchedule::Exploit);
    assert_eq!(schedule_for_cycle(&opt, 2), PowerSchedule::Explore);
    opt.power_schedule = Some(PowerSchedule::Exploit);
    assert_eq!(schedule_for_cycle(&opt, 0), PowerSchedule::Exploit);
    assert_eq!(schedule_for_cycle(&opt, 3), PowerSchedule::Explore);
}

#[test]
fn cycle_completes_once_all_were_picked() {
    let mut corpus = vec![Testcase::new(vec![1]), Testcase::new(vec![2])];
    assert!(!cycle_complete(&corpus));
    libafl_fuzz::on_selected(&mut corpus[0]);
    assert!(!cycle_complete(&corpus));
    libafl_fuzz::on_selected(&mut corpus[1]);
    assert!(cycle_complete(&corpus));
    assert!(cycle_complete(&vec![]));
}

#[test]
fn queue_admission_uses_buckets() {
    let mut coverage = MaxMapFeedback::new(3);
    let mut namer = CustomTestcaseFilenameFeedback::new(|_s: &FuzzMetadata, _tc: &Testcase| Ok("q".to_string()));
    let mut first = Testcase::new(vec![1]);
    assert_eq!(evaluate_for_queue(&mut coverage, &mut namer, &FuzzMetadata::new(), &vec![0, 5, 0], 1, &mut first), (true, Ok(())));
    let mut same_bucket = Testcase::new(vec![2]);
    assert_eq!(evaluate_for_queue(&mut coverage, &mut namer, &FuzzMetadata::new(), &vec![0, 7, 0], 1, &mut same_bucket), (false, Ok(())));
    let mut higher = Testcase::new(vec![3]);
    assert_eq!(evaluate_for_queue(&mut coverage, &mut namer, &FuzzMetadata::new(), &vec![0, 8, 0], 1, &mut higher), (true, Ok(())));
}

#[test]
fn queue_admission_passes_naming_errors_on() {
    let mut coverage = MaxMapFeedback::new(1);
    let mut namer = CustomTestcaseFilenameFeedback::new(|_s: &FuzzMetadata, _tc: &Testcase| Err(Error::IllegalConfiguration));
    let mut tc = Testcase::new(vec![1]);
    assert_eq!(evaluate_for_queue(&mut coverage, &mut namer, &FuzzMetadata::new(), &vec![1], 9, &mut tc), (true, Err(Error::IllegalConfiguration)));
    assert_eq!(tc.exec_time_us, 9);
    assert_eq!(tc.filename, None);
}

#[test]
fn rarest_edge_counts_corpus_maps() {
    let maps = vec![vec![1, 0, 1], vec![1, 1, 0], vec![1, 0, 0]];
    assert_eq!(rarest_edge_hits(&vec![1, 0, 1], &maps), 1);
    assert_eq!(rarest_edge_hits(&vec![1, 0, 0], &maps), 3);
    assert_eq!(rarest_edge_hits(&vec![0, 0, 0], &maps), 0);
}

#[test]
fn generator_is_xorshift() {
    let mut r = XorShiftRand::with_seed(1);
    assert_eq!(r.next(), 1082269761);
    assert_eq!(r.next(), 1152992998833853505);
    assert_eq!(XorShiftRand::with_seed(0), XorShiftRand::with_seed(1));
}

#[test]
fn selection_is_deterministic_for_a_seed() {
    let weights = vec![3, 1, 4, 1, 5];
    let mut r1 = XorShiftRand::with_seed(42);
    let mut r2 = XorShiftRand::with_seed(42);
    let first: Vec<Option<usize>> = (0..20).map(|_| select(&mut r1, &weights)).collect();
    let second: Vec<Option<usize>> = (0..20).map(|_| select(&mut r2, &weights)).collect();
    assert_eq!(first, second);
    assert!(first.iter().all(|i| matches!(i, Some(j) if *j < 5)));
}

#[test]
fn selection_follows_the_weights() {
    let mut r = XorShiftRand::with_seed(7);
    for _ in 0..10 {
        assert_eq!(select(&mut r, &vec![0, 7, 0]), Some(1));
    }
    assert_eq!(select(&mut r, &vec![]), None);
    let mut s = XorShiftRand::with_seed(1);
    // All weights zero: uniform by the drawn number.
    assert_eq!(select(&mut s, &vec![0, 0]), Some(1));
}

#[test]
fn selection_picks_by_prefix_sum() {
    // Seed 1 draws 1082269761, then 1152992998833853505: together the 128-bit number
    // 19964353301034795809699337281, which is 1 modulo 10 and 2 modulo 3.
    let mut r = XorShiftRand::with_seed(1);
    assert_eq!(r.next_u128(), 19964353301034795809699337281);
    let mut r = XorShiftRand::with_seed(1);
    assert_eq!(select(&mut r, &vec![2, 8]), Some(0));
    let mut s = XorShiftRand::with_seed(1);
    assert_eq!(select(&mut s, &vec![0, 1, 2]), Some(2));
    assert_eq!(select_index(&vec![2, 8], 2), Some(1));
    assert_eq!(select_index(&vec![2, 8], 11), Some(0));
    assert_eq!(select_index(&vec![], 11), None);
}

#[test]
fn scheduled_count_grows_on_selection() {
    let mut tc = Testcase::new(vec![0]);
    libafl_fuzz::on_selected(&mut tc);
    libafl_fuzz::on_selected(&mut tc);
    assert_eq!(tc.scheduled_count, 2);
}

#[test]
fn target_mode_default() {
    assert_eq!(fuzzer_target_mode(&plain_opt()), "shmem_testcase default");
}

#[test]
fn target_mode_lists_modes_in_order() {
    let mut opt = plain_opt();
    opt.is_persistent = true;
    opt.defer_forkserver = true;
    assert_eq!(fuzzer_target_mode(&opt), "persistent shmem_testcase deferred ");
    let mut all = plain_opt();
    all.unicorn_mode = true;
    all.qemu_mode = true;
    all.forkserver_cs = true;
    all.no_forkserver = true;
    all.crash_mode = true;
    assert_eq!(fuzzer_target_mode(&all), "unicorn qemu coresight no_fsrv crash shmem_testcase ");
    let mut plain = plain_opt();
    plain.non_instrumented_mode = true;
    assert_eq!(fuzzer_target_mode(&plain), "shmem_testcase ");
}

#[test]
fn cmplog_runs_on_second_scheduling_only() {
    let mut opt = plain_opt();
    assert!(!should_run_cmplog(&opt, 0, false));
    assert!(should_run_cmplog(&opt, 1, false));
    assert!(!should_run_cmplog(&opt, 2, false));
    assert!(should_run_cmplog(&opt, 1, true));
    opt.cmplog_only_new = true;
    assert!(!should_run_cmplog(&opt, 1, true));
    assert!(should_run_cmplog(&opt, 1, false));
}

#[test]
fn input_dir_with_stdin_is_rejected() {
    let mut opt = plain_opt();
    assert_eq!(check_options(&opt), Ok(()));
    opt.cur_input_dir = Some("/dev/shm".to_string());
    assert_eq!(check_options(&opt), Err(Error::IllegalConfiguration));
    opt.harness_input_type = Some("@@".to_string());
    assert_eq!(check_options(&opt), Ok(()));
}

#[test]
fn executor_config_uses_defaults() {
    let opt = plain_opt();
    let c = base_executor_config(&opt);
    assert_eq!(c.min_input_size, AFL_DEFAULT_INPUT_LEN_MIN);
    assert_eq!(c.max_input_size, AFL_DEFAULT_INPUT_LEN_MAX);
    assert_eq!(c.timeout_ms, 100);
    assert_eq!(c.map_size, 65536);
    let mut sized = plain_opt();
    sized.min_input_len = Some(4);
    sized.max_input_len = Some(64);
    sized.crash_exitcode = Some(-1);
    let c2 = base_executor_config(&sized);
    assert_eq!((c2.min_input_size, c2.max_input_size, c2.crash_exitcode), (4, 64, Some(-1)));
    let t = cmplog_executor_config(&sized);
    assert_eq!(t.timeout_ms, 200);
    assert_eq!(t.min_input_size, 4);
}

#[test]
fn filename_feedback_names_testcase() {
    let mut f = CustomTestcaseFilenameFeedback::new(|_s: &FuzzMetadata, tc: &Testcase| {
        Ok(format!("id:{}", tc.input.len()))
    });
    let mut tc = Testcase::new(vec![1, 2, 3]);
    assert_eq!(f.is_interesting(), Ok(false));
    assert_eq!(f.append_metadata(&FuzzMetadata::new(), &mut tc), Ok(()));
    assert_eq!(tc.filename, Some("id:3".to_string()));
    assert_eq!(f.name(), "CustomTestcaseFilenameFeedback");
    assert_eq!(f.last_result(), Ok(false));
}

#[test]
fn filename_feedback_passes_errors_on() {
    let mut f = CustomTestcaseFilenameFeedback::new(|_s: &FuzzMetadata, _tc: &Testcase| Err(Error::LaunchFailure));
    let mut tc = Testcase::new(vec![1]);
    assert_eq!(f.append_metadata(&FuzzMetadata::new(), &mut tc), Err(Error::LaunchFailure));
    assert_eq!(tc.filename, None);
}

#[test]
fn control_words_round_trip() {
    let bytes = write_control_word(0x01020304);
    assert_eq!(bytes, vec![4, 3, 2, 1]);
    assert_eq!(read_control_word(&bytes), Ok(0x01020304));
    assert_eq!(read_control_word(&vec![0xff, 0xff, 0xff, 0xff]), Ok(u32::MAX));
    assert_eq!(read_control_word(&vec![1, 2, 3]), Err(Error::ProtocolViolation));
    assert_eq!(read_control_word(&vec![]), Err(Error::ProtocolViolation));
}

#[test]
fn runs_are_classified() {
    assert_eq!(classify_run(RunStatus::TimedOut, Some(3)), ExitKind::Timeout);
    assert_eq!(classify_run(RunStatus::Signaled(11), None), ExitKind::Crash);
    assert_eq!(classify_run(RunStatus::Exited(0), None), ExitKind::Normal);
    assert_eq!(classify_run(RunStatus::Exited(3), Some(3)), ExitKind::Crash);
    assert_eq!(classify_run(RunStatus::Exited(-1), Some(-1)), ExitKind::Crash);
    assert_eq!(classify_run(RunStatus::Exited(2), Some(3)), ExitKind::Normal);
    assert_eq!(classify_run(RunStatus::Exited(255), Some(-1)), ExitKind::Crash);
    assert_eq!(classify_run(RunStatus::Exited(254), Some(-1)), ExitKind::Normal);
    assert_eq!(classify_run(RunStatus::Exited(128), Some(-128)), ExitKind::Crash);
}

#[test]
fn restart_helper_counts_from_first_call() {
    let mut h = ExecutionCountRestartHelper::new();
    assert_eq!(h.execs_since_progress_start(10), 0);
    assert_eq!(h.execs_since_progress_start(14), 4);
    h.clear_progress();
    assert_eq!(h.started_at_execs, None);
    assert_eq!(h.execs_since_progress_start(20), 0);
}

#[test]
fn power_stage_runs_floored_score_rounds() {
    let mut stage = PowerMutationalStage::new(FlipFirst);
    assert_eq!(stage.name(), POWER_MUTATIONAL_STAGE_NAME);
    assert_eq!(stage.name(), "power");
    let mut tc = testcase(1000, 10, 0);
    let mut eval = CountingEvaluator { inputs: Vec::new() };
    let mut meta = FuzzMetadata::new();
    assert_eq!(stage.perform(&mut eval, &mut meta, &mut tc, &STATS), Ok(()));
    assert_eq!(meta.executions(), 6);
    assert_eq!(eval.inputs.len(), 6);
    assert!(eval.inputs.iter().all(|i| *i == vec![0xfe, 2, 3]));
    assert_eq!(tc.input, vec![1, 2, 3]);
    assert!(stage.restart_progress_should_run());
    assert_eq!(stage.clear_restart_progress(), Ok(()));
}

#[test]
fn power_stage_resumes_with_what_is_left() {
    let mut stage = PowerMutationalStage::new(FlipFirst);
    assert_eq!(stage.execs_since_progress_start(10), 0);
    let mut tc = testcase(1000, 10, 0);
    let mut eval = CountingEvaluator { inputs: Vec::new() };
    let mut meta = FuzzMetadata::new();
    for _ in 0..14 {
        meta.count_execution();
    }
    assert_eq!(stage.perform(&mut eval, &mut meta, &mut tc, &STATS), Ok(()));
    assert_eq!(meta.executions(), 16);
    assert_eq!(eval.inputs.len(), 2);
    assert_eq!(stage.execs_since_progress_start(30), 0);
}

#[test]
fn power_stage_iterations_use_up_handicap() {
    let stage = PowerMutationalStage::new(FlipFirst);
    let mut tc = testcase(100, 50, 4);
    assert_eq!(stage.iterations(&mut tc, &STATS), 400);
    assert_eq!(tc.handicap, 0);
    assert_eq!(stage.iterations(&mut tc, &STATS), 100);
    let _ = stage.mutator();
}

struct FailingMutator;

impl Mutator for FailingMutator {
    fn mutate(&mut self, _input: &mut Vec<u8>) -> Result<(), Error> {
        Err(Error::ProtocolViolation)
    }
}

#[test]
fn power_stage_stops_on_mutator_error() {
    let mut stage = PowerMutationalStage::new(FailingMutator);
    let mut tc = testcase(100, 50, 0);
    let mut eval = CountingEvaluator { inputs: Vec::new() };
    let mut meta = FuzzMetadata::new();
    assert_eq!(stage.perform(&mut eval, &mut meta, &mut tc, &STATS), Err(Error::ProtocolViolation));
    assert!(eval.inputs.is_empty());
}

#[test]
fn queue_admission_annotates_new_testcases() {
    let mut coverage = MaxMapFeedback::new(3);
    let mut namer = CustomTestcaseFilenameFeedback::new(|_s: &FuzzMetadata, tc: &Testcase| {
        Ok(format!("time:{}", tc.exec_time_us))
    });
    let mut first = Testcase::new(vec![1]);
    assert_eq!(evaluate_for_queue(&mut coverage, &mut namer, &FuzzMetadata::new(), &vec![0, 1, 0], 42, &mut first), (true, Ok(())));
    assert_eq!(first.exec_time_us, 42);
    assert_eq!(first.filename, Some("time:42".to_string()));
    let mut second = Testcase::new(vec![2]);
    assert_eq!(evaluate_for_queue(&mut coverage, &mut namer, &FuzzMetadata::new(), &vec![0, 1, 0], 7, &mut second), (false, Ok(())));
    assert_eq!(second.exec_time_us, 0);
    assert_eq!(second.filename, None);
}

#[test]
fn seeds_are_marked_only_when_tracing_new_inputs() {
    let mut corpus = vec![Testcase::new(vec![1]), Testcase::new(vec![2])];
    let mut opt = plain_opt();
    mark_initial_entries(&opt, &mut corpus);
    assert!(corpus.iter().all(|t| !t.is_initial_entry));
    opt.cmplog_only_new = true;
    mark_initial_entries(&opt, &mut corpus);
    assert!(corpus.iter().all(|t| t.is_initial_entry));
    assert_eq!(corpus[1].input, vec![2]);
    let _marker = IsInitialCorpusEntryMetadata {};
}

#[test]
fn timeout_executor_keeps_its_timeout() {
    let mut exec = executor(100);
    assert_eq!(exec.run_target(&vec![9]), Ok(ExitKind::Normal));
    exec.set_timeout(300);
    assert_eq!(exec.run_target(&vec![8]), Ok(ExitKind::Normal));
    assert_eq!(exec.timeout(), 300);
    assert_eq!(exec.inner().runs, vec![(vec![9], 100), (vec![8], 300)]);
}

#[test]
fn cheapest_entry_represents_each_edge() {
    let maps = vec![vec![1, 1, 0, 0], vec![0, 1, 1, 0], vec![1, 0, 1, 0]];
    let factors = vec![50, 10, 10];
    let top = top_rated(&maps, &factors, 4);
    assert_eq!(top, vec![Some(2), Some(1), Some(1), None]);
    let favored = favored_entries(&top, 3);
    assert_eq!(favored, vec![false, true, true]);
}

#[test]
fn ties_go_to_the_first_entry() {
    let maps = vec![vec![1], vec![1]];
    assert_eq!(top_rated(&maps, &vec![7, 7], 1), vec![Some(0)]);
    assert_eq!(favored_entries(&vec![], 2), vec![false, false]);
}

#[test]
fn len_time_factor_multiplies_and_saturates() {
    let mut tc = Testcase::new(vec![0; 10]);
    tc.exec_time_us = 30;
    assert_eq!(len_time_factor(&tc), 300);
    tc.exec_time_us = u64::MAX;
    assert_eq!(len_time_factor(&tc), u64::MAX);
}

#[test]
fn policies_combine_verdicts() {
    let mut policy = FeedbackExpr::Or(
        Box::new(FeedbackExpr::NewCoverage(MaxMapFeedback::new(2))),
        Box::new(FeedbackExpr::And(Box::new(FeedbackExpr::Const(true)), Box::new(FeedbackExpr::Crash))),
    );
    assert!(policy.evaluate(&ExitKind::Normal, &vec![1, 0]));
    assert!(!policy.evaluate(&ExitKind::Normal, &vec![1, 0]));
    assert!(policy.evaluate(&ExitKind::Crash, &vec![1, 0]));
    assert!(policy.is_interesting(&ExitKind::Normal, &vec![0, 1]));
    let fast = FeedbackExpr::OrFast(Box::new(FeedbackExpr::Timeout), Box::new(FeedbackExpr::Const(false)));
    assert!(fast.is_interesting(&ExitKind::Timeout, &vec![]));
    assert!(!fast.is_interesting(&ExitKind::OutOfMemory, &vec![]));
}

#[test]
fn solutions_are_named_on_admission() {
    let mut objective = objective_feedback(2, false);
    let mut namer = CustomTestcaseFilenameFeedback::new(|s: &FuzzMetadata, _tc: &Testcase| {
        Ok(format!("crash:{}", s.executions()))
    });
    let meta = FuzzMetadata::new();
    let mut tc = Testcase::new(vec![1]);
    let r = evaluate_for_solutions(&mut objective, &mut namer, &meta, &ExitKind::Crash, &vec![3, 0], 5, &mut tc);
    assert_eq!(r, (true, Ok(())));
    assert_eq!(tc.filename, Some("crash:0".to_string()));
    assert_eq!(tc.exec_time_us, 5);
    let mut again = Testcase::new(vec![2]);
    // 2 and 3 share no bucket, but 3 and 3 do: the same map is no new solution.
    let r2 = evaluate_for_solutions(&mut objective, &mut namer, &meta, &ExitKind::Crash, &vec![3, 0], 5, &mut again);
    assert_eq!(r2, (false, Ok(())));
    assert_eq!(again.filename, None);
    let mut normal = Testcase::new(vec![3]);
    let r3 = evaluate_for_solutions(&mut objective, &mut namer, &meta, &ExitKind::Normal, &vec![0, 9], 5, &mut normal);
    assert_eq!(r3, (false, Ok(())));
}

#[test]
fn identical_maps_grow_the_queue_once() {
    let mut coverage = MaxMapFeedback::new(4);
    let mut namer = CustomTestcaseFilenameFeedback::new(|_s: &FuzzMetadata, _tc: &Testcase| {
        Err(Error::LaunchFailure)
    });
    let meta = FuzzMetadata::new();
    let mut queue = Corpus::new();
    for input in [vec![1u8], vec![2u8]] {
        let mut tc = Testcase::new(input);
        let (admitted, _named) = evaluate_for_queue(&mut coverage, &mut namer, &meta, &vec![0, 2, 0, 1], 1, &mut tc);
        if admitted {
            queue.add(tc);
        }
    }
    assert_eq!(queue.count(), 1);
    assert_eq!(queue.get(0).map(|t| t.input.clone()), Some(vec![1]));
    assert!(queue.get(1).is_none());
}

#[test]
fn selection_can_be_restricted_to_favored_entries() {
    assert_eq!(restrict_to_favored(&vec![5, 6, 7], &vec![false, true, false]), vec![0, 6, 0]);
    assert_eq!(restrict_to_favored(&vec![5, 0, 7], &vec![false, true, false]), vec![5, 0, 7]);
    assert_eq!(restrict_to_favored(&vec![], &vec![]), Vec::<u128>::new());
}
