//! Execution-and-selection core of a coverage-guided fuzzer: timeout capture and
//! re-verification, coverage novelty, power-schedule scoring, weighted selection.
pub mod capture_timeout;
pub mod corpus;
pub mod custom_testcase_filename;
pub mod combinators;
pub mod error;
pub mod executor;
pub mod forkserver;
pub mod fuzzer;
pub mod exit_kind;
pub mod map_feedback;
pub mod minimizer;
pub mod power;
pub mod scheduler;
pub mod state;
pub mod testcase_score;
pub mod verify_timeouts;

pub use capture_timeout::CaptureTimeoutFeedback;
pub use corpus::{evaluate_for_queue, evaluate_for_solutions, Corpus, Testcase};
pub use combinators::{objective_feedback, FeedbackExpr};
pub use custom_testcase_filename::CustomTestcaseFilenameFeedback;
pub use error::Error;
pub use executor::{Executor, TimeoutExecutor};
pub use exit_kind::ExitKind;
pub use forkserver::{classify_run, read_control_word, write_control_word, RunStatus};
pub use fuzzer::{
    base_executor_config, check_options, cmplog_executor_config, fuzzer_target_mode,
    mark_initial_entries, schedule_for_cycle, should_run_cmplog, ExecutorConfig, IsInitialCorpusEntryMetadata, Opt,
    AFL_DEFAULT_INPUT_LEN_MAX, AFL_DEFAULT_INPUT_LEN_MIN,
};
pub use map_feedback::{classify_counts, MaxMapFeedback};
pub use minimizer::{favored_entries, len_time_factor, top_rated};
pub use power::{
    EvaluationRecord, Evaluator, ExecutionCountRestartHelper, MutationRecord, Mutator,
    PowerMutationalStage,
    POWER_MUTATIONAL_STAGE_NAME,
};
pub use scheduler::{
    cycle_complete, on_selected, rarest_edge_hits, restrict_to_favored, select, select_index,
    testcase_weight, XorShiftRand, HIT_RANGE, RARITY_SCALE,
};
pub use state::FuzzMetadata;
pub use testcase_score::{base_score, compute_score, iterations_for, CorpusStats, PowerSchedule};
pub use verify_timeouts::{TimeoutsToVerify, VerifyTimeoutsStage};
