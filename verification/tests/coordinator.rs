use gitoxide::BufferedSink;
use gitoxide::ConfigError;
use gitoxide::Event;
use gitoxide::ExecutionConfig;
use gitoxide::Init;
use gitoxide::Reconciled;
use gitoxide::RunError;
use gitoxide::SinkMode;
use gitoxide::Strategy;
use gitoxide::SubCommands;
use gitoxide::computation_result;
use gitoxide::config::select_strategy;
use gitoxide::create_progress;
use gitoxide::dashboard_options;
use gitoxide::plan;
use gitoxide::reconcile;
use gitoxide::DEFAULT_FRAME_RATE;
use gitoxide::EVENT_CHANNEL_CAPACITY;

#[test]
fn verbose_with_progress_is_rejected_before_execution() {
    let r = ExecutionConfig::validated(true, true, false);
    assert!(matches!(r, Err(ConfigError::VerboseWithProgress)));
    let r = ExecutionConfig::validated(true, true, true);
    assert!(matches!(r, Err(ConfigError::VerboseWithProgress)));
}

#[test]
fn other_flag_combinations_are_accepted() {
    for (v, p, k) in [
        (false, false, false),
        (false, false, true),
        (true, false, false),
        (false, true, false),
        (false, true, true),
    ] {
        let c = ExecutionConfig::validated(v, p, k).unwrap();
        assert_eq!(c.verbose, v);
        assert_eq!(c.progress, p);
        assert_eq!(c.progress_keep_open, k);
    }
}

#[test]
fn strategy_table_matches_flags() {
    let silent = ExecutionConfig { verbose: false, progress: false, progress_keep_open: false };
    assert_eq!(select_strategy(&silent), Strategy::Silent);
    let linear = ExecutionConfig { verbose: true, progress: false, progress_keep_open: false };
    assert_eq!(select_strategy(&linear), Strategy::Linear);
    let dash = ExecutionConfig { verbose: false, progress: true, progress_keep_open: false };
    assert_eq!(select_strategy(&dash), Strategy::Dashboard { keep_open: false });
    let dash_open = ExecutionConfig { verbose: false, progress: true, progress_keep_open: true };
    assert_eq!(select_strategy(&dash_open), Strategy::Dashboard { keep_open: true });
}

#[test]
fn no_progress_means_no_threads_and_real_sinks() {
    for verbose in [false, true] {
        let c = ExecutionConfig { verbose, progress: false, progress_keep_open: false };
        let s = select_strategy(&c);
        assert!(!s.spawns_threads());
        assert_eq!(s.sink_mode(), SinkMode::Real);
    }
}

#[test]
fn progress_means_threads_and_buffered_sinks() {
    for keep_open in [false, true] {
        let c = ExecutionConfig { verbose: false, progress: true, progress_keep_open: keep_open };
        let s = select_strategy(&c);
        assert!(s.spawns_threads());
        assert_eq!(s.sink_mode(), SinkMode::Buffered);
    }
}

#[test]
fn dashboard_auto_exit_follows_keep_open() {
    let auto_exit = dashboard_options(false);
    assert!(auto_exit.stop_if_empty_progress);
    let held_open = dashboard_options(true);
    assert!(!held_open.stop_if_empty_progress);
    assert_eq!(auto_exit.frames_per_second, DEFAULT_FRAME_RATE);
    assert_eq!(held_open.frames_per_second, DEFAULT_FRAME_RATE);
    assert_eq!(auto_exit.title, "gitoxide");
}

#[test]
fn frame_rate_and_channel_capacity_constants() {
    assert_eq!(DEFAULT_FRAME_RATE, 6);
    assert_eq!(EVENT_CHANNEL_CAPACITY, 1);
}

#[test]
fn plan_has_dashboard_options_exactly_for_progress() {
    let c = ExecutionConfig { verbose: true, progress: false, progress_keep_open: false };
    let p = plan(&c);
    assert_eq!(p.strategy, Strategy::Linear);
    assert!(p.dashboard.is_none());

    let c = ExecutionConfig { verbose: false, progress: true, progress_keep_open: true };
    let p = plan(&c);
    assert_eq!(p.strategy, Strategy::Dashboard { keep_open: true });
    let opts = p.dashboard.unwrap();
    assert!(!opts.stop_if_empty_progress);
}

#[test]
fn ui_exit_first_is_cancelled() {
    let r = reconcile::<u64, String>(Some(Event::UiFinished));
    assert!(matches!(r, Reconciled::Cancelled));
}

#[test]
fn computation_first_is_returned_never_cancelled() {
    let ev = Event::ComputationFinished(Err::<u64, String>("boom".to_string()), vec![1], vec![2]);
    match reconcile(Some(ev)) {
        Reconciled::Finished { stdout, stderr, outcome } => {
            assert_eq!(stdout, vec![1]);
            assert_eq!(stderr, vec![2]);
            assert_eq!(outcome, Err("boom".to_string()));
        }
        _ => panic!("a finished computation must be delivered"),
    }
}

#[test]
fn broken_channel_is_distinct_from_cancellation() {
    let r = reconcile::<u64, String>(None);
    assert!(matches!(r, Reconciled::ChannelBroken));
}

#[test]
fn computation_success_passes_through() {
    let r: Result<u64, RunError<String>> = computation_result(Ok(42));
    assert!(matches!(r, Ok(42)));
}

#[test]
fn computation_error_is_surfaced_verbatim() {
    let r: Result<u64, RunError<String>> = computation_result(Err("bad pack".to_string()));
    match r {
        Err(RunError::Computation(e)) => assert_eq!(e, "bad pack"),
        _ => panic!("a computation error must be surfaced as such"),
    }
}

#[test]
fn error_messages() {
    assert_eq!(RunError::<String>::Cancelled.message(), "Operation cancelled by user");
    assert_eq!(RunError::<String>::CommunicationFailure.message(), "Error communicating with threads");
    assert_eq!(RunError::Computation("x".to_string()).message(), "The computation failed");
}

#[test]
fn buffered_sink_accumulates_in_order() {
    let mut sink = BufferedSink::new();
    assert_eq!(sink.len(), 0);
    sink.write_bytes(b"hello ");
    sink.write_bytes(b"world");
    assert_eq!(sink.len(), 11);
    assert_eq!(sink.into_bytes(), b"hello world".to_vec());
}

#[test]
fn empty_write_changes_nothing() {
    let mut sink = BufferedSink::new();
    sink.write_bytes(b"a");
    sink.write_bytes(b"");
    assert_eq!(sink.into_bytes(), vec![b'a']);
}

#[test]
fn silent_success_scenario() {
    // {verbose:false, progress:false}, computation returns 42: the run
    // returns exactly that, with no threads beyond the caller's.
    let c = ExecutionConfig::validated(false, false, false).unwrap();
    let s = select_strategy(&c);
    assert_eq!(s, Strategy::Silent);
    assert!(!s.spawns_threads());
    let r: Result<u64, RunError<String>> = computation_result(Ok(42));
    assert!(matches!(r, Ok(42)));
}

#[test]
fn dashboard_flush_scenario() {
    // {verbose:false, progress:true, progressKeepOpen:false}, computation
    // writes "ok\n" to its buffered stdout and succeeds: after the run the
    // real stdout receives exactly "ok\n".
    let c = ExecutionConfig::validated(false, true, false).unwrap();
    let p = plan(&c);
    assert!(p.dashboard.unwrap().stop_if_empty_progress);

    let mut out = BufferedSink::new();
    let err = BufferedSink::new();
    out.write_bytes(b"ok\n");
    let ev = Event::ComputationFinished(Ok::<(), String>(()), out.into_bytes(), err.into_bytes());
    match reconcile(Some(ev)) {
        Reconciled::Finished { stdout, stderr, outcome } => {
            assert_eq!(stdout, b"ok\n".to_vec());
            assert!(stderr.is_empty());
            assert!(outcome.is_ok());
        }
        _ => panic!("the computation finished, so its output must be delivered"),
    }
}

#[test]
fn progress_tree_comes_up_with_named_child() {
    let (tree, _item) = create_progress("verify-pack");
    assert_eq!(tree.num_tasks(), 1);
}

#[test]
fn porcelain_command_set() {
    let cmd = SubCommands::Init(Init {});
    assert_eq!(cmd, SubCommands::Init(Init {}));
}
