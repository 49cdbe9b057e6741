use tripwired::audit::AuditTrail;
use tripwired::audit::ModelFingerprint;
use tripwired::filter::Filter;
use tripwired::filter::FilterConfig;
use tripwired::kernel::KernelConfig;
use tripwired::kernel::LineOutcome;
use tripwired::kernel::Stats;
use tripwired::kernel::process_line;
use tripwired::llm::ClassifierOutcome;

fn setup(target_pid: Option<u32>) -> (AuditTrail, Stats, Filter, KernelConfig) {
    let fp = ModelFingerprint::new("test-model", "http://localhost:1234/v1", 30, 0);
    let (trail, _header) = AuditTrail::new(fp, "prompt", 1_000);
    let stats = Stats::default();
    let filter = Filter::new(&FilterConfig::default()).unwrap();
    let config = KernelConfig {
        llm_url: "http://localhost:1234/v1".to_string(),
        model: "test-model".to_string(),
        max_tokens: 30,
        target_pid,
    };
    (trail, stats, filter, config)
}

#[test]
fn test_safe_line_recorded_filtered() {
    let (mut trail, mut stats, filter, config) = setup(None);
    let out = process_line(
        &mut trail,
        &mut stats,
        &filter,
        &config,
        "User logged in successfully",
        None,
        2_000,
        7,
    );
    match out {
        LineOutcome::Recorded { record, line_json, kill_pid } => {
            assert_eq!(record.action, "SUSTAIN");
            assert_eq!(record.confidence, 100);
            assert!(record.filtered);
            assert_eq!(record.id, 1);
            assert_eq!(record.latency_ms, 7);
            assert!(record.raw_response.is_none());
            assert!(kill_pid.is_none());
            assert!(line_json.contains("\"filtered\":true"));
        }
        LineOutcome::NeedsClassifier { .. } => panic!("safe line must not reach the classifier"),
    }
    assert_eq!(stats.filtered, 1);
    assert_eq!(stats.analyzed, 0);
}

#[test]
fn test_dangerous_line_routed_to_classifier_in_every_preset() {
    for domain in [None, Some("trading"), Some("devops"), Some("generic")] {
        let config = FilterConfig {
            domain: domain.map(|d| d.to_string()),
            patterns: vec![],
            exclude: vec![],
        };
        let filter = Filter::new(&config).unwrap();
        assert!(filter.is_suspicious("rm -rf /"), "under {:?}", domain);

        let (mut trail, mut stats, _f, kcfg) = setup(None);
        let out = process_line(&mut trail, &mut stats, &filter, &kcfg, "rm -rf /", None, 1, 1);
        match out {
            LineOutcome::NeedsClassifier { prompt } => assert!(prompt.contains("rm -rf /")),
            LineOutcome::Recorded { .. } => panic!("suspicious line must await the classifier"),
        }
        // nothing recorded yet
        assert_eq!(trail.next_id(), 1);
        assert_eq!(stats.analyzed, 0);
    }
}

#[test]
fn test_kill_reply_actuates_configured_pid() {
    let (mut trail, mut stats, filter, config) = setup(Some(4242));
    let outcome = ClassifierOutcome::Reply("{\"action\":\"KILL\"}".to_string());
    let out = process_line(&mut trail, &mut stats, &filter, &config, "rm -rf /", Some(outcome), 3, 120);
    match out {
        LineOutcome::Recorded { record, line_json, kill_pid } => {
            assert_eq!(record.action, "KILL");
            assert_eq!(record.confidence, 90);
            assert!(!record.filtered);
            // the ledger line exists before any actuation can happen
            assert!(line_json.contains("\"action\":\"KILL\""));
            assert_eq!(kill_pid, Some(4242));
        }
        LineOutcome::NeedsClassifier { .. } => panic!("outcome was provided"),
    }
    assert_eq!(stats.kills, 1);
    assert_eq!(stats.analyzed, 1);
    assert_eq!(stats.total_latency_ms, 120);
}

#[test]
fn test_kill_reply_without_pid_actuates_nothing() {
    let (mut trail, mut stats, filter, config) = setup(None);
    let outcome = ClassifierOutcome::Reply("{\"action\":\"KILL\"}".to_string());
    let out = process_line(&mut trail, &mut stats, &filter, &config, "rm -rf /", Some(outcome), 3, 5);
    match out {
        LineOutcome::Recorded { kill_pid, .. } => assert_eq!(kill_pid, None),
        LineOutcome::NeedsClassifier { .. } => panic!("outcome was provided"),
    }
    assert_eq!(stats.kills, 1);
}

#[test]
fn test_ambiguous_reply_recorded_as_fail() {
    let (mut trail, mut stats, filter, config) = setup(Some(1));
    let outcome = ClassifierOutcome::Reply("I'm not sure what to do".to_string());
    let out = process_line(&mut trail, &mut stats, &filter, &config, "rm -rf /", Some(outcome), 3, 5);
    match out {
        LineOutcome::Recorded { record, kill_pid, .. } => {
            assert_eq!(record.action, "FAIL");
            assert_eq!(record.confidence, 0);
            assert_eq!(kill_pid, None);
        }
        LineOutcome::NeedsClassifier { .. } => panic!("outcome was provided"),
    }
    assert_eq!(stats.kills, 0);
}

#[test]
fn test_timeout_recorded_with_fallback_action() {
    let (mut trail, mut stats, filter, config) = setup(Some(1));
    let outcome = ClassifierOutcome::TransportError("operation timed out".to_string());
    let out = process_line(&mut trail, &mut stats, &filter, &config, "rm -rf /", Some(outcome), 3, 1500);
    match out {
        LineOutcome::Recorded { record, kill_pid, .. } => {
            assert_eq!(record.action, "SUSTAIN");
            assert_eq!(record.confidence, 0);
            assert_eq!(record.raw_response.as_deref(), Some("ERROR: operation timed out"));
            assert_eq!(kill_pid, None);
        }
        LineOutcome::NeedsClassifier { .. } => panic!("outcome was provided"),
    }
    // a transport failure counts as neither filtered nor analyzed
    assert_eq!(stats.analyzed, 0);
    assert_eq!(stats.filtered, 0);
}

#[test]
fn test_exactly_one_record_per_line() {
    let (mut trail, mut stats, filter, config) = setup(None);

    // safe line: one record, one call
    process_line(&mut trail, &mut stats, &filter, &config, "Session initialized", None, 1, 1);
    assert_eq!(trail.next_id(), 2);

    // suspicious line: no record while awaiting, one after the outcome
    let out = process_line(&mut trail, &mut stats, &filter, &config, "rm -rf /", None, 2, 1);
    assert!(matches!(out, LineOutcome::NeedsClassifier { .. }));
    assert_eq!(trail.next_id(), 2);
    let outcome = ClassifierOutcome::Reply("{\"action\":\"SUSTAIN\"}".to_string());
    let out = process_line(&mut trail, &mut stats, &filter, &config, "rm -rf /", Some(outcome), 2, 9);
    match out {
        LineOutcome::Recorded { record, .. } => assert_eq!(record.id, 2),
        LineOutcome::NeedsClassifier { .. } => panic!("outcome was provided"),
    }
    assert_eq!(trail.next_id(), 3);
}

#[test]
fn test_excluded_line_never_reaches_classifier() {
    let fcfg = FilterConfig {
        domain: Some("trading".to_string()),
        patterns: vec![],
        exclude: vec![r"(?i)test.*order".to_string()],
    };
    let filter = Filter::new(&fcfg).unwrap();
    let (mut trail, mut stats, _f, config) = setup(None);
    let out = process_line(
        &mut trail,
        &mut stats,
        &filter,
        &config,
        "Test order #123 placed",
        None,
        1,
        1,
    );
    match out {
        LineOutcome::Recorded { record, .. } => {
            assert_eq!(record.action, "SUSTAIN");
            assert!(record.filtered);
        }
        LineOutcome::NeedsClassifier { .. } => panic!("whitelisted line must be filtered"),
    }
}

#[test]
fn test_stats_default_is_zero() {
    let stats = Stats::default();
    assert_eq!(stats.filtered, 0);
    assert_eq!(stats.analyzed, 0);
    assert_eq!(stats.kills, 0);
    assert_eq!(stats.total_latency_ms, 0);
}
