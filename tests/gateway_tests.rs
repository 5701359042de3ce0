use discussion_gateway::cancel::{is_cancellation, CancelBroadcaster, PollStatus};
use discussion_gateway::gateway::{
    outcome_to_result, simulate_gateway, timeout_ms, GatewayError, GenerationRequest, TimeoutTier,
    ERR_UNSUPPORTED_MODEL, LONG_TIMEOUT_MS, SHORT_TIMEOUT_MS,
};
use discussion_gateway::policy::is_allowed_model;
use discussion_gateway::retry::{
    backoff_delay_ms, simulate_call, AttemptResult, CallOutcome, RetryConfig, RetryEngine, Action,
    Phase,
};

fn refused() -> AttemptResult {
    AttemptResult::Failed("connection refused".to_string())
}

fn standard() -> RetryConfig {
    RetryConfig::standard()
}

#[test]
fn allow_list_accepts_listed_prefixes() {
    assert!(is_allowed_model("gemma3:1b"));
    assert!(is_allowed_model("gemma3:4b"));
    assert!(is_allowed_model("gemma3:4b-it-q4_K_M"));
}

#[test]
fn allow_list_rejects_everything_else() {
    assert!(!is_allowed_model(""));
    assert!(!is_allowed_model("gemma3"));
    assert!(!is_allowed_model("gemma3:12b"));
    assert!(!is_allowed_model("GEMMA3:4b"));
    assert!(!is_allowed_model("llama3:8b"));
    assert!(!is_allowed_model(" gemma3:4b"));
}

#[test]
fn rejected_model_makes_no_attempt() {
    let replies = vec![AttemptResult::Replied("ok".to_string())];
    for model in ["llama3", "", "gemma2:2b", "gemma3:27b"] {
        let r = simulate_gateway(model.to_string(), "p".to_string(), standard(), &replies, None);
        assert!(matches!(r, Err(GatewayError::UnsupportedModel)));
    }
    let ok = simulate_gateway("gemma3:1b".to_string(), "p".to_string(), standard(), &replies, None);
    match ok {
        Ok(report) => assert_eq!(report.sends_at_ms.len(), 1),
        Err(_) => panic!("allowed model rejected"),
    }
}

#[test]
fn request_needs_an_allowed_model() {
    let q = GenerationRequest::new("gemma3:1b".to_string(), "hi".to_string(), true);
    match q {
        Ok(q) => {
            assert_eq!(q.model(), "gemma3:1b");
            assert_eq!(q.prompt(), "hi");
            assert!(q.stream());
        }
        Err(_) => panic!("allowed model rejected"),
    }
    let e = GenerationRequest::new("mistral".to_string(), "hi".to_string(), false);
    assert!(matches!(e, Err(GatewayError::UnsupportedModel)));
}

#[test]
fn unsupported_model_message() {
    assert_eq!(GatewayError::UnsupportedModel.message(), ERR_UNSUPPORTED_MODEL);
    assert_eq!(
        GatewayError::UnsupportedModel.message(),
        "サポートされていないモデルです。gemma3:1bまたはgemma3:4bを使用してください。"
    );
}

#[test]
fn cancelled_and_exhausted_messages() {
    assert_eq!(GatewayError::Cancelled.message(), "キャンセルされました");
    let e = GatewayError::ExhaustedRetries { attempts: 3, last_error: "connection refused".to_string() };
    assert_eq!(e.message(), "リクエスト失敗: connection refused");
}

#[test]
fn backoff_doubles_from_base() {
    assert_eq!(backoff_delay_ms(300, 1), 300);
    assert_eq!(backoff_delay_ms(300, 2), 600);
    assert_eq!(backoff_delay_ms(300, 3), 1200);
    assert_eq!(backoff_delay_ms(1, 11), 1024);
    assert_eq!(backoff_delay_ms(0, 5), 0);
}

#[test]
fn backoff_saturates() {
    assert_eq!(backoff_delay_ms(300, 200), u64::MAX);
    assert_eq!(backoff_delay_ms(u64::MAX, 2), u64::MAX);
    assert_eq!(backoff_delay_ms(1, 64), 1u64 << 63);
    assert_eq!(backoff_delay_ms(1, 65), u64::MAX);
}

#[test]
fn timeout_tiers() {
    assert_eq!(timeout_ms(TimeoutTier::Conversational), SHORT_TIMEOUT_MS);
    assert_eq!(timeout_ms(TimeoutTier::Analysis), LONG_TIMEOUT_MS);
    assert!(SHORT_TIMEOUT_MS < LONG_TIMEOUT_MS);
}

#[test]
fn scenario_reply_on_first_attempt() {
    let replies = vec![AttemptResult::Replied("こんにちは".to_string())];
    let r = simulate_call(standard(), &replies, None);
    assert_eq!(r.sends_at_ms, vec![0]);
    assert!(r.waits_ms.is_empty());
    match r.outcome {
        CallOutcome::Success(t) => assert_eq!(t, "こんにちは"),
        _ => panic!("expected success"),
    }
}

#[test]
fn scenario_two_refusals_then_reply() {
    let replies = vec![refused(), refused(), AttemptResult::Replied("ok".to_string())];
    let r = simulate_call(standard(), &replies, None);
    assert_eq!(r.sends_at_ms.len(), 3);
    assert_eq!(r.waits_ms, vec![300, 600]);
    assert_eq!(r.sends_at_ms, vec![0, 300, 900]);
    match r.outcome {
        CallOutcome::Success(t) => assert_eq!(t, "ok"),
        _ => panic!("expected success"),
    }
}

#[test]
fn scenario_always_refused_exhausts_after_three() {
    let replies = vec![refused(), refused(), refused(), AttemptResult::Replied("late".to_string())];
    let r = simulate_call(standard(), &replies, None);
    assert_eq!(r.sends_at_ms.len(), 3);
    assert_eq!(r.waits_ms, vec![300, 600]);
    match r.outcome {
        CallOutcome::Exhausted { attempts, last_error } => {
            assert_eq!(attempts, 3);
            assert_eq!(last_error, "connection refused");
        }
        _ => panic!("expected exhaustion"),
    }
}

#[test]
fn scenario_gateway_reports_exhausted_retries() {
    let replies = vec![refused(), refused(), refused()];
    let report = match simulate_gateway("gemma3:4b".to_string(), "p".to_string(), standard(), &replies, None) {
        Ok(report) => report,
        Err(_) => panic!("allowed model rejected"),
    };
    assert_eq!(report.sends_at_ms.len(), 3);
    match outcome_to_result(report.outcome) {
        Err(GatewayError::ExhaustedRetries { attempts, last_error }) => {
            assert_eq!(attempts, 3);
            assert_eq!(last_error, "connection refused");
        }
        _ => panic!("expected exhausted retries"),
    }
}

#[test]
fn always_failing_backend_for_several_ceilings() {
    for n in 1u32..=6 {
        let config = RetryConfig { max_attempts: n, base_delay_ms: 100, slice_ms: 50 };
        let r = simulate_call(config, &Vec::new(), None);
        assert_eq!(r.sends_at_ms.len(), n as usize);
        assert_eq!(r.waits_ms.len(), (n - 1) as usize);
        for (k, w) in r.waits_ms.iter().enumerate() {
            assert_eq!(*w, 100u64 << k);
        }
        assert!(matches!(r.outcome, CallOutcome::Exhausted { attempts, .. } if attempts == n));
    }
}

#[test]
fn scenario_cancel_during_backoff() {
    let replies = vec![refused(), AttemptResult::Replied("never".to_string())];
    let r = simulate_call(standard(), &replies, Some(10));
    assert!(matches!(r.outcome, CallOutcome::Cancelled));
    assert_eq!(r.sends_at_ms, vec![0]);
    assert!(r.elapsed_ms >= 10 && r.elapsed_ms < 10 + 50);
    assert!(r.elapsed_ms < 300);
}

#[test]
fn cancel_is_seen_within_one_slice_anywhere_in_a_wait() {
    for c in [1u64, 49, 50, 51, 299, 301, 899] {
        let r = simulate_call(standard(), &vec![refused(), refused(), refused()], Some(c));
        assert!(matches!(r.outcome, CallOutcome::Cancelled));
        assert!(r.elapsed_ms >= c && r.elapsed_ms < c + 50);
        assert!(r.sends_at_ms.iter().all(|t| *t < c));
    }
}

#[test]
fn cancel_before_first_attempt() {
    let r = simulate_call(standard(), &vec![AttemptResult::Replied("x".to_string())], Some(0));
    assert!(matches!(r.outcome, CallOutcome::Cancelled));
    assert!(r.sends_at_ms.is_empty());
}

#[test]
fn cancel_after_the_call_ended_changes_nothing() {
    let r = simulate_call(standard(), &vec![AttemptResult::Replied("x".to_string())], Some(5));
    assert!(matches!(r.outcome, CallOutcome::Success(_)));
}

#[test]
fn engine_steps_through_a_backoff() {
    let mut e = RetryEngine::new(standard());
    assert_eq!(e.next_action(), Action::Send { attempt: 1 });
    assert!(e.on_attempt_result(refused()).is_none());
    assert_eq!(e.phase, Phase::Backoff { total_ms: 300, waited_ms: 0 });
    for _ in 0..5 {
        assert_eq!(e.next_action(), Action::Sleep { ms: 50 });
        e.on_slept();
    }
    assert_eq!(e.next_action(), Action::Sleep { ms: 50 });
    e.on_slept();
    assert_eq!(e.next_action(), Action::Send { attempt: 2 });
    assert!(matches!(e.on_cancel(), CallOutcome::Cancelled));
    assert_eq!(e.next_action(), Action::Stop);
}

#[test]
fn outcome_classification() {
    assert!(matches!(outcome_to_result(CallOutcome::Success("t".to_string())), Ok(t) if t == "t"));
    assert!(matches!(outcome_to_result(CallOutcome::Cancelled), Err(GatewayError::Cancelled)));
    assert!(matches!(
        outcome_to_result(CallOutcome::Exhausted { attempts: 2, last_error: "e".to_string() }),
        Err(GatewayError::ExhaustedRetries { attempts: 2, .. })
    ));
}

#[test]
fn new_listener_does_not_see_past_cancellation() {
    let mut b = CancelBroadcaster::new();
    b.emit_cancel();
    b.emit_cancel();
    let mut l = b.subscribe();
    assert_eq!(l.poll(&b), PollStatus::Empty);
    b.emit_cancel();
    assert_eq!(l.poll(&b), PollStatus::Signalled);
    assert_eq!(l.poll(&b), PollStatus::Empty);
}

#[test]
fn emit_without_listeners_is_harmless() {
    let mut b = CancelBroadcaster::new();
    b.emit_cancel();
    assert_eq!(b.sent, 1);
}

#[test]
fn lagging_listener_still_cancels() {
    let mut b = CancelBroadcaster::new();
    let mut l = b.subscribe();
    for _ in 0..100 {
        b.emit_cancel();
    }
    let p = l.poll(&b);
    assert_eq!(p, PollStatus::Signalled);
    assert!(is_cancellation(p));
}

#[test]
fn every_listener_sees_a_broadcast() {
    let mut b = CancelBroadcaster::new();
    let mut l1 = b.subscribe();
    let mut l2 = b.subscribe();
    b.emit_cancel();
    assert_eq!(l1.poll(&b), PollStatus::Signalled);
    assert_eq!(l2.poll(&b), PollStatus::Signalled);
}

#[test]
fn closed_broadcaster_cancels() {
    let mut b = CancelBroadcaster::new();
    let mut l = b.subscribe();
    b.close();
    let p = l.poll(&b);
    assert_eq!(p, PollStatus::Closed);
    assert!(is_cancellation(p));
    assert!(!is_cancellation(PollStatus::Empty));
}

#[test]
fn attempts_go_out_when_each_wait_ends() {
    let config = RetryConfig { max_attempts: 4, base_delay_ms: 100, slice_ms: 30 };
    let r = simulate_call(config, &Vec::new(), None);
    assert_eq!(r.sends_at_ms, vec![0, 100, 300, 700]);
    assert_eq!(r.waits_ms, vec![100, 200, 400]);
    assert_eq!(r.elapsed_ms, 700);
}

#[test]
fn cancel_in_the_second_wait_stops_before_the_third_attempt() {
    let replies = vec![refused(), refused(), AttemptResult::Replied("x".to_string())];
    let r = simulate_call(standard(), &replies, Some(310));
    assert!(matches!(r.outcome, CallOutcome::Cancelled));
    assert_eq!(r.sends_at_ms, vec![0, 300]);
    assert!(r.elapsed_ms >= 310 && r.elapsed_ms < 360);
}

#[test]
fn cancel_at_the_end_of_a_wait_prevents_the_next_attempt() {
    let r = simulate_call(standard(), &vec![refused(), AttemptResult::Replied("x".to_string())], Some(300));
    assert!(matches!(r.outcome, CallOutcome::Cancelled));
    assert_eq!(r.sends_at_ms, vec![0]);
    assert_eq!(r.elapsed_ms, 300);
}
