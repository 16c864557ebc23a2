//! Routed-call failures and routing decisions.
use switchyard::client::{
    Decision, LlmClientError, ProviderTargetsExhaustedSummary, RoutedCallFailure,
    RoutedCallFailureClass, RoutedFailureCount, RoutingDisposition, RoutingFallbackReason,
    MAX_ROUTED_RETRY_AFTER_MS,
};

/// Every class, so the tag table below cannot silently miss one.
const ALL_CLASSES: [RoutedCallFailureClass; 18] = [
    RoutedCallFailureClass::CircuitOpen,
    RoutedCallFailureClass::ProviderTargetsExhausted,
    RoutedCallFailureClass::TargetIncompatible,
    RoutedCallFailureClass::ContextWindow,
    RoutedCallFailureClass::RateLimit,
    RoutedCallFailureClass::ProviderTimeout,
    RoutedCallFailureClass::AttemptTimeout,
    RoutedCallFailureClass::Overloaded,
    RoutedCallFailureClass::Transport,
    RoutedCallFailureClass::Upstream,
    RoutedCallFailureClass::InvalidResponse,
    RoutedCallFailureClass::ProviderRejected,
    RoutedCallFailureClass::PolicyDenied,
    RoutedCallFailureClass::CredentialUnavailable,
    RoutedCallFailureClass::Configuration,
    RoutedCallFailureClass::WorkBudget,
    RoutedCallFailureClass::Cancelled,
    RoutedCallFailureClass::Unknown,
];

/// Stable tags are published contract: a host orders and labels by them, so changing
/// one silently reorders aggregates and breaks telemetry continuity.
#[test]
fn stable_tags_are_immutable_and_unique() {
    let expected = [
        "circuit_open",
        "provider_targets_exhausted",
        "target_incompatible",
        "context_window",
        "rate_limit",
        "provider_timeout",
        "attempt_timeout",
        "overloaded",
        "transport",
        "upstream",
        "invalid_response",
        "provider_rejected",
        "policy_denied",
        "credential_unavailable",
        "configuration",
        "work_budget",
        "cancelled",
        "unknown",
    ];
    let tags: Vec<&str> = ALL_CLASSES.iter().map(|class| class.stable_tag()).collect();
    assert_eq!(tags, expected);

    let mut unique = tags.clone();
    unique.sort_unstable();
    unique.dedup();
    assert_eq!(unique.len(), tags.len(), "stable tags must be unique");
}

#[test]
fn dispositions_carry_stable_tags() {
    assert_eq!(RoutingDisposition::Stop.as_str(), "stop");
    assert_eq!(RoutingDisposition::NextTarget.as_str(), "next_target");
}

#[test]
fn summary_accepts_a_complete_partition() {
    let summary = ProviderTargetsExhaustedSummary::new(
        3,
        1,
        vec![
            RoutedFailureCount::new(RoutedCallFailureClass::RateLimit, 2),
            RoutedFailureCount::new(RoutedCallFailureClass::CircuitOpen, 1),
            RoutedFailureCount::new(RoutedCallFailureClass::Overloaded, 1),
        ],
        Some(1_500),
    )
    .expect("valid partition");

    assert_eq!(summary.attempted(), 3);
    assert_eq!(summary.bypassed(), 1);
    assert_eq!(summary.retry_after_ms(), Some(1_500));
}

/// Entries order by immutable tag, never by declaration order: `CircuitOpen` is
/// declared first but sorts after `attempt_timeout`.
#[test]
fn summary_orders_entries_by_stable_tag() {
    let summary = ProviderTargetsExhaustedSummary::new(
        2,
        1,
        vec![
            RoutedFailureCount::new(RoutedCallFailureClass::CircuitOpen, 1),
            RoutedFailureCount::new(RoutedCallFailureClass::Upstream, 1),
            RoutedFailureCount::new(RoutedCallFailureClass::AttemptTimeout, 1),
        ],
        None,
    )
    .expect("valid partition");

    let tags: Vec<&str> = summary
        .failures()
        .iter()
        .map(|entry| entry.class.stable_tag())
        .collect();
    assert_eq!(tags, ["attempt_timeout", "circuit_open", "upstream"]);
}

#[test]
fn summary_rejects_every_broken_invariant() {
    // Empty candidate set: exhaustion needs at least one candidate.
    assert!(ProviderTargetsExhaustedSummary::new(0, 0, Vec::new(), None).is_err());

    // Above the 16-candidate bound.
    assert!(
        ProviderTargetsExhaustedSummary::new(
            17,
            0,
            vec![RoutedFailureCount::new(
                RoutedCallFailureClass::RateLimit,
                17
            )],
            None,
        )
        .is_err()
    );

    // Zero count.
    assert!(
        ProviderTargetsExhaustedSummary::new(
            1,
            0,
            vec![
                RoutedFailureCount::new(RoutedCallFailureClass::RateLimit, 1),
                RoutedFailureCount::new(RoutedCallFailureClass::Upstream, 0),
            ],
            None,
        )
        .is_err()
    );

    // Repeated class.
    assert!(
        ProviderTargetsExhaustedSummary::new(
            2,
            0,
            vec![
                RoutedFailureCount::new(RoutedCallFailureClass::RateLimit, 1),
                RoutedFailureCount::new(RoutedCallFailureClass::RateLimit, 1),
            ],
            None,
        )
        .is_err()
    );

    // Exhaustion never nests inside its own summary.
    assert!(
        ProviderTargetsExhaustedSummary::new(
            1,
            0,
            vec![RoutedFailureCount::new(
                RoutedCallFailureClass::ProviderTargetsExhausted,
                1,
            )],
            None,
        )
        .is_err()
    );

    // Counts do not sum to attempted + bypassed.
    assert!(
        ProviderTargetsExhaustedSummary::new(
            3,
            0,
            vec![RoutedFailureCount::new(
                RoutedCallFailureClass::RateLimit,
                2
            )],
            None,
        )
        .is_err()
    );

    // CircuitOpen count must equal bypassed exactly.
    assert!(
        ProviderTargetsExhaustedSummary::new(
            1,
            1,
            vec![
                RoutedFailureCount::new(RoutedCallFailureClass::CircuitOpen, 2),
                RoutedFailureCount::new(RoutedCallFailureClass::RateLimit, 1),
            ],
            None,
        )
        .is_err()
    );

    // A bypass counted as an attempt leaves the non-CircuitOpen sum wrong.
    assert!(
        ProviderTargetsExhaustedSummary::new(
            2,
            1,
            vec![
                RoutedFailureCount::new(RoutedCallFailureClass::CircuitOpen, 1),
                RoutedFailureCount::new(RoutedCallFailureClass::RateLimit, 1),
            ],
            None,
        )
        .is_err()
    );

    // Retry advice above the cap is not truthful public contract.
    assert!(
        ProviderTargetsExhaustedSummary::new(
            1,
            0,
            vec![RoutedFailureCount::new(
                RoutedCallFailureClass::RateLimit,
                1
            )],
            Some(MAX_ROUTED_RETRY_AFTER_MS + 1),
        )
        .is_err()
    );
}

#[test]
fn summary_accepts_advice_at_the_cap() {
    let summary = ProviderTargetsExhaustedSummary::new(
        1,
        0,
        vec![RoutedFailureCount::new(
            RoutedCallFailureClass::RateLimit,
            1,
        )],
        Some(MAX_ROUTED_RETRY_AFTER_MS),
    )
    .expect("advice at the cap is in bounds");
    assert_eq!(summary.retry_after_ms(), Some(MAX_ROUTED_RETRY_AFTER_MS));
}

#[test]
fn direct_failure_carries_disposition_and_no_summary() {
    let failure = RoutedCallFailure::new(
        RoutedCallFailureClass::RateLimit,
        RoutingDisposition::NextTarget,
        Some(2_000),
        Some(429),
    )
    .expect("valid direct failure");

    assert_eq!(failure.class(), RoutedCallFailureClass::RateLimit);
    assert_eq!(failure.disposition(), RoutingDisposition::NextTarget);
    assert_eq!(failure.retry_after_ms(), Some(2_000));
    assert_eq!(failure.provider_status(), Some(429));
    assert!(failure.exhausted().is_none());
}

#[test]
fn direct_failure_rejects_exhaustion_class_and_over_cap_advice() {
    assert!(
        RoutedCallFailure::new(
            RoutedCallFailureClass::ProviderTargetsExhausted,
            RoutingDisposition::NextTarget,
            None,
            None,
        )
        .is_err()
    );
    assert!(
        RoutedCallFailure::new(
            RoutedCallFailureClass::RateLimit,
            RoutingDisposition::NextTarget,
            Some(MAX_ROUTED_RETRY_AFTER_MS + 1),
            None,
        )
        .is_err()
    );
}

/// The exhaustion failure's shape is fixed: `NextTarget`, no provider status, and
/// retry advice that always equals the summary's.
#[test]
fn exhaustion_failure_has_the_contract_shape() {
    let summary = ProviderTargetsExhaustedSummary::new(
        2,
        0,
        vec![
            RoutedFailureCount::new(RoutedCallFailureClass::RateLimit, 1),
            RoutedFailureCount::new(RoutedCallFailureClass::Overloaded, 1),
        ],
        Some(4_000),
    )
    .expect("valid partition");
    let failure = RoutedCallFailure::targets_exhausted(summary.clone());

    assert_eq!(
        failure.class(),
        RoutedCallFailureClass::ProviderTargetsExhausted
    );
    assert_eq!(failure.disposition(), RoutingDisposition::NextTarget);
    assert_eq!(failure.provider_status(), None);
    assert_eq!(failure.retry_after_ms(), summary.retry_after_ms());
    assert_eq!(failure.exhausted(), Some(&summary));
}

/// The rendered failure is bounded and provider-neutral: tags and numbers only.
#[test]
fn display_is_bounded_and_provider_neutral() {
    let failure = RoutedCallFailure::new(
        RoutedCallFailureClass::Overloaded,
        RoutingDisposition::NextTarget,
        Some(1_000),
        Some(529),
    )
    .expect("valid direct failure");
    assert_eq!(
        failure.to_string(),
        "overloaded (next_target), provider status 529, retry after 1000ms"
    );

    let error = LlmClientError::RoutedCall { failure };
    assert_eq!(
        error.to_string(),
        "routed call failed: overloaded (next_target), provider status 529, retry after 1000ms"
    );
}

fn reason_of(
    attempted: u8,
    bypassed: u8,
    failures: Vec<RoutedFailureCount>,
    retry_after_ms: Option<u64>,
) -> &'static str {
    ProviderTargetsExhaustedSummary::new(attempted, bypassed, failures, retry_after_ms)
        .expect_err("broken invariant")
        .reason()
}

#[test]
fn each_broken_invariant_names_its_reason() {
    let rate = |count| RoutedFailureCount::new(RoutedCallFailureClass::RateLimit, count);
    let open = |count| RoutedFailureCount::new(RoutedCallFailureClass::CircuitOpen, count);
    let nested = RoutedFailureCount::new(RoutedCallFailureClass::ProviderTargetsExhausted, 1);

    assert_eq!(reason_of(200, 100, vec![], None), "candidate total overflows");
    assert_eq!(reason_of(0, 0, vec![], None), "candidate total is outside 1..=16");
    assert_eq!(reason_of(17, 0, vec![rate(17)], None), "candidate total is outside 1..=16");
    assert_eq!(reason_of(1, 0, vec![rate(0)], None), "class entry has a zero count");
    assert_eq!(reason_of(1, 0, vec![nested], None), "exhaustion cannot nest inside a summary");
    assert_eq!(reason_of(2, 0, vec![rate(1), rate(1)], None), "class entry is repeated");
    assert_eq!(
        reason_of(3, 0, vec![rate(2)], None),
        "class counts do not sum to the candidate total"
    );
    assert_eq!(
        reason_of(1, 1, vec![open(2)], None),
        "CircuitOpen count does not equal bypassed"
    );
    assert_eq!(
        reason_of(1, 0, vec![rate(1)], Some(MAX_ROUTED_RETRY_AFTER_MS + 1)),
        "retry advice exceeds the 300000ms cap"
    );
    // The first broken entry decides, whatever follows it.
    assert_eq!(reason_of(1, 0, vec![nested, rate(0)], None), "exhaustion cannot nest inside a summary");
    let violation = ProviderTargetsExhaustedSummary::new(0, 0, vec![], None).expect_err("empty");
    assert_eq!(
        violation.to_string(),
        "routed-call contract violated: candidate total is outside 1..=16"
    );
}

#[test]
fn direct_failures_name_their_violation() {
    let exhausted = RoutedCallFailure::new(
        RoutedCallFailureClass::ProviderTargetsExhausted,
        RoutingDisposition::Stop,
        Some(MAX_ROUTED_RETRY_AFTER_MS + 1),
        None,
    );
    assert_eq!(
        exhausted.expect_err("exhaustion class").reason(),
        "exhaustion requires a bounded summary"
    );
    let over = RoutedCallFailure::new(
        RoutedCallFailureClass::Unknown,
        RoutingDisposition::Stop,
        Some(MAX_ROUTED_RETRY_AFTER_MS + 1),
        None,
    );
    assert_eq!(
        over.expect_err("over the cap").reason(),
        "retry advice exceeds the 300000ms cap"
    );
}

#[test]
fn entry_order_does_not_depend_on_input_order() {
    let entries = [
        RoutedFailureCount::new(RoutedCallFailureClass::WorkBudget, 2),
        RoutedFailureCount::new(RoutedCallFailureClass::CircuitOpen, 3),
        RoutedFailureCount::new(RoutedCallFailureClass::Cancelled, 1),
    ];
    let forward = ProviderTargetsExhaustedSummary::new(3, 3, entries.to_vec(), None);
    let mut reversed = entries.to_vec();
    reversed.reverse();
    let backward = ProviderTargetsExhaustedSummary::new(3, 3, reversed, None);
    assert_eq!(forward, backward);
    let summary = forward.expect("valid partition");
    let other: u8 = summary
        .failures()
        .iter()
        .filter(|entry| entry.class != RoutedCallFailureClass::CircuitOpen)
        .map(|entry| entry.count)
        .sum();
    assert_eq!(other, summary.attempted());
}

#[test]
fn longest_failure_text_is_within_its_bound() {
    let summary = ProviderTargetsExhaustedSummary::new(
        16,
        0,
        vec![RoutedFailureCount::new(RoutedCallFailureClass::RateLimit, 16)],
        Some(300_000),
    )
    .expect("valid partition");
    let text = RoutedCallFailure::targets_exhausted(summary).to_string();
    assert_eq!(
        text,
        "provider_targets_exhausted (next_target), 16 attempted, 0 bypassed, retry after 300000ms"
    );
    assert!(text.len() <= 114);
}

#[test]
fn client_errors_render_their_messages() {
    let text = |error: LlmClientError| error.to_string();
    let s = |text: &str| text.to_string();
    assert_eq!(text(LlmClientError::InvalidRequest { message: s("m") }), "invalid request: m");
    assert_eq!(
        text(LlmClientError::RequestTranslation(s("m"))),
        "request translation failed: m"
    );
    assert_eq!(
        text(LlmClientError::RequestEncoding(s("m"))),
        "outbound request encoding failed: m"
    );
    assert_eq!(
        text(LlmClientError::ResponseTranslation(s("m"))),
        "response translation failed: m"
    );
    assert_eq!(
        text(LlmClientError::Configuration { message: s("m") }),
        "client configuration error: m"
    );
    assert_eq!(
        text(LlmClientError::Transport { source: s("m") }),
        "upstream transport error: m"
    );
    assert_eq!(
        text(LlmClientError::Timeout { source: s("m") }),
        "upstream request timed out: m"
    );
    assert_eq!(
        text(LlmClientError::ContextWindowExceeded { model: s("x"), message: s("m") }),
        "context window exceeded for model x: m"
    );
    assert_eq!(
        text(LlmClientError::UpstreamHttp { status: 503, body: s("down") }),
        "upstream returned HTTP 503: down"
    );
    assert_eq!(
        text(LlmClientError::InvalidResponse { source: s("m") }),
        "invalid upstream response: m"
    );
    assert_eq!(
        text(LlmClientError::Ffi { source: s("m") }),
        "foreign function interface error: m"
    );
    assert_eq!(text(LlmClientError::General(s("m"))), "m");
}

#[test]
fn decisions_and_fallback_reasons_are_read_back() {
    let decision = Decision::new("fast".to_string(), Some("cheap".to_string()), true);
    assert_eq!(decision.selected_model_id(), "fast");
    assert_eq!(decision.reasoning(), Some("cheap"));
    assert!(decision.is_answer_call());
    let verdict = Decision::new("judge".to_string(), None, false);
    assert_eq!(verdict.reasoning(), None);
    assert!(!verdict.is_answer_call());
    assert_eq!(RoutingFallbackReason::ContextWindow.as_str(), "context_window");
    assert_eq!(RoutingFallbackReason::Unavailable.as_str(), "unavailable");
}

#[test]
fn tags_print_as_they_are() {
    for class in ALL_CLASSES {
        assert_eq!(class.to_string(), class.stable_tag());
    }
    assert_eq!(RoutingDisposition::Stop.to_string(), "stop");
    assert_eq!(RoutingDisposition::NextTarget.to_string(), "next_target");
}
