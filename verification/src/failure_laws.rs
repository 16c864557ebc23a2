//! Laws of routed-call failures: which summaries are accepted, and what failures are called.
use vstd::prelude::*;

use crate::client::{
    counted, counted_as, distinct_classes, entry_violation, summary_violation, ClientErrorView,
    FailureView, RoutedCallFailureClass, RoutedFailureCount, RoutingDisposition,
    RoutingFallbackReason,
};
use crate::text::decimal;

verus! {

/// Routing dispositions and fallback reasons have tags of their own.
pub proof fn law_dispositions_are_tagged(
    disposition: RoutingDisposition,
    reason: RoutingFallbackReason,
)
    ensures
        disposition.tag() == "stop"@ <==> disposition == RoutingDisposition::Stop,
        disposition.tag() == "next_target"@ <==> disposition == RoutingDisposition::NextTarget,
        reason.tag() == "context_window"@ <==> reason == RoutingFallbackReason::ContextWindow,
        reason.tag() == "unavailable"@ <==> reason == RoutingFallbackReason::Unavailable,
{
    reveal_strlit("stop");
    reveal_strlit("next_target");
    reveal_strlit("context_window");
    reveal_strlit("unavailable");
    assert("stop"@.len() == 4 && "next_target"@.len() == 11);
    assert("context_window"@.len() == 14 && "unavailable"@.len() == 11);
}

/// The counts of two lists add up, in all and for each class; one entry counts what it says, and
/// only for its class.
pub proof fn law_counts_add_up(
    first: Seq<RoutedFailureCount>,
    second: Seq<RoutedFailureCount>,
    one: RoutedFailureCount,
    class: RoutedCallFailureClass,
)
    ensures
        counted(first + second) == counted(first) + counted(second),
        counted_as(first + second, class) == counted_as(first, class) + counted_as(second, class),
        counted(seq![one]) == one.count as nat,
        counted_as(seq![one], class) == if one.class == class {
            one.count as nat
        } else {
            0
        },
    decreases second.len(),
{
    let single = seq![one];
    assert(single.drop_last() =~= Seq::empty());
    assert(counted(single.drop_last()) == 0);
    assert(counted_as(single.drop_last(), class) == 0);
    if second.len() == 0 {
        assert(first + second =~= first);
    } else {
        law_counts_add_up(first, second.drop_last(), one, class);
        assert((first + second).drop_last() =~= first + second.drop_last());
        assert((first + second).last() == second.last());
    }
}

/// An entry of a summary may stand: it counts something, and its class is no exhaustion.
pub open spec fn may_stand(entry: RoutedFailureCount) -> bool {
    entry.count > 0 && entry.class != RoutedCallFailureClass::ProviderTargetsExhausted
}

/// Entries are accepted exactly where each may stand and none repeats a class.
pub proof fn law_entries_are_accepted(failures: Seq<RoutedFailureCount>)
    ensures
        entry_violation(failures) is None <==> (forall|i: int|
            0 <= i < failures.len() ==> may_stand(#[trigger] failures[i])) && distinct_classes(
            failures,
        ),
    decreases failures.len(),
{
    if failures.len() > 0 {
        let rest = failures.drop_last();
        let last = failures.len() - 1;
        law_entries_are_accepted(rest);
        if entry_violation(failures) is None {
            assert forall|i: int| 0 <= i < failures.len() implies may_stand(
                #[trigger] failures[i],
            ) by {
                if i < last {
                    assert(may_stand(rest[i]));
                }
            }
            assert forall|i: int, j: int| 0 <= i < j < failures.len() implies (
            #[trigger] failures[i]).class != (#[trigger] failures[j]).class by {
                assert(rest[i].class == failures[i].class);
                if j < last {
                    assert(rest[j].class == failures[j].class);
                }
            }
        } else if (forall|i: int|
            0 <= i < failures.len() ==> may_stand(#[trigger] failures[i])) && distinct_classes(
            failures,
        ) {
            assert forall|i: int| 0 <= i < rest.len() implies may_stand(#[trigger] rest[i]) by {
                assert(may_stand(failures[i]));
            }
            assert(distinct_classes(rest)) by {
                assert forall|i: int, j: int| 0 <= i < j < rest.len() implies (
                #[trigger] rest[i]).class != (#[trigger] rest[j]).class by {
                    assert(failures[i].class != failures[j].class);
                }
            }
            assert(may_stand(failures[last]));
            assert forall|i: int| 0 <= i < rest.len() implies (#[trigger] rest[i]).class
                != failures[last].class by {
                assert(failures[i].class != failures[last].class);
            }
        }
    }
}

/// The first entry that may not stand, or that repeats a class, gives the reason.
pub proof fn law_first_bad_entry_is_named(failures: Seq<RoutedFailureCount>, n: int)
    requires
        0 <= n < failures.len(),
        entry_violation(failures.take(n)) is None,
    ensures
        failures[n].count == 0 ==> entry_violation(failures) == Some(
            "class entry has a zero count"@,
        ),
        failures[n].count > 0 && failures[n].class
            == RoutedCallFailureClass::ProviderTargetsExhausted ==> entry_violation(failures)
            == Some("exhaustion cannot nest inside a summary"@),
        may_stand(failures[n]) && (exists|i: int|
            0 <= i < n && (#[trigger] failures[i]).class == failures[n].class) ==> entry_violation(
            failures,
        ) == Some("class entry is repeated"@),
{
    let upto = failures.take(n + 1);
    assert(upto.drop_last() =~= failures.take(n));
    assert(upto.last() == failures[n]);
    if exists|i: int| 0 <= i < n && (#[trigger] failures[i]).class == failures[n].class {
        let i = choose|i: int|
            0 <= i < n && (#[trigger] failures[i]).class == failures[n].class;
        assert(failures.take(n)[i].class == failures[n].class);
    }
    if entry_violation(upto) is Some {
        lemma_violation_stays(failures, n + 1);
    }
}

proof fn lemma_violation_stays(failures: Seq<RoutedFailureCount>, n: int)
    requires
        0 <= n <= failures.len(),
        entry_violation(failures.take(n)) is Some,
    ensures
        entry_violation(failures) == entry_violation(failures.take(n)),
    decreases failures.len() - n,
{
    if n == failures.len() {
        assert(failures.take(n) =~= failures);
    } else {
        assert(failures.take(n + 1).drop_last() =~= failures.take(n));
        lemma_violation_stays(failures, n + 1);
    }
}

/// A summary is accepted exactly where it has one to sixteen candidates, its entries may stand and
/// repeat no class, its counts add up to the candidates, those under an open circuit to the
/// bypassed ones, and its retry advice is within five minutes.
pub proof fn law_summaries_are_accepted(
    attempted: u8,
    bypassed: u8,
    failures: Seq<RoutedFailureCount>,
    retry_after_ms: Option<u64>,
)
    ensures
        summary_violation(attempted, bypassed, failures, retry_after_ms) is None <==> {
            &&& 1 <= attempted + bypassed <= 16
            &&& forall|i: int| 0 <= i < failures.len() ==> may_stand(#[trigger] failures[i])
            &&& distinct_classes(failures)
            &&& counted(failures) == attempted + bypassed
            &&& counted_as(failures, RoutedCallFailureClass::CircuitOpen) == bypassed
            &&& retry_after_ms matches Some(ms) ==> ms <= 300_000
        },
{
    law_entries_are_accepted(failures);
}

/// Each reason to reject a summary is given where the conditions before it hold and its own does
/// not.
pub proof fn law_rejections_are_named(
    attempted: u8,
    bypassed: u8,
    failures: Seq<RoutedFailureCount>,
    retry_after_ms: Option<u64>,
)
    ensures
        ({
            let reason = summary_violation(attempted, bypassed, failures, retry_after_ms);
            let total = attempted + bypassed;
            let in_range = 1 <= total <= 16;
            let stands = in_range && entry_violation(failures) is None;
            let sums = stands && counted(failures) == total;
            let opens = sums && counted_as(failures, RoutedCallFailureClass::CircuitOpen)
                == bypassed;
            &&& total > 255 ==> reason == Some("candidate total overflows"@)
            &&& !in_range && total <= 255 ==> reason == Some("candidate total is outside 1..=16"@)
            &&& in_range && entry_violation(failures) is Some ==> reason == entry_violation(
                failures,
            )
            &&& stands && !sums ==> reason == Some(
                "class counts do not sum to the candidate total"@,
            )
            &&& sums && !opens ==> reason == Some("CircuitOpen count does not equal bypassed"@)
            &&& opens && (retry_after_ms matches Some(ms) && ms > 300_000) ==> reason == Some(
                "retry advice exceeds the 300000ms cap"@,
            )
        }),
{
}

/// The text of a failure is its class and disposition, and then what else is known of it: the
/// status of the provider, the candidates of an exhaustion and the retry advice, each where
/// present.
pub proof fn law_failure_text_says_what_is_known(failure: FailureView)
    ensures
        ({
            let status = match failure.provider_status {
                Some(status) => ", provider status "@ + decimal(status as nat),
                None => Seq::empty(),
            };
            let candidates = match failure.exhausted {
                Some(summary) => ", "@ + decimal(summary.attempted as nat) + " attempted, "@
                    + decimal(summary.bypassed as nat) + " bypassed"@,
                None => Seq::empty(),
            };
            let advice = match failure.retry_after_ms {
                Some(ms) => ", retry after "@ + decimal(ms as nat) + "ms"@,
                None => Seq::empty(),
            };
            failure.text() == failure.class.tag() + " ("@ + failure.disposition.tag() + ")"@
                + status + candidates + advice
        }),
{
}

/// The message of a client error says its kind and then what the error carries.
pub proof fn law_error_messages_carry_their_cause(error: ClientErrorView)
    ensures
        error.text() == (match error {
            ClientErrorView::InvalidRequest { message } => "invalid request: "@ + message,
            ClientErrorView::RequestTranslation(message) => "request translation failed: "@
                + message,
            ClientErrorView::RequestEncoding(message) => "outbound request encoding failed: "@
                + message,
            ClientErrorView::ResponseTranslation(message) => "response translation failed: "@
                + message,
            ClientErrorView::Configuration { message } => "client configuration error: "@ + message,
            ClientErrorView::Transport { source } => "upstream transport error: "@ + source,
            ClientErrorView::Timeout { source } => "upstream request timed out: "@ + source,
            ClientErrorView::ContextWindowExceeded { model, message } =>
                "context window exceeded for model "@ + model + ": "@ + message,
            ClientErrorView::UpstreamHttp { status, body } => "upstream returned HTTP "@ + decimal(
                status as nat,
            ) + ": "@ + body,
            ClientErrorView::InvalidResponse { source } => "invalid upstream response: "@ + source,
            ClientErrorView::Ffi { source } => "foreign function interface error: "@ + source,
            ClientErrorView::RoutedCall { failure } => "routed call failed: "@ + failure.text(),
            ClientErrorView::General(message) => message,
        }),
{
}

/// A failure class is known by its tag.
pub proof fn law_classes_are_tagged(class: RoutedCallFailureClass)
    ensures
        class is CircuitOpen ==> class.tag() == "circuit_open"@,
        class is ProviderTargetsExhausted ==> class.tag() == "provider_targets_exhausted"@,
        class is TargetIncompatible ==> class.tag() == "target_incompatible"@,
        class is ContextWindow ==> class.tag() == "context_window"@,
        class is RateLimit ==> class.tag() == "rate_limit"@,
        class is ProviderTimeout ==> class.tag() == "provider_timeout"@,
        class is AttemptTimeout ==> class.tag() == "attempt_timeout"@,
        class is Overloaded ==> class.tag() == "overloaded"@,
        class is Transport ==> class.tag() == "transport"@,
        class is Upstream ==> class.tag() == "upstream"@,
        class is InvalidResponse ==> class.tag() == "invalid_response"@,
        class is ProviderRejected ==> class.tag() == "provider_rejected"@,
        class is PolicyDenied ==> class.tag() == "policy_denied"@,
        class is CredentialUnavailable ==> class.tag() == "credential_unavailable"@,
        class is Configuration ==> class.tag() == "configuration"@,
        class is WorkBudget ==> class.tag() == "work_budget"@,
        class is Cancelled ==> class.tag() == "cancelled"@,
        class is Unknown ==> class.tag() == "unknown"@,
{
}

} // verus!
