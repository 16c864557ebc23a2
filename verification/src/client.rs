//! Routing decisions and the typed, provider-neutral failures of a routed call.
use vstd::prelude::*;
use vstd::string::*;

use crate::text::{
    before, decimal, decimal_text, law_order_irreflexive, law_order_total, law_order_transitive,
    lemma_decimal_len, opt_str, opt_text, text_before,
};

verus! {

/// Largest retry advice, in milliseconds, a routed-call failure may carry.
///
/// Advice above this bound is not accepted: a routing host must bound its own
/// provider hint before it becomes public contract.
pub const MAX_ROUTED_RETRY_AFTER_MS: u64 = 300_000;

/// Largest number of provider candidates one exhaustion summary may account for.
pub const MAX_PROVIDER_TARGETS: u8 = 16;

/// Whether routing may replace the failed target with another candidate.
///
/// This is the routing host's explicit instruction. Routing consumes it directly and
/// never re-derives fallback policy from a transport or HTTP status.
#[derive(Clone, Copy, Debug, Eq, Hash, Ord, PartialEq, PartialOrd, Structural)]
pub enum RoutingDisposition {
    /// The failure is terminal for this route; do not try another target.
    Stop,
    /// Another eligible target may serve the request.
    NextTarget,
}

impl RoutingDisposition {
    /// Stable value of a disposition.
    pub open spec fn tag(self) -> Seq<char> {
        match self {
            RoutingDisposition::Stop => "stop"@,
            RoutingDisposition::NextTarget => "next_target"@,
        }
    }

    /// Stable value embedded in routing reasoning and telemetry.
    pub fn as_str(self) -> (tag: &'static str)
        ensures
            tag@ == self.tag(),
    {
        match self {
            RoutingDisposition::Stop => "stop",
            RoutingDisposition::NextTarget => "next_target",
        }
    }

    /// The stable value.
    pub fn to_string(&self) -> (text: String)
        ensures
            text@ == self.tag(),
    {
        self.as_str().to_owned()
    }
}

/// Provider-neutral class of a routed-call failure.
///
/// The class names *what kind* of failure occurred, never which provider produced it.
/// It carries no provider body, message, target name, or health evidence: a routing
/// host keeps that private. New classes may be added, so match non-exhaustively.
#[non_exhaustive]
#[derive(Clone, Copy, Debug, Eq, Hash, Ord, PartialEq, PartialOrd, Structural)]
pub enum RoutedCallFailureClass {
    /// The target was skipped because its availability circuit was open.
    CircuitOpen,
    /// Every provider candidate for the selected model was attempted or bypassed.
    ProviderTargetsExhausted,
    /// The target cannot serve this request's capabilities or profile.
    TargetIncompatible,
    /// The request exceeds the target's context window.
    ContextWindow,
    /// A rate, spend, or quota limit was enforced.
    RateLimit,
    /// The provider or model timed out processing the request.
    ProviderTimeout,
    /// The routing host's own per-attempt timeout elapsed.
    AttemptTimeout,
    /// The provider identified itself as overloaded or out of capacity.
    Overloaded,
    /// The call failed before a provider response head arrived.
    Transport,
    /// The provider returned a failure that identifies no more specific class.
    Upstream,
    /// The provider response could not be decoded or validated.
    InvalidResponse,
    /// The provider rejected the request on its own terms.
    ProviderRejected,
    /// Host policy denied the call.
    PolicyDenied,
    /// The credential for the target could not be obtained or used.
    CredentialUnavailable,
    /// The target's configuration is invalid.
    Configuration,
    /// The call's work or attempt budget is spent.
    WorkBudget,
    /// The caller cancelled, or the route deadline elapsed.
    Cancelled,
    /// The failure could not be classified.
    Unknown,
}

impl RoutedCallFailureClass {
    /// Stable tag of a class.
    pub open spec fn tag(self) -> Seq<char> {
        match self {
            RoutedCallFailureClass::CircuitOpen => "circuit_open"@,
            RoutedCallFailureClass::ProviderTargetsExhausted => "provider_targets_exhausted"@,
            RoutedCallFailureClass::TargetIncompatible => "target_incompatible"@,
            RoutedCallFailureClass::ContextWindow => "context_window"@,
            RoutedCallFailureClass::RateLimit => "rate_limit"@,
            RoutedCallFailureClass::ProviderTimeout => "provider_timeout"@,
            RoutedCallFailureClass::AttemptTimeout => "attempt_timeout"@,
            RoutedCallFailureClass::Overloaded => "overloaded"@,
            RoutedCallFailureClass::Transport => "transport"@,
            RoutedCallFailureClass::Upstream => "upstream"@,
            RoutedCallFailureClass::InvalidResponse => "invalid_response"@,
            RoutedCallFailureClass::ProviderRejected => "provider_rejected"@,
            RoutedCallFailureClass::PolicyDenied => "policy_denied"@,
            RoutedCallFailureClass::CredentialUnavailable => "credential_unavailable"@,
            RoutedCallFailureClass::Configuration => "configuration"@,
            RoutedCallFailureClass::WorkBudget => "work_budget"@,
            RoutedCallFailureClass::Cancelled => "cancelled"@,
            RoutedCallFailureClass::Unknown => "unknown"@,
        }
    }

    /// Stable tag for reasoning, telemetry, and aggregate ordering.
    ///
    /// These values are contract: they are immutable once published, so a host may
    /// order and label by them across releases.
    pub fn stable_tag(self) -> (tag: &'static str)
        ensures
            tag@ == self.tag(),
    {
        match self {
            RoutedCallFailureClass::CircuitOpen => "circuit_open",
            RoutedCallFailureClass::ProviderTargetsExhausted => "provider_targets_exhausted",
            RoutedCallFailureClass::TargetIncompatible => "target_incompatible",
            RoutedCallFailureClass::ContextWindow => "context_window",
            RoutedCallFailureClass::RateLimit => "rate_limit",
            RoutedCallFailureClass::ProviderTimeout => "provider_timeout",
            RoutedCallFailureClass::AttemptTimeout => "attempt_timeout",
            RoutedCallFailureClass::Overloaded => "overloaded",
            RoutedCallFailureClass::Transport => "transport",
            RoutedCallFailureClass::Upstream => "upstream",
            RoutedCallFailureClass::InvalidResponse => "invalid_response",
            RoutedCallFailureClass::ProviderRejected => "provider_rejected",
            RoutedCallFailureClass::PolicyDenied => "policy_denied",
            RoutedCallFailureClass::CredentialUnavailable => "credential_unavailable",
            RoutedCallFailureClass::Configuration => "configuration",
            RoutedCallFailureClass::WorkBudget => "work_budget",
            RoutedCallFailureClass::Cancelled => "cancelled",
            RoutedCallFailureClass::Unknown => "unknown",
        }
    }

    /// The stable tag.
    pub fn to_string(&self) -> (text: String)
        ensures
            text@ == self.tag(),
    {
        self.stable_tag().to_owned()
    }

    /// Position in declaration order.
    spec fn rank(self) -> int {
        match self {
            RoutedCallFailureClass::CircuitOpen => 0,
            RoutedCallFailureClass::ProviderTargetsExhausted => 1,
            RoutedCallFailureClass::TargetIncompatible => 2,
            RoutedCallFailureClass::ContextWindow => 3,
            RoutedCallFailureClass::RateLimit => 4,
            RoutedCallFailureClass::ProviderTimeout => 5,
            RoutedCallFailureClass::AttemptTimeout => 6,
            RoutedCallFailureClass::Overloaded => 7,
            RoutedCallFailureClass::Transport => 8,
            RoutedCallFailureClass::Upstream => 9,
            RoutedCallFailureClass::InvalidResponse => 10,
            RoutedCallFailureClass::ProviderRejected => 11,
            RoutedCallFailureClass::PolicyDenied => 12,
            RoutedCallFailureClass::CredentialUnavailable => 13,
            RoutedCallFailureClass::Configuration => 14,
            RoutedCallFailureClass::WorkBudget => 15,
            RoutedCallFailureClass::Cancelled => 16,
            RoutedCallFailureClass::Unknown => 17,
        }
    }
}

/// Length and first character of each tag; no two tags share both.
proof fn lemma_tag_shape(class: RoutedCallFailureClass)
    ensures
        class.tag().len() == (match class {
            RoutedCallFailureClass::CircuitOpen => 12nat,
            RoutedCallFailureClass::ProviderTargetsExhausted => 26,
            RoutedCallFailureClass::TargetIncompatible => 19,
            RoutedCallFailureClass::ContextWindow => 14,
            RoutedCallFailureClass::RateLimit => 10,
            RoutedCallFailureClass::ProviderTimeout => 16,
            RoutedCallFailureClass::AttemptTimeout => 15,
            RoutedCallFailureClass::Overloaded => 10,
            RoutedCallFailureClass::Transport => 9,
            RoutedCallFailureClass::Upstream => 8,
            RoutedCallFailureClass::InvalidResponse => 16,
            RoutedCallFailureClass::ProviderRejected => 17,
            RoutedCallFailureClass::PolicyDenied => 13,
            RoutedCallFailureClass::CredentialUnavailable => 22,
            RoutedCallFailureClass::Configuration => 13,
            RoutedCallFailureClass::WorkBudget => 11,
            RoutedCallFailureClass::Cancelled => 9,
            RoutedCallFailureClass::Unknown => 7,
        }),
        class is RateLimit ==> class.tag()[0] == 'r',
        class is Overloaded ==> class.tag()[0] == 'o',
        class is ProviderTimeout ==> class.tag()[0] == 'p',
        class is InvalidResponse ==> class.tag()[0] == 'i',
        class is PolicyDenied ==> class.tag()[0] == 'p',
        class is Configuration ==> class.tag()[0] == 'c',
        class is Transport ==> class.tag()[0] == 't',
        class is Cancelled ==> class.tag()[0] == 'c',
{
    reveal_strlit("circuit_open");
    reveal_strlit("provider_targets_exhausted");
    reveal_strlit("target_incompatible");
    reveal_strlit("context_window");
    reveal_strlit("rate_limit");
    reveal_strlit("provider_timeout");
    reveal_strlit("attempt_timeout");
    reveal_strlit("overloaded");
    reveal_strlit("transport");
    reveal_strlit("upstream");
    reveal_strlit("invalid_response");
    reveal_strlit("provider_rejected");
    reveal_strlit("policy_denied");
    reveal_strlit("credential_unavailable");
    reveal_strlit("configuration");
    reveal_strlit("work_budget");
    reveal_strlit("cancelled");
    reveal_strlit("unknown");
}

/// Stable tags are unique: classes with the same tag are the same class.
pub proof fn law_stable_tags_unique(a: RoutedCallFailureClass, b: RoutedCallFailureClass)
    requires
        a.tag() == b.tag(),
    ensures
        a == b,
{
    lemma_tag_shape(a);
    lemma_tag_shape(b);
}

/// A routed-call contract invariant a caller tried to violate.
///
/// A routing host maps this to its own terminal routing-invariant error rather than
/// guessing a status: an unenforceable summary is a host bug, not a provider outcome.
#[derive(Clone, Copy, Debug, Eq, Hash, PartialEq)]
pub struct RoutedFailureInvariant {
    reason: &'static str,
}

impl View for RoutedFailureInvariant {
    type V = Seq<char>;

    closed spec fn view(&self) -> Seq<char> {
        self.reason@
    }
}

impl RoutedFailureInvariant {
    /// Which invariant was violated.
    pub fn reason(self) -> (reason: &'static str)
        ensures
            reason@ == self@,
    {
        self.reason
    }

    /// Human-readable message.
    pub fn to_string(&self) -> (text: String)
        ensures
            text@ == "routed-call contract violated: "@ + self@,
    {
        "routed-call contract violated: ".to_owned().concat(self.reason)
    }
}

/// Builds a contract violation. Reasons are fixed strings, never caller or provider text.
fn invariant_violation(reason: &'static str) -> (violation: RoutedFailureInvariant)
    ensures
        violation@ == reason@,
{
    RoutedFailureInvariant { reason }
}

/// How many candidates failed with one class.
#[derive(Clone, Copy, Debug, Eq, Hash, PartialEq, Structural)]
pub struct RoutedFailureCount {
    /// The failure class these candidates shared.
    pub class: RoutedCallFailureClass,
    /// How many candidates failed this way. Never zero in a valid summary.
    pub count: u8,
}

impl RoutedFailureCount {
    /// Builds one class entry.
    pub fn new(class: RoutedCallFailureClass, count: u8) -> (entry: Self)
        ensures
            entry.class == class,
            entry.count == count,
    {
        RoutedFailureCount { class, count }
    }
}

/// Sum of the counts of all entries.
pub open spec fn counted(failures: Seq<RoutedFailureCount>) -> nat
    decreases failures.len(),
{
    if failures.len() == 0 {
        0
    } else {
        counted(failures.drop_last()) + failures.last().count as nat
    }
}

/// Sum of the counts of the entries of one class.
pub open spec fn counted_as(
    failures: Seq<RoutedFailureCount>,
    class: RoutedCallFailureClass,
) -> nat
    decreases failures.len(),
{
    if failures.len() == 0 {
        0
    } else {
        counted_as(failures.drop_last(), class) + (if failures.last().class == class {
            failures.last().count as nat
        } else {
            0
        })
    }
}

/// Sum of the counts of the entries of every other class.
pub open spec fn counted_except(
    failures: Seq<RoutedFailureCount>,
    class: RoutedCallFailureClass,
) -> nat
    decreases failures.len(),
{
    if failures.len() == 0 {
        0
    } else {
        counted_except(failures.drop_last(), class) + (if failures.last().class != class {
            failures.last().count as nat
        } else {
            0
        })
    }
}

/// Some entry has the class.
pub open spec fn names_class(
    failures: Seq<RoutedFailureCount>,
    class: RoutedCallFailureClass,
) -> bool {
    exists|i: int| 0 <= i < failures.len() && (#[trigger] failures[i]).class == class
}

/// Each class appears at most once.
pub open spec fn distinct_classes(failures: Seq<RoutedFailureCount>) -> bool {
    forall|i: int, j: int|
        0 <= i < j < failures.len() ==> (#[trigger] failures[i]).class != (
        #[trigger] failures[j]).class
}

/// Entries are in ascending order of their stable tags.
pub open spec fn in_tag_order(failures: Seq<RoutedFailureCount>) -> bool {
    forall|i: int, j: int|
        0 <= i < j < failures.len() ==> before(
            (#[trigger] failures[i]).class.tag(),
            (#[trigger] failures[j]).class.tag(),
        )
}

/// Why the first inadmissible entry is inadmissible, if there is one.
pub open spec fn entry_violation(failures: Seq<RoutedFailureCount>) -> Option<Seq<char>>
    decreases failures.len(),
{
    if failures.len() == 0 {
        None
    } else {
        match entry_violation(failures.drop_last()) {
            Some(reason) => Some(reason),
            None => {
                if failures.last().count == 0 {
                    Some("class entry has a zero count"@)
                } else if failures.last().class
                    == RoutedCallFailureClass::ProviderTargetsExhausted {
                    Some("exhaustion cannot nest inside a summary"@)
                } else if names_class(failures.drop_last(), failures.last().class) {
                    Some("class entry is repeated"@)
                } else {
                    None
                }
            },
        }
    }
}

/// Retry advice is absent or within the cap.
pub open spec fn advice_in_bounds(retry_after_ms: Option<u64>) -> bool {
    retry_after_ms matches Some(ms) ==> ms <= MAX_ROUTED_RETRY_AFTER_MS
}

/// Why no summary has these contents, if none has.
pub open spec fn summary_violation(
    attempted: u8,
    bypassed: u8,
    failures: Seq<RoutedFailureCount>,
    retry_after_ms: Option<u64>,
) -> Option<Seq<char>> {
    let total = attempted + bypassed;
    if total > u8::MAX {
        Some("candidate total overflows"@)
    } else if total == 0 || total > MAX_PROVIDER_TARGETS {
        Some("candidate total is outside 1..=16"@)
    } else if entry_violation(failures) is Some {
        entry_violation(failures)
    } else if counted(failures) != total {
        Some("class counts do not sum to the candidate total"@)
    } else if counted_as(failures, RoutedCallFailureClass::CircuitOpen) != bypassed {
        Some("CircuitOpen count does not equal bypassed"@)
    } else if !advice_in_bounds(retry_after_ms) {
        Some("retry advice exceeds the 300000ms cap"@)
    } else {
        None
    }
}

/// Contents of an exhaustion summary.
pub struct SummaryView {
    /// Candidates that reached a real provider attempt.
    pub attempted: u8,
    /// Candidates skipped because their circuit was open.
    pub bypassed: u8,
    /// Per-class counts.
    pub failures: Seq<RoutedFailureCount>,
    /// Aggregate retry advice.
    pub retry_after_ms: Option<u64>,
}

impl SummaryView {
    /// The invariants of every summary.
    pub open spec fn valid(self) -> bool {
        &&& 1 <= self.attempted + self.bypassed <= MAX_PROVIDER_TARGETS
        &&& forall|i: int|
            0 <= i < self.failures.len() ==> (#[trigger] self.failures[i]).count > 0
                && self.failures[i].class != RoutedCallFailureClass::ProviderTargetsExhausted
        &&& distinct_classes(self.failures)
        &&& in_tag_order(self.failures)
        &&& counted(self.failures) == self.attempted + self.bypassed
        &&& counted_as(self.failures, RoutedCallFailureClass::CircuitOpen) == self.bypassed
        &&& advice_in_bounds(self.retry_after_ms)
    }
}

proof fn lemma_no_entry_violation(failures: Seq<RoutedFailureCount>)
    ensures
        entry_violation(failures) is None <==> {
            &&& forall|i: int|
                0 <= i < failures.len() ==> (#[trigger] failures[i]).count > 0
                    && failures[i].class != RoutedCallFailureClass::ProviderTargetsExhausted
            &&& distinct_classes(failures)
        },
    decreases failures.len(),
{
    if failures.len() > 0 {
        let rest = failures.drop_last();
        let last = failures.len() - 1;
        lemma_no_entry_violation(rest);
        assert(failures.last() == failures[last]);
        assert forall|i: int| 0 <= i < rest.len() implies #[trigger] rest[i] == failures[i] by {}
        if entry_violation(failures) is None {
            assert forall|i: int| 0 <= i < failures.len() implies (#[trigger] failures[i]).count > 0
                && failures[i].class != RoutedCallFailureClass::ProviderTargetsExhausted by {
                if i < last {
                    assert(rest[i].count > 0);
                }
            }
            assert forall|i: int, j: int| 0 <= i < j < failures.len() implies (
            #[trigger] failures[i]).class != (#[trigger] failures[j]).class by {
                if j < last {
                    assert(rest[i].class != rest[j].class);
                } else {
                    assert(rest[i].class == failures[i].class);
                }
            }
        } else if distinct_classes(failures) && (forall|i: int|
            0 <= i < failures.len() ==> (#[trigger] failures[i]).count > 0 && failures[i].class
                != RoutedCallFailureClass::ProviderTargetsExhausted) {
            assert(distinct_classes(rest));
            assert(failures[last].count > 0);
            assert(names_class(rest, failures[last].class));
            let i = choose|i: int|
                0 <= i < rest.len() && (#[trigger] rest[i]).class == failures[last].class;
            assert(failures[i].class == failures[last].class);
        }
    }
}

/// An inadmissible prefix makes the whole list inadmissible, for the same reason.
proof fn lemma_violation_of_prefix(failures: Seq<RoutedFailureCount>, n: int)
    requires
        0 <= n <= failures.len(),
        entry_violation(failures.take(n)) is Some,
    ensures
        entry_violation(failures) == entry_violation(failures.take(n)),
    decreases failures.len() - n,
{
    if n == failures.len() {
        assert(failures.take(n) =~= failures);
    } else {
        assert(failures.take(n + 1).drop_last() =~= failures.take(n));
        lemma_violation_of_prefix(failures, n + 1);
    }
}

/// Distinct classes are at most as many as there are classes, so their counts stay small.
proof fn lemma_counted_bound(failures: Seq<RoutedFailureCount>)
    requires
        distinct_classes(failures),
    ensures
        failures.len() <= 18,
        counted(failures) <= 18 * 255,
{
    let ranks = failures.map_values(|entry: RoutedFailureCount| entry.class.rank());
    assert(ranks.no_duplicates()) by {
        assert forall|i: int, j: int|
            0 <= i < ranks.len() && 0 <= j < ranks.len() && i != j implies ranks[i] != ranks[j] by {
            if i < j {
                assert(failures[i].class != failures[j].class);
            } else {
                assert(failures[j].class != failures[i].class);
            }
        }
    }
    ranks.unique_seq_to_set();
    vstd::set_lib::lemma_int_range(0, 18);
    vstd::set_lib::lemma_len_subset(ranks.to_set(), vstd::set_lib::set_int_range(0, 18));
    lemma_counted_by_len(failures);
}

proof fn lemma_counted_by_len(failures: Seq<RoutedFailureCount>)
    ensures
        counted(failures) <= failures.len() * 255,
    decreases failures.len(),
{
    if failures.len() > 0 {
        lemma_counted_by_len(failures.drop_last());
    }
}

/// Sums depend on the entries alone, not on their order.
proof fn lemma_counts_of_permutation(
    a: Seq<RoutedFailureCount>,
    b: Seq<RoutedFailureCount>,
    class: RoutedCallFailureClass,
)
    requires
        a.to_multiset() == b.to_multiset(),
    ensures
        counted(a) == counted(b),
        counted_as(a, class) == counted_as(b, class),
    decreases a.len(),
{
    broadcast use vstd::seq_lib::group_to_multiset_ensures;

    assert(a.len() == a.to_multiset().len() && b.len() == b.to_multiset().len());
    if a.len() > 0 {
        let last = a.last();
        assert(a[a.len() - 1] == last);
        assert(a.contains(last));
        assert(b.to_multiset().contains(last));
        assert(b.contains(last));
        let i = b.index_of(last);
        assert(b[i] == last);
        lemma_counts_of_removal(b, i, class);
        assert(a.drop_last() =~= a.remove(a.len() - 1));
        assert(a.drop_last().to_multiset() =~= b.remove(i).to_multiset());
        lemma_counts_of_permutation(a.drop_last(), b.remove(i), class);
    }
}

proof fn lemma_counts_of_removal(
    b: Seq<RoutedFailureCount>,
    i: int,
    class: RoutedCallFailureClass,
)
    requires
        0 <= i < b.len(),
    ensures
        counted(b) == counted(b.remove(i)) + b[i].count,
        counted_as(b, class) == counted_as(b.remove(i), class) + (if b[i].class == class {
            b[i].count as nat
        } else {
            0
        }),
    decreases b.len(),
{
    if i == b.len() - 1 {
        assert(b.remove(i) =~= b.drop_last());
    } else {
        lemma_counts_of_removal(b.drop_last(), i, class);
        assert(b.remove(i).drop_last() =~= b.drop_last().remove(i));
        assert(b.remove(i).last() == b.last());
        assert(b.drop_last()[i] == b[i]);
    }
}

/// Properties of each entry, and the absence of repeats, survive reordering.
proof fn lemma_entries_of_permutation(a: Seq<RoutedFailureCount>, b: Seq<RoutedFailureCount>)
    requires
        a.to_multiset() == b.to_multiset(),
        forall|i: int|
            0 <= i < a.len() ==> (#[trigger] a[i]).count > 0 && a[i].class
                != RoutedCallFailureClass::ProviderTargetsExhausted,
    ensures
        forall|i: int|
            0 <= i < b.len() ==> (#[trigger] b[i]).count > 0 && b[i].class
                != RoutedCallFailureClass::ProviderTargetsExhausted,
{
    broadcast use vstd::seq_lib::group_to_multiset_ensures;

    assert forall|i: int| 0 <= i < b.len() implies (#[trigger] b[i]).count > 0 && b[i].class
        != RoutedCallFailureClass::ProviderTargetsExhausted by {
        assert(b.contains(b[i]));
        assert(a.to_multiset().contains(b[i]));
        assert(a.contains(b[i]));
    }
}

/// In tag order no class is repeated.
proof fn lemma_tag_order_is_distinct(failures: Seq<RoutedFailureCount>)
    requires
        in_tag_order(failures),
    ensures
        distinct_classes(failures),
{
    assert forall|i: int, j: int| 0 <= i < j < failures.len() implies (
    #[trigger] failures[i]).class != (#[trigger] failures[j]).class by {
        law_order_irreflexive(failures[i].class.tag());
        assert(before(failures[i].class.tag(), failures[j].class.tag()));
    }
}

/// Entries of distinct classes in ascending order of their stable tags.
fn sort_by_tag(failures: &Vec<RoutedFailureCount>) -> (sorted: Vec<RoutedFailureCount>)
    requires
        distinct_classes(failures@),
    ensures
        sorted@.to_multiset() == failures@.to_multiset(),
        in_tag_order(sorted@),
{
    broadcast use vstd::seq_lib::group_to_multiset_ensures;

    let n = failures.len();
    let mut sorted: Vec<RoutedFailureCount> = Vec::new();
    let mut i: usize = 0;
    assert(failures@.take(0) =~= Seq::empty());
    while i < n
        invariant
            n == failures@.len(),
            i <= n,
            distinct_classes(failures@),
            sorted@.len() == i,
            sorted@.to_multiset() == failures@.take(i as int).to_multiset(),
            in_tag_order(sorted@),
        decreases n - i,
    {
        let entry = failures[i];
        let tag = entry.class.stable_tag();
        let mut at: usize = 0;
        while at < sorted.len()
            invariant
                at <= sorted@.len(),
                tag@ == entry.class.tag(),
                forall|k: int| 0 <= k < at ==> before((#[trigger] sorted@[k]).class.tag(), tag@),
            ensures
                at <= sorted@.len(),
                forall|k: int| 0 <= k < at ==> before((#[trigger] sorted@[k]).class.tag(), tag@),
                at < sorted@.len() ==> !before(sorted@[at as int].class.tag(), tag@),
            decreases sorted@.len() - at,
        {
            if !text_before(sorted[at].class.stable_tag(), tag) {
                break;
            }
            at += 1;
        }
        let ghost was = sorted@;
        proof {
            broadcast use vstd::seq_lib::group_to_multiset_ensures;

            assert forall|k: int| at <= k < was.len() implies before(
                tag@,
                (#[trigger] was[k]).class.tag(),
            ) by {
                let head = was[at as int];
                assert(head.class != entry.class) by {
                    assert(was.contains(head));
                    assert(failures@.take(i as int).to_multiset().contains(head));
                    assert(failures@.take(i as int).contains(head));
                    let j = choose|j: int|
                        0 <= j < i && failures@.take(i as int)[j] == head;
                    assert(failures@[j] == head);
                    assert(failures@[j].class != failures@[i as int].class);
                }
                if head.class.tag() == tag@ {
                    law_stable_tags_unique(head.class, entry.class);
                }
                law_order_total(tag@, head.class.tag());
                if k > at {
                    assert(before(head.class.tag(), was[k].class.tag()));
                    law_order_transitive(tag@, head.class.tag(), was[k].class.tag());
                }
            }
        }
        sorted.insert(at, entry);
        proof {
            let new = sorted@;
            assert(new == was.insert(at as int, entry));
            assert forall|a: int, b: int| 0 <= a < b < new.len() implies before(
                (#[trigger] new[a]).class.tag(),
                (#[trigger] new[b]).class.tag(),
            ) by {
                let x = if a < at { a } else { a - 1 };
                let y = if b < at { b } else { b - 1 };
                if a == at {
                    assert(new[b] == was[y]);
                } else if b == at {
                    assert(new[a] == was[x]);
                } else {
                    assert(new[a] == was[x] && new[b] == was[y]);
                    assert(before(was[x].class.tag(), was[y].class.tag()));
                }
            }
            assert(failures@.take(i + 1) =~= failures@.take(i as int).push(entry));
            assert(new.to_multiset() =~= was.to_multiset().insert(entry)) by {
                broadcast use vstd::seq_lib::group_to_multiset_ensures;

                assert(new.remove(at as int) =~= was);
                assert(new[at as int] == entry);
                assert(new.contains(entry));
            }
            assert(failures@.take(i + 1).to_multiset() =~= failures@.take(
                i as int,
            ).to_multiset().insert(entry)) by {
                broadcast use vstd::seq_lib::group_to_multiset_ensures;

            }
        }
        i += 1;
    }
    assert(failures@.take(n as int) =~= failures@);
    sorted
}

/// Bounded evidence that every provider candidate for one model was spent.
///
/// The summary is a partition: each attempted candidate and each candidate bypassed by
/// an open circuit is counted exactly once, under exactly one class. It names no
/// target, carries no provider text, and never nests another exhaustion.
///
/// [`Self::new`] is the only constructor, so a value of this type always satisfies
/// every invariant in the contract.
#[derive(Debug, Eq, PartialEq)]
pub struct ProviderTargetsExhaustedSummary {
    attempted: u8,
    bypassed: u8,
    failures: Vec<RoutedFailureCount>,
    retry_after_ms: Option<u64>,
}

impl View for ProviderTargetsExhaustedSummary {
    type V = SummaryView;

    closed spec fn view(&self) -> SummaryView {
        SummaryView {
            attempted: self.attempted,
            bypassed: self.bypassed,
            failures: self.failures@,
            retry_after_ms: self.retry_after_ms,
        }
    }
}

impl Clone for ProviderTargetsExhaustedSummary {
    /// Copies the summary.
    fn clone(&self) -> (copy: Self)
        ensures
            copy@ == self@,
    {
        proof {
            use_type_invariant(self);
        }
        let failures = self.failures.clone();
        assert(failures@ =~= self.failures@);
        ProviderTargetsExhaustedSummary {
            attempted: self.attempted,
            bypassed: self.bypassed,
            failures,
            retry_after_ms: self.retry_after_ms,
        }
    }
}

impl ProviderTargetsExhaustedSummary {
    #[verifier::type_invariant]
    spec fn inv(self) -> bool {
        self@.valid()
    }

    /// Builds a validated summary, ordering entries by immutable
    /// [`stable_tag`](RoutedCallFailureClass::stable_tag) rather than declaration order.
    ///
    /// # Errors
    ///
    /// Returns [`RoutedFailureInvariant`] unless every invariant holds:
    /// `attempted + bypassed` is in `1..=`[`MAX_PROVIDER_TARGETS`]; each class appears
    /// once with a nonzero count; no entry is
    /// [`ProviderTargetsExhausted`](RoutedCallFailureClass::ProviderTargetsExhausted),
    /// so exhaustion never recurses; the counts sum to `attempted + bypassed`;
    /// the [`CircuitOpen`](RoutedCallFailureClass::CircuitOpen) count equals `bypassed`
    /// exactly, leaving every other count to sum to `attempted`; and any retry advice
    /// is within [`MAX_ROUTED_RETRY_AFTER_MS`].
    pub fn new(
        attempted: u8,
        bypassed: u8,
        failures: Vec<RoutedFailureCount>,
        retry_after_ms: Option<u64>,
    ) -> (result: Result<Self, RoutedFailureInvariant>)
        ensures
            match summary_violation(attempted, bypassed, failures@, retry_after_ms) {
                Some(reason) => result matches Err(violation) && violation@ == reason,
                None => result matches Ok(summary) && {
                    &&& summary@.valid()
                    &&& summary@.attempted == attempted
                    &&& summary@.bypassed == bypassed
                    &&& summary@.failures.to_multiset() == failures@.to_multiset()
                    &&& in_tag_order(summary@.failures)
                    &&& summary@.retry_after_ms == retry_after_ms
                },
            },
    {
        let total: u8 = match attempted.checked_add(bypassed) {
            Some(total) => total,
            None => {
                return Err(invariant_violation("candidate total overflows"));
            },
        };
        if total == 0 || total > MAX_PROVIDER_TARGETS {
            return Err(invariant_violation("candidate total is outside 1..=16"));
        }
        let n = failures.len();
        let mut sum: u32 = 0;
        let mut circuit_open: u32 = 0;
        let mut i: usize = 0;
        assert(failures@.take(0) =~= Seq::empty());
        while i < n
            invariant
                n == failures@.len(),
                i <= n,
                total == attempted + bypassed,
                0 < total <= MAX_PROVIDER_TARGETS,
                entry_violation(failures@.take(i as int)) is None,
                sum == counted(failures@.take(i as int)),
                circuit_open == counted_as(
                    failures@.take(i as int),
                    RoutedCallFailureClass::CircuitOpen,
                ),
                circuit_open <= sum,
            decreases n - i,
        {
            let entry = failures[i];
            let ghost seen = failures@.take(i as int);
            let ghost next = failures@.take(i + 1);
            proof {
                assert(next.drop_last() =~= seen);
                assert(next.last() == entry);
                lemma_no_entry_violation(seen);
                lemma_counted_bound(seen);
                if entry_violation(next) is Some {
                    lemma_violation_of_prefix(failures@, i + 1);
                }
            }
            if entry.count == 0 {
                return Err(invariant_violation("class entry has a zero count"));
            }
            if entry.class == RoutedCallFailureClass::ProviderTargetsExhausted {
                return Err(invariant_violation("exhaustion cannot nest inside a summary"));
            }
            let mut j: usize = 0;
            while j < i
                invariant
                    j <= i < n,
                    n == failures@.len(),
                    entry == failures@[i as int],
                    seen == failures@.take(i as int),
                    total == attempted + bypassed,
                    0 < total <= MAX_PROVIDER_TARGETS,
                    entry.count != 0,
                    entry.class != RoutedCallFailureClass::ProviderTargetsExhausted,
                    next == failures@.take(i + 1),
                    next.drop_last() == seen,
                    next.last() == entry,
                    entry_violation(seen) is None,
                    entry_violation(next) is Some ==> entry_violation(failures@)
                        == entry_violation(next),
                    forall|k: int| 0 <= k < j ==> (#[trigger] seen[k]).class != entry.class,
                decreases i - j,
            {
                if failures[j].class == entry.class {
                    assert(seen[j as int].class == entry.class);
                    assert(names_class(seen, entry.class));
                    return Err(invariant_violation("class entry is repeated"));
                }
                j += 1;
            }
            assert(!names_class(seen, entry.class));
            sum = sum + entry.count as u32;
            if entry.class == RoutedCallFailureClass::CircuitOpen {
                proof {
                    lemma_absent_class(seen, entry.class);
                }
                circuit_open = entry.count as u32;
            }
            i += 1;
        }
        assert(failures@.take(n as int) =~= failures@);
        if sum != total as u32 {
            return Err(invariant_violation("class counts do not sum to the candidate total"));
        }
        if circuit_open != bypassed as u32 {
            return Err(invariant_violation("CircuitOpen count does not equal bypassed"));
        }
        if exceeds_cap(retry_after_ms) {
            return Err(invariant_violation("retry advice exceeds the 300000ms cap"));
        }
        proof {
            lemma_no_entry_violation(failures@);
        }
        let sorted = sort_by_tag(&failures);
        proof {
            lemma_counts_of_permutation(
                failures@,
                sorted@,
                RoutedCallFailureClass::CircuitOpen,
            );
            lemma_entries_of_permutation(failures@, sorted@);
            lemma_tag_order_is_distinct(sorted@);
        }
        Ok(ProviderTargetsExhaustedSummary { attempted, bypassed, failures: sorted, retry_after_ms })
    }

    /// Candidates that reached a real provider attempt.
    pub fn attempted(&self) -> (attempted: u8)
        ensures
            attempted == self@.attempted,
            self@.valid(),
    {
        proof {
            use_type_invariant(self);
        }
        self.attempted
    }

    /// Candidates skipped before contact because their circuit was open.
    pub fn bypassed(&self) -> (bypassed: u8)
        ensures
            bypassed == self@.bypassed,
            self@.valid(),
    {
        proof {
            use_type_invariant(self);
        }
        self.bypassed
    }

    /// Per-class counts, ordered by stable tag.
    pub fn failures(&self) -> (failures: &[RoutedFailureCount])
        ensures
            failures@ == self@.failures,
            self@.valid(),
    {
        proof {
            use_type_invariant(self);
        }
        self.failures.as_slice()
    }

    /// Aggregate retry advice, when every exhausted candidate supplied a truthful hint.
    pub fn retry_after_ms(&self) -> (advice: Option<u64>)
        ensures
            advice == self@.retry_after_ms,
            self@.valid(),
    {
        proof {
            use_type_invariant(self);
        }
        self.retry_after_ms
    }
}

/// Whether retry advice is above the cap.
fn exceeds_cap(retry_after_ms: Option<u64>) -> (over: bool)
    ensures
        over == !advice_in_bounds(retry_after_ms),
{
    match retry_after_ms {
        Some(ms) => ms > MAX_ROUTED_RETRY_AFTER_MS,
        None => false,
    }
}

/// A class that no entry has is counted zero times.
proof fn lemma_absent_class(failures: Seq<RoutedFailureCount>, class: RoutedCallFailureClass)
    requires
        !names_class(failures, class),
    ensures
        counted_as(failures, class) == 0,
    decreases failures.len(),
{
    if failures.len() > 0 {
        let rest = failures.drop_last();
        assert(failures.last() == failures[failures.len() - 1]);
        if names_class(rest, class) {
            let i = choose|i: int| 0 <= i < rest.len() && (#[trigger] rest[i]).class == class;
            assert(failures[i].class == class);
        }
        lemma_absent_class(rest, class);
    }
}

/// The counts of a summary partition its candidates: those under
/// [`CircuitOpen`](RoutedCallFailureClass::CircuitOpen) are the bypassed ones, and every other
/// count sums to the attempted ones.
pub proof fn law_summary_is_a_partition(summary: SummaryView)
    requires
        summary.valid(),
    ensures
        counted_as(summary.failures, RoutedCallFailureClass::CircuitOpen) == summary.bypassed,
        counted_except(summary.failures, RoutedCallFailureClass::CircuitOpen)
            == summary.attempted,
{
    lemma_split_counts(summary.failures, RoutedCallFailureClass::CircuitOpen);
}

proof fn lemma_split_counts(failures: Seq<RoutedFailureCount>, class: RoutedCallFailureClass)
    ensures
        counted(failures) == counted_as(failures, class) + counted_except(failures, class),
    decreases failures.len(),
{
    if failures.len() > 0 {
        lemma_split_counts(failures.drop_last(), class);
    }
}

/// Entries of a summary stand in an order that their tags alone decide: two summaries of the same
/// entries list them in the same order.
pub proof fn law_summary_order_is_canonical(a: SummaryView, b: SummaryView)
    requires
        a.valid(),
        b.valid(),
        a.failures.to_multiset() == b.failures.to_multiset(),
    ensures
        a.failures == b.failures,
{
    lemma_same_order(a.failures, b.failures);
}

proof fn lemma_same_order(a: Seq<RoutedFailureCount>, b: Seq<RoutedFailureCount>)
    requires
        in_tag_order(a),
        in_tag_order(b),
        a.to_multiset() == b.to_multiset(),
    ensures
        a == b,
    decreases a.len(),
{
    broadcast use vstd::seq_lib::group_to_multiset_ensures;

    assert(a.len() == a.to_multiset().len() && b.len() == b.to_multiset().len());
    if a.len() == 0 {
        assert(a =~= b);
    } else {
        let n = a.len() - 1;
        let x = a[n];
        let y = b[n];
        assert(x == y) by {
            assert(a.contains(x) && b.contains(y));
            assert(b.to_multiset().count(x) > 0 && a.to_multiset().count(y) > 0);
            let i = choose|i: int| 0 <= i < b.len() && b[i] == x;
            let j = choose|j: int| 0 <= j < a.len() && a[j] == y;
            if i < n && j < n {
                assert(before(b[i].class.tag(), b[n].class.tag()));
                assert(before(a[j].class.tag(), a[n].class.tag()));
                law_order_transitive(x.class.tag(), y.class.tag(), x.class.tag());
                law_order_irreflexive(x.class.tag());
            }
        }
        assert(a.drop_last() =~= a.remove(n));
        assert(b.drop_last() =~= b.remove(n));
        lemma_same_order(a.drop_last(), b.drop_last());
        assert(a =~= a.drop_last().push(x));
        assert(b =~= b.drop_last().push(y));
    }
}

/// Contents of a routed-call failure.
pub struct FailureView {
    /// What kind of failure this is.
    pub class: RoutedCallFailureClass,
    /// Whether routing may try another target.
    pub disposition: RoutingDisposition,
    /// Bounded retry advice.
    pub retry_after_ms: Option<u64>,
    /// The provider's status code.
    pub provider_status: Option<u16>,
    /// The exhaustion summary.
    pub exhausted: Option<SummaryView>,
}

impl FailureView {
    /// The invariants of every failure: the exhaustion class, and no other, carries a summary,
    /// and fixes disposition, status and advice.
    pub open spec fn valid(self) -> bool {
        &&& advice_in_bounds(self.retry_after_ms)
        &&& match self.exhausted {
            Some(summary) => {
                &&& summary.valid()
                &&& self.class == RoutedCallFailureClass::ProviderTargetsExhausted
                &&& self.disposition == RoutingDisposition::NextTarget
                &&& self.provider_status is None
                &&& self.retry_after_ms == summary.retry_after_ms
            },
            None => self.class != RoutedCallFailureClass::ProviderTargetsExhausted,
        }
    }

    /// Rendered failure: tags and numbers only.
    pub open spec fn text(self) -> Seq<char> {
        self.class.tag() + " ("@ + self.disposition.tag() + ")"@ + (match self.provider_status {
            Some(status) => ", provider status "@ + decimal(status as nat),
            None => Seq::empty(),
        }) + (match self.exhausted {
            Some(summary) => ", "@ + decimal(summary.attempted as nat) + " attempted, "@ + decimal(
                summary.bypassed as nat,
            ) + " bypassed"@,
            None => Seq::empty(),
        }) + (match self.retry_after_ms {
            Some(ms) => ", retry after "@ + decimal(ms as nat) + "ms"@,
            None => Seq::empty(),
        })
    }
}

/// The rendered failure is bounded.
pub proof fn law_failure_text_is_bounded(failure: FailureView)
    requires
        failure.valid(),
    ensures
        failure.text().len() <= 114,
{
    reveal_strlit("stop");
    reveal_strlit("next_target");
    reveal_strlit(" (");
    reveal_strlit(")");
    reveal_strlit(", provider status ");
    reveal_strlit(", ");
    reveal_strlit(" attempted, ");
    reveal_strlit(" bypassed");
    reveal_strlit(", retry after ");
    reveal_strlit("ms");
    lemma_tag_shape(failure.class);
    assert(vstd::arithmetic::power::pow(10, 3) == 1000 && vstd::arithmetic::power::pow(10, 5)
        == 100000 && vstd::arithmetic::power::pow(10, 6) == 1000000) by {
        reveal_with_fuel(vstd::arithmetic::power::pow, 7);
    }
    if let Some(status) = failure.provider_status {
        lemma_decimal_len(status as nat, 5);
    }
    if let Some(summary) = failure.exhausted {
        lemma_decimal_len(summary.attempted as nat, 3);
        lemma_decimal_len(summary.bypassed as nat, 3);
    }
    if let Some(ms) = failure.retry_after_ms {
        lemma_decimal_len(ms as nat, 6);
    }
}

/// A routing host's typed, provider-neutral call failure.
///
/// It carries the host's explicit [`RoutingDisposition`] so routing never re-derives
/// fallback policy from an HTTP status, plus a bounded class, an optional bounded
/// provider status, and optional bounded retry advice. It deliberately holds no
/// provider body, message, target name, or availability evidence.
#[derive(Debug, Eq, PartialEq)]
pub struct RoutedCallFailure {
    class: RoutedCallFailureClass,
    disposition: RoutingDisposition,
    retry_after_ms: Option<u64>,
    provider_status: Option<u16>,
    exhausted: Option<ProviderTargetsExhaustedSummary>,
}

impl View for RoutedCallFailure {
    type V = FailureView;

    closed spec fn view(&self) -> FailureView {
        FailureView {
            class: self.class,
            disposition: self.disposition,
            retry_after_ms: self.retry_after_ms,
            provider_status: self.provider_status,
            exhausted: match self.exhausted {
                Some(summary) => Some(summary@),
                None => None,
            },
        }
    }
}

impl Clone for RoutedCallFailure {
    /// Copies the failure.
    fn clone(&self) -> (copy: Self)
        ensures
            copy@ == self@,
    {
        proof {
            use_type_invariant(self);
        }
        RoutedCallFailure {
            class: self.class,
            disposition: self.disposition,
            retry_after_ms: self.retry_after_ms,
            provider_status: self.provider_status,
            exhausted: match &self.exhausted {
                Some(summary) => Some(summary.clone()),
                None => None,
            },
        }
    }
}

/// Contents of an optional summary.
pub open spec fn opt_summary(
    summary: Option<&ProviderTargetsExhaustedSummary>,
) -> Option<SummaryView> {
    match summary {
        Some(summary) => Some(summary@),
        None => None,
    }
}

impl RoutedCallFailure {
    #[verifier::type_invariant]
    spec fn inv(self) -> bool {
        self@.valid()
    }

    /// Builds a direct failure for any class other than
    /// [`ProviderTargetsExhausted`](RoutedCallFailureClass::ProviderTargetsExhausted),
    /// which has a fixed shape and is built by [`Self::targets_exhausted`].
    ///
    /// # Errors
    ///
    /// Returns [`RoutedFailureInvariant`] for the exhaustion class, or for retry advice
    /// above [`MAX_ROUTED_RETRY_AFTER_MS`].
    pub fn new(
        class: RoutedCallFailureClass,
        disposition: RoutingDisposition,
        retry_after_ms: Option<u64>,
        provider_status: Option<u16>,
    ) -> (result: Result<Self, RoutedFailureInvariant>)
        ensures
            if class == RoutedCallFailureClass::ProviderTargetsExhausted {
                result matches Err(violation) && violation@
                    == "exhaustion requires a bounded summary"@
            } else if !advice_in_bounds(retry_after_ms) {
                result matches Err(violation) && violation@
                    == "retry advice exceeds the 300000ms cap"@
            } else {
                result matches Ok(failure) && failure@ == (FailureView {
                    class,
                    disposition,
                    retry_after_ms,
                    provider_status,
                    exhausted: None,
                })
            },
    {
        if class == RoutedCallFailureClass::ProviderTargetsExhausted {
            return Err(invariant_violation("exhaustion requires a bounded summary"));
        }
        if exceeds_cap(retry_after_ms) {
            return Err(invariant_violation("retry advice exceeds the 300000ms cap"));
        }
        Ok(
            RoutedCallFailure {
                class,
                disposition,
                retry_after_ms,
                provider_status,
                exhausted: None,
            },
        )
    }

    /// Builds the provider-exhaustion failure from a validated summary.
    ///
    /// The shape is fixed by the contract, so this cannot fail: the class is
    /// [`ProviderTargetsExhausted`](RoutedCallFailureClass::ProviderTargetsExhausted),
    /// the disposition is [`NextTarget`](RoutingDisposition::NextTarget) because another
    /// logical model may still serve the request, there is no provider status, and the
    /// retry advice is the summary's.
    pub fn targets_exhausted(summary: ProviderTargetsExhaustedSummary) -> (failure: Self)
        ensures
            failure@ == (FailureView {
                class: RoutedCallFailureClass::ProviderTargetsExhausted,
                disposition: RoutingDisposition::NextTarget,
                retry_after_ms: summary@.retry_after_ms,
                provider_status: None,
                exhausted: Some(summary@),
            }),
    {
        RoutedCallFailure {
            class: RoutedCallFailureClass::ProviderTargetsExhausted,
            disposition: RoutingDisposition::NextTarget,
            retry_after_ms: summary.retry_after_ms(),
            provider_status: None,
            exhausted: Some(summary),
        }
    }

    /// What kind of failure this is.
    pub fn class(&self) -> (class: RoutedCallFailureClass)
        ensures
            class == self@.class,
            self@.valid(),
    {
        proof {
            use_type_invariant(self);
        }
        self.class
    }

    /// Whether routing may try another target.
    pub fn disposition(&self) -> (disposition: RoutingDisposition)
        ensures
            disposition == self@.disposition,
            self@.valid(),
    {
        proof {
            use_type_invariant(self);
        }
        self.disposition
    }

    /// Bounded retry advice, when the host had a truthful one.
    pub fn retry_after_ms(&self) -> (advice: Option<u64>)
        ensures
            advice == self@.retry_after_ms,
            self@.valid(),
    {
        proof {
            use_type_invariant(self);
        }
        self.retry_after_ms
    }

    /// The provider's status code, when one identified the failure.
    pub fn provider_status(&self) -> (status: Option<u16>)
        ensures
            status == self@.provider_status,
            self@.valid(),
    {
        proof {
            use_type_invariant(self);
        }
        self.provider_status
    }

    /// The bounded exhaustion summary, present only for the exhaustion class.
    pub fn exhausted(&self) -> (summary: Option<&ProviderTargetsExhaustedSummary>)
        ensures
            opt_summary(summary) == self@.exhausted,
            self@.valid(),
    {
        proof {
            use_type_invariant(self);
        }
        self.exhausted.as_ref()
    }

    /// Rendered failure: tags and numbers only.
    pub fn to_string(&self) -> (text: String)
        ensures
            text@ == self@.text(),
    {
        let mut text = self.class.stable_tag().to_owned();
        text.append(" (");
        text.append(self.disposition.as_str());
        text.append(")");
        let ghost head = text@;
        if let Some(status) = self.provider_status {
            text.append(", provider status ");
            text.append(decimal_text(status as u64).as_str());
        }
        assert(text@ =~= head + (match self@.provider_status {
            Some(status) => ", provider status "@ + decimal(status as nat),
            None => Seq::empty(),
        }));
        let ghost head = text@;
        if let Some(summary) = &self.exhausted {
            text.append(", ");
            text.append(decimal_text(summary.attempted() as u64).as_str());
            text.append(" attempted, ");
            text.append(decimal_text(summary.bypassed() as u64).as_str());
            text.append(" bypassed");
        }
        assert(text@ =~= head + (match self@.exhausted {
            Some(summary) => ", "@ + decimal(summary.attempted as nat) + " attempted, "@ + decimal(
                summary.bypassed as nat,
            ) + " bypassed"@,
            None => Seq::empty(),
        }));
        let ghost head = text@;
        if let Some(ms) = self.retry_after_ms {
            text.append(", retry after ");
            text.append(decimal_text(ms).as_str());
            text.append("ms");
        }
        assert(text@ =~= head + (match self@.retry_after_ms {
            Some(ms) => ", retry after "@ + decimal(ms as nat) + "ms"@,
            None => Seq::empty(),
        }));
        text
    }
}

/// Why routing replaced a selected target with another eligible target.
#[derive(Clone, Copy, Debug, Eq, PartialEq, Structural)]
pub enum RoutingFallbackReason {
    /// The selected target rejected the request because its context window was too small.
    ContextWindow,
    /// The selected target was unavailable after its client retries finished.
    Unavailable,
}

impl RoutingFallbackReason {
    /// Stable value of a reason.
    pub open spec fn tag(self) -> Seq<char> {
        match self {
            RoutingFallbackReason::ContextWindow => "context_window"@,
            RoutingFallbackReason::Unavailable => "unavailable"@,
        }
    }

    /// Stable value embedded in routing reasoning.
    pub fn as_str(self) -> (tag: &'static str)
        ensures
            tag@ == self.tag(),
    {
        match self {
            RoutingFallbackReason::ContextWindow => "context_window",
            RoutingFallbackReason::Unavailable => "unavailable",
        }
    }
}

/// Contents of a routing decision.
pub struct DecisionView {
    /// The model identifier selected for the call.
    pub selected_model_id: Seq<char>,
    /// Why, for logs and traces.
    pub reasoning: Option<Seq<char>>,
    /// Whether the call generates an answer.
    pub is_answer_call: bool,
}

/// A routing choice produced by an algorithm.
#[derive(Clone, Debug)]
pub struct Decision {
    selected_model_id: String,
    reasoning: Option<String>,
    is_answer_call: bool,
}

impl View for Decision {
    type V = DecisionView;

    closed spec fn view(&self) -> DecisionView {
        DecisionView {
            selected_model_id: self.selected_model_id@,
            reasoning: opt_text(self.reasoning),
            is_answer_call: self.is_answer_call,
        }
    }
}

impl Decision {
    /// Creates a decision and records whether its call produces the answer.
    pub fn new(
        selected_model_id: String,
        reasoning: Option<String>,
        is_answer_call: bool,
    ) -> (decision: Self)
        ensures
            decision@ == (DecisionView {
                selected_model_id: selected_model_id@,
                reasoning: opt_text(reasoning),
                is_answer_call,
            }),
    {
        Decision { selected_model_id, reasoning, is_answer_call }
    }

    /// The model identifier selected for the call.
    pub fn selected_model_id(&self) -> (id: &str)
        ensures
            id@ == self@.selected_model_id,
    {
        self.selected_model_id.as_str()
    }

    /// Why this decision was made.
    pub fn reasoning(&self) -> (reasoning: Option<&str>)
        ensures
            opt_str(reasoning) == self@.reasoning,
    {
        match &self.reasoning {
            Some(reasoning) => Some(reasoning.as_str()),
            None => None,
        }
    }

    /// Whether this call generates an answer rather than a routing verdict.
    pub fn is_answer_call(&self) -> (answers: bool)
        ensures
            answers == self@.is_answer_call,
    {
        self.is_answer_call
    }
}

/// Contents of a routed-call error.
pub enum ClientErrorView {
    /// The request cannot be served as supplied.
    InvalidRequest { message: Seq<char> },
    /// Decoding the inbound request failed.
    RequestTranslation(Seq<char>),
    /// Encoding the request failed.
    RequestEncoding(Seq<char>),
    /// Decoding or encoding the response failed.
    ResponseTranslation(Seq<char>),
    /// The client is not configured to serve the selected target.
    Configuration { message: Seq<char> },
    /// The upstream could not be reached.
    Transport { source: Seq<char> },
    /// The upstream request exceeded its timeout.
    Timeout { source: Seq<char> },
    /// The request exceeds the model's context window.
    ContextWindowExceeded { model: Seq<char>, message: Seq<char> },
    /// The upstream returned a non-success HTTP response.
    UpstreamHttp { status: u16, body: Seq<char> },
    /// The upstream returned a response the client could not decode.
    InvalidResponse { source: Seq<char> },
    /// A call across a foreign-function boundary failed.
    Ffi { source: Seq<char> },
    /// A routing host classified the failure itself.
    RoutedCall { failure: FailureView },
    /// A string message.
    General(Seq<char>),
}

impl ClientErrorView {
    /// Human-readable message.
    pub open spec fn text(self) -> Seq<char> {
        match self {
            ClientErrorView::InvalidRequest { message } => "invalid request: "@ + message,
            ClientErrorView::RequestTranslation(message) => "request translation failed: "@
                + message,
            ClientErrorView::RequestEncoding(message) => "outbound request encoding failed: "@
                + message,
            ClientErrorView::ResponseTranslation(message) => "response translation failed: "@
                + message,
            ClientErrorView::Configuration { message } => "client configuration error: "@ + message,
            ClientErrorView::Transport { source } => "upstream transport error: "@ + source,
            ClientErrorView::Timeout { source } => "upstream request timed out: "@ + source,
            ClientErrorView::ContextWindowExceeded { model, message } =>
                "context window exceeded for model "@ + model + ": "@ + message,
            ClientErrorView::UpstreamHttp { status, body } => "upstream returned HTTP "@ + decimal(
                status as nat,
            ) + ": "@ + body,
            ClientErrorView::InvalidResponse { source } => "invalid upstream response: "@ + source,
            ClientErrorView::Ffi { source } => "foreign function interface error: "@ + source,
            ClientErrorView::RoutedCall { failure } => "routed call failed: "@ + failure.text(),
            ClientErrorView::General(message) => message,
        }
    }
}

/// Failures a routed LLM client can surface to its caller.
///
/// The variants classify failures that routing hosts commonly need to handle,
/// while sources keep the rendered implementation-specific detail. `General` is the
/// escape hatch for failures that do not fit a shared category.
#[non_exhaustive]
#[derive(Debug)]
pub enum LlmClientError {
    /// The request cannot be served as supplied.
    InvalidRequest {
        /// Human-readable request validation failure.
        message: String,
    },
    /// Decoding the inbound request failed in the translation engine.
    RequestTranslation(String),
    /// Encoding the request for the upstream failed in the translation engine.
    RequestEncoding(String),
    /// Decoding or encoding the response failed in the translation engine.
    ResponseTranslation(String),
    /// The client is not configured to serve the selected target.
    Configuration {
        /// Human-readable configuration failure.
        message: String,
    },
    /// The upstream could not be reached or the request could not be sent.
    Transport {
        /// Client-specific transport failure, rendered.
        source: String,
    },
    /// The upstream request exceeded its timeout.
    Timeout {
        /// Client-specific timeout failure, rendered.
        source: String,
    },
    /// The upstream rejected the request because it exceeds the model's context window.
    ContextWindowExceeded {
        /// Model whose context window was exceeded.
        model: String,
        /// Upstream error message.
        message: String,
    },
    /// The upstream returned a non-success HTTP response.
    UpstreamHttp {
        /// Upstream HTTP status code.
        status: u16,
        /// Raw upstream error body.
        body: String,
    },
    /// The upstream returned a response the client could not decode.
    InvalidResponse {
        /// Client-specific decoding or validation failure, rendered.
        source: String,
    },
    /// A call across a foreign-function boundary (e.g. a Python-implemented client)
    /// failed.
    Ffi {
        /// Foreign-language failure, rendered.
        source: String,
    },
    /// A routing host classified the failure itself and instructed routing what to do.
    ///
    /// Prefer this over the transport- and status-shaped variants above: it carries an
    /// explicit [`RoutingDisposition`], so routing never re-derives fallback policy from
    /// an HTTP status.
    RoutedCall {
        /// Provider-neutral classification and routing instruction.
        failure: RoutedCallFailure,
    },
    /// A string message. Useful in testing, but prefer adding variants over using this.
    General(String),
}

impl View for LlmClientError {
    type V = ClientErrorView;

    open spec fn view(&self) -> ClientErrorView {
        match self {
            LlmClientError::InvalidRequest { message } => ClientErrorView::InvalidRequest {
                message: message@,
            },
            LlmClientError::RequestTranslation(message) => ClientErrorView::RequestTranslation(
                message@,
            ),
            LlmClientError::RequestEncoding(message) => ClientErrorView::RequestEncoding(message@),
            LlmClientError::ResponseTranslation(message) => ClientErrorView::ResponseTranslation(
                message@,
            ),
            LlmClientError::Configuration { message } => ClientErrorView::Configuration {
                message: message@,
            },
            LlmClientError::Transport { source } => ClientErrorView::Transport { source: source@ },
            LlmClientError::Timeout { source } => ClientErrorView::Timeout { source: source@ },
            LlmClientError::ContextWindowExceeded { model, message } =>
                ClientErrorView::ContextWindowExceeded { model: model@, message: message@ },
            LlmClientError::UpstreamHttp { status, body } => ClientErrorView::UpstreamHttp {
                status: *status,
                body: body@,
            },
            LlmClientError::InvalidResponse { source } => ClientErrorView::InvalidResponse {
                source: source@,
            },
            LlmClientError::Ffi { source } => ClientErrorView::Ffi { source: source@ },
            LlmClientError::RoutedCall { failure } => ClientErrorView::RoutedCall {
                failure: failure@,
            },
            LlmClientError::General(message) => ClientErrorView::General(message@),
        }
    }
}

impl LlmClientError {
    /// Human-readable message.
    pub fn to_string(&self) -> (text: String)
        ensures
            text@ == self@.text(),
    {
        match self {
            LlmClientError::InvalidRequest { message } => "invalid request: ".to_owned().concat(
                message.as_str(),
            ),
            LlmClientError::RequestTranslation(message) =>
                "request translation failed: ".to_owned().concat(message.as_str()),
            LlmClientError::RequestEncoding(message) =>
                "outbound request encoding failed: ".to_owned().concat(message.as_str()),
            LlmClientError::ResponseTranslation(message) =>
                "response translation failed: ".to_owned().concat(message.as_str()),
            LlmClientError::Configuration { message } =>
                "client configuration error: ".to_owned().concat(message.as_str()),
            LlmClientError::Transport { source } => "upstream transport error: ".to_owned().concat(
                source.as_str(),
            ),
            LlmClientError::Timeout { source } => "upstream request timed out: ".to_owned().concat(
                source.as_str(),
            ),
            LlmClientError::ContextWindowExceeded { model, message } =>
                "context window exceeded for model ".to_owned().concat(model.as_str()).concat(
                    ": ",
                ).concat(message.as_str()),
            LlmClientError::UpstreamHttp { status, body } =>
                "upstream returned HTTP ".to_owned().concat(
                    decimal_text(*status as u64).as_str(),
                ).concat(": ").concat(body.as_str()),
            LlmClientError::InvalidResponse { source } =>
                "invalid upstream response: ".to_owned().concat(source.as_str()),
            LlmClientError::Ffi { source } =>
                "foreign function interface error: ".to_owned().concat(source.as_str()),
            LlmClientError::RoutedCall { failure } => "routed call failed: ".to_owned().concat(
                failure.to_string().as_str(),
            ),
            LlmClientError::General(message) => message.clone(),
        }
    }
}

} // verus!
