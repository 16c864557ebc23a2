//! What translation codecs share: policy, errors, diagnostics and preserved bodies.
use vstd::prelude::*;
use vstd::string::*;

use crate::format::WireFormat;
use crate::json::{field, opt_json, Json, JsonMap, Value};
use crate::llm::PreservationMetadata;
use crate::model::{nothing_preserved, PreservationView};

verus! {

/// How a codec treats what the other side cannot represent.
#[derive(Clone, Copy, Debug, Eq, PartialEq, Structural)]
pub struct TranslationPolicy {
    /// Retain exact source bodies, and prefer them over a body rebuilt from normalized fields.
    pub preserve: bool,
    /// Fail a translation that would lose content, in place of reporting the loss.
    pub reject_lossy: bool,
}

impl Default for TranslationPolicy {
    /// Preserves exact bodies and reports losses.
    fn default() -> (policy: Self)
        ensures
            policy == (TranslationPolicy { preserve: true, reject_lossy: false }),
    {
        TranslationPolicy { preserve: true, reject_lossy: false }
    }
}

/// A loss that a translation reports.
#[derive(Clone, Debug, Eq, PartialEq)]
pub struct TranslationDiagnostic {
    /// Human-readable description of the loss.
    pub message: String,
}

/// Messages of a list of diagnostics.
pub open spec fn messages(diagnostics: Seq<TranslationDiagnostic>) -> Seq<Seq<char>> {
    diagnostics.map_values(|diagnostic: TranslationDiagnostic| diagnostic.message@)
}

/// Contents of a [`TranslationError`].
pub enum TranslationErrorView {
    /// A value has the wrong shape.
    InvalidValue { path: Seq<char>, message: Seq<char> },
    /// A message has a role that the format does not know.
    UnsupportedRole { path: Seq<char>, role: Seq<char> },
    /// Content would be lost and the policy rejects losses.
    Lossy { message: Seq<char> },
}

/// Why a translation failed.
#[derive(Clone, Debug, Eq, PartialEq)]
pub enum TranslationError {
    /// A value has the wrong shape.
    InvalidValue {
        /// Path of the value in the document.
        path: String,
        /// What is wrong with it.
        message: String,
    },
    /// A message has a role that the format does not know.
    UnsupportedRole {
        /// Path of the role in the document.
        path: String,
        /// The role.
        role: String,
    },
    /// Content would be lost and the policy rejects losses.
    Lossy {
        /// Description of the loss.
        message: String,
    },
}

impl View for TranslationError {
    type V = TranslationErrorView;

    open spec fn view(&self) -> TranslationErrorView {
        match self {
            TranslationError::InvalidValue { path, message } => TranslationErrorView::InvalidValue {
                path: path@,
                message: message@,
            },
            TranslationError::UnsupportedRole { path, role } =>
                TranslationErrorView::UnsupportedRole { path: path@, role: role@ },
            TranslationError::Lossy { message } => TranslationErrorView::Lossy {
                message: message@,
            },
        }
    }
}

/// What one step of a translation does: the losses it reports, and its value or error.
pub struct Step<T> {
    /// Messages of the reported losses.
    pub diagnostics: Seq<Seq<char>>,
    /// The value, or why there is none.
    pub outcome: Result<T, TranslationErrorView>,
}

/// The step that gives a value and reports nothing.
pub open spec fn done<T>(value: T) -> Step<T> {
    Step { diagnostics: Seq::empty(), outcome: Ok(value) }
}

/// The step that fails and reports nothing.
pub open spec fn failed<T>(error: TranslationErrorView) -> Step<T> {
    Step { diagnostics: Seq::empty(), outcome: Err(error) }
}

/// A value that holds all there is of its source but for a loss, which is reported, or rejected
/// where the policy says so.
pub open spec fn lossy<T>(policy: TranslationPolicy, message: Seq<char>, value: T) -> Step<T> {
    if policy.reject_lossy {
        failed(TranslationErrorView::Lossy { message })
    } else {
        Step { diagnostics: seq![message], outcome: Ok(value) }
    }
}

/// The step with its value put through a function.
pub open spec fn mapped<A, B>(step: Step<A>, f: spec_fn(A) -> B) -> Step<B> {
    Step {
        diagnostics: step.diagnostics,
        outcome: match step.outcome {
            Ok(value) => Ok(f(value)),
            Err(error) => Err(error),
        },
    }
}

/// One step, and another on its value where it succeeds.
pub open spec fn chained<A, B>(first: Step<A>, next: spec_fn(A) -> Step<B>) -> Step<B> {
    match first.outcome {
        Ok(value) => {
            let second = next(value);
            Step {
                diagnostics: first.diagnostics + second.diagnostics,
                outcome: second.outcome,
            }
        },
        Err(error) => Step { diagnostics: first.diagnostics, outcome: Err(error) },
    }
}

/// A step on each item in turn, up to the first that fails.
pub open spec fn each<A, B>(items: Seq<A>, step: spec_fn(int, A) -> Step<B>) -> Step<Seq<B>>
    decreases items.len(),
{
    if items.len() == 0 {
        done(Seq::empty())
    } else {
        let before = each(items.drop_last(), step);
        match before.outcome {
            Err(_) => before,
            Ok(values) => {
                let last = step(items.len() - 1, items.last());
                Step {
                    diagnostics: before.diagnostics + last.diagnostics,
                    outcome: match last.outcome {
                        Ok(value) => Ok(values.push(value)),
                        Err(error) => Err(error),
                    },
                }
            },
        }
    }
}

/// The first failure decides: what follows it makes no difference.
pub proof fn law_first_failure_decides<A, B>(
    items: Seq<A>,
    n: int,
    step: spec_fn(int, A) -> Step<B>,
)
    requires
        0 <= n <= items.len(),
        each(items.take(n), step).outcome is Err,
    ensures
        each(items, step) == each(items.take(n), step),
    decreases items.len() - n,
{
    if n == items.len() {
        assert(items.take(n) =~= items);
    } else {
        assert(items.take(n + 1).drop_last() =~= items.take(n));
        law_first_failure_decides(items, n + 1, step);
    }
}

/// The reports of the first `n` steps, in turn.
pub open spec fn reports<A, B>(
    items: Seq<A>,
    step: spec_fn(int, A) -> Step<B>,
    n: nat,
) -> Seq<Seq<char>>
    decreases n,
{
    if n == 0 {
        Seq::empty()
    } else {
        reports(items, step, (n - 1) as nat) + step(n - 1, items[n - 1]).diagnostics
    }
}

/// Steps that all succeed give one value for each item, in order, and the reports of all of them.
pub proof fn law_steps_collect_in_order<A, B>(items: Seq<A>, step: spec_fn(int, A) -> Step<B>)
    requires
        forall|i: int| 0 <= i < items.len() ==> (#[trigger] step(i, items[i])).outcome is Ok,
    ensures
        each(items, step).outcome matches Ok(values) && {
            &&& values.len() == items.len()
            &&& forall|i: int|
                0 <= i < items.len() ==> (#[trigger] step(i, items[i])).outcome == Ok::<
                    B,
                    TranslationErrorView,
                >(values[i])
        },
        each(items, step).diagnostics == reports(items, step, items.len()),
    decreases items.len(),
{
    if items.len() > 0 {
        let rest = items.drop_last();
        assert forall|i: int| 0 <= i < rest.len() implies (#[trigger] step(i, rest[i])).outcome
            is Ok by {
            assert(step(i, items[i]).outcome is Ok);
        }
        law_steps_collect_in_order(rest, step);
        lemma_reports_agree(rest, items, step, rest.len());
        assert(step(items.len() - 1, items[items.len() - 1]).outcome is Ok);
        let values = each(items, step).outcome->Ok_0;
        assert forall|i: int| 0 <= i < items.len() implies (#[trigger] step(i, items[i])).outcome
            == Ok::<B, TranslationErrorView>(values[i]) by {
            if i < rest.len() {
                assert(step(i, rest[i]).outcome == Ok::<B, TranslationErrorView>(
                    each(rest, step).outcome->Ok_0[i],
                ));
            }
        }
    }
}

proof fn lemma_reports_agree<A, B>(
    a: Seq<A>,
    b: Seq<A>,
    step: spec_fn(int, A) -> Step<B>,
    n: nat,
)
    requires
        n <= a.len(),
        n <= b.len(),
        forall|i: int| 0 <= i < n ==> a[i] == b[i],
    ensures
        reports(a, step, n) == reports(b, step, n),
    decreases n,
{
    if n > 0 {
        lemma_reports_agree(a, b, step, (n - 1) as nat);
    }
}

/// The first step that fails gives the error, after the reports of the steps up to it.
pub proof fn law_first_failure_is_the_error<A, B>(
    items: Seq<A>,
    step: spec_fn(int, A) -> Step<B>,
    n: int,
)
    requires
        0 <= n < items.len(),
        forall|i: int| 0 <= i < n ==> (#[trigger] step(i, items[i])).outcome is Ok,
        step(n, items[n]).outcome is Err,
    ensures
        each(items, step).outcome == Err::<Seq<B>, TranslationErrorView>(
            step(n, items[n]).outcome->Err_0,
        ),
        each(items, step).diagnostics == reports(items, step, (n + 1) as nat),
{
    let head = items.take(n);
    assert forall|i: int| 0 <= i < head.len() implies (#[trigger] step(i, head[i])).outcome
        is Ok by {
        assert(step(i, items[i]).outcome is Ok);
    }
    law_steps_collect_in_order(head, step);
    lemma_reports_agree(head, items, step, n as nat);
    let next = items.take(n + 1);
    assert(next.drop_last() =~= head);
    assert(next.last() == items[n]);
    law_first_failure_decides(items, n + 1, step);
}

/// A second step runs only where the first succeeds, and its reports come after those of the first.
pub proof fn law_second_step_follows_first<A, B>(first: Step<A>, next: spec_fn(A) -> Step<B>)
    ensures
        first.outcome matches Err(error) ==> chained(first, next) == (Step {
            diagnostics: first.diagnostics,
            outcome: Err::<B, TranslationErrorView>(error),
        }),
        first.outcome matches Ok(value) ==> {
            &&& chained(first, next).outcome == next(value).outcome
            &&& chained(first, next).diagnostics == first.diagnostics + next(value).diagnostics
        },
{
}

/// A loss is an error where the policy rejects losses, and a report beside the value elsewhere.
pub proof fn law_losses_are_never_silent<T>(
    policy: TranslationPolicy,
    message: Seq<char>,
    value: T,
)
    ensures
        policy.reject_lossy ==> lossy(policy, message, value).outcome == Err::<
            T,
            TranslationErrorView,
        >(TranslationErrorView::Lossy { message }),
        !policy.reject_lossy ==> {
            &&& lossy(policy, message, value).outcome == Ok::<T, TranslationErrorView>(value)
            &&& lossy(policy, message, value).diagnostics == seq![message]
        },
{
}

/// A body is kept under its format where the policy preserves bodies, read back as it was by a
/// preserving policy, and never read by another or for another format.
pub proof fn law_kept_bodies_read_back(
    format: WireFormat,
    other: WireFormat,
    body: Json,
    keeping: TranslationPolicy,
    reading: TranslationPolicy,
)
    ensures
        ({
            let requests = captured_request(format, body, keeping).requests;
            let responses = captured_response(format, body, keeping).responses;
            &&& exact_body(requests, format, reading) == (if keeping.preserve && reading.preserve {
                Some(body)
            } else {
                None
            })
            &&& exact_body(responses, format, reading) == exact_body(requests, format, reading)
            &&& other != format ==> exact_body(requests, other, reading) is None
            &&& captured_request(format, body, keeping).responses == Map::<
                Seq<char>,
                Json,
            >::empty()
            &&& captured_response(format, body, keeping).requests == Map::<
                Seq<char>,
                Json,
            >::empty()
        }),
{
    reveal_strlit("openai_chat");
    reveal_strlit("bedrock_converse");
    assert("openai_chat"@.len() == 11 && "bedrock_converse"@.len() == 16);
}

/// The first items and one more: what stands before the last, and the last.
pub proof fn lemma_take_next<A>(items: Seq<A>, n: int)
    requires
        0 <= n < items.len(),
    ensures
        items.take(n + 1).drop_last() == items.take(n),
        items.take(n + 1).last() == items[n],
{
    assert(items.take(n + 1).drop_last() =~= items.take(n));
}

/// A step that ignores positions, on two lists in turn, is the step on the joined list.
pub proof fn lemma_each_joined<A, B>(
    first: Seq<A>,
    second: Seq<A>,
    step: spec_fn(int, A) -> Step<B>,
)
    requires
        forall|i: int, j: int, item: A| #[trigger] step(i, item) == #[trigger] step(j, item),
    ensures
        each(first + second, step) == chained(
            each(first, step),
            |a: Seq<B>| mapped(each(second, step), |b: Seq<B>| a + b),
        ),
    decreases second.len(),
{
    let all = first + second;
    let before = each(first, step);
    if second.len() == 0 {
        assert(all =~= first);
        if let Ok(values) = before.outcome {
            assert(values + Seq::empty() =~= values);
            assert(before.diagnostics + Seq::empty() =~= before.diagnostics);
        }
    } else {
        let rest = second.drop_last();
        lemma_each_joined(first, rest, step);
        assert(all.drop_last() =~= first + rest);
        assert(all.last() == second.last());
        let one = step(all.len() - 1, all.last());
        assert(one == step(second.len() - 1, second.last()));
        if let Ok(values) = before.outcome {
            let so_far = each(rest, step);
            assert(before.diagnostics + so_far.diagnostics + one.diagnostics
                =~= before.diagnostics + (so_far.diagnostics + one.diagnostics));
            if let Ok(more) = so_far.outcome {
                if let Ok(value) = one.outcome {
                    assert((values + more).push(value) =~= values + more.push(value));
                }
            }
        }
    }
}

/// Items on which the step reports nothing and succeeds are mapped one by one.
pub proof fn lemma_each_done<A, B>(
    items: Seq<A>,
    step: spec_fn(int, A) -> Step<B>,
    values: Seq<B>,
)
    requires
        values.len() == items.len(),
        forall|i: int| 0 <= i < items.len() ==> #[trigger] step(i, items[i]) == done(values[i]),
    ensures
        each(items, step) == done(values),
    decreases items.len(),
{
    if items.len() == 0 {
        assert(values =~= Seq::empty());
    } else {
        let n = items.len() - 1;
        let rest = items.drop_last();
        assert forall|i: int| 0 <= i < rest.len() implies #[trigger] step(i, rest[i]) == done(
            values.drop_last()[i],
        ) by {
            assert(rest[i] == items[i]);
            assert(step(i, items[i]) == done(values[i]));
        }
        lemma_each_done(rest, step, values.drop_last());
        assert(step(n, items[n]) == done(values[n]));
        assert(values.drop_last().push(values[n]) =~= values);
        assert(Seq::<Seq<char>>::empty() + Seq::<Seq<char>>::empty() =~= Seq::empty());
    }
}

/// Reports a loss, or fails where the policy rejects losses.
pub fn push_lossy(
    diagnostics: &mut Vec<TranslationDiagnostic>,
    policy: &TranslationPolicy,
    message: String,
) -> (outcome: Result<(), TranslationError>)
    ensures
        match outcome {
            Ok(_) => !policy.reject_lossy && messages(final(diagnostics)@) == messages(
                old(diagnostics)@,
            ).push(message@),
            Err(error) => policy.reject_lossy && error@ == (TranslationErrorView::Lossy {
                message: message@,
            }) && final(diagnostics)@ == old(diagnostics)@,
        },
{
    if policy.reject_lossy {
        return Err(TranslationError::Lossy { message });
    }
    diagnostics.push(TranslationDiagnostic { message });
    assert(messages(diagnostics@) =~= messages(old(diagnostics)@).push(message@));
    Ok(())
}

/// The error for a value that is not an object.
pub open spec fn not_an_object(path: Seq<char>) -> TranslationErrorView {
    TranslationErrorView::InvalidValue { path, message: "expected an object"@ }
}

/// The error for a value that is not an object.
pub fn object_expected(path: String) -> (error: TranslationError)
    ensures
        error@ == not_an_object(path@),
{
    TranslationError::InvalidValue { path, message: "expected an object".to_owned() }
}

/// The fields of an object; any other value is an error at `path`.
pub fn object<'a>(value: &'a Value, path: &str) -> (fields: Result<&'a JsonMap, TranslationError>)
    ensures
        match fields {
            Ok(fields) => value@.as_object() == Some(fields@),
            Err(error) => value@.as_object() is None && error@ == not_an_object(path@),
        },
{
    match value.as_object() {
        Some(fields) => Ok(fields),
        None => Err(object_expected(path.to_owned())),
    }
}

/// The request bodies to keep of a source body.
pub open spec fn captured_request(
    format: WireFormat,
    body: Json,
    policy: TranslationPolicy,
) -> PreservationView {
    if policy.preserve {
        PreservationView {
            requests: Map::empty().insert(format.name(), body),
            ..nothing_preserved()
        }
    } else {
        nothing_preserved()
    }
}

/// The response bodies to keep of a source body.
pub open spec fn captured_response(
    format: WireFormat,
    body: Json,
    policy: TranslationPolicy,
) -> PreservationView {
    if policy.preserve {
        PreservationView {
            responses: Map::empty().insert(format.name(), body),
            ..nothing_preserved()
        }
    } else {
        nothing_preserved()
    }
}

/// Keeps an exact request body under its source format, where the policy preserves bodies.
pub fn capture_request_preservation(
    format: WireFormat,
    body: &Value,
    policy: &TranslationPolicy,
) -> (preservation: PreservationMetadata)
    ensures
        preservation@ == captured_request(format, body@, *policy),
{
    let mut preservation = PreservationMetadata::default();
    if policy.preserve {
        preservation.requests.insert(format.as_str().to_owned(), body.clone());
    }
    preservation
}

/// Keeps an exact response body under its source format, where the policy preserves bodies.
pub fn capture_response_preservation(
    format: WireFormat,
    body: &Value,
    policy: &TranslationPolicy,
) -> (preservation: PreservationMetadata)
    ensures
        preservation@ == captured_response(format, body@, *policy),
{
    let mut preservation = PreservationMetadata::default();
    if policy.preserve {
        preservation.responses.insert(format.as_str().to_owned(), body.clone());
    }
    preservation
}

/// The body kept for a format, where the policy preserves bodies.
pub open spec fn exact_body(
    bodies: Map<Seq<char>, Json>,
    format: WireFormat,
    policy: TranslationPolicy,
) -> Option<Json> {
    if policy.preserve {
        field(bodies, format.name())
    } else {
        None
    }
}

/// The request body kept for a format, where the policy preserves bodies.
pub fn exact_preserved_request(
    preservation: &PreservationMetadata,
    format: WireFormat,
    policy: &TranslationPolicy,
) -> (body: Option<Value>)
    ensures
        opt_json(body) == exact_body(preservation@.requests, format, *policy),
{
    if !policy.preserve {
        return None;
    }
    match preservation.requests.get(format.as_str()) {
        Some(body) => Some(body.clone()),
        None => None,
    }
}

/// The response body kept for a format, where the policy preserves bodies.
pub fn exact_preserved_response(
    preservation: &PreservationMetadata,
    format: WireFormat,
    policy: &TranslationPolicy,
) -> (body: Option<Value>)
    ensures
        opt_json(body) == exact_body(preservation@.responses, format, *policy),
{
    if !policy.preserve {
        return None;
    }
    match preservation.responses.get(format.as_str()) {
        Some(body) => Some(body.clone()),
        None => None,
    }
}

} // verus!
