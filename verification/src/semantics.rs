//! The execution model of a generated chain: a mathematical state machine
//! that starts from the input value, runs one step after another in declared
//! order, and either reaches success or stops at the first failing validator.
//! The laws proved here are the behavioral guarantees of the pipelines the
//! code generator emits: an empty chain is the identity, a failing step
//! short-circuits the rest, and the chain's failure is exactly the declared
//! conversion of the first failing validator's own error.

use vstd::prelude::*;

verus! {

/// One step of a chain, as mathematical functions over a subject type `T`, a
/// field type `F`, the validator's error type `VE`, and the chain's unified
/// error type `E`: extract the field, validate it, combine the validated
/// value back into the subject, and convert the validator's error.
#[verifier::reject_recursive_types(T)]
#[verifier::reject_recursive_types(F)]
#[verifier::reject_recursive_types(VE)]
#[verifier::reject_recursive_types(E)]
pub struct ModelStep<T, F, VE, E> {
    pub extract: spec_fn(T) -> F,
    pub validate: spec_fn(F) -> Result<F, VE>,
    pub combine: spec_fn(T, F) -> T,
    pub convert: spec_fn(VE) -> E,
}

/// What one step's validator decides on the current subject value: the
/// validated field, or the validator's own error.
pub open spec fn step_outcome<T, F, VE, E>(s: ModelStep<T, F, VE, E>, data: T) -> Result<F, VE> {
    (s.validate)((s.extract)(data))
}

/// Runs a chain: with no steps the input is returned unchanged; otherwise the
/// first step's validator decides — on failure its converted error is the
/// chain's failure and no later step runs, on success the combined value
/// flows into the rest of the chain.
pub open spec fn run_chain<T, F, VE, E>(steps: Seq<ModelStep<T, F, VE, E>>, input: T) -> Result<
    T,
    E,
>
    decreases steps.len(),
{
    if steps.len() == 0 {
        Ok(input)
    } else {
        match step_outcome(steps[0], input) {
            Ok(f) => run_chain(steps.drop_first(), (steps[0].combine)(input, f)),
            Err(e) => Err((steps[0].convert)(e)),
        }
    }
}

/// The subject value before step `k`, assuming every earlier step succeeded
/// (on a failed step the value is carried through unchanged).
pub open spec fn data_before<T, F, VE, E>(
    steps: Seq<ModelStep<T, F, VE, E>>,
    input: T,
    k: int,
) -> T
    decreases k,
{
    if k <= 0 {
        input
    } else {
        let d = data_before(steps, input, k - 1);
        match step_outcome(steps[k - 1], d) {
            Ok(f) => (steps[k - 1].combine)(d, f),
            Err(_) => d,
        }
    }
}

/// Dropping the first step and starting from the value it produced reaches
/// the same intermediate values, one position earlier.
pub proof fn lemma_data_before_shift<T, F, VE, E>(
    steps: Seq<ModelStep<T, F, VE, E>>,
    input: T,
    k: int,
)
    requires
        steps.len() > 0,
        0 <= k < steps.len(),
    ensures
        data_before(steps.drop_first(), data_before(steps, input, 1), k) == data_before(
            steps,
            input,
            k + 1,
        ),
    decreases k,
{
    if k > 0 {
        lemma_data_before_shift(steps, input, k - 1);
        assert(steps.drop_first()[k - 1] == steps[k]);
    }
}

/// Law: a chain with zero steps is the identity — it returns its input
/// unchanged, wrapped in `Ok`, for every input.
pub proof fn lemma_empty_chain_identity<T, F, VE, E>(input: T)
    ensures
        run_chain(Seq::<ModelStep<T, F, VE, E>>::empty(), input) == Ok::<T, E>(input),
{
}

/// Law: in a two-step chain whose first validator rejects the extracted
/// field, the second step is never consulted — the result is the converted
/// first error, and equals that of the chain without the second step,
/// whatever that second step is.
pub proof fn lemma_short_circuit<T, F, VE, E>(
    a: ModelStep<T, F, VE, E>,
    b: ModelStep<T, F, VE, E>,
    input: T,
    e: VE,
)
    requires
        step_outcome(a, input) == Err::<F, VE>(e),
    ensures
        run_chain(seq![a, b], input) == Err::<T, E>((a.convert)(e)),
        run_chain(seq![a, b], input) == run_chain(seq![a], input),
{
    assert(seq![a, b][0] == a);
    assert(seq![a][0] == a);
}

/// Law: if the steps before `k` all succeed and step `k`'s validator fails
/// with error `e`, the chain's result is exactly `Err` of step `k`'s declared
/// conversion applied to `e` — no aggregation, no later step.
pub proof fn lemma_error_conversion_fidelity<T, F, VE, E>(
    steps: Seq<ModelStep<T, F, VE, E>>,
    input: T,
    k: int,
    e: VE,
)
    requires
        0 <= k < steps.len(),
        forall|j: int|
            0 <= j < k ==> (#[trigger] step_outcome(steps[j], data_before(steps, input, j))) is Ok,
        step_outcome(steps[k], data_before(steps, input, k)) == Err::<F, VE>(e),
    ensures
        run_chain(steps, input) == Err::<T, E>((steps[k].convert)(e)),
    decreases k,
{
    if k == 0 {
        assert(data_before(steps, input, 0) == input);
    } else {
        assert(step_outcome(steps[0], data_before(steps, input, 0)) is Ok);
        let f = step_outcome(steps[0], input)->Ok_0;
        let d1 = (steps[0].combine)(input, f);
        assert(d1 == data_before(steps, input, 1));
        let rest = steps.drop_first();
        assert forall|j: int|
            0 <= j < k - 1 implies (#[trigger] step_outcome(
            rest[j],
            data_before(rest, d1, j),
        )) is Ok by {
            lemma_data_before_shift(steps, input, j);
            assert(rest[j] == steps[j + 1]);
            assert(step_outcome(steps[j + 1], data_before(steps, input, j + 1)) is Ok);
        };
        lemma_data_before_shift(steps, input, k - 1);
        assert(rest[k - 1] == steps[k]);
        lemma_error_conversion_fidelity(rest, d1, k - 1, e);
    }
}

/// Law: a chain succeeds only when every step's validator accepts — whenever
/// the run returns `Ok`, no validator rejected its extracted field along the
/// way.
pub proof fn lemma_chain_ok_implies_all_steps<T, F, VE, E>(
    steps: Seq<ModelStep<T, F, VE, E>>,
    input: T,
)
    requires
        run_chain::<T, F, VE, E>(steps, input) is Ok,
    ensures
        forall|j: int|
            0 <= j < steps.len() ==> (#[trigger] step_outcome(
                steps[j],
                data_before(steps, input, j),
            )) is Ok,
    decreases steps.len(),
{
    if steps.len() > 0 {
        assert(data_before(steps, input, 0) == input);
        assert(step_outcome(steps[0], input) is Ok);
        let f = step_outcome(steps[0], input)->Ok_0;
        let d1 = (steps[0].combine)(input, f);
        assert(d1 == data_before(steps, input, 1));
        let rest = steps.drop_first();
        lemma_chain_ok_implies_all_steps::<T, F, VE, E>(rest, d1);
        assert forall|j: int|
            0 <= j < steps.len() implies (#[trigger] step_outcome(
            steps[j],
            data_before(steps, input, j),
        )) is Ok by {
            if j > 0 {
                lemma_data_before_shift(steps, input, j - 1);
                assert(rest[j - 1] == steps[j]);
                assert(step_outcome(rest[j - 1], data_before(rest, d1, j - 1)) is Ok);
            } else {
                assert(data_before(steps, input, 0) == input);
            }
        };
    }
}

/// Law: if every step's validator accepts, the chain succeeds and returns the
/// value reached after the last step's write-back.
pub proof fn lemma_all_steps_succeed<T, F, VE, E>(steps: Seq<ModelStep<T, F, VE, E>>, input: T)
    requires
        forall|j: int|
            0 <= j < steps.len() ==> (#[trigger] step_outcome(
                steps[j],
                data_before(steps, input, j),
            )) is Ok,
    ensures
        run_chain(steps, input) == Ok::<T, E>(data_before(steps, input, steps.len() as int)),
    decreases steps.len(),
{
    if steps.len() > 0 {
        assert(step_outcome(steps[0], data_before(steps, input, 0)) is Ok);
        let f = step_outcome(steps[0], input)->Ok_0;
        let d1 = (steps[0].combine)(input, f);
        assert(d1 == data_before(steps, input, 1));
        let rest = steps.drop_first();
        assert forall|j: int|
            0 <= j < rest.len() implies (#[trigger] step_outcome(
            rest[j],
            data_before(rest, d1, j),
        )) is Ok by {
            lemma_data_before_shift(steps, input, j);
            assert(rest[j] == steps[j + 1]);
            assert(step_outcome(steps[j + 1], data_before(steps, input, j + 1)) is Ok);
        };
        lemma_all_steps_succeed::<T, F, VE, E>(rest, d1);
        lemma_data_before_shift(steps, input, steps.len() - 1);
    }
}

} // verus!
