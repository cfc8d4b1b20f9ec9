//! The abstract syntax tree produced by the parser and consumed by the code
//! generator, together with the mathematical views the contracts speak of.

use vstd::prelude::*;

verus! {

/// A parse failure: the character position in the source text at which the
/// parser stopped, and a description of what it expected there.
#[derive(Debug, Clone, PartialEq, Eq)]
pub struct SyntaxError {
    pub position: usize,
    pub expected: String,
}

/// Mathematical image of a [`SyntaxError`].
pub struct ErrView {
    pub pos: int,
    pub expected: Seq<char>,
}

impl View for SyntaxError {
    type V = ErrView;

    open spec fn view(&self) -> ErrView {
        ErrView { pos: self.position as int, expected: self.expected@ }
    }
}

/// One validation step of a chain: the names of an extractor function, a
/// combinator function, and the validator the extracted field is handed to.
#[derive(Debug, Clone, PartialEq, Eq)]
pub struct ValidatorStep {
    pub extractor: String,
    pub combinator: String,
    pub validator: String,
}

/// Mathematical image of a [`ValidatorStep`].
pub struct StepView {
    pub extractor: Seq<char>,
    pub combinator: Seq<char>,
    pub validator: Seq<char>,
}

impl View for ValidatorStep {
    type V = StepView;

    open spec fn view(&self) -> StepView {
        StepView {
            extractor: self.extractor@,
            combinator: self.combinator@,
            validator: self.validator@,
        }
    }
}

/// The views of a sequence of steps.
pub open spec fn steps_view(v: Seq<ValidatorStep>) -> Seq<StepView> {
    v.map_values(|s: ValidatorStep| s@)
}

pub proof fn lemma_steps_view_insert(v: Seq<ValidatorStep>, s: ValidatorStep)
    ensures
        steps_view(v.insert(0, s)) == seq![s@] + steps_view(v),
{
    assert(steps_view(v.insert(0, s)) =~= seq![s@] + steps_view(v));
}

/// One chain: the subject type being validated, the unified error type, the
/// name of the generated pipeline type, and the ordered validation steps.
#[derive(Debug, Clone, PartialEq, Eq)]
pub struct ChainSpec {
    pub subject_type: String,
    pub error_type: String,
    /// Character position of the error-type identifier in the source text.
    /// The constraint obligations emitted for this chain are about that
    /// identifier, and a diagnostic should point back at it.
    pub error_pos: usize,
    pub name: String,
    pub steps: Vec<ValidatorStep>,
}

/// Mathematical image of a [`ChainSpec`].
pub struct ChainView {
    pub subject_type: Seq<char>,
    pub error_type: Seq<char>,
    pub error_pos: int,
    pub name: Seq<char>,
    pub steps: Seq<StepView>,
}

impl View for ChainSpec {
    type V = ChainView;

    open spec fn view(&self) -> ChainView {
        ChainView {
            subject_type: self.subject_type@,
            error_type: self.error_type@,
            error_pos: self.error_pos as int,
            name: self.name@,
            steps: steps_view(self.steps@),
        }
    }
}

/// The views of a sequence of chains.
pub open spec fn chains_view(v: Seq<ChainSpec>) -> Seq<ChainView> {
    v.map_values(|c: ChainSpec| c@)
}

pub proof fn lemma_chains_view_insert(v: Seq<ChainSpec>, c: ChainSpec)
    ensures
        chains_view(v.insert(0, c)) == seq![c@] + chains_view(v),
{
    assert(chains_view(v.insert(0, c)) =~= seq![c@] + chains_view(v));
}

/// A whole parsed input: an ordered sequence of chains. The order only
/// determines the order in which the generated artifacts appear in the output.
#[derive(Debug, Clone, PartialEq, Eq)]
pub struct Program {
    pub chains: Vec<ChainSpec>,
}

impl View for Program {
    type V = Seq<ChainView>;

    open spec fn view(&self) -> Seq<ChainView> {
        chains_view(self.chains@)
    }
}

} // verus!
