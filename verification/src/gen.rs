//! The code generator: it turns a parsed chain into Rust source text — the
//! constraint obligations on the chain's error type, and a type implementing
//! the `ChainExec` contract whose `execute` runs the steps in declared order
//! with short-circuit failure. The spec functions define the generated text
//! exactly; the executable functions compute it.

use vstd::prelude::*;
use vstd::string::StringExecFns;
use crate::ast::{
    SyntaxError,
    ErrView,
    ValidatorStep,
    StepView,
    ChainSpec,
    ChainView,
    Program,
    steps_view,
    chains_view,
};
use crate::parser::{spec_parse, parse};

verus! {

/// The conversion obligation emitted for one validator: the chain's error
/// type must be constructible from the validator's own error type.
pub open spec fn spec_from_bound(v: Seq<char>) -> Seq<char> {
    "std::convert::From<<"@ + v + " as ::sava_chain::ChainExec>::Error>"@
}

/// The conversion obligations of the steps from `i` on, joined with `+`.
pub open spec fn spec_from_bounds(steps: Seq<StepView>, i: int) -> Seq<char>
    decreases steps.len() - i,
{
    if !(0 <= i < steps.len()) {
        Seq::empty()
    } else if i + 1 == steps.len() {
        " "@ + spec_from_bound(steps[i].validator)
    } else {
        " "@ + spec_from_bound(steps[i].validator) + " +"@ + spec_from_bounds(steps, i + 1)
    }
}

/// The two well-formedness obligations of a chain, as declarations for the
/// surrounding compiler: the error type satisfies the error capability, and
/// it is constructible from every step validator's error type. They have no
/// runtime behavior; they only turn a would-be runtime mismatch into a
/// build-time diagnostic about the declared error type.
pub open spec fn spec_validate(c: ChainView) -> Seq<char> {
    "struct _AssertError where "@ + c.error_type + ": std::error::Error;\n"@
        + "struct _AssertErrorFrom where "@ + c.error_type + ":"@ + spec_from_bounds(c.steps, 0)
        + ";\n"@
}

/// The generated statements for one step: extract the field, run the
/// validator (propagating its converted error), and write the result back.
pub open spec fn spec_execute_part(subject: Seq<char>, st: StepView) -> Seq<char> {
    "        let extractor_fn: fn(&"@ + subject + ") -> <"@ + st.validator
        + " as ::sava_chain::ChainExec>::Type = "@ + st.extractor + ";\n"@
        + "        let combinator_fn: fn(&mut "@ + subject + ", <"@ + st.validator
        + " as ::sava_chain::ChainExec>::Type) = "@ + st.combinator + ";\n"@
        + "        let extracted_field = extractor_fn(&data);\n"@
        + "        let chain_result = "@ + st.validator + "::execute(extracted_field)?;\n"@
        + "        combinator_fn(&mut data, chain_result);\n"@
}

/// The generated statements of the steps from `i` on, in declared order.
pub open spec fn spec_execute_parts(subject: Seq<char>, steps: Seq<StepView>, i: int) -> Seq<char>
    decreases steps.len() - i,
{
    if !(0 <= i < steps.len()) {
        Seq::empty()
    } else {
        spec_execute_part(subject, steps[i]) + spec_execute_parts(subject, steps, i + 1)
    }
}

/// The opening of the generated artifact, up to the body of `execute`.
pub open spec fn spec_header(c: ChainView) -> Seq<char> {
    "pub struct "@ + c.name + ";\n"@ + "impl ::sava_chain::ChainExec for "@ + c.name + " {\n"@
        + "    type Type = "@ + c.subject_type + ";\n"@ + "    type Error = "@ + c.error_type
        + ";\n"@ + "    fn execute(input: Self::Type) -> Result<Self::Type, Self::Error> {\n"@
}

/// The whole generated artifact of one chain: the header, the constraint
/// obligations, and an `execute` body that binds a working copy, runs every
/// step in order, and returns it wrapped in `Ok`.
pub open spec fn spec_chain_exec(c: ChainView) -> Seq<char> {
    spec_header(c) + spec_validate(c) + "        let mut data = input;\n"@ + spec_execute_parts(
        c.subject_type,
        c.steps,
        0,
    ) + "        Ok(data)\n    }\n}\n"@
}

/// The generated artifacts of the chains from `i` on, in declaration order.
pub open spec fn spec_generate(chains: Seq<ChainView>, i: int) -> Seq<char>
    decreases chains.len() - i,
{
    if !(0 <= i < chains.len()) {
        Seq::empty()
    } else {
        spec_chain_exec(chains[i]) + spec_generate(chains, i + 1)
    }
}

/// The whole pipeline: parse the text, and on success generate the artifacts
/// of all chains in declaration order. A parse failure aborts the whole
/// compilation; no partial output is ever produced.
pub open spec fn spec_compile(s: Seq<char>) -> Result<Seq<char>, ErrView> {
    match spec_parse(s) {
        Err(e) => Err(e),
        Ok(chains) => Ok(spec_generate(chains, 0)),
    }
}

/// Law: compilation is deterministic — identical specification texts yield
/// byte-identical generated texts.
pub proof fn lemma_compile_deterministic(s1: Seq<char>, s2: Seq<char>)
    requires
        s1 == s2,
    ensures
        spec_compile(s1) == spec_compile(s2),
{
}

/// Law: the generated artifact of a chain carries the chain's constraint
/// obligations verbatim, immediately after the header — so a chain whose
/// error type lacks the error capability or a conversion never compiles
/// silently.
pub proof fn lemma_constraints_emitted(c: ChainView)
    ensures
        spec_header(c).len() + spec_validate(c).len() <= spec_chain_exec(c).len(),
        spec_chain_exec(c).subrange(
            spec_header(c).len() as int,
            spec_header(c).len() + spec_validate(c).len() as int,
        ) == spec_validate(c),
{
    assert(spec_chain_exec(c).subrange(
        spec_header(c).len() as int,
        spec_header(c).len() + spec_validate(c).len() as int,
    ) =~= spec_validate(c));
}

fn from_bounds(steps: &Vec<ValidatorStep>, i: usize) -> (r: String)
    ensures
        r@ == spec_from_bounds(steps_view(steps@), i as int),
    decreases steps@.len() - i,
{
    if i >= steps.len() {
        let r = String::new();
        proof {
            assert(r@ =~= spec_from_bounds(steps_view(steps@), i as int));
        }
        return r;
    }
    let mut out = String::new();
    out.append(" ");
    out.append("std::convert::From<<");
    out.append(steps[i].validator.as_str());
    out.append(" as ::sava_chain::ChainExec>::Error>");
    if i + 1 < steps.len() {
        out.append(" +");
        let rest = from_bounds(steps, i + 1);
        out.append(rest.as_str());
    }
    proof {
        assert(out@ =~= spec_from_bounds(steps_view(steps@), i as int));
    }
    out
}

impl ValidatorStep {
    /// The generated statements for this step of a chain over `subject_type`.
    pub fn execute_part(&self, subject_type: &str) -> (r: String)
        ensures
            r@ == spec_execute_part(subject_type@, self@),
    {
        let mut out = String::new();
        out.append("        let extractor_fn: fn(&");
        out.append(subject_type);
        out.append(") -> <");
        out.append(self.validator.as_str());
        out.append(" as ::sava_chain::ChainExec>::Type = ");
        out.append(self.extractor.as_str());
        out.append(";\n");
        out.append("        let combinator_fn: fn(&mut ");
        out.append(subject_type);
        out.append(", <");
        out.append(self.validator.as_str());
        out.append(" as ::sava_chain::ChainExec>::Type) = ");
        out.append(self.combinator.as_str());
        out.append(";\n");
        out.append("        let extracted_field = extractor_fn(&data);\n");
        out.append("        let chain_result = ");
        out.append(self.validator.as_str());
        out.append("::execute(extracted_field)?;\n");
        out.append("        combinator_fn(&mut data, chain_result);\n");
        proof {
            assert(out@ =~= spec_execute_part(subject_type@, self@));
        }
        out
    }
}

fn execute_parts(subject_type: &str, steps: &Vec<ValidatorStep>, i: usize) -> (r: String)
    ensures
        r@ == spec_execute_parts(subject_type@, steps_view(steps@), i as int),
    decreases steps@.len() - i,
{
    if i >= steps.len() {
        let r = String::new();
        proof {
            assert(r@ =~= spec_execute_parts(subject_type@, steps_view(steps@), i as int));
        }
        return r;
    }
    let mut out = steps[i].execute_part(subject_type);
    let rest = execute_parts(subject_type, steps, i + 1);
    out.append(rest.as_str());
    proof {
        assert(out@ =~= spec_execute_parts(subject_type@, steps_view(steps@), i as int));
    }
    out
}

impl ChainSpec {
    /// The constraint obligations of this chain, as declarations for the
    /// surrounding compiler.
    pub fn validate(&self) -> (r: String)
        ensures
            r@ == spec_validate(self@),
    {
        let mut out = String::new();
        out.append("struct _AssertError where ");
        out.append(self.error_type.as_str());
        out.append(": std::error::Error;\n");
        out.append("struct _AssertErrorFrom where ");
        out.append(self.error_type.as_str());
        out.append(":");
        let bounds = from_bounds(&self.steps, 0);
        out.append(bounds.as_str());
        out.append(";\n");
        proof {
            assert(out@ =~= spec_validate(self@));
        }
        out
    }

    /// The whole generated artifact of this chain.
    pub fn chain_exec(&self) -> (r: String)
        ensures
            r@ == spec_chain_exec(self@),
    {
        let mut out = String::new();
        out.append("pub struct ");
        out.append(self.name.as_str());
        out.append(";\n");
        out.append("impl ::sava_chain::ChainExec for ");
        out.append(self.name.as_str());
        out.append(" {\n");
        out.append("    type Type = ");
        out.append(self.subject_type.as_str());
        out.append(";\n");
        out.append("    type Error = ");
        out.append(self.error_type.as_str());
        out.append(";\n");
        out.append("    fn execute(input: Self::Type) -> Result<Self::Type, Self::Error> {\n");
        let validation = self.validate();
        out.append(validation.as_str());
        out.append("        let mut data = input;\n");
        let parts = execute_parts(self.subject_type.as_str(), &self.steps, 0);
        out.append(parts.as_str());
        out.append("        Ok(data)\n    }\n}\n");
        proof {
            assert(out@ =~= spec_chain_exec(self@));
        }
        out
    }
}

fn generate_from(chains: &Vec<ChainSpec>, i: usize) -> (r: String)
    ensures
        r@ == spec_generate(chains_view(chains@), i as int),
    decreases chains@.len() - i,
{
    if i >= chains.len() {
        let r = String::new();
        proof {
            assert(r@ =~= spec_generate(chains_view(chains@), i as int));
        }
        return r;
    }
    let mut out = chains[i].chain_exec();
    let rest = generate_from(chains, i + 1);
    out.append(rest.as_str());
    proof {
        assert(out@ =~= spec_generate(chains_view(chains@), i as int));
    }
    out
}

impl Program {
    /// The concatenation of the generated artifacts of all chains, in
    /// declaration order.
    pub fn generate(&self) -> (r: String)
        ensures
            r@ == spec_generate(self@, 0),
    {
        generate_from(&self.chains, 0)
    }
}

/// Compiles a chain-specification text into generated source text, or fails
/// with the first syntax error. Generation itself has no failure path.
pub fn compile(source: &str) -> (r: Result<String, SyntaxError>)
    ensures
        (match r {
            Ok(t) => spec_compile(source@) == Ok::<Seq<char>, ErrView>(t@),
            Err(e) => spec_compile(source@) == Err::<Seq<char>, ErrView>(e@),
        }),
{
    match parse(source) {
        Err(e) => Err(e),
        Ok(p) => Ok(p.generate()),
    }
}

} // verus!
