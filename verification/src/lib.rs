//! Compile-time expansion of an `env!`-style invocation: parse the raw
//! argument text into structured clauses, resolve the named environment
//! variable, normalize the value to a canonical numeral, and package either
//! a replacement token text or exactly one diagnostic.

pub mod emit;
pub mod invocation;
pub mod numeral;
pub mod parse;
pub mod resolve;

use vstd::prelude::*;

use crate::emit::{emit_result, spec_emit, Expansion};
use crate::invocation::{ArgShape, Invocation};
use crate::parse::{parsed_args_of, parses_as_macro};
use crate::resolve::{env_view, expand_env_macro, spec_expand};

verus! {

/// The outcome of one fully resolved expansion, at the specification level:
/// what the emitter makes of the resolver's decision.
pub open spec fn spec_expansion(args: Seq<ArgShape>, env_value: Option<Seq<char>>) -> (
    Seq<char>,
    Option<Seq<char>>,
) {
    spec_emit(spec_expand(args, env_value))
}

/// Run the resolver and the emitter over one parsed invocation, given the
/// looked-up value of its variable (`None` when the variable is unset).
pub fn expand_parsed(inv: &Invocation, env_value: Option<&String>) -> (out: Expansion)
    ensures
        out@ == spec_expansion(inv@, env_view(env_value)),
{
    emit_result(expand_env_macro(inv, env_value))
}

/// Idempotence: an expansion is a function of the invocation text and the
/// environment snapshot alone, so running the same invocation twice with an
/// unchanged environment yields identical outcomes.
pub proof fn lemma_expansion_deterministic(
    text1: Seq<char>,
    env1: Option<Seq<char>>,
    text2: Seq<char>,
    env2: Option<Seq<char>>,
)
    requires
        text1 == text2,
        env1 == env2,
    ensures
        parses_as_macro(text1) == parses_as_macro(text2),
        spec_expansion(parsed_args_of(text1), env1) == spec_expansion(parsed_args_of(text2), env2),
{
}

} // verus!
