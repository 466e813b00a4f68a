//! The resolver: the decision logic of one expansion.  Given the parsed
//! argument clauses and the outcome of the environment lookup, it produces
//! either the replacement numeral text or exactly one error.

use vstd::prelude::*;

use crate::invocation::{ArgShape, Invocation, MacroArg};
use crate::numeral::{canonical_form, is_numeral, normalize_numeral};

verus! {

/// Everything that can go wrong in one expansion.  Each variant renders to
/// exactly one diagnostic message; the variants with a payload embed it.
#[derive(Debug)]
pub enum ExpandError {
    /// No argument clauses at all.
    NoVarName,
    /// The first clause is named rather than a bare value.
    NamedArg,
    /// The first clause is unnamed but not a string literal.
    NotStringName,
    /// The first clause is a string literal whose text cannot be decoded.
    UnreadableName,
    /// The second clause is named rather than a bare value.
    NamedDefault,
    /// The second clause is unnamed but not a numeric literal.
    NotNumericDefault,
    /// The environment value is not valid integer text; carries that value.
    BadNumericEnv(String),
    /// The default literal is not valid integer text; carries its text.
    BadNumericDefault(String),
    /// The variable is unset and no default was supplied; carries its name.
    NotSet(String),
}

/// The specification-level form of an expansion error.
pub enum ErrShape {
    NoVarName,
    NamedArg,
    NotStringName,
    UnreadableName,
    NamedDefault,
    NotNumericDefault,
    BadNumericEnv(Seq<char>),
    BadNumericDefault(Seq<char>),
    NotSet(Seq<char>),
}

impl View for ExpandError {
    type V = ErrShape;

    open spec fn view(&self) -> ErrShape {
        match self {
            ExpandError::NoVarName => ErrShape::NoVarName,
            ExpandError::NamedArg => ErrShape::NamedArg,
            ExpandError::NotStringName => ErrShape::NotStringName,
            ExpandError::UnreadableName => ErrShape::UnreadableName,
            ExpandError::NamedDefault => ErrShape::NamedDefault,
            ExpandError::NotNumericDefault => ErrShape::NotNumericDefault,
            ExpandError::BadNumericEnv(v) => ErrShape::BadNumericEnv(v@),
            ExpandError::BadNumericDefault(t) => ErrShape::BadNumericDefault(t@),
            ExpandError::NotSet(n) => ErrShape::NotSet(n@),
        }
    }
}

/// The diagnostic message of each error, character for character.
pub open spec fn spec_message(e: ErrShape) -> Seq<char> {
    match e {
        ErrShape::NoVarName => "Please specify the environment variable name"@,
        ErrShape::NamedArg => "Expected unnamed argument"@,
        ErrShape::NotStringName => "Expected environment variable name"@,
        ErrShape::UnreadableName => "Failed to parse environment variable name"@,
        ErrShape::NamedDefault => "Expected unnamed default argument"@,
        ErrShape::NotNumericDefault => "Expected numeric default"@,
        ErrShape::BadNumericEnv(v) => "Failed to parse numeric environment variable: "@ + v,
        ErrShape::BadNumericDefault(t) => "Failed to parse numeric default: "@ + t,
        ErrShape::NotSet(n) => "Environment variable "@ + n + " not set"@,
    }
}

impl ExpandError {
    /// Render this error as its diagnostic message.
    pub fn message(&self) -> (m: String)
        ensures
            m@ == spec_message(self@),
    {
        match self {
            ExpandError::NoVarName => String::from_str(
                "Please specify the environment variable name",
            ),
            ExpandError::NamedArg => String::from_str("Expected unnamed argument"),
            ExpandError::NotStringName => String::from_str("Expected environment variable name"),
            ExpandError::UnreadableName => String::from_str(
                "Failed to parse environment variable name",
            ),
            ExpandError::NamedDefault => String::from_str("Expected unnamed default argument"),
            ExpandError::NotNumericDefault => String::from_str("Expected numeric default"),
            ExpandError::BadNumericEnv(v) => String::from_str(
                "Failed to parse numeric environment variable: ",
            ).concat(v.as_str()),
            ExpandError::BadNumericDefault(t) => String::from_str(
                "Failed to parse numeric default: ",
            ).concat(t.as_str()),
            ExpandError::NotSet(n) => String::from_str("Environment variable ").concat(
                n.as_str(),
            ).concat(" not set"),
        }
    }
}

/// One sequence of characters occurs inside another, contiguously.
pub open spec fn contains_subseq(h: Seq<char>, n: Seq<char>) -> bool {
    exists|i: int|
        0 <= i && i + n.len() <= h.len() && #[trigger] h.subrange(i, i + n.len() as int) == n
}

/// A numeric-parse diagnostic embeds the offending text verbatim, whether
/// the text came from the environment or from the default literal.
pub proof fn lemma_numeric_diagnostic_embeds_text(t: Seq<char>)
    ensures
        contains_subseq(spec_message(ErrShape::BadNumericEnv(t)), t),
        contains_subseq(spec_message(ErrShape::BadNumericDefault(t)), t),
{
    let p1 = "Failed to parse numeric environment variable: "@;
    let h1 = spec_message(ErrShape::BadNumericEnv(t));
    assert(h1.subrange(p1.len() as int, (p1.len() + t.len()) as int) =~= t);
    let p2 = "Failed to parse numeric default: "@;
    let h2 = spec_message(ErrShape::BadNumericDefault(t));
    assert(h2.subrange(p2.len() as int, (p2.len() + t.len()) as int) =~= t);
}

/// A not-set diagnostic embeds the variable's name verbatim.
pub proof fn lemma_not_set_diagnostic_embeds_name(n: Seq<char>)
    ensures
        contains_subseq(spec_message(ErrShape::NotSet(n)), n),
{
    let p = "Environment variable "@;
    let h = spec_message(ErrShape::NotSet(n));
    assert(h.subrange(p.len() as int, (p.len() + n.len()) as int) =~= n);
}

/// Reduce an executable result to its specification-level form.
pub open spec fn result_view(r: Result<String, ExpandError>) -> Result<Seq<char>, ErrShape> {
    match r {
        Ok(t) => Ok(t@),
        Err(e) => Err(e@),
    }
}

/// What extracting the variable name from the first clause yields.
pub open spec fn spec_var_name(a: ArgShape) -> Result<Seq<char>, ErrShape> {
    match a {
        ArgShape::UnnamedStr(s) => Ok(s),
        ArgShape::UnnamedStrInvalid => Err(ErrShape::UnreadableName),
        ArgShape::UnnamedNum(_) => Err(ErrShape::NotStringName),
        ArgShape::UnnamedOther => Err(ErrShape::NotStringName),
        ArgShape::Named => Err(ErrShape::NamedArg),
    }
}

/// What extracting the variable name from a whole invocation yields.
pub open spec fn spec_get_name(args: Seq<ArgShape>) -> Result<Seq<char>, ErrShape> {
    if args.len() == 0 {
        Err(ErrShape::NoVarName)
    } else {
        spec_var_name(args[0])
    }
}

/// What resolving the default clause yields: the canonical numeral of a
/// numeric literal's text, or the error naming what went wrong.
pub open spec fn spec_default(a: ArgShape) -> Result<Seq<char>, ErrShape> {
    match a {
        ArgShape::UnnamedNum(t) => if is_numeral(t) {
            Ok(canonical_form(t))
        } else {
            Err(ErrShape::BadNumericDefault(t))
        },
        ArgShape::Named => Err(ErrShape::NamedDefault),
        ArgShape::UnnamedStr(_) => Err(ErrShape::NotNumericDefault),
        ArgShape::UnnamedStrInvalid => Err(ErrShape::NotNumericDefault),
        ArgShape::UnnamedOther => Err(ErrShape::NotNumericDefault),
    }
}

/// The whole decision: given the argument clauses and the looked-up value of
/// the named variable (`None` when unset), either the replacement numeral or
/// exactly one error.  A found value always takes precedence over a default;
/// with the variable unset, a default is consulted exactly when the
/// invocation has two clauses.
pub open spec fn spec_expand(args: Seq<ArgShape>, env_value: Option<Seq<char>>) -> Result<
    Seq<char>,
    ErrShape,
> {
    match spec_get_name(args) {
        Err(e) => Err(e),
        Ok(name) => match env_value {
            Some(v) => if is_numeral(v) {
                Ok(canonical_form(v))
            } else {
                Err(ErrShape::BadNumericEnv(v))
            },
            None => if args.len() == 2 {
                spec_default(args[1])
            } else {
                Err(ErrShape::NotSet(name))
            },
        },
    }
}

/// A found environment value takes precedence over any default: when the
/// variable is set, the outcome depends only on the name clause and the
/// found value, never on the remaining clauses.
pub proof fn lemma_env_value_precedes_default(
    args1: Seq<ArgShape>,
    args2: Seq<ArgShape>,
    v: Seq<char>,
)
    requires
        args1.len() > 0,
        args2.len() > 0,
        args1[0] == args2[0],
    ensures
        spec_expand(args1, Some(v)) == spec_expand(args2, Some(v)),
{
}

/// The view of an optional borrowed environment value.
pub open spec fn env_view(env_value: Option<&String>) -> Option<Seq<char>> {
    match env_value {
        Some(v) => Some(v@),
        None => None,
    }
}

/// Extract the environment variable's name: the first clause must be an
/// unnamed string literal.
pub fn get_env_variable_name(inv: &Invocation) -> (r: Result<String, ExpandError>)
    ensures
        result_view(r) == spec_get_name(inv@),
{
    if inv.args.len() == 0 {
        return Err(ExpandError::NoVarName);
    }
    match &inv.args[0] {
        MacroArg::UnnamedStr(s) => Ok(s.clone()),
        MacroArg::UnnamedStrInvalid => Err(ExpandError::UnreadableName),
        MacroArg::UnnamedNum(_) => Err(ExpandError::NotStringName),
        MacroArg::UnnamedOther => Err(ExpandError::NotStringName),
        MacroArg::Named => Err(ExpandError::NamedArg),
    }
}

/// Resolve the default clause: it must be an unnamed numeric literal, and
/// its text is normalized through the single numeric choke point.
pub fn get_default_value(arg: &MacroArg) -> (r: Result<String, ExpandError>)
    ensures
        result_view(r) == spec_default(arg@),
{
    match arg {
        MacroArg::UnnamedNum(t) => match normalize_numeral(t.as_str()) {
            Ok(v) => Ok(v),
            Err(e) => Err(ExpandError::BadNumericDefault(e.text)),
        },
        MacroArg::Named => Err(ExpandError::NamedDefault),
        MacroArg::UnnamedStr(_) => Err(ExpandError::NotNumericDefault),
        MacroArg::UnnamedStrInvalid => Err(ExpandError::NotNumericDefault),
        MacroArg::UnnamedOther => Err(ExpandError::NotNumericDefault),
    }
}

/// The resolver: run the whole decision for one invocation, given the
/// looked-up value of its variable (`None` when the variable is unset).
pub fn expand_env_macro(inv: &Invocation, env_value: Option<&String>) -> (r: Result<
    String,
    ExpandError,
>)
    ensures
        result_view(r) == spec_expand(inv@, env_view(env_value)),
{
    let name = match get_env_variable_name(inv) {
        Ok(n) => n,
        Err(e) => {
            return Err(e);
        },
    };
    match env_value {
        Some(val) => match normalize_numeral(val.as_str()) {
            Ok(t) => Ok(t),
            Err(e) => Err(ExpandError::BadNumericEnv(e.text)),
        },
        None => {
            if inv.args.len() == 2 {
                get_default_value(&inv.args[1])
            } else {
                Err(ExpandError::NotSet(name))
            }
        },
    }
}

} // verus!
