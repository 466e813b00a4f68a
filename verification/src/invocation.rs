//! The structured form of one macro invocation: an ordered list of argument
//! clauses, each reduced to the shape the expansion logic actually inspects.

use vstd::prelude::*;

verus! {

/// The shape of one argument clause, at the specification level.
pub enum ArgShape {
    /// An unnamed argument whose value is a string literal, decoded.
    UnnamedStr(Seq<char>),
    /// An unnamed argument that is a string literal whose text cannot be
    /// decoded (a malformed escape, say).
    UnnamedStrInvalid,
    /// An unnamed argument whose value is a numeric literal, as written.
    UnnamedNum(Seq<char>),
    /// An unnamed argument of any other expression shape.
    UnnamedOther,
    /// A named or field-init-shorthand clause.
    Named,
}

/// One argument clause as written by the caller, reduced to the shape and
/// text that the expansion inspects.
pub enum MacroArg {
    UnnamedStr(String),
    UnnamedStrInvalid,
    UnnamedNum(String),
    UnnamedOther,
    Named,
}

impl View for MacroArg {
    type V = ArgShape;

    open spec fn view(&self) -> ArgShape {
        match self {
            MacroArg::UnnamedStr(s) => ArgShape::UnnamedStr(s@),
            MacroArg::UnnamedStrInvalid => ArgShape::UnnamedStrInvalid,
            MacroArg::UnnamedNum(t) => ArgShape::UnnamedNum(t@),
            MacroArg::UnnamedOther => ArgShape::UnnamedOther,
            MacroArg::Named => ArgShape::Named,
        }
    }
}

/// One parsed macro use: its ordered argument clauses.  Built by the
/// invocation parser, read by the resolver, and discarded afterwards.
pub struct Invocation {
    pub args: Vec<MacroArg>,
}

impl View for Invocation {
    type V = Seq<ArgShape>;

    open spec fn view(&self) -> Seq<ArgShape> {
        self.args@.map_values(|a: MacroArg| a@)
    }
}

} // verus!
