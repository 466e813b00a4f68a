//! The emitter: turn the resolver's outcome into the caller-visible pair of
//! an output token text and at most one diagnostic, always well paired.

use vstd::prelude::*;

use crate::resolve::{spec_message, ErrShape, ExpandError, result_view};

verus! {

/// The caller-visible outcome of one expansion: the replacement token text
/// (empty on failure) and at most one diagnostic message.
pub struct Expansion {
    pub tokens: String,
    pub diagnostic: Option<String>,
}

impl View for Expansion {
    type V = (Seq<char>, Option<Seq<char>>);

    open spec fn view(&self) -> (Seq<char>, Option<Seq<char>>) {
        (
            self.tokens@,
            match self.diagnostic {
                Some(d) => Some(d@),
                None => None,
            },
        )
    }
}

/// What the emitter produces: the numeral as bare token text with no
/// diagnostic, or empty token text beside the error's message.
pub open spec fn spec_emit(r: Result<Seq<char>, ErrShape>) -> (Seq<char>, Option<Seq<char>>) {
    match r {
        Ok(t) => (t, None),
        Err(e) => (Seq::<char>::empty(), Some(spec_message(e))),
    }
}

/// The emitter never produces a malformed pairing: a diagnostic comes with
/// empty token text and only with a failed resolution, and a successful
/// resolution keeps its numeral and carries no diagnostic.
pub proof fn lemma_emit_well_formed(r: Result<Seq<char>, ErrShape>)
    ensures
        (spec_emit(r).1 is Some) <==> (r is Err),
        r is Err ==> spec_emit(r).0 == Seq::<char>::empty(),
        r matches Ok(t) ==> spec_emit(r).0 == t && spec_emit(r).1 is None,
{
}

/// Package the resolver's outcome for the caller.
pub fn emit_result(r: Result<String, ExpandError>) -> (out: Expansion)
    ensures
        out@ == spec_emit(result_view(r)),
{
    match r {
        Ok(t) => Expansion { tokens: t, diagnostic: None },
        Err(e) => {
            let m = e.message();
            let empty = String::new();
            Expansion { tokens: empty, diagnostic: Some(m) }
        },
    }
}

} // verus!
