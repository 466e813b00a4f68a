//! The invocation parser: hand the raw invocation text to the host
//! compiler's parser and reduce the resulting syntax tree to the library's
//! own argument shapes.  Every call into the host parser sits behind a
//! trusted item here; everything after those calls is verified.

use vstd::prelude::*;

use cairo_lang_filesystem::ids::{FileKind, FileLongId, VirtualFile};
use cairo_lang_parser::db::ParserGroup;
use cairo_lang_parser::utils::SimpleParserDatabase;
use cairo_lang_syntax::node::Terminal;
use cairo_lang_syntax::node::ast::{Arg, ArgClause, Expr, WrappedArgList};
use cairo_lang_utils::{Intern, Upcast};

use crate::invocation::{ArgShape, Invocation, MacroArg};

verus! {

/// The argument nodes of one parsed invocation, together with the parser
/// database that owns them.  The host parser's node types cannot be spoken
/// of directly, so the pair is held opaquely and read through the trusted
/// accessors below.
#[verifier::external_body]
pub struct ParsedMacro {
    db: SimpleParserDatabase,
    args: Vec<Arg>,
}

/// The argument clauses that the host parser finds when it reads the given
/// text as a standalone expression fragment.  Parsing is a function of the
/// text alone.
pub uninterp spec fn parsed_args_of(text: Seq<char>) -> Seq<ArgShape>;

/// Whether the host parser reads the given text as an inline-macro
/// expression at all.
pub uninterp spec fn parses_as_macro(text: Seq<char>) -> bool;

/// The argument clauses a parse holds.
pub uninterp spec fn macro_args(p: ParsedMacro) -> Seq<ArgShape>;

/// The complete expression fragment submitted to the host parser for a given
/// argument text: the macro's fixed name followed by that text.
pub open spec fn full_fragment(args_text: Seq<char>) -> Seq<char> {
    "env!"@ + args_text
}

/// Relies on cairo_lang_parser: `SimpleParserDatabase::default` builds a
/// fresh database, the interned `VirtualFile` carries exactly the given
/// text, and `file_expr_syntax` parses that text as an expression,
/// deterministically.  The clauses of a parenthesized argument list are kept
/// in order; a non-parenthesized argument list has none.
#[verifier::external_body]
fn parse_to_nodes(full_text: &str) -> (r: Option<ParsedMacro>)
    ensures
        r matches Some(p) ==> parses_as_macro(full_text@) && macro_args(p) == parsed_args_of(
            full_text@,
        ),
        r is None ==> !parses_as_macro(full_text@),
{
    let db = SimpleParserDatabase::default();
    let name = "parser_input".into();
    let content = full_text.into();
    let vf = VirtualFile { parent: None, name, content, code_mappings: [].into(), kind: FileKind::Expr };
    let file = FileLongId::Virtual(vf).intern(&db);
    let mac = match db.file_expr_syntax(file) {
        Ok(Expr::InlineMacro(m)) => m,
        _ => return None,
    };
    let args = match mac.arguments(db.upcast()) {
        WrappedArgList::ParenthesizedArgList(l) => l.arguments(db.upcast()).elements(db.upcast()),
        _ => Vec::new(),
    };
    Some(ParsedMacro { db, args })
}

/// Relies on Vec::len of the stored argument nodes.
#[verifier::external_body]
fn node_count(p: &ParsedMacro) -> (n: usize)
    ensures
        n == macro_args(*p).len(),
{
    p.args.len()
}

/// Relies on cairo_lang_syntax's node accessors: `arg_clause` and `value`
/// expose one clause's shape, `string_value` decodes a string literal's
/// text (`None` when it cannot be decoded), and `text` is a numeric
/// literal's token text as written.
#[verifier::external_body]
fn node_arg(p: &ParsedMacro, i: usize) -> (a: MacroArg)
    requires
        i < macro_args(*p).len(),
    ensures
        a@ == macro_args(*p)[i as int],
{
    let db = &p.db;
    match p.args[i].arg_clause(db.upcast()) {
        ArgClause::Unnamed(u) => match u.value(db.upcast()) {
            Expr::String(t) => match t.string_value(db.upcast()) {
                Some(v) => MacroArg::UnnamedStr(v),
                None => MacroArg::UnnamedStrInvalid,
            },
            Expr::Literal(l) => MacroArg::UnnamedNum(l.text(db.upcast()).to_string()),
            _ => MacroArg::UnnamedOther,
        },
        _ => MacroArg::Named,
    }
}

/// The invocation parser: reconstruct the complete `env!` fragment around
/// the caller's argument text, drive the host parser over it, and return the
/// structured invocation.  `None` means the host parser did not read the
/// fragment as a macro invocation; given the intended caller that is a
/// host-protocol violation, not a user error, and the caller decides how to
/// fail.
pub fn parse_inline_macro(args_text: &str) -> (r: Option<Invocation>)
    ensures
        r matches Some(inv) ==> parses_as_macro(full_fragment(args_text@)) && inv@
            == parsed_args_of(full_fragment(args_text@)),
        r is None ==> !parses_as_macro(full_fragment(args_text@)),
{
    let full = String::from_str("env!").concat(args_text);
    let p = match parse_to_nodes(full.as_str()) {
        Some(p) => p,
        None => {
            return None;
        },
    };
    let n = node_count(&p);
    let mut args: Vec<MacroArg> = Vec::new();
    let mut i: usize = 0;
    while i < n
        invariant
            i <= n,
            n == macro_args(p).len(),
            args@.len() == i as nat,
            forall|k: int| 0 <= k < i ==> args@[k]@ == macro_args(p)[k],
        decreases n - i,
    {
        let a = node_arg(&p, i);
        args.push(a);
        i += 1;
    }
    let inv = Invocation { args };
    proof {
        assert forall|k: int| 0 <= k < inv@.len() implies inv@[k] == macro_args(p)[k] by {
            assert(inv@[k] == args@[k]@);
        }
        assert(inv@ =~= macro_args(p));
    }
    Some(inv)
}

} // verus!
