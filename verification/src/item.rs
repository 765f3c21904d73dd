//! The test function the attribute is placed on, and the pieces of the
//! synchronous test function that replaces it.

use proc_macro2::{Span, TokenStream};
use vstd::prelude::*;
use vstd::string::*;

use crate::codegen::{
    build_runtime, code, code_piece, pieces_view, runtime_layout, BlockPiece, PieceSpan, PieceView,
};
use crate::attrs::{arg_views, build_config_for, config_outcome, AttrArg};
use crate::config::{FinalConfig, FinalState};
use crate::runtime::AsyncRuntime;
use crate::error::{ErrorKind, ErrorSite, MacroError};

verus! {

/// An attribute on the function: whether its path is `test`, and its span.
#[derive(Clone, Copy, Debug)]
pub struct FnAttr {
    pub is_test: bool,
    pub span: Span,
}

/// The kind of the last statement of the function body.
#[derive(Clone, Copy, Debug, PartialEq, Eq, Structural)]
pub enum LastStmt {
    /// The body has no statement.
    Missing,
    /// A `let` statement.
    Local,
    /// `return ...;`
    ReturnSemi,
    /// Another expression followed by `;`.
    Semi,
    /// An expression without `;`, or an item.
    Other,
}

/// The declared return type of the function.
#[derive(Clone, Copy, Debug, PartialEq, Eq, Structural)]
pub enum ReturnKind {
    /// No `->` at all.
    Default,
    /// A tuple type; its number of elements (`-> ()` has none).
    Tuple(usize),
    /// Any other type.
    Other,
}

/// Whether a declared return type is the unit type: none at all, or `()`.
pub open spec fn returns_unit(output: ReturnKind) -> bool {
    output == ReturnKind::Default || output == ReturnKind::Tuple(0)
}

/// What the attribute reads of the function it is placed on.
#[derive(Debug)]
pub struct ItemFnShape {
    /// The function's name.
    pub name: String,
    /// Whether the function is declared `async`.
    pub is_async: bool,
    /// The span of the `fn` keyword.
    pub fn_token_span: Span,
    /// The function's attributes, in order.
    pub attrs: Vec<FnAttr>,
    /// The kind of the body's last statement.
    pub last_stmt: LastStmt,
    /// The span of the first token of the body's last statement (the call
    /// site when the body is empty).
    pub last_stmt_start: Span,
    /// The declared return type.
    pub output: ReturnKind,
}

/// Whether the attribute at index `i` is the first `#[test]` attribute.
pub open spec fn first_test_attr(attrs: Seq<FnAttr>, i: int) -> bool {
    &&& 0 <= i < attrs.len()
    &&& attrs[i].is_test
    &&& forall|j: int| 0 <= j < i ==> !(#[trigger] attrs[j]).is_test
}

/// Rejects a function that already carries a `#[test]` attribute; the
/// error is reported at the first one.
pub fn check_dup_test_attr(input: &ItemFnShape) -> (r: Result<(), MacroError>)
    ensures
        r is Ok <==> forall|j: int| 0 <= j < input.attrs@.len() ==> !(#[trigger] input.attrs@[j]).is_test,
        r matches Err(e) ==> e.kind is DuplicateTestAttribute && exists|i: int|
            first_test_attr(input.attrs@, i) && e.site == ErrorSite::At(input.attrs@[i].span),
{
    let n = input.attrs.len();
    let mut i: usize = 0;
    while i < n
        invariant
            i <= n,
            n == input.attrs@.len(),
            forall|j: int| 0 <= j < i ==> !(#[trigger] input.attrs@[j]).is_test,
        decreases n - i,
    {
        let a = input.attrs[i];
        if a.is_test {
            assert(first_test_attr(input.attrs@, i as int));
            return Err(MacroError::at(a.span, ErrorKind::DuplicateTestAttribute));
        }
        i = i + 1;
    }
    Ok(())
}

/// Checks that the attribute is placed on a function it can rewrite: one
/// declared `async` and without a `#[test]` attribute already.
pub fn check_item_fn(input: &ItemFnShape) -> (r: Result<(), MacroError>)
    ensures
        !input.is_async ==> (r matches Err(e) && e.site == ErrorSite::At(input.fn_token_span)
            && e.kind is MissingAsync),
        input.is_async ==> (r is Ok <==> forall|j: int|
            0 <= j < input.attrs@.len() ==> !(#[trigger] input.attrs@[j]).is_test),
        input.is_async ==> (r matches Err(e) ==> e.kind is DuplicateTestAttribute && exists|i: int|
            first_test_attr(input.attrs@, i) && e.site == ErrorSite::At(input.attrs@[i].span)),
{
    if !input.is_async {
        return Err(MacroError::at(input.fn_token_span, ErrorKind::MissingAsync));
    }
    check_dup_test_attr(input)
}

/// The statement that runs the `init` expression and holds its value until the test ends.
pub open spec fn init_statement(init: Seq<char>) -> Seq<char> {
    "let _g = "@ + init + ";"@
}

/// Whether a character is white space to the Rust lexer
/// (`Pattern_White_Space`).
pub open spec fn is_rust_whitespace(c: char) -> bool {
    ||| ('\t' <= c && c <= '\r')
    ||| c == ' '
    ||| c == '\u{85}'
    ||| c == '\u{200E}'
    ||| c == '\u{200F}'
    ||| c == '\u{2028}'
    ||| c == '\u{2029}'
}

/// The length of a text without its trailing white space.
pub open spec fn trimmed_len(s: Seq<char>) -> nat
    decreases s.len(),
{
    if s.len() > 0 && is_rust_whitespace(s.last()) {
        trimmed_len(s.drop_last())
    } else {
        s.len()
    }
}

/// Whether a path prefix, trailing white space aside, is empty or already
/// ends in `::`.
pub open spec fn prefix_is_open(lib: Seq<char>) -> bool {
    let m = trimmed_len(lib) as int;
    m == 0 || (m >= 2 && lib[m - 2] == ':' && lib[m - 1] == ':')
}

/// The path of the `tracing` crate, reached through the prefix `lib`: the
/// prefix followed by `tracing` when it is empty or ends in `::` (white
/// space aside), else the prefix joined to `tracing` by `::`.
pub open spec fn tracing_path(lib: Seq<char>) -> Seq<char> {
    if prefix_is_open(lib) {
        lib + "tracing"@
    } else {
        lib + "::tracing"@
    }
}

fn is_whitespace_char(c: char) -> (r: bool)
    ensures
        r == is_rust_whitespace(c),
{
    ('\t' <= c && c <= '\r') || c == ' ' || c == '\u{85}' || c == '\u{200E}' || c == '\u{200F}'
        || c == '\u{2028}' || c == '\u{2029}'
}

/// The path of the `tracing` crate reached through the prefix `lib`.
pub fn tracing_path_text(lib: &str) -> (s: String)
    ensures
        s@ == tracing_path(lib@),
{
    let n = lib.unicode_len();
    let mut m: usize = n;
    proof {
        assert(lib@.take(n as int) =~= lib@);
    }
    while m > 0 && is_whitespace_char(lib.get_char(m - 1))
        invariant
            m <= n,
            n == lib@.len(),
            trimmed_len(lib@) == trimmed_len(lib@.take(m as int)),
        decreases m,
    {
        proof {
            assert(lib@.take(m as int).drop_last() =~= lib@.take(m - 1));
        }
        m = m - 1;
    }
    proof {
        assert(lib@.take(m as int).len() == m);
    }
    if m == 0 || (m >= 2 && lib.get_char(m - 2) == ':' && lib.get_char(m - 1) == ':') {
        String::from_str(lib).concat("tracing")
    } else {
        String::from_str(lib).concat("::tracing")
    }
}

/// The statements that run the test body inside a tracing span named after
/// the function, at the given level, with `tracing` reached through `lib`.
pub open spec fn tracing_source(lib: Seq<char>, level: Seq<char>, fn_name: Seq<char>) -> Seq<char> {
    "\n            use "@ + tracing_path(lib) + "::Instrument;\n            let body_span = "@
        + tracing_path(lib) + "::"@ + level + "_span!(\""@ + fn_name
        + "\");\n            let body = body.instrument(body_span);\n        "@
}

/// The source of the statements that run the body inside a tracing span.
pub fn tracing_statements(lib: &str, level: &str, fn_name: &str) -> (s: String)
    ensures
        s@ == tracing_source(lib@, level@, fn_name@),
{
    let path = tracing_path_text(lib);
    String::from_str("\n            use ").concat(path.as_str()).concat(
        "::Instrument;\n            let body_span = ",
    ).concat(path.as_str()).concat("::").concat(level).concat("_span!(\"").concat(fn_name).concat(
        "\");\n            let body = body.instrument(body_span);\n        ",
    )
}

/// The source of the statement that runs the `init` expression and holds
/// its value until the test ends.
pub fn init_statement_text(init: &str) -> (s: String)
    ensures
        s@ == init_statement(init@),
        s@ == "let _g = "@ + init@ + ";"@,
{
    String::from_str("let _g = ").concat(init).concat(";")
}

/// How the call that runs the body ends: whether it is returned, and
/// whether a `;` follows it. A body ending in `return ...;` returns the
/// call's value; a body ending in a statement returns it only when the
/// function returns a value; a body ending in an expression yields it.
pub open spec fn tail_of(last: LastStmt, output: ReturnKind) -> (bool, bool) {
    match last {
        LastStmt::ReturnSemi => (true, true),
        LastStmt::Semi | LastStmt::Local | LastStmt::Missing => if returns_unit(output) {
            (false, true)
        } else {
            (false, false)
        },
        LastStmt::Other => (false, false),
    }
}

/// Decides how the call that runs the body ends.
pub fn tail_kind(last: LastStmt, output: ReturnKind) -> (r: (bool, bool))
    ensures
        r == tail_of(last, output),
{
    match last {
        LastStmt::ReturnSemi => (true, true),
        LastStmt::Semi | LastStmt::Local | LastStmt::Missing => match output {
            ReturnKind::Default | ReturnKind::Tuple(0) => (false, true),
            _ => (false, false),
        },
        LastStmt::Other => (false, false),
    }
}

/// The attribute that marks the generated function as a test.
pub open spec fn test_attr_source() -> Seq<char> {
    "#[::core::prelude::v1::test]"@
}

/// The call that runs the body, as the function's last expression or
/// statement: returned or not, followed by `;` or not (see `tail_of`).
pub open spec fn tail_source(last: LastStmt, output: ReturnKind) -> Seq<char> {
    let (ret, semi) = tail_of(last, output);
    "#[allow(clippy::expect_used)] "@ + (if ret {
        "return "@
    } else {
        Seq::<char>::empty()
    }) + "rt.block_on(body)"@ + (if semi {
        " ;"@
    } else {
        Seq::<char>::empty()
    })
}

/// The pieces of the new body of the test function, in order:
/// the `init` statement, binding the value to `_g` so that it is held until
/// the test ends (when given); the original body as an `async` block bound
/// to `body`; the tracing statements (when a span level is given); the
/// runtime bound to `rt`; and the call that blocks on `body`. The pieces the
/// attribute writes itself carry the span of the end of the last statement.
pub open spec fn block_layout(fn_name: Seq<char>, f: FinalState, last: LastStmt, output: ReturnKind) -> Seq<
    PieceView,
> {
    let init = match f.init {
        Some((t, _)) => seq![code(init_statement(t), PieceSpan::CallSite)],
        None => Seq::<PieceView>::empty(),
    };
    let tracing = match f.tracing_span {
        Some((level, _)) => seq![
            code(tracing_source(tracing_lib_of(f), level, fn_name), PieceSpan::CallSite),
        ],
        None => Seq::<PieceView>::empty(),
    };
    init + seq![
        code("let body = async"@, PieceSpan::LastStmtEnd),
        PieceView::OriginalBody,
        code(";"@, PieceSpan::LastStmtEnd),
    ] + tracing + seq![code("#[allow(unused_mut)] let mut rt ="@, PieceSpan::LastStmtEnd)]
        + runtime_layout(f) + seq![
        code(";"@, PieceSpan::LastStmtEnd),
        code(tail_source(last, output), PieceSpan::LastStmtEnd),
    ]
}

/// The path prefix `tracing` is reached through: the one given, else none.
pub open spec fn tracing_lib_of(f: FinalState) -> Seq<char> {
    match f.tracing_lib {
        Some((l, _)) => l,
        None => Seq::<char>::empty(),
    }
}

/// The synchronous test function's new parts: the test attribute put before
/// it, and the pieces of its new body in order. The function keeps its
/// attributes, visibility, signature (without `async`) and braces.
#[derive(Debug)]
pub struct TestFnParts {
    pub test_attr: BlockPiece,
    pub block: Vec<BlockPiece>,
}

/// Whether an error is reported at the site of one of the texts the
/// generated function is built from: the runtime expression and the
/// attribute's own pieces at the last statement, the `init` statement at
/// the `init` option, the tracing statements at the `tracing_span` option.
pub open spec fn at_text_site(site: ErrorSite, last_stmt_start: Span, f: FinalState) -> bool {
    ||| site == ErrorSite::At(last_stmt_start)
    ||| (f.init matches Some((_, sp)) && site == ErrorSite::At(sp))
    ||| (f.tracing_span matches Some((_, sp)) && site == ErrorSite::At(sp))
}

fn tail_text(last: LastStmt, output: ReturnKind) -> (s: String)
    ensures
        s@ == tail_source(last, output),
{
    let (ret, semi) = tail_kind(last, output);
    let mut s = String::from_str("#[allow(clippy::expect_used)] ");
    if ret {
        s = s.concat("return ");
    }
    s = s.concat("rt.block_on(body)");
    if semi {
        s = s.concat(" ;");
    }
    s
}

/// Whether parts follow the layout of a test function for a configuration.
pub open spec fn parts_follow(p: TestFnParts, item_fn: ItemFnShape, f: FinalState) -> bool {
    &&& p.test_attr@ == code(test_attr_source(), PieceSpan::CallSite)
    &&& pieces_view(p.block@) == block_layout(item_fn.name@, f, item_fn.last_stmt, item_fn.output)
}

/// Whether no attribute of a function is `#[test]`.
pub open spec fn no_test_attr(attrs: Seq<FnAttr>) -> bool {
    forall|j: int| 0 <= j < attrs.len() ==> !(#[trigger] attrs[j]).is_test
}

/// Builds the parts of the test function that runs the `async` body on the
/// configured runtime. Texts are lexed in order, stopping at the first that
/// fails: the runtime expression (`build_runtime`), the `init` statement,
/// the tracing statements, then the attribute's own pieces.
pub fn build_test_fn(item_fn: &ItemFnShape, config: FinalConfig) -> (r: Result<TestFnParts, MacroError>)
    ensures
        r matches Ok(p) ==> parts_follow(p, *item_fn, config@),
        r matches Err(e) ==> e.kind is Lex && at_text_site(e.site, item_fn.last_stmt_start, config@),
{
    let here = item_fn.last_stmt_start;
    let rt = match build_runtime(here, &config) {
        Ok(v) => v,
        Err(e) => return Err(e),
    };
    let init = match &config.init {
        Some((text, sp)) => match code_piece(init_statement_text(text.as_str()), PieceSpan::CallSite, *sp) {
            Ok(p) => Some(p),
            Err(e) => return Err(e),
        },
        None => None,
    };
    let tracing = match &config.tracing_span {
        Some((level, sp)) => {
            let lib = match &config.tracing_lib {
                Some((l, _)) => l.clone(),
                None => String::new(),
            };
            let text = tracing_statements(lib.as_str(), level.as_str(), item_fn.name.as_str());
            match code_piece(text, PieceSpan::CallSite, *sp) {
                Ok(p) => Some(p),
                Err(e) => return Err(e),
            }
        },
        None => None,
    };
    let own = |t: &str, sp: PieceSpan| -> (r: Result<BlockPiece, MacroError>)
        ensures
            r matches Ok(p) ==> p@ == code(t@, sp),
            r matches Err(e) ==> e.site == ErrorSite::At(here) && e.kind is Lex,
        { code_piece(String::from_str(t), sp, here) };
    let test_attr = match own("#[::core::prelude::v1::test]", PieceSpan::CallSite) {
        Ok(p) => p,
        Err(e) => return Err(e),
    };
    let let_body = match own("let body = async", PieceSpan::LastStmtEnd) {
        Ok(p) => p,
        Err(e) => return Err(e),
    };
    let semi1 = match own(";", PieceSpan::LastStmtEnd) {
        Ok(p) => p,
        Err(e) => return Err(e),
    };
    let let_rt = match own("#[allow(unused_mut)] let mut rt =", PieceSpan::LastStmtEnd) {
        Ok(p) => p,
        Err(e) => return Err(e),
    };
    let semi2 = match own(";", PieceSpan::LastStmtEnd) {
        Ok(p) => p,
        Err(e) => return Err(e),
    };
    let tail = match code_piece(tail_text(item_fn.last_stmt, item_fn.output), PieceSpan::LastStmtEnd, here) {
        Ok(p) => p,
        Err(e) => return Err(e),
    };
    let ghost f = config@;
    let ghost name = item_fn.name@;
    let mut block: Vec<BlockPiece> = Vec::new();
    if let Some(p) = init {
        block.push(p);
    }
    let ghost init_part = pieces_view(block@);
    assert(init_part =~= match f.init {
        Some((t, _)) => seq![code(init_statement(t), PieceSpan::CallSite)],
        None => Seq::<PieceView>::empty(),
    });
    block.push(let_body);
    block.push(BlockPiece::OriginalBody);
    block.push(semi1);
    let ghost before_tracing = pieces_view(block@);
    if let Some(p) = tracing {
        block.push(p);
    }
    let ghost tracing_part = match f.tracing_span {
        Some((level, _)) => seq![
            code(tracing_source(tracing_lib_of(f), level, name), PieceSpan::CallSite),
        ],
        None => Seq::<PieceView>::empty(),
    };
    assert(pieces_view(block@) =~= before_tracing + tracing_part);
    block.push(let_rt);
    let ghost before_rt = pieces_view(block@);
    let mut rt = rt;
    block.append(&mut rt);
    assert(pieces_view(block@) =~= before_rt + runtime_layout(f));
    block.push(semi2);
    block.push(tail);
    assert(pieces_view(block@) =~= block_layout(name, f, item_fn.last_stmt, item_fn.output));
    Ok(TestFnParts { test_attr, block })
}

/// The attribute's whole decision for a test function, in the order the
/// checks are made: the function must be `async` and carry no `#[test]`;
/// then its arguments, once parsed, must make a valid configuration for the
/// runtime; then the new function's parts are built from it.
pub fn entry_test(item_fn: &ItemFnShape, args: Result<Vec<AttrArg>, MacroError>, runtime: AsyncRuntime) -> (r:
    Result<TestFnParts, MacroError>)
    ensures
        !item_fn.is_async ==> (r matches Err(e) && e.site == ErrorSite::At(item_fn.fn_token_span)
            && e.kind is MissingAsync),
        item_fn.is_async && !no_test_attr(item_fn.attrs@) ==> (r matches Err(e)
            && e.kind is DuplicateTestAttribute && exists|i: int|
            first_test_attr(item_fn.attrs@, i) && e.site == ErrorSite::At(item_fn.attrs@[i].span)),
        item_fn.is_async && no_test_attr(item_fn.attrs@) ==> (args matches Err(a) ==> (r matches Err(
            e,
        ) && e@ == a@)),
        item_fn.is_async && no_test_attr(item_fn.attrs@) ==> (args matches Ok(v) ==> (config_outcome(
            runtime,
            arg_views(v@),
            true,
        ) matches Err(c) ==> (r matches Err(e) && e@ == c))),
        item_fn.is_async && no_test_attr(item_fn.attrs@) ==> (args matches Ok(v) ==> (config_outcome(
            runtime,
            arg_views(v@),
            true,
        ) matches Ok(f) ==> (r matches Ok(p) ==> parts_follow(p, *item_fn, f)))),
        item_fn.is_async && no_test_attr(item_fn.attrs@) ==> (args matches Ok(v) ==> (config_outcome(
            runtime,
            arg_views(v@),
            true,
        ) matches Ok(f) ==> (r matches Err(e) ==> e.kind is Lex && at_text_site(
            e.site,
            item_fn.last_stmt_start,
            f,
        )))),
{
    match check_item_fn(item_fn) {
        Ok(()) => {},
        Err(e) => return Err(e),
    }
    let args = match args {
        Ok(a) => a,
        Err(e) => return Err(e),
    };
    let config = match build_config_for(runtime, args, true) {
        Ok(c) => c,
        Err(e) => return Err(e),
    };
    build_test_fn(item_fn, config)
}

} // verus!
