//! The code the attribute generates around an `async` test function.

use proc_macro2::{Span, TokenStream};
use vstd::prelude::*;
use vstd::string::*;

use crate::config::{FinalConfig, FinalState};
use crate::error::{ErrorKind, ErrorSite, MacroError};
use crate::outside::{all_digits, digits_value, lex_tokens};
use crate::runtime::{AsyncRuntime, RuntimeFlavor};

verus! {

/// Lexes Rust source text into tokens; an error is reported at `span`,
/// with the lexer's message.
pub fn str_to_p2tokens(s: &str, span: Span) -> (r: Result<TokenStream, MacroError>)
    ensures
        r matches Err(e) ==> e.site == ErrorSite::At(span) && e.kind is Lex,
{
    match lex_tokens(s) {
        Ok(toks) => Ok(toks),
        Err(e) => Err(MacroError::at(span, ErrorKind::Lex(e.to_string()))),
    }
}


/// The text of a decimal digit.
pub open spec fn digit_text(d: nat) -> Seq<char> {
    if d == 0 {
        "0"@
    } else if d == 1 {
        "1"@
    } else if d == 2 {
        "2"@
    } else if d == 3 {
        "3"@
    } else if d == 4 {
        "4"@
    } else if d == 5 {
        "5"@
    } else if d == 6 {
        "6"@
    } else if d == 7 {
        "7"@
    } else if d == 8 {
        "8"@
    } else {
        "9"@
    }
}

/// The decimal text of a number, without leading zeros.
pub open spec fn decimal_text(n: nat) -> Seq<char>
    decreases n,
{
    if n < 10 {
        digit_text(n)
    } else {
        decimal_text(n / 10) + digit_text(n % 10)
    }
}

fn digit_str(d: usize) -> (s: &'static str)
    requires
        d < 10,
    ensures
        s@ == digit_text(d as nat),
{
    if d == 0 {
        "0"
    } else if d == 1 {
        "1"
    } else if d == 2 {
        "2"
    } else if d == 3 {
        "3"
    } else if d == 4 {
        "4"
    } else if d == 5 {
        "5"
    } else if d == 6 {
        "6"
    } else if d == 7 {
        "7"
    } else if d == 8 {
        "8"
    } else {
        "9"
    }
}

/// The decimal text of a number.
pub fn usize_text(n: usize) -> (s: String)
    ensures
        s@ == decimal_text(n as nat),
        all_digits(s@),
        digits_value(s@) == n,
    decreases n,
{
    proof {
        crate::laws::law_decimal_text_denotes_its_number(n as nat);
    }
    if n < 10 {
        String::from_str(digit_str(n))
    } else {
        usize_text(n / 10).concat(digit_str(n % 10))
    }
}

/// The text of a boolean literal.
pub open spec fn bool_text(b: bool) -> Seq<char> {
    if b {
        "true"@
    } else {
        "false"@
    }
}

/// The path that starts building the runtime: tokio's builder type, or the
/// whole call that makes monoio's builder.
pub open spec fn builder_prefix(f: FinalState) -> Seq<char> {
    match f.runtime {
        AsyncRuntime::Tokio => "tokio::runtime::Builder"@,
        AsyncRuntime::Monoio => "monoio::RuntimeBuilder::<monoio::FusionDriver>::new()"@,
    }
}

/// The call that picks tokio's scheduler flavor; monoio has none.
pub open spec fn builder_ctor(f: FinalState) -> Seq<char> {
    match f.runtime {
        AsyncRuntime::Tokio => match f.flavor {
            RuntimeFlavor::CurrentThread => "::new_current_thread()"@,
            RuntimeFlavor::Threaded => "::new_multi_thread()"@,
        },
        AsyncRuntime::Monoio => Seq::<char>::empty(),
    }
}

/// The runtime options set on a tokio builder: the worker count and whether
/// time starts paused. A monoio builder takes none of them.
pub open spec fn builder_options(f: FinalState) -> Seq<char> {
    match f.runtime {
        AsyncRuntime::Tokio => {
            let workers = match f.worker_threads {
                Some(n) => ".worker_threads("@ + decimal_text(n as nat) + "usize)"@,
                None => Seq::<char>::empty(),
            };
            let paused = match f.start_paused {
                Some(b) => ".start_paused("@ + bool_text(b) + ")"@,
                None => Seq::<char>::empty(),
            };
            workers + paused
        },
        AsyncRuntime::Monoio => Seq::<char>::empty(),
    }
}

/// What follows the builder's options: building the runtime.
pub open spec fn builder_finish() -> Seq<char> {
    ".enable_all().build().expect(\"Failed building the Runtime\")"@
}

/// The expression that builds the runtime a test runs on.
pub open spec fn runtime_source(f: FinalState) -> Seq<char> {
    builder_prefix(f) + builder_ctor(f) + builder_options(f) + builder_finish()
}

fn builder_prefix_source(config: &FinalConfig) -> (s: String)
    ensures
        s@ == builder_prefix(config@),
{
    match config.runtime {
        AsyncRuntime::Tokio => String::from_str("tokio::runtime::Builder"),
        AsyncRuntime::Monoio => String::from_str("monoio::RuntimeBuilder::<monoio::FusionDriver>::new()"),
    }
}

fn builder_ctor_source(config: &FinalConfig) -> (s: String)
    ensures
        s@ == builder_ctor(config@),
{
    match config.runtime {
        AsyncRuntime::Tokio => match config.flavor {
            RuntimeFlavor::CurrentThread => String::from_str("::new_current_thread()"),
            RuntimeFlavor::Threaded => String::from_str("::new_multi_thread()"),
        },
        AsyncRuntime::Monoio => String::new(),
    }
}

fn builder_rest_source(config: &FinalConfig) -> (s: String)
    ensures
        s@ == builder_options(config@) + builder_finish(),
{
    let mut s = String::new();
    if config.runtime == AsyncRuntime::Tokio {
        if let Some(n) = config.worker_threads {
            let digits = usize_text(n);
            s = s.concat(".worker_threads(").concat(digits.as_str()).concat("usize)");
        }
        if let Some(b) = config.start_paused {
            s = s.concat(".start_paused(").concat(if b { "true" } else { "false" }).concat(")");
        }
        assert(s@ =~= builder_options(config@));
    } else {
        assert(s@ =~= builder_options(config@));
    }
    s.concat(".enable_all().build().expect(\"Failed building the Runtime\")")
}

/// The source of the expression that builds the runtime for a configuration.
pub fn runtime_builder_source(config: &FinalConfig) -> (s: String)
    ensures
        s@ == runtime_source(config@),
{
    let prefix = builder_prefix_source(config);
    let ctor = builder_ctor_source(config);
    let rest = builder_rest_source(config);
    let s = prefix.concat(ctor.as_str()).concat(rest.as_str());
    assert(s@ =~= runtime_source(config@));
    s
}

/// Where the tokens of a piece of generated code take their spans from.
#[derive(Clone, Copy, Debug, PartialEq, Eq, Structural)]
pub enum PieceSpan {
    /// The place where the attribute is invoked.
    CallSite,
    /// The first token of the function body's last statement.
    LastStmtStart,
    /// The last token of the function body's last statement.
    LastStmtEnd,
}

/// A piece of the generated code.
#[derive(Debug)]
pub enum BlockPiece {
    /// Tokens lexed from `text`, to carry the spans `span` names.
    Code { text: String, tokens: TokenStream, span: PieceSpan },
    /// The function's original body, as written.
    OriginalBody,
}

/// The mathematical value of a [`BlockPiece`]: its text and spans; the
/// tokens are opaque.
pub enum PieceView {
    Code { text: Seq<char>, span: PieceSpan },
    OriginalBody,
}

impl View for BlockPiece {
    type V = PieceView;

    open spec fn view(&self) -> PieceView {
        match self {
            BlockPiece::Code { text, span, .. } => PieceView::Code { text: text@, span: *span },
            BlockPiece::OriginalBody => PieceView::OriginalBody,
        }
    }
}

/// The pieces as mathematical values.
pub open spec fn pieces_view(s: Seq<BlockPiece>) -> Seq<PieceView> {
    s.map_values(|p: BlockPiece| p@)
}

/// A piece of code with its spans.
pub open spec fn code(text: Seq<char>, span: PieceSpan) -> PieceView {
    PieceView::Code { text, span }
}

/// Lexes a text into a piece of code; an error is reported at `err_span`.
pub fn code_piece(text: String, span: PieceSpan, err_span: Span) -> (r: Result<BlockPiece, MacroError>)
    ensures
        r matches Ok(p) ==> p@ == code(text@, span),
        r matches Err(e) ==> e.site == ErrorSite::At(err_span) && e.kind is Lex,
{
    match str_to_p2tokens(text.as_str(), err_span) {
        Ok(tokens) => Ok(BlockPiece::Code { text, tokens, span }),
        Err(e) => Err(e),
    }
}

/// The pieces of the expression that builds the runtime: the builder's
/// path at the call site, tokio's flavor call at the start of the last
/// statement, and the options and the final `build` at the call site.
pub open spec fn runtime_layout(f: FinalState) -> Seq<PieceView> {
    match f.runtime {
        AsyncRuntime::Tokio => seq![
            code(builder_prefix(f), PieceSpan::CallSite),
            code(builder_ctor(f), PieceSpan::LastStmtStart),
            code(builder_options(f) + builder_finish(), PieceSpan::CallSite),
        ],
        AsyncRuntime::Monoio => seq![
            code(builder_prefix(f), PieceSpan::CallSite),
            code(builder_options(f) + builder_finish(), PieceSpan::CallSite),
        ],
    }
}

/// The text of a piece of code; the original body has none of its own here.
pub open spec fn piece_text(p: PieceView) -> Seq<char> {
    match p {
        PieceView::Code { text, .. } => text,
        PieceView::OriginalBody => Seq::<char>::empty(),
    }
}

/// The texts of pieces, one after another.
pub open spec fn joined_text(s: Seq<PieceView>) -> Seq<char>
    decreases s.len(),
{
    if s.len() == 0 {
        Seq::<char>::empty()
    } else {
        joined_text(s.drop_last()) + piece_text(s.last())
    }
}

/// Builds the pieces of the expression that builds the runtime, lexing each
/// text; an error is reported at `span`.
pub fn build_runtime(span: Span, config: &FinalConfig) -> (r: Result<Vec<BlockPiece>, MacroError>)
    ensures
        r matches Ok(v) ==> pieces_view(v@) == runtime_layout(config@),
        r matches Err(e) ==> e.site == ErrorSite::At(span) && e.kind is Lex,
{
    let mut v: Vec<BlockPiece> = Vec::new();
    let prefix = match code_piece(builder_prefix_source(config), PieceSpan::CallSite, span) {
        Ok(p) => p,
        Err(e) => return Err(e),
    };
    v.push(prefix);
    if config.runtime == AsyncRuntime::Tokio {
        let ctor = match code_piece(builder_ctor_source(config), PieceSpan::LastStmtStart, span) {
            Ok(p) => p,
            Err(e) => return Err(e),
        };
        v.push(ctor);
    }
    let rest = match code_piece(builder_rest_source(config), PieceSpan::CallSite, span) {
        Ok(p) => p,
        Err(e) => return Err(e),
    };
    v.push(rest);
    assert(pieces_view(v@) =~= runtime_layout(config@));
    Ok(v)
}

} // verus!
