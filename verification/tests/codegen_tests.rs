use async_entry::attrs::{build_config, build_config_for, AttrArg};
use async_entry::codegen::{
    build_runtime, code_piece, runtime_builder_source, str_to_p2tokens, usize_text, BlockPiece, PieceSpan,
};
use async_entry::config::{FinalConfig, LitValue};
use async_entry::error::{ErrorKind, ErrorSite, MacroError};
use async_entry::item::{
    build_test_fn, check_dup_test_attr, check_item_fn, entry_test, init_statement_text, tail_kind,
    tracing_path_text, tracing_statements, FnAttr, ItemFnShape, LastStmt, ReturnKind, TestFnParts,
};
use async_entry::runtime::{AsyncRuntime, RuntimeFlavor};
use proc_macro2::{Span, TokenStream};
use std::str::FromStr;

fn sp() -> Span {
    Span::call_site()
}

fn s(text: &str) -> LitValue {
    LitValue::Str(text.to_string())
}

fn nv(name: &str, lit: LitValue) -> AttrArg {
    AttrArg::NameValue { ident: Some(name.to_string()), lit, lit_span: sp(), span: sp() }
}

fn config(args: Vec<AttrArg>) -> FinalConfig {
    build_config(args, true).unwrap()
}

fn shape(name: &str, last_stmt: LastStmt, output: ReturnKind) -> ItemFnShape {
    ItemFnShape {
        name: name.to_string(),
        is_async: true,
        fn_token_span: sp(),
        attrs: vec![],
        last_stmt,
        last_stmt_start: sp(),
        output,
    }
}

fn same_tokens(t: &TokenStream, text: &str) -> bool {
    t.to_string() == TokenStream::from_str(text).unwrap().to_string()
}

/// The pieces as (text, span) pairs; the original body shows as `<body>`.
fn layout(pieces: &[BlockPiece]) -> Vec<(String, PieceSpan)> {
    pieces
        .iter()
        .map(|p| match p {
            BlockPiece::Code { text, tokens, span } => {
                assert!(same_tokens(tokens, text));
                (text.clone(), *span)
            }
            BlockPiece::OriginalBody => ("<body>".to_string(), PieceSpan::LastStmtEnd),
        })
        .collect()
}

fn texts(parts: &TestFnParts) -> Vec<String> {
    layout(&parts.block).into_iter().map(|(t, _)| t).collect()
}

fn owned(v: &[&str]) -> Vec<String> {
    v.iter().map(|s| s.to_string()).collect()
}

const CURRENT: &str = "tokio::runtime::Builder";
const START_CT: &str = "::new_current_thread()";

const TAIL: &str = ".enable_all().build().expect(\"Failed building the Runtime\")";

#[test]
fn decimal_text() {
    assert_eq!(usize_text(0), "0");
    assert_eq!(usize_text(7), "7");
    assert_eq!(usize_text(10), "10");
    assert_eq!(usize_text(1234567890), "1234567890");
    assert_eq!(usize_text(usize::MAX), usize::MAX.to_string());
}

#[test]
fn runtime_sources() {
    assert_eq!(
        runtime_builder_source(&config(vec![])),
        format!("tokio::runtime::Builder::new_current_thread(){}", TAIL)
    );
    assert_eq!(
        runtime_builder_source(&config(vec![nv("worker_threads", LitValue::Int("10".into()))])),
        format!("tokio::runtime::Builder::new_multi_thread().worker_threads(10usize){}", TAIL)
    );
    assert_eq!(
        runtime_builder_source(&config(vec![nv("start_paused", LitValue::Bool(true))])),
        format!("tokio::runtime::Builder::new_current_thread().start_paused(true){}", TAIL)
    );
    let monoio = build_config_for(AsyncRuntime::Monoio, vec![nv("flavor", s("multi_thread"))], true).unwrap();
    assert_eq!(monoio.flavor, RuntimeFlavor::CurrentThread);
    assert_eq!(
        runtime_builder_source(&monoio),
        format!("monoio::RuntimeBuilder::<monoio::FusionDriver>::new(){}", TAIL)
    );
}

#[test]
fn monoio_ignores_tokio_options() {
    let a = build_config_for(AsyncRuntime::Monoio, vec![], true).unwrap();
    let b = build_config_for(
        AsyncRuntime::Monoio,
        vec![
            nv("worker_threads", LitValue::Int("3".into())),
            nv("flavor", s("multi_thread")),
            nv("flavor", s("no_such_flavor")),
            nv("start_paused", s("not a bool")),
        ],
        false,
    )
    .unwrap();
    assert_eq!(b.flavor, RuntimeFlavor::CurrentThread);
    assert_eq!(b.worker_threads, None);
    assert_eq!(b.start_paused, None);
    assert_eq!(runtime_builder_source(&a), runtime_builder_source(&b));
    // options that do not only concern tokio are still read and checked
    let e = build_config_for(AsyncRuntime::Monoio, vec![nv("init", s("a()")), nv("init", s("b()"))], true)
        .unwrap_err();
    assert_eq!(e.message(), "`init` set multiple times.");
}

#[test]
fn tracing_paths() {
    assert_eq!(tracing_path_text(""), "tracing");
    assert_eq!(tracing_path_text("lib_crate"), "lib_crate::tracing");
    assert_eq!(tracing_path_text("my_lib::"), "my_lib::tracing");
    assert_eq!(tracing_path_text("::"), "::tracing");
    assert_eq!(tracing_path_text(":"), ":::tracing");
    assert_eq!(tracing_path_text("my_lib:: "), "my_lib:: tracing");
    assert_eq!(tracing_path_text("my_lib\t"), "my_lib\t::tracing");
    assert_eq!(tracing_path_text("  "), "  tracing");
    assert_eq!(init_statement_text("g()"), "let _g = g();");
    assert_eq!(
        tracing_statements("", "debug", "t"),
        "\n            use tracing::Instrument;\n            let body_span = tracing::debug_span!(\"t\");\n            let body = body.instrument(body_span);\n        "
    );
}

#[test]
fn lexing() {
    let t = str_to_p2tokens("let _g = g();", sp()).unwrap();
    assert!(same_tokens(&t, "let _g = g ( ) ;"));
    let e = str_to_p2tokens("let x = (;", sp()).unwrap_err();
    assert!(matches!(e.kind, ErrorKind::Lex(_)));
    assert!(matches!(e.site, ErrorSite::At(_)));
    let p = code_piece("a + b".to_string(), PieceSpan::LastStmtEnd, sp()).unwrap();
    assert!(matches!(p, BlockPiece::Code { ref text, span: PieceSpan::LastStmtEnd, .. } if text == "a + b"));
}

#[test]
fn runtime_pieces() {
    let rt = build_runtime(sp(), &config(vec![])).unwrap();
    assert_eq!(
        layout(&rt),
        vec![
            (CURRENT.to_string(), PieceSpan::CallSite),
            (START_CT.to_string(), PieceSpan::LastStmtStart),
            (TAIL.to_string(), PieceSpan::CallSite),
        ]
    );
    let c = config(vec![nv("worker_threads", LitValue::Int("2".into()))]);
    let rt = build_runtime(sp(), &c).unwrap();
    assert_eq!(layout(&rt)[1].0, "::new_multi_thread()");
    assert_eq!(layout(&rt)[2].0, format!(".worker_threads(2usize){}", TAIL));
    let monoio = build_config_for(AsyncRuntime::Monoio, vec![], true).unwrap();
    let rt = build_runtime(sp(), &monoio).unwrap();
    assert_eq!(
        layout(&rt),
        vec![
            ("monoio::RuntimeBuilder::<monoio::FusionDriver>::new()".to_string(), PieceSpan::CallSite),
            (TAIL.to_string(), PieceSpan::CallSite),
        ]
    );
}

#[test]
fn tails() {
    assert_eq!(tail_kind(LastStmt::ReturnSemi, ReturnKind::Other), (true, true));
    assert_eq!(tail_kind(LastStmt::Semi, ReturnKind::Default), (false, true));
    assert_eq!(tail_kind(LastStmt::Local, ReturnKind::Tuple(0)), (false, true));
    assert_eq!(tail_kind(LastStmt::Missing, ReturnKind::Default), (false, true));
    assert_eq!(tail_kind(LastStmt::Semi, ReturnKind::Tuple(2)), (false, false));
    assert_eq!(tail_kind(LastStmt::Semi, ReturnKind::Other), (false, false));
    assert_eq!(tail_kind(LastStmt::Other, ReturnKind::Default), (false, false));
}

#[test]
fn item_checks() {
    let mut f = shape("t", LastStmt::Missing, ReturnKind::Default);
    assert!(check_item_fn(&f).is_ok());
    f.attrs = vec![FnAttr { is_test: false, span: sp() }, FnAttr { is_test: true, span: sp() }];
    let e = check_item_fn(&f).unwrap_err();
    assert_eq!(e.message(), "dup test");
    assert!(check_dup_test_attr(&f).is_err());
    f.is_async = false;
    let e = check_item_fn(&f).unwrap_err();
    assert_eq!(e.message(), "the `async` keyword is missing from the function declaration");
}

fn plain_block(init: Option<&str>, tracing: Option<&str>, tail: &str) -> Vec<String> {
    let mut v = vec![];
    if let Some(i) = init {
        v.push(i.to_string());
    }
    v.extend(owned(&["let body = async", "<body>", ";"]));
    if let Some(t) = tracing {
        v.push(t.to_string());
    }
    v.extend(owned(&["#[allow(unused_mut)] let mut rt =", CURRENT, START_CT, TAIL, ";", tail]));
    v
}

#[test]
fn empty() {
    let parts = build_test_fn(&shape("empty", LastStmt::Missing, ReturnKind::Default), config(vec![])).unwrap();
    assert!(matches!(parts.test_attr, BlockPiece::Code { ref text, .. } if text == "#[::core::prelude::v1::test]"));
    assert_eq!(texts(&parts), plain_block(None, None, "#[allow(clippy::expect_used)] rt.block_on(body) ;"));
    let spans: Vec<PieceSpan> = layout(&parts.block).into_iter().map(|(_, s)| s).collect();
    assert_eq!(
        spans,
        vec![
            PieceSpan::LastStmtEnd,
            PieceSpan::LastStmtEnd,
            PieceSpan::LastStmtEnd,
            PieceSpan::LastStmtEnd,
            PieceSpan::CallSite,
            PieceSpan::LastStmtStart,
            PieceSpan::CallSite,
            PieceSpan::LastStmtEnd,
            PieceSpan::LastStmtEnd,
        ]
    );
}

#[test]
fn empty_with_parentheses() {
    let parts = build_test_fn(
        &shape("empty_with_parentheses", LastStmt::Missing, ReturnKind::Default),
        config(vec![]),
    )
    .unwrap();
    assert_eq!(texts(&parts), plain_block(None, None, "#[allow(clippy::expect_used)] rt.block_on(body) ;"));
}

#[test]
fn empty_tail_expr() {
    let parts = build_test_fn(&shape("empty_tail_expr", LastStmt::Other, ReturnKind::Other), config(vec![])).unwrap();
    assert_eq!(texts(&parts), plain_block(None, None, "#[allow(clippy::expect_used)] rt.block_on(body)"));
}

#[test]
fn empty_return_expr() {
    let parts =
        build_test_fn(&shape("empty_return_expr", LastStmt::ReturnSemi, ReturnKind::Other), config(vec![])).unwrap();
    assert_eq!(
        texts(&parts),
        plain_block(None, None, "#[allow(clippy::expect_used)] return rt.block_on(body) ;")
    );
}

#[test]
fn empty_trace_span() {
    let parts = build_test_fn(
        &shape("empty_trace_span", LastStmt::Missing, ReturnKind::Default),
        config(vec![nv("tracing_span", s("info"))]),
    )
    .unwrap();
    let tracing = tracing_statements("", "info", "empty_trace_span");
    assert!(same_tokens(
        &TokenStream::from_str(&tracing).unwrap(),
        "use tracing::Instrument; let body_span = tracing::info_span!(\"empty_trace_span\"); let body = body.instrument(body_span);"
    ));
    assert_eq!(
        texts(&parts),
        plain_block(None, Some(&tracing), "#[allow(clippy::expect_used)] rt.block_on(body) ;")
    );
}

#[test]
fn specify_trace_lib() {
    let parts = build_test_fn(
        &shape("specify_trace_lib", LastStmt::Missing, ReturnKind::Default),
        config(vec![nv("tracing_span", s("info")), nv("tracing_lib", s("lib_crate"))]),
    )
    .unwrap();
    let text = texts(&parts)[3].clone();
    assert!(same_tokens(
        &TokenStream::from_str(&text).unwrap(),
        "use lib_crate::tracing::Instrument; let body_span = lib_crate::tracing::info_span!(\"specify_trace_lib\"); let body = body.instrument(body_span);"
    ));
    // the statements parse as Rust inside the generated block
    let block = format!("{{ let body = async {{}}; {} }}", text);
    assert!(syn::parse_str::<syn::Block>(&block).is_ok());
}

#[test]
fn with_init() {
    let parts =
        build_test_fn(&shape("with_init", LastStmt::Missing, ReturnKind::Default), config(vec![nv("init", s("g()"))]))
            .unwrap();
    assert_eq!(
        texts(&parts),
        plain_block(Some("let _g = g();"), None, "#[allow(clippy::expect_used)] rt.block_on(body) ;")
    );
}

#[test]
fn init_that_does_not_lex() {
    let e = build_test_fn(
        &shape("bad_init", LastStmt::Missing, ReturnKind::Default),
        config(vec![nv("init", s("g("))]),
    )
    .unwrap_err();
    assert!(matches!(e.kind, ErrorKind::Lex(_)));
}

#[test]
fn the_whole_block_parses() {
    let parts = build_test_fn(
        &shape("t", LastStmt::Missing, ReturnKind::Default),
        config(vec![nv("init", s("g()")), nv("tracing_span", s("debug")), nv("tracing_lib", s("my_lib::"))]),
    )
    .unwrap();
    let mut text = String::from("{");
    for t in texts(&parts) {
        text.push(' ');
        text.push_str(if t == "<body>" { "{}" } else { &t });
    }
    text.push_str(" }");
    assert!(syn::parse_str::<syn::Block>(&text).is_ok());
}

#[test]
fn entry_checks_in_order() {
    let bad_args: Result<Vec<AttrArg>, MacroError> =
        Err(MacroError::at(sp(), ErrorKind::Parse("expected `,`".to_string())));
    let mut f = shape("t", LastStmt::Missing, ReturnKind::Default);
    f.is_async = false;
    let e = entry_test(&f, Err(MacroError::at(sp(), ErrorKind::Parse("x".into()))), AsyncRuntime::Tokio).unwrap_err();
    assert!(matches!(e.kind, ErrorKind::MissingAsync));
    f.is_async = true;
    let e = entry_test(&f, bad_args, AsyncRuntime::Tokio).unwrap_err();
    assert_eq!(e.message(), "expected `,`");
    let e = entry_test(&f, Ok(vec![nv("flavor", s("fast"))]), AsyncRuntime::Tokio).unwrap_err();
    assert!(matches!(e.kind, ErrorKind::InvalidFlavor(_)));
    let parts = entry_test(&f, Ok(vec![nv("init", s("g()"))]), AsyncRuntime::Tokio).unwrap();
    assert_eq!(texts(&parts)[0], "let _g = g();");
    let parts = entry_test(&f, Ok(vec![nv("flavor", s("fast"))]), AsyncRuntime::Monoio).unwrap();
    assert_eq!(texts(&parts)[4], "monoio::RuntimeBuilder::<monoio::FusionDriver>::new()");
}

#[test]
fn current_thread() {
    let c = config(vec![nv("flavor", s("current_thread"))]);
    assert_eq!(
        runtime_builder_source(&c),
        format!("tokio::runtime::Builder::new_current_thread(){}", TAIL)
    );
}

#[test]
fn multi_thread() {
    let c = config(vec![nv("flavor", s("multi_thread"))]);
    assert_eq!(c.worker_threads, None);
    assert_eq!(
        runtime_builder_source(&c),
        format!("tokio::runtime::Builder::new_multi_thread(){}", TAIL)
    );
}

#[test]
fn multi_thread_n() {
    let c = config(vec![nv("flavor", s("multi_thread")), nv("worker_threads", LitValue::Int("10".into()))]);
    assert_eq!(
        runtime_builder_source(&c),
        format!("tokio::runtime::Builder::new_multi_thread().worker_threads(10usize){}", TAIL)
    );
}

#[test]
fn start_paused() {
    let c = config(vec![nv("start_paused", LitValue::Bool(true))]);
    assert_eq!(
        runtime_builder_source(&c),
        format!("tokio::runtime::Builder::new_current_thread().start_paused(true){}", TAIL)
    );
}
