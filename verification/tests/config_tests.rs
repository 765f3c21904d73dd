use async_entry::attrs::{build_config, build_config_for, AttrArg};
use async_entry::config::{parse_bool, parse_int, parse_string, Configuration, FinalConfig, LitValue};
use async_entry::error::{ConfigOption, ErrorKind, ErrorSite, MacroError};
use async_entry::runtime::{get_runtime_name, AsyncRuntime, RuntimeFlavor};
use proc_macro2::Span;

fn sp() -> Span {
    Span::call_site()
}

fn s(text: &str) -> LitValue {
    LitValue::Str(text.to_string())
}

fn int_lit(digits: &str) -> LitValue {
    LitValue::Int(digits.to_string())
}

fn nv(name: &str, lit: LitValue) -> AttrArg {
    AttrArg::NameValue { ident: Some(name.to_string()), lit, lit_span: sp(), span: sp() }
}

fn path(name: &str) -> AttrArg {
    AttrArg::Path { ident: Some(name.to_string()), span: sp() }
}

fn config(args: Vec<AttrArg>) -> FinalConfig {
    build_config(args, true).unwrap()
}

fn error(args: Vec<AttrArg>, rt_multi_thread: bool) -> MacroError {
    build_config(args, rt_multi_thread).unwrap_err()
}

#[test]
fn flavor_names() {
    assert_eq!(RuntimeFlavor::from_str("current_thread"), Ok(RuntimeFlavor::CurrentThread));
    assert_eq!(RuntimeFlavor::from_str("multi_thread"), Ok(RuntimeFlavor::Threaded));
    assert_eq!(
        RuntimeFlavor::from_str("threaded"),
        Err("No such runtime flavor `threaded`. The runtime flavors are `current_thread` and `multi_thread`.".to_string())
    );
    assert!(RuntimeFlavor::from_str("Multi_Thread").is_err());
}

#[test]
fn runtime_name_is_tokio() {
    assert_eq!(get_runtime_name(), "tokio");
    assert_eq!(AsyncRuntime::Monoio.name(), "monoio");
}

#[test]
fn literals_as_integers() {
    assert_eq!(parse_int(int_lit("10"), sp(), ConfigOption::WorkerThreads).unwrap(), 10);
    assert_eq!(parse_int(int_lit("0"), sp(), ConfigOption::WorkerThreads).unwrap(), 0);
    let e = parse_int(s("10"), sp(), ConfigOption::WorkerThreads).unwrap_err();
    assert_eq!(e.message(), "Failed to parse value of `worker_threads` as integer.");
    let e = parse_int(int_lit("99999999999999999999999"), sp(), ConfigOption::WorkerThreads).unwrap_err();
    assert_eq!(
        e.message(),
        "Failed to parse value of `worker_threads` as integer: number too large to fit in target type"
    );
    let e = parse_int(int_lit(""), sp(), ConfigOption::WorkerThreads).unwrap_err();
    assert!(matches!(e.kind, ErrorKind::IntegerParse(ConfigOption::WorkerThreads, _)));
}

#[test]
fn literals_as_strings_and_bools() {
    assert_eq!(parse_string(s("g()"), sp(), ConfigOption::Init).unwrap(), "g()");
    assert_eq!(parse_string(LitValue::Verbatim("c\"x\"".to_string()), sp(), ConfigOption::Init).unwrap(), "c\"x\"");
    let e = parse_string(LitValue::Bool(true), sp(), ConfigOption::Init).unwrap_err();
    assert_eq!(e.message(), "Failed to parse value of `init` as string.");
    assert_eq!(parse_bool(LitValue::Bool(false), sp(), ConfigOption::StartPaused).unwrap(), false);
    let e = parse_bool(s("true"), sp(), ConfigOption::StartPaused).unwrap_err();
    assert_eq!(e.message(), "Failed to parse value of `start_paused` as bool.");
    assert!(parse_bool(LitValue::Other, sp(), ConfigOption::StartPaused).is_err());
}

#[test]
fn setters_refuse_a_second_value() {
    let mut c = Configuration::new(true, true);
    c.set_flavor(s("multi_thread"), sp()).unwrap();
    let e = c.set_flavor(s("current_thread"), sp()).unwrap_err();
    assert_eq!(e.message(), "`flavor` set multiple times.");
    assert_eq!(c.flavor(), Some(RuntimeFlavor::Threaded));

    c.set_init(s("a()"), sp()).unwrap();
    assert_eq!(c.set_init(s("b()"), sp()).unwrap_err().message(), "`init` set multiple times.");
    assert_eq!(c.init().as_ref().unwrap().0, "a()");

    c.set_tracing_span(s("info"), sp()).unwrap();
    assert!(c.set_tracing_span(s("debug"), sp()).is_err());
    c.set_tracing_lib(s("my_lib::"), sp()).unwrap();
    assert_eq!(
        c.set_tracing_lib(s("x"), sp()).unwrap_err().message(),
        "`tracing_lib` set multiple times."
    );
    c.set_start_paused(LitValue::Bool(true), sp()).unwrap();
    assert_eq!(
        c.set_start_paused(LitValue::Bool(true), sp()).unwrap_err().message(),
        "`start_paused` set multiple times."
    );
}

#[test]
fn worker_threads_choose_the_flavor() {
    let mut c = Configuration::new(true, true);
    c.set_worker_threads(int_lit("0"), sp()).unwrap();
    assert_eq!(c.flavor(), Some(RuntimeFlavor::CurrentThread));
    assert!(c.worker_threads().is_none());
    // a worker count of zero keeps no count, so another may follow
    c.set_worker_threads(int_lit("3"), sp()).unwrap();
    assert_eq!(c.flavor(), Some(RuntimeFlavor::Threaded));
    assert_eq!(c.worker_threads().unwrap().0, 3);
    assert_eq!(
        c.set_worker_threads(int_lit("4"), sp()).unwrap_err().message(),
        "`worker_threads` set multiple times."
    );
}

#[test]
fn invalid_flavor_is_reported() {
    let mut c = Configuration::new(true, true);
    let e = c.set_flavor(s("fast"), sp()).unwrap_err();
    assert_eq!(
        e.message(),
        "No such runtime flavor `fast`. The runtime flavors are `current_thread` and `multi_thread`."
    );
    assert!(c.flavor().is_none());
    assert_eq!(
        c.set_flavor(int_lit("1"), sp()).unwrap_err().message(),
        "Failed to parse value of `flavor` as string."
    );
}

#[test]
fn macro_names() {
    assert_eq!(Configuration::new(true, true).macro_name(), "tokio::test");
    assert_eq!(Configuration::new(false, true).macro_name(), "tokio::main");
    assert_eq!(Configuration::new_for(AsyncRuntime::Monoio, true, true).macro_name(), "monoio::test");
    assert_eq!(Configuration::new_for(AsyncRuntime::Monoio, false, true).macro_name(), "monoio::main");
}

#[test]
fn build_checks_options_together() {
    let f = Configuration::new(true, true).build().unwrap();
    assert_eq!(f.flavor, RuntimeFlavor::CurrentThread);
    let e = Configuration::new(false, false).build().unwrap_err();
    assert!(matches!(e.site, ErrorSite::CallSite));
    assert_eq!(
        e.message(),
        "The default runtime flavor is `multi_thread`, but the `rt-multi-thread` feature is disabled."
    );
    // a worker count always comes with the multi-thread flavor, so this
    // error is only reachable through its kind
    assert_eq!(
        ErrorKind::WorkerThreadsNeedMultiThread(AsyncRuntime::Tokio, true).message(),
        "The `worker_threads` option requires the `multi_thread` runtime flavor. Use `#[tokio::test(flavor = \"multi_thread\")]`"
    );
}

#[test]
fn default_is_current_thread() {
    let f = config(vec![]);
    assert_eq!(f.runtime, AsyncRuntime::Tokio);
    assert_eq!(f.flavor, RuntimeFlavor::CurrentThread);
    assert_eq!(f.worker_threads, None);
    assert_eq!(f.start_paused, None);
    assert!(f.init.is_none() && f.tracing_span.is_none() && f.tracing_lib.is_none());
}

#[test]
fn multi_thread_needs_the_feature() {
    let e = error(vec![nv("flavor", s("multi_thread"))], false);
    assert_eq!(e.message(), "The runtime flavor `multi_thread` requires the `rt-multi-thread` feature.");
    let e = error(vec![nv("worker_threads", int_lit("2"))], false);
    assert!(matches!(e.kind, ErrorKind::MultiThreadUnavailable(false)));
}

#[test]
fn start_paused_needs_current_thread() {
    let e = error(vec![nv("flavor", s("multi_thread")), nv("start_paused", LitValue::Bool(true))], true);
    assert_eq!(
        e.message(),
        "The `start_paused` option requires the `current_thread` runtime flavor. Use `#[tokio::test(flavor = \"current_thread\")]`"
    );
    let f = config(vec![nv("start_paused", LitValue::Bool(false))]);
    assert_eq!(f.start_paused, Some(false));
}

#[test]
fn worker_threads_then_flavor_is_a_second_flavor() {
    let e = error(vec![nv("worker_threads", int_lit("2")), nv("flavor", s("multi_thread"))], true);
    assert_eq!(e.message(), "`flavor` set multiple times.");
    let f = config(vec![nv("flavor", s("current_thread")), nv("worker_threads", int_lit("2"))]);
    assert_eq!(f.flavor, RuntimeFlavor::Threaded);
    assert_eq!(f.worker_threads, Some(2));
}

#[test]
fn unknown_and_bare_names() {
    let e = error(vec![nv("threads", int_lit("2"))], true);
    assert_eq!(
        e.message(),
        "Unknown attribute threads is specified; expected one of: `flavor`, `worker_threads`, `start_paused`, `init`, `tracing_span`"
    );
    let e = error(vec![path("Multi_Thread")], true);
    assert_eq!(e.message(), "Set the runtime flavor with #[tokio::test(flavor = \"multi_thread\")].");
    let e = error(vec![path("threaded_scheduler")], true);
    assert_eq!(e.message(), "Set the runtime flavor with #[tokio::test(flavor = \"multi_thread\")].");
    for n in ["basic_scheduler", "current_thread", "single_threaded"] {
        let e = error(vec![path(n)], true);
        assert_eq!(e.message(), "Set the runtime flavor with #[tokio::test(flavor = \"current_thread\")].");
    }
    for n in ["flavor", "worker_threads", "start_paused"] {
        let e = error(vec![path(n)], true);
        assert_eq!(e.message(), format!("The `{}` attribute requires an argument.", n));
    }
    assert_eq!(
        error(vec![path("init")], true).message(),
        "The `init` attribute requires an argument in string of the initializing statement to run."
    );
    assert_eq!(
        error(vec![path("tracing_span")], true).message(),
        "The `tracing_span` attribute requires an argument of level of the span, e.g. `debug` or `info`."
    );
    assert_eq!(
        error(vec![path("tracing_lib")], true).message(),
        "The `tracing_lib` attribute requires an argument of level of the span, e.g. \"my_lib::\" or \"::\" or \"\"."
    );
    assert_eq!(
        error(vec![path("quick")], true).message(),
        "Unknown attribute quick is specified; expected one of: `flavor`, `worker_threads`, `start_paused`, `init`, `tracing_span`, `tracing_lib`"
    );
    let e = error(vec![AttrArg::Path { ident: None, span: sp() }], true);
    assert_eq!(e.message(), "Must have specified ident");
    let e = error(vec![AttrArg::NameValue { ident: None, lit: s("x"), lit_span: sp(), span: sp() }], true);
    assert!(matches!(e.kind, ErrorKind::MissingIdent));
    let e = error(vec![AttrArg::Other { span: sp() }], true);
    assert_eq!(e.message(), "Unknown attribute inside the macro");
}

#[test]
fn monoio_hints_name_monoio() {
    let e = build_config_for(AsyncRuntime::Monoio, vec![path("multi_thread")], true).unwrap_err();
    assert_eq!(e.message(), "Set the runtime flavor with #[monoio::test(flavor = \"multi_thread\")].");
}

#[test]
fn names_ignore_case() {
    let f = config(vec![nv("FLAVOR", s("multi_thread")), nv("Worker_Threads", int_lit("4"))]);
    assert_eq!(f.flavor, RuntimeFlavor::Threaded);
    assert_eq!(f.worker_threads, Some(4));
}

#[test]
fn first_error_wins() {
    let e = error(vec![nv("bogus", int_lit("1")), nv("flavor", s("fast"))], true);
    assert!(matches!(e.kind, ErrorKind::UnknownNamedAttribute(ref n) if n == "bogus"));
    let e = error(vec![nv("flavor", s("fast")), nv("bogus", int_lit("1"))], true);
    assert!(matches!(e.kind, ErrorKind::InvalidFlavor(ref n) if n == "fast"));
}

#[test]
fn accepted_configs_are_consistent() {
    for args in [
        vec![nv("worker_threads", int_lit("0"))],
        vec![nv("worker_threads", int_lit("7"))],
        vec![nv("flavor", s("multi_thread"))],
        vec![nv("start_paused", LitValue::Bool(true))],
    ] {
        let f = config(args);
        if let Some(n) = f.worker_threads {
            assert!(n > 0);
            assert_eq!(f.flavor, RuntimeFlavor::Threaded);
        }
        if f.start_paused.is_some() {
            assert_eq!(f.flavor, RuntimeFlavor::CurrentThread);
        }
    }
    let f = config(vec![nv("worker_threads", int_lit("0"))]);
    assert_eq!(f.flavor, RuntimeFlavor::CurrentThread);
    assert_eq!(f.worker_threads, None);
}
