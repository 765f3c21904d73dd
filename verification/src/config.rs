//! The attribute's options: reading literal values, setting options one by
//! one, and checking the finished configuration.

use proc_macro2::Span;
use vstd::prelude::*;
use vstd::string::*;

use crate::error::{
    error_at, macro_name_of, macro_name_text, ConfigOption, ErrorKind, ErrorKindView, ErrorSite,
    MacroError, MacroErrorView,
};
use crate::outside::{all_digits, digits_value, parse_usize, usize_parse};
use crate::runtime::{flavor_named, get_runtime, selected_runtime, AsyncRuntime, RuntimeFlavor};

verus! {

/// A literal written as an option's value.
#[derive(Debug)]
pub enum LitValue {
    /// A string literal; its value (escapes resolved).
    Str(String),
    /// A literal that the parser keeps as written; its text.
    Verbatim(String),
    /// An integer literal; its decimal digits, without suffix.
    Int(String),
    /// A boolean literal.
    Bool(bool),
    /// Any other literal (byte string, byte, character, float).
    Other,
}

/// The mathematical value of a [`LitValue`].
pub enum LitView {
    Str(Seq<char>),
    Verbatim(Seq<char>),
    Int(Seq<char>),
    Bool(bool),
    Other,
}

impl View for LitValue {
    type V = LitView;

    open spec fn view(&self) -> LitView {
        match self {
            LitValue::Str(s) => LitView::Str(s@),
            LitValue::Verbatim(s) => LitView::Verbatim(s@),
            LitValue::Int(s) => LitView::Int(s@),
            LitValue::Bool(b) => LitView::Bool(*b),
            LitValue::Other => LitView::Other,
        }
    }
}

/// Whether an exec result matches a mathematical outcome: the same value on
/// success, the same error on failure.
pub open spec fn matches_outcome<T: View>(
    r: Result<T, MacroError>,
    o: Result<T::V, MacroErrorView>,
) -> bool {
    match o {
        Ok(v) => r matches Ok(x) && x@ == v,
        Err(e) => r matches Err(x) && x@ == e,
    }
}

/// The text of a string-like literal.
pub open spec fn string_of(lit: LitView) -> Option<Seq<char>> {
    match lit {
        LitView::Str(s) => Some(s),
        LitView::Verbatim(s) => Some(s),
        _ => None,
    }
}

/// What reading a literal as a string gives.
pub open spec fn string_value(lit: LitView, span: Span, field: ConfigOption) -> Result<
    Seq<char>,
    MacroErrorView,
> {
    match string_of(lit) {
        Some(s) => Ok(s),
        None => Err(error_at(span, ErrorKindView::NotAString(field))),
    }
}

/// What parsing a text as a `usize` gives, as `str::parse::<usize>` does:
/// a non-empty text of decimal digits gives its value when that fits in a
/// `usize`; any other outcome is the parser's.
pub open spec fn usize_value(d: Seq<char>) -> Result<usize, Seq<char>> {
    if all_digits(d) && d.len() > 0 && digits_value(d) <= usize::MAX {
        Ok(digits_value(d) as usize)
    } else {
        usize_parse(d)
    }
}

/// What reading a literal as an integer gives.
pub open spec fn int_value(lit: LitView, span: Span, field: ConfigOption) -> Result<
    usize,
    MacroErrorView,
> {
    match lit {
        LitView::Int(d) => match usize_value(d) {
            Ok(v) => Ok(v),
            Err(m) => Err(error_at(span, ErrorKindView::IntegerParse(field, m))),
        },
        _ => Err(error_at(span, ErrorKindView::NotAnInteger(field))),
    }
}

/// What reading a literal as a boolean gives.
pub open spec fn bool_value(lit: LitView, span: Span, field: ConfigOption) -> Result<
    bool,
    MacroErrorView,
> {
    match lit {
        LitView::Bool(b) => Ok(b),
        _ => Err(error_at(span, ErrorKindView::NotABool(field))),
    }
}

/// Reads a literal as an integer: only an integer literal whose digits parse
/// as a `usize` is accepted.
pub fn parse_int(lit: LitValue, span: Span, field: ConfigOption) -> (r: Result<usize, MacroError>)
    ensures
        match int_value(lit@, span, field) {
            Ok(v) => r == Ok::<usize, MacroError>(v),
            Err(e) => r matches Err(x) && x@ == e,
        },
        lit@ matches LitView::Int(d) ==> (all_digits(d) && d.len() > 0 ==> (r is Ok
            <==> digits_value(d) <= usize::MAX)),
        lit@ matches LitView::Int(d) ==> (all_digits(d) && d.len() > 0 ==> (r matches Ok(v)
            ==> v == digits_value(d))),
{
    match lit {
        LitValue::Int(digits) => match parse_usize(digits.as_str()) {
            Ok(v) => Ok(v),
            Err(e) => Err(MacroError::at(span, ErrorKind::IntegerParse(field, e))),
        },
        _ => Err(MacroError::at(span, ErrorKind::NotAnInteger(field))),
    }
}

/// Reads a literal as a string: a string literal gives its value, a
/// verbatim literal its text.
pub fn parse_string(lit: LitValue, span: Span, field: ConfigOption) -> (r: Result<
    String,
    MacroError,
>)
    ensures
        matches_outcome(r, string_value(lit@, span, field)),
{
    match lit {
        LitValue::Str(s) => Ok(s),
        LitValue::Verbatim(s) => Ok(s),
        _ => Err(MacroError::at(span, ErrorKind::NotAString(field))),
    }
}

/// Reads a literal as a boolean.
pub fn parse_bool(lit: LitValue, span: Span, field: ConfigOption) -> (r: Result<bool, MacroError>)
    ensures
        match bool_value(lit@, span, field) {
            Ok(v) => r == Ok::<bool, MacroError>(v),
            Err(e) => r matches Err(x) && x@ == e,
        },
{
    match lit {
        LitValue::Bool(b) => Ok(b),
        _ => Err(MacroError::at(span, ErrorKind::NotABool(field))),
    }
}

/// A text option's value with the span it was written at, as a mathematical value.
pub open spec fn text_at_view(o: Option<(String, Span)>) -> Option<(Seq<char>, Span)> {
    match o {
        Some((s, sp)) => Some((s@, sp)),
        None => None,
    }
}

/// The options gathered so far, before they are checked together.
#[derive(Debug)]
pub struct Configuration {
    runtime: AsyncRuntime,
    rt_multi_thread_available: bool,
    default_flavor: RuntimeFlavor,
    flavor: Option<RuntimeFlavor>,
    worker_threads: Option<(usize, Span)>,
    start_paused: Option<(bool, Span)>,
    is_test: bool,
    init: Option<(String, Span)>,
    tracing_span: Option<(String, Span)>,
    /// Where `tracing` is imported from, such as `my_lib::`, in place of `tracing` itself.
    tracing_lib: Option<(String, Span)>,
}

/// The mathematical value of a [`Configuration`].
pub struct ConfigState {
    pub runtime: AsyncRuntime,
    pub rt_multi_thread_available: bool,
    pub default_flavor: RuntimeFlavor,
    pub flavor: Option<RuntimeFlavor>,
    pub worker_threads: Option<(usize, Span)>,
    pub start_paused: Option<(bool, Span)>,
    pub is_test: bool,
    pub init: Option<(Seq<char>, Span)>,
    pub tracing_span: Option<(Seq<char>, Span)>,
    pub tracing_lib: Option<(Seq<char>, Span)>,
}

impl View for Configuration {
    type V = ConfigState;

    closed spec fn view(&self) -> ConfigState {
        ConfigState {
            runtime: self.runtime,
            rt_multi_thread_available: self.rt_multi_thread_available,
            default_flavor: self.default_flavor,
            flavor: self.flavor,
            worker_threads: self.worker_threads,
            start_paused: self.start_paused,
            is_test: self.is_test,
            init: text_at_view(self.init),
            tracing_span: text_at_view(self.tracing_span),
            tracing_lib: text_at_view(self.tracing_lib),
        }
    }
}

impl Configuration {
    /// Every configuration is well formed.
    #[verifier::type_invariant]
    pub open spec fn inv(self) -> bool {
        self@.wf()
    }

    /// The runtime the configuration is for.
    pub fn runtime(&self) -> (r: AsyncRuntime)
        ensures
            r == self@.runtime,
    {
        self.runtime
    }

    /// Whether the configuration is for a test (else for a main function).
    pub fn is_test(&self) -> (r: bool)
        ensures
            r == self@.is_test,
    {
        self.is_test
    }

    /// The flavor given, if any.
    pub fn flavor(&self) -> (r: Option<RuntimeFlavor>)
        ensures
            r == self@.flavor,
    {
        self.flavor
    }

    /// The worker count given, with its span, if any.
    pub fn worker_threads(&self) -> (r: Option<(usize, Span)>)
        ensures
            r == self@.worker_threads,
    {
        self.worker_threads
    }

    /// Whether the clock starts paused, with its span, if given.
    pub fn start_paused(&self) -> (r: Option<(bool, Span)>)
        ensures
            r == self@.start_paused,
    {
        self.start_paused
    }

    /// The `init` expression, with its span, if given.
    pub fn init(&self) -> (r: &Option<(String, Span)>)
        ensures
            text_at_view(*r) == self@.init,
    {
        &self.init
    }

    /// The tracing span's level, with its span, if given.
    pub fn tracing_span(&self) -> (r: &Option<(String, Span)>)
        ensures
            text_at_view(*r) == self@.tracing_span,
    {
        &self.tracing_span
    }

    /// The path prefix `tracing` is reached through, with its span, if given.
    pub fn tracing_lib(&self) -> (r: &Option<(String, Span)>)
        ensures
            text_at_view(*r) == self@.tracing_lib,
    {
        &self.tracing_lib
    }
}

impl ConfigState {
    /// A worker count, when given, is positive and comes with the
    /// multi-thread flavor.
    pub open spec fn wf(self) -> bool {
        self.worker_threads matches Some((n, _)) ==> n > 0 && self.flavor == Some(
            RuntimeFlavor::Threaded,
        )
    }
}

/// The configuration before any option is read. A test defaults to the
/// current-thread flavor, a main function to the multi-thread flavor.
pub open spec fn initial_state(runtime: AsyncRuntime, is_test: bool, rt_multi_thread: bool) -> ConfigState {
    ConfigState {
        runtime,
        rt_multi_thread_available: rt_multi_thread,
        default_flavor: if is_test {
            RuntimeFlavor::CurrentThread
        } else {
            RuntimeFlavor::Threaded
        },
        flavor: None,
        worker_threads: None,
        start_paused: None,
        is_test,
        init: None,
        tracing_span: None,
        tracing_lib: None,
    }
}

/// Whether an option has been given already.
pub open spec fn option_is_set(c: ConfigState, o: ConfigOption) -> bool {
    match o {
        ConfigOption::Flavor => c.flavor is Some,
        ConfigOption::WorkerThreads => c.worker_threads is Some,
        ConfigOption::StartPaused => c.start_paused is Some,
        ConfigOption::Init => c.init is Some,
        ConfigOption::TracingSpan => c.tracing_span is Some,
        ConfigOption::TracingLib => c.tracing_lib is Some,
    }
}

/// Whether an option only concerns tokio's runtime builder: the flavor, the
/// worker count and the paused clock.
pub open spec fn tokio_only(o: ConfigOption) -> bool {
    o == ConfigOption::Flavor || o == ConfigOption::WorkerThreads || o == ConfigOption::StartPaused
}

/// What giving an option the value `lit`, written at `span`, does to a
/// configuration. For monoio, the options that only concern tokio are
/// accepted and ignored. Otherwise an option may be given once; a worker
/// count of zero selects the current-thread flavor and a positive one the
/// multi-thread flavor.
pub open spec fn apply_option(c: ConfigState, o: ConfigOption, lit: LitView, span: Span) -> Result<
    ConfigState,
    MacroErrorView,
> {
    if c.runtime == AsyncRuntime::Monoio && tokio_only(o) {
        Ok(c)
    } else if option_is_set(c, o) {
        Err(error_at(span, ErrorKindView::DuplicateOption(o)))
    } else {
        match o {
            ConfigOption::Flavor => match string_value(lit, span, o) {
                Err(e) => Err(e),
                Ok(s) => match flavor_named(s) {
                    Some(f) => Ok(ConfigState { flavor: Some(f), ..c }),
                    None => Err(error_at(span, ErrorKindView::InvalidFlavor(s))),
                },
            },
            ConfigOption::WorkerThreads => match int_value(lit, span, o) {
                Err(e) => Err(e),
                Ok(n) => if n == 0 {
                    Ok(
                        ConfigState {
                            flavor: Some(RuntimeFlavor::CurrentThread),
                            worker_threads: None,
                            ..c
                        },
                    )
                } else {
                    Ok(
                        ConfigState {
                            flavor: Some(RuntimeFlavor::Threaded),
                            worker_threads: Some((n, span)),
                            ..c
                        },
                    )
                },
            },
            ConfigOption::StartPaused => match bool_value(lit, span, o) {
                Err(e) => Err(e),
                Ok(b) => Ok(ConfigState { start_paused: Some((b, span)), ..c }),
            },
            ConfigOption::Init => match string_value(lit, span, o) {
                Err(e) => Err(e),
                Ok(s) => Ok(ConfigState { init: Some((s, span)), ..c }),
            },
            ConfigOption::TracingSpan => match string_value(lit, span, o) {
                Err(e) => Err(e),
                Ok(s) => Ok(ConfigState { tracing_span: Some((s, span)), ..c }),
            },
            ConfigOption::TracingLib => match string_value(lit, span, o) {
                Err(e) => Err(e),
                Ok(s) => Ok(ConfigState { tracing_lib: Some((s, span)), ..c }),
            },
        }
    }
}

/// Whether a setter's result and its effect on the configuration follow an outcome:
/// on success the configuration becomes the outcome's, on failure it is unchanged.
pub open spec fn set_follows(
    r: Result<(), MacroError>,
    before: ConfigState,
    after: ConfigState,
    outcome: Result<ConfigState, MacroErrorView>,
) -> bool {
    match outcome {
        Ok(c) => r is Ok && after == c,
        Err(e) => r matches Err(x) && x@ == e && after == before,
    }
}

/// The checked configuration that code is generated from.
#[derive(Debug)]
pub struct FinalConfig {
    pub runtime: AsyncRuntime,
    pub flavor: RuntimeFlavor,
    pub worker_threads: Option<usize>,
    pub start_paused: Option<bool>,
    pub init: Option<(String, Span)>,
    pub tracing_span: Option<(String, Span)>,
    pub tracing_lib: Option<(String, Span)>,
}

/// The mathematical value of a [`FinalConfig`].
pub struct FinalState {
    pub runtime: AsyncRuntime,
    pub flavor: RuntimeFlavor,
    pub worker_threads: Option<usize>,
    pub start_paused: Option<bool>,
    pub init: Option<(Seq<char>, Span)>,
    pub tracing_span: Option<(Seq<char>, Span)>,
    pub tracing_lib: Option<(Seq<char>, Span)>,
}

impl View for FinalConfig {
    type V = FinalState;

    open spec fn view(&self) -> FinalState {
        FinalState {
            runtime: self.runtime,
            flavor: self.flavor,
            worker_threads: self.worker_threads,
            start_paused: self.start_paused,
            init: text_at_view(self.init),
            tracing_span: text_at_view(self.tracing_span),
            tracing_lib: text_at_view(self.tracing_lib),
        }
    }
}

/// The flavor a configuration runs on: the one given, else the default.
pub open spec fn chosen_flavor(c: ConfigState) -> RuntimeFlavor {
    match c.flavor {
        Some(f) => f,
        None => c.default_flavor,
    }
}

/// What checking a configuration gives. For monoio nothing is checked and
/// no tokio option is kept. For tokio, a worker count needs the
/// multi-thread flavor, which in turn must be available; starting paused
/// needs the current-thread flavor.
pub open spec fn finalize(c: ConfigState) -> Result<FinalState, MacroErrorView> {
    if c.runtime == AsyncRuntime::Monoio {
        Ok(
            FinalState {
                runtime: c.runtime,
                flavor: chosen_flavor(c),
                worker_threads: None,
                start_paused: None,
                init: c.init,
                tracing_span: c.tracing_span,
                tracing_lib: c.tracing_lib,
            },
        )
    } else {
        finalize_tokio(c)
    }
}

/// What checking a tokio configuration gives.
pub open spec fn finalize_tokio(c: ConfigState) -> Result<FinalState, MacroErrorView> {
    let flavor = chosen_flavor(c);
    let workers: Result<Option<usize>, MacroErrorView> = match flavor {
        RuntimeFlavor::CurrentThread => match c.worker_threads {
            Some((_, sp)) => Err(
                error_at(sp, ErrorKindView::WorkerThreadsNeedMultiThread(c.runtime, c.is_test)),
            ),
            None => Ok(None),
        },
        RuntimeFlavor::Threaded => if c.rt_multi_thread_available {
            match c.worker_threads {
                Some((n, _)) => Ok(Some(n)),
                None => Ok(None),
            }
        } else {
            Err(
                MacroErrorView {
                    site: ErrorSite::CallSite,
                    kind: ErrorKindView::MultiThreadUnavailable(c.flavor is None),
                },
            )
        },
    };
    match workers {
        Err(e) => Err(e),
        Ok(worker_threads) => {
            let paused: Result<Option<bool>, MacroErrorView> = match c.start_paused {
                None => Ok(None),
                Some((b, sp)) => match flavor {
                    RuntimeFlavor::Threaded => Err(
                        error_at(
                            sp,
                            ErrorKindView::StartPausedNeedsCurrentThread(c.runtime, c.is_test),
                        ),
                    ),
                    RuntimeFlavor::CurrentThread => Ok(Some(b)),
                },
            };
            match paused {
                Err(e) => Err(e),
                Ok(start_paused) => Ok(
                    FinalState {
                        runtime: c.runtime,
                        flavor,
                        worker_threads,
                        start_paused,
                        init: c.init,
                        tracing_span: c.tracing_span,
                        tracing_lib: c.tracing_lib,
                    },
                ),
            }
        },
    }
}

fn clone_text_at(o: &Option<(String, Span)>) -> (r: Option<(String, Span)>)
    ensures
        r == *o,
{
    match o {
        Some((s, sp)) => Some((s.clone(), *sp)),
        None => None,
    }
}

impl Configuration {
    /// A configuration with no option read, for the runtime this crate targets.
    pub fn new(is_test: bool, rt_multi_thread: bool) -> (c: Configuration)
        ensures
            c@ == initial_state(selected_runtime(), is_test, rt_multi_thread),
            c@.wf(),
    {
        Configuration::new_for(get_runtime(), is_test, rt_multi_thread)
    }

    /// A configuration with no option read, for a given runtime.
    pub fn new_for(runtime: AsyncRuntime, is_test: bool, rt_multi_thread: bool) -> (c: Configuration)
        ensures
            c@ == initial_state(runtime, is_test, rt_multi_thread),
            c@.wf(),
    {
        Configuration {
            runtime,
            rt_multi_thread_available: rt_multi_thread,
            default_flavor: match is_test {
                true => RuntimeFlavor::CurrentThread,
                false => RuntimeFlavor::Threaded,
            },
            flavor: None,
            worker_threads: None,
            start_paused: None,
            is_test,
            init: None,
            tracing_span: None,
            tracing_lib: None,
        }
    }

    /// Sets the flavor from its name; ignored for monoio.
    pub fn set_flavor(&mut self, runtime: LitValue, span: Span) -> (r: Result<(), MacroError>)
        ensures
            set_follows(r, old(self)@, final(self)@, apply_option(old(self)@, ConfigOption::Flavor, runtime@, span)),
            final(self)@.wf(),
    {
        proof {
            use_type_invariant(&*self);
        }
        if self.runtime == AsyncRuntime::Monoio {
            return Ok(());
        }
        if self.flavor.is_some() {
            return Err(MacroError::at(span, ErrorKind::DuplicateOption(ConfigOption::Flavor)));
        }
        let runtime_str = match parse_string(runtime, span, ConfigOption::Flavor) {
            Ok(s) => s,
            Err(e) => return Err(e),
        };
        match RuntimeFlavor::from_str(runtime_str.as_str()) {
            Ok(f) => {
                self.flavor = Some(f);
                Ok(())
            },
            Err(_) => Err(MacroError::at(span, ErrorKind::InvalidFlavor(runtime_str))),
        }
    }

    /// Sets the statement run before the test body, whose value is held until the test ends.
    pub fn set_init(&mut self, init_fn: LitValue, span: Span) -> (r: Result<(), MacroError>)
        ensures
            set_follows(r, old(self)@, final(self)@, apply_option(old(self)@, ConfigOption::Init, init_fn@, span)),
            final(self)@.wf(),
    {
        proof {
            use_type_invariant(&*self);
        }
        if self.init.is_some() {
            return Err(MacroError::at(span, ErrorKind::DuplicateOption(ConfigOption::Init)));
        }
        let init_expr = match parse_string(init_fn, span, ConfigOption::Init) {
            Ok(s) => s,
            Err(e) => return Err(e),
        };
        self.init = Some((init_expr, span));
        Ok(())
    }

    /// Sets the level of the tracing span the test body runs in.
    pub fn set_tracing_span(&mut self, level: LitValue, span: Span) -> (r: Result<(), MacroError>)
        ensures
            set_follows(r, old(self)@, final(self)@, apply_option(old(self)@, ConfigOption::TracingSpan, level@, span)),
            final(self)@.wf(),
    {
        proof {
            use_type_invariant(&*self);
        }
        if self.tracing_span.is_some() {
            return Err(MacroError::at(span, ErrorKind::DuplicateOption(ConfigOption::TracingSpan)));
        }
        let tracing_span = match parse_string(level, span, ConfigOption::TracingSpan) {
            Ok(s) => s,
            Err(e) => return Err(e),
        };
        self.tracing_span = Some((tracing_span, span));
        Ok(())
    }

    /// Sets the path prefix `tracing` is imported through.
    pub fn set_tracing_lib(&mut self, level: LitValue, span: Span) -> (r: Result<(), MacroError>)
        ensures
            set_follows(r, old(self)@, final(self)@, apply_option(old(self)@, ConfigOption::TracingLib, level@, span)),
            final(self)@.wf(),
    {
        proof {
            use_type_invariant(&*self);
        }
        if self.tracing_lib.is_some() {
            return Err(MacroError::at(span, ErrorKind::DuplicateOption(ConfigOption::TracingLib)));
        }
        let tracing_lib = match parse_string(level, span, ConfigOption::TracingLib) {
            Ok(s) => s,
            Err(e) => return Err(e),
        };
        self.tracing_lib = Some((tracing_lib, span));
        Ok(())
    }

    /// Sets the number of worker threads; zero selects the current-thread
    /// flavor, a positive number the multi-thread flavor. Ignored for monoio.
    pub fn set_worker_threads(&mut self, worker_threads: LitValue, span: Span) -> (r: Result<
        (),
        MacroError,
    >)
        ensures
            set_follows(r, old(self)@, final(self)@, apply_option(old(self)@, ConfigOption::WorkerThreads, worker_threads@, span)),
            final(self)@.wf(),
    {
        proof {
            use_type_invariant(&*self);
        }
        if self.runtime == AsyncRuntime::Monoio {
            return Ok(());
        }
        if self.worker_threads.is_some() {
            return Err(MacroError::at(span, ErrorKind::DuplicateOption(ConfigOption::WorkerThreads)));
        }
        let worker_threads = match parse_int(worker_threads, span, ConfigOption::WorkerThreads) {
            Ok(n) => n,
            Err(e) => return Err(e),
        };
        if worker_threads == 0 {
            self.flavor = Some(RuntimeFlavor::CurrentThread);
            self.worker_threads = None;
        } else {
            self.flavor = Some(RuntimeFlavor::Threaded);
            self.worker_threads = Some((worker_threads, span));
        }
        Ok(())
    }

    /// Sets whether the runtime's clock starts paused; ignored for monoio.
    pub fn set_start_paused(&mut self, start_paused: LitValue, span: Span) -> (r: Result<
        (),
        MacroError,
    >)
        ensures
            set_follows(r, old(self)@, final(self)@, apply_option(old(self)@, ConfigOption::StartPaused, start_paused@, span)),
            final(self)@.wf(),
    {
        proof {
            use_type_invariant(&*self);
        }
        if self.runtime == AsyncRuntime::Monoio {
            return Ok(());
        }
        if self.start_paused.is_some() {
            return Err(MacroError::at(span, ErrorKind::DuplicateOption(ConfigOption::StartPaused)));
        }
        let start_paused = match parse_bool(start_paused, span, ConfigOption::StartPaused) {
            Ok(b) => b,
            Err(e) => return Err(e),
        };
        self.start_paused = Some((start_paused, span));
        Ok(())
    }

    /// The name of the attribute users write, used in hints.
    pub fn macro_name(&self) -> (s: &'static str)
        ensures
            s@ == macro_name_text(self@.runtime, self@.is_test),
    {
        macro_name_of(self.runtime, self.is_test)
    }

    /// Checks the options together and gives the configuration code is generated from.
    pub fn build(&self) -> (r: Result<FinalConfig, MacroError>)
        ensures
            matches_outcome(r, finalize(self@)),
    {
        let flavor = match self.flavor {
            Some(f) => f,
            None => self.default_flavor,
        };
        if self.runtime == AsyncRuntime::Monoio {
            return Ok(
                FinalConfig {
                    runtime: self.runtime,
                    flavor,
                    worker_threads: None,
                    start_paused: None,
                    init: clone_text_at(&self.init),
                    tracing_span: clone_text_at(&self.tracing_span),
                    tracing_lib: clone_text_at(&self.tracing_lib),
                },
            );
        }
        let worker_threads = match flavor {
            RuntimeFlavor::CurrentThread => match self.worker_threads {
                Some((_, worker_threads_span)) => {
                    return Err(
                        MacroError::at(
                            worker_threads_span,
                            ErrorKind::WorkerThreadsNeedMultiThread(self.runtime, self.is_test),
                        ),
                    );
                },
                None => None,
            },
            RuntimeFlavor::Threaded => if self.rt_multi_thread_available {
                match self.worker_threads {
                    Some((n, _)) => Some(n),
                    None => None,
                }
            } else {
                return Err(
                    MacroError {
                        site: ErrorSite::CallSite,
                        kind: ErrorKind::MultiThreadUnavailable(self.flavor.is_none()),
                    },
                );
            },
        };
        let start_paused = match self.start_paused {
            None => None,
            Some((b, start_paused_span)) => match flavor {
                RuntimeFlavor::Threaded => {
                    return Err(
                        MacroError::at(
                            start_paused_span,
                            ErrorKind::StartPausedNeedsCurrentThread(self.runtime, self.is_test),
                        ),
                    );
                },
                RuntimeFlavor::CurrentThread => Some(b),
            },
        };
        Ok(
            FinalConfig {
                runtime: self.runtime,
                flavor,
                worker_threads,
                start_paused,
                init: clone_text_at(&self.init),
                tracing_span: clone_text_at(&self.tracing_span),
                tracing_lib: clone_text_at(&self.tracing_lib),
            },
        )
    }
}

} // verus!
