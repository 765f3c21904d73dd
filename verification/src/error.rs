//! The errors the attribute reports, and their messages.

use proc_macro2::Span;
use vstd::prelude::*;
use vstd::string::*;

use crate::runtime::{AsyncRuntime, RuntimeFlavor, unknown_flavor_message};

verus! {

/// The options the attribute takes as `name = value`.
#[derive(Clone, Copy, Debug, PartialEq, Eq, Structural)]
pub enum ConfigOption {
    Flavor,
    WorkerThreads,
    StartPaused,
    Init,
    TracingSpan,
    TracingLib,
}

/// The name an option is written with.
pub open spec fn option_name(o: ConfigOption) -> Seq<char> {
    match o {
        ConfigOption::Flavor => "flavor"@,
        ConfigOption::WorkerThreads => "worker_threads"@,
        ConfigOption::StartPaused => "start_paused"@,
        ConfigOption::Init => "init"@,
        ConfigOption::TracingSpan => "tracing_span"@,
        ConfigOption::TracingLib => "tracing_lib"@,
    }
}

/// The option written with a name, if any.
pub open spec fn option_named(s: Seq<char>) -> Option<ConfigOption> {
    if s == "flavor"@ {
        Some(ConfigOption::Flavor)
    } else if s == "worker_threads"@ {
        Some(ConfigOption::WorkerThreads)
    } else if s == "start_paused"@ {
        Some(ConfigOption::StartPaused)
    } else if s == "init"@ {
        Some(ConfigOption::Init)
    } else if s == "tracing_span"@ {
        Some(ConfigOption::TracingSpan)
    } else if s == "tracing_lib"@ {
        Some(ConfigOption::TracingLib)
    } else {
        None
    }
}

impl ConfigOption {
    /// The name this option is written with.
    pub fn name(self) -> (s: &'static str)
        ensures
            s@ == option_name(self),
    {
        match self {
            ConfigOption::Flavor => "flavor",
            ConfigOption::WorkerThreads => "worker_threads",
            ConfigOption::StartPaused => "start_paused",
            ConfigOption::Init => "init",
            ConfigOption::TracingSpan => "tracing_span",
            ConfigOption::TracingLib => "tracing_lib",
        }
    }

    /// The option written with the given name, if any.
    pub fn from_name(s: &str) -> (r: Option<ConfigOption>)
        ensures
            r == option_named(s@),
    {
        let t = String::from_str(s);
        if t == String::from_str("flavor") {
            Some(ConfigOption::Flavor)
        } else if t == String::from_str("worker_threads") {
            Some(ConfigOption::WorkerThreads)
        } else if t == String::from_str("start_paused") {
            Some(ConfigOption::StartPaused)
        } else if t == String::from_str("init") {
            Some(ConfigOption::Init)
        } else if t == String::from_str("tracing_span") {
            Some(ConfigOption::TracingSpan)
        } else if t == String::from_str("tracing_lib") {
            Some(ConfigOption::TracingLib)
        } else {
            None
        }
    }
}

/// The name of the attribute that users write, used in hints.
pub open spec fn macro_name_text(rt: AsyncRuntime, is_test: bool) -> Seq<char> {
    match (rt, is_test) {
        (AsyncRuntime::Tokio, true) => "tokio::test"@,
        (AsyncRuntime::Monoio, true) => "monoio::test"@,
        (AsyncRuntime::Tokio, false) => "tokio::main"@,
        (AsyncRuntime::Monoio, false) => "monoio::main"@,
    }
}

/// The attribute name used in hints, for a runtime and a kind of entry.
pub fn macro_name_of(rt: AsyncRuntime, is_test: bool) -> (s: &'static str)
    ensures
        s@ == macro_name_text(rt, is_test),
{
    if is_test {
        match rt {
            AsyncRuntime::Tokio => "tokio::test",
            AsyncRuntime::Monoio => "monoio::test",
        }
    } else {
        match rt {
            AsyncRuntime::Tokio => "tokio::main",
            AsyncRuntime::Monoio => "monoio::main",
        }
    }
}

/// Where an error is reported.
#[derive(Clone, Copy, Debug)]
pub enum ErrorSite {
    /// At the given span.
    At(Span),
    /// At the place where the attribute is invoked.
    CallSite,
}

/// What went wrong.
#[derive(Debug)]
pub enum ErrorKind {
    /// The option was given twice.
    DuplicateOption(ConfigOption),
    /// The flavor named is not a flavor.
    InvalidFlavor(String),
    /// The option's value is not an integer literal.
    NotAnInteger(ConfigOption),
    /// The option's integer literal does not parse as a `usize`; the parser's message.
    IntegerParse(ConfigOption, String),
    /// The option's value is not a string literal.
    NotAString(ConfigOption),
    /// The option's value is not a boolean literal.
    NotABool(ConfigOption),
    /// `worker_threads` was given with the `current_thread` flavor.
    WorkerThreadsNeedMultiThread(AsyncRuntime, bool),
    /// The multi-thread flavor is chosen but not available; the flag tells
    /// whether it was chosen by default.
    MultiThreadUnavailable(bool),
    /// `start_paused` was given with the `multi_thread` flavor.
    StartPausedNeedsCurrentThread(AsyncRuntime, bool),
    /// The attribute's name is not a single identifier.
    MissingIdent,
    /// An unknown `name = value` attribute; its lowercased name.
    UnknownNamedAttribute(String),
    /// A flavor name given alone; the flavor it names.
    FlavorAsFlag(AsyncRuntime, bool, RuntimeFlavor),
    /// An option given alone, without a value.
    MissingArgument(ConfigOption),
    /// An unknown attribute given alone; its lowercased name.
    UnknownPathAttribute(String),
    /// An argument that is neither `name = value` nor a name.
    UnknownArgument,
    /// The function is not `async`.
    MissingAsync,
    /// The function already carries a `#[test]` attribute.
    DuplicateTestAttribute,
    /// Generated text did not lex into tokens; the lexer's message.
    Lex(String),
    /// The attribute's arguments do not parse; the parser's message.
    Parse(String),
}

/// The mathematical value of an [`ErrorKind`].
pub enum ErrorKindView {
    DuplicateOption(ConfigOption),
    InvalidFlavor(Seq<char>),
    NotAnInteger(ConfigOption),
    IntegerParse(ConfigOption, Seq<char>),
    NotAString(ConfigOption),
    NotABool(ConfigOption),
    WorkerThreadsNeedMultiThread(AsyncRuntime, bool),
    MultiThreadUnavailable(bool),
    StartPausedNeedsCurrentThread(AsyncRuntime, bool),
    MissingIdent,
    UnknownNamedAttribute(Seq<char>),
    FlavorAsFlag(AsyncRuntime, bool, RuntimeFlavor),
    MissingArgument(ConfigOption),
    UnknownPathAttribute(Seq<char>),
    UnknownArgument,
    MissingAsync,
    DuplicateTestAttribute,
    Lex(Seq<char>),
    Parse(Seq<char>),
}

impl View for ErrorKind {
    type V = ErrorKindView;

    open spec fn view(&self) -> ErrorKindView {
        match self {
            ErrorKind::DuplicateOption(o) => ErrorKindView::DuplicateOption(*o),
            ErrorKind::InvalidFlavor(s) => ErrorKindView::InvalidFlavor(s@),
            ErrorKind::NotAnInteger(o) => ErrorKindView::NotAnInteger(*o),
            ErrorKind::IntegerParse(o, s) => ErrorKindView::IntegerParse(*o, s@),
            ErrorKind::NotAString(o) => ErrorKindView::NotAString(*o),
            ErrorKind::NotABool(o) => ErrorKindView::NotABool(*o),
            ErrorKind::WorkerThreadsNeedMultiThread(r, t) => ErrorKindView::WorkerThreadsNeedMultiThread(*r, *t),
            ErrorKind::MultiThreadUnavailable(d) => ErrorKindView::MultiThreadUnavailable(*d),
            ErrorKind::StartPausedNeedsCurrentThread(r, t) => ErrorKindView::StartPausedNeedsCurrentThread(*r, *t),
            ErrorKind::MissingIdent => ErrorKindView::MissingIdent,
            ErrorKind::UnknownNamedAttribute(s) => ErrorKindView::UnknownNamedAttribute(s@),
            ErrorKind::FlavorAsFlag(r, t, f) => ErrorKindView::FlavorAsFlag(*r, *t, *f),
            ErrorKind::MissingArgument(o) => ErrorKindView::MissingArgument(*o),
            ErrorKind::UnknownPathAttribute(s) => ErrorKindView::UnknownPathAttribute(s@),
            ErrorKind::UnknownArgument => ErrorKindView::UnknownArgument,
            ErrorKind::MissingAsync => ErrorKindView::MissingAsync,
            ErrorKind::DuplicateTestAttribute => ErrorKindView::DuplicateTestAttribute,
            ErrorKind::Lex(s) => ErrorKindView::Lex(s@),
            ErrorKind::Parse(s) => ErrorKindView::Parse(s@),
        }
    }
}

/// An error of the attribute: where it is reported and what went wrong.
#[derive(Debug)]
pub struct MacroError {
    pub site: ErrorSite,
    pub kind: ErrorKind,
}

/// The mathematical value of a [`MacroError`].
pub struct MacroErrorView {
    pub site: ErrorSite,
    pub kind: ErrorKindView,
}

impl View for MacroError {
    type V = MacroErrorView;

    open spec fn view(&self) -> MacroErrorView {
        MacroErrorView { site: self.site, kind: self.kind@ }
    }
}

/// An error reported at a span.
pub open spec fn error_at(span: Span, kind: ErrorKindView) -> MacroErrorView {
    MacroErrorView { site: ErrorSite::At(span), kind }
}

/// The text shown for a flavor in hints.
pub open spec fn flavor_hint_name(f: RuntimeFlavor) -> Seq<char> {
    match f {
        RuntimeFlavor::CurrentThread => "current_thread"@,
        RuntimeFlavor::Threaded => "multi_thread"@,
    }
}

/// The message of an option given without its value.
pub open spec fn missing_argument_message(o: ConfigOption) -> Seq<char> {
    match o {
        ConfigOption::Init => "The `init` attribute requires an argument in string of the initializing statement to run."@,
        ConfigOption::TracingSpan => "The `tracing_span` attribute requires an argument of level of the span, e.g. `debug` or `info`."@,
        ConfigOption::TracingLib => "The `tracing_lib` attribute requires an argument of level of the span, e.g. \"my_lib::\" or \"::\" or \"\"."@,
        _ => "The `"@ + option_name(o) + "` attribute requires an argument."@,
    }
}

/// The message shown for an error.
pub open spec fn message_text(k: ErrorKindView) -> Seq<char> {
    match k {
        ErrorKindView::DuplicateOption(o) => "`"@ + option_name(o) + "` set multiple times."@,
        ErrorKindView::InvalidFlavor(s) => unknown_flavor_message(s),
        ErrorKindView::NotAnInteger(o) => "Failed to parse value of `"@ + option_name(o) + "` as integer."@,
        ErrorKindView::IntegerParse(o, e) => "Failed to parse value of `"@ + option_name(o) + "` as integer: "@ + e,
        ErrorKindView::NotAString(o) => "Failed to parse value of `"@ + option_name(o) + "` as string."@,
        ErrorKindView::NotABool(o) => "Failed to parse value of `"@ + option_name(o) + "` as bool."@,
        ErrorKindView::WorkerThreadsNeedMultiThread(r, t) =>
            "The `worker_threads` option requires the `multi_thread` runtime flavor. Use `#["@
                + macro_name_text(r, t) + "(flavor = \"multi_thread\")]`"@,
        ErrorKindView::MultiThreadUnavailable(defaulted) => if defaulted {
            "The default runtime flavor is `multi_thread`, but the `rt-multi-thread` feature is disabled."@
        } else {
            "The runtime flavor `multi_thread` requires the `rt-multi-thread` feature."@
        },
        ErrorKindView::StartPausedNeedsCurrentThread(r, t) =>
            "The `start_paused` option requires the `current_thread` runtime flavor. Use `#["@
                + macro_name_text(r, t) + "(flavor = \"current_thread\")]`"@,
        ErrorKindView::MissingIdent => "Must have specified ident"@,
        ErrorKindView::UnknownNamedAttribute(n) => "Unknown attribute "@ + n
            + " is specified; expected one of: `flavor`, `worker_threads`, `start_paused`, `init`, `tracing_span`"@,
        ErrorKindView::FlavorAsFlag(r, t, f) => "Set the runtime flavor with #["@ + macro_name_text(r, t)
            + "(flavor = \""@ + flavor_hint_name(f) + "\")]."@,
        ErrorKindView::MissingArgument(o) => missing_argument_message(o),
        ErrorKindView::UnknownPathAttribute(n) => "Unknown attribute "@ + n
            + " is specified; expected one of: `flavor`, `worker_threads`, `start_paused`, `init`, `tracing_span`, `tracing_lib`"@,
        ErrorKindView::UnknownArgument => "Unknown attribute inside the macro"@,
        ErrorKindView::MissingAsync => "the `async` keyword is missing from the function declaration"@,
        ErrorKindView::DuplicateTestAttribute => "dup test"@,
        ErrorKindView::Lex(s) => s,
        ErrorKindView::Parse(s) => s,
    }
}

fn flavor_hint(f: RuntimeFlavor) -> (s: &'static str)
    ensures
        s@ == flavor_hint_name(f),
{
    match f {
        RuntimeFlavor::CurrentThread => "current_thread",
        RuntimeFlavor::Threaded => "multi_thread",
    }
}

fn missing_argument(o: ConfigOption) -> (s: String)
    ensures
        s@ == missing_argument_message(o),
{
    match o {
        ConfigOption::Init => String::from_str(
            "The `init` attribute requires an argument in string of the initializing statement to run.",
        ),
        ConfigOption::TracingSpan => String::from_str(
            "The `tracing_span` attribute requires an argument of level of the span, e.g. `debug` or `info`.",
        ),
        ConfigOption::TracingLib => String::from_str(
            "The `tracing_lib` attribute requires an argument of level of the span, e.g. \"my_lib::\" or \"::\" or \"\".",
        ),
        _ => String::from_str("The `").concat(o.name()).concat("` attribute requires an argument."),
    }
}

impl ErrorKind {
    /// The message shown for this error.
    pub fn message(&self) -> (s: String)
        ensures
            s@ == message_text(self@),
    {
        match self {
            ErrorKind::DuplicateOption(o) => String::from_str("`").concat(o.name()).concat(
                "` set multiple times.",
            ),
            ErrorKind::InvalidFlavor(s) => String::from_str("No such runtime flavor `").concat(
                s.as_str(),
            ).concat("`. The runtime flavors are `current_thread` and `multi_thread`."),
            ErrorKind::NotAnInteger(o) => String::from_str("Failed to parse value of `").concat(
                o.name(),
            ).concat("` as integer."),
            ErrorKind::IntegerParse(o, e) => String::from_str("Failed to parse value of `").concat(
                o.name(),
            ).concat("` as integer: ").concat(e.as_str()),
            ErrorKind::NotAString(o) => String::from_str("Failed to parse value of `").concat(
                o.name(),
            ).concat("` as string."),
            ErrorKind::NotABool(o) => String::from_str("Failed to parse value of `").concat(
                o.name(),
            ).concat("` as bool."),
            ErrorKind::WorkerThreadsNeedMultiThread(r, t) => String::from_str(
                "The `worker_threads` option requires the `multi_thread` runtime flavor. Use `#[",
            ).concat(macro_name_of(*r, *t)).concat("(flavor = \"multi_thread\")]`"),
            ErrorKind::MultiThreadUnavailable(defaulted) => if *defaulted {
                String::from_str(
                    "The default runtime flavor is `multi_thread`, but the `rt-multi-thread` feature is disabled.",
                )
            } else {
                String::from_str(
                    "The runtime flavor `multi_thread` requires the `rt-multi-thread` feature.",
                )
            },
            ErrorKind::StartPausedNeedsCurrentThread(r, t) => String::from_str(
                "The `start_paused` option requires the `current_thread` runtime flavor. Use `#[",
            ).concat(macro_name_of(*r, *t)).concat("(flavor = \"current_thread\")]`"),
            ErrorKind::MissingIdent => String::from_str("Must have specified ident"),
            ErrorKind::UnknownNamedAttribute(n) => String::from_str("Unknown attribute ").concat(
                n.as_str(),
            ).concat(
                " is specified; expected one of: `flavor`, `worker_threads`, `start_paused`, `init`, `tracing_span`",
            ),
            ErrorKind::FlavorAsFlag(r, t, f) => String::from_str(
                "Set the runtime flavor with #[",
            ).concat(macro_name_of(*r, *t)).concat("(flavor = \"").concat(flavor_hint(*f)).concat(
                "\")].",
            ),
            ErrorKind::MissingArgument(o) => missing_argument(*o),
            ErrorKind::UnknownPathAttribute(n) => String::from_str("Unknown attribute ").concat(
                n.as_str(),
            ).concat(
                " is specified; expected one of: `flavor`, `worker_threads`, `start_paused`, `init`, `tracing_span`, `tracing_lib`",
            ),
            ErrorKind::UnknownArgument => String::from_str("Unknown attribute inside the macro"),
            ErrorKind::MissingAsync => String::from_str(
                "the `async` keyword is missing from the function declaration",
            ),
            ErrorKind::DuplicateTestAttribute => String::from_str("dup test"),
            ErrorKind::Lex(s) => s.clone(),
            ErrorKind::Parse(s) => s.clone(),
        }
    }
}

impl MacroError {
    /// An error reported at a span.
    pub fn at(span: Span, kind: ErrorKind) -> (e: MacroError)
        ensures
            e.site == ErrorSite::At(span),
            e.kind == kind,
    {
        MacroError { site: ErrorSite::At(span), kind }
    }

    /// The message shown for this error.
    pub fn message(&self) -> (s: String)
        ensures
            s@ == message_text(self@.kind),
    {
        self.kind.message()
    }
}

} // verus!
