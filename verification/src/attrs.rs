//! Reading the attribute's arguments into a configuration.

use proc_macro2::Span;
use vstd::prelude::*;
use vstd::string::*;

use crate::config::{
    apply_option, finalize, initial_state, matches_outcome, set_follows, ConfigState,
    Configuration, FinalConfig, FinalState, LitValue, LitView,
};
use crate::error::{
    error_at, option_named, ConfigOption, ErrorKind, ErrorKindView, MacroError, MacroErrorView,
};
use crate::outside::{ascii_lowercase, is_ascii_text, lowercase, to_lowercase};
use crate::runtime::{get_runtime, selected_runtime, AsyncRuntime, RuntimeFlavor};

verus! {

/// One argument of the attribute, as the parser gives it.
#[derive(Debug)]
pub enum AttrArg {
    /// `name = literal`: the name when it is a single identifier, the
    /// literal, the literal's span and the span of the whole argument.
    NameValue { ident: Option<String>, lit: LitValue, lit_span: Span, span: Span },
    /// A path alone: the name when it is a single identifier, and its span.
    Path { ident: Option<String>, span: Span },
    /// Any other argument, such as a literal or a list; its span.
    Other { span: Span },
}

/// The mathematical value of an [`AttrArg`].
pub enum AttrArgView {
    NameValue { ident: Option<Seq<char>>, lit: LitView, lit_span: Span, span: Span },
    Path { ident: Option<Seq<char>>, span: Span },
    Other { span: Span },
}

/// A name as a mathematical value.
pub open spec fn ident_view(o: Option<String>) -> Option<Seq<char>> {
    match o {
        Some(s) => Some(s@),
        None => None,
    }
}

impl View for AttrArg {
    type V = AttrArgView;

    open spec fn view(&self) -> AttrArgView {
        match self {
            AttrArg::NameValue { ident, lit, lit_span, span } => AttrArgView::NameValue {
                ident: ident_view(*ident),
                lit: lit@,
                lit_span: *lit_span,
                span: *span,
            },
            AttrArg::Path { ident, span } => AttrArgView::Path { ident: ident_view(*ident), span: *span },
            AttrArg::Other { span } => AttrArgView::Other { span: *span },
        }
    }
}

/// The arguments as mathematical values.
pub open spec fn arg_views(args: Seq<AttrArg>) -> Seq<AttrArgView> {
    args.map_values(|a: AttrArg| a@)
}

/// The lowercase form of a name, as `str::to_lowercase` gives it: for an
/// ASCII name, its capital letters lowercased.
pub open spec fn name_lowercase(id: Seq<char>) -> Seq<char> {
    if is_ascii_text(id) {
        ascii_lowercase(id)
    } else {
        lowercase(id)
    }
}

/// The error for a name given alone, without a value. Flavor names get a
/// hint on how to set the flavor; option names say that a value is needed.
pub open spec fn path_error(c: ConfigState, name: Seq<char>) -> ErrorKindView {
    if name == "threaded_scheduler"@ || name == "multi_thread"@ {
        ErrorKindView::FlavorAsFlag(c.runtime, c.is_test, RuntimeFlavor::Threaded)
    } else if name == "basic_scheduler"@ || name == "current_thread"@ || name
        == "single_threaded"@ {
        ErrorKindView::FlavorAsFlag(c.runtime, c.is_test, RuntimeFlavor::CurrentThread)
    } else {
        match option_named(name) {
            Some(o) => ErrorKindView::MissingArgument(o),
            None => ErrorKindView::UnknownPathAttribute(name),
        }
    }
}

/// What one argument does to a configuration. Names are compared
/// lowercased; only `name = literal` with a known option name is accepted.
pub open spec fn arg_step(c: ConfigState, a: AttrArgView) -> Result<ConfigState, MacroErrorView> {
    match a {
        AttrArgView::NameValue { ident, lit, lit_span, span } => match ident {
            None => Err(error_at(span, ErrorKindView::MissingIdent)),
            Some(id) => match option_named(name_lowercase(id)) {
                Some(o) => apply_option(c, o, lit, lit_span),
                None => Err(error_at(span, ErrorKindView::UnknownNamedAttribute(name_lowercase(id)))),
            },
        },
        AttrArgView::Path { ident, span } => match ident {
            None => Err(error_at(span, ErrorKindView::MissingIdent)),
            Some(id) => Err(error_at(span, path_error(c, name_lowercase(id)))),
        },
        AttrArgView::Other { span } => Err(error_at(span, ErrorKindView::UnknownArgument)),
    }
}

/// What the arguments, read in order, do to a configuration; the first error stops.
pub open spec fn apply_args(c: ConfigState, args: Seq<AttrArgView>) -> Result<
    ConfigState,
    MacroErrorView,
>
    decreases args.len(),
{
    if args.len() == 0 {
        Ok(c)
    } else {
        match apply_args(c, args.drop_last()) {
            Ok(c1) => arg_step(c1, args.last()),
            Err(e) => Err(e),
        }
    }
}

/// The checked configuration a test attribute's arguments give.
pub open spec fn config_outcome(
    runtime: AsyncRuntime,
    args: Seq<AttrArgView>,
    rt_multi_thread: bool,
) -> Result<FinalState, MacroErrorView> {
    match apply_args(initial_state(runtime, true, rt_multi_thread), args) {
        Ok(c) => finalize(c),
        Err(e) => Err(e),
    }
}

/// The first argument that fails decides the error: once reading a prefix
/// of the arguments fails, reading all of them fails with the same error.
pub proof fn law_first_error_decides(c: ConfigState, args: Seq<AttrArgView>, n: int)
    requires
        0 <= n <= args.len(),
        apply_args(c, args.take(n)) is Err,
    ensures
        apply_args(c, args) == apply_args(c, args.take(n)),
    decreases args.len(),
{
    if args.len() == n {
        assert(args.take(n) =~= args);
    } else {
        assert(args.drop_last().take(n) =~= args.take(n));
        law_first_error_decides(c, args.drop_last(), n);
    }
}

fn same(s: &String, lit: &str) -> (r: bool)
    ensures
        r == (s@ == lit@),
{
    *s == String::from_str(lit)
}

fn path_error_kind(runtime: AsyncRuntime, is_test: bool, name: String) -> (k: ErrorKind)
    ensures
        k@ == path_error(initial_state(runtime, is_test, true), name@),
{
    if same(&name, "threaded_scheduler") || same(&name, "multi_thread") {
        ErrorKind::FlavorAsFlag(runtime, is_test, RuntimeFlavor::Threaded)
    } else if same(&name, "basic_scheduler") || same(&name, "current_thread") || same(
        &name,
        "single_threaded",
    ) {
        ErrorKind::FlavorAsFlag(runtime, is_test, RuntimeFlavor::CurrentThread)
    } else {
        match ConfigOption::from_name(name.as_str()) {
            Some(o) => ErrorKind::MissingArgument(o),
            None => ErrorKind::UnknownPathAttribute(name),
        }
    }
}

fn apply_arg(config: &mut Configuration, arg: AttrArg) -> (r: Result<(), MacroError>)
    ensures
        set_follows(r, old(config)@, final(config)@, arg_step(old(config)@, arg@)),
        final(config)@.wf(),
{
    proof {
        use_type_invariant(&*config);
    }
    match arg {
        AttrArg::NameValue { ident, lit, lit_span, span } => match ident {
            None => Err(MacroError::at(span, ErrorKind::MissingIdent)),
            Some(id) => {
                let name = to_lowercase(id.as_str());
                match ConfigOption::from_name(name.as_str()) {
                    Some(ConfigOption::WorkerThreads) => config.set_worker_threads(lit, lit_span),
                    Some(ConfigOption::Flavor) => config.set_flavor(lit, lit_span),
                    Some(ConfigOption::StartPaused) => config.set_start_paused(lit, lit_span),
                    Some(ConfigOption::Init) => config.set_init(lit, lit_span),
                    Some(ConfigOption::TracingSpan) => config.set_tracing_span(lit, lit_span),
                    Some(ConfigOption::TracingLib) => config.set_tracing_lib(lit, lit_span),
                    None => Err(MacroError::at(span, ErrorKind::UnknownNamedAttribute(name))),
                }
            },
        },
        AttrArg::Path { ident, span } => match ident {
            None => Err(MacroError::at(span, ErrorKind::MissingIdent)),
            Some(id) => {
                let name = to_lowercase(id.as_str());
                Err(MacroError::at(span, path_error_kind(config.runtime(), config.is_test(), name)))
            },
        },
        AttrArg::Other { span } => Err(MacroError::at(span, ErrorKind::UnknownArgument)),
    }
}

/// Reads the arguments of a test attribute, for a given runtime, into a
/// checked configuration.
pub fn build_config_for(runtime: AsyncRuntime, args: Vec<AttrArg>, rt_multi_thread: bool) -> (r:
    Result<FinalConfig, MacroError>)
    ensures
        matches_outcome(r, config_outcome(runtime, arg_views(args@), rt_multi_thread)),
{
    let mut config = Configuration::new_for(runtime, true, rt_multi_thread);
    let ghost init = config@;
    let ghost all = args@;
    let ghost mut k: int = 0;
    let mut rest = args;
    assert(arg_views(all).take(0) =~= Seq::<AttrArgView>::empty());
    #[verifier::loop_isolation(false)]
    while rest.len() > 0
        invariant
            0 <= k <= all.len(),
            rest@ == all.skip(k),
            config@.wf(),
            config@.runtime == runtime,
            config@.is_test,
            apply_args(init, arg_views(all).take(k)) == Ok::<ConfigState, MacroErrorView>(config@),
            init == initial_state(runtime, true, rt_multi_thread),
        decreases rest.len(),
    {
        let arg = rest.remove(0);
        proof {
            assert(k < all.len());
            assert(arg == all[k]);
            assert(arg_views(all).take(k + 1).drop_last() =~= arg_views(all).take(k));
            assert(arg_views(all).take(k + 1).last() == arg@);
        }
        let ghost before = config@;
        let step = apply_arg(&mut config, arg);
        proof {
            k = k + 1;
            assert(rest@ =~= all.skip(k));
        }
        match step {
            Ok(()) => {},
            Err(e) => {
                proof {
                    assert(apply_args(init, arg_views(all).take(k)) == arg_step(before, arg_views(all).take(k).last()));
                    assert(apply_args(init, arg_views(all).take(k)) == Err::<ConfigState, MacroErrorView>(e@));
                    law_first_error_decides(init, arg_views(all), k);
                    assert(apply_args(init, arg_views(all)) == Err::<ConfigState, MacroErrorView>(e@));
                }
                return Err(e);
            },
        }
    }
    proof {
        assert(arg_views(all).take(k) =~= arg_views(all));
    }
    config.build()
}

/// Reads the arguments of a test attribute into a checked configuration,
/// for the runtime this crate targets.
pub fn build_config(args: Vec<AttrArg>, rt_multi_thread: bool) -> (r: Result<FinalConfig, MacroError>)
    ensures
        matches_outcome(r, config_outcome(selected_runtime(), arg_views(args@), rt_multi_thread)),
{
    build_config_for(get_runtime(), args, rt_multi_thread)
}

} // verus!
