//! Properties that hold across the attribute's operations.

use proc_macro2::Span;
use vstd::prelude::*;

use crate::attrs::{apply_args, arg_step, config_outcome, AttrArgView};
use crate::codegen::{decimal_text, digit_text, joined_text, runtime_layout, runtime_source};
use crate::outside::{all_digits, digits_value, is_digit};
use crate::config::{
    apply_option, finalize, initial_state, int_value, option_is_set, tokio_only, ConfigState,
    FinalState, LitView,
};
use crate::error::{error_at, ConfigOption, ErrorKindView, ErrorSite, MacroErrorView};
use crate::attrs::name_lowercase;
use crate::outside::{ascii_lowercase, is_ascii_text};
use crate::error::{macro_name_text, message_text, option_name, option_named};
use crate::attrs::path_error;
use crate::runtime::{AsyncRuntime, RuntimeFlavor};
use crate::config::chosen_flavor;
use crate::codegen::{code, PieceSpan, PieceView};
use crate::item::{
    block_layout, init_statement, is_rust_whitespace, tail_source, tracing_path, tracing_source,
    trimmed_len, LastStmt, ReturnKind,
};

verus! {

/// For tokio, a positive worker count selects the multi-thread flavor and
/// keeps the count; a worker count of zero selects the current-thread
/// flavor and keeps no count.
pub proof fn law_worker_count_selects_flavor(c: ConfigState, lit: LitView, span: Span, n: usize)
    requires
        c.runtime == AsyncRuntime::Tokio,
        !option_is_set(c, ConfigOption::WorkerThreads),
        int_value(lit, span, ConfigOption::WorkerThreads) == Ok::<usize, MacroErrorView>(n),
    ensures
        n > 0 ==> apply_option(c, ConfigOption::WorkerThreads, lit, span) == Ok::<
            ConfigState,
            MacroErrorView,
        >(
            ConfigState {
                flavor: Some(RuntimeFlavor::Threaded),
                worker_threads: Some((n, span)),
                ..c
            },
        ),
        n == 0 ==> apply_option(c, ConfigOption::WorkerThreads, lit, span) == Ok::<
            ConfigState,
            MacroErrorView,
        >(ConfigState { flavor: Some(RuntimeFlavor::CurrentThread), worker_threads: None, ..c }),
{
}

/// A test with no option runs on a current-thread runtime, with no worker
/// count, no paused clock, no `init` statement and no tracing span.
pub proof fn law_default_test_runtime_is_current_thread(runtime: AsyncRuntime, rt_multi_thread: bool)
    ensures
        config_outcome(runtime, Seq::<AttrArgView>::empty(), rt_multi_thread) == Ok::<
            FinalState,
            MacroErrorView,
        >(
            FinalState {
                runtime,
                flavor: RuntimeFlavor::CurrentThread,
                worker_threads: None,
                start_paused: None,
                init: None,
                tracing_span: None,
                tracing_lib: None,
            },
        ),
{
}

/// An option that was given cannot be given again: the second time is an
/// error at the second value. (A worker count of zero keeps no count, so
/// after it a worker count may be given again; and monoio ignores the
/// options that only concern tokio.)
pub proof fn law_option_given_once(
    c: ConfigState,
    o: ConfigOption,
    first: LitView,
    first_span: Span,
    second: LitView,
    second_span: Span,
)
    requires
        apply_option(c, o, first, first_span) is Ok,
        !(c.runtime == AsyncRuntime::Monoio && tokio_only(o)),
        !(o == ConfigOption::WorkerThreads && int_value(first, first_span, o) == Ok::<
            usize,
            MacroErrorView,
        >(0)),
    ensures
        apply_option(apply_option(c, o, first, first_span)->Ok_0, o, second, second_span) == Err::<
            ConfigState,
            MacroErrorView,
        >(error_at(second_span, ErrorKindView::DuplicateOption(o))),
{
}

/// Giving an option keeps a configuration well formed.
pub proof fn law_option_keeps_wf(c: ConfigState, o: ConfigOption, lit: LitView, span: Span)
    requires
        c.wf(),
        apply_option(c, o, lit, span) is Ok,
    ensures
        apply_option(c, o, lit, span)->Ok_0.wf(),
{
}

/// Reading arguments keeps a configuration well formed.
pub proof fn law_args_keep_wf(c: ConfigState, args: Seq<AttrArgView>)
    requires
        c.wf(),
        apply_args(c, args) is Ok,
    ensures
        apply_args(c, args)->Ok_0.wf(),
    decreases args.len(),
{
    if args.len() > 0 {
        law_args_keep_wf(c, args.drop_last());
        let c1 = apply_args(c, args.drop_last())->Ok_0;
        match args.last() {
            AttrArgView::NameValue { ident, lit, lit_span, span } => {
                if let Some(id) = ident {
                    if let Some(o) = crate::error::option_named(name_lowercase(id)) {
                        law_option_keeps_wf(c1, o, lit, lit_span);
                    }
                }
            },
            _ => {},
        }
    }
}

/// Whether a checked configuration is consistent: a worker count is
/// positive and comes with the multi-thread flavor, a paused clock comes
/// with the current-thread flavor.
pub open spec fn final_consistent(f: FinalState) -> bool {
    &&& (f.worker_threads matches Some(n) ==> n > 0 && f.flavor == RuntimeFlavor::Threaded)
    &&& (f.start_paused is Some ==> f.flavor == RuntimeFlavor::CurrentThread)
}

/// Checking a well-formed configuration gives a consistent one.
pub proof fn law_finalize_consistent(c: ConfigState)
    requires
        c.wf(),
        finalize(c) is Ok,
    ensures
        final_consistent(finalize(c)->Ok_0),
{
}

/// Whatever the arguments, a configuration the attribute accepts is consistent.
pub proof fn law_accepted_config_consistent(
    runtime: AsyncRuntime,
    args: Seq<AttrArgView>,
    rt_multi_thread: bool,
)
    requires
        config_outcome(runtime, args, rt_multi_thread) is Ok,
    ensures
        final_consistent(config_outcome(runtime, args, rt_multi_thread)->Ok_0),
{
    let init = initial_state(runtime, true, rt_multi_thread);
    law_args_keep_wf(init, args);
    law_finalize_consistent(apply_args(init, args)->Ok_0);
}

/// For tokio, the multi-thread flavor is refused, at the call site, when it
/// is not available.
pub proof fn law_multi_thread_needs_availability(c: ConfigState)
    requires
        c.runtime == AsyncRuntime::Tokio,
        crate::config::chosen_flavor(c) == RuntimeFlavor::Threaded,
        !c.rt_multi_thread_available,
    ensures
        finalize(c) == Err::<FinalState, MacroErrorView>(
            MacroErrorView {
                site: ErrorSite::CallSite,
                kind: ErrorKindView::MultiThreadUnavailable(c.flavor is None),
            },
        ),
{
}

/// For monoio, the flavor, the worker count and the paused clock are
/// accepted whatever their value and leave the configuration unchanged,
/// and checking a configuration never fails.
pub proof fn law_monoio_ignores_tokio_options(c: ConfigState, o: ConfigOption, lit: LitView, span: Span)
    requires
        c.runtime == AsyncRuntime::Monoio,
    ensures
        tokio_only(o) ==> apply_option(c, o, lit, span) == Ok::<ConfigState, MacroErrorView>(c),
        finalize(c) is Ok,
        finalize(c)->Ok_0.worker_threads is None,
        finalize(c)->Ok_0.start_paused is None,
{
}

/// For monoio the runtime expression does not depend on the flavor, the
/// worker count or the paused clock.
pub proof fn law_monoio_runtime_expression_fixed(a: FinalState, b: FinalState)
    requires
        a.runtime == AsyncRuntime::Monoio,
        b.runtime == AsyncRuntime::Monoio,
    ensures
        runtime_source(a) == runtime_source(b),
{
}

/// Argument names are compared without regard to case: two names with the
/// same lowercase form have the same effect.
pub proof fn law_names_ignore_case(
    c: ConfigState,
    a: Seq<char>,
    b: Seq<char>,
    lit: LitView,
    lit_span: Span,
    span: Span,
)
    requires
        name_lowercase(a) == name_lowercase(b),
    ensures
        arg_step(c, AttrArgView::NameValue { ident: Some(a), lit, lit_span, span }) == arg_step(
            c,
            AttrArgView::NameValue { ident: Some(b), lit, lit_span, span },
        ),
        arg_step(c, AttrArgView::Path { ident: Some(a), span }) == arg_step(
            c,
            AttrArgView::Path { ident: Some(b), span },
        ),
{
}

/// An option written by its own (lowercase) name is the option read.
pub proof fn law_option_names_select_options(
    c: ConfigState,
    o: ConfigOption,
    lit: LitView,
    lit_span: Span,
    span: Span,
)
    ensures
        arg_step(c, AttrArgView::NameValue { ident: Some(option_name(o)), lit, lit_span, span })
            == apply_option(c, o, lit, lit_span),
{
    reveal_strlit("flavor");
    reveal_strlit("worker_threads");
    reveal_strlit("start_paused");
    reveal_strlit("init");
    reveal_strlit("tracing_span");
    reveal_strlit("tracing_lib");
    let n = option_name(o);
    assert(is_ascii_text(n));
    assert(ascii_lowercase(n) =~= n);
    assert(name_lowercase(n) == n);
    assert(crate::error::option_named(n) == Some(o)) by {
        match o {
            ConfigOption::Flavor => {},
            ConfigOption::WorkerThreads => {
                assert(n.len() != "flavor"@.len());
            },
            ConfigOption::StartPaused => {
                assert(n.len() != "flavor"@.len());
                assert(n[0] != "worker_threads"@[0]);
            },
            ConfigOption::Init => {
                assert(n.len() != "flavor"@.len());
                assert(n.len() != "worker_threads"@.len());
                assert(n.len() != "start_paused"@.len());
            },
            ConfigOption::TracingSpan => {
                assert(n.len() != "flavor"@.len());
                assert(n.len() != "worker_threads"@.len());
                assert(n[0] != "start_paused"@[0]);
                assert(n.len() != "init"@.len());
            },
            ConfigOption::TracingLib => {
                assert(n.len() != "flavor"@.len());
                assert(n.len() != "worker_threads"@.len());
                assert(n.len() != "start_paused"@.len());
                assert(n.len() != "init"@.len());
                assert(n.len() != "tracing_span"@.len());
            },
        }
    }
}

/// The pieces of the runtime expression spell, one after another, the whole
/// expression.
pub proof fn law_runtime_pieces_spell_the_expression(f: FinalState)
    ensures
        joined_text(runtime_layout(f)) == runtime_source(f),
{
    let l = runtime_layout(f);
    if l.len() == 3 {
        assert(joined_text(l.drop_last().drop_last().drop_last()) == Seq::<char>::empty());
        assert(joined_text(l.drop_last().drop_last()) =~= crate::codegen::builder_prefix(f));
        assert(joined_text(l.drop_last()) =~= crate::codegen::builder_prefix(f)
            + crate::codegen::builder_ctor(f));
    } else {
        assert(joined_text(l.drop_last().drop_last()) == Seq::<char>::empty());
        assert(joined_text(l.drop_last()) =~= crate::codegen::builder_prefix(f));
    }
    assert(joined_text(l) =~= runtime_source(f));
}

/// Whether two names are both absent, or both present with the same lowercase form.
pub open spec fn same_name_up_to_case(x: Option<Seq<char>>, y: Option<Seq<char>>) -> bool {
    match (x, y) {
        (None, None) => true,
        (Some(p), Some(q)) => name_lowercase(p) == name_lowercase(q),
        _ => false,
    }
}

/// Whether two arguments differ at most in the case of their names.
pub open spec fn same_arg_up_to_case(a: AttrArgView, b: AttrArgView) -> bool {
    match (a, b) {
        (
            AttrArgView::NameValue { ident: ia, lit: la, lit_span: lsa, span: sa },
            AttrArgView::NameValue { ident: ib, lit: lb, lit_span: lsb, span: sb },
        ) => same_name_up_to_case(ia, ib) && la == lb && lsa == lsb && sa == sb,
        (AttrArgView::Path { ident: ia, span: sa }, AttrArgView::Path { ident: ib, span: sb }) =>
            same_name_up_to_case(ia, ib) && sa == sb,
        (AttrArgView::Other { span: sa }, AttrArgView::Other { span: sb }) => sa == sb,
        _ => false,
    }
}

/// Whether two argument lists differ at most in the case of their names.
pub open spec fn same_args_up_to_case(a: Seq<AttrArgView>, b: Seq<AttrArgView>) -> bool {
    &&& a.len() == b.len()
    &&& forall|i: int| 0 <= i < a.len() ==> same_arg_up_to_case(#[trigger] a[i], b[i])
}

proof fn lemma_step_ignores_case(c: ConfigState, a: AttrArgView, b: AttrArgView)
    requires
        same_arg_up_to_case(a, b),
    ensures
        arg_step(c, a) == arg_step(c, b),
{
}

/// Re-casing the names of the arguments changes nothing: argument lists
/// that differ only in the case of their names give the same configuration,
/// or the same error.
pub proof fn law_argument_lists_ignore_case(
    runtime: AsyncRuntime,
    a: Seq<AttrArgView>,
    b: Seq<AttrArgView>,
    rt_multi_thread: bool,
)
    requires
        same_args_up_to_case(a, b),
    ensures
        config_outcome(runtime, a, rt_multi_thread) == config_outcome(runtime, b, rt_multi_thread),
{
    lemma_args_ignore_case(initial_state(runtime, true, rt_multi_thread), a, b);
}

proof fn lemma_args_ignore_case(c: ConfigState, a: Seq<AttrArgView>, b: Seq<AttrArgView>)
    requires
        same_args_up_to_case(a, b),
    ensures
        apply_args(c, a) == apply_args(c, b),
    decreases a.len(),
{
    if a.len() > 0 {
        assert(same_args_up_to_case(a.drop_last(), b.drop_last()));
        lemma_args_ignore_case(c, a.drop_last(), b.drop_last());
        if let Ok(c1) = apply_args(c, a.drop_last()) {
            assert(same_arg_up_to_case(a[a.len() - 1], b[b.len() - 1]));
            lemma_step_ignores_case(c1, a.last(), b.last());
        }
    }
}

/// Whether an argument gives one of the options that only concern tokio.
pub open spec fn is_tokio_option_arg(a: AttrArgView) -> bool {
    match a {
        AttrArgView::NameValue { ident: Some(id), .. } => match option_named(name_lowercase(id)) {
            Some(o) => tokio_only(o),
            None => false,
        },
        _ => false,
    }
}

/// The arguments without those that give an option only concerning tokio.
pub open spec fn without_tokio_options(s: Seq<AttrArgView>) -> Seq<AttrArgView>
    decreases s.len(),
{
    if s.len() == 0 {
        s
    } else if is_tokio_option_arg(s.last()) {
        without_tokio_options(s.drop_last())
    } else {
        without_tokio_options(s.drop_last()).push(s.last())
    }
}

proof fn lemma_args_keep_runtime(c: ConfigState, s: Seq<AttrArgView>)
    requires
        apply_args(c, s) is Ok,
    ensures
        apply_args(c, s)->Ok_0.runtime == c.runtime,
    decreases s.len(),
{
    if s.len() > 0 {
        lemma_args_keep_runtime(c, s.drop_last());
    }
}

proof fn lemma_monoio_drops_tokio_options(c: ConfigState, s: Seq<AttrArgView>)
    requires
        c.runtime == AsyncRuntime::Monoio,
    ensures
        apply_args(c, s) == apply_args(c, without_tokio_options(s)),
    decreases s.len(),
{
    if s.len() > 0 {
        let rest = s.drop_last();
        lemma_monoio_drops_tokio_options(c, rest);
        if let Ok(c1) = apply_args(c, rest) {
            lemma_args_keep_runtime(c, rest);
        }
        if !is_tokio_option_arg(s.last()) {
            let w = without_tokio_options(rest).push(s.last());
            assert(w.drop_last() =~= without_tokio_options(rest));
        }
    }
}

/// For monoio, the arguments that give the flavor, the worker count or the
/// paused clock change nothing: argument lists that agree once those are
/// left out give the same configuration, or the same error.
pub proof fn law_monoio_argument_lists_ignore_tokio_options(
    a: Seq<AttrArgView>,
    b: Seq<AttrArgView>,
    rt_multi_thread: bool,
)
    requires
        without_tokio_options(a) == without_tokio_options(b),
    ensures
        config_outcome(AsyncRuntime::Monoio, a, rt_multi_thread) == config_outcome(
            AsyncRuntime::Monoio,
            b,
            rt_multi_thread,
        ),
{
    let c = initial_state(AsyncRuntime::Monoio, true, rt_multi_thread);
    lemma_monoio_drops_tokio_options(c, a);
    lemma_monoio_drops_tokio_options(c, b);
}

/// A decimal digit's text is that digit's single character.
proof fn lemma_digit_text(d: nat)
    requires
        d < 10,
    ensures
        digit_text(d).len() == 1,
        is_digit(digit_text(d)[0]),
        (digit_text(d)[0] as int) - ('0' as int) == d,
{
    reveal_strlit("0");
    reveal_strlit("1");
    reveal_strlit("2");
    reveal_strlit("3");
    reveal_strlit("4");
    reveal_strlit("5");
    reveal_strlit("6");
    reveal_strlit("7");
    reveal_strlit("8");
    reveal_strlit("9");
}

/// The decimal text of a number is made of decimal digits, denotes that
/// number, and has no leading zero.
pub proof fn law_decimal_text_denotes_its_number(n: nat)
    ensures
        all_digits(decimal_text(n)),
        decimal_text(n).len() > 0,
        digits_value(decimal_text(n)) == n,
        n > 0 ==> decimal_text(n)[0] != '0',
    decreases n,
{
    if n < 10 {
        lemma_digit_text(n);
        let s = decimal_text(n);
        assert(s.drop_last() =~= Seq::<char>::empty());
        assert(digits_value(s.drop_last()) == 0);
    } else {
        law_decimal_text_denotes_its_number(n / 10);
        lemma_digit_text(n % 10);
        let s = decimal_text(n);
        assert(s.drop_last() =~= decimal_text(n / 10));
        assert(s.last() == digit_text(n % 10)[0]);
        assert(s[0] == decimal_text(n / 10)[0]);
    }
}

/// For tokio, the runtime expression is: the builder of the chosen flavor,
/// then the worker count (when given) as a `usize` literal, then whether the
/// clock starts paused (when given) as the very boolean given, then the
/// call that builds the runtime.
pub proof fn law_tokio_runtime_expression(f: FinalState)
    requires
        f.runtime == AsyncRuntime::Tokio,
    ensures
        runtime_source(f) == (if f.flavor == RuntimeFlavor::CurrentThread {
            "tokio::runtime::Builder::new_current_thread()"@
        } else {
            "tokio::runtime::Builder::new_multi_thread()"@
        }) + (match f.worker_threads {
            Some(n) => ".worker_threads("@ + decimal_text(n as nat) + "usize)"@,
            None => Seq::<char>::empty(),
        }) + (match f.start_paused {
            Some(true) => ".start_paused(true)"@,
            Some(false) => ".start_paused(false)"@,
            None => Seq::<char>::empty(),
        }) + ".enable_all().build().expect(\"Failed building the Runtime\")"@,
{
    reveal_strlit("tokio::runtime::Builder::new_current_thread()");
    reveal_strlit("tokio::runtime::Builder::new_multi_thread()");
    reveal_strlit("tokio::runtime::Builder");
    reveal_strlit("::new_current_thread()");
    reveal_strlit("::new_multi_thread()");
    reveal_strlit(".start_paused(true)");
    reveal_strlit(".start_paused(false)");
    reveal_strlit(".start_paused(");
    reveal_strlit("true");
    reveal_strlit("false");
    reveal_strlit(")");
    reveal_strlit(".worker_threads(");
    reveal_strlit("usize)");
    reveal_strlit(".enable_all().build().expect(\"Failed building the Runtime\")");
    let start = if f.flavor == RuntimeFlavor::CurrentThread {
        "tokio::runtime::Builder::new_current_thread()"@
    } else {
        "tokio::runtime::Builder::new_multi_thread()"@
    };
    assert(crate::codegen::builder_prefix(f) + crate::codegen::builder_ctor(f) =~= start);
    let paused = match f.start_paused {
        Some(true) => ".start_paused(true)"@,
        Some(false) => ".start_paused(false)"@,
        None => Seq::<char>::empty(),
    };
    match f.start_paused {
        Some(b) => {
            assert(".start_paused("@ + crate::codegen::bool_text(b) + ")"@ =~= paused);
        },
        None => {},
    }
    assert(runtime_source(f) =~= start + (match f.worker_threads {
        Some(n) => ".worker_threads("@ + decimal_text(n as nat) + "usize)"@,
        None => Seq::<char>::empty(),
    }) + paused + ".enable_all().build().expect(\"Failed building the Runtime\")"@);
}

/// For monoio, the runtime expression is always monoio's builder with the
/// fusion driver, built with every driver enabled.
pub proof fn law_monoio_runtime_expression(f: FinalState)
    requires
        f.runtime == AsyncRuntime::Monoio,
    ensures
        runtime_source(f)
            == "monoio::RuntimeBuilder::<monoio::FusionDriver>::new().enable_all().build().expect(\"Failed building the Runtime\")"@,
{
    reveal_strlit("monoio::RuntimeBuilder::<monoio::FusionDriver>::new()");
    reveal_strlit(".enable_all().build().expect(\"Failed building the Runtime\")");
    reveal_strlit(
        "monoio::RuntimeBuilder::<monoio::FusionDriver>::new().enable_all().build().expect(\"Failed building the Runtime\")",
    );
    assert(runtime_source(f)
        =~= "monoio::RuntimeBuilder::<monoio::FusionDriver>::new().enable_all().build().expect(\"Failed building the Runtime\")"@);
}

/// For tokio, checking a configuration whose chosen flavor is the
/// current-thread one and that has no worker count succeeds, whether the
/// flavor was given or defaulted: it keeps the flavor, no worker count, the
/// paused clock as given, and the text options as given.
pub proof fn law_current_thread_accepts_paused_clock(c: ConfigState)
    requires
        c.runtime == AsyncRuntime::Tokio,
        chosen_flavor(c) == RuntimeFlavor::CurrentThread,
        c.worker_threads is None,
    ensures
        finalize(c) is Ok,
        finalize(c)->Ok_0.flavor == RuntimeFlavor::CurrentThread,
        finalize(c)->Ok_0.worker_threads is None,
        c.start_paused matches Some((b, _)) ==> finalize(c)->Ok_0.start_paused == Some(b),
        c.start_paused is None ==> finalize(c)->Ok_0.start_paused is None,
        finalize(c)->Ok_0.init == c.init,
        finalize(c)->Ok_0.tracing_span == c.tracing_span,
        finalize(c)->Ok_0.tracing_lib == c.tracing_lib,
{
}

/// For tokio, checking a configuration whose chosen flavor is the
/// multi-thread one, available and without a paused clock, succeeds with
/// that flavor and the worker count as given.
pub proof fn law_multi_thread_accepts_worker_count(c: ConfigState)
    requires
        c.runtime == AsyncRuntime::Tokio,
        chosen_flavor(c) == RuntimeFlavor::Threaded,
        c.rt_multi_thread_available,
        c.start_paused is None,
    ensures
        finalize(c) is Ok,
        finalize(c)->Ok_0.flavor == RuntimeFlavor::Threaded,
        c.worker_threads matches Some((n, _)) ==> finalize(c)->Ok_0.worker_threads == Some(n),
        c.worker_threads is None ==> finalize(c)->Ok_0.worker_threads is None,
        finalize(c)->Ok_0.start_paused is None,
{
}

/// For tokio, a paused clock with the multi-thread flavor is refused at the
/// paused clock's value, and a worker count with the current-thread flavor
/// at the worker count's value.
pub proof fn law_flavor_conflicts_are_refused(c: ConfigState)
    requires
        c.runtime == AsyncRuntime::Tokio,
    ensures
        chosen_flavor(c) == RuntimeFlavor::Threaded && c.rt_multi_thread_available
            && c.start_paused is Some ==> finalize(c) == Err::<FinalState, MacroErrorView>(
            error_at(
                c.start_paused->Some_0.1,
                ErrorKindView::StartPausedNeedsCurrentThread(c.runtime, c.is_test),
            ),
        ),
        chosen_flavor(c) == RuntimeFlavor::CurrentThread && c.worker_threads is Some ==> finalize(c)
            == Err::<FinalState, MacroErrorView>(
            error_at(
                c.worker_threads->Some_0.1,
                ErrorKindView::WorkerThreadsNeedMultiThread(c.runtime, c.is_test),
            ),
        ),
{
}

/// Giving an option changes only what that option is about: the flavor
/// changes only through `flavor` or `worker_threads`, the worker count only
/// through `worker_threads`, and each other option only through itself; the
/// runtime, the availability of threads, the default flavor and the kind of
/// entry never change.
pub proof fn law_option_changes_only_itself(c: ConfigState, o: ConfigOption, lit: LitView, span: Span)
    requires
        apply_option(c, o, lit, span) is Ok,
    ensures
        ({
            let c2 = apply_option(c, o, lit, span)->Ok_0;
            &&& c2.runtime == c.runtime
            &&& c2.rt_multi_thread_available == c.rt_multi_thread_available
            &&& c2.default_flavor == c.default_flavor
            &&& c2.is_test == c.is_test
            &&& (c2.flavor != c.flavor ==> o == ConfigOption::Flavor || o == ConfigOption::WorkerThreads)
            &&& (c2.worker_threads != c.worker_threads ==> o == ConfigOption::WorkerThreads)
            &&& (c2.start_paused != c.start_paused ==> o == ConfigOption::StartPaused)
            &&& (c2.init != c.init ==> o == ConfigOption::Init)
            &&& (c2.tracing_span != c.tracing_span ==> o == ConfigOption::TracingSpan)
            &&& (c2.tracing_lib != c.tracing_lib ==> o == ConfigOption::TracingLib)
        }),
{
}

/// For tokio, a boolean given to `start_paused` (not given before) is kept
/// as given, with its span; any other literal is refused at its span.
pub proof fn law_start_paused_keeps_its_value(c: ConfigState, lit: LitView, span: Span)
    requires
        c.runtime == AsyncRuntime::Tokio,
        c.start_paused is None,
    ensures
        lit matches LitView::Bool(b) ==> apply_option(c, ConfigOption::StartPaused, lit, span)
            == Ok::<ConfigState, MacroErrorView>(ConfigState { start_paused: Some((b, span)), ..c }),
        !(lit is Bool) ==> apply_option(c, ConfigOption::StartPaused, lit, span) == Err::<
            ConfigState,
            MacroErrorView,
        >(error_at(span, ErrorKindView::NotABool(ConfigOption::StartPaused))),
{
}

/// A string or verbatim literal given to `init`, `tracing_span` or
/// `tracing_lib` (not given before) is kept as written, with its span; any
/// other literal is refused at its span.
pub proof fn law_text_options_keep_their_value(c: ConfigState, o: ConfigOption, lit: LitView, span: Span)
    requires
        o == ConfigOption::Init || o == ConfigOption::TracingSpan || o == ConfigOption::TracingLib,
        !option_is_set(c, o),
    ensures
        ({
            let kept = match lit {
                LitView::Str(t) => Some(t),
                LitView::Verbatim(t) => Some(t),
                _ => None,
            };
            match kept {
                Some(t) => apply_option(c, o, lit, span) == Ok::<ConfigState, MacroErrorView>(
                    if o == ConfigOption::Init {
                        ConfigState { init: Some((t, span)), ..c }
                    } else if o == ConfigOption::TracingSpan {
                        ConfigState { tracing_span: Some((t, span)), ..c }
                    } else {
                        ConfigState { tracing_lib: Some((t, span)), ..c }
                    },
                ),
                None => apply_option(c, o, lit, span) == Err::<ConfigState, MacroErrorView>(
                    error_at(span, ErrorKindView::NotAString(o)),
                ),
            }
        }),
{
}

/// The flavor names: `current_thread` and `multi_thread`, and nothing else.
pub proof fn law_flavor_names(s: Seq<char>)
    ensures
        crate::runtime::flavor_named(s) == (if s == "current_thread"@ {
            Some(RuntimeFlavor::CurrentThread)
        } else if s == "multi_thread"@ {
            Some(RuntimeFlavor::Threaded)
        } else {
            None
        }),
        crate::runtime::flavor_named("current_thread"@) == Some(RuntimeFlavor::CurrentThread),
        crate::runtime::flavor_named("multi_thread"@) == Some(RuntimeFlavor::Threaded),
{
    reveal_strlit("current_thread");
    reveal_strlit("multi_thread");
    assert("current_thread"@ != "multi_thread"@) by {
        assert("current_thread"@.len() != "multi_thread"@.len());
    }
}

/// For tokio, once `start_paused` was given, `flavor` is not a second
/// flavor: giving the flavor afterwards does what it does on the
/// configuration before, with the paused clock kept.
pub proof fn law_start_paused_then_flavor(
    c: ConfigState,
    paused: LitView,
    paused_span: Span,
    flavor: LitView,
    flavor_span: Span,
)
    requires
        c.runtime == AsyncRuntime::Tokio,
        apply_option(c, ConfigOption::StartPaused, paused, paused_span) is Ok,
    ensures
        ({
            let c1 = apply_option(c, ConfigOption::StartPaused, paused, paused_span)->Ok_0;
            match apply_option(c, ConfigOption::Flavor, flavor, flavor_span) {
                Ok(c2) => apply_option(c1, ConfigOption::Flavor, flavor, flavor_span) == Ok::<
                    ConfigState,
                    MacroErrorView,
                >(ConfigState { start_paused: c1.start_paused, ..c2 }),
                Err(e) => apply_option(c1, ConfigOption::Flavor, flavor, flavor_span) == Err::<
                    ConfigState,
                    MacroErrorView,
                >(e),
            }
        }),
{
}

proof fn lemma_trimmed_all_space(s: Seq<char>)
    requires
        forall|i: int| 0 <= i < s.len() ==> is_rust_whitespace(#[trigger] s[i]),
    ensures
        trimmed_len(s) == 0,
    decreases s.len(),
{
    if s.len() > 0 {
        assert(is_rust_whitespace(s[s.len() - 1]));
        assert forall|i: int| 0 <= i < s.drop_last().len() implies is_rust_whitespace(
            #[trigger] s.drop_last()[i],
        ) by {
            assert(s.drop_last()[i] == s[i]);
        }
        lemma_trimmed_all_space(s.drop_last());
    }
}

proof fn lemma_trimmed_at(s: Seq<char>, j: int)
    requires
        0 <= j < s.len(),
        !is_rust_whitespace(s[j]),
        forall|i: int| j < i < s.len() ==> is_rust_whitespace(#[trigger] s[i]),
    ensures
        trimmed_len(s) == j + 1,
    decreases s.len(),
{
    if j < s.len() - 1 {
        assert(is_rust_whitespace(s[s.len() - 1]));
        assert forall|i: int| j < i < s.drop_last().len() implies is_rust_whitespace(
            #[trigger] s.drop_last()[i],
        ) by {
            assert(s.drop_last()[i] == s[i]);
        }
        lemma_trimmed_at(s.drop_last(), j);
    }
}

/// The path of `tracing` is the prefix as written followed by `tracing`,
/// joined by `::` exactly when the prefix, trailing white space aside, is
/// not empty and does not already end in `::`.
pub proof fn law_tracing_path_shape(lib: Seq<char>)
    ensures
        tracing_path(lib).take(lib.len() as int) == lib,
        (forall|i: int| 0 <= i < lib.len() ==> is_rust_whitespace(#[trigger] lib[i]))
            ==> tracing_path(lib) == lib + "tracing"@,
        forall|j: int|
            1 <= j < lib.len() && lib[j - 1] == ':' && #[trigger] lib[j] == ':' && (forall|i: int|
                j < i < lib.len() ==> is_rust_whitespace(#[trigger] lib[i])) ==> tracing_path(lib)
                == lib + "tracing"@,
        forall|j: int|
            0 <= j < lib.len() && !is_rust_whitespace(#[trigger] lib[j]) && !(j >= 1 && lib[j - 1]
                == ':' && lib[j] == ':') && (forall|i: int|
                j < i < lib.len() ==> is_rust_whitespace(#[trigger] lib[i])) ==> tracing_path(lib)
                == lib + "::tracing"@,
{
    assert((lib + "tracing"@).take(lib.len() as int) =~= lib);
    assert((lib + "::tracing"@).take(lib.len() as int) =~= lib);
    if forall|i: int| 0 <= i < lib.len() ==> is_rust_whitespace(#[trigger] lib[i]) {
        lemma_trimmed_all_space(lib);
    }
    assert forall|j: int|
        1 <= j < lib.len() && lib[j - 1] == ':' && #[trigger] lib[j] == ':' && (forall|i: int|
            j < i < lib.len() ==> is_rust_whitespace(#[trigger] lib[i])) implies tracing_path(lib)
        == lib + "tracing"@ by {
        lemma_trimmed_at(lib, j);
    }
    assert forall|j: int|
        0 <= j < lib.len() && !is_rust_whitespace(#[trigger] lib[j]) && !(j >= 1 && lib[j - 1] == ':'
            && lib[j] == ':') && (forall|i: int|
            j < i < lib.len() ==> is_rust_whitespace(#[trigger] lib[i])) implies tracing_path(lib)
        == lib + "::tracing"@ by {
        lemma_trimmed_at(lib, j);
    }
}

/// The tracing statements import `Instrument` and call the span macro of
/// the given level through one and the same path to `tracing`, name the
/// span after the function, and instrument `body` with it.
pub proof fn law_tracing_statements_use_one_path(lib: Seq<char>, level: Seq<char>, fn_name: Seq<char>)
    ensures
        tracing_source(lib, level, fn_name) == "\n            use "@ + tracing_path(lib)
            + "::Instrument;\n            let body_span = "@ + tracing_path(lib) + "::"@ + level
            + "_span!(\""@ + fn_name + "\");\n            let body = body.instrument(body_span);\n        "@,
{
}

/// The `init` statement binds the value of the `init` expression, as
/// written, to `_g`, so that it is held until the test ends.
pub proof fn law_init_statement_binds_guard(t: Seq<char>)
    ensures
        init_statement(t) == "let _g = "@ + t + ";"@,
        init_statement(t).take(9) == "let _g = "@,
        init_statement(t).subrange(9, 9 + t.len() as int) == t,
{
    reveal_strlit("let _g = ");
    assert(("let _g = "@ + t + ";"@).take(9) =~= "let _g = "@);
    assert(("let _g = "@ + t + ";"@).subrange(9, 9 + t.len() as int) =~= t);
}

/// The call that runs the body is returned exactly when the body ends in
/// `return ...;`, and followed by `;` exactly when the body ends in
/// `return ...;`, or ends in a statement (or is empty) in a function that
/// returns the unit type.
pub proof fn law_tail_call(last: LastStmt, output: ReturnKind)
    ensures
        tail_source(last, output) == "#[allow(clippy::expect_used)] "@ + (if last
            == LastStmt::ReturnSemi {
            "return "@
        } else {
            Seq::<char>::empty()
        }) + "rt.block_on(body)"@ + (if last == LastStmt::ReturnSemi || ((last == LastStmt::Semi
            || last == LastStmt::Local || last == LastStmt::Missing) && (output == ReturnKind::Default
            || output == ReturnKind::Tuple(0))) {
            " ;"@
        } else {
            Seq::<char>::empty()
        }),
{
}

/// The new body holds, in this order: the statement binding the `init`
/// value to `_g` (when given); the original body as an `async` block bound
/// to `body`; the tracing statements (when a level is given); the runtime
/// bound to `rt`; and the call that blocks on `body`.
pub proof fn law_block_order(fn_name: Seq<char>, f: FinalState, last: LastStmt, output: ReturnKind)
    ensures
        block_layout(fn_name, f, last, output) == (match f.init {
            Some((t, _)) => seq![code("let _g = "@ + t + ";"@, PieceSpan::CallSite)],
            None => Seq::<PieceView>::empty(),
        }) + seq![
            code("let body = async"@, PieceSpan::LastStmtEnd),
            PieceView::OriginalBody,
            code(";"@, PieceSpan::LastStmtEnd),
        ] + (match f.tracing_span {
            Some((level, _)) => seq![
                code(
                    tracing_source(
                        match f.tracing_lib {
                            Some((l, _)) => l,
                            None => Seq::<char>::empty(),
                        },
                        level,
                        fn_name,
                    ),
                    PieceSpan::CallSite,
                ),
            ],
            None => Seq::<PieceView>::empty(),
        }) + seq![code("#[allow(unused_mut)] let mut rt ="@, PieceSpan::LastStmtEnd)]
            + runtime_layout(f) + seq![
            code(";"@, PieceSpan::LastStmtEnd),
            code(tail_source(last, output), PieceSpan::LastStmtEnd),
        ],
{
}

/// Each option is written with its own name, and a name selects the option
/// written with it, and only that one.
pub proof fn law_option_names(o: ConfigOption, s: Seq<char>)
    ensures
        option_name(o) == (match o {
                ConfigOption::Flavor => "flavor"@,
                ConfigOption::WorkerThreads => "worker_threads"@,
                ConfigOption::StartPaused => "start_paused"@,
                ConfigOption::Init => "init"@,
                ConfigOption::TracingSpan => "tracing_span"@,
                ConfigOption::TracingLib => "tracing_lib"@,
            }),
        option_named(s) == Some(o) <==> s == option_name(o),
{
    reveal_strlit("flavor");
    reveal_strlit("worker_threads");
    reveal_strlit("start_paused");
    reveal_strlit("init");
    reveal_strlit("tracing_span");
    reveal_strlit("tracing_lib");
    if s == option_name(o) {
        law_option_names_select_options_named(o);
    }
}

proof fn law_option_names_select_options_named(o: ConfigOption)
    ensures
        option_named(option_name(o)) == Some(o),
{
    reveal_strlit("flavor");
    reveal_strlit("worker_threads");
    reveal_strlit("start_paused");
    reveal_strlit("init");
    reveal_strlit("tracing_span");
    reveal_strlit("tracing_lib");
    let n = option_name(o);
    match o {
        ConfigOption::Flavor => {},
        ConfigOption::WorkerThreads => {
            assert(n.len() != "flavor"@.len());
        },
        ConfigOption::StartPaused => {
            assert(n.len() != "flavor"@.len());
            assert(n[0] != "worker_threads"@[0]);
        },
        ConfigOption::Init => {
            assert(n.len() != "flavor"@.len());
            assert(n.len() != "worker_threads"@.len());
            assert(n.len() != "start_paused"@.len());
        },
        ConfigOption::TracingSpan => {
            assert(n.len() != "flavor"@.len());
            assert(n.len() != "worker_threads"@.len());
            assert(n[0] != "start_paused"@[0]);
            assert(n.len() != "init"@.len());
        },
        ConfigOption::TracingLib => {
            assert(n.len() != "flavor"@.len());
            assert(n.len() != "worker_threads"@.len());
            assert(n.len() != "start_paused"@.len());
            assert(n.len() != "init"@.len());
            assert(n.len() != "tracing_span"@.len());
        },
    }
}

/// The name of the attribute named in hints: the runtime's `test` for a
/// test, its `main` otherwise.
pub proof fn law_macro_names(r: AsyncRuntime, t: bool)
    ensures
        macro_name_text(r, t) == (match (r, t) {
                (AsyncRuntime::Tokio, true) => "tokio::test"@,
                (AsyncRuntime::Monoio, true) => "monoio::test"@,
                (AsyncRuntime::Tokio, false) => "tokio::main"@,
                (AsyncRuntime::Monoio, false) => "monoio::main"@,
            }),
{
}

/// The message of each error.
pub proof fn law_error_messages(k: ErrorKindView)
    ensures
        message_text(k) == match k {
            ErrorKindView::DuplicateOption(o) => "`"@ + (match o {
                ConfigOption::Flavor => "flavor"@,
                ConfigOption::WorkerThreads => "worker_threads"@,
                ConfigOption::StartPaused => "start_paused"@,
                ConfigOption::Init => "init"@,
                ConfigOption::TracingSpan => "tracing_span"@,
                ConfigOption::TracingLib => "tracing_lib"@,
            }) + "` set multiple times."@,
            ErrorKindView::InvalidFlavor(s) => "No such runtime flavor `"@ + s
                + "`. The runtime flavors are `current_thread` and `multi_thread`."@,
            ErrorKindView::NotAnInteger(o) => "Failed to parse value of `"@ + (match o {
                ConfigOption::Flavor => "flavor"@,
                ConfigOption::WorkerThreads => "worker_threads"@,
                ConfigOption::StartPaused => "start_paused"@,
                ConfigOption::Init => "init"@,
                ConfigOption::TracingSpan => "tracing_span"@,
                ConfigOption::TracingLib => "tracing_lib"@,
            }) + "` as integer."@,
            ErrorKindView::IntegerParse(o, e) => "Failed to parse value of `"@ + (match o {
                ConfigOption::Flavor => "flavor"@,
                ConfigOption::WorkerThreads => "worker_threads"@,
                ConfigOption::StartPaused => "start_paused"@,
                ConfigOption::Init => "init"@,
                ConfigOption::TracingSpan => "tracing_span"@,
                ConfigOption::TracingLib => "tracing_lib"@,
            }) + "` as integer: "@ + e,
            ErrorKindView::NotAString(o) => "Failed to parse value of `"@ + (match o {
                ConfigOption::Flavor => "flavor"@,
                ConfigOption::WorkerThreads => "worker_threads"@,
                ConfigOption::StartPaused => "start_paused"@,
                ConfigOption::Init => "init"@,
                ConfigOption::TracingSpan => "tracing_span"@,
                ConfigOption::TracingLib => "tracing_lib"@,
            }) + "` as string."@,
            ErrorKindView::NotABool(o) => "Failed to parse value of `"@ + (match o {
                ConfigOption::Flavor => "flavor"@,
                ConfigOption::WorkerThreads => "worker_threads"@,
                ConfigOption::StartPaused => "start_paused"@,
                ConfigOption::Init => "init"@,
                ConfigOption::TracingSpan => "tracing_span"@,
                ConfigOption::TracingLib => "tracing_lib"@,
            }) + "` as bool."@,
            ErrorKindView::WorkerThreadsNeedMultiThread(r, t) =>
                "The `worker_threads` option requires the `multi_thread` runtime flavor. Use `#["@
                    + (match (r, t) {
                (AsyncRuntime::Tokio, true) => "tokio::test"@,
                (AsyncRuntime::Monoio, true) => "monoio::test"@,
                (AsyncRuntime::Tokio, false) => "tokio::main"@,
                (AsyncRuntime::Monoio, false) => "monoio::main"@,
            }) + "(flavor = \"multi_thread\")]`"@,
            ErrorKindView::MultiThreadUnavailable(defaulted) => if defaulted {
                "The default runtime flavor is `multi_thread`, but the `rt-multi-thread` feature is disabled."@
            } else {
                "The runtime flavor `multi_thread` requires the `rt-multi-thread` feature."@
            },
            ErrorKindView::StartPausedNeedsCurrentThread(r, t) =>
                "The `start_paused` option requires the `current_thread` runtime flavor. Use `#["@
                    + (match (r, t) {
                (AsyncRuntime::Tokio, true) => "tokio::test"@,
                (AsyncRuntime::Monoio, true) => "monoio::test"@,
                (AsyncRuntime::Tokio, false) => "tokio::main"@,
                (AsyncRuntime::Monoio, false) => "monoio::main"@,
            }) + "(flavor = \"current_thread\")]`"@,
            ErrorKindView::MissingIdent => "Must have specified ident"@,
            ErrorKindView::UnknownNamedAttribute(n) => "Unknown attribute "@ + n
                + " is specified; expected one of: `flavor`, `worker_threads`, `start_paused`, `init`, `tracing_span`"@,
            ErrorKindView::FlavorAsFlag(r, t, f) => "Set the runtime flavor with #["@ + (match (r, t) {
                (AsyncRuntime::Tokio, true) => "tokio::test"@,
                (AsyncRuntime::Monoio, true) => "monoio::test"@,
                (AsyncRuntime::Tokio, false) => "tokio::main"@,
                (AsyncRuntime::Monoio, false) => "monoio::main"@,
            })
                + "(flavor = \""@ + (match f {
                RuntimeFlavor::CurrentThread => "current_thread"@,
                RuntimeFlavor::Threaded => "multi_thread"@,
            }) + "\")]."@,
            ErrorKindView::MissingArgument(o) => match o {
                ConfigOption::Init => "The `init` attribute requires an argument in string of the initializing statement to run."@,
                ConfigOption::TracingSpan => "The `tracing_span` attribute requires an argument of level of the span, e.g. `debug` or `info`."@,
                ConfigOption::TracingLib => "The `tracing_lib` attribute requires an argument of level of the span, e.g. \"my_lib::\" or \"::\" or \"\"."@,
                _ => "The `"@ + (match o {
                ConfigOption::Flavor => "flavor"@,
                ConfigOption::WorkerThreads => "worker_threads"@,
                ConfigOption::StartPaused => "start_paused"@,
                ConfigOption::Init => "init"@,
                ConfigOption::TracingSpan => "tracing_span"@,
                ConfigOption::TracingLib => "tracing_lib"@,
            }) + "` attribute requires an argument."@,
            },
            ErrorKindView::UnknownPathAttribute(n) => "Unknown attribute "@ + n
                + " is specified; expected one of: `flavor`, `worker_threads`, `start_paused`, `init`, `tracing_span`, `tracing_lib`"@,
            ErrorKindView::UnknownArgument => "Unknown attribute inside the macro"@,
            ErrorKindView::MissingAsync => "the `async` keyword is missing from the function declaration"@,
            ErrorKindView::DuplicateTestAttribute => "dup test"@,
            ErrorKindView::Lex(s) => s,
            ErrorKindView::Parse(s) => s,
        },
{
}

/// A name given alone: a flavor name gets a hint on how to set the flavor,
/// an option name is told that it needs a value, and any other name is
/// unknown.
pub proof fn law_bare_names(c: ConfigState, name: Seq<char>)
    ensures
        path_error(c, name) == (if name == "threaded_scheduler"@ || name == "multi_thread"@ {
            ErrorKindView::FlavorAsFlag(c.runtime, c.is_test, RuntimeFlavor::Threaded)
        } else if name == "basic_scheduler"@ || name == "current_thread"@ || name == "single_threaded"@ {
            ErrorKindView::FlavorAsFlag(c.runtime, c.is_test, RuntimeFlavor::CurrentThread)
        } else if name == "flavor"@ {
            ErrorKindView::MissingArgument(ConfigOption::Flavor)
        } else if name == "worker_threads"@ {
            ErrorKindView::MissingArgument(ConfigOption::WorkerThreads)
        } else if name == "start_paused"@ {
            ErrorKindView::MissingArgument(ConfigOption::StartPaused)
        } else if name == "init"@ {
            ErrorKindView::MissingArgument(ConfigOption::Init)
        } else if name == "tracing_span"@ {
            ErrorKindView::MissingArgument(ConfigOption::TracingSpan)
        } else if name == "tracing_lib"@ {
            ErrorKindView::MissingArgument(ConfigOption::TracingLib)
        } else {
            ErrorKindView::UnknownPathAttribute(name)
        }),
{
}

/// An integer literal of decimal digits gives its value when that fits in
/// a `usize`; a literal that is not an integer is refused at its span.
pub proof fn law_integer_literals(lit: LitView, span: Span, field: ConfigOption)
    ensures
        lit matches LitView::Int(d) ==> (all_digits(d) && d.len() > 0 && digits_value(d)
            <= usize::MAX ==> int_value(lit, span, field) == Ok::<usize, MacroErrorView>(
            digits_value(d) as usize,
        )),
        !(lit is Int) ==> int_value(lit, span, field) == Err::<usize, MacroErrorView>(
            error_at(span, ErrorKindView::NotAnInteger(field)),
        ),
{
}

/// The pieces of the runtime expression and their spans: for tokio, the
/// builder's path at the call site, the flavor call at the start of the last
/// statement, the options and the build at the call site; for monoio, the
/// builder and the build, both at the call site.
pub proof fn law_runtime_pieces(f: FinalState)
    ensures
        f.runtime == AsyncRuntime::Tokio ==> runtime_layout(f) == seq![
            code("tokio::runtime::Builder"@, PieceSpan::CallSite),
            code(
                if f.flavor == RuntimeFlavor::CurrentThread {
                    "::new_current_thread()"@
                } else {
                    "::new_multi_thread()"@
                },
                PieceSpan::LastStmtStart,
            ),
            code(
                runtime_source(f).skip("tokio::runtime::Builder"@.len() as int + (if f.flavor
                    == RuntimeFlavor::CurrentThread {
                    "::new_current_thread()"@
                } else {
                    "::new_multi_thread()"@
                }).len()),
                PieceSpan::CallSite,
            ),
        ],
        f.runtime == AsyncRuntime::Monoio ==> runtime_layout(f) == seq![
            code("monoio::RuntimeBuilder::<monoio::FusionDriver>::new()"@, PieceSpan::CallSite),
            code(".enable_all().build().expect(\"Failed building the Runtime\")"@, PieceSpan::CallSite),
        ],
        crate::item::test_attr_source() == "#[::core::prelude::v1::test]"@,
{
    if f.runtime == AsyncRuntime::Tokio {
        let ctor = crate::codegen::builder_ctor(f);
        let p = crate::codegen::builder_prefix(f);
        assert(runtime_source(f).skip((p.len() + ctor.len()) as int) =~= crate::codegen::builder_options(f)
            + crate::codegen::builder_finish());
    } else {
        assert(crate::codegen::builder_options(f) + crate::codegen::builder_finish()
            =~= ".enable_all().build().expect(\"Failed building the Runtime\")"@);
    }
}

/// For tokio, `flavor` (not given before) takes `current_thread` or
/// `multi_thread` from a string literal and keeps it; another name is
/// refused as no flavor, and a literal that is not a string as no string,
/// both at the value's span.
pub proof fn law_flavor_option(c: ConfigState, lit: LitView, span: Span)
    requires
        c.runtime == AsyncRuntime::Tokio,
        c.flavor is None,
    ensures
        ({
            let given = match lit {
                LitView::Str(t) => Some(t),
                LitView::Verbatim(t) => Some(t),
                _ => None,
            };
            let r = apply_option(c, ConfigOption::Flavor, lit, span);
            match given {
                Some(t) => if t == "current_thread"@ {
                    r == Ok::<ConfigState, MacroErrorView>(
                        ConfigState { flavor: Some(RuntimeFlavor::CurrentThread), ..c },
                    )
                } else if t == "multi_thread"@ {
                    r == Ok::<ConfigState, MacroErrorView>(
                        ConfigState { flavor: Some(RuntimeFlavor::Threaded), ..c },
                    )
                } else {
                    r == Err::<ConfigState, MacroErrorView>(
                        error_at(span, ErrorKindView::InvalidFlavor(t)),
                    )
                },
                None => r == Err::<ConfigState, MacroErrorView>(
                    error_at(span, ErrorKindView::NotAString(ConfigOption::Flavor)),
                ),
            }
        }),
{
    match lit {
        LitView::Str(t) => law_flavor_names(t),
        LitView::Verbatim(t) => law_flavor_names(t),
        _ => {},
    }
}

} // verus!
