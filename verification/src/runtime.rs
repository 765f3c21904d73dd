//! Runtime selection and runtime flavors.

use vstd::prelude::*;
use vstd::string::*;

verus! {

/// The async runtime whose builder the generated code calls.
#[derive(Clone, Copy, Debug, PartialEq, Eq, Structural)]
pub enum AsyncRuntime {
    Tokio,
    Monoio,
}

/// The scheduler flavor of a tokio runtime.
#[derive(Clone, Copy, Debug, PartialEq, Eq, Structural)]
pub enum RuntimeFlavor {
    CurrentThread,
    Threaded,
}

/// The runtime this build of the crate generates code for.
/// No runtime feature is enabled here, so the default, tokio, applies.
pub open spec fn selected_runtime() -> AsyncRuntime {
    AsyncRuntime::Tokio
}

/// The name of a runtime, as it appears in generated paths.
pub open spec fn runtime_name(rt: AsyncRuntime) -> Seq<char> {
    match rt {
        AsyncRuntime::Tokio => "tokio"@,
        AsyncRuntime::Monoio => "monoio"@,
    }
}

/// The runtime that generated code targets.
pub fn get_runtime() -> (rt: AsyncRuntime)
    ensures
        rt == selected_runtime(),
{
    AsyncRuntime::Tokio
}

impl AsyncRuntime {
    /// The name of this runtime.
    pub fn name(self) -> (s: &'static str)
        ensures
            s@ == runtime_name(self),
    {
        match self {
            AsyncRuntime::Tokio => "tokio",
            AsyncRuntime::Monoio => "monoio",
        }
    }
}

/// The name of the runtime that generated code targets.
pub fn get_runtime_name() -> (s: &'static str)
    ensures
        s@ == runtime_name(selected_runtime()),
        s@ == "tokio"@,
{
    get_runtime().name()
}

/// The message given for a flavor name that is not known.
pub open spec fn unknown_flavor_message(s: Seq<char>) -> Seq<char> {
    "No such runtime flavor `"@ + s
        + "`. The runtime flavors are `current_thread` and `multi_thread`."@
}

/// The flavor a name denotes, if any.
pub open spec fn flavor_named(s: Seq<char>) -> Option<RuntimeFlavor> {
    if s == "current_thread"@ {
        Some(RuntimeFlavor::CurrentThread)
    } else if s == "multi_thread"@ {
        Some(RuntimeFlavor::Threaded)
    } else {
        None
    }
}

/// Whether two strings hold the same characters.
pub fn same_text(a: &str, b: &str) -> (r: bool)
    ensures
        r == (a@ == b@),
{
    String::from_str(a) == String::from_str(b)
}

impl RuntimeFlavor {
    /// Reads a flavor from its name: `current_thread` or `multi_thread`.
    pub fn from_str(s: &str) -> (r: Result<RuntimeFlavor, String>)
        ensures
            r matches Ok(f) ==> flavor_named(s@) == Some(f),
            r matches Err(m) ==> flavor_named(s@) is None && m@ == unknown_flavor_message(s@),
            flavor_named(s@) is Some ==> r is Ok,
    {
        if same_text(s, "current_thread") {
            Ok(RuntimeFlavor::CurrentThread)
        } else if same_text(s, "multi_thread") {
            Ok(RuntimeFlavor::Threaded)
        } else {
            let m = String::from_str("No such runtime flavor `").concat(s).concat(
                "`. The runtime flavors are `current_thread` and `multi_thread`.",
            );
            Err(m)
        }
    }
}

} // verus!
