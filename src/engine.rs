//! Argument planning and program replacement for the sandboxed program
//! engine. The engine itself compiles and runs programs; this module decides
//! which positional arguments a JSON argument text makes, which values can
//! cross into the sandbox, and which program a load leaves active.
use vstd::prelude::*;

verus! {

/// Most positional arguments a dynamic invocation passes.
pub const MAX_ARGS: usize = 8;

/// A JSON value as the engine reads it when it passes arguments.
pub enum JsonArg {
    Null,
    Bool(bool),
    /// A number that fits an `i64`.
    Int(i64),
    /// Any other number, carried as the bits of its IEEE-754 double.
    Float(u64),
    Str(String),
    Array(Vec<JsonArg>),
    /// An object; the sandbox takes no objects, so its members are not kept.
    Object,
}

/// Whether a JSON value can cross into the sandbox: anything but an object,
/// at any depth of nested arrays.
pub open spec fn convertible(v: JsonArg) -> bool
    decreases v,
{
    match v {
        JsonArg::Object => false,
        JsonArg::Array(items) => forall|i: int|
            0 <= i < items.len() ==> convertible(#[trigger] items[i]),
        _ => true,
    }
}

/// Why a dynamic invocation was refused before the call.
#[derive(PartialEq, Eq, Structural)]
pub enum ArgError {
    /// A JSON object stands among the arguments.
    ObjectNotSupported,
    /// More than `MAX_ARGS` positional arguments.
    TooManyArguments,
}

fn check_convertible(v: &JsonArg) -> (r: bool)
    ensures
        r == convertible(*v),
    decreases v,
{
    match v {
        JsonArg::Object => false,
        JsonArg::Array(items) => {
            let mut i: usize = 0;
            while i < items.len()
                invariant
                    i <= items@.len(),
                    *v == JsonArg::Array(*items),
                    forall|j: int| 0 <= j < i ==> convertible(#[trigger] items[j]),
                decreases items@.len() - i,
            {
                proof {
                    assert(decreases_to!(*v => (*v)->Array_0));
                }
                if !check_convertible(&items[i]) {
                    return false;
                }
                i = i + 1;
            }
            true
        },
        _ => true,
    }
}

/// The positional arguments that a JSON argument value stands for: the
/// elements of an array, or the value itself otherwise.
pub open spec fn positional(v: JsonArg) -> Seq<JsonArg> {
    match v {
        JsonArg::Array(items) => items@,
        _ => seq![v],
    }
}

/// The arguments of a dynamic invocation. An array gives one argument per
/// element, any other value one argument. Objects, at any depth, are
/// refused first; then more than `MAX_ARGS` arguments are refused.
pub fn positional_args(json: JsonArg) -> (r: Result<Vec<JsonArg>, ArgError>)
    ensures
        !convertible(json) ==> r == Err::<Vec<JsonArg>, ArgError>(ArgError::ObjectNotSupported),
        convertible(json) && positional(json).len() > MAX_ARGS ==> r == Err::<Vec<JsonArg>, ArgError>(
            ArgError::TooManyArguments,
        ),
        convertible(json) && positional(json).len() <= MAX_ARGS ==> (r matches Ok(args) && args@
            == positional(json)),
{
    if !check_convertible(&json) {
        return Err(ArgError::ObjectNotSupported);
    }
    let args = match json {
        JsonArg::Array(items) => items,
        other => vec![other],
    };
    if args.len() > MAX_ARGS {
        Err(ArgError::TooManyArguments)
    } else {
        Ok(args)
    }
}

/// A single JSON value that is neither an array nor an object is passed as
/// one argument.
pub proof fn single_value_is_one_argument(v: JsonArg)
    requires
        !(v is Array),
        !(v is Object),
    ensures
        convertible(v),
        positional(v) == seq![v],
        positional(v).len() <= MAX_ARGS,
{
}

/// The slot of the loaded program: empty until the first successful load,
/// and afterwards the most recently loaded program.
pub struct ProgramSlot<P> {
    program: Option<P>,
}

/// The answer to a load request.
pub struct LoadReply {
    pub success: bool,
    /// The compiler's diagnostic text when the load failed, empty otherwise.
    pub diagnostic: String,
}

/// The program left active by a load whose compilation gave `compiled`.
pub open spec fn after_load<P>(current: Option<P>, compiled: Result<P, String>) -> Option<P> {
    match compiled {
        Ok(p) => Some(p),
        Err(_) => current,
    }
}

/// A successful load replaces whatever program was active; a failed load
/// after it leaves that program active.
pub proof fn program_replace<P>(current: Option<P>, first: P, second: P, diagnostic: String)
    ensures
        after_load(after_load(current, Ok::<P, String>(first)), Ok::<P, String>(second)) == Some(second),
        after_load(after_load(current, Ok::<P, String>(first)), Err::<P, String>(diagnostic)) == Some(first),
{
}

impl<P> ProgramSlot<P> {
    pub closed spec fn view(&self) -> Option<P> {
        self.program
    }

    pub fn new() -> (r: ProgramSlot<P>)
        ensures
            r.view() is None,
    {
        ProgramSlot { program: None }
    }

    /// Installs a compiled program, or keeps the active one when the
    /// compilation failed, and answers the load request.
    pub fn load(&mut self, compiled: Result<P, String>) -> (r: LoadReply)
        ensures
            final(self).view() == after_load(old(self).view(), compiled),
            r.success == compiled is Ok,
            match compiled {
                Ok(_) => r.diagnostic@ == Seq::<char>::empty(),
                Err(d) => r.diagnostic@ == d@,
            },
    {
        match compiled {
            Ok(p) => {
                self.program = Some(p);
                LoadReply { success: true, diagnostic: String::new() }
            },
            Err(d) => LoadReply { success: false, diagnostic: d },
        }
    }

    /// The active program, if any.
    pub fn program(&self) -> (r: Option<&P>)
        ensures
            match self.view() {
                Some(p) => r matches Some(q) && *q == p,
                None => r is None,
            },
    {
        match &self.program {
            Some(p) => Some(p),
            None => None,
        }
    }
}

} // verus!
