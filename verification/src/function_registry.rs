//! The registry: functions stored under names, and called by name.

use crate::callable::{accepts_all, CallableEntry};
use crate::error::{CallError, CallErrorView};
use core::fmt::Display;
use vstd::hash_map::StringHashMap;
use vstd::prelude::*;

verus! {

/// A table from names to functions.
///
/// A name holds one function at most: registering under a name that is
/// taken replaces what was there. The view is the table itself, a map from
/// the name's text to the entry stored under it.
pub struct FunctionRegistry {
    functions: StringHashMap<CallableEntry>,
}

impl View for FunctionRegistry {
    type V = Map<Seq<char>, CallableEntry>;

    closed spec fn view(&self) -> Map<Seq<char>, CallableEntry> {
        self.functions@
    }
}

/// The message of the error for a name that holds no function.
pub open spec fn not_found_message(name: Seq<char>) -> Seq<char> {
    "Function "@ + name + " not found in registry"@
}

/// Whether calling `name` on `args` in the table `functions` may come back
/// with `out`: under a name that holds an entry, `out` is a result of that
/// entry; under any other name, `out` is the error that names the missing
/// function.
pub open spec fn call_outcome(
    functions: Map<Seq<char>, CallableEntry>,
    name: Seq<char>,
    args: &[String],
    out: Result<String, CallError>,
) -> bool {
    if functions.contains_key(name) {
        functions[name].yields(args, out)
    } else {
        out matches Err(error) && error@ == CallErrorView::InvalidArguments(
            not_found_message(name),
        )
    }
}

impl FunctionRegistry {
    /// A registry that holds no function.
    pub fn new() -> (registry: Self)
        ensures
            registry@ == Map::<Seq<char>, CallableEntry>::empty(),
    {
        FunctionRegistry { functions: StringHashMap::new() }
    }

    /// Stores `func` with its signature under `name`.
    ///
    /// Any name is taken, the empty one too. What was stored under `name`
    /// before is gone; every other name keeps its entry.
    pub fn register<FunctionType, ReturnType>(
        &mut self,
        name: String,
        func: FunctionType,
        signature: String,
    ) where
        FunctionType: Fn(&[String]) -> Result<ReturnType, CallError> + Send + Sync + 'static,
        ReturnType: Display + 'static,

        requires
            accepts_all(func),
        ensures
            final(self)@.contains_key(name@),
            final(self)@ == old(self)@.insert(name@, final(self)@[name@]),
            final(self)@[name@].wraps(func, signature@),
    {
        let entry = CallableEntry::new(func, signature);
        self.functions.insert(name, entry);
    }

    /// Calls the function stored under `name` on `args`.
    ///
    /// Where `name` holds a function, the answer is that function's, text
    /// or error, as it is. Where it holds none, the answer is
    /// `InvalidArguments` with a message that names the function. The
    /// registry stays as it was.
    pub fn call(&mut self, name: String, args: &[String]) -> (out: Result<String, CallError>)
        ensures
            final(self)@ == old(self)@,
            call_outcome(old(self)@, name@, args, out),
    {
        match self.functions.get(name.as_str()) {
            Some(entry) => entry.invoke(args),
            None => {
                let message = String::from_str("Function ").concat(name.as_str()).concat(
                    " not found in registry",
                );
                Err(CallError::InvalidArguments(message))
            },
        }
    }
}

} // verus!
