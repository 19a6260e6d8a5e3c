//! What holds of every registry, stated over the table that a registry
//! stands for and over the results that a call may have.

use crate::callable::{outcome_view, wrapped_outcome, CallableEntry};
use crate::error::{CallError, CallErrorView};
use crate::function_registry::{call_outcome, not_found_message};
use core::fmt::Display;
use vstd::prelude::*;
use vstd::string::to_string_from_display_ensures;

verus! {

/// Whether `part` stands somewhere in `text`, unbroken.
pub open spec fn occurs_in(part: Seq<char>, text: Seq<char>) -> bool {
    exists|before: Seq<char>, after: Seq<char>| text == #[trigger] (before + part + after)
}

/// Whether all results that `func` may have on `args` are the same value or
/// carry the same error.
pub open spec fn single_valued_on<FunctionType, ReturnType>(
    func: FunctionType,
    args: &[String],
) -> bool where FunctionType: Fn(&[String]) -> Result<ReturnType, CallError> {
    forall|first: Result<ReturnType, CallError>, second: Result<ReturnType, CallError>|
        #[trigger] call_ensures(func, (args,), first) && #[trigger] call_ensures(
            func,
            (args,),
            second,
        ) ==> match (first, second) {
            (Ok(one), Ok(other)) => one == other,
            (Err(one), Err(other)) => one@ == other@,
            _ => false,
        }
}

/// Whether a value of `ReturnType` is always shown as the same text.
pub open spec fn shown_in_one_way<ReturnType: Display>() -> bool {
    forall|value: ReturnType, first: String, second: String|
        #[trigger] to_string_from_display_ensures::<ReturnType>(&value, first)
            && #[trigger] to_string_from_display_ensures::<ReturnType>(&value, second)
            ==> first@ == second@
}

/// Once a function is registered under a name, the results of calling that
/// name are those of the function, told as text, whatever the table held
/// before.
pub proof fn lemma_registered_function_answers<FunctionType, ReturnType>(
    functions: Map<Seq<char>, CallableEntry>,
    name: Seq<char>,
    entry: CallableEntry,
    func: FunctionType,
    signature: Seq<char>,
    args: &[String],
    out: Result<String, CallError>,
) where FunctionType: Fn(&[String]) -> Result<ReturnType, CallError>, ReturnType: Display
    requires
        entry.wraps(func, signature),
    ensures
        call_outcome(functions.insert(name, entry), name, args, out) <==> wrapped_outcome(
            func,
            args,
            out,
        ),
{
}

/// Where the registered function returns `value` on `args` and nothing
/// else, and `value` is shown as `text` and nothing else, a call of its name
/// on `args` returns exactly `text`.
pub proof fn lemma_registered_function_returns_its_text<FunctionType, ReturnType>(
    functions: Map<Seq<char>, CallableEntry>,
    name: Seq<char>,
    entry: CallableEntry,
    func: FunctionType,
    signature: Seq<char>,
    args: &[String],
    value: ReturnType,
    text: Seq<char>,
    out: Result<String, CallError>,
) where FunctionType: Fn(&[String]) -> Result<ReturnType, CallError>, ReturnType: Display
    requires
        entry.wraps(func, signature),
        forall|result: Result<ReturnType, CallError>| #[trigger]
            call_ensures(func, (args,), result) ==> result == Ok::<ReturnType, CallError>(value),
        forall|shown: String| #[trigger]
            to_string_from_display_ensures::<ReturnType>(&value, shown) ==> shown@ == text,
        call_outcome(functions.insert(name, entry), name, args, out),
    ensures
        outcome_view(out) == Ok::<Seq<char>, CallErrorView>(text),
{
}

/// Calling a name that holds no function fails with `InvalidArguments`,
/// whatever the arguments are, and the message holds the name.
pub proof fn lemma_unregistered_name_is_reported(
    functions: Map<Seq<char>, CallableEntry>,
    name: Seq<char>,
    args: &[String],
    out: Result<String, CallError>,
)
    requires
        !functions.contains_key(name),
        call_outcome(functions, name, args, out),
    ensures
        outcome_view(out) == Err::<Seq<char>, CallErrorView>(
            CallErrorView::InvalidArguments(not_found_message(name)),
        ),
        occurs_in(name, not_found_message(name)),
{
    assert(not_found_message(name) == "Function "@ + name + " not found in registry"@);
}

/// Registering under a name that is taken leaves the table as if the
/// earlier entry had never been there, and calls of the name are answered
/// by the later entry alone.
pub proof fn lemma_later_registration_replaces(
    functions: Map<Seq<char>, CallableEntry>,
    name: Seq<char>,
    earlier: CallableEntry,
    later: CallableEntry,
    args: &[String],
    out: Result<String, CallError>,
)
    ensures
        functions.insert(name, earlier).insert(name, later) == functions.insert(name, later),
        call_outcome(functions.insert(name, earlier).insert(name, later), name, args, out)
            <==> later.yields(args, out),
{
    assert(functions.insert(name, earlier).insert(name, later) =~= functions.insert(name, later));
}

/// Registering under one name changes nothing for the calls of another.
pub proof fn lemma_registration_keeps_other_names(
    functions: Map<Seq<char>, CallableEntry>,
    name: Seq<char>,
    entry: CallableEntry,
    other: Seq<char>,
    args: &[String],
    out: Result<String, CallError>,
)
    requires
        other != name,
    ensures
        call_outcome(functions.insert(name, entry), other, args, out) <==> call_outcome(
            functions,
            other,
            args,
            out,
        ),
{
}

/// Where the registered function fails with `error` on `args` and does
/// nothing else, a call of its name on `args` fails with that very error:
/// an `ExecutionError` stays an `ExecutionError`, an `InvalidArguments`
/// stays an `InvalidArguments`, and the message is untouched.
pub proof fn lemma_function_error_surfaces_unchanged<FunctionType, ReturnType>(
    functions: Map<Seq<char>, CallableEntry>,
    name: Seq<char>,
    entry: CallableEntry,
    func: FunctionType,
    signature: Seq<char>,
    args: &[String],
    error: CallError,
    out: Result<String, CallError>,
) where FunctionType: Fn(&[String]) -> Result<ReturnType, CallError>, ReturnType: Display
    requires
        entry.wraps(func, signature),
        forall|result: Result<ReturnType, CallError>| #[trigger]
            call_ensures(func, (args,), result) ==> result == Err::<ReturnType, CallError>(error),
        call_outcome(functions.insert(name, entry), name, args, out),
    ensures
        out == Err::<String, CallError>(error),
{
}

/// An entry made from a function that has one result on `args`, of a type
/// that is shown in one way, has one result on `args`.
pub proof fn lemma_single_valued_function_makes_deterministic_entry<FunctionType, ReturnType>(
    entry: CallableEntry,
    func: FunctionType,
    signature: Seq<char>,
    args: &[String],
) where FunctionType: Fn(&[String]) -> Result<ReturnType, CallError>, ReturnType: Display
    requires
        entry.wraps(func, signature),
        single_valued_on(func, args),
        shown_in_one_way::<ReturnType>(),
    ensures
        entry.deterministic_on(args),
{
    assert forall|first: Result<String, CallError>, second: Result<String, CallError>|
        #[trigger] entry.yields(args, first) && #[trigger] entry.yields(
            args,
            second,
        ) implies outcome_view(first) == outcome_view(second) by {
        assert(wrapped_outcome(func, args, first));
        assert(wrapped_outcome(func, args, second));
    }
}

/// Two calls of one name on the same arguments, in the same table, agree:
/// both give the same text or both give the same error. Under a name that
/// holds a function this asks that the function has one result on these
/// arguments; under a name that holds none it asks nothing.
pub proof fn lemma_repeated_call_agrees(
    functions: Map<Seq<char>, CallableEntry>,
    name: Seq<char>,
    args: &[String],
    first: Result<String, CallError>,
    second: Result<String, CallError>,
)
    requires
        functions.contains_key(name) ==> functions[name].deterministic_on(args),
        call_outcome(functions, name, args, first),
        call_outcome(functions, name, args, second),
    ensures
        outcome_view(first) == outcome_view(second),
{
}

} // verus!
