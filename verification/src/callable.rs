//! Functions of different shapes behind one way of calling them.
//!
//! A registered function takes the raw text arguments, decodes them as it
//! sees fit, and answers with a value of a type of its own choosing or with a
//! [`CallError`]. A [`CallableEntry`] hides that type: it is called with text
//! and answers with text.

use crate::error::{CallError, CallErrorView};
use core::fmt::Display;
use vstd::prelude::*;
use vstd::string::to_string_from_display_ensures;

verus! {

/// Something that is called with text arguments and answers with text or
/// with an error, and that describes itself by a signature.
///
/// An implementation says in `yields` which results a call may have, and in
/// `signature_text` what its signature reads.
pub trait Callable: Send + Sync {
    /// Whether a call on `args` may come back with `out`.
    spec fn yields(&self, args: &[String], out: Result<String, CallError>) -> bool;

    /// The text of the signature.
    spec fn signature_text(&self) -> Seq<char>;

    /// Calls the function on `args`.
    fn call(&self, args: &[String]) -> (out: Result<String, CallError>)
        ensures
            self.yields(args, out),
    ;

    /// The descriptive signature. It is documentation: no call is held to it.
    fn signature(&self) -> (text: String)
        ensures
            text@ == self.signature_text(),
    ;
}

/// Whether `func` may be called on every sequence of arguments.
pub open spec fn accepts_all<FunctionType, ReturnType>(func: FunctionType) -> bool where
    FunctionType: Fn(&[String]) -> Result<ReturnType, CallError>,
{
    forall|args: &[String]| call_requires(func, (args,))
}

/// Whether `out` tells `result` as text: a value is shown as text, an error
/// stays as it is.
pub open spec fn told_as_text<ReturnType: Display>(
    result: Result<ReturnType, CallError>,
    out: Result<String, CallError>,
) -> bool {
    match result {
        Ok(value) => out matches Ok(text) && to_string_from_display_ensures::<ReturnType>(
            &value,
            text,
        ),
        Err(error) => out == Err::<String, CallError>(error),
    }
}

/// Whether `out` is a result of `func` on `args`, told as text.
pub open spec fn wrapped_outcome<FunctionType, ReturnType>(
    func: FunctionType,
    args: &[String],
    out: Result<String, CallError>,
) -> bool where
    FunctionType: Fn(&[String]) -> Result<ReturnType, CallError>,
    ReturnType: Display,
{
    exists|result: Result<ReturnType, CallError>|
        #[trigger] call_ensures(func, (args,), result) && told_as_text(result, out)
}

/// Tells the result of a function as text: shows the value of a success,
/// and hands on the error of a failure.
pub fn tell_as_text<ReturnType: Display>(
    result: Result<ReturnType, CallError>,
) -> (out: Result<String, CallError>)
    ensures
        told_as_text(result, out),
{
    match result {
        Ok(value) => Ok(value.to_string()),
        Err(error) => Err(error),
    }
}

/// The result of a call as mathematical text.
pub open spec fn outcome_view(out: Result<String, CallError>) -> Result<Seq<char>, CallErrorView> {
    match out {
        Ok(text) => Ok(text@),
        Err(error) => Err(error@),
    }
}

/// A function together with its signature, known by the function's own type.
#[verifier::reject_recursive_types(FunctionType)]
#[verifier::reject_recursive_types(ReturnType)]
struct FunctionWrapper<FunctionType, ReturnType> where
    FunctionType: Fn(&[String]) -> Result<ReturnType, CallError> + Send + Sync,
    ReturnType: Display,
{
    func: FunctionType,
    signature: String,
}

impl<FunctionType, ReturnType> FunctionWrapper<FunctionType, ReturnType> where
    FunctionType: Fn(&[String]) -> Result<ReturnType, CallError> + Send + Sync,
    ReturnType: Display,
{
    /// The wrapped function may be called on anything.
    #[verifier::type_invariant]
    spec fn well_formed(&self) -> bool {
        accepts_all(self.func)
    }
}

impl<FunctionType, ReturnType> Callable for FunctionWrapper<FunctionType, ReturnType> where
    FunctionType: Fn(&[String]) -> Result<ReturnType, CallError> + Send + Sync,
    ReturnType: Display,
{
    closed spec fn yields(&self, args: &[String], out: Result<String, CallError>) -> bool {
        wrapped_outcome(self.func, args, out)
    }

    closed spec fn signature_text(&self) -> Seq<char> {
        self.signature@
    }

    fn call(&self, args: &[String]) -> (out: Result<String, CallError>) {
        proof {
            use_type_invariant(self);
        }
        tell_as_text((self.func)(args))
    }

    fn signature(&self) -> (text: String) {
        self.signature.clone()
    }
}

/// One registered function with its signature, its own types hidden.
///
/// The entry does not look at the arguments: decoding them, and telling an
/// argument error from an execution error, is the function's part.
///
/// The trait object sits in a struct of its own: of a map whose values are
/// bare trait objects Verus does not prove even that it holds what was
/// inserted into it.
pub struct CallableEntry {
    callable: Box<dyn Callable>,
}

impl CallableEntry {
    /// Whether a call of this entry on `args` may come back with `out`.
    pub closed spec fn yields(&self, args: &[String], out: Result<String, CallError>) -> bool {
        self.callable.yields(args, out)
    }

    /// The text of the entry's signature.
    pub closed spec fn signature_text(&self) -> Seq<char> {
        self.callable.signature_text()
    }

    /// Whether this entry stands for `func` with the signature `signature`:
    /// it has that signature, and its results are those of `func`, told as
    /// text.
    pub open spec fn wraps<FunctionType, ReturnType>(
        &self,
        func: FunctionType,
        signature: Seq<char>,
    ) -> bool where
        FunctionType: Fn(&[String]) -> Result<ReturnType, CallError>,
        ReturnType: Display,
    {
        &&& self.signature_text() == signature
        &&& forall|args: &[String], out: Result<String, CallError>| #[trigger]
            self.yields(args, out) <==> wrapped_outcome(func, args, out)
    }

    /// Whether all results that a call on `args` may have are the same text
    /// or the same error.
    pub open spec fn deterministic_on(&self, args: &[String]) -> bool {
        forall|first: Result<String, CallError>, second: Result<String, CallError>|
            #[trigger] self.yields(args, first) && #[trigger] self.yields(args, second)
                ==> outcome_view(first) == outcome_view(second)
    }

    /// Wraps `func` and its signature into an entry.
    pub fn new<FunctionType, ReturnType>(func: FunctionType, signature: String) -> (entry: Self) where
        FunctionType: Fn(&[String]) -> Result<ReturnType, CallError> + Send + Sync + 'static,
        ReturnType: Display + 'static,

        requires
            accepts_all(func),
        ensures
            entry.wraps(func, signature@),
    {
        let wrapper = FunctionWrapper { func, signature };
        CallableEntry { callable: Box::new(wrapper) }
    }

    /// Calls the function on `args` and tells its answer as text. An error
    /// of the function comes back as it is.
    pub fn invoke(&self, args: &[String]) -> (out: Result<String, CallError>)
        ensures
            self.yields(args, out),
    {
        self.callable.call(args)
    }

    /// The signature that the entry was made with.
    pub fn signature(&self) -> (text: String)
        ensures
            text@ == self.signature_text(),
    {
        self.callable.signature()
    }
}

} // verus!
