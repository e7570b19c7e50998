//! The boundary to the host: the functions behind the system methods that
//! the library does not implement itself.

use crate::runtime::error::{Error, ErrorModel, Outcome};
use crate::runtime::model::RuntimeModel;
use crate::runtime::object::ObjectRef;
use crate::runtime::Runtime;
use crate::types::MaybeNodeMeta;
use vstd::prelude::*;

verus! {

/// The view of a result that carries an object.
pub open spec fn outcome(result: Result<ObjectRef, Error>) -> Outcome {
    crate::runtime::error::outcome(result)
}

/// The object that an error carries, if any, is an object of the state.
pub open spec fn error_ok(s: RuntimeModel, error: ErrorModel) -> bool {
    match error {
        ErrorModel::ReturnFromMethod { retval: Some(object), .. } => s.contains(object),
        _ => true,
    }
}

/// Every object that an outcome carries is an object of the state.
pub open spec fn outcome_ok(s: RuntimeModel, r: Outcome) -> bool {
    match r {
        Ok(object) => s.contains(object),
        Err(error) => error_ok(s, error),
    }
}

/// Every object that the outcome of a statement carries is an object of
/// the state.
pub open spec fn done_ok(s: RuntimeModel, r: Result<(), ErrorModel>) -> bool {
    match r {
        Ok(()) => true,
        Err(error) => error_ok(s, error),
    }
}

/// The host's side of the system methods. A method whose body is
/// `SystemMethod::Host(function)` is run by `call_system` with that number.
///
/// An implementation changes the runtime through the runtime's own
/// functions only, which keeps it well formed, keeps every object and keeps
/// the scope stack as deep as it was. What it yields and what it does to
/// the runtime must depend on its arguments and on the runtime's state
/// alone: `system_call` stands for that dependence, and the evaluator's
/// contracts speak of it. Where it calls back into the evaluator it hands
/// on the budget that it was given.
pub trait SystemHost: Sized {
    /// The state and the outcome that host function `function` leads to.
    closed spec fn system_call(
        self,
        state: RuntimeModel,
        function: usize,
        this: ObjectRef,
        method_name: Seq<char>,
        arguments: Seq<ObjectRef>,
        budget: nat,
    ) -> (RuntimeModel, Outcome) {
        arbitrary()
    }

    fn call_system(
        &self,
        runtime: &mut Runtime,
        function: usize,
        this: ObjectRef,
        method_name: String,
        arguments: Vec<ObjectRef>,
        budget: usize,
    ) -> (r: Result<ObjectRef, Error>)
        requires
            old(runtime).wf(),
            old(runtime)@.contains(this),
            old(runtime)@.contains_all(arguments@),
        ensures
            final(runtime).wf(),
            old(runtime)@.grows_to(final(runtime)@),
            outcome_ok(final(runtime)@, outcome(r)),
            (final(runtime)@, outcome(r)) == self.system_call(
                old(runtime)@,
                function,
                this,
                method_name@,
                arguments@,
                budget as nat,
            ),
    ;
}

/// The host that has no functions: every call of a host function fails
/// with `NoSuchMethod` and changes nothing. It serves programs that use the
/// library's own methods only.
pub struct NoHost;

impl SystemHost for NoHost {
    open spec fn system_call(
        self,
        state: RuntimeModel,
        function: usize,
        this: ObjectRef,
        method_name: Seq<char>,
        arguments: Seq<ObjectRef>,
        budget: nat,
    ) -> (RuntimeModel, Outcome) {
        (
            state,
            Err(
                ErrorModel::NoSuchMethod {
                    node: MaybeNodeMeta(None),
                    search: method_name,
                },
            ),
        )
    }

    fn call_system(
        &self,
        runtime: &mut Runtime,
        function: usize,
        this: ObjectRef,
        method_name: String,
        arguments: Vec<ObjectRef>,
        budget: usize,
    ) -> (r: Result<ObjectRef, Error>) {
        Err(Error::NoSuchMethod { node: MaybeNodeMeta(None), search: method_name })
    }
}

} // verus!
