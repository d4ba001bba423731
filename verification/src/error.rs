use vstd::prelude::*;

verus! {

/// The failures the flow engine itself can report. `InternalErr` marks broken
/// or missing persisted state, `ExecutionErr` a failed or ill-typed expression
/// evaluation, `BadRequest` a malformed flow definition.
#[derive(Debug, PartialEq, Eq)]
pub enum Error {
    InternalErr(String),
    ExecutionErr(String),
    BadRequest(String),
}

/// Mathematical shape of an `Error`.
#[verifier::ext_equal]
pub enum ErrorV {
    InternalErr(Seq<char>),
    ExecutionErr(Seq<char>),
    BadRequest(Seq<char>),
}

impl View for Error {
    type V = ErrorV;

    open spec fn view(&self) -> ErrorV {
        match self {
            Error::InternalErr(s) => ErrorV::InternalErr(s@),
            Error::ExecutionErr(s) => ErrorV::ExecutionErr(s@),
            Error::BadRequest(s) => ErrorV::BadRequest(s@),
        }
    }
}

impl DeepView for Error {
    type V = ErrorV;

    open spec fn deep_view(&self) -> ErrorV {
        self.view()
    }
}

/// The three failure kinds, without their messages.
#[derive(Clone, Copy, PartialEq, Eq, Structural, Debug)]
pub enum ErrKind {
    Internal,
    Execution,
    BadReq,
}

/// Which kind an error is of.
pub open spec fn kind_of(e: ErrorV) -> ErrKind {
    match e {
        ErrorV::InternalErr(_) => ErrKind::Internal,
        ErrorV::ExecutionErr(_) => ErrKind::Execution,
        ErrorV::BadRequest(_) => ErrKind::BadReq,
    }
}

impl Error {
    /// The human-readable message carried by this error.
    pub fn message(&self) -> (r: &String)
        ensures
            r@ == match self@ {
                ErrorV::InternalErr(s) => s,
                ErrorV::ExecutionErr(s) => s,
                ErrorV::BadRequest(s) => s,
            },
    {
        match self {
            Error::InternalErr(s) => s,
            Error::ExecutionErr(s) => s,
            Error::BadRequest(s) => s,
        }
    }
}

} // verus!
