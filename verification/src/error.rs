//! The error type shared by lowering and by the translation driver.

use vstd::prelude::*;
use vstd::string::StringExecFns;

verus! {

/// Why a function could not be translated.
#[derive(Debug, Clone, PartialEq, Eq)]
pub enum Error {
    /// The driver was handed a stream that breaks the rules of the flat form,
    /// or the backend could not go on.
    Assembler(String),
    /// The input is not Wasm that this compiler takes.
    Input(String),
    /// Lowering to the flat form failed.
    Microwasm(String),
    /// The compiled code trapped. Translation never gives this error.
    Trap,
}

/// Which kind of error an error is, without its message.
#[derive(Debug, Copy, Clone, PartialEq, Eq, Structural)]
pub enum ErrorKind {
    Assembler,
    Input,
    Microwasm,
    Trap,
}

/// An error as contracts speak of it: its kind and what it says.
pub struct Failure {
    pub kind: ErrorKind,
    pub message: Seq<char>,
}

impl Failure {
    /// The error of kind `Assembler` that says `message`.
    pub open spec fn assembler(message: Seq<char>) -> Failure {
        Failure { kind: ErrorKind::Assembler, message }
    }

    /// The error of kind `Input` that says `message`.
    pub open spec fn input(message: Seq<char>) -> Failure {
        Failure { kind: ErrorKind::Input, message }
    }

    /// The error of kind `Microwasm` that says `message`.
    pub open spec fn microwasm(message: Seq<char>) -> Failure {
        Failure { kind: ErrorKind::Microwasm, message }
    }
}

impl Error {
    /// The kind of the error and what it says.
    pub open spec fn spec_failure(self) -> Failure {
        Failure { kind: self.spec_kind(), message: self.spec_message() }
    }

    /// The kind of the error.
    pub open spec fn spec_kind(self) -> ErrorKind {
        match self {
            Error::Assembler(_) => ErrorKind::Assembler,
            Error::Input(_) => ErrorKind::Input,
            Error::Microwasm(_) => ErrorKind::Microwasm,
            Error::Trap => ErrorKind::Trap,
        }
    }

    /// What the error says.
    pub open spec fn spec_message(self) -> Seq<char> {
        match self {
            Error::Assembler(m) => m@,
            Error::Input(m) => m@,
            Error::Microwasm(m) => m@,
            Error::Trap => ""@,
        }
    }

    /// The kind of the error.
    pub fn kind(&self) -> (k: ErrorKind)
        ensures
            k == self.spec_kind(),
    {
        match self {
            Error::Assembler(_) => ErrorKind::Assembler,
            Error::Input(_) => ErrorKind::Input,
            Error::Microwasm(_) => ErrorKind::Microwasm,
            Error::Trap => ErrorKind::Trap,
        }
    }

    /// The message of the error; a trap says nothing.
    pub fn message(&self) -> (m: &str)
        ensures
            m@ == self.spec_message(),
    {
        match self {
            Error::Assembler(m) => m.as_str(),
            Error::Input(m) => m.as_str(),
            Error::Microwasm(m) => m.as_str(),
            Error::Trap => "",
        }
    }

    /// A copy of the error.
    pub fn duplicate(&self) -> (e: Self)
        ensures
            e.spec_failure() == self.spec_failure(),
    {
        match self {
            Error::Assembler(m) => Error::Assembler(m.clone()),
            Error::Input(m) => Error::Input(m.clone()),
            Error::Microwasm(m) => Error::Microwasm(m.clone()),
            Error::Trap => Error::Trap,
        }
    }

    /// An error of the input, with its message.
    pub fn input(msg: &str) -> (e: Self)
        ensures
            e.spec_failure() == Failure::input(msg@),
    {
        Error::Input(String::from_str(msg))
    }

    /// An error of lowering, with its message.
    pub fn microwasm(msg: &str) -> (e: Self)
        ensures
            e.spec_failure() == Failure::microwasm(msg@),
    {
        Error::Microwasm(String::from_str(msg))
    }
}

/// An error of the driver, with its message.
pub fn error(msg: &str) -> (e: Error)
    ensures
        e.spec_failure() == Failure::assembler(msg@),
{
    Error::Assembler(String::from_str(msg))
}

/// Whether a result is the error `failure`.
pub open spec fn fails_with<T>(r: Result<T, Error>, failure: Failure) -> bool {
    r matches Err(e) && e.spec_failure() == failure
}

} // verus!
