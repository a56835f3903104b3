//! Errors reported by renderer initialization.
//!
//! Initialization compiles two shaders and links them into a program; those
//! are the only operations that can fail. Each failure carries the driver's
//! textual diagnostic. The decision itself — success handle on a good status,
//! diagnostic-carrying error on a bad one — is ordinary logic and is verified
//! here; the driver calls live outside the library.

use vstd::prelude::*;

verus! {

/// A shader failed to compile; holds the driver-reported info log.
#[derive(Debug, Clone, PartialEq)]
pub struct CompileError {
    message: String,
}

/// A program failed to link; holds the driver-reported info log.
#[derive(Debug, Clone, PartialEq)]
pub struct LinkError {
    message: String,
}

/// Any failure of renderer initialization.
#[derive(Debug, Clone, PartialEq)]
pub enum Error {
    Compile(CompileError),
    Link(LinkError),
}

impl View for CompileError {
    type V = Seq<char>;

    closed spec fn view(&self) -> Seq<char> {
        self.message@
    }
}

impl CompileError {
    pub fn new(message: String) -> (e: Self)
        ensures
            e@ == message@,
    {
        Self { message }
    }

    /// The driver's diagnostic text.
    pub fn message(&self) -> (m: &String)
        ensures
            m@ == self@,
    {
        &self.message
    }
}

impl View for LinkError {
    type V = Seq<char>;

    closed spec fn view(&self) -> Seq<char> {
        self.message@
    }
}

impl LinkError {
    pub fn new(message: String) -> (e: Self)
        ensures
            e@ == message@,
    {
        Self { message }
    }

    /// The driver's diagnostic text.
    pub fn message(&self) -> (m: &String)
        ensures
            m@ == self@,
    {
        &self.message
    }
}

impl View for Error {
    type V = Seq<char>;

    /// An `Error`'s view is the diagnostic it carries.
    closed spec fn view(&self) -> Seq<char> {
        match self {
            Error::Compile(e) => e@,
            Error::Link(e) => e@,
        }
    }
}

impl Error {
    /// The driver's diagnostic text, whichever stage failed.
    pub fn message(&self) -> (m: &String)
        ensures
            m@ == self@,
    {
        match self {
            Error::Compile(e) => e.message(),
            Error::Link(e) => e.message(),
        }
    }
}

impl From<CompileError> for Error {
    fn from(e: CompileError) -> (r: Self) {
        Error::Compile(e)
    }
}

impl vstd::std_specs::convert::FromSpecImpl<CompileError> for Error {
    open spec fn obeys_from_spec() -> bool {
        true
    }

    open spec fn from_spec(e: CompileError) -> Self {
        Error::Compile(e)
    }
}

impl From<LinkError> for Error {
    fn from(e: LinkError) -> (r: Self) {
        Error::Link(e)
    }
}

impl vstd::std_specs::convert::FromSpecImpl<LinkError> for Error {
    open spec fn obeys_from_spec() -> bool {
        true
    }

    open spec fn from_spec(e: LinkError) -> Self {
        Error::Link(e)
    }
}

/// Outcome of compiling one shader: the driver reports whether compilation
/// succeeded (`ok`) and, when it did not, an info log. On success the shader
/// handle is returned; on failure a `CompileError` carrying exactly that log.
pub fn compile_result(shader: u32, ok: bool, log: String) -> (r: Result<u32, CompileError>)
    ensures
        ok ==> r == Ok::<u32, CompileError>(shader),
        !ok ==> (r matches Err(e) && e@ == log@),
{
    if ok {
        Ok(shader)
    } else {
        Err(CompileError::new(log))
    }
}

/// Outcome of linking the program: the driver reports whether the link
/// succeeded (`ok`) and, when it did not, an info log. On success the program
/// handle is returned; on failure a `LinkError` carrying exactly that log.
pub fn link_result(program: u32, ok: bool, log: String) -> (r: Result<u32, LinkError>)
    ensures
        ok ==> r == Ok::<u32, LinkError>(program),
        !ok ==> (r matches Err(e) && e@ == log@),
{
    if ok {
        Ok(program)
    } else {
        Err(LinkError::new(log))
    }
}

} // verus!
