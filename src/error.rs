use vstd::prelude::*;

verus! {

#[verifier::external_type_specification]
#[verifier::external_body]
pub struct ExParseError(url::ParseError);

/// What stops a run. Failures that only the surrounding program can meet (the
/// spreadsheet file, the HTTP client) carry the outside error's message.
#[derive(Debug)]
pub enum RunError {
    CreateXlsxWorkbook { message: String },
    CloseXlsxWorkbook { message: String },
    AddXlsxWorksheet { name: String },
    WriteXlsxColumn { message: String },
    BuildReqwestClient { message: String },
    ParseUrl { url: String, source: url::ParseError },
    GetRequest { message: String },
    DeserializingResponseBody { message: String },
}

/// Relies on exitcode::IOERR, the code for an input/output failure.
#[verifier::external_body]
fn io_error_code() -> (r: i32)
    ensures
        r == 74,
{
    exitcode::IOERR
}

/// Relies on exitcode::DATAERR, the code for malformed input data.
#[verifier::external_body]
fn data_error_code() -> (r: i32)
    ensures
        r == 65,
{
    exitcode::DATAERR
}

/// Relies on exitcode::SOFTWARE, the code for an internal software failure.
#[verifier::external_body]
fn software_error_code() -> (r: i32)
    ensures
        r == 70,
{
    exitcode::SOFTWARE
}

/// The process exit code of a failure of the extraction command: output file
/// failures are input/output errors, a bad URL is a data error, and a failed
/// request or response is a software error.
pub open spec fn run_error_code(e: RunError) -> i32 {
    match e {
        RunError::CreateXlsxWorkbook { .. } => 74,
        RunError::CloseXlsxWorkbook { .. } => 74,
        RunError::AddXlsxWorksheet { .. } => 74,
        RunError::WriteXlsxColumn { .. } => 74,
        RunError::ParseUrl { .. } => 65,
        RunError::BuildReqwestClient { .. } => 70,
        RunError::GetRequest { .. } => 70,
        RunError::DeserializingResponseBody { .. } => 70,
    }
}

/// An error of a command that knows its own process exit code.
pub trait CommandError {
    fn exit_code(&self) -> i32;
}

impl RunError {
    pub fn exit_code(&self) -> (r: i32)
        ensures
            r == run_error_code(*self),
    {
        match self {
            RunError::CreateXlsxWorkbook { .. }
            | RunError::CloseXlsxWorkbook { .. }
            | RunError::AddXlsxWorksheet { .. }
            | RunError::WriteXlsxColumn { .. } => io_error_code(),
            RunError::ParseUrl { .. } => data_error_code(),
            RunError::BuildReqwestClient { .. }
            | RunError::GetRequest { .. }
            | RunError::DeserializingResponseBody { .. } => software_error_code(),
        }
    }
}

impl CommandError for RunError {
    fn exit_code(&self) -> i32 {
        RunError::exit_code(self)
    }
}

/// The error of the whole program.
#[derive(Debug)]
pub enum Error {
    Command { source: RunError },
    InitializeTokioRuntime { message: String },
    CreateLogDirectory { message: String },
}

pub open spec fn error_code(e: Error) -> i32 {
    match e {
        Error::Command { source } => run_error_code(source),
        Error::InitializeTokioRuntime { .. } => 70,
        Error::CreateLogDirectory { .. } => 74,
    }
}

impl Error {
    /// The code to hand to the process's exit.
    pub fn exit_code(&self) -> (r: i32)
        ensures
            r == error_code(*self),
    {
        match self {
            Error::Command { source } => source.exit_code(),
            Error::InitializeTokioRuntime { .. } => software_error_code(),
            Error::CreateLogDirectory { .. } => io_error_code(),
        }
    }
}

impl From<RunError> for Error {
    fn from(source: RunError) -> (r: Error) {
        Error::Command { source }
    }
}

impl vstd::std_specs::convert::FromSpecImpl<RunError> for Error {
    open spec fn obeys_from_spec() -> bool {
        true
    }

    open spec fn from_spec(source: RunError) -> Error {
        Error::Command { source }
    }
}

} // verus!
