use vstd::prelude::*;

verus! {

/// Declares tokio_postgres::Error, carried unopened inside `CliError`.
#[verifier::external_type_specification]
#[verifier::external_body]
pub struct ExPgError(tokio_postgres::Error);

/// Declares std::io::Error, carried unopened inside `CliError`.
#[verifier::external_type_specification]
#[verifier::external_body]
pub struct ExIoError(std::io::Error);

/// Declares std::sync::mpsc::RecvError, carried unopened inside `CliError`.
#[verifier::external_type_specification]
#[verifier::external_body]
pub struct ExRecvError(std::sync::mpsc::RecvError);

/// The fatal failures of the dashboard: the database, the terminal, or the
/// event stream.
#[derive(Debug)]
pub enum CliError {
    DB { source: tokio_postgres::Error },
    UI { source: std::io::Error },
    Pipe { source: std::sync::mpsc::RecvError },
}

impl From<tokio_postgres::Error> for CliError {
    fn from(err: tokio_postgres::Error) -> (r: CliError)
        ensures
            r == (CliError::DB { source: err }),
    {
        CliError::DB { source: err }
    }
}

impl vstd::std_specs::convert::FromSpecImpl<tokio_postgres::Error> for CliError {
    open spec fn obeys_from_spec() -> bool {
        true
    }

    open spec fn from_spec(err: tokio_postgres::Error) -> CliError {
        CliError::DB { source: err }
    }
}

impl From<std::io::Error> for CliError {
    fn from(err: std::io::Error) -> (r: CliError)
        ensures
            r == (CliError::UI { source: err }),
    {
        CliError::UI { source: err }
    }
}

impl vstd::std_specs::convert::FromSpecImpl<std::io::Error> for CliError {
    open spec fn obeys_from_spec() -> bool {
        true
    }

    open spec fn from_spec(err: std::io::Error) -> CliError {
        CliError::UI { source: err }
    }
}

impl From<std::sync::mpsc::RecvError> for CliError {
    fn from(err: std::sync::mpsc::RecvError) -> (r: CliError)
        ensures
            r == (CliError::Pipe { source: err }),
    {
        CliError::Pipe { source: err }
    }
}

impl vstd::std_specs::convert::FromSpecImpl<std::sync::mpsc::RecvError> for CliError {
    open spec fn obeys_from_spec() -> bool {
        true
    }

    open spec fn from_spec(err: std::sync::mpsc::RecvError) -> CliError {
        CliError::Pipe { source: err }
    }
}

/// A `Result` whose error is a `CliError`.
pub type CliResult<T> = Result<T, CliError>;

} // verus!
