use vstd::prelude::*;

use crate::iri::IriParseError;
use crate::rdf::DataType;

verus! {

/// Errors reported by the library.
#[derive(Debug)]
pub enum Error {
    Unknown,
    /// The engine raised an exception while carrying out `action`.
    Exception { action: String, message: String },
    UnknownDataType { data_type_id: u8 },
    UnknownValueForDataType { data_type: DataType, value: String },
    UnknownXsdDataType { data_type_iri: String },
    UnknownNTriplesValue { value: String },
    /// A single row of a cursor stood for as many rows as the caller allowed
    /// in all, or more.
    MultiplicityExceededMaximumNumberOfRows { maxrow: usize, multiplicity: usize, query: String },
    /// A cursor produced as many rows as the caller allowed, or more.
    ExceededMaximumNumberOfRows { maxrow: usize, query: String },
    RDFoxLicenseFileNotFound,
    UnknownResourceException,
    CouldNotCreateRDFoxServer,
    CouldNotConnectToServer,
    CouldNotImportRDFFile,
    IriParseError(IriParseError),
    InvalidPrefixName,
    /// A text handed to the engine held a nul character.
    CApiError,
}

} // verus!
