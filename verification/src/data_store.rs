//! A data store of the engine: its name and the parameters it is created
//! with.

use std::sync::Arc;

use vstd::prelude::*;

use crate::error::Error;
use crate::parameters::Parameters;
use crate::text::string_of_str;

verus! {

/// A data store: the name it is known by on the server and the parameters
/// it is created with.
#[derive(Debug)]
pub struct DataStore {
    pub name: String,
    pub parameters: Parameters,
}

impl DataStore {
    /// Declares the data store `name` with `parameters`, to be shared.
    pub fn declare_with_parameters(name: &str, parameters: Parameters) -> (r: Result<
        Arc<DataStore>,
        Error,
    >)
        ensures
            r matches Ok(ds) && ds.name@ == name@ && ds.parameters@ == parameters@,
    {
        Ok(Arc::new(DataStore { name: string_of_str(name), parameters }))
    }
}

} // verus!
