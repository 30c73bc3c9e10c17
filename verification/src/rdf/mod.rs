//! RDF values: data types, lexical values and terms.

pub mod data_type;
pub mod lexical_value;
pub mod resource_value;
pub mod term;

pub use data_type::DataType;
pub use lexical_value::{LexicalValue, LexicalValueUnion};
pub use resource_value::ResourceValue;
pub use term::Term;
