//! Resource values as the engine hands them out: a data type, an optional
//! namespace and the value's text, both read from UTF-8 bytes.

use vstd::prelude::*;
use vstd::utf8::{decode_utf8, valid_utf8};

use super::data_type::DataType;
use crate::error::Error;
use crate::text::utf8_decode;

verus! {

/// A resource value: its data type, its namespace (where it has one) and
/// its text.
#[derive(Debug)]
pub struct ResourceValue {
    pub data_type: DataType,
    pub namespace: Option<String>,
    pub value: String,
}

impl ResourceValue {
    /// The resource value read from the bytes of its namespace (none where
    /// there are no bytes) and of its text; `Unknown` where the namespace
    /// bytes are not UTF-8. The text must be UTF-8.
    pub fn from(data_type: DataType, namespace: &[u8], data: &[u8]) -> (r: Result<ResourceValue, Error>)
        requires
            valid_utf8(data@),
        ensures
            namespace@.len() > 0 && !valid_utf8(namespace@) ==> r matches Err(Error::Unknown),
            namespace@.len() == 0 || valid_utf8(namespace@) ==> (r matches Ok(v)
                && v.data_type == data_type && v.value@ == decode_utf8(data@)
                && (namespace@.len() == 0 ==> v.namespace is None)
                && (namespace@.len() > 0 ==> (v.namespace matches Some(ns) && ns@ == decode_utf8(namespace@)))),
    {
        let ns = if namespace.len() == 0 {
            None
        } else {
            match utf8_decode(namespace) {
                Some(s) => Some(s),
                None => {
                    return Err(Error::Unknown);
                },
            }
        };
        let value = utf8_decode(data).unwrap();
        Ok(ResourceValue { data_type, namespace: ns, value })
    }
}

} // verus!
