//! Lexical values: a resource value in the form the engine reads and
//! writes, together with its data type.

use vstd::prelude::*;

use super::data_type::{data_type_name, DataType};
use super::term::Term;
use crate::error::Error;
use crate::iri::{iri_is_valid, iri_parse_error, Iri};
use crate::text::{
    chars_of, decimal, push_decimal, push_signed_decimal, push_str, signed_decimal,
    str_eq, string_of_chars, string_of_str, utf8_decode,
};

verus! {

/// The value that a lexical value holds, one variant per group of data
/// types.
#[derive(Debug, Clone, Hash)]
pub enum LexicalValueUnion {
    Iri(Iri),
    String(String),
    BlankNode(String),
    Boolean(bool),
    SignedInteger(i64),
    UnsignedInteger(u64),
}

/// The value of a lexical value, as plain text and numbers.
pub enum LexicalContent {
    Iri(Seq<char>),
    String(Seq<char>),
    BlankNode(Seq<char>),
    Boolean(bool),
    SignedInteger(i64),
    UnsignedInteger(u64),
}

/// A lexical value seen as its data type and its content.
pub struct LexicalView {
    pub data_type: DataType,
    pub content: LexicalContent,
}

/// The content of a stored value.
pub open spec fn content_of(value: LexicalValueUnion) -> LexicalContent {
    match value {
        LexicalValueUnion::Iri(i) => LexicalContent::Iri(i@),
        LexicalValueUnion::String(s) => LexicalContent::String(s@),
        LexicalValueUnion::BlankNode(s) => LexicalContent::BlankNode(s@),
        LexicalValueUnion::Boolean(b) => LexicalContent::Boolean(b),
        LexicalValueUnion::SignedInteger(n) => LexicalContent::SignedInteger(n),
        LexicalValueUnion::UnsignedInteger(n) => LexicalContent::UnsignedInteger(n),
    }
}

/// Whether content of this kind belongs to a data type of this group.
pub open spec fn fits(data_type: DataType, content: LexicalContent) -> bool {
    match content {
        LexicalContent::Iri(_) => data_type.spec_is_iri(),
        LexicalContent::String(_) => data_type.spec_is_string(),
        LexicalContent::BlankNode(_) => data_type.spec_is_blank_node(),
        LexicalContent::Boolean(_) => data_type.spec_is_boolean(),
        LexicalContent::SignedInteger(_) => data_type.spec_is_signed_integer(),
        LexicalContent::UnsignedInteger(_) => data_type.spec_is_unsigned_integer(),
    }
}

/// The text `"true"` or `"false"`.
pub open spec fn boolean_text(b: bool) -> Seq<char> {
    if b {
        "true"@
    } else {
        "false"@
    }
}

/// A text with each `"` preceded by a backslash.
pub open spec fn escape_quotes(s: Seq<char>) -> Seq<char>
    decreases s.len(),
{
    if s.len() == 0 {
        s
    } else if s.last() == '"' {
        escape_quotes(s.drop_last()) + seq!['\\', '"']
    } else {
        escape_quotes(s.drop_last()).push(s.last())
    }
}

/// The Turtle notation of a value: an IRI in angle brackets, a string in
/// double quotes (with its quotes escaped), a blank node after `_:`, a
/// boolean as `true` or `false` and an integer in decimal.
pub open spec fn turtle(content: LexicalContent) -> Seq<char> {
    match content {
        LexicalContent::Iri(s) => seq!['<'] + s + seq!['>'],
        LexicalContent::String(s) => seq!['"'] + escape_quotes(s) + seq!['"'],
        LexicalContent::BlankNode(s) => seq!['_', ':'] + s,
        LexicalContent::Boolean(b) => boolean_text(b),
        LexicalContent::SignedInteger(n) => signed_decimal(n as int),
        LexicalContent::UnsignedInteger(n) => decimal(n as nat),
    }
}

/// The text of a value, where it has one: the IRI, the string, the blank
/// node id, or `true`/`false`; integers have none.
pub open spec fn text_of(content: LexicalContent) -> Option<Seq<char>> {
    match content {
        LexicalContent::Iri(s) => Some(s),
        LexicalContent::String(s) => Some(s),
        LexicalContent::BlankNode(s) => Some(s),
        LexicalContent::Boolean(b) => Some(boolean_text(b)),
        LexicalContent::SignedInteger(_) => None,
        LexicalContent::UnsignedInteger(_) => None,
    }
}

/// The display text of a value (see `LexicalValue::to_string`).
pub open spec fn display_text(v: LexicalView) -> Seq<char> {
    if v.data_type.spec_is_iri() {
        seq!['<'] + text_of(v.content)->0 + seq!['>']
    } else if v.data_type.spec_is_blank_node() {
        seq!['_', ':'] + text_of(v.content)->0
    } else {
        data_type_name(v.data_type) + seq!['='] + text_of(v.content)->0
    }
}

/// What `LexicalValue::from_type_and_buffer` yields for a data type and a
/// text that it accepts.
pub open spec fn content_from_buffer(data_type: DataType, buffer: Seq<char>) -> LexicalContent {
    if data_type.spec_is_iri() {
        LexicalContent::Iri(buffer)
    } else if data_type.spec_is_blank_node() {
        LexicalContent::BlankNode(buffer)
    } else if data_type.spec_is_boolean() {
        LexicalContent::Boolean(buffer == boolean_text(true))
    } else {
        LexicalContent::String(buffer)
    }
}

/// What reading a value of a data type from a text gives: an IRI
/// (`IriParseError` where `iref` refuses the text), a blank node id, `true`
/// or `false` (`UnknownNTriplesValue` for any other text), or a string;
/// `None` for an unbound value, and `Unknown` for every other data type.
pub open spec fn reads_buffer(
    data_type: DataType,
    buffer: Seq<char>,
    r: Result<Option<LexicalValue>, Error>,
) -> bool {
    &&& data_type == DataType::UnboundValue ==> (r matches Ok(None))
    &&& data_type.spec_is_iri() && !iri_is_valid(buffer) ==> r == Err::<Option<LexicalValue>, Error>(
        Error::IriParseError(iri_parse_error(buffer)),
    )
    &&& data_type.spec_is_boolean() && buffer != boolean_text(true) && buffer != boolean_text(false)
        ==> (r matches Err(Error::UnknownNTriplesValue { value }) && value@ == buffer)
    &&& !(data_type == DataType::UnboundValue || data_type.spec_is_iri()
        || data_type.spec_is_blank_node() || data_type.spec_is_boolean()
        || data_type.spec_is_string()) ==> (r matches Err(Error::Unknown))
    &&& r matches Ok(Some(v)) ==> v.wf() && v@.data_type == data_type && v@.content
        == content_from_buffer(data_type, buffer)
    &&& (data_type.spec_is_iri() && iri_is_valid(buffer)) || data_type.spec_is_blank_node()
        || data_type.spec_is_string() || (data_type.spec_is_boolean() && (buffer == boolean_text(
        true) || buffer == boolean_text(false))) ==> (r matches Ok(Some(_)))
}

/// What reading a value of `data_type` from a buffer holding a
/// nul-terminated UTF-8 text gives: `Unknown` where the buffer holds no nul
/// byte or the bytes before the first one are not UTF-8, else what reading
/// the text they encode gives (`reads_buffer`).
pub open spec fn reads_c_buffer(
    data_type: DataType,
    buffer: Seq<u8>,
    r: Result<Option<LexicalValue>, Error>,
) -> bool {
    &&& !has_nul_byte(buffer) ==> (r matches Err(Error::Unknown))
    &&& has_nul_byte(buffer) && !vstd::utf8::valid_utf8(before_nul(buffer)) ==> (r matches Err(
        Error::Unknown,
    ))
    &&& has_nul_byte(buffer) && vstd::utf8::valid_utf8(before_nul(buffer)) ==> reads_buffer(
        data_type,
        vstd::utf8::decode_utf8(before_nul(buffer)),
        r,
    )
}

/// A resource value together with its data type.
#[derive(Debug, Hash)]
pub struct LexicalValue {
    pub data_type: DataType,
    value: LexicalValueUnion,
}

impl Clone for LexicalValue {
    fn clone(&self) -> (r: Self)
        ensures
            r == *self,
    {
        self.duplicate()
    }
}

impl PartialEq for LexicalValue {
    /// Two values are equal where they have the same data type and the same
    /// content.
    fn eq(&self, other: &Self) -> (r: bool) {
        if self.data_type != other.data_type {
            return false;
        }
        match (&self.value, &other.value) {
            (LexicalValueUnion::Iri(a), LexicalValueUnion::Iri(b)) => str_eq(a.as_str(), b.as_str()),
            (LexicalValueUnion::String(a), LexicalValueUnion::String(b)) => str_eq(a.as_str(), b.as_str()),
            (LexicalValueUnion::BlankNode(a), LexicalValueUnion::BlankNode(b)) => str_eq(
                a.as_str(),
                b.as_str(),
            ),
            (LexicalValueUnion::Boolean(a), LexicalValueUnion::Boolean(b)) => *a == *b,
            (LexicalValueUnion::SignedInteger(a), LexicalValueUnion::SignedInteger(b)) => *a == *b,
            (LexicalValueUnion::UnsignedInteger(a), LexicalValueUnion::UnsignedInteger(b)) => *a
                == *b,
            _ => false,
        }
    }
}

impl Eq for LexicalValue {}

impl vstd::std_specs::cmp::PartialEqSpecImpl for LexicalValue {
    open spec fn obeys_eq_spec() -> bool {
        true
    }

    open spec fn eq_spec(&self, other: &LexicalValue) -> bool {
        self@ == other@
    }
}

impl View for LexicalValue {
    type V = LexicalView;

    closed spec fn view(&self) -> LexicalView {
        LexicalView { data_type: self.data_type, content: content_of(self.value) }
    }
}

impl LexicalValue {
    /// The value's content is of the kind its data type calls for.
    pub open spec fn wf(self) -> bool {
        fits(self@.data_type, self@.content)
    }

    /// The data type of the value.
    pub fn data_type(&self) -> (r: DataType)
        ensures
            r == self@.data_type,
    {
        self.data_type
    }

    /// An exact copy of the value.
    pub fn duplicate(&self) -> (r: LexicalValue)
        ensures
            r == *self,
    {
        let value = match &self.value {
            LexicalValueUnion::Iri(i) => LexicalValueUnion::Iri(i.clone()),
            LexicalValueUnion::String(s) => LexicalValueUnion::String(s.clone()),
            LexicalValueUnion::BlankNode(s) => LexicalValueUnion::BlankNode(s.clone()),
            LexicalValueUnion::Boolean(b) => LexicalValueUnion::Boolean(*b),
            LexicalValueUnion::SignedInteger(n) => LexicalValueUnion::SignedInteger(*n),
            LexicalValueUnion::UnsignedInteger(n) => LexicalValueUnion::UnsignedInteger(*n),
        };
        LexicalValue { data_type: self.data_type, value }
    }

    /// The IRI, for a value of an IRI type.
    pub fn as_iri(&self) -> (r: Option<Iri>)
        requires
            self.wf(),
        ensures
            r is Some <==> self@.data_type.spec_is_iri(),
            r matches Some(i) ==> self@.content == LexicalContent::Iri(i@),
    {
        match &self.value {
            LexicalValueUnion::Iri(i) => Some(i.clone()),
            _ => None,
        }
    }

    /// The text of the value: the IRI, the string, the blank node id, or
    /// `true`/`false`; `None` for an integer.
    pub fn as_str(&self) -> (r: Option<&str>)
        requires
            self.wf(),
        ensures
            r is Some <==> text_of(self@.content) is Some,
            r matches Some(s) ==> s@ == text_of(self@.content)->0,
    {
        match &self.value {
            LexicalValueUnion::Iri(i) => Some(i.as_str()),
            LexicalValueUnion::String(s) => Some(s.as_str()),
            LexicalValueUnion::BlankNode(s) => Some(s.as_str()),
            LexicalValueUnion::Boolean(b) => {
                if *b {
                    Some("true")
                } else {
                    Some("false")
                }
            },
            LexicalValueUnion::SignedInteger(_) => None,
            LexicalValueUnion::UnsignedInteger(_) => None,
        }
    }

    /// An owned copy of `as_str`.
    pub fn as_string(&self) -> (r: Option<String>)
        requires
            self.wf(),
        ensures
            r is Some <==> text_of(self@.content) is Some,
            r matches Some(s) ==> s@ == text_of(self@.content)->0,
    {
        match self.as_str() {
            Some(s) => Some(string_of_str(s)),
            None => None,
        }
    }

    /// The boolean, for a value of data type `Boolean`.
    pub fn as_boolean(&self) -> (r: Option<bool>)
        requires
            self.wf(),
        ensures
            r is Some <==> self@.data_type == DataType::Boolean,
            r matches Some(b) ==> self@.content == LexicalContent::Boolean(b),
    {
        match &self.value {
            LexicalValueUnion::Boolean(b) => Some(*b),
            _ => None,
        }
    }

    /// The integer, for a value of a signed integer type.
    pub fn as_signed_long(&self) -> (r: Option<i64>)
        requires
            self.wf(),
        ensures
            r is Some <==> self@.data_type.spec_is_signed_integer(),
            r matches Some(n) ==> self@.content == LexicalContent::SignedInteger(n),
    {
        match &self.value {
            LexicalValueUnion::SignedInteger(n) => Some(*n),
            _ => None,
        }
    }

    /// The integer, for a value of an unsigned integer type.
    pub fn as_unsigned_long(&self) -> (r: Option<u64>)
        requires
            self.wf(),
        ensures
            r is Some <==> self@.data_type.spec_is_unsigned_integer(),
            r matches Some(n) ==> self@.content == LexicalContent::UnsignedInteger(n),
    {
        match &self.value {
            LexicalValueUnion::UnsignedInteger(n) => Some(*n),
            _ => None,
        }
    }

    /// The value of a data type read from a text: an IRI (`IriParseError`
    /// where `iref` refuses it), a blank node id, `true` or `false`
    /// (`UnknownNTriplesValue` for any other text), or a string; `None` for
    /// an unbound value, and `Unknown` for every other data type.
    pub fn from_type_and_buffer(data_type: DataType, buffer: &str) -> (r: Result<
        Option<LexicalValue>,
        Error,
    >)
        ensures
            reads_buffer(data_type, buffer@, r),
    {
        match data_type {
            DataType::AnyUri | DataType::IriReference => {
                let iri = Iri::new(buffer)?;
                Ok(Some(LexicalValue::new_iri_with_datatype(&iri, data_type)?))
            },
            DataType::BlankNode => {
                Ok(Some(LexicalValue::new_blank_node_with_datatype(buffer, data_type)?))
            },
            DataType::Boolean => {
                proof {
                    reveal_strlit("true");
                    reveal_strlit("false");
                }
                if str_eq(buffer, "true") {
                    Ok(Some(LexicalValue::new_boolean_with_datatype(true, data_type)?))
                } else if str_eq(buffer, "false") {
                    Ok(Some(LexicalValue::new_boolean_with_datatype(false, data_type)?))
                } else {
                    Err(Error::UnknownNTriplesValue { value: string_of_str(buffer) })
                }
            },
            DataType::String | DataType::PlainLiteral => {
                Ok(Some(LexicalValue::new_string_with_datatype(buffer, data_type)?))
            },
            DataType::UnboundValue => Ok(None),
            _ => Err(Error::Unknown),
        }
    }

    /// The value of a data type read from a buffer that holds a
    /// nul-terminated UTF-8 text (see `from_type_and_buffer`); `Unknown`
    /// where the buffer holds no nul byte or the bytes before the first one
    /// are not UTF-8.
    pub fn from_type_and_c_buffer(data_type: DataType, buffer: &[u8]) -> (r: Result<
        Option<LexicalValue>,
        Error,
    >)
        ensures
            reads_c_buffer(data_type, buffer@, r),
    {
        let mut bytes: Vec<u8> = Vec::new();
        let mut i: usize = 0;
        while i < buffer.len()
            invariant
                i <= buffer@.len(),
                bytes@ == buffer@.subrange(0, i as int),
                forall|j: int| 0 <= j < i ==> buffer@[j] != 0u8,
            decreases buffer@.len() - i,
        {
            if buffer[i] == 0u8 {
                proof {
                    lemma_first_nul(buffer@, i as int);
                }
                return match utf8_decode(bytes.as_slice()) {
                    Some(s) => LexicalValue::from_type_and_buffer(data_type, s.as_str()),
                    None => Err(Error::Unknown),
                };
            }
            bytes.push(buffer[i]);
            i = i + 1;
            assert(bytes@ =~= buffer@.subrange(0, i as int));
        }
        Err(Error::Unknown)
    }

    /// An IRI value of data type `IriReference`.
    pub fn from_iri(iri: &Iri) -> (r: Result<LexicalValue, Error>)
        ensures
            r matches Ok(v) && v.wf() && v@.data_type == DataType::IriReference && v@.content
                == LexicalContent::Iri(iri@),
    {
        Ok(LexicalValue { data_type: DataType::IriReference, value: LexicalValueUnion::Iri(iri.clone()) })
    }

    /// A string value of data type `PlainLiteral`.
    pub fn new_plain_literal_string(s: &str) -> (r: Result<LexicalValue, Error>)
        ensures
            r matches Ok(v) && v.wf() && v@.data_type == DataType::PlainLiteral && v@.content
                == LexicalContent::String(s@),
    {
        LexicalValue::new_string_with_datatype(s, DataType::PlainLiteral)
    }

    /// A value of data type `PlainLiteral` holding the text `true` or
    /// `false`.
    pub fn new_plain_literal_boolean(boolean: bool) -> (r: Result<LexicalValue, Error>)
        ensures
            r matches Ok(v) && v.wf() && v@.data_type == DataType::PlainLiteral && v@.content
                == LexicalContent::String(boolean_text(boolean)),
    {
        let text = if boolean {
            "true"
        } else {
            "false"
        };
        LexicalValue::new_string_with_datatype(text, DataType::PlainLiteral)
    }

    /// A string value of a string data type.
    pub fn new_string_with_datatype(s: &str, data_type: DataType) -> (r: Result<LexicalValue, Error>)
        requires
            data_type.spec_is_string(),
        ensures
            r matches Ok(v) && v.wf() && v@.data_type == data_type && v@.content
                == LexicalContent::String(s@),
    {
        Ok(LexicalValue { data_type, value: LexicalValueUnion::String(string_of_str(s)) })
    }

    /// An IRI value of an IRI data type, parsed from text;
    /// `IriParseError` where `iref` refuses the text.
    pub fn new_iri_from_string_with_datatype(iri_string: &str, data_type: DataType) -> (r: Result<
        LexicalValue,
        Error,
    >)
        requires
            data_type.spec_is_iri(),
        ensures
            r is Ok <==> iri_is_valid(iri_string@),
            r matches Ok(v) ==> v.wf() && v@.data_type == data_type && v@.content
                == LexicalContent::Iri(iri_string@),
            r matches Err(e) ==> e == Error::IriParseError(iri_parse_error(iri_string@)),
    {
        let iri = Iri::new(iri_string)?;
        LexicalValue::new_iri_with_datatype(&iri, data_type)
    }

    /// An IRI value of an IRI data type.
    pub fn new_iri_with_datatype(iri: &Iri, data_type: DataType) -> (r: Result<LexicalValue, Error>)
        requires
            data_type.spec_is_iri(),
        ensures
            r matches Ok(v) && v.wf() && v@.data_type == data_type && v@.content
                == LexicalContent::Iri(iri@),
    {
        Ok(LexicalValue { data_type, value: LexicalValueUnion::Iri(iri.clone()) })
    }

    /// A blank node value of the blank node data type.
    pub fn new_blank_node_with_datatype(id: &str, data_type: DataType) -> (r: Result<LexicalValue, Error>)
        requires
            data_type.spec_is_blank_node(),
        ensures
            r matches Ok(v) && v.wf() && v@.data_type == data_type && v@.content
                == LexicalContent::BlankNode(id@),
    {
        Ok(LexicalValue { data_type, value: LexicalValueUnion::BlankNode(string_of_str(id)) })
    }

    /// A boolean value of data type `Boolean`.
    pub fn new_boolean(boolean: bool) -> (r: Result<LexicalValue, Error>)
        ensures
            r matches Ok(v) && v.wf() && v@.data_type == DataType::Boolean && v@.content
                == LexicalContent::Boolean(boolean),
    {
        LexicalValue::new_boolean_with_datatype(boolean, DataType::Boolean)
    }

    /// A boolean value of data type `Boolean` read from `true` or `false`;
    /// `UnknownValueForDataType` for any other text.
    pub fn new_boolean_from_string(boolean_string: &str) -> (r: Result<LexicalValue, Error>)
        ensures
            boolean_string@ == boolean_text(true) || boolean_string@ == boolean_text(false) ==> (r matches Ok(v)
                && v.wf() && v@.data_type == DataType::Boolean && v@.content
                == LexicalContent::Boolean(boolean_string@ == boolean_text(true))),
            !(boolean_string@ == boolean_text(true) || boolean_string@ == boolean_text(false)) ==> (r matches Err(
                Error::UnknownValueForDataType { data_type: dt, value },
            ) && dt == DataType::Boolean && value@ == boolean_string@),
    {
        LexicalValue::new_boolean_from_string_with_datatype(boolean_string, DataType::Boolean)
    }

    /// A boolean value of a boolean data type read from `true` or `false`;
    /// `UnknownValueForDataType` for any other text.
    pub fn new_boolean_from_string_with_datatype(boolean_string: &str, data_type: DataType) -> (r:
        Result<LexicalValue, Error>)
        requires
            boolean_string@ == boolean_text(true) || boolean_string@ == boolean_text(false)
                ==> data_type.spec_is_boolean(),
        ensures
            boolean_string@ == boolean_text(true) || boolean_string@ == boolean_text(false) ==> (r matches Ok(v)
                && v.wf() && v@.data_type == data_type && v@.content
                == LexicalContent::Boolean(boolean_string@ == boolean_text(true))),
            !(boolean_string@ == boolean_text(true) || boolean_string@ == boolean_text(false)) ==> (r matches Err(
                Error::UnknownValueForDataType { data_type: dt, value },
            ) && dt == data_type && value@ == boolean_string@),
    {
        proof {
            reveal_strlit("true");
            reveal_strlit("false");
        }
        if str_eq(boolean_string, "true") {
            LexicalValue::new_boolean_with_datatype(true, data_type)
        } else if str_eq(boolean_string, "false") {
            LexicalValue::new_boolean_with_datatype(false, data_type)
        } else {
            Err(Error::UnknownValueForDataType { data_type, value: string_of_str(boolean_string) })
        }
    }

    /// A boolean value of a boolean data type.
    pub fn new_boolean_with_datatype(boolean: bool, data_type: DataType) -> (r: Result<LexicalValue, Error>)
        requires
            data_type.spec_is_boolean(),
        ensures
            r matches Ok(v) && v.wf() && v@.data_type == data_type && v@.content
                == LexicalContent::Boolean(boolean),
    {
        Ok(LexicalValue { data_type, value: LexicalValueUnion::Boolean(boolean) })
    }

    /// An integer value: of data type `PositiveInteger` where the integer is
    /// not negative, else of data type `NegativeInteger`.
    pub fn new_signed_integer(signed_integer: i64) -> (r: Result<LexicalValue, Error>)
        ensures
            signed_integer >= 0 ==> (r matches Ok(v) && v.wf() && v@.data_type == DataType::PositiveInteger
                && v@.content == LexicalContent::UnsignedInteger(signed_integer as u64)),
            signed_integer < 0 ==> (r matches Ok(v) && v.wf() && v@.data_type == DataType::NegativeInteger
                && v@.content == LexicalContent::SignedInteger(signed_integer)),
    {
        if signed_integer >= 0 {
            LexicalValue::new_unsigned_integer(signed_integer as u64)
        } else {
            LexicalValue::new_signed_integer_with_datatype(signed_integer, DataType::NegativeInteger)
        }
    }

    /// An integer value of a signed integer data type.
    pub fn new_signed_integer_with_datatype(signed_integer: i64, data_type: DataType) -> (r: Result<
        LexicalValue,
        Error,
    >)
        requires
            data_type.spec_is_signed_integer(),
        ensures
            r matches Ok(v) && v.wf() && v@.data_type == data_type && v@.content
                == LexicalContent::SignedInteger(signed_integer),
    {
        Ok(LexicalValue { data_type, value: LexicalValueUnion::SignedInteger(signed_integer) })
    }

    /// An integer value of data type `PositiveInteger`.
    pub fn new_unsigned_integer(unsigned_integer: u64) -> (r: Result<LexicalValue, Error>)
        ensures
            r matches Ok(v) && v.wf() && v@.data_type == DataType::PositiveInteger && v@.content
                == LexicalContent::UnsignedInteger(unsigned_integer),
    {
        LexicalValue::new_unsigned_integer_with_datatype(unsigned_integer, DataType::PositiveInteger)
    }

    /// An integer value of an unsigned integer data type.
    pub fn new_unsigned_integer_with_datatype(unsigned_integer: u64, data_type: DataType) -> (r:
        Result<LexicalValue, Error>)
        requires
            data_type.spec_is_unsigned_integer(),
        ensures
            r matches Ok(v) && v.wf() && v@.data_type == data_type && v@.content
                == LexicalContent::UnsignedInteger(unsigned_integer),
    {
        Ok(LexicalValue { data_type, value: LexicalValueUnion::UnsignedInteger(unsigned_integer) })
    }

    /// The value as a term: an IRI term for an IRI of data type
    /// `IriReference` or `AnyUri`, a blank node term for a blank node, and a
    /// literal for everything else. Integer values cannot be copied into a
    /// term.
    pub fn as_term(&self) -> (r: Term)
        requires
            self.wf(),
            !self@.data_type.spec_is_signed_integer(),
            !self@.data_type.spec_is_unsigned_integer(),
        ensures
            r.value()@ == self@,
            r is Iri <==> self@.data_type.spec_is_iri(),
            r is BlankNode <==> self@.data_type.spec_is_blank_node(),
    {
        match self.data_type {
            DataType::IriReference | DataType::AnyUri => Term::Iri(self.duplicate()),
            DataType::BlankNode => Term::BlankNode(self.duplicate()),
            _ => Term::Literal(self.duplicate()),
        }
    }

    /// The value for display: an IRI in angle brackets, a blank node after
    /// `_:`, and otherwise the data type's name, `=` and the value's text.
    /// Integer values have no text to show.
    pub fn to_string(&self) -> (r: String)
        requires
            self.wf(),
            !self@.data_type.spec_is_signed_integer(),
            !self@.data_type.spec_is_unsigned_integer(),
        ensures
            r@ == display_text(self@),
    {
        let mut v: Vec<char> = Vec::new();
        if self.data_type.is_iri() {
            v.push('<');
            push_str(&mut v, self.as_str().unwrap());
            v.push('>');
        } else if self.data_type.is_blank_node() {
            v.push('_');
            v.push(':');
            push_str(&mut v, self.as_str().unwrap());
        } else {
            push_str(&mut v, self.data_type.name());
            v.push('=');
            push_str(&mut v, self.as_str().unwrap());
        }
        proof {
            assert(v@ =~= display_text(self@));
        }
        string_of_chars(&v)
    }

    /// The value in Turtle notation.
    pub fn display_turtle(&self) -> (r: String)
        requires
            self.wf(),
        ensures
            r@ == turtle(self@.content),
    {
        let mut v: Vec<char> = Vec::new();
        match &self.value {
            LexicalValueUnion::Iri(i) => {
                v.push('<');
                push_str(&mut v, i.as_str());
                v.push('>');
            },
            LexicalValueUnion::String(s) => {
                v.push('"');
                push_escaped(&mut v, s.as_str());
                v.push('"');
            },
            LexicalValueUnion::BlankNode(s) => {
                v.push('_');
                v.push(':');
                push_str(&mut v, s.as_str());
            },
            LexicalValueUnion::Boolean(b) => {
                if *b {
                    push_str(&mut v, "true");
                } else {
                    push_str(&mut v, "false");
                }
            },
            LexicalValueUnion::SignedInteger(n) => {
                push_signed_decimal(&mut v, *n);
            },
            LexicalValueUnion::UnsignedInteger(n) => {
                push_decimal(&mut v, *n);
            },
        }
        proof {
            assert(v@ =~= turtle(self@.content));
        }
        string_of_chars(&v)
    }
}

impl core::str::FromStr for LexicalValue {
    type Err = Error;

    /// A string value of data type `PlainLiteral`.
    fn from_str(s: &str) -> (r: Result<LexicalValue, Error>)
        ensures
            r matches Ok(v) && v.wf() && v@.data_type == DataType::PlainLiteral && v@.content
                == LexicalContent::String(s@),
    {
        LexicalValue::new_plain_literal_string(s)
    }
}

/// Whether a byte sequence holds a nul byte.
pub open spec fn has_nul_byte(b: Seq<u8>) -> bool {
    exists|i: int| 0 <= i < b.len() && b[i] == 0u8
}

/// The bytes before the first nul byte.
pub open spec fn before_nul(b: Seq<u8>) -> Seq<u8> {
    b.subrange(0, first_nul(b))
}

/// The position of the first nul byte (the length where there is none).
pub open spec fn first_nul(b: Seq<u8>) -> int
    decreases b.len(),
{
    if b.len() == 0 {
        0
    } else if b[0] == 0u8 {
        0
    } else {
        1 + first_nul(b.drop_first())
    }
}

proof fn lemma_first_nul(b: Seq<u8>, i: int)
    requires
        0 <= i < b.len(),
        b[i] == 0u8,
        forall|j: int| 0 <= j < i ==> b[j] != 0u8,
    ensures
        first_nul(b) == i,
        has_nul_byte(b),
    decreases i,
{
    if i > 0 {
        lemma_first_nul(b.drop_first(), i - 1);
    }
}

/// Appends a text to `v` with each `"` preceded by a backslash.
fn push_escaped(v: &mut Vec<char>, s: &str)
    ensures
        final(v)@ == old(v)@ + escape_quotes(s@),
{
    let cs = chars_of(s);
    let mut i: usize = 0;
    while i < cs.len()
        invariant
            i <= cs@.len(),
            cs@ == s@,
            v@ == old(v)@ + escape_quotes(cs@.subrange(0, i as int)),
        decreases cs@.len() - i,
    {
        let c = cs[i];
        if c == '"' {
            v.push('\\');
            v.push('"');
        } else {
            v.push(c);
        }
        i = i + 1;
        proof {
            let p = cs@.subrange(0, i as int);
            assert(p.drop_last() =~= cs@.subrange(0, i - 1));
        }
    }
    assert(cs@.subrange(0, cs@.len() as int) =~= cs@);
}

/// Reading the text a boolean shows as gives back that boolean, and the
/// text of any other value read from a buffer is that buffer.
pub proof fn law_text_read_back(b: bool, data_type: DataType, buffer: Seq<char>)
    ensures
        content_from_buffer(DataType::Boolean, boolean_text(b)) == LexicalContent::Boolean(b),
        text_of(content_from_buffer(DataType::Boolean, boolean_text(b))) == Some(boolean_text(b)),
        !data_type.spec_is_boolean() ==> text_of(content_from_buffer(data_type, buffer)) == Some(
            buffer,
        ),
{
    reveal_strlit("true");
    reveal_strlit("false");
    assert("false"@.len() != "true"@.len());
}

/// The Turtle of a boolean is its text, and reads back as that boolean:
/// reading the Turtle of `b` as a value of data type `Boolean` gives `b`,
/// so the two booleans are written differently.
pub proof fn law_boolean_turtle_reads_back(b: bool)
    ensures
        turtle(LexicalContent::Boolean(b)) == text_of(LexicalContent::Boolean(b))->0,
        content_from_buffer(DataType::Boolean, turtle(LexicalContent::Boolean(b)))
            == LexicalContent::Boolean(b),
        turtle(LexicalContent::Boolean(true)) != turtle(LexicalContent::Boolean(false)),
{
    reveal_strlit("true");
    reveal_strlit("false");
    assert("false"@.len() != "true"@.len());
}

} // verus!
