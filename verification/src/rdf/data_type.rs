use vstd::prelude::*;

use crate::error::Error;
use crate::text::str_eq;

verus! {

/// The data types that the engine assigns to resources, numbered by their
/// data type id (the position in this list, starting at 0). The default is
/// `Boolean`, the type of the engine's default lexical value `false`.
#[derive(Debug, PartialEq, Eq, Structural, Hash, Copy, Clone)]
pub enum DataType {
    UnboundValue,
    BlankNode,
    IriReference,
    Literal,
    AnyUri,
    String,
    PlainLiteral,
    Boolean,
    DateTime,
    DateTimeStamp,
    Time,
    Date,
    YearMonth,
    Year,
    MonthDay,
    Day,
    Month,
    Duration,
    YearMonthDuration,
    DayTimeDuration,
    Double,
    Float,
    Decimal,
    Integer,
    NonNegativeInteger,
    NonPositiveInteger,
    NegativeInteger,
    PositiveInteger,
    Long,
    Int,
    Short,
    Byte,
    UnsignedLong,
    UnsignedInt,
    UnsignedShort,
    UnsignedByte,
}

impl Default for DataType {
    fn default() -> (r: DataType)
        ensures
            r == DataType::Boolean,
    {
        DataType::Boolean
    }
}

/// The data type with the given id, if there is one.
pub open spec fn data_type_of_id(id: u8) -> Option<DataType> {
    match id {
        0u8 => Some(DataType::UnboundValue),
        1u8 => Some(DataType::BlankNode),
        2u8 => Some(DataType::IriReference),
        3u8 => Some(DataType::Literal),
        4u8 => Some(DataType::AnyUri),
        5u8 => Some(DataType::String),
        6u8 => Some(DataType::PlainLiteral),
        7u8 => Some(DataType::Boolean),
        8u8 => Some(DataType::DateTime),
        9u8 => Some(DataType::DateTimeStamp),
        10u8 => Some(DataType::Time),
        11u8 => Some(DataType::Date),
        12u8 => Some(DataType::YearMonth),
        13u8 => Some(DataType::Year),
        14u8 => Some(DataType::MonthDay),
        15u8 => Some(DataType::Day),
        16u8 => Some(DataType::Month),
        17u8 => Some(DataType::Duration),
        18u8 => Some(DataType::YearMonthDuration),
        19u8 => Some(DataType::DayTimeDuration),
        20u8 => Some(DataType::Double),
        21u8 => Some(DataType::Float),
        22u8 => Some(DataType::Decimal),
        23u8 => Some(DataType::Integer),
        24u8 => Some(DataType::NonNegativeInteger),
        25u8 => Some(DataType::NonPositiveInteger),
        26u8 => Some(DataType::NegativeInteger),
        27u8 => Some(DataType::PositiveInteger),
        28u8 => Some(DataType::Long),
        29u8 => Some(DataType::Int),
        30u8 => Some(DataType::Short),
        31u8 => Some(DataType::Byte),
        32u8 => Some(DataType::UnsignedLong),
        33u8 => Some(DataType::UnsignedInt),
        34u8 => Some(DataType::UnsignedShort),
        35u8 => Some(DataType::UnsignedByte),
        _ => None,
    }
}

/// The id of a data type.
pub open spec fn id_of_data_type(data_type: DataType) -> u8 {
    match data_type {
        DataType::UnboundValue => 0u8,
        DataType::BlankNode => 1u8,
        DataType::IriReference => 2u8,
        DataType::Literal => 3u8,
        DataType::AnyUri => 4u8,
        DataType::String => 5u8,
        DataType::PlainLiteral => 6u8,
        DataType::Boolean => 7u8,
        DataType::DateTime => 8u8,
        DataType::DateTimeStamp => 9u8,
        DataType::Time => 10u8,
        DataType::Date => 11u8,
        DataType::YearMonth => 12u8,
        DataType::Year => 13u8,
        DataType::MonthDay => 14u8,
        DataType::Day => 15u8,
        DataType::Month => 16u8,
        DataType::Duration => 17u8,
        DataType::YearMonthDuration => 18u8,
        DataType::DayTimeDuration => 19u8,
        DataType::Double => 20u8,
        DataType::Float => 21u8,
        DataType::Decimal => 22u8,
        DataType::Integer => 23u8,
        DataType::NonNegativeInteger => 24u8,
        DataType::NonPositiveInteger => 25u8,
        DataType::NegativeInteger => 26u8,
        DataType::PositiveInteger => 27u8,
        DataType::Long => 28u8,
        DataType::Int => 29u8,
        DataType::Short => 30u8,
        DataType::Byte => 31u8,
        DataType::UnsignedLong => 32u8,
        DataType::UnsignedInt => 33u8,
        DataType::UnsignedShort => 34u8,
        DataType::UnsignedByte => 35u8,
    }
}

/// The data type that an XML Schema data type IRI stands for, if the
/// library knows it.
pub open spec fn data_type_of_xsd_iri(iri: Seq<char>) -> Option<DataType> {
    if iri == "http://www.w3.org/2001/XMLSchema#boolean"@ {
        Some(DataType::Boolean)
    } else if iri == "http://www.w3.org/2001/XMLSchema#byte"@ {
        Some(DataType::Byte)
    } else if iri == "http://www.w3.org/2001/XMLSchema#date"@ {
        Some(DataType::Date)
    } else if iri == "http://www.w3.org/2001/XMLSchema#dateTime"@ {
        Some(DataType::DateTime)
    } else if iri == "http://www.w3.org/2001/XMLSchema#dateTimeStamp"@ {
        Some(DataType::DateTimeStamp)
    } else if iri == "http://www.w3.org/2001/XMLSchema#day"@ {
        Some(DataType::Day)
    } else if iri == "http://www.w3.org/2001/XMLSchema#dayTimeDuration"@ {
        Some(DataType::DayTimeDuration)
    } else if iri == "http://www.w3.org/2001/XMLSchema#decimal"@ {
        Some(DataType::Decimal)
    } else if iri == "http://www.w3.org/2001/XMLSchema#double"@ {
        Some(DataType::Double)
    } else if iri == "http://www.w3.org/2001/XMLSchema#duration"@ {
        Some(DataType::Duration)
    } else if iri == "http://www.w3.org/2001/XMLSchema#float"@ {
        Some(DataType::Float)
    } else if iri == "http://www.w3.org/2001/XMLSchema#int"@ {
        Some(DataType::Int)
    } else if iri == "http://www.w3.org/2001/XMLSchema#integer"@ {
        Some(DataType::Integer)
    } else if iri == "http://www.w3.org/2001/XMLSchema#long"@ {
        Some(DataType::Long)
    } else if iri == "http://www.w3.org/2001/XMLSchema#month"@ {
        Some(DataType::Month)
    } else if iri == "http://www.w3.org/2001/XMLSchema#monthDay"@ {
        Some(DataType::MonthDay)
    } else if iri == "http://www.w3.org/2001/XMLSchema#negativeInteger"@ {
        Some(DataType::NegativeInteger)
    } else if iri == "http://www.w3.org/2001/XMLSchema#nonNegativeInteger"@ {
        Some(DataType::NonNegativeInteger)
    } else if iri == "http://www.w3.org/2001/XMLSchema#nonPositiveInteger"@ {
        Some(DataType::NonPositiveInteger)
    } else if iri == "http://www.w3.org/2001/XMLSchema#short"@ {
        Some(DataType::Short)
    } else if iri == "http://www.w3.org/2001/XMLSchema#string"@ {
        Some(DataType::String)
    } else if iri == "http://www.w3.org/2001/XMLSchema#time"@ {
        Some(DataType::Time)
    } else if iri == "http://www.w3.org/2001/XMLSchema#unsignedByte"@ {
        Some(DataType::UnsignedByte)
    } else if iri == "http://www.w3.org/2001/XMLSchema#unsignedInt"@ {
        Some(DataType::UnsignedInt)
    } else if iri == "http://www.w3.org/2001/XMLSchema#unsignedLong"@ {
        Some(DataType::UnsignedLong)
    } else if iri == "http://www.w3.org/2001/XMLSchema#unsignedShort"@ {
        Some(DataType::UnsignedShort)
    } else if iri == "http://www.w3.org/2001/XMLSchema#year"@ {
        Some(DataType::Year)
    } else if iri == "http://www.w3.org/2001/XMLSchema#yearMonth"@ {
        Some(DataType::YearMonth)
    } else if iri == "http://www.w3.org/2001/XMLSchema#yearMonthDuration"@ {
        Some(DataType::YearMonthDuration)
    } else {
        None
    }
}

/// The name of a data type, as `Debug` prints it.
pub open spec fn data_type_name(data_type: DataType) -> Seq<char> {
    match data_type {
        DataType::UnboundValue => "UnboundValue"@,
        DataType::BlankNode => "BlankNode"@,
        DataType::IriReference => "IriReference"@,
        DataType::Literal => "Literal"@,
        DataType::AnyUri => "AnyUri"@,
        DataType::String => "String"@,
        DataType::PlainLiteral => "PlainLiteral"@,
        DataType::Boolean => "Boolean"@,
        DataType::DateTime => "DateTime"@,
        DataType::DateTimeStamp => "DateTimeStamp"@,
        DataType::Time => "Time"@,
        DataType::Date => "Date"@,
        DataType::YearMonth => "YearMonth"@,
        DataType::Year => "Year"@,
        DataType::MonthDay => "MonthDay"@,
        DataType::Day => "Day"@,
        DataType::Month => "Month"@,
        DataType::Duration => "Duration"@,
        DataType::YearMonthDuration => "YearMonthDuration"@,
        DataType::DayTimeDuration => "DayTimeDuration"@,
        DataType::Double => "Double"@,
        DataType::Float => "Float"@,
        DataType::Decimal => "Decimal"@,
        DataType::Integer => "Integer"@,
        DataType::NonNegativeInteger => "NonNegativeInteger"@,
        DataType::NonPositiveInteger => "NonPositiveInteger"@,
        DataType::NegativeInteger => "NegativeInteger"@,
        DataType::PositiveInteger => "PositiveInteger"@,
        DataType::Long => "Long"@,
        DataType::Int => "Int"@,
        DataType::Short => "Short"@,
        DataType::Byte => "Byte"@,
        DataType::UnsignedLong => "UnsignedLong"@,
        DataType::UnsignedInt => "UnsignedInt"@,
        DataType::UnsignedShort => "UnsignedShort"@,
        DataType::UnsignedByte => "UnsignedByte"@,
    }
}

impl DataType {
    pub open spec fn spec_is_string(self) -> bool {
        match self {
            DataType::String | DataType::PlainLiteral => true,
            _ => false,
        }
    }

    pub open spec fn spec_is_iri(self) -> bool {
        match self {
            DataType::AnyUri | DataType::IriReference => true,
            _ => false,
        }
    }

    pub open spec fn spec_is_boolean(self) -> bool {
        match self {
            DataType::Boolean => true,
            _ => false,
        }
    }

    pub open spec fn spec_is_date(self) -> bool {
        match self {
            DataType::Date => true,
            _ => false,
        }
    }

    pub open spec fn spec_is_date_time(self) -> bool {
        match self {
            DataType::DateTime => true,
            _ => false,
        }
    }

    pub open spec fn spec_is_decimal(self) -> bool {
        match self {
            DataType::Decimal => true,
            _ => false,
        }
    }

    pub open spec fn spec_is_date_time_stamp(self) -> bool {
        match self {
            DataType::DateTimeStamp => true,
            _ => false,
        }
    }

    pub open spec fn spec_is_duration(self) -> bool {
        match self {
            DataType::Duration => true,
            _ => false,
        }
    }

    pub open spec fn spec_is_signed_integer(self) -> bool {
        match self {
            DataType::Int | DataType::Integer | DataType::NegativeInteger | DataType::NonPositiveInteger | DataType::Long | DataType::Short => true,
            _ => false,
        }
    }

    pub open spec fn spec_is_unsigned_integer(self) -> bool {
        match self {
            DataType::PositiveInteger | DataType::NonNegativeInteger | DataType::UnsignedByte | DataType::UnsignedInt | DataType::UnsignedShort | DataType::UnsignedLong => true,
            _ => false,
        }
    }

    pub open spec fn spec_is_blank_node(self) -> bool {
        match self {
            DataType::BlankNode => true,
            _ => false,
        }
    }

    /// The data type with the given id; `UnknownDataType` where no data type
    /// has that id.
    pub fn from_datatype_id(data_type_id: u8) -> (r: Result<DataType, Error>)
        ensures
            match data_type_of_id(data_type_id) {
                Some(dt) => r == Ok::<DataType, Error>(dt),
                None => r matches Err(Error::UnknownDataType { data_type_id: id }) && id == data_type_id,
            },
    {
        match data_type_id {
            0u8 => Ok(DataType::UnboundValue),
            1u8 => Ok(DataType::BlankNode),
            2u8 => Ok(DataType::IriReference),
            3u8 => Ok(DataType::Literal),
            4u8 => Ok(DataType::AnyUri),
            5u8 => Ok(DataType::String),
            6u8 => Ok(DataType::PlainLiteral),
            7u8 => Ok(DataType::Boolean),
            8u8 => Ok(DataType::DateTime),
            9u8 => Ok(DataType::DateTimeStamp),
            10u8 => Ok(DataType::Time),
            11u8 => Ok(DataType::Date),
            12u8 => Ok(DataType::YearMonth),
            13u8 => Ok(DataType::Year),
            14u8 => Ok(DataType::MonthDay),
            15u8 => Ok(DataType::Day),
            16u8 => Ok(DataType::Month),
            17u8 => Ok(DataType::Duration),
            18u8 => Ok(DataType::YearMonthDuration),
            19u8 => Ok(DataType::DayTimeDuration),
            20u8 => Ok(DataType::Double),
            21u8 => Ok(DataType::Float),
            22u8 => Ok(DataType::Decimal),
            23u8 => Ok(DataType::Integer),
            24u8 => Ok(DataType::NonNegativeInteger),
            25u8 => Ok(DataType::NonPositiveInteger),
            26u8 => Ok(DataType::NegativeInteger),
            27u8 => Ok(DataType::PositiveInteger),
            28u8 => Ok(DataType::Long),
            29u8 => Ok(DataType::Int),
            30u8 => Ok(DataType::Short),
            31u8 => Ok(DataType::Byte),
            32u8 => Ok(DataType::UnsignedLong),
            33u8 => Ok(DataType::UnsignedInt),
            34u8 => Ok(DataType::UnsignedShort),
            35u8 => Ok(DataType::UnsignedByte),
            _ => Err(Error::UnknownDataType { data_type_id }),
        }
    }

    /// The name of the data type, as `Debug` prints it.
    pub fn name(&self) -> (r: &'static str)
        ensures
            r@ == data_type_name(*self),
    {
        match self {
            DataType::UnboundValue => "UnboundValue",
            DataType::BlankNode => "BlankNode",
            DataType::IriReference => "IriReference",
            DataType::Literal => "Literal",
            DataType::AnyUri => "AnyUri",
            DataType::String => "String",
            DataType::PlainLiteral => "PlainLiteral",
            DataType::Boolean => "Boolean",
            DataType::DateTime => "DateTime",
            DataType::DateTimeStamp => "DateTimeStamp",
            DataType::Time => "Time",
            DataType::Date => "Date",
            DataType::YearMonth => "YearMonth",
            DataType::Year => "Year",
            DataType::MonthDay => "MonthDay",
            DataType::Day => "Day",
            DataType::Month => "Month",
            DataType::Duration => "Duration",
            DataType::YearMonthDuration => "YearMonthDuration",
            DataType::DayTimeDuration => "DayTimeDuration",
            DataType::Double => "Double",
            DataType::Float => "Float",
            DataType::Decimal => "Decimal",
            DataType::Integer => "Integer",
            DataType::NonNegativeInteger => "NonNegativeInteger",
            DataType::NonPositiveInteger => "NonPositiveInteger",
            DataType::NegativeInteger => "NegativeInteger",
            DataType::PositiveInteger => "PositiveInteger",
            DataType::Long => "Long",
            DataType::Int => "Int",
            DataType::Short => "Short",
            DataType::Byte => "Byte",
            DataType::UnsignedLong => "UnsignedLong",
            DataType::UnsignedInt => "UnsignedInt",
            DataType::UnsignedShort => "UnsignedShort",
            DataType::UnsignedByte => "UnsignedByte",
        }
    }

    /// The id of this data type.
    pub fn id(&self) -> (r: u8)
        ensures
            r == id_of_data_type(*self),
    {
        match self {
            DataType::UnboundValue => 0u8,
            DataType::BlankNode => 1u8,
            DataType::IriReference => 2u8,
            DataType::Literal => 3u8,
            DataType::AnyUri => 4u8,
            DataType::String => 5u8,
            DataType::PlainLiteral => 6u8,
            DataType::Boolean => 7u8,
            DataType::DateTime => 8u8,
            DataType::DateTimeStamp => 9u8,
            DataType::Time => 10u8,
            DataType::Date => 11u8,
            DataType::YearMonth => 12u8,
            DataType::Year => 13u8,
            DataType::MonthDay => 14u8,
            DataType::Day => 15u8,
            DataType::Month => 16u8,
            DataType::Duration => 17u8,
            DataType::YearMonthDuration => 18u8,
            DataType::DayTimeDuration => 19u8,
            DataType::Double => 20u8,
            DataType::Float => 21u8,
            DataType::Decimal => 22u8,
            DataType::Integer => 23u8,
            DataType::NonNegativeInteger => 24u8,
            DataType::NonPositiveInteger => 25u8,
            DataType::NegativeInteger => 26u8,
            DataType::PositiveInteger => 27u8,
            DataType::Long => 28u8,
            DataType::Int => 29u8,
            DataType::Short => 30u8,
            DataType::Byte => 31u8,
            DataType::UnsignedLong => 32u8,
            DataType::UnsignedInt => 33u8,
            DataType::UnsignedShort => 34u8,
            DataType::UnsignedByte => 35u8,
        }
    }

    /// The data type that an XML Schema data type IRI stands for;
    /// `UnknownXsdDataType` with that IRI where the library knows none.
    pub fn from_xsd_iri(iri: &str) -> (r: Result<DataType, Error>)
        ensures
            match data_type_of_xsd_iri(iri@) {
                Some(dt) => r == Ok::<DataType, Error>(dt),
                None => r matches Err(Error::UnknownXsdDataType { data_type_iri: s }) && s@ == iri@,
            },
    {
        if str_eq(iri, "http://www.w3.org/2001/XMLSchema#boolean") {
            Ok(DataType::Boolean)
        } else if str_eq(iri, "http://www.w3.org/2001/XMLSchema#byte") {
            Ok(DataType::Byte)
        } else if str_eq(iri, "http://www.w3.org/2001/XMLSchema#date") {
            Ok(DataType::Date)
        } else if str_eq(iri, "http://www.w3.org/2001/XMLSchema#dateTime") {
            Ok(DataType::DateTime)
        } else if str_eq(iri, "http://www.w3.org/2001/XMLSchema#dateTimeStamp") {
            Ok(DataType::DateTimeStamp)
        } else if str_eq(iri, "http://www.w3.org/2001/XMLSchema#day") {
            Ok(DataType::Day)
        } else if str_eq(iri, "http://www.w3.org/2001/XMLSchema#dayTimeDuration") {
            Ok(DataType::DayTimeDuration)
        } else if str_eq(iri, "http://www.w3.org/2001/XMLSchema#decimal") {
            Ok(DataType::Decimal)
        } else if str_eq(iri, "http://www.w3.org/2001/XMLSchema#double") {
            Ok(DataType::Double)
        } else if str_eq(iri, "http://www.w3.org/2001/XMLSchema#duration") {
            Ok(DataType::Duration)
        } else if str_eq(iri, "http://www.w3.org/2001/XMLSchema#float") {
            Ok(DataType::Float)
        } else if str_eq(iri, "http://www.w3.org/2001/XMLSchema#int") {
            Ok(DataType::Int)
        } else if str_eq(iri, "http://www.w3.org/2001/XMLSchema#integer") {
            Ok(DataType::Integer)
        } else if str_eq(iri, "http://www.w3.org/2001/XMLSchema#long") {
            Ok(DataType::Long)
        } else if str_eq(iri, "http://www.w3.org/2001/XMLSchema#month") {
            Ok(DataType::Month)
        } else if str_eq(iri, "http://www.w3.org/2001/XMLSchema#monthDay") {
            Ok(DataType::MonthDay)
        } else if str_eq(iri, "http://www.w3.org/2001/XMLSchema#negativeInteger") {
            Ok(DataType::NegativeInteger)
        } else if str_eq(iri, "http://www.w3.org/2001/XMLSchema#nonNegativeInteger") {
            Ok(DataType::NonNegativeInteger)
        } else if str_eq(iri, "http://www.w3.org/2001/XMLSchema#nonPositiveInteger") {
            Ok(DataType::NonPositiveInteger)
        } else if str_eq(iri, "http://www.w3.org/2001/XMLSchema#short") {
            Ok(DataType::Short)
        } else if str_eq(iri, "http://www.w3.org/2001/XMLSchema#string") {
            Ok(DataType::String)
        } else if str_eq(iri, "http://www.w3.org/2001/XMLSchema#time") {
            Ok(DataType::Time)
        } else if str_eq(iri, "http://www.w3.org/2001/XMLSchema#unsignedByte") {
            Ok(DataType::UnsignedByte)
        } else if str_eq(iri, "http://www.w3.org/2001/XMLSchema#unsignedInt") {
            Ok(DataType::UnsignedInt)
        } else if str_eq(iri, "http://www.w3.org/2001/XMLSchema#unsignedLong") {
            Ok(DataType::UnsignedLong)
        } else if str_eq(iri, "http://www.w3.org/2001/XMLSchema#unsignedShort") {
            Ok(DataType::UnsignedShort)
        } else if str_eq(iri, "http://www.w3.org/2001/XMLSchema#year") {
            Ok(DataType::Year)
        } else if str_eq(iri, "http://www.w3.org/2001/XMLSchema#yearMonth") {
            Ok(DataType::YearMonth)
        } else if str_eq(iri, "http://www.w3.org/2001/XMLSchema#yearMonthDuration") {
            Ok(DataType::YearMonthDuration)
        } else {
            Err(Error::UnknownXsdDataType { data_type_iri: crate::text::string_of_str(iri) })
        }
    }

    pub fn is_string(&self) -> (r: bool)
        ensures
            r == self.spec_is_string(),
    {
        match self {
            DataType::String | DataType::PlainLiteral => true,
            _ => false,
        }
    }

    pub fn is_iri(&self) -> (r: bool)
        ensures
            r == self.spec_is_iri(),
    {
        match self {
            DataType::AnyUri | DataType::IriReference => true,
            _ => false,
        }
    }

    pub fn is_boolean(&self) -> (r: bool)
        ensures
            r == self.spec_is_boolean(),
    {
        match self {
            DataType::Boolean => true,
            _ => false,
        }
    }

    pub fn is_date(&self) -> (r: bool)
        ensures
            r == self.spec_is_date(),
    {
        match self {
            DataType::Date => true,
            _ => false,
        }
    }

    pub fn is_date_time(&self) -> (r: bool)
        ensures
            r == self.spec_is_date_time(),
    {
        match self {
            DataType::DateTime => true,
            _ => false,
        }
    }

    pub fn is_decimal(&self) -> (r: bool)
        ensures
            r == self.spec_is_decimal(),
    {
        match self {
            DataType::Decimal => true,
            _ => false,
        }
    }

    pub fn is_date_time_stamp(&self) -> (r: bool)
        ensures
            r == self.spec_is_date_time_stamp(),
    {
        match self {
            DataType::DateTimeStamp => true,
            _ => false,
        }
    }

    pub fn is_duration(&self) -> (r: bool)
        ensures
            r == self.spec_is_duration(),
    {
        match self {
            DataType::Duration => true,
            _ => false,
        }
    }

    pub fn is_signed_integer(&self) -> (r: bool)
        ensures
            r == self.spec_is_signed_integer(),
    {
        match self {
            DataType::Int | DataType::Integer | DataType::NegativeInteger | DataType::NonPositiveInteger | DataType::Long | DataType::Short => true,
            _ => false,
        }
    }

    pub fn is_unsigned_integer(&self) -> (r: bool)
        ensures
            r == self.spec_is_unsigned_integer(),
    {
        match self {
            DataType::PositiveInteger | DataType::NonNegativeInteger | DataType::UnsignedByte | DataType::UnsignedInt | DataType::UnsignedShort | DataType::UnsignedLong => true,
            _ => false,
        }
    }

    pub fn is_blank_node(&self) -> (r: bool)
        ensures
            r == self.spec_is_blank_node(),
    {
        match self {
            DataType::BlankNode => true,
            _ => false,
        }
    }

}

/// The id of a data type names that data type: reading the id back gives
/// it.
pub proof fn law_data_type_id_round_trip(data_type: DataType)
    ensures
        data_type_of_id(id_of_data_type(data_type)) == Some(data_type),
{
}

/// Each id names at most one data type, and it is the id of that data type.
pub proof fn law_data_type_of_id_inverse(id: u8)
    ensures
        data_type_of_id(id) matches Some(dt) ==> id_of_data_type(dt) == id,
        data_type_of_id(id) is None <==> id > 35,
{
}

/// The data types in the engine's order: the engine numbers each data type
/// by its place in this list, from 0.
pub open spec fn engine_data_types() -> Seq<DataType> {
    seq![
        DataType::UnboundValue,
        DataType::BlankNode,
        DataType::IriReference,
        DataType::Literal,
        DataType::AnyUri,
        DataType::String,
        DataType::PlainLiteral,
        DataType::Boolean,
        DataType::DateTime,
        DataType::DateTimeStamp,
        DataType::Time,
        DataType::Date,
        DataType::YearMonth,
        DataType::Year,
        DataType::MonthDay,
        DataType::Day,
        DataType::Month,
        DataType::Duration,
        DataType::YearMonthDuration,
        DataType::DayTimeDuration,
        DataType::Double,
        DataType::Float,
        DataType::Decimal,
        DataType::Integer,
        DataType::NonNegativeInteger,
        DataType::NonPositiveInteger,
        DataType::NegativeInteger,
        DataType::PositiveInteger,
        DataType::Long,
        DataType::Int,
        DataType::Short,
        DataType::Byte,
        DataType::UnsignedLong,
        DataType::UnsignedInt,
        DataType::UnsignedShort,
        DataType::UnsignedByte,
    ]
}

/// The id of each data type is the engine's number for it, its place in
/// the engine's order (`Boolean` is 7, `DateTime` 8, ..., `UnsignedByte`
/// 35): reading an id gives the data type in that place, and no data type
/// has an id beyond the list.
pub proof fn law_data_type_ids_are_engine_numbers(id: u8)
    ensures
        engine_data_types().len() == 36,
        id < 36 ==> data_type_of_id(id) == Some(engine_data_types()[id as int]),
        id < 36 ==> id_of_data_type(engine_data_types()[id as int]) == id,
        id >= 36 ==> data_type_of_id(id) is None,
{
    assert(engine_data_types().len() == 36);
}

/// The namespace of the XML Schema data types.
pub open spec fn xsd_namespace() -> Seq<char> {
    "http://www.w3.org/2001/XMLSchema#"@
}

/// A letter in upper case; any other character as it is.
pub open spec fn upper_case(c: char) -> char {
    match c {
        'a' => 'A',
        'b' => 'B',
        'c' => 'C',
        'd' => 'D',
        'e' => 'E',
        'f' => 'F',
        'g' => 'G',
        'h' => 'H',
        'i' => 'I',
        'j' => 'J',
        'k' => 'K',
        'l' => 'L',
        'm' => 'M',
        'n' => 'N',
        'o' => 'O',
        'p' => 'P',
        'q' => 'Q',
        'r' => 'R',
        's' => 'S',
        't' => 'T',
        'u' => 'U',
        'v' => 'V',
        'w' => 'W',
        'x' => 'X',
        'y' => 'Y',
        'z' => 'Z',
        _ => c,
    }
}

/// A text with its first character in upper case.
pub open spec fn capitalised(s: Seq<char>) -> Seq<char> {
    if s.len() == 0 {
        s
    } else {
        seq![upper_case(s[0])] + s.skip(1)
    }
}

/// The data types that XML Schema names.
pub open spec fn has_xsd_iri(data_type: DataType) -> bool {
    match data_type {
        DataType::Boolean
        | DataType::Byte
        | DataType::Date
        | DataType::DateTime
        | DataType::DateTimeStamp
        | DataType::Day
        | DataType::DayTimeDuration
        | DataType::Decimal
        | DataType::Double
        | DataType::Duration
        | DataType::Float
        | DataType::Int
        | DataType::Integer
        | DataType::Long
        | DataType::Month
        | DataType::MonthDay
        | DataType::NegativeInteger
        | DataType::NonNegativeInteger
        | DataType::NonPositiveInteger
        | DataType::Short
        | DataType::String
        | DataType::Time
        | DataType::UnsignedByte
        | DataType::UnsignedInt
        | DataType::UnsignedLong
        | DataType::UnsignedShort
        | DataType::Year
        | DataType::YearMonth
        | DataType::YearMonthDuration => true,
        _ => false,
    }
}

/// An XML Schema IRI stands for the data type of the same name: where the
/// library knows the IRI, it is the XML Schema namespace followed by a
/// local name which, with its first letter in upper case, is the data
/// type's name (`dateTime` gives `DateTime`).
pub proof fn law_xsd_iri_names_its_data_type(iri: Seq<char>)
    ensures
        data_type_of_xsd_iri(iri) matches Some(dt) ==> iri.len() > xsd_namespace().len()
            && iri.subrange(0, xsd_namespace().len() as int) == xsd_namespace() && capitalised(
            iri.skip(xsd_namespace().len() as int),
        ) == data_type_name(dt) && has_xsd_iri(dt),
{
    reveal_strlit("http://www.w3.org/2001/XMLSchema#");
    if iri == "http://www.w3.org/2001/XMLSchema#boolean"@ {
        reveal_strlit("http://www.w3.org/2001/XMLSchema#boolean");
        reveal_strlit("boolean");
        reveal_strlit("Boolean");
        assert("http://www.w3.org/2001/XMLSchema#boolean"@ =~= xsd_namespace() + "boolean"@);
        assert(capitalised("boolean"@) =~= "Boolean"@);
    } else if iri == "http://www.w3.org/2001/XMLSchema#byte"@ {
        reveal_strlit("http://www.w3.org/2001/XMLSchema#byte");
        reveal_strlit("byte");
        reveal_strlit("Byte");
        assert("http://www.w3.org/2001/XMLSchema#byte"@ =~= xsd_namespace() + "byte"@);
        assert(capitalised("byte"@) =~= "Byte"@);
    } else if iri == "http://www.w3.org/2001/XMLSchema#date"@ {
        reveal_strlit("http://www.w3.org/2001/XMLSchema#date");
        reveal_strlit("date");
        reveal_strlit("Date");
        assert("http://www.w3.org/2001/XMLSchema#date"@ =~= xsd_namespace() + "date"@);
        assert(capitalised("date"@) =~= "Date"@);
    } else if iri == "http://www.w3.org/2001/XMLSchema#dateTime"@ {
        reveal_strlit("http://www.w3.org/2001/XMLSchema#dateTime");
        reveal_strlit("dateTime");
        reveal_strlit("DateTime");
        assert("http://www.w3.org/2001/XMLSchema#dateTime"@ =~= xsd_namespace() + "dateTime"@);
        assert(capitalised("dateTime"@) =~= "DateTime"@);
    } else if iri == "http://www.w3.org/2001/XMLSchema#dateTimeStamp"@ {
        reveal_strlit("http://www.w3.org/2001/XMLSchema#dateTimeStamp");
        reveal_strlit("dateTimeStamp");
        reveal_strlit("DateTimeStamp");
        assert("http://www.w3.org/2001/XMLSchema#dateTimeStamp"@ =~= xsd_namespace() + "dateTimeStamp"@);
        assert(capitalised("dateTimeStamp"@) =~= "DateTimeStamp"@);
    } else if iri == "http://www.w3.org/2001/XMLSchema#day"@ {
        reveal_strlit("http://www.w3.org/2001/XMLSchema#day");
        reveal_strlit("day");
        reveal_strlit("Day");
        assert("http://www.w3.org/2001/XMLSchema#day"@ =~= xsd_namespace() + "day"@);
        assert(capitalised("day"@) =~= "Day"@);
    } else if iri == "http://www.w3.org/2001/XMLSchema#dayTimeDuration"@ {
        reveal_strlit("http://www.w3.org/2001/XMLSchema#dayTimeDuration");
        reveal_strlit("dayTimeDuration");
        reveal_strlit("DayTimeDuration");
        assert("http://www.w3.org/2001/XMLSchema#dayTimeDuration"@ =~= xsd_namespace() + "dayTimeDuration"@);
        assert(capitalised("dayTimeDuration"@) =~= "DayTimeDuration"@);
    } else if iri == "http://www.w3.org/2001/XMLSchema#decimal"@ {
        reveal_strlit("http://www.w3.org/2001/XMLSchema#decimal");
        reveal_strlit("decimal");
        reveal_strlit("Decimal");
        assert("http://www.w3.org/2001/XMLSchema#decimal"@ =~= xsd_namespace() + "decimal"@);
        assert(capitalised("decimal"@) =~= "Decimal"@);
    } else if iri == "http://www.w3.org/2001/XMLSchema#double"@ {
        reveal_strlit("http://www.w3.org/2001/XMLSchema#double");
        reveal_strlit("double");
        reveal_strlit("Double");
        assert("http://www.w3.org/2001/XMLSchema#double"@ =~= xsd_namespace() + "double"@);
        assert(capitalised("double"@) =~= "Double"@);
    } else if iri == "http://www.w3.org/2001/XMLSchema#duration"@ {
        reveal_strlit("http://www.w3.org/2001/XMLSchema#duration");
        reveal_strlit("duration");
        reveal_strlit("Duration");
        assert("http://www.w3.org/2001/XMLSchema#duration"@ =~= xsd_namespace() + "duration"@);
        assert(capitalised("duration"@) =~= "Duration"@);
    } else if iri == "http://www.w3.org/2001/XMLSchema#float"@ {
        reveal_strlit("http://www.w3.org/2001/XMLSchema#float");
        reveal_strlit("float");
        reveal_strlit("Float");
        assert("http://www.w3.org/2001/XMLSchema#float"@ =~= xsd_namespace() + "float"@);
        assert(capitalised("float"@) =~= "Float"@);
    } else if iri == "http://www.w3.org/2001/XMLSchema#int"@ {
        reveal_strlit("http://www.w3.org/2001/XMLSchema#int");
        reveal_strlit("int");
        reveal_strlit("Int");
        assert("http://www.w3.org/2001/XMLSchema#int"@ =~= xsd_namespace() + "int"@);
        assert(capitalised("int"@) =~= "Int"@);
    } else if iri == "http://www.w3.org/2001/XMLSchema#integer"@ {
        reveal_strlit("http://www.w3.org/2001/XMLSchema#integer");
        reveal_strlit("integer");
        reveal_strlit("Integer");
        assert("http://www.w3.org/2001/XMLSchema#integer"@ =~= xsd_namespace() + "integer"@);
        assert(capitalised("integer"@) =~= "Integer"@);
    } else if iri == "http://www.w3.org/2001/XMLSchema#long"@ {
        reveal_strlit("http://www.w3.org/2001/XMLSchema#long");
        reveal_strlit("long");
        reveal_strlit("Long");
        assert("http://www.w3.org/2001/XMLSchema#long"@ =~= xsd_namespace() + "long"@);
        assert(capitalised("long"@) =~= "Long"@);
    } else if iri == "http://www.w3.org/2001/XMLSchema#month"@ {
        reveal_strlit("http://www.w3.org/2001/XMLSchema#month");
        reveal_strlit("month");
        reveal_strlit("Month");
        assert("http://www.w3.org/2001/XMLSchema#month"@ =~= xsd_namespace() + "month"@);
        assert(capitalised("month"@) =~= "Month"@);
    } else if iri == "http://www.w3.org/2001/XMLSchema#monthDay"@ {
        reveal_strlit("http://www.w3.org/2001/XMLSchema#monthDay");
        reveal_strlit("monthDay");
        reveal_strlit("MonthDay");
        assert("http://www.w3.org/2001/XMLSchema#monthDay"@ =~= xsd_namespace() + "monthDay"@);
        assert(capitalised("monthDay"@) =~= "MonthDay"@);
    } else if iri == "http://www.w3.org/2001/XMLSchema#negativeInteger"@ {
        reveal_strlit("http://www.w3.org/2001/XMLSchema#negativeInteger");
        reveal_strlit("negativeInteger");
        reveal_strlit("NegativeInteger");
        assert("http://www.w3.org/2001/XMLSchema#negativeInteger"@ =~= xsd_namespace() + "negativeInteger"@);
        assert(capitalised("negativeInteger"@) =~= "NegativeInteger"@);
    } else if iri == "http://www.w3.org/2001/XMLSchema#nonNegativeInteger"@ {
        reveal_strlit("http://www.w3.org/2001/XMLSchema#nonNegativeInteger");
        reveal_strlit("nonNegativeInteger");
        reveal_strlit("NonNegativeInteger");
        assert("http://www.w3.org/2001/XMLSchema#nonNegativeInteger"@ =~= xsd_namespace() + "nonNegativeInteger"@);
        assert(capitalised("nonNegativeInteger"@) =~= "NonNegativeInteger"@);
    } else if iri == "http://www.w3.org/2001/XMLSchema#nonPositiveInteger"@ {
        reveal_strlit("http://www.w3.org/2001/XMLSchema#nonPositiveInteger");
        reveal_strlit("nonPositiveInteger");
        reveal_strlit("NonPositiveInteger");
        assert("http://www.w3.org/2001/XMLSchema#nonPositiveInteger"@ =~= xsd_namespace() + "nonPositiveInteger"@);
        assert(capitalised("nonPositiveInteger"@) =~= "NonPositiveInteger"@);
    } else if iri == "http://www.w3.org/2001/XMLSchema#short"@ {
        reveal_strlit("http://www.w3.org/2001/XMLSchema#short");
        reveal_strlit("short");
        reveal_strlit("Short");
        assert("http://www.w3.org/2001/XMLSchema#short"@ =~= xsd_namespace() + "short"@);
        assert(capitalised("short"@) =~= "Short"@);
    } else if iri == "http://www.w3.org/2001/XMLSchema#string"@ {
        reveal_strlit("http://www.w3.org/2001/XMLSchema#string");
        reveal_strlit("string");
        reveal_strlit("String");
        assert("http://www.w3.org/2001/XMLSchema#string"@ =~= xsd_namespace() + "string"@);
        assert(capitalised("string"@) =~= "String"@);
    } else if iri == "http://www.w3.org/2001/XMLSchema#time"@ {
        reveal_strlit("http://www.w3.org/2001/XMLSchema#time");
        reveal_strlit("time");
        reveal_strlit("Time");
        assert("http://www.w3.org/2001/XMLSchema#time"@ =~= xsd_namespace() + "time"@);
        assert(capitalised("time"@) =~= "Time"@);
    } else if iri == "http://www.w3.org/2001/XMLSchema#unsignedByte"@ {
        reveal_strlit("http://www.w3.org/2001/XMLSchema#unsignedByte");
        reveal_strlit("unsignedByte");
        reveal_strlit("UnsignedByte");
        assert("http://www.w3.org/2001/XMLSchema#unsignedByte"@ =~= xsd_namespace() + "unsignedByte"@);
        assert(capitalised("unsignedByte"@) =~= "UnsignedByte"@);
    } else if iri == "http://www.w3.org/2001/XMLSchema#unsignedInt"@ {
        reveal_strlit("http://www.w3.org/2001/XMLSchema#unsignedInt");
        reveal_strlit("unsignedInt");
        reveal_strlit("UnsignedInt");
        assert("http://www.w3.org/2001/XMLSchema#unsignedInt"@ =~= xsd_namespace() + "unsignedInt"@);
        assert(capitalised("unsignedInt"@) =~= "UnsignedInt"@);
    } else if iri == "http://www.w3.org/2001/XMLSchema#unsignedLong"@ {
        reveal_strlit("http://www.w3.org/2001/XMLSchema#unsignedLong");
        reveal_strlit("unsignedLong");
        reveal_strlit("UnsignedLong");
        assert("http://www.w3.org/2001/XMLSchema#unsignedLong"@ =~= xsd_namespace() + "unsignedLong"@);
        assert(capitalised("unsignedLong"@) =~= "UnsignedLong"@);
    } else if iri == "http://www.w3.org/2001/XMLSchema#unsignedShort"@ {
        reveal_strlit("http://www.w3.org/2001/XMLSchema#unsignedShort");
        reveal_strlit("unsignedShort");
        reveal_strlit("UnsignedShort");
        assert("http://www.w3.org/2001/XMLSchema#unsignedShort"@ =~= xsd_namespace() + "unsignedShort"@);
        assert(capitalised("unsignedShort"@) =~= "UnsignedShort"@);
    } else if iri == "http://www.w3.org/2001/XMLSchema#year"@ {
        reveal_strlit("http://www.w3.org/2001/XMLSchema#year");
        reveal_strlit("year");
        reveal_strlit("Year");
        assert("http://www.w3.org/2001/XMLSchema#year"@ =~= xsd_namespace() + "year"@);
        assert(capitalised("year"@) =~= "Year"@);
    } else if iri == "http://www.w3.org/2001/XMLSchema#yearMonth"@ {
        reveal_strlit("http://www.w3.org/2001/XMLSchema#yearMonth");
        reveal_strlit("yearMonth");
        reveal_strlit("YearMonth");
        assert("http://www.w3.org/2001/XMLSchema#yearMonth"@ =~= xsd_namespace() + "yearMonth"@);
        assert(capitalised("yearMonth"@) =~= "YearMonth"@);
    } else if iri == "http://www.w3.org/2001/XMLSchema#yearMonthDuration"@ {
        reveal_strlit("http://www.w3.org/2001/XMLSchema#yearMonthDuration");
        reveal_strlit("yearMonthDuration");
        reveal_strlit("YearMonthDuration");
        assert("http://www.w3.org/2001/XMLSchema#yearMonthDuration"@ =~= xsd_namespace() + "yearMonthDuration"@);
        assert(capitalised("yearMonthDuration"@) =~= "YearMonthDuration"@);
    }
    if data_type_of_xsd_iri(iri) is Some {
        let local = iri.skip(xsd_namespace().len() as int);
        assert(iri =~= xsd_namespace() + local);
    }
}

/// What a text with its first letter in upper case holds, letter by
/// letter.
proof fn lemma_capitalised_letters(local: Seq<char>, name: Seq<char>)
    requires
        local.len() > 0,
        capitalised(local) == name,
    ensures
        local.len() == name.len(),
        upper_case(local[0]) == name[0],
        forall|i: int| 1 <= i < local.len() ==> #[trigger] local[i] == name[i],
{
    assert forall|i: int| 1 <= i < local.len() implies #[trigger] local[i] == name[i] by {
        assert(name[i] == local.skip(1)[i - 1]);
    }
}

/// Each data type that XML Schema names has its IRI: the XML Schema
/// namespace followed by the data type's name with its first letter in
/// lower case stands for that data type.
pub proof fn law_xsd_data_type_has_its_iri(data_type: DataType, local: Seq<char>)
    requires
        has_xsd_iri(data_type),
        local.len() > 0,
        'a' <= local[0] <= 'z',
        capitalised(local) == data_type_name(data_type),
    ensures
        data_type_of_xsd_iri(xsd_namespace() + local) == Some(data_type),
{
    reveal_strlit("http://www.w3.org/2001/XMLSchema#");
    reveal_strlit("http://www.w3.org/2001/XMLSchema#boolean");
    reveal_strlit("http://www.w3.org/2001/XMLSchema#byte");
    reveal_strlit("http://www.w3.org/2001/XMLSchema#date");
    reveal_strlit("http://www.w3.org/2001/XMLSchema#dateTime");
    reveal_strlit("http://www.w3.org/2001/XMLSchema#dateTimeStamp");
    reveal_strlit("http://www.w3.org/2001/XMLSchema#day");
    reveal_strlit("http://www.w3.org/2001/XMLSchema#dayTimeDuration");
    reveal_strlit("http://www.w3.org/2001/XMLSchema#decimal");
    reveal_strlit("http://www.w3.org/2001/XMLSchema#double");
    reveal_strlit("http://www.w3.org/2001/XMLSchema#duration");
    reveal_strlit("http://www.w3.org/2001/XMLSchema#float");
    reveal_strlit("http://www.w3.org/2001/XMLSchema#int");
    reveal_strlit("http://www.w3.org/2001/XMLSchema#integer");
    reveal_strlit("http://www.w3.org/2001/XMLSchema#long");
    reveal_strlit("http://www.w3.org/2001/XMLSchema#month");
    reveal_strlit("http://www.w3.org/2001/XMLSchema#monthDay");
    reveal_strlit("http://www.w3.org/2001/XMLSchema#negativeInteger");
    reveal_strlit("http://www.w3.org/2001/XMLSchema#nonNegativeInteger");
    reveal_strlit("http://www.w3.org/2001/XMLSchema#nonPositiveInteger");
    reveal_strlit("http://www.w3.org/2001/XMLSchema#short");
    reveal_strlit("http://www.w3.org/2001/XMLSchema#string");
    reveal_strlit("http://www.w3.org/2001/XMLSchema#time");
    reveal_strlit("http://www.w3.org/2001/XMLSchema#unsignedByte");
    reveal_strlit("http://www.w3.org/2001/XMLSchema#unsignedInt");
    reveal_strlit("http://www.w3.org/2001/XMLSchema#unsignedLong");
    reveal_strlit("http://www.w3.org/2001/XMLSchema#unsignedShort");
    reveal_strlit("http://www.w3.org/2001/XMLSchema#year");
    reveal_strlit("http://www.w3.org/2001/XMLSchema#yearMonth");
    reveal_strlit("http://www.w3.org/2001/XMLSchema#yearMonthDuration");
    lemma_capitalised_letters(local, data_type_name(data_type));
    match data_type {
        DataType::Boolean => {
            reveal_strlit("boolean");
            reveal_strlit("Boolean");
            assert(local[0] == 'b');
            assert(local =~= "boolean"@);
            assert(xsd_namespace() + local =~= "http://www.w3.org/2001/XMLSchema#boolean"@);
            assert(data_type_of_xsd_iri("http://www.w3.org/2001/XMLSchema#boolean"@) == Some(data_type));
        },
        DataType::Byte => {
            reveal_strlit("byte");
            reveal_strlit("Byte");
            assert(local[0] == 'b');
            assert(local =~= "byte"@);
            assert(xsd_namespace() + local =~= "http://www.w3.org/2001/XMLSchema#byte"@);
            assert(data_type_of_xsd_iri("http://www.w3.org/2001/XMLSchema#byte"@) == Some(data_type));
        },
        DataType::Date => {
            reveal_strlit("date");
            reveal_strlit("Date");
            assert(local[0] == 'd');
            assert(local =~= "date"@);
            assert(xsd_namespace() + local =~= "http://www.w3.org/2001/XMLSchema#date"@);
            assert("http://www.w3.org/2001/XMLSchema#date"@[33] != "http://www.w3.org/2001/XMLSchema#byte"@[33]);
            assert(data_type_of_xsd_iri("http://www.w3.org/2001/XMLSchema#date"@) == Some(data_type));
        },
        DataType::DateTime => {
            reveal_strlit("dateTime");
            reveal_strlit("DateTime");
            assert(local[0] == 'd');
            assert(local =~= "dateTime"@);
            assert(xsd_namespace() + local =~= "http://www.w3.org/2001/XMLSchema#dateTime"@);
            assert(data_type_of_xsd_iri("http://www.w3.org/2001/XMLSchema#dateTime"@) == Some(data_type));
        },
        DataType::DateTimeStamp => {
            reveal_strlit("dateTimeStamp");
            reveal_strlit("DateTimeStamp");
            assert(local[0] == 'd');
            assert(local =~= "dateTimeStamp"@);
            assert(xsd_namespace() + local =~= "http://www.w3.org/2001/XMLSchema#dateTimeStamp"@);
            assert(data_type_of_xsd_iri("http://www.w3.org/2001/XMLSchema#dateTimeStamp"@) == Some(data_type));
        },
        DataType::Day => {
            reveal_strlit("day");
            reveal_strlit("Day");
            assert(local[0] == 'd');
            assert(local =~= "day"@);
            assert(xsd_namespace() + local =~= "http://www.w3.org/2001/XMLSchema#day"@);
            assert(data_type_of_xsd_iri("http://www.w3.org/2001/XMLSchema#day"@) == Some(data_type));
        },
        DataType::DayTimeDuration => {
            reveal_strlit("dayTimeDuration");
            reveal_strlit("DayTimeDuration");
            assert(local[0] == 'd');
            assert(local =~= "dayTimeDuration"@);
            assert(xsd_namespace() + local =~= "http://www.w3.org/2001/XMLSchema#dayTimeDuration"@);
            assert(data_type_of_xsd_iri("http://www.w3.org/2001/XMLSchema#dayTimeDuration"@) == Some(data_type));
        },
        DataType::Decimal => {
            reveal_strlit("decimal");
            reveal_strlit("Decimal");
            assert(local[0] == 'd');
            assert(local =~= "decimal"@);
            assert(xsd_namespace() + local =~= "http://www.w3.org/2001/XMLSchema#decimal"@);
            assert("http://www.w3.org/2001/XMLSchema#decimal"@[33] != "http://www.w3.org/2001/XMLSchema#boolean"@[33]);
            assert(data_type_of_xsd_iri("http://www.w3.org/2001/XMLSchema#decimal"@) == Some(data_type));
        },
        DataType::Double => {
            reveal_strlit("double");
            reveal_strlit("Double");
            assert(local[0] == 'd');
            assert(local =~= "double"@);
            assert(xsd_namespace() + local =~= "http://www.w3.org/2001/XMLSchema#double"@);
            assert(data_type_of_xsd_iri("http://www.w3.org/2001/XMLSchema#double"@) == Some(data_type));
        },
        DataType::Duration => {
            reveal_strlit("duration");
            reveal_strlit("Duration");
            assert(local[0] == 'd');
            assert(local =~= "duration"@);
            assert(xsd_namespace() + local =~= "http://www.w3.org/2001/XMLSchema#duration"@);
            assert("http://www.w3.org/2001/XMLSchema#duration"@[34] != "http://www.w3.org/2001/XMLSchema#dateTime"@[34]);
            assert(data_type_of_xsd_iri("http://www.w3.org/2001/XMLSchema#duration"@) == Some(data_type));
        },
        DataType::Float => {
            reveal_strlit("float");
            reveal_strlit("Float");
            assert(local[0] == 'f');
            assert(local =~= "float"@);
            assert(xsd_namespace() + local =~= "http://www.w3.org/2001/XMLSchema#float"@);
            assert(data_type_of_xsd_iri("http://www.w3.org/2001/XMLSchema#float"@) == Some(data_type));
        },
        DataType::Int => {
            reveal_strlit("int");
            reveal_strlit("Int");
            assert(local[0] == 'i');
            assert(local =~= "int"@);
            assert(xsd_namespace() + local =~= "http://www.w3.org/2001/XMLSchema#int"@);
            assert("http://www.w3.org/2001/XMLSchema#int"@[33] != "http://www.w3.org/2001/XMLSchema#day"@[33]);
            assert(data_type_of_xsd_iri("http://www.w3.org/2001/XMLSchema#int"@) == Some(data_type));
        },
        DataType::Integer => {
            reveal_strlit("integer");
            reveal_strlit("Integer");
            assert(local[0] == 'i');
            assert(local =~= "integer"@);
            assert(xsd_namespace() + local =~= "http://www.w3.org/2001/XMLSchema#integer"@);
            assert("http://www.w3.org/2001/XMLSchema#integer"@[33] != "http://www.w3.org/2001/XMLSchema#boolean"@[33]);
            assert("http://www.w3.org/2001/XMLSchema#integer"@[33] != "http://www.w3.org/2001/XMLSchema#decimal"@[33]);
            assert(data_type_of_xsd_iri("http://www.w3.org/2001/XMLSchema#integer"@) == Some(data_type));
        },
        DataType::Long => {
            reveal_strlit("long");
            reveal_strlit("Long");
            assert(local[0] == 'l');
            assert(local =~= "long"@);
            assert(xsd_namespace() + local =~= "http://www.w3.org/2001/XMLSchema#long"@);
            assert("http://www.w3.org/2001/XMLSchema#long"@[33] != "http://www.w3.org/2001/XMLSchema#byte"@[33]);
            assert("http://www.w3.org/2001/XMLSchema#long"@[33] != "http://www.w3.org/2001/XMLSchema#date"@[33]);
            assert(data_type_of_xsd_iri("http://www.w3.org/2001/XMLSchema#long"@) == Some(data_type));
        },
        DataType::Month => {
            reveal_strlit("month");
            reveal_strlit("Month");
            assert(local[0] == 'm');
            assert(local =~= "month"@);
            assert(xsd_namespace() + local =~= "http://www.w3.org/2001/XMLSchema#month"@);
            assert("http://www.w3.org/2001/XMLSchema#month"@[33] != "http://www.w3.org/2001/XMLSchema#float"@[33]);
            assert(data_type_of_xsd_iri("http://www.w3.org/2001/XMLSchema#month"@) == Some(data_type));
        },
        DataType::MonthDay => {
            reveal_strlit("monthDay");
            reveal_strlit("MonthDay");
            assert(local[0] == 'm');
            assert(local =~= "monthDay"@);
            assert(xsd_namespace() + local =~= "http://www.w3.org/2001/XMLSchema#monthDay"@);
            assert("http://www.w3.org/2001/XMLSchema#monthDay"@[33] != "http://www.w3.org/2001/XMLSchema#dateTime"@[33]);
            assert("http://www.w3.org/2001/XMLSchema#monthDay"@[33] != "http://www.w3.org/2001/XMLSchema#duration"@[33]);
            assert(data_type_of_xsd_iri("http://www.w3.org/2001/XMLSchema#monthDay"@) == Some(data_type));
        },
        DataType::NegativeInteger => {
            reveal_strlit("negativeInteger");
            reveal_strlit("NegativeInteger");
            assert(local[0] == 'n');
            assert(local =~= "negativeInteger"@);
            assert(xsd_namespace() + local =~= "http://www.w3.org/2001/XMLSchema#negativeInteger"@);
            assert("http://www.w3.org/2001/XMLSchema#negativeInteger"@[33] != "http://www.w3.org/2001/XMLSchema#dayTimeDuration"@[33]);
            assert(data_type_of_xsd_iri("http://www.w3.org/2001/XMLSchema#negativeInteger"@) == Some(data_type));
        },
        DataType::NonNegativeInteger => {
            reveal_strlit("nonNegativeInteger");
            reveal_strlit("NonNegativeInteger");
            assert(local[0] == 'n');
            assert(local =~= "nonNegativeInteger"@);
            assert(xsd_namespace() + local =~= "http://www.w3.org/2001/XMLSchema#nonNegativeInteger"@);
            assert(data_type_of_xsd_iri("http://www.w3.org/2001/XMLSchema#nonNegativeInteger"@) == Some(data_type));
        },
        DataType::NonPositiveInteger => {
            reveal_strlit("nonPositiveInteger");
            reveal_strlit("NonPositiveInteger");
            assert(local[0] == 'n');
            assert(local =~= "nonPositiveInteger"@);
            assert(xsd_namespace() + local =~= "http://www.w3.org/2001/XMLSchema#nonPositiveInteger"@);
            assert("http://www.w3.org/2001/XMLSchema#nonPositiveInteger"@[36] != "http://www.w3.org/2001/XMLSchema#nonNegativeInteger"@[36]);
            assert(data_type_of_xsd_iri("http://www.w3.org/2001/XMLSchema#nonPositiveInteger"@) == Some(data_type));
        },
        DataType::Short => {
            reveal_strlit("short");
            reveal_strlit("Short");
            assert(local[0] == 's');
            assert(local =~= "short"@);
            assert(xsd_namespace() + local =~= "http://www.w3.org/2001/XMLSchema#short"@);
            assert("http://www.w3.org/2001/XMLSchema#short"@[33] != "http://www.w3.org/2001/XMLSchema#float"@[33]);
            assert("http://www.w3.org/2001/XMLSchema#short"@[33] != "http://www.w3.org/2001/XMLSchema#month"@[33]);
            assert(data_type_of_xsd_iri("http://www.w3.org/2001/XMLSchema#short"@) == Some(data_type));
        },
        DataType::String => {
            reveal_strlit("string");
            reveal_strlit("String");
            assert(local[0] == 's');
            assert(local =~= "string"@);
            assert(xsd_namespace() + local =~= "http://www.w3.org/2001/XMLSchema#string"@);
            assert("http://www.w3.org/2001/XMLSchema#string"@[33] != "http://www.w3.org/2001/XMLSchema#double"@[33]);
            assert(data_type_of_xsd_iri("http://www.w3.org/2001/XMLSchema#string"@) == Some(data_type));
        },
        DataType::Time => {
            reveal_strlit("time");
            reveal_strlit("Time");
            assert(local[0] == 't');
            assert(local =~= "time"@);
            assert(xsd_namespace() + local =~= "http://www.w3.org/2001/XMLSchema#time"@);
            assert("http://www.w3.org/2001/XMLSchema#time"@[33] != "http://www.w3.org/2001/XMLSchema#byte"@[33]);
            assert("http://www.w3.org/2001/XMLSchema#time"@[33] != "http://www.w3.org/2001/XMLSchema#date"@[33]);
            assert("http://www.w3.org/2001/XMLSchema#time"@[33] != "http://www.w3.org/2001/XMLSchema#long"@[33]);
            assert(data_type_of_xsd_iri("http://www.w3.org/2001/XMLSchema#time"@) == Some(data_type));
        },
        DataType::UnsignedByte => {
            reveal_strlit("unsignedByte");
            reveal_strlit("UnsignedByte");
            assert(local[0] == 'u');
            assert(local =~= "unsignedByte"@);
            assert(xsd_namespace() + local =~= "http://www.w3.org/2001/XMLSchema#unsignedByte"@);
            assert(data_type_of_xsd_iri("http://www.w3.org/2001/XMLSchema#unsignedByte"@) == Some(data_type));
        },
        DataType::UnsignedInt => {
            reveal_strlit("unsignedInt");
            reveal_strlit("UnsignedInt");
            assert(local[0] == 'u');
            assert(local =~= "unsignedInt"@);
            assert(xsd_namespace() + local =~= "http://www.w3.org/2001/XMLSchema#unsignedInt"@);
            assert(data_type_of_xsd_iri("http://www.w3.org/2001/XMLSchema#unsignedInt"@) == Some(data_type));
        },
        DataType::UnsignedLong => {
            reveal_strlit("unsignedLong");
            reveal_strlit("UnsignedLong");
            assert(local[0] == 'u');
            assert(local =~= "unsignedLong"@);
            assert(xsd_namespace() + local =~= "http://www.w3.org/2001/XMLSchema#unsignedLong"@);
            assert("http://www.w3.org/2001/XMLSchema#unsignedLong"@[41] != "http://www.w3.org/2001/XMLSchema#unsignedByte"@[41]);
            assert(data_type_of_xsd_iri("http://www.w3.org/2001/XMLSchema#unsignedLong"@) == Some(data_type));
        },
        DataType::UnsignedShort => {
            reveal_strlit("unsignedShort");
            reveal_strlit("UnsignedShort");
            assert(local[0] == 'u');
            assert(local =~= "unsignedShort"@);
            assert(xsd_namespace() + local =~= "http://www.w3.org/2001/XMLSchema#unsignedShort"@);
            assert("http://www.w3.org/2001/XMLSchema#unsignedShort"@[33] != "http://www.w3.org/2001/XMLSchema#dateTimeStamp"@[33]);
            assert(data_type_of_xsd_iri("http://www.w3.org/2001/XMLSchema#unsignedShort"@) == Some(data_type));
        },
        DataType::Year => {
            reveal_strlit("year");
            reveal_strlit("Year");
            assert(local[0] == 'y');
            assert(local =~= "year"@);
            assert(xsd_namespace() + local =~= "http://www.w3.org/2001/XMLSchema#year"@);
            assert("http://www.w3.org/2001/XMLSchema#year"@[33] != "http://www.w3.org/2001/XMLSchema#byte"@[33]);
            assert("http://www.w3.org/2001/XMLSchema#year"@[33] != "http://www.w3.org/2001/XMLSchema#date"@[33]);
            assert("http://www.w3.org/2001/XMLSchema#year"@[33] != "http://www.w3.org/2001/XMLSchema#long"@[33]);
            assert("http://www.w3.org/2001/XMLSchema#year"@[33] != "http://www.w3.org/2001/XMLSchema#time"@[33]);
            assert(data_type_of_xsd_iri("http://www.w3.org/2001/XMLSchema#year"@) == Some(data_type));
        },
        DataType::YearMonth => {
            reveal_strlit("yearMonth");
            reveal_strlit("YearMonth");
            assert(local[0] == 'y');
            assert(local =~= "yearMonth"@);
            assert(xsd_namespace() + local =~= "http://www.w3.org/2001/XMLSchema#yearMonth"@);
            assert(data_type_of_xsd_iri("http://www.w3.org/2001/XMLSchema#yearMonth"@) == Some(data_type));
        },
        DataType::YearMonthDuration => {
            reveal_strlit("yearMonthDuration");
            reveal_strlit("YearMonthDuration");
            assert(local[0] == 'y');
            assert(local =~= "yearMonthDuration"@);
            assert(xsd_namespace() + local =~= "http://www.w3.org/2001/XMLSchema#yearMonthDuration"@);
            assert(data_type_of_xsd_iri("http://www.w3.org/2001/XMLSchema#yearMonthDuration"@) == Some(data_type));
        },
        _ => {},
    }
}

} // verus!
