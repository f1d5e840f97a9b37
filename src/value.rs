use vstd::prelude::*;

use vstd::string::StrSliceExecFns;

use crate::collection::CassCollection;
use crate::collection::CassCollectionType;

verus! {

/// The declared type of a column, a collection element, a map key or a map
/// value.
#[derive(Debug, Clone, Copy, PartialEq, Eq, Structural)]
pub enum ValueType {
    /// `tinyint`
    TinyInt,
    /// `smallint`
    SmallInt,
    /// `int`
    Int,
    /// `date`
    Date,
    /// `bigint`, `counter`, `timestamp` or `time`
    BigInt,
    /// `boolean`
    Boolean,
    /// `ascii`, `text` or `varchar`
    Text,
    /// `blob`, `varint` or `custom`
    Blob,
    /// `uuid` or `timeuuid`
    Uuid,
    /// `inet`
    Inet,
    /// `list<..>`
    ListOf,
    /// `set<..>`
    SetOf,
    /// `map<..>`
    MapOf,
    /// `tuple<..>`
    Tuple,
    /// a user-defined type
    Udt,
}

/// A 128-bit UUID, held as its two native 64-bit halves.
#[derive(Debug, Clone, Copy, PartialEq, Eq, Structural)]
pub struct Uuid {
    pub time_and_version: u64,
    pub clock_seq_and_node: u64,
}

/// An IP address: 4 bytes for IPv4, 16 for IPv6.
#[derive(Debug, Clone, PartialEq, Eq)]
pub struct Inet {
    pub address: Vec<u8>,
}

/// One value exchanged with the database: a column value or a collection
/// element. Every variant owns its data.
#[derive(Debug, PartialEq)]
pub enum TypedValue {
    Int8(i8),
    Int16(i16),
    Int32(i32),
    UInt32(u32),
    Int64(i64),
    Bool(bool),
    Text(String),
    Bytes(Vec<u8>),
    Uuid(Uuid),
    Inet(Inet),
    Collection(CassCollection),
    Tuple(Vec<TypedValue>),
    UserType(Vec<(String, TypedValue)>),
}

/// The type a collection of the given kind has as a value.
pub open spec fn collection_value_type(kind: CassCollectionType) -> ValueType {
    match kind {
        CassCollectionType::LIST => ValueType::ListOf,
        CassCollectionType::SET => ValueType::SetOf,
        CassCollectionType::MAP => ValueType::MapOf,
    }
}

/// The type that a value carries.
pub open spec fn type_of(v: TypedValue) -> ValueType {
    match v {
        TypedValue::Int8(_) => ValueType::TinyInt,
        TypedValue::Int16(_) => ValueType::SmallInt,
        TypedValue::Int32(_) => ValueType::Int,
        TypedValue::UInt32(_) => ValueType::Date,
        TypedValue::Int64(_) => ValueType::BigInt,
        TypedValue::Bool(_) => ValueType::Boolean,
        TypedValue::Text(_) => ValueType::Text,
        TypedValue::Bytes(_) => ValueType::Blob,
        TypedValue::Uuid(_) => ValueType::Uuid,
        TypedValue::Inet(_) => ValueType::Inet,
        TypedValue::Collection(c) => collection_value_type(c@.data_type.kind),
        TypedValue::Tuple(_) => ValueType::Tuple,
        TypedValue::UserType(_) => ValueType::Udt,
    }
}

/// Whether a text holds no NUL character.
pub open spec fn nul_free(s: Seq<char>) -> bool {
    forall|i: int| 0 <= i < s.len() ==> s[i] != '\0'
}

/// Whether a value can be written in its native form: text holds no NUL
/// character, an address has 4 or 16 bytes, and a map holds whole key/value
/// pairs.
pub open spec fn encodable(v: TypedValue) -> bool {
    match v {
        TypedValue::Text(s) => nul_free(s@),
        TypedValue::Inet(a) => a.address@.len() == 4 || a.address@.len() == 16,
        TypedValue::Collection(c) => c@.data_type.kind != CassCollectionType::MAP || c@.values.len() % 2 == 0,
        _ => true,
    }
}

impl TypedValue {
    /// The type this value carries.
    pub fn value_type(&self) -> (r: ValueType)
        ensures
            r == type_of(*self),
    {
        match self {
            TypedValue::Int8(_) => ValueType::TinyInt,
            TypedValue::Int16(_) => ValueType::SmallInt,
            TypedValue::Int32(_) => ValueType::Int,
            TypedValue::UInt32(_) => ValueType::Date,
            TypedValue::Int64(_) => ValueType::BigInt,
            TypedValue::Bool(_) => ValueType::Boolean,
            TypedValue::Text(_) => ValueType::Text,
            TypedValue::Bytes(_) => ValueType::Blob,
            TypedValue::Uuid(_) => ValueType::Uuid,
            TypedValue::Inet(_) => ValueType::Inet,
            TypedValue::Collection(c) => match c.kind() {
                CassCollectionType::LIST => ValueType::ListOf,
                CassCollectionType::SET => ValueType::SetOf,
                CassCollectionType::MAP => ValueType::MapOf,
            },
            TypedValue::Tuple(_) => ValueType::Tuple,
            TypedValue::UserType(_) => ValueType::Udt,
        }
    }

    /// Whether this value can be written in its native form.
    pub fn is_encodable(&self) -> (r: bool)
        ensures
            r == encodable(*self),
    {
        match self {
            TypedValue::Text(s) => {
                let t = s.as_str();
                let n = t.unicode_len();
                let mut i: usize = 0;
                while i < n
                    invariant
                        *self == TypedValue::Text(*s),
                        t@ == s@,
                        n == s@.len(),
                        i <= n,
                        forall|j: int| 0 <= j < i ==> s@[j] != '\0',
                    decreases n - i,
                {
                    if t.get_char(i) == '\0' {
                        assert(s@[i as int] == '\0');
                        return false;
                    }
                    i = i + 1;
                }
                true
            },
            TypedValue::Inet(a) => a.address.len() == 4 || a.address.len() == 16,
            TypedValue::Collection(c) => match c.kind() {
                CassCollectionType::MAP => c.len() % 2 == 0,
                _ => true,
            },
            _ => true,
        }
    }
}

} // verus!
