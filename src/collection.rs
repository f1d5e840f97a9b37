use vstd::prelude::*;

use crate::error::CassError;
use crate::value::encodable;
use crate::value::type_of;
use crate::value::Inet;
use crate::value::TypedValue;
use crate::value::Uuid;
use crate::value::ValueType;

verus! {

/// The kind of a collection.
#[derive(Debug, Clone, Copy, PartialEq, Eq, Structural)]
pub enum CassCollectionType {
    LIST,
    MAP,
    SET,
}

/// The declared type of a collection: its kind and, where known, the type
/// of its elements. A list or a set uses `element`; a map uses `element`
/// for its keys and `map_value` for its values. `None` leaves the type to
/// the server's schema.
#[derive(Debug, Clone, Copy, PartialEq, Eq, Structural)]
pub struct DataType {
    pub kind: CassCollectionType,
    pub element: Option<ValueType>,
    pub map_value: Option<ValueType>,
}

/// What a collection holds, seen as mathematical values.
pub ghost struct CollectionView {
    pub data_type: DataType,
    /// the advisory capacity the collection was created with
    pub item_count: u64,
    /// every value appended so far, in order
    pub values: Seq<TypedValue>,
    /// whether a statement binder has taken the collection
    pub bound: bool,
}

/// A list, set or map under construction, to be bound as one query
/// parameter. Values keep the order in which they were appended; a map
/// takes a key, then its value, then the next key.
#[derive(Debug, PartialEq)]
pub struct CassCollection {
    data_type: DataType,
    item_count: u64,
    values: Vec<TypedValue>,
    bound: bool,
}

impl View for CassCollection {
    type V = CollectionView;

    closed spec fn view(&self) -> CollectionView {
        CollectionView {
            data_type: self.data_type,
            item_count: self.item_count,
            values: self.values@,
            bound: self.bound,
        }
    }
}

/// The type declared for the value that would stand at position `pos`.
pub open spec fn expected_type(dt: DataType, pos: int) -> Option<ValueType> {
    if dt.kind == CassCollectionType::MAP && pos % 2 == 1 {
        dt.map_value
    } else {
        dt.element
    }
}

/// Whether `v` may stand at position `pos` of a collection of type `dt`.
pub open spec fn accepts(dt: DataType, pos: int, v: TypedValue) -> bool {
    &&& encodable(v)
    &&& match expected_type(dt, pos) {
        None => true,
        Some(t) => t == type_of(v),
    }
}

/// What appending `v` to `c` returns.
pub open spec fn append_outcome(c: CollectionView, v: TypedValue) -> Result<(), CassError> {
    if c.bound {
        Err(CassError::AlreadyBound)
    } else if !encodable(v) {
        Err(CassError::EncodingError)
    } else if !accepts(c.data_type, c.values.len() as int, v) {
        Err(CassError::TypeMismatch)
    } else {
        Ok(())
    }
}

/// `c` with `v` added at its end.
pub open spec fn with_value(c: CollectionView, v: TypedValue) -> CollectionView {
    CollectionView { values: c.values.push(v), ..c }
}

/// The state after an append of `v` to `c` that returned `r`.
pub open spec fn after_append(c: CollectionView, v: TypedValue, r: Result<(), CassError>) -> CollectionView {
    if r is Ok {
        with_value(c, v)
    } else {
        c
    }
}

/// Appending each of `vs` in turn, stopping at the first failure: what the
/// last append returned and the collection afterwards.
pub open spec fn append_all(c: CollectionView, vs: Seq<TypedValue>) -> (Result<(), CassError>, CollectionView)
    decreases vs.len(),
{
    if vs.len() == 0 {
        (Ok(()), c)
    } else {
        let r = append_outcome(c, vs[0]);
        if r is Ok {
            append_all(with_value(c, vs[0]), vs.drop_first())
        } else {
            (r, c)
        }
    }
}

/// How many entries a collection holds: pairs for a map, values otherwise.
pub open spec fn entry_count(c: CollectionView) -> nat {
    if c.data_type.kind == CassCollectionType::MAP {
        c.values.len() / 2
    } else {
        c.values.len()
    }
}

/// The key/value pairs of a map, in the order they were appended.
pub open spec fn map_entries(c: CollectionView) -> Seq<(TypedValue, TypedValue)> {
    Seq::new(c.values.len() / 2, |i: int| (c.values[2 * i], c.values[2 * i + 1]))
}

/// What binding `c` to a statement returns: the number of entries, or why
/// it cannot be bound.
pub open spec fn bind_outcome(c: CollectionView) -> Result<usize, CassError> {
    if c.bound {
        Err(CassError::AlreadyBound)
    } else if c.data_type.kind == CassCollectionType::MAP && c.values.len() % 2 == 1 {
        Err(CassError::EncodingError)
    } else {
        Ok(entry_count(c) as usize)
    }
}

/// An untyped data type of the given kind.
pub open spec fn untyped(kind: CassCollectionType) -> DataType {
    DataType { kind, element: None, map_value: None }
}

} // verus!

verus! {

impl CassCollection {
    /// Creates an empty collection of the given kind whose element types
    /// are left to the server. `item_count` is a capacity hint only.
    pub fn new(kind: CassCollectionType, item_count: u64) -> (r: Self)
        ensures
            r@ == (CollectionView {
                data_type: untyped(kind),
                item_count,
                values: Seq::empty(),
                bound: false,
            }),
    {
        CassCollection {
            data_type: DataType { kind, element: None, map_value: None },
            item_count,
            values: Vec::new(),
            bound: false,
        }
    }

    /// Creates an empty collection of a declared type, whose appends are
    /// checked against it. `item_count` is a capacity hint only.
    pub fn new_from_data_type(value: DataType, item_count: u64) -> (r: Self)
        ensures
            r@ == (CollectionView {
                data_type: value,
                item_count,
                values: Seq::empty(),
                bound: false,
            }),
    {
        CassCollection { data_type: value, item_count, values: Vec::new(), bound: false }
    }

    /// The declared type of the collection.
    pub fn data_type(&self) -> (r: DataType)
        ensures
            r == self@.data_type,
    {
        self.data_type
    }

    /// The kind of the collection.
    pub fn kind(&self) -> (r: CassCollectionType)
        ensures
            r == self@.data_type.kind,
    {
        self.data_type.kind
    }

    /// The capacity hint the collection was created with.
    pub fn item_count(&self) -> (r: u64)
        ensures
            r == self@.item_count,
    {
        self.item_count
    }

    /// How many values have been appended.
    pub fn len(&self) -> (r: usize)
        ensures
            r == self@.values.len(),
    {
        self.values.len()
    }

    /// Whether a statement binder has taken the collection.
    pub fn is_bound(&self) -> (r: bool)
        ensures
            r == self@.bound,
    {
        self.bound
    }

    /// The appended values, in order.
    pub fn values(&self) -> (r: &Vec<TypedValue>)
        ensures
            r@ == self@.values,
    {
        &self.values
    }

    /// The value at position `index`, if there is one.
    pub fn get(&self, index: usize) -> (r: Option<&TypedValue>)
        ensures
            r is Some <==> index < self@.values.len(),
            r is Some ==> *r->0 == self@.values[index as int],
    {
        if index < self.values.len() {
            Some(&self.values[index])
        } else {
            None
        }
    }

    /// Appends one value: after the values already there for a list or a
    /// set, or as the next key or value of a map. Fails, leaving the
    /// collection as it was, once the collection is bound
    /// (`AlreadyBound`), when the value has no native form
    /// (`EncodingError`), or when its type is not the one declared for its
    /// position (`TypeMismatch`).
    pub fn append(&mut self, value: TypedValue) -> (r: Result<(), CassError>)
        ensures
            r == append_outcome(old(self)@, value),
            final(self)@ == after_append(old(self)@, value, r),
    {
        if self.bound {
            return Err(CassError::AlreadyBound);
        }
        if !value.is_encodable() {
            return Err(CassError::EncodingError);
        }
        let expected = if self.data_type.kind == CassCollectionType::MAP && self.values.len() % 2
            == 1 {
            self.data_type.map_value
        } else {
            self.data_type.element
        };
        match expected {
            Some(t) => {
                if t != value.value_type() {
                    return Err(CassError::TypeMismatch);
                }
            },
            None => {},
        }
        self.values.push(value);
        Ok(())
    }

    /// Hands the collection to a statement binder and returns how many
    /// entries it carries: pairs for a map, values otherwise. A map with an
    /// unpaired key fails with `EncodingError`, a collection already bound
    /// with `AlreadyBound`; either way the collection is left as it was.
    /// Once bound, every append fails.
    pub fn bind(&mut self) -> (r: Result<usize, CassError>)
        ensures
            r == bind_outcome(old(self)@),
            final(self)@ == (if r is Ok {
                CollectionView { bound: true, ..old(self)@ }
            } else {
                old(self)@
            }),
    {
        if self.bound {
            return Err(CassError::AlreadyBound);
        }
        let n = self.values.len();
        if self.data_type.kind == CassCollectionType::MAP {
            if n % 2 == 1 {
                return Err(CassError::EncodingError);
            }
            self.bound = true;
            Ok(n / 2)
        } else {
            self.bound = true;
            Ok(n)
        }
    }

    /// The key and value of the `index`-th pair of a map.
    pub fn map_entry(&self, index: usize) -> (r: Option<(&TypedValue, &TypedValue)>)
        ensures
            r is Some <==> self@.data_type.kind == CassCollectionType::MAP && index
                < map_entries(self@).len(),
            r is Some ==> (*r.unwrap().0, *r.unwrap().1) == map_entries(self@)[index as int],
    {
        if self.data_type.kind != CassCollectionType::MAP || index >= self.values.len() / 2 {
            return None;
        }
        Some((&self.values[2 * index], &self.values[2 * index + 1]))
    }

    /// Appends a "tinyint" to the collection, as `append` does.
    pub fn append_int8(&mut self, value: i8) -> (r: Result<(), CassError>)
        ensures
            r == append_outcome(old(self)@, TypedValue::Int8(value)),
            final(self)@ == after_append(old(self)@, TypedValue::Int8(value), r),
    {
        self.append(TypedValue::Int8(value))
    }

    /// Appends a "smallint" to the collection, as `append` does.
    pub fn append_int16(&mut self, value: i16) -> (r: Result<(), CassError>)
        ensures
            r == append_outcome(old(self)@, TypedValue::Int16(value)),
            final(self)@ == after_append(old(self)@, TypedValue::Int16(value), r),
    {
        self.append(TypedValue::Int16(value))
    }

    /// Appends an "int" to the collection, as `append` does.
    pub fn append_int32(&mut self, value: i32) -> (r: Result<(), CassError>)
        ensures
            r == append_outcome(old(self)@, TypedValue::Int32(value)),
            final(self)@ == after_append(old(self)@, TypedValue::Int32(value), r),
    {
        self.append(TypedValue::Int32(value))
    }

    /// Appends a "date" to the collection, as `append` does.
    pub fn append_uint32(&mut self, value: u32) -> (r: Result<(), CassError>)
        ensures
            r == append_outcome(old(self)@, TypedValue::UInt32(value)),
            final(self)@ == after_append(old(self)@, TypedValue::UInt32(value), r),
    {
        self.append(TypedValue::UInt32(value))
    }

    /// Appends a "bigint", "counter", "timestamp" or "time" to the collection, as `append` does.
    pub fn append_int64(&mut self, value: i64) -> (r: Result<(), CassError>)
        ensures
            r == append_outcome(old(self)@, TypedValue::Int64(value)),
            final(self)@ == after_append(old(self)@, TypedValue::Int64(value), r),
    {
        self.append(TypedValue::Int64(value))
    }

    /// Appends a "boolean" to the collection, as `append` does.
    pub fn append_bool(&mut self, value: bool) -> (r: Result<(), CassError>)
        ensures
            r == append_outcome(old(self)@, TypedValue::Bool(value)),
            final(self)@ == after_append(old(self)@, TypedValue::Bool(value), r),
    {
        self.append(TypedValue::Bool(value))
    }

    /// Appends a "blob", "varint" or "custom" to the collection, as `append` does.
    pub fn append_bytes(&mut self, value: Vec<u8>) -> (r: Result<(), CassError>)
        ensures
            r == append_outcome(old(self)@, TypedValue::Bytes(value)),
            final(self)@ == after_append(old(self)@, TypedValue::Bytes(value), r),
    {
        self.append(TypedValue::Bytes(value))
    }

    /// Appends a "uuid" or "timeuuid" to the collection, as `append` does.
    pub fn append_uuid(&mut self, value: Uuid) -> (r: Result<(), CassError>)
        ensures
            r == append_outcome(old(self)@, TypedValue::Uuid(value)),
            final(self)@ == after_append(old(self)@, TypedValue::Uuid(value), r),
    {
        self.append(TypedValue::Uuid(value))
    }

    /// Appends an "inet" to the collection, as `append` does.
    pub fn append_inet(&mut self, value: Inet) -> (r: Result<(), CassError>)
        ensures
            r == append_outcome(old(self)@, TypedValue::Inet(value)),
            final(self)@ == after_append(old(self)@, TypedValue::Inet(value), r),
    {
        self.append(TypedValue::Inet(value))
    }

    /// Appends a "tuple" to the collection, as `append` does.
    pub fn append_tuple(&mut self, value: Vec<TypedValue>) -> (r: Result<(), CassError>)
        ensures
            r == append_outcome(old(self)@, TypedValue::Tuple(value)),
            final(self)@ == after_append(old(self)@, TypedValue::Tuple(value), r),
    {
        self.append(TypedValue::Tuple(value))
    }

    /// Appends a user-defined type, as its named fields in order to the collection, as `append` does.
    pub fn append_user_type(&mut self, value: Vec<(String, TypedValue)>) -> (r: Result<(), CassError>)
        ensures
            r == append_outcome(old(self)@, TypedValue::UserType(value)),
            final(self)@ == after_append(old(self)@, TypedValue::UserType(value), r),
    {
        self.append(TypedValue::UserType(value))
    }

    /// Appends an "ascii", "text" or "varchar" to the collection, as
    /// `append` does with a copy of `value`.
    pub fn append_string(&mut self, value: &str) -> (r: Result<(), CassError>)
        ensures
            exists|s: String|
                s@ == value@ && r == append_outcome(old(self)@, TypedValue::Text(s)) && final(self)@
                    == after_append(old(self)@, TypedValue::Text(s), r),
    {
        let s = value.to_owned();
        let ghost g = s;
        let r = self.append(TypedValue::Text(s));
        assert(g@ == value@ && r == append_outcome(old(self)@, TypedValue::Text(g)) && self@
            == after_append(old(self)@, TypedValue::Text(g), r));
        r
    }

    /// Appends a "list" to the collection, as `append` does. A collection of
    /// another kind fails with `TypeMismatch`.
    pub fn append_list(&mut self, value: CassCollection) -> (r: Result<(), CassError>)
        ensures
            value@.data_type.kind != CassCollectionType::LIST ==> r == Err::<(), CassError>(
                CassError::TypeMismatch,
            ) && final(self)@ == old(self)@,
            value@.data_type.kind == CassCollectionType::LIST ==> r == append_outcome(
                old(self)@,
                TypedValue::Collection(value),
            ) && final(self)@ == after_append(old(self)@, TypedValue::Collection(value), r),
    {
        if value.kind() != CassCollectionType::LIST {
            return Err(CassError::TypeMismatch);
        }
        self.append(TypedValue::Collection(value))
    }

    /// Appends a "set" to the collection, as `append` does. A collection of
    /// another kind fails with `TypeMismatch`.
    pub fn append_set(&mut self, value: CassCollection) -> (r: Result<(), CassError>)
        ensures
            value@.data_type.kind != CassCollectionType::SET ==> r == Err::<(), CassError>(
                CassError::TypeMismatch,
            ) && final(self)@ == old(self)@,
            value@.data_type.kind == CassCollectionType::SET ==> r == append_outcome(
                old(self)@,
                TypedValue::Collection(value),
            ) && final(self)@ == after_append(old(self)@, TypedValue::Collection(value), r),
    {
        if value.kind() != CassCollectionType::SET {
            return Err(CassError::TypeMismatch);
        }
        self.append(TypedValue::Collection(value))
    }

    /// Appends a "map" to the collection, as `append` does. A collection of
    /// another kind fails with `TypeMismatch`.
    pub fn append_map(&mut self, value: CassCollection) -> (r: Result<(), CassError>)
        ensures
            value@.data_type.kind != CassCollectionType::MAP ==> r == Err::<(), CassError>(
                CassError::TypeMismatch,
            ) && final(self)@ == old(self)@,
            value@.data_type.kind == CassCollectionType::MAP ==> r == append_outcome(
                old(self)@,
                TypedValue::Collection(value),
            ) && final(self)@ == after_append(old(self)@, TypedValue::Collection(value), r),
    {
        if value.kind() != CassCollectionType::MAP {
            return Err(CassError::TypeMismatch);
        }
        self.append(TypedValue::Collection(value))
    }
}

} // verus!

verus! {

/// Appending values that each fit the type declared for their position
/// succeeds for every one of them, and the collection then holds the values
/// it had, followed by the new ones in the order they were appended.
pub proof fn lemma_appends_kept_in_order(c: CollectionView, vs: Seq<TypedValue>)
    requires
        !c.bound,
        forall|i: int| 0 <= i < vs.len() ==> accepts(c.data_type, c.values.len() + i, #[trigger] vs[i]),
    ensures
        append_all(c, vs) == (Ok::<(), CassError>(()), CollectionView { values: c.values + vs, ..c }),
    decreases vs.len(),
{
    if vs.len() == 0 {
        assert(c.values + vs =~= c.values);
    } else {
        let c1 = with_value(c, vs[0]);
        let rest = vs.drop_first();
        assert(accepts(c.data_type, c.values.len() + 0int, vs[0]));
        assert forall|i: int| 0 <= i < rest.len() implies accepts(
            c1.data_type,
            c1.values.len() + i,
            #[trigger] rest[i],
        ) by {
            assert(accepts(c.data_type, c.values.len() + (i + 1), vs[i + 1]));
        }
        lemma_appends_kept_in_order(c1, rest);
        assert(c1.values + rest =~= c.values + vs);
    }
}

/// A map that starts empty and takes `2 * n` well-typed appends (key, value,
/// key, value, ...) binds as exactly `n` pairs, the `i`-th made of the
/// `2 * i`-th and `2 * i + 1`-th values appended. With an odd number of
/// appends, binding fails with `EncodingError`.
pub proof fn lemma_map_binds_as_pairs(c: CollectionView, vs: Seq<TypedValue>, n: nat)
    requires
        c.data_type.kind == CassCollectionType::MAP,
        !c.bound,
        c.values.len() == 0,
        vs.len() <= usize::MAX,
        forall|i: int| 0 <= i < vs.len() ==> accepts(c.data_type, i, #[trigger] vs[i]),
    ensures
        vs.len() == 2 * n ==> bind_outcome(append_all(c, vs).1) == Ok::<usize, CassError>(
            n as usize,
        ) && map_entries(append_all(c, vs).1).len() == n && forall|i: int|
            0 <= i < n ==> #[trigger] map_entries(append_all(c, vs).1)[i] == (
                vs[2 * i],
                vs[2 * i + 1],
            ),
        vs.len() % 2 == 1 ==> bind_outcome(append_all(c, vs).1) == Err::<usize, CassError>(
            CassError::EncodingError,
        ),
{
    lemma_appends_kept_in_order(c, vs);
    let after = append_all(c, vs).1;
    assert(after.values =~= vs);
}

} // verus!

verus! {

/// A value whose type differs from the one declared for its position is
/// refused with `TypeMismatch`, and the collection keeps its values and its
/// count.
pub proof fn lemma_mismatch_changes_nothing(c: CollectionView, v: TypedValue, t: ValueType)
    requires
        !c.bound,
        encodable(v),
        expected_type(c.data_type, c.values.len() as int) == Some(t),
        t != type_of(v),
    ensures
        append_outcome(c, v) == Err::<(), CassError>(CassError::TypeMismatch),
        after_append(c, v, append_outcome(c, v)) == c,
{
}

} // verus!
