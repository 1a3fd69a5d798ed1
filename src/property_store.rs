//! The read-only property store: a fixed table of image properties that is
//! filled once, when the store is bound to a stream, and only read after.
use vstd::prelude::*;

use crate::error::ComError;
use crate::guids::{Guid, PropertyKey};
use crate::platform_ids::{
    horizontal_size_key, horizontal_size_spec, interface_of, interface_spec, vertical_size_key,
    vertical_size_spec, Interface,
};

verus! {

/// Number of slots in the property table.
pub const SLOT_COUNT: usize = 5;

/// The value of a property.
#[derive(Clone, Debug, PartialEq, Eq)]
pub enum PropValue {
    /// No value: the answer for a key that the table does not hold.
    Empty,
    Int(i32),
    Text(String),
}

impl PropValue {
    /// A copy of the value.
    pub fn copied(&self) -> (r: PropValue)
        ensures
            r == *self,
    {
        match self {
            PropValue::Empty => PropValue::Empty,
            PropValue::Int(v) => PropValue::Int(*v),
            PropValue::Text(s) => PropValue::Text(s.clone()),
        }
    }

    pub fn is_empty(&self) -> (r: bool)
        ensures
            r == (*self is Empty),
    {
        match self {
            PropValue::Empty => true,
            _ => false,
        }
    }
}

/// One property: its key and its value.
#[derive(Clone, Debug, PartialEq, Eq)]
pub struct PropertyRecord {
    pub key: PropertyKey,
    pub value: PropValue,
}

/// A slot that holds no property.
pub open spec fn null_record() -> PropertyRecord {
    PropertyRecord { key: PropertyKey::null_spec(), value: PropValue::Empty }
}

/// The table once bound: the horizontal and vertical size, then slots that
/// the schema declares and that hold no property yet.
pub open spec fn schema() -> Seq<PropertyRecord> {
    seq![
        PropertyRecord { key: horizontal_size_spec(), value: PropValue::Int(1) },
        PropertyRecord { key: vertical_size_spec(), value: PropValue::Int(2) },
        null_record(),
        null_record(),
        null_record(),
    ]
}

/// The value of the first record from position `i` on whose key is `key`,
/// or `Empty` where there is none.
pub open spec fn value_from(records: Seq<PropertyRecord>, key: PropertyKey, i: int) -> PropValue
    decreases records.len() - i,
{
    if i < 0 || i >= records.len() {
        PropValue::Empty
    } else if records[i].key == key {
        records[i].value
    } else {
        value_from(records, key, i + 1)
    }
}

/// The value that `key` has in `records`: that of its first record, or `Empty`.
pub open spec fn lookup(records: Seq<PropertyRecord>, key: PropertyKey) -> PropValue {
    value_from(records, key, 0)
}

/// The key at position `index`, or `InvalidArgument` at or past the end.
pub open spec fn key_at(records: Seq<PropertyRecord>, index: int) -> Result<PropertyKey, ComError> {
    if 0 <= index < records.len() {
        Ok(records[index].key)
    } else {
        Err(ComError::InvalidArgument)
    }
}

/// Whether some record of `records` has the key `key`.
pub open spec fn holds_key(records: Seq<PropertyRecord>, key: PropertyKey) -> bool {
    exists|i: int| 0 <= i < records.len() && records[i].key == key
}

fn null_slot() -> (r: PropertyRecord)
    ensures
        r == null_record(),
{
    PropertyRecord { key: PropertyKey::null(), value: PropValue::Empty }
}

/// The ordered, fixed-size store of records, with the flag that hides them
/// until the table is bound.
pub struct PropertyTable {
    slots: Vec<PropertyRecord>,
    initialized: bool,
}

impl PropertyTable {
    /// The slots are allocated from the start; what they hold is seen only
    /// once the table is bound, and then it is the schema.
    pub closed spec fn wf(&self) -> bool {
        &&& self.slots@.len() == SLOT_COUNT
        &&& self.initialized ==> self.slots@ == schema()
    }

    pub closed spec fn is_initialized(&self) -> bool {
        self.initialized
    }

    /// What readers see: nothing before binding, the schema after.
    pub open spec fn entries(&self) -> Seq<PropertyRecord> {
        if self.is_initialized() {
            schema()
        } else {
            Seq::empty()
        }
    }

    pub fn new() -> (r: PropertyTable)
        ensures
            r.wf(),
            !r.is_initialized(),
    {
        let mut slots: Vec<PropertyRecord> = Vec::new();
        let mut i: usize = 0;
        while i < SLOT_COUNT
            invariant
                i <= SLOT_COUNT,
                slots@.len() == i,
            decreases SLOT_COUNT - i,
        {
            slots.push(null_slot());
            i = i + 1;
        }
        PropertyTable { slots, initialized: false }
    }

    /// Fills the slots with the schema's keys and values and sets the flag.
    /// A table that is bound already is left as it is.
    pub fn bind(&mut self, source: &[u8]) -> (r: Result<(), ComError>)
        requires
            old(self).wf(),
        ensures
            final(self).wf(),
            final(self).is_initialized(),
            r is Ok,
    {
        if !self.initialized {
            let mut slots: Vec<PropertyRecord> = Vec::new();
            slots.push(PropertyRecord { key: horizontal_size_key(), value: PropValue::Int(1) });
            slots.push(PropertyRecord { key: vertical_size_key(), value: PropValue::Int(2) });
            slots.push(null_slot());
            slots.push(null_slot());
            slots.push(null_slot());
            assert(slots@ =~= schema());
            self.slots = slots;
            self.initialized = true;
        }
        Ok(())
    }

    pub fn count(&self) -> (r: u32)
        requires
            self.wf(),
        ensures
            r == self.entries().len(),
    {
        if self.initialized {
            self.slots.len() as u32
        } else {
            0
        }
    }

    pub fn entry_at(&self, index: u32) -> (r: Result<PropertyKey, ComError>)
        requires
            self.wf(),
        ensures
            r == key_at(self.entries(), index as int),
    {
        if !self.initialized || index as usize >= self.slots.len() {
            Err(ComError::InvalidArgument)
        } else {
            Ok(self.slots[index as usize].key)
        }
    }

    pub fn value_for(&self, key: &PropertyKey) -> (r: PropValue)
        requires
            self.wf(),
        ensures
            r == lookup(self.entries(), *key),
    {
        if !self.initialized {
            return PropValue::Empty;
        }
        let mut i: usize = 0;
        while i < self.slots.len()
            invariant
                self.wf(),
                self.initialized,
                i <= self.slots@.len(),
                lookup(self.slots@, *key) == value_from(self.slots@, *key, i as int),
            decreases self.slots@.len() - i,
        {
            if self.slots[i].key == *key {
                return self.slots[i].value.copied();
            }
            i = i + 1;
        }
        PropValue::Empty
    }
}

/// The property provider: bound once to an image stream, then read only.
pub struct PropertyStore {
    table: PropertyTable,
}

impl PropertyStore {
    pub closed spec fn wf(&self) -> bool {
        self.table.wf()
    }

    pub closed spec fn is_initialized(&self) -> bool {
        self.table.is_initialized()
    }

    /// What the store's readers see: nothing before binding, the schema after.
    pub open spec fn entries(&self) -> Seq<PropertyRecord> {
        if self.is_initialized() {
            schema()
        } else {
            Seq::empty()
        }
    }

    /// A store that is not bound to a stream yet.
    pub fn new() -> (r: PropertyStore)
        ensures
            r.wf(),
            !r.is_initialized(),
    {
        PropertyStore { table: PropertyTable::new() }
    }

    /// Binds the store to an image stream. The access mode and the stream's
    /// bytes are not read yet, and binding succeeds; binding a bound store
    /// changes nothing.
    pub fn initialize(&mut self, stream: &[u8], access_mode: u32) -> (r: Result<(), ComError>)
        requires
            old(self).wf(),
        ensures
            final(self).wf(),
            final(self).is_initialized(),
            r is Ok,
    {
        self.table.bind(stream)
    }

    pub fn get_count(&self) -> (r: u32)
        requires
            self.wf(),
        ensures
            r == self.entries().len(),
    {
        self.table.count()
    }

    pub fn get_at(&self, index: u32) -> (r: Result<PropertyKey, ComError>)
        requires
            self.wf(),
        ensures
            r == key_at(self.entries(), index as int),
    {
        self.table.entry_at(index)
    }

    /// The value of `key`; `Empty` where the store holds no such key.
    pub fn get_value(&self, key: &PropertyKey) -> (r: PropValue)
        requires
            self.wf(),
        ensures
            r == lookup(self.entries(), *key),
    {
        self.table.value_for(key)
    }

    /// Always refused: the store is read-only.
    pub fn set_value(&self, key: &PropertyKey, value: &PropValue) -> (r: Result<(), ComError>)
        ensures
            r == Err::<(), ComError>(ComError::AccessDenied),
    {
        Err(ComError::AccessDenied)
    }

    /// Always refused: there is nothing to write back.
    pub fn commit(&self) -> (r: Result<(), ComError>)
        ensures
            r == Err::<(), ComError>(ComError::AccessDenied),
    {
        Err(ComError::AccessDenied)
    }

    /// Narrows the store to the interface `iid`: the base interface, binding
    /// to a stream, and reading properties are offered.
    pub fn query_interface(&self, iid: &Guid) -> (r: Result<Interface, ComError>)
        ensures
            r == store_interface(*iid),
    {
        match interface_of(iid) {
            Some(Interface::ClassFactory) => Err(ComError::NoSuchInterface),
            Some(i) => Ok(i),
            None => Err(ComError::NoSuchInterface),
        }
    }
}

/// The interface of a property store that `iid` names, or `NoSuchInterface`.
pub open spec fn store_interface(iid: Guid) -> Result<Interface, ComError> {
    match interface_spec(iid) {
        Some(Interface::Unknown) => Ok(Interface::Unknown),
        Some(Interface::InitializeWithStream) => Ok(Interface::InitializeWithStream),
        Some(Interface::PropertyStore) => Ok(Interface::PropertyStore),
        _ => Err(ComError::NoSuchInterface),
    }
}

/// A store that is not bound reports no properties, and every index is
/// refused with `InvalidArgument`.
pub proof fn lemma_unbound_store_is_empty(p: &PropertyStore)
    requires
        p.wf(),
        !p.is_initialized(),
    ensures
        p.entries().len() == 0,
        forall|i: int| key_at(#[trigger] p.entries(), i) == Err::<PropertyKey, ComError>(ComError::InvalidArgument),
{
}

/// A bound store reports five properties: every index below five gives a
/// key, and five itself is refused with `InvalidArgument`.
pub proof fn lemma_bound_store_has_five(p: &PropertyStore)
    requires
        p.wf(),
        p.is_initialized(),
    ensures
        p.entries().len() == 5,
        forall|i: int| 0 <= i < 5 ==> #[trigger] key_at(p.entries(), i) is Ok,
        key_at(p.entries(), 5) == Err::<PropertyKey, ComError>(ComError::InvalidArgument),
{
}

/// A key that no record holds has the value `Empty`.
pub proof fn lemma_missing_key_is_empty(records: Seq<PropertyRecord>, key: PropertyKey)
    requires
        !holds_key(records, key),
    ensures
        lookup(records, key) == PropValue::Empty,
{
    lemma_missing_key_from(records, key, 0);
}

proof fn lemma_missing_key_from(records: Seq<PropertyRecord>, key: PropertyKey, i: int)
    requires
        0 <= i,
        !holds_key(records, key),
    ensures
        value_from(records, key, i) == PropValue::Empty,
    decreases records.len() - i,
{
    if i < records.len() {
        assert(records[i].key != key);
        lemma_missing_key_from(records, key, i + 1);
    }
}

} // verus!
