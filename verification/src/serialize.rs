//! The bridge between script values and the durable store: the conversion of
//! a value to its stored form and back, and the two native functions that
//! read and write the store.

use crate::error::RuntimeError;
use crate::value::{
    field_models_of, models_of, record_model, stored_field_models_of, stored_models_of,
    stored_record_model, stored_tuple_model, tuple_model, unit_model, ScriptValue, SerializedValue,
    StoredModel, ValueModel,
};
use vstd::prelude::*;

verus! {

/// A value can be stored when it is a number, a boolean, a string, or a
/// tuple or record of values that can be stored.
pub open spec fn storable(v: ValueModel) -> bool
    decreases v,
{
    match v {
        ValueModel::Tuple(items) => forall|i: int|
            0 <= i < items.len() ==> storable(#[trigger] items[i]),
        ValueModel::Record(fields) => forall|i: int|
            0 <= i < fields.len() ==> storable((#[trigger] fields[i]).1),
        ValueModel::Number(_) => true,
        ValueModel::Boolean(_) => true,
        ValueModel::String(_) => true,
        ValueModel::Function => false,
        ValueModel::NativeFunction => false,
        ValueModel::Closure => false,
    }
}

/// The stored form of a value: the same tree, kind by kind, with the items of
/// a tuple in their order and the fields of a record under their names. It
/// means something for storable values only.
pub open spec fn stored_form(v: ValueModel) -> StoredModel
    decreases v,
{
    match v {
        ValueModel::Tuple(items) => StoredModel::Tuple(
            Seq::new(
                items.len(),
                |i: int|
                    if 0 <= i < items.len() {
                        stored_form(items[i])
                    } else {
                        StoredModel::Boolean(false)
                    },
            ),
        ),
        ValueModel::Record(fields) => StoredModel::Record(
            Seq::new(
                fields.len(),
                |i: int|
                    if 0 <= i < fields.len() {
                        (fields[i].0, stored_form(fields[i].1))
                    } else {
                        (Seq::empty(), StoredModel::Boolean(false))
                    },
            ),
        ),
        ValueModel::Number(bits) => StoredModel::Number(bits),
        ValueModel::Boolean(b) => StoredModel::Boolean(b),
        ValueModel::String(text) => StoredModel::String(text),
        ValueModel::Function => StoredModel::Boolean(false),
        ValueModel::NativeFunction => StoredModel::Boolean(false),
        ValueModel::Closure => StoredModel::Boolean(false),
    }
}

/// The script value that a stored value stands for.
pub open spec fn value_of(s: StoredModel) -> ValueModel
    decreases s,
{
    match s {
        StoredModel::Tuple(items) => ValueModel::Tuple(
            Seq::new(
                items.len(),
                |i: int|
                    if 0 <= i < items.len() {
                        value_of(items[i])
                    } else {
                        unit_model()
                    },
            ),
        ),
        StoredModel::Record(fields) => ValueModel::Record(
            Seq::new(
                fields.len(),
                |i: int|
                    if 0 <= i < fields.len() {
                        (fields[i].0, value_of(fields[i].1))
                    } else {
                        (Seq::empty(), unit_model())
                    },
            ),
        ),
        StoredModel::Number(bits) => ValueModel::Number(bits),
        StoredModel::Boolean(b) => ValueModel::Boolean(b),
        StoredModel::String(text) => ValueModel::String(text),
    }
}

/// A storable value comes back from the store as it went in: storing it and
/// reading it again gives a value equal to it, however deep its tuples and
/// records are nested.
pub proof fn value_round_trip(v: ValueModel)
    requires
        storable(v),
    ensures
        value_of(stored_form(v)) == v,
    decreases v,
{
    match v {
        ValueModel::Tuple(items) => {
            let back = value_of(stored_form(v))->Tuple_0;
            assert forall|i: int| 0 <= i < items.len() implies back[i] == items[i] by {
                assert(storable(items[i]));
                value_round_trip(items[i]);
            }
            assert(back =~= items);
        },
        ValueModel::Record(fields) => {
            let back = value_of(stored_form(v))->Record_0;
            assert forall|i: int| 0 <= i < fields.len() implies back[i] == fields[i] by {
                assert(storable(fields[i].1));
                value_round_trip(fields[i].1);
            }
            assert(back =~= fields);
        },
        _ => {},
    }
}

/// Whatever the store holds stands for a storable value, and that value's
/// stored form is what the store holds.
pub proof fn stored_round_trip(s: StoredModel)
    ensures
        storable(value_of(s)),
        stored_form(value_of(s)) == s,
    decreases s,
{
    match s {
        StoredModel::Tuple(items) => {
            let values = value_of(s)->Tuple_0;
            let back = stored_form(value_of(s))->Tuple_0;
            assert forall|i: int| 0 <= i < items.len() implies storable(#[trigger] values[i])
                && back[i] == items[i] by {
                stored_round_trip(items[i]);
            }
            assert(back =~= items);
        },
        StoredModel::Record(fields) => {
            let values = value_of(s)->Record_0;
            let back = stored_form(value_of(s))->Record_0;
            assert forall|i: int| 0 <= i < fields.len() implies storable((#[trigger] values[i]).1)
                && back[i] == fields[i] by {
                stored_round_trip(fields[i].1);
            }
            assert(back =~= fields);
        },
        _ => {},
    }
}

/// Every record in the value, at any depth, has each of its names once.
pub open spec fn well_formed(v: ValueModel) -> bool
    decreases v,
{
    match v {
        ValueModel::Tuple(items) => forall|i: int|
            0 <= i < items.len() ==> well_formed(#[trigger] items[i]),
        ValueModel::Record(fields) => {
            &&& forall|i: int, j: int|
                0 <= i < j < fields.len() ==> (#[trigger] fields[i]).0 != (#[trigger] fields[j]).0
            &&& forall|i: int| 0 <= i < fields.len() ==> well_formed((#[trigger] fields[i]).1)
        },
        _ => true,
    }
}

/// Every record in the stored value, at any depth, has each of its names
/// once.
pub open spec fn stored_well_formed(s: StoredModel) -> bool
    decreases s,
{
    match s {
        StoredModel::Tuple(items) => forall|i: int|
            0 <= i < items.len() ==> stored_well_formed(#[trigger] items[i]),
        StoredModel::Record(fields) => {
            &&& forall|i: int, j: int|
                0 <= i < j < fields.len() ==> (#[trigger] fields[i]).0 != (#[trigger] fields[j]).0
            &&& forall|i: int|
                0 <= i < fields.len() ==> stored_well_formed((#[trigger] fields[i]).1)
        },
        _ => true,
    }
}

/// Storing keeps records in order: where no record of a value has a name
/// twice, no record of its stored form has.
pub proof fn stored_form_is_well_formed(v: ValueModel)
    requires
        storable(v),
        well_formed(v),
    ensures
        stored_well_formed(stored_form(v)),
    decreases v,
{
    match v {
        ValueModel::Tuple(items) => {
            let stored = stored_form(v)->Tuple_0;
            assert forall|i: int| 0 <= i < stored.len() implies stored_well_formed(
                #[trigger] stored[i],
            ) by {
                assert(storable(items[i]) && well_formed(items[i]));
                stored_form_is_well_formed(items[i]);
            }
        },
        ValueModel::Record(fields) => {
            let stored = stored_form(v)->Record_0;
            assert forall|i: int| 0 <= i < stored.len() implies stored_well_formed(
                (#[trigger] stored[i]).1,
            ) by {
                assert(storable(fields[i].1) && well_formed(fields[i].1));
                stored_form_is_well_formed(fields[i].1);
            }
            assert forall|i: int, j: int| 0 <= i < j < stored.len() implies (#[trigger] stored[i]).0
                != (#[trigger] stored[j]).0 by {
                assert(fields[i].0 != fields[j].0);
            }
        },
        _ => {},
    }
}

/// Reading keeps records in order: where no record of a stored value has a
/// name twice, no record of the value that it stands for has.
pub proof fn value_of_is_well_formed(s: StoredModel)
    requires
        stored_well_formed(s),
    ensures
        well_formed(value_of(s)),
    decreases s,
{
    match s {
        StoredModel::Tuple(items) => {
            let values = value_of(s)->Tuple_0;
            assert forall|i: int| 0 <= i < values.len() implies well_formed(
                #[trigger] values[i],
            ) by {
                assert(stored_well_formed(items[i]));
                value_of_is_well_formed(items[i]);
            }
        },
        StoredModel::Record(fields) => {
            let values = value_of(s)->Record_0;
            assert forall|i: int| 0 <= i < values.len() implies well_formed(
                (#[trigger] values[i]).1,
            ) by {
                assert(stored_well_formed(fields[i].1));
                value_of_is_well_formed(fields[i].1);
            }
            assert forall|i: int, j: int| 0 <= i < j < values.len() implies (#[trigger] values[i]).0
                != (#[trigger] values[j]).0 by {
                assert(fields[i].0 != fields[j].0);
            }
        },
        _ => {},
    }
}

impl SerializedValue {
    /// The stored form of `value`, or the error that the operation is not
    /// supported where `value`, or a value nested in it, cannot be stored.
    pub fn try_from(value: &ScriptValue) -> (result: Result<SerializedValue, RuntimeError>)
        ensures
            storable(value@) ==> result is Ok && result->Ok_0@ == stored_form(value@),
            !storable(value@) ==> result == Err::<SerializedValue, RuntimeError>(
                RuntimeError::OperationNotSupported,
            ),
        decreases value,
    {
        match value {
            ScriptValue::Tuple(items) => {
                proof {
                    tuple_model(*items);
                }
                let mut stored: Vec<SerializedValue> = Vec::new();
                let mut i: usize = 0;
                while i < items.len()
                    invariant
                        value is Tuple,
                        value->Tuple_0 == *items,
                        i <= items.len(),
                        stored.len() == i,
                        forall|j: int|
                            0 <= j < i ==> storable(#[trigger] items@[j]@) && stored@[j]@
                                == stored_form(items@[j]@),
                    decreases items.len() - i,
                {
                    match SerializedValue::try_from(&items[i]) {
                        Ok(item) => {
                            stored.push(item);
                        },
                        Err(error) => {
                            proof {
                                assert(!storable(items@[i as int]@));
                                assert(value@->Tuple_0[i as int] == items@[i as int]@);
                            }
                            return Err(error);
                        },
                    }
                    i = i + 1;
                }
                proof {
                    stored_tuple_model(stored);
                    assert forall|j: int| 0 <= j < items.len() implies storable(
                        #[trigger] value@->Tuple_0[j],
                    ) by {
                        assert(storable(items@[j]@));
                    }
                    assert(stored_models_of(stored@) =~= stored_form(value@)->Tuple_0);
                }
                Ok(SerializedValue::Tuple(stored))
            },
            ScriptValue::Record(fields) => {
                proof {
                    record_model(*fields);
                }
                let mut stored: Vec<(String, SerializedValue)> = Vec::new();
                let mut i: usize = 0;
                while i < fields.len()
                    invariant
                        value is Record,
                        value->Record_0 == *fields,
                        i <= fields.len(),
                        stored.len() == i,
                        forall|j: int|
                            0 <= j < i ==> storable((#[trigger] fields@[j]).1@) && stored@[j].0@
                                == fields@[j].0@ && stored@[j].1@ == stored_form(fields@[j].1@),
                    decreases fields.len() - i,
                {
                    match SerializedValue::try_from(&fields[i].1) {
                        Ok(item) => {
                            stored.push((fields[i].0.clone(), item));
                        },
                        Err(error) => {
                            proof {
                                assert(!storable(fields@[i as int].1@));
                                assert(value@->Record_0[i as int].1 == fields@[i as int].1@);
                            }
                            return Err(error);
                        },
                    }
                    i = i + 1;
                }
                proof {
                    stored_record_model(stored);
                    assert forall|j: int| 0 <= j < fields.len() implies storable(
                        (#[trigger] value@->Record_0[j]).1,
                    ) by {
                        assert(storable(fields@[j].1@));
                    }
                    assert(stored_field_models_of(stored@) =~= stored_form(value@)->Record_0);
                }
                Ok(SerializedValue::Record(stored))
            },
            ScriptValue::Number(bits) => Ok(SerializedValue::Number(*bits)),
            ScriptValue::Boolean(b) => Ok(SerializedValue::Boolean(*b)),
            ScriptValue::String(text) => Ok(SerializedValue::String(text.clone())),
            _ => Err(RuntimeError::OperationNotSupported),
        }
    }

    /// The script value that this stored value stands for. Every stored value
    /// stands for one, so this never fails.
    pub fn try_into(&self) -> (result: Result<ScriptValue, RuntimeError>)
        ensures
            result is Ok,
            result->Ok_0@ == value_of(self@),
        decreases self,
    {
        match self {
            SerializedValue::Tuple(items) => {
                proof {
                    stored_tuple_model(*items);
                }
                let mut values: Vec<ScriptValue> = Vec::new();
                let mut i: usize = 0;
                while i < items.len()
                    invariant
                        self is Tuple,
                        self->Tuple_0 == *items,
                        i <= items.len(),
                        values.len() == i,
                        forall|j: int| 0 <= j < i ==> (#[trigger] values@[j])@ == value_of(items@[j]@),
                    decreases items.len() - i,
                {
                    match SerializedValue::try_into(&items[i]) {
                        Ok(item) => {
                            values.push(item);
                        },
                        Err(error) => {
                            return Err(error);
                        },
                    }
                    i = i + 1;
                }
                proof {
                    tuple_model(values);
                    assert(models_of(values@) =~= value_of(self@)->Tuple_0);
                }
                Ok(ScriptValue::Tuple(values))
            },
            SerializedValue::Record(fields) => {
                proof {
                    stored_record_model(*fields);
                }
                let mut values: Vec<(String, ScriptValue)> = Vec::new();
                let mut i: usize = 0;
                while i < fields.len()
                    invariant
                        self is Record,
                        self->Record_0 == *fields,
                        i <= fields.len(),
                        values.len() == i,
                        forall|j: int|
                            0 <= j < i ==> (#[trigger] values@[j]).0@ == fields@[j].0@
                                && values@[j].1@ == value_of(fields@[j].1@),
                    decreases fields.len() - i,
                {
                    match SerializedValue::try_into(&fields[i].1) {
                        Ok(item) => {
                            values.push((fields[i].0.clone(), item));
                        },
                        Err(error) => {
                            return Err(error);
                        },
                    }
                    i = i + 1;
                }
                proof {
                    record_model(values);
                    assert(field_models_of(values@) =~= value_of(self@)->Record_0);
                }
                Ok(ScriptValue::Record(values))
            },
            SerializedValue::Number(bits) => Ok(ScriptValue::Number(*bits)),
            SerializedValue::Boolean(b) => Ok(ScriptValue::Boolean(*b)),
            SerializedValue::String(text) => Ok(ScriptValue::String(text.clone())),
        }
    }
}

/// What `set` asks the host to write to the durable store.
#[derive(Debug, PartialEq, Eq)]
pub struct StoreWrite {
    pub key: String,
    pub value: SerializedValue,
}

/// What a read of the durable store brought.
#[derive(Debug, PartialEq, Eq)]
pub enum StoreRead {
    /// The store could not be read.
    Failed,
    /// The store holds nothing under the key.
    Absent,
    /// The store holds this value under the key.
    Present(SerializedValue),
}

/// The key that `get` reads, for the arguments it was called with: there is
/// one where it got exactly one argument, a string.
pub open spec fn key_read_by_get(params: Seq<ValueModel>) -> Option<Seq<char>> {
    if params.len() == 1 && params[0] is String {
        Some(params[0]->String_0)
    } else {
        None
    }
}

/// What `get` returns to the script for what the store holds under the key:
/// the unit value where it holds nothing, else the value that is stored.
pub open spec fn value_read_by_get(found: Option<StoredModel>) -> ValueModel {
    match found {
        None => unit_model(),
        Some(stored) => value_of(stored),
    }
}

/// The key and the stored value that `set` writes, for the arguments it was
/// called with: there is a write where it got exactly two arguments, the
/// first a string and the second a value that can be stored.
pub open spec fn written_by_set(params: Seq<ValueModel>) -> Option<(Seq<char>, StoredModel)> {
    if params.len() == 2 && params[0] is String && storable(params[1]) {
        Some((params[0]->String_0, stored_form(params[1])))
    } else {
        None
    }
}

/// What a script stores under a key, it reads back from that key unchanged.
pub proof fn set_then_get(params: Seq<ValueModel>, key: Seq<char>, stored: StoredModel)
    requires
        written_by_set(params) == Some((key, stored)),
    ensures
        key_read_by_get(seq![params[0]]) == Some(key),
        value_read_by_get(Some(stored)) == params[1],
{
    value_round_trip(params[1]);
}

/// The native function `get`, up to the read: checks the arguments and gives
/// the key to read from the durable store. The host reads it and hands what
/// it found to [`finish_get`].
pub fn get(params: &[ScriptValue]) -> (key: Result<String, RuntimeError>)
    ensures
        key is Ok <==> key_read_by_get(models_of(params@)) is Some,
        key is Ok ==> Some(key->Ok_0@) == key_read_by_get(models_of(params@)),
        params@.len() != 1 ==> key == Err::<String, RuntimeError>(
            RuntimeError::IncorrectParameterCount(1, params@.len() as usize),
        ),
        params@.len() == 1 && !(params@[0]@ is String) ==> key == Err::<String, RuntimeError>(
            RuntimeError::OperationNotSupported,
        ),
{
    if params.len() != 1 {
        return Err(RuntimeError::IncorrectParameterCount(1, params.len()));
    }
    match &params[0] {
        ScriptValue::String(key) => Ok(key.clone()),
        _ => Err(RuntimeError::OperationNotSupported),
    }
}

/// The native function `get`, after the read: what the script gets for what
/// the store brought. A key under which nothing is stored gives the unit
/// value, not an error; a store that could not be read gives the unknown
/// error.
pub fn finish_get(read: &StoreRead) -> (result: Result<ScriptValue, RuntimeError>)
    ensures
        read is Failed ==> result == Err::<ScriptValue, RuntimeError>(RuntimeError::Unknown),
        read is Absent ==> result is Ok && result->Ok_0@ == value_read_by_get(None),
        read is Present ==> result is Ok && result->Ok_0@ == value_read_by_get(
            Some(read->Present_0@),
        ),
{
    match read {
        StoreRead::Failed => Err(RuntimeError::Unknown),
        StoreRead::Absent => Ok(ScriptValue::get_unit()),
        StoreRead::Present(stored) => SerializedValue::try_into(stored),
    }
}

/// The native function `set`, up to the write: checks the arguments and
/// gives the key and the stored form of the value. The host writes them,
/// over whatever the key held, and hands the outcome to [`finish_set`]. An
/// error here means that nothing is to be written.
pub fn set(params: &[ScriptValue]) -> (write: Result<StoreWrite, RuntimeError>)
    ensures
        write is Ok <==> written_by_set(models_of(params@)) is Some,
        write is Ok ==> Some((write->Ok_0.key@, write->Ok_0.value@)) == written_by_set(
            models_of(params@),
        ),
        params@.len() != 2 ==> write == Err::<StoreWrite, RuntimeError>(
            RuntimeError::IncorrectParameterCount(2, params@.len() as usize),
        ),
        params@.len() == 2 && written_by_set(models_of(params@)) is None ==> write == Err::<
            StoreWrite,
            RuntimeError,
        >(RuntimeError::OperationNotSupported),
{
    if params.len() != 2 {
        return Err(RuntimeError::IncorrectParameterCount(2, params.len()));
    }
    match &params[0] {
        ScriptValue::String(key) => {
            match SerializedValue::try_from(&params[1]) {
                Ok(value) => Ok(StoreWrite { key: key.clone(), value }),
                Err(error) => Err(error),
            }
        },
        _ => Err(RuntimeError::OperationNotSupported),
    }
}

/// The native function `set`, after the write: the unit value where the
/// store took the write, the unknown error where it could not.
pub fn finish_set(written: bool) -> (result: Result<ScriptValue, RuntimeError>)
    ensures
        written ==> result is Ok && result->Ok_0@ == unit_model(),
        !written ==> result == Err::<ScriptValue, RuntimeError>(RuntimeError::Unknown),
{
    if written {
        Ok(ScriptValue::get_unit())
    } else {
        Err(RuntimeError::Unknown)
    }
}

} // verus!
