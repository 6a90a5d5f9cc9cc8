//! The values that scripts compute, and the form in which they are stored.

use vstd::prelude::*;

verus! {

/// A value of the scripting language, as the host sees it.
///
/// A number is held as the 64 bits of its IEEE 754 double, so that nothing of
/// it is lost on the way through the store. A record is a list of named
/// fields. The last three kinds are the interpreter's own (functions of the
/// script, of the host, and closures): they cannot be stored.
#[derive(Debug, PartialEq, Eq)]
pub enum ScriptValue {
    Tuple(Vec<ScriptValue>),
    Record(Vec<(String, ScriptValue)>),
    Number(u64),
    Boolean(bool),
    String(String),
    Function,
    NativeFunction,
    Closure,
}

/// A value in the form in which the durable store holds it: the five kinds of
/// script value that can be stored, and nothing else.
#[derive(Debug, PartialEq, Eq)]
pub enum SerializedValue {
    Tuple(Vec<SerializedValue>),
    Record(Vec<(String, SerializedValue)>),
    Number(u64),
    Boolean(bool),
    String(String),
}

/// The mathematical model of a [`ScriptValue`].
pub enum ValueModel {
    Tuple(Seq<ValueModel>),
    Record(Seq<(Seq<char>, ValueModel)>),
    Number(u64),
    Boolean(bool),
    String(Seq<char>),
    Function,
    NativeFunction,
    Closure,
}

/// The mathematical model of a [`SerializedValue`].
pub enum StoredModel {
    Tuple(Seq<StoredModel>),
    Record(Seq<(Seq<char>, StoredModel)>),
    Number(u64),
    Boolean(bool),
    String(Seq<char>),
}

/// The unit value: the tuple without items.
pub open spec fn unit_model() -> ValueModel {
    ValueModel::Tuple(Seq::empty())
}

impl ScriptValue {
    /// The model of this value: the same tree, with sequences for vectors and
    /// strings.
    pub open spec fn model(&self) -> ValueModel
        decreases self,
    {
        match self {
            ScriptValue::Tuple(items) => ValueModel::Tuple(
                Seq::new(
                    items@.len(),
                    |i: int|
                        if 0 <= i < items@.len() {
                            items@[i].model()
                        } else {
                            unit_model()
                        },
                ),
            ),
            ScriptValue::Record(fields) => ValueModel::Record(
                Seq::new(
                    fields@.len(),
                    |i: int|
                        if 0 <= i < fields@.len() {
                            (fields@[i].0@, fields@[i].1.model())
                        } else {
                            (Seq::empty(), unit_model())
                        },
                ),
            ),
            ScriptValue::Number(bits) => ValueModel::Number(*bits),
            ScriptValue::Boolean(b) => ValueModel::Boolean(*b),
            ScriptValue::String(text) => ValueModel::String(text@),
            ScriptValue::Function => ValueModel::Function,
            ScriptValue::NativeFunction => ValueModel::NativeFunction,
            ScriptValue::Closure => ValueModel::Closure,
        }
    }

    /// The unit value.
    pub fn get_unit() -> (unit: ScriptValue)
        ensures
            unit@ == unit_model(),
    {
        let unit = ScriptValue::Tuple(Vec::new());
        assert(unit@->Tuple_0 =~= Seq::empty());
        unit
    }
}

impl View for ScriptValue {
    type V = ValueModel;

    open spec fn view(&self) -> ValueModel {
        self.model()
    }
}

impl SerializedValue {
    /// The model of this stored value.
    pub open spec fn model(&self) -> StoredModel
        decreases self,
    {
        match self {
            SerializedValue::Tuple(items) => StoredModel::Tuple(
                Seq::new(
                    items@.len(),
                    |i: int|
                        if 0 <= i < items@.len() {
                            items@[i].model()
                        } else {
                            StoredModel::Boolean(false)
                        },
                ),
            ),
            SerializedValue::Record(fields) => StoredModel::Record(
                Seq::new(
                    fields@.len(),
                    |i: int|
                        if 0 <= i < fields@.len() {
                            (fields@[i].0@, fields@[i].1.model())
                        } else {
                            (Seq::empty(), StoredModel::Boolean(false))
                        },
                ),
            ),
            SerializedValue::Number(bits) => StoredModel::Number(*bits),
            SerializedValue::Boolean(b) => StoredModel::Boolean(*b),
            SerializedValue::String(text) => StoredModel::String(text@),
        }
    }
}

impl View for SerializedValue {
    type V = StoredModel;

    open spec fn view(&self) -> StoredModel {
        self.model()
    }
}

/// The models of a vector of script values, item by item.
pub open spec fn models_of(items: Seq<ScriptValue>) -> Seq<ValueModel> {
    Seq::new(items.len(), |i: int| items[i]@)
}

/// The models of a vector of named script values, field by field.
pub open spec fn field_models_of(fields: Seq<(String, ScriptValue)>) -> Seq<(Seq<char>, ValueModel)> {
    Seq::new(fields.len(), |i: int| (fields[i].0@, fields[i].1@))
}

/// The models of a vector of stored values, item by item.
pub open spec fn stored_models_of(items: Seq<SerializedValue>) -> Seq<StoredModel> {
    Seq::new(items.len(), |i: int| items[i]@)
}

/// The models of a vector of named stored values, field by field.
pub open spec fn stored_field_models_of(fields: Seq<(String, SerializedValue)>) -> Seq<
    (Seq<char>, StoredModel),
> {
    Seq::new(fields.len(), |i: int| (fields[i].0@, fields[i].1@))
}

/// A tuple's model is the tuple of its items' models.
pub proof fn tuple_model(items: Vec<ScriptValue>)
    ensures
        ScriptValue::Tuple(items)@ == ValueModel::Tuple(models_of(items@)),
{
    assert(ScriptValue::Tuple(items)@->Tuple_0 =~= models_of(items@));
}

/// A record's model is the record of its fields' models.
pub proof fn record_model(fields: Vec<(String, ScriptValue)>)
    ensures
        ScriptValue::Record(fields)@ == ValueModel::Record(field_models_of(fields@)),
{
    assert(ScriptValue::Record(fields)@->Record_0 =~= field_models_of(fields@));
}

/// A stored tuple's model is the tuple of its items' models.
pub proof fn stored_tuple_model(items: Vec<SerializedValue>)
    ensures
        SerializedValue::Tuple(items)@ == StoredModel::Tuple(stored_models_of(items@)),
{
    assert(SerializedValue::Tuple(items)@->Tuple_0 =~= stored_models_of(items@));
}

/// A stored record's model is the record of its fields' models.
pub proof fn stored_record_model(fields: Vec<(String, SerializedValue)>)
    ensures
        SerializedValue::Record(fields)@ == StoredModel::Record(stored_field_models_of(fields@)),
{
    assert(SerializedValue::Record(fields)@->Record_0 =~= stored_field_models_of(fields@));
}

impl Clone for ScriptValue {
    /// A copy of this value: the same tree.
    fn clone(&self) -> (copy: ScriptValue)
        ensures
            copy@ == self@,
        decreases self,
    {
        match self {
            ScriptValue::Tuple(items) => {
                let mut copies: Vec<ScriptValue> = Vec::new();
                let mut i: usize = 0;
                while i < items.len()
                    invariant
                        self is Tuple,
                        self->Tuple_0 == *items,
                        i <= items.len(),
                        copies.len() == i,
                        forall|j: int| 0 <= j < i ==> (#[trigger] copies@[j])@ == items@[j]@,
                    decreases items.len() - i,
                {
                    let item = items[i].clone();
                    copies.push(item);
                    i = i + 1;
                }
                proof {
                    tuple_model(*items);
                    tuple_model(copies);
                    assert(models_of(copies@) =~= models_of(items@));
                }
                ScriptValue::Tuple(copies)
            },
            ScriptValue::Record(fields) => {
                let mut copies: Vec<(String, ScriptValue)> = Vec::new();
                let mut i: usize = 0;
                while i < fields.len()
                    invariant
                        self is Record,
                        self->Record_0 == *fields,
                        i <= fields.len(),
                        copies.len() == i,
                        forall|j: int|
                            0 <= j < i ==> (#[trigger] copies@[j]).0@ == fields@[j].0@
                                && copies@[j].1@ == fields@[j].1@,
                    decreases fields.len() - i,
                {
                    let item = fields[i].1.clone();
                    copies.push((fields[i].0.clone(), item));
                    i = i + 1;
                }
                proof {
                    record_model(*fields);
                    record_model(copies);
                    assert(field_models_of(copies@) =~= field_models_of(fields@));
                }
                ScriptValue::Record(copies)
            },
            ScriptValue::Number(bits) => ScriptValue::Number(*bits),
            ScriptValue::Boolean(b) => ScriptValue::Boolean(*b),
            ScriptValue::String(text) => ScriptValue::String(text.clone()),
            ScriptValue::Function => ScriptValue::Function,
            ScriptValue::NativeFunction => ScriptValue::NativeFunction,
            ScriptValue::Closure => ScriptValue::Closure,
        }
    }
}

impl Clone for SerializedValue {
    /// A copy of this stored value: the same tree.
    fn clone(&self) -> (copy: SerializedValue)
        ensures
            copy@ == self@,
        decreases self,
    {
        match self {
            SerializedValue::Tuple(items) => {
                let mut copies: Vec<SerializedValue> = Vec::new();
                let mut i: usize = 0;
                while i < items.len()
                    invariant
                        self is Tuple,
                        self->Tuple_0 == *items,
                        i <= items.len(),
                        copies.len() == i,
                        forall|j: int| 0 <= j < i ==> (#[trigger] copies@[j])@ == items@[j]@,
                    decreases items.len() - i,
                {
                    let item = items[i].clone();
                    copies.push(item);
                    i = i + 1;
                }
                proof {
                    stored_tuple_model(*items);
                    stored_tuple_model(copies);
                    assert(stored_models_of(copies@) =~= stored_models_of(items@));
                }
                SerializedValue::Tuple(copies)
            },
            SerializedValue::Record(fields) => {
                let mut copies: Vec<(String, SerializedValue)> = Vec::new();
                let mut i: usize = 0;
                while i < fields.len()
                    invariant
                        self is Record,
                        self->Record_0 == *fields,
                        i <= fields.len(),
                        copies.len() == i,
                        forall|j: int|
                            0 <= j < i ==> (#[trigger] copies@[j]).0@ == fields@[j].0@
                                && copies@[j].1@ == fields@[j].1@,
                    decreases fields.len() - i,
                {
                    let item = fields[i].1.clone();
                    copies.push((fields[i].0.clone(), item));
                    i = i + 1;
                }
                proof {
                    stored_record_model(*fields);
                    stored_record_model(copies);
                    assert(stored_field_models_of(copies@) =~= stored_field_models_of(fields@));
                }
                SerializedValue::Record(copies)
            },
            SerializedValue::Number(bits) => SerializedValue::Number(*bits),
            SerializedValue::Boolean(b) => SerializedValue::Boolean(*b),
            SerializedValue::String(text) => SerializedValue::String(text.clone()),
        }
    }
}

} // verus!
