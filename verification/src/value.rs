//! The values that cross between the client and a script.

use vstd::prelude::*;
use vstd::string::*;
use crate::bytes::{ascii, ascii_bytes};
use crate::event::{User, UserView, opt_bytes};

verus! {

/// A reference to a callback that lives in the script runtime.
#[derive(Clone, Copy, Debug, PartialEq, Eq, Structural)]
pub struct HandlerRef {
    pub id: u64,
}

/// One entry of a table.
#[derive(Debug, PartialEq, Eq)]
pub struct Field {
    pub key: Vec<u8>,
    pub value: Value,
}

/// A script value. Booleans, byte strings and callbacks go by value; a
/// table is a structure that a script may change in place. A number reaches
/// the client as the byte string that the script runtime makes of it.
#[derive(Debug, PartialEq, Eq)]
pub enum Value {
    Nil,
    Boolean(bool),
    Bytes(Vec<u8>),
    Function(HandlerRef),
    Table(Vec<Field>),
    /// A value of the script runtime that the client cannot read.
    Opaque,
}

/// What an entry of a table holds: its key and its value.
pub ghost struct FieldView {
    pub key: Seq<u8>,
    pub value: ValueView,
}

/// What a script value holds; a table holds its entries in order.
pub ghost enum ValueView {
    Nil,
    Boolean(bool),
    Bytes(Seq<u8>),
    Function(HandlerRef),
    Table(Seq<FieldView>),
    Opaque,
}

/// What a script sees of `value`: its bytes, its callback, or its fields in order.
pub open spec fn value_view(value: Value) -> ValueView
    decreases value,
{
    match value {
        Value::Nil => ValueView::Nil,
        Value::Boolean(flag) => ValueView::Boolean(flag),
        Value::Bytes(bytes) => ValueView::Bytes(bytes@),
        Value::Function(handler) => ValueView::Function(handler),
        Value::Opaque => ValueView::Opaque,
        Value::Table(fields) => ValueView::Table(
            Seq::new(
                fields@.len(),
                |i: int|
                    if 0 <= i < fields@.len() {
                        FieldView { key: fields@[i].key@, value: value_view(fields@[i].value) }
                    } else {
                        FieldView { key: Seq::empty(), value: ValueView::Nil }
                    },
            ),
        ),
    }
}

impl View for Value {
    type V = ValueView;

    open spec fn view(&self) -> ValueView {
        value_view(*self)
    }
}

impl View for Field {
    type V = FieldView;

    open spec fn view(&self) -> FieldView {
        FieldView { key: self.key@, value: self.value@ }
    }
}

/// The kinds of value that a script can pass, and `NoValue` for an argument
/// that was not passed at all.
#[derive(Clone, Copy, Debug, PartialEq, Eq, Structural)]
pub enum ValueKind {
    NoValue,
    Nil,
    Boolean,
    Bytes,
    Function,
    Table,
    Opaque,
}

/// What a kind is called when a script is told of it.
pub open spec fn kind_name(kind: ValueKind) -> Seq<u8> {
    match kind {
        ValueKind::NoValue => ascii("no value"@),
        ValueKind::Nil => ascii("nil"@),
        ValueKind::Boolean => ascii("boolean"@),
        ValueKind::Bytes => ascii("string"@),
        ValueKind::Function => ascii("function"@),
        ValueKind::Table => ascii("table"@),
        ValueKind::Opaque => ascii("userdata"@),
    }
}

impl ValueKind {
    /// What this kind is called when a script is told of it.
    pub fn name(&self) -> (name: Vec<u8>)
        ensures
            name@ == kind_name(*self),
    {
        proof {
            reveal_strlit("no value");
            reveal_strlit("nil");
            reveal_strlit("boolean");
            reveal_strlit("string");
            reveal_strlit("function");
            reveal_strlit("table");
            reveal_strlit("userdata");
        }
        match self {
            ValueKind::NoValue => ascii_bytes("no value"),
            ValueKind::Nil => ascii_bytes("nil"),
            ValueKind::Boolean => ascii_bytes("boolean"),
            ValueKind::Bytes => ascii_bytes("string"),
            ValueKind::Function => ascii_bytes("function"),
            ValueKind::Table => ascii_bytes("table"),
            ValueKind::Opaque => ascii_bytes("userdata"),
        }
    }
}

/// The kind of a value.
pub open spec fn kind_of(value: ValueView) -> ValueKind {
    match value {
        ValueView::Nil => ValueKind::Nil,
        ValueView::Boolean(_) => ValueKind::Boolean,
        ValueView::Bytes(_) => ValueKind::Bytes,
        ValueView::Function(_) => ValueKind::Function,
        ValueView::Table(_) => ValueKind::Table,
        ValueView::Opaque => ValueKind::Opaque,
    }
}

/// The values behind a list of script values.
pub open spec fn values_view(values: Seq<Value>) -> Seq<ValueView> {
    Seq::new(values.len(), |i: int| values[i]@)
}

/// A byte string if there is one, nil otherwise.
pub open spec fn bytes_or_nil(field: Option<Seq<u8>>) -> ValueView {
    match field {
        Some(bytes) => ValueView::Bytes(bytes),
        None => ValueView::Nil,
    }
}

/// The table that shows a user to a script: `raw`, `nick`, `user` and `host`,
/// the last two nil where the prefix did not give them.
pub open spec fn user_record(user: UserView) -> ValueView {
    ValueView::Table(
        seq![
            FieldView { key: ascii("raw"@), value: ValueView::Bytes(user.raw) },
            FieldView { key: ascii("nick"@), value: ValueView::Bytes(user.nick) },
            FieldView { key: ascii("user"@), value: bytes_or_nil(user.user) },
            FieldView { key: ascii("host"@), value: bytes_or_nil(user.host) },
        ],
    )
}

/// A byte string if there is one, nil otherwise.
fn optional_bytes(field: &Option<Vec<u8>>) -> (value: Value)
    ensures
        value@ == bytes_or_nil(opt_bytes(*field)),
{
    match field {
        Some(bytes) => Value::Bytes(bytes.clone()),
        None => Value::Nil,
    }
}

impl Value {
    /// The table that shows `user` to a script.
    pub fn from_user(user: &User) -> (record: Value)
        ensures
            record@ == user_record(user@),
    {
        proof {
            reveal_strlit("raw");
            reveal_strlit("nick");
            reveal_strlit("user");
            reveal_strlit("host");
        }
        let raw = Value::Bytes(user.raw.clone());
        let nick = Value::Bytes(user.nick.clone());
        assert(raw@ == ValueView::Bytes(user.raw@));
        assert(nick@ == ValueView::Bytes(user.nick@));
        let mut fields: Vec<Field> = Vec::new();
        fields.push(Field { key: ascii_bytes("raw"), value: raw });
        fields.push(Field { key: ascii_bytes("nick"), value: nick });
        fields.push(Field { key: ascii_bytes("user"), value: optional_bytes(&user.user) });
        fields.push(Field { key: ascii_bytes("host"), value: optional_bytes(&user.host) });
        let record = Value::Table(fields);
        assert(record@->Table_0 =~= user_record(user@)->Table_0);
        record
    }

    /// The kind of this value.
    pub fn kind(&self) -> (kind: ValueKind)
        ensures
            kind == kind_of(self@),
    {
        match self {
            Value::Nil => ValueKind::Nil,
            Value::Boolean(_) => ValueKind::Boolean,
            Value::Bytes(_) => ValueKind::Bytes,
            Value::Function(_) => ValueKind::Function,
            Value::Table(_) => ValueKind::Table,
            Value::Opaque => ValueKind::Opaque,
        }
    }

    /// A copy that shares nothing with `self`: tables are duplicated at every depth.
    pub fn deep_copy(&self) -> (copy: Value)
        ensures
            copy@ == self@,
        decreases self,
    {
        match self {
            Value::Nil => Value::Nil,
            Value::Boolean(flag) => Value::Boolean(*flag),
            Value::Bytes(bytes) => Value::Bytes(bytes.clone()),
            Value::Function(handler) => Value::Function(*handler),
            Value::Opaque => Value::Opaque,
            Value::Table(fields) => {
                let mut out: Vec<Field> = Vec::new();
                let mut i: usize = 0;
                while i < fields.len()
                    invariant
                        i <= fields.len(),
                        out.len() == i,
                        *self == Value::Table(*fields),
                        forall|j: int| 0 <= j < i ==> out[j]@ == fields[j]@,
                    decreases fields.len() - i,
                {
                    let field = &fields[i];
                    proof {
                        assert(self->Table_0 == *fields);
                        assert(decreases_to!(*self => self->Table_0));
                        assert(decreases_to!(*fields => fields[i as int]));
                        assert(decreases_to!(*field => field.value));
                    }
                    out.push(Field { key: field.key.clone(), value: field.value.deep_copy() });
                    i += 1;
                }
                let copy = Value::Table(out);
                assert(copy@->Table_0 =~= self@->Table_0);
                copy
            },
        }
    }
}

} // verus!
