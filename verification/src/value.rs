use vstd::prelude::*;

verus! {

/// The shape of a wire value, without its contents.
#[derive(Clone, Copy, Debug, PartialEq, Eq, Structural)]
pub enum ValueKind {
    Nil,
    Bool,
    Int,
    Float,
    Str,
    Bin,
    Array,
    Mapping,
    Ext,
}

/// One value as it arrives from the peer: untyped, and shaped by whoever sent it.
#[derive(Debug, PartialEq, Eq)]
pub enum Value {
    Nil,
    Bool(bool),
    /// Any integer the wire format can carry, signed or unsigned.
    Int(i128),
    /// A floating-point number, held as the bit pattern of its 64-bit encoding.
    Float(u64),
    Str(String),
    Bin(Vec<u8>),
    Array(Vec<Value>),
    /// Key and value pairs, in the order in which they were sent.
    Mapping(Vec<(Value, Value)>),
    /// An application-defined tag and its payload.
    Ext(i8, Vec<u8>),
}

/// One key of a mapping with its value.
pub struct EntryView {
    pub key: ValueView,
    pub value: ValueView,
}

/// What a [`Value`] stands for.
pub enum ValueView {
    Nil,
    Bool(bool),
    Int(int),
    /// The bit pattern, as a number.
    Float(int),
    Str(Seq<char>),
    Bin(Seq<u8>),
    Array(Seq<ValueView>),
    Mapping(Seq<EntryView>),
    Ext(int, Seq<u8>),
}

impl ValueView {
    /// The shape of the value.
    pub open spec fn kind(self) -> ValueKind {
        match self {
            ValueView::Nil => ValueKind::Nil,
            ValueView::Bool(_) => ValueKind::Bool,
            ValueView::Int(_) => ValueKind::Int,
            ValueView::Float(_) => ValueKind::Float,
            ValueView::Str(_) => ValueKind::Str,
            ValueView::Bin(_) => ValueKind::Bin,
            ValueView::Array(_) => ValueKind::Array,
            ValueView::Mapping(_) => ValueKind::Mapping,
            ValueView::Ext(_, _) => ValueKind::Ext,
        }
    }
}

impl View for Value {
    type V = ValueView;

    open spec fn view(&self) -> ValueView
        decreases self,
    {
        match self {
            Value::Nil => ValueView::Nil,
            Value::Bool(b) => ValueView::Bool(*b),
            Value::Int(n) => ValueView::Int(*n as int),
            Value::Float(bits) => ValueView::Float(*bits as int),
            Value::Str(s) => ValueView::Str(s@),
            Value::Bin(bytes) => ValueView::Bin(bytes@),
            Value::Array(items) => ValueView::Array(
                Seq::new(
                    items@.len(),
                    |i: int|
                        if 0 <= i < items@.len() {
                            items@[i].view()
                        } else {
                            ValueView::Nil
                        },
                ),
            ),
            Value::Mapping(pairs) => ValueView::Mapping(
                Seq::new(
                    pairs@.len(),
                    |i: int|
                        if 0 <= i < pairs@.len() {
                            EntryView { key: pairs@[i].0.view(), value: pairs@[i].1.view() }
                        } else {
                            EntryView { key: ValueView::Nil, value: ValueView::Nil }
                        },
                ),
            ),
            Value::Ext(tag, bytes) => ValueView::Ext(*tag as int, bytes@),
        }
    }
}

/// The views of a run of values, in order.
pub open spec fn views(values: Seq<Value>) -> Seq<ValueView> {
    Seq::new(values.len(), |i: int| values[i]@)
}

/// The views of a run of key and value pairs, in order.
pub open spec fn pair_views(pairs: Seq<(Value, Value)>) -> Seq<EntryView> {
    Seq::new(pairs.len(), |i: int| EntryView { key: pairs[i].0@, value: pairs[i].1@ })
}

/// An array stands for the views of its items, a mapping for those of its pairs.
pub proof fn lemma_view_of_containers(value: Value)
    ensures
        value matches Value::Array(items) ==> value@ == ValueView::Array(views(items@)),
        value matches Value::Mapping(pairs) ==> value@ == ValueView::Mapping(pair_views(pairs@)),
{
    match value {
        Value::Array(items) => {
            assert(value@->Array_0 =~= views(items@));
        },
        Value::Mapping(pairs) => {
            assert(value@->Mapping_0 =~= pair_views(pairs@));
        },
        _ => {},
    }
}

fn clone_bytes(bytes: &Vec<u8>) -> (copy: Vec<u8>)
    ensures
        copy@ == bytes@,
{
    let mut copy: Vec<u8> = Vec::new();
    let mut i: usize = 0;
    while i < bytes.len()
        invariant
            i <= bytes.len(),
            copy@ == bytes@.subrange(0, i as int),
        decreases bytes.len() - i,
    {
        copy.push(bytes[i]);
        i += 1;
    }
    copy
}

impl Value {
    /// The shape of this value.
    pub fn kind(&self) -> (kind: ValueKind)
        ensures
            kind == self@.kind(),
    {
        match self {
            Value::Nil => ValueKind::Nil,
            Value::Bool(_) => ValueKind::Bool,
            Value::Int(_) => ValueKind::Int,
            Value::Float(_) => ValueKind::Float,
            Value::Str(_) => ValueKind::Str,
            Value::Bin(_) => ValueKind::Bin,
            Value::Array(_) => ValueKind::Array,
            Value::Mapping(_) => ValueKind::Mapping,
            Value::Ext(_, _) => ValueKind::Ext,
        }
    }
}

impl Clone for Value {
    /// A deep copy: the copy stands for the same value.
    fn clone(&self) -> (copy: Value)
        ensures
            copy@ == self@,
        decreases self,
    {
        match self {
            Value::Nil => Value::Nil,
            Value::Bool(b) => Value::Bool(*b),
            Value::Int(n) => Value::Int(*n),
            Value::Float(bits) => Value::Float(*bits),
            Value::Str(s) => Value::Str(s.clone()),
            Value::Bin(bytes) => Value::Bin(clone_bytes(bytes)),
            Value::Array(items) => {
                let mut copies: Vec<Value> = Vec::new();
                let mut i: usize = 0;
                while i < items.len()
                    invariant
                        i <= items.len(),
                        copies.len() == i,
                        *self == Value::Array(*items),
                        forall|j: int| 0 <= j < i ==> copies@[j]@ == items@[j]@,
                    decreases items.len() - i,
                {
                    proof {
                        vstd::std_specs::vec::axiom_vec_index_decreases(*items, i as int);
                        assert(decreases_to!(*self => self->Array_0));
                    }
                    copies.push(items[i].clone());
                    i += 1;
                }
                let copy = Value::Array(copies);
                proof {
                    assert(copy@->Array_0 =~= self@->Array_0);
                }
                copy
            },
            Value::Mapping(pairs) => {
                let mut copies: Vec<(Value, Value)> = Vec::new();
                let mut i: usize = 0;
                while i < pairs.len()
                    invariant
                        i <= pairs.len(),
                        copies.len() == i,
                        *self == Value::Mapping(*pairs),
                        forall|j: int|
                            0 <= j < i ==> copies@[j].0@ == pairs@[j].0@ && copies@[j].1@
                                == pairs@[j].1@,
                    decreases pairs.len() - i,
                {
                    proof {
                        vstd::std_specs::vec::axiom_vec_index_decreases(*pairs, i as int);
                        assert(decreases_to!(*self => self->Mapping_0));
                    }
                    let key = pairs[i].0.clone();
                    let value = pairs[i].1.clone();
                    copies.push((key, value));
                    i += 1;
                }
                let copy = Value::Mapping(copies);
                proof {
                    assert(copy@->Mapping_0 =~= self@->Mapping_0);
                }
                copy
            },
            Value::Ext(tag, bytes) => Value::Ext(*tag, clone_bytes(bytes)),
        }
    }
}

} // verus!
