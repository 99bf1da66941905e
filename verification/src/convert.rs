use vstd::prelude::*;

use crate::fault::{FaultDetail, Field, Found};
use crate::value::{views, Value, ValueView};

verus! {

/// The integer at `index`, where it lies between `low` and `high`.
pub open spec fn int_at(fields: Seq<ValueView>, index: int, field: Field, low: int, high: int)
    -> Result<int, FaultDetail> {
    if !(0 <= index < fields.len()) {
        Err(FaultDetail { field, found: Found::Missing })
    } else {
        match fields[index] {
            ValueView::Int(n) => if low <= n <= high {
                Ok(n)
            } else {
                Err(FaultDetail { field, found: Found::OutOfRange })
            },
            other => Err(FaultDetail { field, found: Found::Kind(other.kind()) }),
        }
    }
}

/// The string at `index`.
pub open spec fn text_at(fields: Seq<ValueView>, index: int, field: Field) -> Result<
    Seq<char>,
    FaultDetail,
> {
    if !(0 <= index < fields.len()) {
        Err(FaultDetail { field, found: Found::Missing })
    } else {
        match fields[index] {
            ValueView::Str(text) => Ok(text),
            other => Err(FaultDetail { field, found: Found::Kind(other.kind()) }),
        }
    }
}

/// The string at `index`, or none where nil stands there. A position that the
/// sequence does not reach is a fault, and so is any other kind of value.
pub open spec fn optional_text_at(fields: Seq<ValueView>, index: int, field: Field) -> Result<
    Option<Seq<char>>,
    FaultDetail,
> {
    if !(0 <= index < fields.len()) {
        Err(FaultDetail { field, found: Found::Missing })
    } else {
        match fields[index] {
            ValueView::Str(text) => Ok(Some(text)),
            ValueView::Nil => Ok(None),
            other => Err(FaultDetail { field, found: Found::Kind(other.kind()) }),
        }
    }
}

/// The items of the array at `index`.
pub open spec fn items_at(fields: Seq<ValueView>, index: int, field: Field) -> Result<
    Seq<ValueView>,
    FaultDetail,
> {
    if !(0 <= index < fields.len()) {
        Err(FaultDetail { field, found: Found::Missing })
    } else {
        match fields[index] {
            ValueView::Array(items) => Ok(items),
            other => Err(FaultDetail { field, found: Found::Kind(other.kind()) }),
        }
    }
}

/// Reads the field at `index` as a signed integer.
pub fn expect_i64(fields: &[Value], index: usize, field: Field) -> (r: Result<i64, FaultDetail>)
    ensures
        int_at(views(fields@), index as int, field, i64::MIN as int, i64::MAX as int) == match r {
            Ok(n) => Ok(n as int),
            Err(d) => Err(d),
        },
{
    if index >= fields.len() {
        return Err(FaultDetail { field, found: Found::Missing });
    }
    match &fields[index] {
        Value::Int(n) => {
            if *n >= i64::MIN as i128 && *n <= i64::MAX as i128 {
                Ok(*n as i64)
            } else {
                Err(FaultDetail { field, found: Found::OutOfRange })
            }
        },
        other => Err(FaultDetail { field, found: Found::Kind(other.kind()) }),
    }
}

/// Reads the field at `index` as an integer that is not negative.
pub fn expect_u64(fields: &[Value], index: usize, field: Field) -> (r: Result<u64, FaultDetail>)
    ensures
        int_at(views(fields@), index as int, field, 0, u64::MAX as int) == match r {
            Ok(n) => Ok(n as int),
            Err(d) => Err(d),
        },
{
    if index >= fields.len() {
        return Err(FaultDetail { field, found: Found::Missing });
    }
    match &fields[index] {
        Value::Int(n) => {
            if *n >= 0 && *n <= u64::MAX as i128 {
                Ok(*n as u64)
            } else {
                Err(FaultDetail { field, found: Found::OutOfRange })
            }
        },
        other => Err(FaultDetail { field, found: Found::Kind(other.kind()) }),
    }
}

/// Reads the field at `index` as a string.
pub fn expect_text(fields: &[Value], index: usize, field: Field) -> (r: Result<
    String,
    FaultDetail,
>)
    ensures
        text_at(views(fields@), index as int, field) == match r {
            Ok(text) => Ok(text@),
            Err(d) => Err(d),
        },
{
    if index >= fields.len() {
        return Err(FaultDetail { field, found: Found::Missing });
    }
    match &fields[index] {
        Value::Str(text) => Ok(text.clone()),
        other => Err(FaultDetail { field, found: Found::Kind(other.kind()) }),
    }
}

/// Reads the field at `index` as a string that nil may stand in for.
pub fn expect_optional_text(fields: &[Value], index: usize, field: Field) -> (r: Result<
    Option<String>,
    FaultDetail,
>)
    ensures
        optional_text_at(views(fields@), index as int, field) == match r {
            Ok(Some(text)) => Ok(Some(text@)),
            Ok(None) => Ok(None),
            Err(d) => Err(d),
        },
{
    if index >= fields.len() {
        return Err(FaultDetail { field, found: Found::Missing });
    }
    match &fields[index] {
        Value::Str(text) => Ok(Some(text.clone())),
        Value::Nil => Ok(None),
        other => Err(FaultDetail { field, found: Found::Kind(other.kind()) }),
    }
}

/// Reads the field at `index` as an array, and lends its items.
pub fn expect_items(fields: &[Value], index: usize, field: Field) -> (r: Result<
    &Vec<Value>,
    FaultDetail,
>)
    ensures
        items_at(views(fields@), index as int, field) == match r {
            Ok(items) => Ok(views(items@)),
            Err(d) => Err(d),
        },
{
    if index >= fields.len() {
        return Err(FaultDetail { field, found: Found::Missing });
    }
    match &fields[index] {
        Value::Array(items) => {
            proof {
                crate::value::lemma_view_of_containers(fields@[index as int]);
            }
            Ok(items)
        },
        other => Err(FaultDetail { field, found: Found::Kind(other.kind()) }),
    }
}

} // verus!
