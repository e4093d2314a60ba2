//! Reading typed values out of a JSON document.
//!
//! A type that implements [`Decode`] says which documents it accepts and
//! which value each accepted document stands for. The helpers below apply
//! that to the members of a JSON object: required ones, optional ones, and
//! ones that fall back to a default when they are missing.

use crate::decimal::is_float_text;
use crate::decimal::Decimal;
use crate::json::JsonValue;
use vstd::prelude::*;

verus! {

/// A value that can be read from a JSON document.
pub trait Decode: Sized {
    /// Whether `document` stands for a value of this type.
    spec fn accepts(document: JsonValue) -> bool;

    /// Whether `self` is the value that `document` stands for.
    spec fn reflects(self, document: JsonValue) -> bool;

    /// Reads the value that `document` stands for, if it stands for one.
    fn decode(document: &JsonValue) -> (value: Option<Self>)
        ensures
            value is Some <==> Self::accepts(*document),
            value is Some ==> value->0.reflects(*document),
    ;
}

impl Decode for u64 {
    /// A non-negative integer that fits.
    open spec fn accepts(document: JsonValue) -> bool {
        document matches JsonValue::Number(n) && n.unsigned is Some
    }

    open spec fn reflects(self, document: JsonValue) -> bool {
        document matches JsonValue::Number(n) && n.unsigned == Some(self)
    }

    fn decode(document: &JsonValue) -> (value: Option<Self>) {
        match document {
            JsonValue::Number(n) => n.unsigned,
            _ => None,
        }
    }
}

impl Decode for i64 {
    /// An integer that fits.
    open spec fn accepts(document: JsonValue) -> bool {
        document matches JsonValue::Number(n) && n.signed is Some
    }

    open spec fn reflects(self, document: JsonValue) -> bool {
        document matches JsonValue::Number(n) && n.signed == Some(self)
    }

    fn decode(document: &JsonValue) -> (value: Option<Self>) {
        match document {
            JsonValue::Number(n) => n.signed,
            _ => None,
        }
    }
}

impl Decode for i32 {
    /// An integer that fits.
    open spec fn accepts(document: JsonValue) -> bool {
        document matches JsonValue::Number(n) && n.signed matches Some(i) && i32::MIN <= i
            <= i32::MAX
    }

    open spec fn reflects(self, document: JsonValue) -> bool {
        document matches JsonValue::Number(n) && n.signed matches Some(i) && i == self
    }

    fn decode(document: &JsonValue) -> (value: Option<Self>) {
        match document {
            JsonValue::Number(n) => match n.signed {
                Some(i) => if -2147483648 <= i && i <= 2147483647 {
                    Some(i as i32)
                } else {
                    None
                },
                None => None,
            },
            _ => None,
        }
    }
}

impl Decode for bool {
    /// `true` or `false`.
    open spec fn accepts(document: JsonValue) -> bool {
        document is Bool
    }

    open spec fn reflects(self, document: JsonValue) -> bool {
        document == JsonValue::Bool(self)
    }

    fn decode(document: &JsonValue) -> (value: Option<Self>) {
        match document {
            JsonValue::Bool(b) => Some(*b),
            _ => None,
        }
    }
}

impl Decode for String {
    /// A JSON string.
    open spec fn accepts(document: JsonValue) -> bool {
        document is String
    }

    open spec fn reflects(self, document: JsonValue) -> bool {
        document matches JsonValue::String(s) && s@ == self@
    }

    fn decode(document: &JsonValue) -> (value: Option<Self>) {
        match document {
            JsonValue::String(s) => Some(s.clone()),
            _ => None,
        }
    }
}

impl Decode for Decimal {
    /// A JSON string that holds a floating-point literal.
    open spec fn accepts(document: JsonValue) -> bool {
        document matches JsonValue::String(s) && is_float_text(s@)
    }

    open spec fn reflects(self, document: JsonValue) -> bool {
        document matches JsonValue::String(s) && s@ == self@
    }

    fn decode(document: &JsonValue) -> (value: Option<Self>) {
        match document {
            JsonValue::String(s) => Decimal::parse(s.as_str()),
            _ => None,
        }
    }
}

/// Whether every one of `items` stands for a `T`.
pub open spec fn all_accepted<T: Decode>(items: Seq<JsonValue>) -> bool {
    forall|i: int| 0 <= i < items.len() ==> T::accepts(#[trigger] items[i])
}

/// Whether `values` are what `items` stand for, one for one and in order.
pub open spec fn all_reflected<T: Decode>(values: Seq<T>, items: Seq<JsonValue>) -> bool {
    &&& values.len() == items.len()
    &&& forall|i: int| 0 <= i < items.len() ==> (#[trigger] values[i]).reflects(items[i])
}

/// Reads every one of `items`, in order. One item that stands for no `T`
/// fails the whole.
pub fn decode_all<T: Decode>(items: &Vec<JsonValue>) -> (values: Option<Vec<T>>)
    ensures
        values is Some <==> all_accepted::<T>(items@),
        values is Some ==> all_reflected::<T>(values->0@, items@),
{
    let mut values: Vec<T> = Vec::new();
    let mut i: usize = 0;
    while i < items.len()
        invariant
            i <= items.len(),
            values@.len() == i,
            forall|j: int| 0 <= j < i ==> T::accepts(#[trigger] items@[j]),
            forall|j: int| 0 <= j < i ==> (#[trigger] values@[j]).reflects(items@[j]),
        decreases items.len() - i,
    {
        match T::decode(&items[i]) {
            Some(value) => {
                values.push(value);
            },
            None => {
                return None;
            },
        }
        i += 1;
    }
    Some(values)
}

impl<T: Decode> Decode for Vec<T> {
    /// An array whose items each stand for a `T`.
    open spec fn accepts(document: JsonValue) -> bool {
        document matches JsonValue::Array(items) && all_accepted::<T>(items@)
    }

    open spec fn reflects(self, document: JsonValue) -> bool {
        document matches JsonValue::Array(items) && all_reflected::<T>(self@, items@)
    }

    fn decode(document: &JsonValue) -> (value: Option<Self>) {
        match document {
            JsonValue::Array(items) => decode_all(items),
            _ => None,
        }
    }
}

/// Whether `document` has a member `key` that stands for a `T`.
pub open spec fn has<T: Decode>(document: JsonValue, key: Seq<char>) -> bool {
    document.member(key) matches Some(member) && T::accepts(member)
}

/// Whether `value` is what the member `key` of `document` stands for.
pub open spec fn holds<T: Decode>(value: T, document: JsonValue, key: Seq<char>) -> bool {
    document.member(key) matches Some(member) && value.reflects(member)
}

/// Reads the member `key`, which must be there.
pub fn required<T: Decode>(document: &JsonValue, key: &str) -> (value: Option<T>)
    ensures
        value is Some <==> has::<T>(*document, key@),
        value is Some ==> holds(value->0, *document, key@),
{
    match document.get(key) {
        Some(member) => T::decode(member),
        None => None,
    }
}

/// Whether the member `key` of `document` is missing, `null`, or stands for
/// a `T`.
pub open spec fn may_have<T: Decode>(document: JsonValue, key: Seq<char>) -> bool {
    document.absent_at(key) || has::<T>(document, key)
}

/// Whether `value` is what the optional member `key` of `document` stands
/// for: nothing where it is missing or `null`.
pub open spec fn holds_optional<T: Decode>(
    value: Option<T>,
    document: JsonValue,
    key: Seq<char>,
) -> bool {
    if document.absent_at(key) {
        value is None
    } else {
        value matches Some(inner) && holds(inner, document, key)
    }
}

/// Reads the member `key`, which may be missing or `null`.
pub fn optional<T: Decode>(document: &JsonValue, key: &str) -> (value: Option<Option<T>>)
    ensures
        value is Some <==> may_have::<T>(*document, key@),
        value is Some ==> holds_optional(value->0, *document, key@),
{
    if document.is_absent(key) {
        Some(None)
    } else {
        match required::<T>(document, key) {
            Some(inner) => Some(Some(inner)),
            None => None,
        }
    }
}

/// Whether the member `key` of `document` is missing or stands for a `T`.
pub open spec fn has_or_lacks<T: Decode>(document: JsonValue, key: Seq<char>) -> bool {
    document.lacks(key) || has::<T>(document, key)
}

/// Whether `text` is what the member `key` of `document` holds, or empty
/// where the member is missing.
pub open spec fn holds_text_or_empty(text: String, document: JsonValue, key: Seq<char>) -> bool {
    if document.lacks(key) {
        text@ == Seq::<char>::empty()
    } else {
        holds(text, document, key)
    }
}

/// Reads the text member `key`; a missing one reads as the empty text.
pub fn text_or_empty(document: &JsonValue, key: &str) -> (text: Option<String>)
    ensures
        text is Some <==> has_or_lacks::<String>(*document, key@),
        text is Some ==> holds_text_or_empty(text->0, *document, key@),
{
    if document.is_missing(key) {
        Some(String::new())
    } else {
        required::<String>(document, key)
    }
}

/// Whether `flag` is what the member `key` of `document` holds, or `false`
/// where the member is missing.
pub open spec fn holds_flag_or_false(flag: bool, document: JsonValue, key: Seq<char>) -> bool {
    if document.lacks(key) {
        !flag
    } else {
        holds(flag, document, key)
    }
}

/// Reads the flag `key`; a missing one reads as `false`.
pub fn flag_or_false(document: &JsonValue, key: &str) -> (flag: Option<bool>)
    ensures
        flag is Some <==> has_or_lacks::<bool>(*document, key@),
        flag is Some ==> holds_flag_or_false(flag->0, *document, key@),
{
    if document.is_missing(key) {
        Some(false)
    } else {
        required::<bool>(document, key)
    }
}

/// Whether `decimal` is what the member `key` of `document` holds, or `0`
/// where the member is missing.
pub open spec fn holds_decimal_or_zero(
    decimal: Decimal,
    document: JsonValue,
    key: Seq<char>,
) -> bool {
    if document.lacks(key) {
        decimal@ == seq!['0']
    } else {
        holds(decimal, document, key)
    }
}

/// Reads the decimal `key`; a missing one reads as `0`.
pub fn decimal_or_zero(document: &JsonValue, key: &str) -> (decimal: Option<Decimal>)
    ensures
        decimal is Some <==> has_or_lacks::<Decimal>(*document, key@),
        decimal is Some ==> holds_decimal_or_zero(decimal->0, *document, key@),
{
    if document.is_missing(key) {
        Some(Decimal::zero())
    } else {
        required::<Decimal>(document, key)
    }
}

} // verus!
