//! The building blocks that every message codec is made of.
//!
//! A message is decoded by a row of checks on the positions of a sequence, made
//! in order: the first check that fails gives the error. The `check_` functions
//! state each check, and the functions with `_at` in their name state what a
//! position holds once its check has passed.

use vstd::prelude::*;
use crate::error::{Error, ErrorView, Field};
use crate::value::{clone_sequence, Json, JsonView, NumberView};
use super::error::WampErrorEvent;
use super::{Messages, MessagesView};

verus! {

/// The value of an unsigned integer.
pub open spec fn unsigned(n: u64) -> JsonView {
    JsonView::Number(NumberView::PosInt(n))
}

/// The empty array, which stands for absent positional arguments where
/// keyword arguments follow.
pub open spec fn no_args() -> JsonView {
    JsonView::Array(Seq::empty())
}

/// The elements that close a message with optional arguments: nothing where
/// both are null, the positional arguments alone where the keyword arguments
/// are null, and both otherwise, with the empty array for null positional
/// arguments.
pub open spec fn trailing(args: JsonView, kwargs: JsonView) -> Seq<JsonView> {
    if kwargs is Null {
        if args is Null {
            Seq::empty()
        } else {
            seq![args]
        }
    } else {
        if args is Null {
            seq![no_args(), kwargs]
        } else {
            seq![args, kwargs]
        }
    }
}

/// The sequence starts with the tag `id`.
pub open spec fn check_id(s: Seq<JsonView>, id: u64) -> Option<ErrorView> {
    if s.len() == 0 {
        Some(ErrorView::MissingField(Field::MessageId))
    } else {
        match s[0].as_u64() {
            None => Some(ErrorView::InvalidField(Field::MessageId)),
            Some(actual) => if actual == id {
                None
            } else {
                Some(ErrorView::InvalidId { expected: id, actual })
            },
        }
    }
}

/// Position `i` holds an unsigned integer.
pub open spec fn check_unsigned(s: Seq<JsonView>, i: int, field: Field) -> Option<ErrorView> {
    if i >= s.len() {
        Some(ErrorView::MissingField(field))
    } else if s[i].as_u64() is None {
        Some(ErrorView::InvalidField(field))
    } else {
        None
    }
}

/// Position `i` holds a string.
pub open spec fn check_string(s: Seq<JsonView>, i: int, field: Field) -> Option<ErrorView> {
    if i >= s.len() {
        Some(ErrorView::MissingField(field))
    } else if s[i].as_str() is None {
        Some(ErrorView::InvalidField(field))
    } else {
        None
    }
}

/// Position `i` holds an object.
pub open spec fn check_object(s: Seq<JsonView>, i: int, field: Field) -> Option<ErrorView> {
    if i >= s.len() {
        Some(ErrorView::MissingField(field))
    } else if !s[i].is_object() {
        Some(ErrorView::InvalidField(field))
    } else {
        None
    }
}

/// Position `i` is absent or holds an array or null.
pub open spec fn check_args(s: Seq<JsonView>, i: int) -> Option<ErrorView> {
    if i < s.len() && !s[i].is_args() {
        Some(ErrorView::InvalidField(Field::Args))
    } else {
        None
    }
}

/// Position `i` is absent or holds an object or null.
pub open spec fn check_kwargs(s: Seq<JsonView>, i: int) -> Option<ErrorView> {
    if i < s.len() && !s[i].is_kwargs() {
        Some(ErrorView::InvalidField(Field::Kwargs))
    } else {
        None
    }
}

/// Position `i` holds the tag of one of the eight message types that carry a
/// request. Any other tag fails with the whole sequence, kept as an extension.
pub open spec fn check_event(s: Seq<JsonView>, i: int) -> Option<ErrorView> {
    if i >= s.len() {
        Some(ErrorView::MissingField(Field::Event))
    } else {
        match s[i].as_u64() {
            None => Some(ErrorView::InvalidField(Field::Event)),
            Some(id) => if WampErrorEvent::spec_from_id(id) is None {
                Some(ErrorView::NoSuchWampErrorType(MessagesView::Extension(s)))
            } else {
                None
            },
        }
    }
}

/// The sequence has at most `n` elements.
pub open spec fn check_end(s: Seq<JsonView>, n: int) -> Option<ErrorView> {
    if s.len() > n {
        Some(ErrorView::TrailingElements)
    } else {
        None
    }
}

/// The unsigned integer at position `i`.
pub open spec fn unsigned_at(s: Seq<JsonView>, i: int) -> u64 {
    s[i].as_u64().unwrap()
}

/// The string at position `i`.
pub open spec fn string_at(s: Seq<JsonView>, i: int) -> Seq<char> {
    s[i].as_str().unwrap()
}

/// The kind of request that position `i` names, once its check has passed.
pub open spec fn event_at(s: Seq<JsonView>, i: int) -> WampErrorEvent {
    WampErrorEvent::spec_from_id(unsigned_at(s, i)).unwrap()
}

/// The value at position `i`, null where the sequence ends before it.
pub open spec fn value_at(s: Seq<JsonView>, i: int) -> JsonView {
    if i < s.len() {
        s[i]
    } else {
        JsonView::Null
    }
}

/// The element at `index`, which has to be there.
pub fn deser_seq_element(components: &Vec<Json>, index: usize, field: Field) -> (r: Result<
    &Json,
    Error,
>)
    ensures
        match r {
            Ok(element) => index < components.len() && *element == components[index as int],
            Err(e) => index >= components.len() && e@ == ErrorView::MissingField(field),
        },
{
    if index < components.len() {
        Ok(&components[index])
    } else {
        Err(Error::MissingField(field))
    }
}

/// Holds the leading tag of a sequence against the tag of a message type.
pub fn validate_id(components: &Vec<Json>, id: u64) -> (r: Result<(), Error>)
    ensures
        match r {
            Ok(_) => check_id(components.deep_view(), id) is None,
            Err(e) => check_id(components.deep_view(), id) == Some(e@),
        },
{
    let element = deser_seq_element(components, 0, Field::MessageId)?;
    match element.as_u64() {
        None => Err(Error::InvalidField(Field::MessageId)),
        Some(actual) => if actual == id {
            Ok(())
        } else {
            Err(Error::InvalidId { expected: id, actual })
        },
    }
}

/// Reads the unsigned integer at `index`.
pub fn deser_u64_element(components: &Vec<Json>, index: usize, field: Field) -> (r: Result<
    u64,
    Error,
>)
    ensures
        match r {
            Ok(n) => check_unsigned(components.deep_view(), index as int, field) is None && n
                == unsigned_at(components.deep_view(), index as int),
            Err(e) => check_unsigned(components.deep_view(), index as int, field) == Some(e@),
        },
{
    let element = deser_seq_element(components, index, field)?;
    match element.as_u64() {
        None => Err(Error::InvalidField(field)),
        Some(n) => Ok(n),
    }
}

/// Reads the string at `index`.
pub fn deser_string_element(components: &Vec<Json>, index: usize, field: Field) -> (r: Result<
    String,
    Error,
>)
    ensures
        match r {
            Ok(text) => check_string(components.deep_view(), index as int, field) is None && text@
                == string_at(components.deep_view(), index as int),
            Err(e) => check_string(components.deep_view(), index as int, field) == Some(e@),
        },
{
    let element = deser_seq_element(components, index, field)?;
    match element.as_str() {
        None => Err(Error::InvalidField(field)),
        Some(text) => Ok(text.to_owned()),
    }
}

/// Accepts a value that is an object.
pub fn deser_value_is_object(value: &Json, field: Field) -> (r: Result<(), Error>)
    ensures
        match r {
            Ok(_) => value@.is_object(),
            Err(e) => !value@.is_object() && e@ == ErrorView::InvalidField(field),
        },
{
    if value.is_object() {
        Ok(())
    } else {
        Err(Error::InvalidField(field))
    }
}

/// Reads the object at `index`.
pub fn deser_object_element(components: &Vec<Json>, index: usize, field: Field) -> (r: Result<
    Json,
    Error,
>)
    ensures
        match r {
            Ok(value) => check_object(components.deep_view(), index as int, field) is None
                && value@ == components.deep_view()[index as int],
            Err(e) => check_object(components.deep_view(), index as int, field) == Some(e@),
        },
{
    let element = deser_seq_element(components, index, field)?;
    deser_value_is_object(element, field)?;
    Ok(element.clone())
}

/// Reads the element at `index`, null where the sequence ends before it.
pub fn deser_args_kwargs_element(components: &Vec<Json>, index: usize) -> (r: Json)
    ensures
        r@ == value_at(components.deep_view(), index as int),
{
    if index < components.len() {
        components[index].clone()
    } else {
        Json::Null
    }
}

/// Reads the positional arguments at `index`.
pub fn deser_args_element(components: &Vec<Json>, index: usize) -> (r: Result<Json, Error>)
    ensures
        match r {
            Ok(value) => check_args(components.deep_view(), index as int) is None && value@
                == value_at(components.deep_view(), index as int),
            Err(e) => check_args(components.deep_view(), index as int) == Some(e@),
        },
{
    let value = deser_args_kwargs_element(components, index);
    if value.is_array() || value.is_null() {
        Ok(value)
    } else {
        Err(Error::InvalidField(Field::Args))
    }
}

/// Reads the keyword arguments at `index`.
pub fn deser_kwargs_element(components: &Vec<Json>, index: usize) -> (r: Result<Json, Error>)
    ensures
        match r {
            Ok(value) => check_kwargs(components.deep_view(), index as int) is None && value@
                == value_at(components.deep_view(), index as int),
            Err(e) => check_kwargs(components.deep_view(), index as int) == Some(e@),
        },
{
    let value = deser_args_kwargs_element(components, index);
    if value.is_object() || value.is_null() {
        Ok(value)
    } else {
        Err(Error::InvalidField(Field::Kwargs))
    }
}

/// Reads the kind of request at `index`. A tag that names no kind of request
/// fails with the whole sequence, kept as an extension message.
pub fn deser_event_element(components: &Vec<Json>, index: usize) -> (r: Result<
    WampErrorEvent,
    Error,
>)
    ensures
        match r {
            Ok(event) => check_event(components.deep_view(), index as int) is None && event
                == event_at(components.deep_view(), index as int),
            Err(e) => check_event(components.deep_view(), index as int) == Some(e@),
        },
{
    let element = deser_seq_element(components, index, Field::Event)?;
    match element.as_u64() {
        None => Err(Error::InvalidField(Field::Event)),
        Some(id) => match WampErrorEvent::from_id(id) {
            Some(event) => Ok(event),
            None => {
                let raw = Messages::Extension(clone_sequence(components));
                Err(Error::NoSuchWampErrorType(raw))
            },
        },
    }
}

/// Accepts a sequence of at most `len` elements.
pub fn deser_end(components: &Vec<Json>, len: usize) -> (r: Result<(), Error>)
    ensures
        match r {
            Ok(_) => check_end(components.deep_view(), len as int) is None,
            Err(e) => check_end(components.deep_view(), len as int) == Some(e@),
        },
{
    if components.len() > len {
        Err(Error::TrailingElements)
    } else {
        Ok(())
    }
}

/// Accepts a value that is an object, for the field `field` of a message
/// that is about to be written.
pub fn ser_value_is_object(value: &Json, field: Field) -> (r: Result<(), Error>)
    ensures
        match r {
            Ok(_) => value@.is_object(),
            Err(e) => !value@.is_object() && e@ == ErrorView::InvalidField(field),
        },
{
    if value.is_object() {
        Ok(())
    } else {
        Err(Error::InvalidField(field))
    }
}

/// Accepts positional arguments: an array, or null.
pub fn ser_value_is_args(value: &Json) -> (r: Result<(), Error>)
    ensures
        match r {
            Ok(_) => value@.is_args(),
            Err(e) => !value@.is_args() && e@ == ErrorView::InvalidField(Field::Args),
        },
{
    if value.is_array() || value.is_null() {
        Ok(())
    } else {
        Err(Error::InvalidField(Field::Args))
    }
}

/// Accepts keyword arguments: an object, or null.
pub fn ser_value_is_kwargs(value: &Json) -> (r: Result<(), Error>)
    ensures
        match r {
            Ok(_) => value@.is_kwargs(),
            Err(e) => !value@.is_kwargs() && e@ == ErrorView::InvalidField(Field::Kwargs),
        },
{
    if value.is_object() || value.is_null() {
        Ok(())
    } else {
        Err(Error::InvalidField(Field::Kwargs))
    }
}

/// Closes a message with its optional arguments.
pub fn push_trailing(out: &mut Vec<Json>, args: &Json, kwargs: &Json)
    ensures
        final(out).deep_view() == old(out).deep_view() + trailing(args@, kwargs@),
{
    if args.is_null() {
        if kwargs.is_null() {
        } else {
            out.push(Json::empty_array());
            out.push(kwargs.clone());
        }
    } else {
        if kwargs.is_null() {
            out.push(args.clone());
        } else {
            out.push(args.clone());
            out.push(kwargs.clone());
        }
    }
    assert(out.deep_view() =~= old(out).deep_view() + trailing(args@, kwargs@));
}

} // verus!
