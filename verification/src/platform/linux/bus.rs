//! Reading D-Bus messages and values.
//!
//! The contents of a message, a value or a dictionary are named; each function below that is not
//! checked hands one question to the `zbus` crate, and the rest is put together from the answers.

use vstd::prelude::*;
use zbus::message::{Body, Header};
use zbus::zvariant::{Dict, Structure, Value};
use zbus::Message;

use crate::number::Real64;

use super::variant::{Variant, VariantModel};

verus! {

/// [`zbus::Message`], read only through the functions of this module.
#[verifier::external_type_specification]
#[verifier::external_body]
pub struct ExMessage(zbus::Message);

/// [`zbus::message::Body`], read only through the functions of this module.
#[verifier::external_type_specification]
#[verifier::external_body]
pub struct ExBody(zbus::message::Body);

/// [`zbus::message::Header`], read only through the functions of this module.
#[verifier::external_type_specification]
#[verifier::external_body]
pub struct ExHeader<'m>(zbus::message::Header<'m>);

/// [`zbus::zvariant::Value`], read only through the functions of this module.
#[verifier::external_type_specification]
#[verifier::external_body]
pub struct ExValue<'a>(zbus::zvariant::Value<'a>);

/// [`zbus::zvariant::Dict`], read only through the functions of this module.
#[verifier::external_type_specification]
#[verifier::external_body]
pub struct ExDict<'k, 'v>(zbus::zvariant::Dict<'k, 'v>);

/// [`zbus::zvariant::Structure`], read only through the functions of this module.
#[verifier::external_type_specification]
#[verifier::external_body]
pub struct ExStructure<'a>(zbus::zvariant::Structure<'a>);

/// What a [`Value`] holds.
pub uninterp spec fn value_content(value: &Value<'_>) -> VariantModel;

/// The entries of a [`Dict`], in the order of their keys.
pub uninterp spec fn dict_content(dict: &Dict<'_, '_>) -> Seq<(VariantModel, VariantModel)>;

/// The fields of a [`Structure`].
pub uninterp spec fn structure_content(structure: &Structure<'_>) -> Seq<VariantModel>;

/// The header of a message, or why it cannot be read.
pub uninterp spec fn header_of(msg: &Message) -> Result<Header<'_>, zbus::Error>;

/// The unique bus name in a header, if it has one.
pub uninterp spec fn sender_in(header: &Header<'_>) -> Option<Seq<char>>;

/// The body of a message.
pub uninterp spec fn body_of(msg: &Message) -> Body;

/// The fields of the structure that a body holds under the signature in a header, or why it cannot
/// be read as one.
pub uninterp spec fn fields_in(body: &Body, header: &Header<'_>) -> Result<
    Seq<VariantModel>,
    zbus::Error,
>;

/// The three texts that a body holds under the signature in a header, or why it cannot be read as
/// three texts.
pub uninterp spec fn texts_in(body: &Body, header: &Header<'_>) -> Result<
    (Seq<char>, Seq<char>, Seq<char>),
    zbus::Error,
>;

/// The number that a body holds under the signature in a header, or why it cannot be read as one.
pub uninterp spec fn number_in(body: &Body, header: &Header<'_>) -> Result<i64, zbus::Error>;

/// The name of the error that a method call was answered with, if an error is one.
pub uninterp spec fn error_name_of(error: &zbus::Error) -> Option<Seq<char>>;

/// The unique bus name of a message's sender, if it has one, or why its header cannot be read.
pub open spec fn sender_of(msg: &Message) -> Result<Option<Seq<char>>, zbus::Error> {
    match header_of(msg) {
        Ok(header) => Ok(sender_in(&header)),
        Err(e) => Err(e),
    }
}

/// The fields of the structure that a message tells, or why it cannot be read so.
pub open spec fn fields_told(msg: &Message) -> Result<Seq<VariantModel>, zbus::Error> {
    match header_of(msg) {
        Ok(header) => fields_in(&body_of(msg), &header),
        Err(e) => Err(e),
    }
}

/// The three texts that a message tells, or why it cannot be read so.
pub open spec fn texts_told(msg: &Message) -> Result<
    (Seq<char>, Seq<char>, Seq<char>),
    zbus::Error,
> {
    match header_of(msg) {
        Ok(header) => texts_in(&body_of(msg), &header),
        Err(e) => Err(e),
    }
}

/// The number that a message tells, or why it cannot be read so.
pub open spec fn number_told(msg: &Message) -> Result<i64, zbus::Error> {
    match header_of(msg) {
        Ok(header) => number_in(&body_of(msg), &header),
        Err(e) => Err(e),
    }
}

/// What some values hold.
pub open spec fn contents(values: Seq<Value<'_>>) -> Seq<VariantModel> {
    Seq::new(values.len(), |i: int| value_content(&values[i]))
}

/// What some pairs of values hold.
pub open spec fn pair_contents(pairs: Seq<(&Value<'_>, &Value<'_>)>) -> Seq<
    (VariantModel, VariantModel),
> {
    Seq::new(pairs.len(), |i: int| (value_content(pairs[i].0), value_content(pairs[i].1)))
}

/// A [`Value`], with the values that it is made of left as they are.
pub enum Shape<'a, 'v> {
    I32(i32),
    I64(i64),
    U64(u64),
    F64(Real64),
    Str(String),
    Boxed(&'a Value<'v>),
    Array(&'a [Value<'v>]),
    Dict(&'a Dict<'v, 'v>),
    /// A value of any other type.
    Other,
}

impl Shape<'_, '_> {
    /// What a value of this shape holds.
    pub open spec fn content(self) -> VariantModel {
        match self {
            Shape::I32(n) => VariantModel::I32(n),
            Shape::I64(n) => VariantModel::I64(n),
            Shape::U64(n) => VariantModel::U64(n),
            Shape::F64(x) => VariantModel::F64(x),
            Shape::Str(s) => VariantModel::Str(s@),
            Shape::Boxed(v) => VariantModel::Boxed(Box::new(value_content(v))),
            Shape::Array(items) => VariantModel::Array(contents(items@)),
            Shape::Dict(dict) => VariantModel::Dict(dict_content(dict)),
            Shape::Other => VariantModel::Other,
        }
    }
}

/// Tells the variants of [`Value`] apart: a value holds its number or its text (`Str` as text, a
/// double by its bits), the value that it wraps, the items of its array (`Array::inner`) or its
/// dictionary. Those that no player is told by are [`Shape::Other`], whatever they hold.
#[verifier::external_body]
fn shape_of<'a, 'v>(value: &'a Value<'v>) -> (r: Shape<'a, 'v>)
    ensures
        r.content() == value_content(value),
{
    match value {
        Value::I32(n) => Shape::I32(*n),
        Value::I64(n) => Shape::I64(*n),
        Value::U64(n) => Shape::U64(*n),
        Value::F64(x) => Shape::F64(Real64 { bits: x.to_bits() }),
        Value::Str(s) => Shape::Str(s.to_string()),
        Value::Value(v) => Shape::Boxed(v),
        Value::Array(a) => Shape::Array(a.inner()),
        Value::Dict(d) => Shape::Dict(d),
        _ => Shape::Other,
    }
}

/// `Dict::iter` hands out the entries of a dictionary in the order of their keys.
#[verifier::external_body]
fn entries_of<'a, 'v>(dict: &'a Dict<'v, 'v>) -> (r: Vec<(&'a Value<'v>, &'a Value<'v>)>)
    ensures
        pair_contents(r@) == dict_content(dict),
{
    dict.iter().collect()
}

/// `Structure::fields` gives the fields of a structure.
#[verifier::external_body]
fn fields_of<'a, 'v>(structure: &'a Structure<'v>) -> (r: &'a [Value<'v>])
    ensures
        contents(r@) == structure_content(structure),
{
    structure.fields()
}

/// `Data::deserialize` reads the header at the start of the bytes that `Message::data` gives, or
/// tells why they hold none. `Message::header` would panic on one with an invalid name in it.
#[verifier::external_body]
fn header_in<'a>(msg: &'a Message) -> (r: Result<Header<'a>, zbus::Error>)
    ensures
        r == header_of(msg),
{
    let (header, _) = msg.data().deserialize()?;
    Ok(header)
}

/// `Header::sender` gives the unique name that the sender has on the bus, as its text.
#[verifier::external_body]
fn header_sender(header: &Header<'_>) -> (r: Option<String>)
    ensures
        r.deep_view() == sender_in(header),
{
    header.sender().map(|name| name.to_string())
}

/// `Message::body` gives the body of a message.
#[verifier::external_body]
fn message_body(msg: &Message) -> (r: Body)
    ensures
        r == body_of(msg),
{
    msg.body()
}

/// `Data::deserialize_for_dynamic_signature` reads the bytes that `Body::data` gives as a
/// structure, under the signature that `Header::signature` gives, or tells why they hold none.
#[verifier::external_body]
fn body_structure<'a>(body: &'a Body, header: &Header<'_>) -> (r: Result<
    Structure<'a>,
    zbus::Error,
>)
    ensures
        match r {
            Ok(structure) => fields_in(body, header) == Ok::<_, zbus::Error>(
                structure_content(&structure),
            ),
            Err(e) => fields_in(body, header) == Err::<Seq<VariantModel>, _>(e),
        },
{
    let (structure, _) = body.data().deserialize_for_dynamic_signature(header.signature())?;
    Ok(structure)
}

/// `Data::deserialize_for_dynamic_signature` reads the bytes that `Body::data` gives as three
/// texts, under the signature that `Header::signature` gives, or tells why they hold none.
#[verifier::external_body]
fn body_texts(body: &Body, header: &Header<'_>) -> (r: Result<
    (String, String, String),
    zbus::Error,
>)
    ensures
        match r {
            Ok(texts) => texts_in(body, header) == Ok::<_, zbus::Error>(
                (texts.0@, texts.1@, texts.2@),
            ),
            Err(e) => texts_in(body, header) == Err::<(Seq<char>, Seq<char>, Seq<char>), _>(e),
        },
{
    let (texts, _) = body.data().deserialize_for_dynamic_signature(header.signature())?;
    Ok(texts)
}

/// `Data::deserialize_for_dynamic_signature` reads the bytes that `Body::data` gives as a signed
/// number of eight bytes, under the signature that `Header::signature` gives, or tells why they
/// hold none.
#[verifier::external_body]
fn body_number(body: &Body, header: &Header<'_>) -> (r: Result<i64, zbus::Error>)
    ensures
        r == number_in(body, header),
{
    let (number, _) = body.data().deserialize_for_dynamic_signature(header.signature())?;
    Ok(number)
}

/// Tells a `zbus::Error` that carries an error reply from the others, and gives the name in the
/// reply.
#[verifier::external_body]
pub(crate) fn read_error_name(error: &zbus::Error) -> (r: Option<String>)
    ensures
        r.deep_view() == error_name_of(error),
{
    match error {
        zbus::Error::MethodError(name, _, _) => Some(name.to_string()),
        _ => None,
    }
}

/// Reads a value with all that it is made of.
pub fn read_value(value: &Value<'_>) -> (r: Variant)
    ensures
        r.model() == value_content(value),
    decreases value_content(value),
{
    match shape_of(value) {
        Shape::I32(n) => Variant::I32(n),
        Shape::I64(n) => Variant::I64(n),
        Shape::U64(n) => Variant::U64(n),
        Shape::F64(x) => Variant::F64(x),
        Shape::Str(s) => Variant::Str(s),
        Shape::Boxed(v) => {
            assert(decreases_to!(value_content(value) => value_content(value)->Boxed_0));
            Variant::Boxed(Box::new(read_value(v)))
        },
        Shape::Array(items) => {
            assert(decreases_to!(value_content(value) => value_content(value)->Array_0));
            let read = read_values(items);
            let r = Variant::Array(read);
            assert(r.model()->Array_0 =~= read.deep_view());
            r
        },
        Shape::Dict(dict) => {
            assert(decreases_to!(value_content(value) => value_content(value)->Dict_0));
            let read = read_entries(dict);
            let r = Variant::Dict(read);
            assert(r.model()->Dict_0 =~= read.deep_view());
            r
        },
        Shape::Other => Variant::Other,
    }
}

/// Reads some values, each with all that it is made of.
pub fn read_values(values: &[Value<'_>]) -> (r: Vec<Variant>)
    ensures
        r.deep_view() == contents(values@),
    decreases contents(values@),
{
    let mut read: Vec<Variant> = Vec::new();
    let mut i: usize = 0;
    while i < values.len()
        invariant
            i <= values.len(),
            read.deep_view() == contents(values@).take(i as int),
        decreases values.len() - i,
    {
        let ghost before = read.deep_view();
        assert(contents(values@)[i as int] == value_content(&values@[i as int]));
        let item = read_value(&values[i]);
        read.push(item);
        assert(read.deep_view() =~= before.push(item.model()));
        assert(contents(values@).take(i + 1) =~= before.push(item.model()));
        i += 1;
    }
    assert(contents(values@).take(i as int) =~= contents(values@));
    read
}

/// Reads the entries of a dictionary, each with all that it is made of.
pub fn read_entries(dict: &Dict<'_, '_>) -> (r: Vec<(Variant, Variant)>)
    ensures
        r.deep_view() == dict_content(dict),
    decreases dict_content(dict),
{
    let pairs = entries_of(dict);
    let mut read: Vec<(Variant, Variant)> = Vec::new();
    let mut i: usize = 0;
    while i < pairs.len()
        invariant
            i <= pairs.len(),
            pair_contents(pairs@) == dict_content(dict),
            read.deep_view() == dict_content(dict).take(i as int),
        decreases pairs.len() - i,
    {
        let ghost before = read.deep_view();
        let ghost entry = dict_content(dict)[i as int];
        assert(entry == (value_content(pairs@[i as int].0), value_content(pairs@[i as int].1)));
        assert(decreases_to!(dict_content(dict) => dict_content(dict)[i as int]));
        assert(decreases_to!(entry => entry.0));
        assert(decreases_to!(entry => entry.1));
        let key = read_value(pairs[i].0);
        let value = read_value(pairs[i].1);
        read.push((key, value));
        assert(read.deep_view() =~= before.push(entry));
        assert(dict_content(dict).take(i + 1) =~= before.push(entry));
        i += 1;
    }
    assert(dict_content(dict).take(i as int) =~= dict_content(dict));
    read
}

/// Reads the unique bus name of a message's sender.
pub fn read_sender(msg: &Message) -> (r: Result<Option<String>, zbus::Error>)
    ensures
        match r {
            Ok(sender) => sender_of(msg) == Ok::<_, zbus::Error>(sender.deep_view()),
            Err(e) => sender_of(msg) == Err::<Option<Seq<char>>, _>(e),
        },
{
    match header_in(msg) {
        Ok(header) => Ok(header_sender(&header)),
        Err(e) => Err(e),
    }
}

/// Reads the fields of the structure that a message tells.
pub fn read_fields(msg: &Message) -> (r: Result<Vec<Variant>, zbus::Error>)
    ensures
        match r {
            Ok(fields) => fields_told(msg) == Ok::<_, zbus::Error>(fields.deep_view()),
            Err(e) => fields_told(msg) == Err::<Seq<VariantModel>, _>(e),
        },
{
    match header_in(msg) {
        Ok(header) => {
            let body = message_body(msg);
            match body_structure(&body, &header) {
                Ok(structure) => Ok(read_values(fields_of(&structure))),
                Err(e) => Err(e),
            }
        },
        Err(e) => Err(e),
    }
}

/// Reads the three texts that a message tells.
pub fn read_texts(msg: &Message) -> (r: Result<(String, String, String), zbus::Error>)
    ensures
        match r {
            Ok(texts) => texts_told(msg) == Ok::<_, zbus::Error>((texts.0@, texts.1@, texts.2@)),
            Err(e) => texts_told(msg) == Err::<(Seq<char>, Seq<char>, Seq<char>), _>(e),
        },
{
    match header_in(msg) {
        Ok(header) => body_texts(&message_body(msg), &header),
        Err(e) => Err(e),
    }
}

/// Reads the number that a message tells.
pub fn read_number(msg: &Message) -> (r: Result<i64, zbus::Error>)
    ensures
        r == number_told(msg),
{
    match header_in(msg) {
        Ok(header) => body_number(&message_body(msg), &header),
        Err(e) => Err(e),
    }
}

/// A message is read under its header: the sender that it names, and what the body holds by it. A
/// header that cannot be read is why none of them can.
pub proof fn messages_are_read_under_their_header(msg: &Message)
    ensures
        header_of(msg) matches Err(e) ==> {
            &&& sender_of(msg) == Err::<Option<Seq<char>>, _>(e)
            &&& fields_told(msg) == Err::<Seq<VariantModel>, _>(e)
            &&& texts_told(msg) == Err::<(Seq<char>, Seq<char>, Seq<char>), _>(e)
            &&& number_told(msg) == Err::<i64, _>(e)
        },
        header_of(msg) matches Ok(header) ==> {
            &&& sender_of(msg) == Ok::<_, zbus::Error>(sender_in(&header))
            &&& fields_told(msg) == fields_in(&body_of(msg), &header)
            &&& texts_told(msg) == texts_in(&body_of(msg), &header)
            &&& number_told(msg) == number_in(&body_of(msg), &header)
        },
{
}

} // verus!
