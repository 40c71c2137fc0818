//! Stored items.
//!
//! The table stores a record as an item: a list of named attributes. A
//! record is written as text attributes, with instants in RFC 3339 form; a
//! field that is not set has no attribute. Reading is strict: an attribute
//! of the wrong type or form is an error, not a default.

use vstd::prelude::*;
use vstd::string::*;
use crate::number::{decimal, format_u32, parse_u32, parsed_u32};
use crate::text::str_eq;
use crate::time::{format_rfc3339, parse_rfc3339, rfc3339_instant, rfc3339_text, Timestamp};

verus! {

/// The value of an attribute, as far as records use it.
#[derive(Debug, PartialEq, Eq)]
pub enum AttributeValue {
    /// A text.
    S(String),
    /// A number, in decimal digits.
    N(String),
    Bool(bool),
    Null,
    /// A value of a type that no record holds: binary data, a list, a map
    /// or a set.
    Other,
}

/// A named attribute of an item.
#[derive(Debug, PartialEq, Eq)]
pub struct Attribute {
    pub name: String,
    pub value: AttributeValue,
}

/// An attribute value as contracts see it: texts by their characters.
pub enum ValueView {
    S(Seq<char>),
    N(Seq<char>),
    Bool(bool),
    Null,
    Other,
}

/// An attribute as contracts see it.
pub struct AttributeView {
    pub name: Seq<char>,
    pub value: ValueView,
}

impl View for AttributeValue {
    type V = ValueView;

    open spec fn view(&self) -> ValueView {
        match self {
            AttributeValue::S(s) => ValueView::S(s@),
            AttributeValue::N(s) => ValueView::N(s@),
            AttributeValue::Bool(b) => ValueView::Bool(*b),
            AttributeValue::Null => ValueView::Null,
            AttributeValue::Other => ValueView::Other,
        }
    }
}

impl View for Attribute {
    type V = AttributeView;

    open spec fn view(&self) -> AttributeView {
        AttributeView { name: self.name@, value: self.value@ }
    }
}

/// An item as contracts see it.
pub open spec fn item_view(item: Seq<Attribute>) -> Seq<AttributeView> {
    item.map_values(|a: Attribute| a@)
}

/// The attribute that stores a text under the name of `field`.
pub open spec fn text_attr(field: Field, text: Seq<char>) -> AttributeView {
    AttributeView { name: field.name(), value: ValueView::S(text) }
}

/// The fields that records are stored with.
#[derive(Clone, Copy, Debug, PartialEq, Eq, Structural)]
pub enum Field {
    Id,
    CreatedAt,
    DeletedAt,
    Url,
    Email,
    Message,
    Name,
    Qa,
    Shortname,
    Longurl,
    Clicks,
}

/// What is wrong with an item.
#[derive(Clone, Copy, Debug, PartialEq, Eq, Structural)]
pub enum ItemError {
    /// A field that every record has is not there.
    Missing(Field),
    /// The attribute has a type that the field does not take.
    InvalidType(Field),
    /// The attribute's text does not read as a value of the field.
    InvalidFormat(Field),
    /// The field's value cannot be written: an instant outside the years
    /// that the calendar covers.
    Unrepresentable(Field),
}

impl Field {
    /// The attribute name of the field.
    pub open spec fn name(self) -> Seq<char> {
        match self {
            Field::Id => "id"@,
            Field::CreatedAt => "created_at"@,
            Field::DeletedAt => "deleted_at"@,
            Field::Url => "url"@,
            Field::Email => "email"@,
            Field::Message => "message"@,
            Field::Name => "name"@,
            Field::Qa => "qa"@,
            Field::Shortname => "shortname"@,
            Field::Longurl => "longurl"@,
            Field::Clicks => "clicks"@,
        }
    }

    /// The attribute name of the field.
    pub fn as_str(&self) -> (s: &'static str)
        ensures
            s@ == self.name(),
    {
        match self {
            Field::Id => "id",
            Field::CreatedAt => "created_at",
            Field::DeletedAt => "deleted_at",
            Field::Url => "url",
            Field::Email => "email",
            Field::Message => "message",
            Field::Name => "name",
            Field::Qa => "qa",
            Field::Shortname => "shortname",
            Field::Longurl => "longurl",
            Field::Clicks => "clicks",
        }
    }
}

impl ItemError {
    /// The field that the error is about.
    pub open spec fn field(self) -> Field {
        match self {
            ItemError::Missing(f) => f,
            ItemError::InvalidType(f) => f,
            ItemError::InvalidFormat(f) => f,
            ItemError::Unrepresentable(f) => f,
        }
    }

    /// What the error says before it names the field.
    pub open spec fn complaint(self) -> Seq<char> {
        match self {
            ItemError::Missing(_) => "missing attribute: "@,
            ItemError::InvalidType(_) => "attribute of the wrong type: "@,
            ItemError::InvalidFormat(_) => "attribute that cannot be read: "@,
            ItemError::Unrepresentable(_) => "value that cannot be written: "@,
        }
    }

    /// The error in words: the complaint, then the name of the field.
    pub open spec fn text(self) -> Seq<char> {
        self.complaint() + self.field().name()
    }

    /// The error in words.
    pub fn to_string(&self) -> (s: String)
        ensures
            s@ == self.text(),
    {
        let (mut s, field) = match self {
            ItemError::Missing(f) => ("missing attribute: ".to_owned(), *f),
            ItemError::InvalidType(f) => ("attribute of the wrong type: ".to_owned(), *f),
            ItemError::InvalidFormat(f) => ("attribute that cannot be read: ".to_owned(), *f),
            ItemError::Unrepresentable(f) => ("value that cannot be written: ".to_owned(), *f),
        };
        s.append(field.as_str());
        s
    }
}

/// The value of the first attribute of `item` that is called `name`.
pub open spec fn attr(item: Seq<Attribute>, name: Seq<char>) -> Option<AttributeValue>
    decreases item.len(),
{
    if item.len() == 0 {
        None
    } else if item[0].name@ == name {
        Some(item[0].value)
    } else {
        attr(item.skip(1), name)
    }
}

/// The text of a field that must be there.
pub open spec fn required_text(item: Seq<Attribute>, field: Field) -> Result<String, ItemError> {
    match attr(item, field.name()) {
        Some(AttributeValue::S(s)) => Ok(s),
        Some(_) => Err(ItemError::InvalidType(field)),
        None => Err(ItemError::Missing(field)),
    }
}

/// The text of a field that may be left out: no attribute and a null
/// attribute both stand for a field that is not set.
pub open spec fn optional_text(item: Seq<Attribute>, field: Field) -> Result<Option<String>, ItemError> {
    match attr(item, field.name()) {
        Some(AttributeValue::S(s)) => Ok(Some(s)),
        Some(AttributeValue::Null) => Ok(None),
        Some(_) => Err(ItemError::InvalidType(field)),
        None => Ok(None),
    }
}

/// The instant of a field that must be there.
pub open spec fn required_instant(item: Seq<Attribute>, field: Field) -> Result<Timestamp, ItemError> {
    match required_text(item, field) {
        Ok(s) => match rfc3339_instant(s@) {
            Some(t) => Ok(t),
            None => Err(ItemError::InvalidFormat(field)),
        },
        Err(e) => Err(e),
    }
}

/// The instant of a field that may be left out.
pub open spec fn optional_instant(item: Seq<Attribute>, field: Field) -> Result<Option<Timestamp>, ItemError> {
    match optional_text(item, field) {
        Ok(Some(s)) => match rfc3339_instant(s@) {
            Some(t) => Ok(Some(t)),
            None => Err(ItemError::InvalidFormat(field)),
        },
        Ok(None) => Ok(None),
        Err(e) => Err(e),
    }
}

/// The flag of a field that is false where it is left out.
pub open spec fn flag(item: Seq<Attribute>, field: Field) -> Result<bool, ItemError> {
    match attr(item, field.name()) {
        Some(AttributeValue::Bool(b)) => Ok(b),
        Some(_) => Err(ItemError::InvalidType(field)),
        None => Ok(false),
    }
}

/// Finds the first attribute called `name`.
pub fn get<'a>(item: &'a Vec<Attribute>, name: &str) -> (r: Option<&'a AttributeValue>)
    ensures
        match attr(item@, name@) {
            Some(v) => r matches Some(x) && *x == v,
            None => r is None,
        },
{
    let mut i: usize = 0;
    proof {
        assert(item@.skip(0) =~= item@);
    }
    while i < item.len()
        invariant
            i <= item.len(),
            attr(item@, name@) == attr(item@.skip(i as int), name@),
        decreases item.len() - i,
    {
        proof {
            assert(item@.skip(i as int).skip(1) =~= item@.skip(i + 1));
            assert(item@.skip(i as int)[0] == item@[i as int]);
        }
        if str_eq(item[i].name.as_str(), name) {
            return Some(&item[i].value);
        }
        i += 1;
    }
    None
}

/// Reads the text of a field that must be there.
pub fn get_text(item: &Vec<Attribute>, field: Field) -> (r: Result<String, ItemError>)
    ensures
        r == required_text(item@, field),
{
    match get(item, field.as_str()) {
        Some(AttributeValue::S(s)) => Ok(s.clone()),
        Some(_) => Err(ItemError::InvalidType(field)),
        None => Err(ItemError::Missing(field)),
    }
}

/// Reads the text of a field that may be left out.
pub fn get_optional_text(item: &Vec<Attribute>, field: Field) -> (r: Result<Option<String>, ItemError>)
    ensures
        r == optional_text(item@, field),
{
    match get(item, field.as_str()) {
        Some(AttributeValue::S(s)) => Ok(Some(s.clone())),
        Some(AttributeValue::Null) => Ok(None),
        Some(_) => Err(ItemError::InvalidType(field)),
        None => Ok(None),
    }
}

/// Reads the instant of a field that must be there.
pub fn get_instant(item: &Vec<Attribute>, field: Field) -> (r: Result<Timestamp, ItemError>)
    ensures
        r == required_instant(item@, field),
{
    match get_text(item, field) {
        Ok(s) => match parse_rfc3339(s.as_str()) {
            Some(t) => Ok(t),
            None => Err(ItemError::InvalidFormat(field)),
        },
        Err(e) => Err(e),
    }
}

/// Reads the instant of a field that may be left out.
pub fn get_optional_instant(item: &Vec<Attribute>, field: Field) -> (r: Result<Option<Timestamp>, ItemError>)
    ensures
        r == optional_instant(item@, field),
{
    match get_optional_text(item, field) {
        Ok(Some(s)) => match parse_rfc3339(s.as_str()) {
            Some(t) => Ok(Some(t)),
            None => Err(ItemError::InvalidFormat(field)),
        },
        Ok(None) => Ok(None),
        Err(e) => Err(e),
    }
}

/// Reads a flag, which is false where it is left out.
pub fn get_flag(item: &Vec<Attribute>, field: Field) -> (r: Result<bool, ItemError>)
    ensures
        r == flag(item@, field),
{
    match get(item, field.as_str()) {
        Some(AttributeValue::Bool(b)) => Ok(*b),
        Some(_) => Err(ItemError::InvalidType(field)),
        None => Ok(false),
    }
}

/// Makes the attribute that stores a text.
pub fn text_attribute(field: Field, text: String) -> (a: Attribute)
    ensures
        a@ == text_attr(field, text@),
{
    Attribute { name: field.as_str().to_owned(), value: AttributeValue::S(text) }
}

/// Makes the attribute that stores a flag.
pub fn flag_attribute(field: Field, b: bool) -> (a: Attribute)
    ensures
        a@ == (AttributeView { name: field.name(), value: ValueView::Bool(b) }),
{
    Attribute { name: field.as_str().to_owned(), value: AttributeValue::Bool(b) }
}

/// Makes the attribute that stores an instant, in RFC 3339 form.
pub fn instant_attribute(field: Field, t: &Timestamp) -> (r: Result<Attribute, ItemError>)
    ensures
        match rfc3339_text(t.secs, t.nanos) {
            Some(text) => r matches Ok(a) && a@ == text_attr(field, text),
            None => r == Err::<Attribute, ItemError>(ItemError::Unrepresentable(field)),
        },
{
    match format_rfc3339(t) {
        Some(s) => Ok(text_attribute(field, s)),
        None => Err(ItemError::Unrepresentable(field)),
    }
}

/// The counter of a field that is zero where it is left out.
pub open spec fn counter(item: Seq<Attribute>, field: Field) -> Result<u32, ItemError> {
    match attr(item, field.name()) {
        Some(AttributeValue::N(s)) => match parsed_u32(s@) {
            Some(n) => Ok(n),
            None => Err(ItemError::InvalidFormat(field)),
        },
        Some(_) => Err(ItemError::InvalidType(field)),
        None => Ok(0u32),
    }
}

/// Reads a counter, which is zero where it is left out.
pub fn get_counter(item: &Vec<Attribute>, field: Field) -> (r: Result<u32, ItemError>)
    ensures
        r == counter(item@, field),
{
    match get(item, field.as_str()) {
        Some(AttributeValue::N(s)) => match parse_u32(s.as_str()) {
            Some(n) => Ok(n),
            None => Err(ItemError::InvalidFormat(field)),
        },
        Some(_) => Err(ItemError::InvalidType(field)),
        None => Ok(0),
    }
}

/// Makes the attribute that stores a counter.
pub fn counter_attribute(field: Field, n: u32) -> (a: Attribute)
    ensures
        a@ == (AttributeView { name: field.name(), value: ValueView::N(decimal(n as nat)) }),
{
    Attribute { name: field.as_str().to_owned(), value: AttributeValue::N(format_u32(n)) }
}

/// The condition under which a write creates and never replaces: that the
/// table holds no item with the key attribute `key`.
pub fn absent_condition(key: Field) -> (condition: String)
    ensures
        condition@ == "attribute_not_exists("@ + key.name() + ")"@,
{
    let mut condition = "attribute_not_exists(".to_owned();
    condition.append(key.as_str());
    condition.append(")");
    condition
}

/// Adds an attribute at the end of an item.
pub fn push_attribute(item: &mut Vec<Attribute>, a: Attribute)
    ensures
        final(item)@ == old(item)@.push(a),
        item_view(final(item)@) == item_view(old(item)@).push(a@),
{
    proof {
        assert(item@.push(a).map_values(|x: Attribute| x@) =~= item@.map_values(|x: Attribute| x@).push(a@));
    }
    item.push(a);
}

} // verus!
