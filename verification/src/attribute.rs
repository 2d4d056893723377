//! Telemetry attributes: a key of the OpenTelemetry semantic conventions and a value.
use crate::outside;
use vstd::prelude::*;

verus! {

/// The attribute keys that the middleware sets.
#[derive(Clone, Copy, Debug, PartialEq, Eq, Structural)]
pub enum Key {
    HttpRequestMethod,
    HttpResponseStatusCode,
    HttpRoute,
    NetworkProtocolVersion,
    UrlScheme,
    UrlPath,
    UrlQuery,
    UrlFull,
    ServerAddress,
    ServerPort,
    ErrorType,
    ExceptionMessage,
    ExceptionStacktrace,
}

/// The name under which a key is exported.
pub open spec fn key_name(key: Key) -> Seq<char> {
    match key {
        Key::HttpRequestMethod => "http.request.method"@,
        Key::HttpResponseStatusCode => "http.response.status_code"@,
        Key::HttpRoute => "http.route"@,
        Key::NetworkProtocolVersion => "network.protocol.version"@,
        Key::UrlScheme => "url.scheme"@,
        Key::UrlPath => "url.path"@,
        Key::UrlQuery => "url.query"@,
        Key::UrlFull => "url.full"@,
        Key::ServerAddress => "server.address"@,
        Key::ServerPort => "server.port"@,
        Key::ErrorType => "error.type"@,
        Key::ExceptionMessage => "exception.message"@,
        Key::ExceptionStacktrace => "exception.stacktrace"@,
    }
}

impl Key {
    /// The name of this key in the semantic conventions.
    pub fn name(self) -> (name: &'static str)
        ensures
            name@ == key_name(self),
    {
        outside::semantic_key(self)
    }
}

/// The value of an attribute: a text or a signed number.
#[derive(Debug, PartialEq, Eq)]
pub enum Value {
    I64(i64),
    Str(String),
}

/// What a [`Value`] means.
pub enum ValueView {
    I64(i64),
    Str(Seq<char>),
}

impl View for Value {
    type V = ValueView;

    open spec fn view(&self) -> ValueView {
        match self {
            Value::I64(number) => ValueView::I64(*number),
            Value::Str(text) => ValueView::Str(text@),
        }
    }
}

/// One attribute of a span, of an event or of a measurement.
#[derive(Debug, PartialEq, Eq)]
pub struct Attribute {
    pub key: Key,
    pub value: Value,
}

/// What an [`Attribute`] means.
pub struct AttributeView {
    pub key: Key,
    pub value: ValueView,
}

impl View for Attribute {
    type V = AttributeView;

    open spec fn view(&self) -> AttributeView {
        AttributeView { key: self.key, value: self.value@ }
    }
}

/// What a list of attributes means, in its order.
pub open spec fn attributes_view(attributes: Seq<Attribute>) -> Seq<AttributeView> {
    attributes.map_values(|attribute: Attribute| attribute@)
}

/// The attribute that gives `key` a text.
pub open spec fn text_attribute(key: Key, text: Seq<char>) -> AttributeView {
    AttributeView { key, value: ValueView::Str(text) }
}

/// The attribute that gives `key` a number.
pub open spec fn number_attribute(key: Key, number: i64) -> AttributeView {
    AttributeView { key, value: ValueView::I64(number) }
}

/// No attribute where there is no text, one that gives `key` the text where there is one.
pub open spec fn optional_text_attribute(key: Key, text: Option<Seq<char>>) -> Seq<AttributeView> {
    match text {
        Some(text) => seq![text_attribute(key, text)],
        None => Seq::empty(),
    }
}

/// Whether some attribute of the list has the key.
pub open spec fn has_key(attributes: Seq<AttributeView>, key: Key) -> bool {
    exists|i: int| 0 <= i < attributes.len() && (#[trigger] attributes[i]).key == key
}

impl Attribute {
    /// An attribute with a text as its value.
    pub fn text(key: Key, text: &str) -> (attribute: Attribute)
        ensures
            attribute@ == text_attribute(key, text@),
    {
        Attribute { key, value: Value::Str(text.to_owned()) }
    }

    /// An attribute with a number as its value.
    pub fn number(key: Key, number: i64) -> (attribute: Attribute)
        ensures
            attribute@ == number_attribute(key, number),
    {
        Attribute { key, value: Value::I64(number) }
    }
}

/// Appends one attribute.
pub(crate) fn push_attribute(attributes: &mut Vec<Attribute>, attribute: Attribute)
    ensures
        attributes_view(final(attributes)@) == attributes_view(old(attributes)@).push(attribute@),
{
    attributes.push(attribute);
    proof {
        assert(attributes_view(attributes@) =~= attributes_view(old(attributes)@).push(attribute@));
    }
}

/// Appends an attribute with the text, where there is one.
pub(crate) fn push_optional_text(attributes: &mut Vec<Attribute>, key: Key, text: &Option<String>)
    ensures
        attributes_view(final(attributes)@) == attributes_view(old(attributes)@)
            + optional_text_attribute(key, text.deep_view()),
{
    match text {
        Some(text) => push_attribute(attributes, Attribute::text(key, text.as_str())),
        None => {},
    }
    proof {
        assert(attributes_view(attributes@) =~= attributes_view(old(attributes)@)
            + optional_text_attribute(key, text.deep_view()));
    }
}

/// Whether some attribute of the list gives `key` the text.
pub open spec fn has_text(attributes: Seq<Attribute>, key: Key, text: Seq<char>) -> bool {
    exists|i: int|
        0 <= i < attributes.len() && (#[trigger] attributes[i]).key == key && (
        attributes[i].value matches Value::Str(value) && value@ == text)
}

/// Whether some attribute of the list gives `key` the number.
pub open spec fn has_number(attributes: Seq<Attribute>, key: Key, number: int) -> bool {
    exists|i: int|
        0 <= i < attributes.len() && (#[trigger] attributes[i]).key == key && (
        attributes[i].value matches Value::I64(value) && value == number)
}

/// Whether no attribute of the list has the key.
pub open spec fn lacks(attributes: Seq<Attribute>, key: Key) -> bool {
    forall|i: int| 0 <= i < attributes.len() ==> (#[trigger] attributes[i]).key != key
}

/// Whether the list gives `key` the text where there is one, and nothing where there is none.
pub open spec fn tells_text(attributes: Seq<Attribute>, key: Key, text: Option<String>) -> bool {
    match text {
        Some(text) => has_text(attributes, key, text@),
        None => lacks(attributes, key),
    }
}

/// Whether the list gives each key at most one value.
pub open spec fn keys_are_distinct(attributes: Seq<Attribute>) -> bool {
    forall|i: int, j: int|
        0 <= i < j < attributes.len() ==> (#[trigger] attributes[i]).key != (
        #[trigger] attributes[j]).key
}

/// The length, first and fifth character of a key's name: what tells the names apart.
spec fn name_shape(key: Key) -> (int, char, char) {
    match key {
        Key::HttpRequestMethod => (19, 'h', '.'),
        Key::HttpResponseStatusCode => (25, 'h', '.'),
        Key::HttpRoute => (10, 'h', '.'),
        Key::NetworkProtocolVersion => (24, 'n', 'o'),
        Key::UrlScheme => (10, 'u', 's'),
        Key::UrlPath => (8, 'u', 'p'),
        Key::UrlQuery => (9, 'u', 'q'),
        Key::UrlFull => (8, 'u', 'f'),
        Key::ServerAddress => (14, 's', 'e'),
        Key::ServerPort => (11, 's', 'e'),
        Key::ErrorType => (10, 'e', 'r'),
        Key::ExceptionMessage => (17, 'e', 'p'),
        Key::ExceptionStacktrace => (20, 'e', 'p'),
    }
}

proof fn lemma_name_shape(key: Key)
    ensures
        key_name(key).len() == name_shape(key).0,
        key_name(key)[0] == name_shape(key).1,
        key_name(key)[4] == name_shape(key).2,
{
    reveal_strlit("http.request.method");
    reveal_strlit("http.response.status_code");
    reveal_strlit("http.route");
    reveal_strlit("network.protocol.version");
    reveal_strlit("url.scheme");
    reveal_strlit("url.path");
    reveal_strlit("url.query");
    reveal_strlit("url.full");
    reveal_strlit("server.address");
    reveal_strlit("server.port");
    reveal_strlit("error.type");
    reveal_strlit("exception.message");
    reveal_strlit("exception.stacktrace");
}

/// An attribute means its own key and its own value: two that mean the same have the same key, and
/// the same number or text.
pub proof fn attribute_means_its_key_and_value(a: Attribute, b: Attribute)
    ensures
        a@.key == a.key,
        a.value matches Value::I64(number) ==> a@.value == ValueView::I64(number),
        a.value matches Value::Str(text) ==> a@.value == ValueView::Str(text@),
        a@ == b@ ==> a.key == b.key && match (a.value, b.value) {
            (Value::I64(x), Value::I64(y)) => x == y,
            (Value::Str(x), Value::Str(y)) => x@ == y@,
            _ => false,
        },
{
}

/// An attribute that is made of a key and a value has that key and that value.
pub proof fn attribute_keeps_what_it_is_made_of(
    key: Key,
    text: &str,
    number: i64,
    of_text: Attribute,
    of_number: Attribute,
)
    requires
        call_ensures(Attribute::text, (key, text), of_text),
        call_ensures(Attribute::number, (key, number), of_number),
    ensures
        of_text.key == key && of_number.key == key,
        of_text.value matches Value::Str(value) && value@ == text@,
        of_number.value matches Value::I64(value) && value == number,
{
}

/// A list means the attributes that it holds, one by one and in its order.
pub proof fn list_means_its_attributes(attributes: Seq<Attribute>, i: int)
    requires
        0 <= i < attributes.len(),
    ensures
        attributes_view(attributes).len() == attributes.len(),
        attributes_view(attributes)[i].key == attributes[i].key,
        match attributes[i].value {
            Value::I64(number) => attributes_view(attributes)[i].value == ValueView::I64(number),
            Value::Str(text) => attributes_view(attributes)[i].value == ValueView::Str(text@),
        },
{
}

/// No two keys are exported under one name.
pub proof fn key_names_are_distinct(a: Key, b: Key)
    requires
        key_name(a) == key_name(b),
    ensures
        a == b,
{
    lemma_name_shape(a);
    lemma_name_shape(b);
}

} // verus!
