//! IPP messages, as the `ipp` crate holds them.
//!
//! A message is a code and a list of attribute groups; a group is a tag and a
//! list of named values. The types that carry them belong to `ipp` and are
//! opaque here, so each is given a name for what it holds, and the few `ipp`
//! functions the library calls are stated over those names.

use vstd::prelude::*;
use ipp::attribute::{IppAttribute, IppAttributeGroup};
use ipp::model::{DelimiterTag, IppVersion};
use ipp::parser::IppParseError;
use ipp::payload::IppPayload;
use ipp::prelude::Uri;
use ipp::request::IppRequestResponse;
use ipp::value::IppValue;
use crate::text::{byte_len, decimal};

verus! {

/// What one attribute value holds, as far as this library reads or writes it.
/// The language tag of a text or name that carries one is left out.
pub enum Content {
    Integer(i32),
    Enum(i32),
    Boolean(bool),
    TextWithoutLanguage(Seq<char>),
    NameWithoutLanguage(Seq<char>),
    TextWithLanguage(Seq<char>),
    NameWithLanguage(Seq<char>),
    Keyword(Seq<char>),
    Uri(Seq<char>),
    MimeMediaType(Seq<char>),
    Charset(Seq<char>),
    NaturalLanguage(Seq<char>),
    Array(Seq<Content>),
    /// A value of any other kind: ranges, dates, collections and so on.
    Other,
}

/// A named value.
pub struct Attribute {
    pub name: Seq<char>,
    pub value: Content,
}

/// A tagged list of named values. The tag is the number that stands for it in
/// an encoded message.
pub struct Group {
    pub tag: int,
    pub attributes: Seq<Attribute>,
}

/// A request, as what is put into it: the header's version, operation code and
/// request id, the attribute groups, and the bytes of the document behind them.
pub struct Request {
    pub version: u16,
    pub code: i16,
    pub id: i32,
    pub groups: Seq<Group>,
    pub document: Seq<u8>,
}

/// IPP version 1.1, as a header holds it.
pub const IPP_1_1: u16 = 0x0101;

/// The attribute groups this library reads or writes.
#[derive(Debug, Clone, Copy, PartialEq, Eq)]
pub enum GroupTag {
    Operation,
    Job,
    Printer,
    Subscription,
    EventNotification,
    Document,
}

impl GroupTag {
    /// The number that stands for the tag in an encoded message.
    pub open spec fn code(self) -> int {
        match self {
            GroupTag::Operation => 0x01,
            GroupTag::Job => 0x02,
            GroupTag::Printer => 0x04,
            GroupTag::Subscription => 0x06,
            GroupTag::EventNotification => 0x07,
            GroupTag::Document => 0x09,
        }
    }
}

/// `ipp::value::IppValue`, opaque here.
#[verifier::external_type_specification]
#[verifier::external_body]
pub struct ExIppValue(IppValue);

/// `ipp::attribute::IppAttribute`, opaque here.
#[verifier::external_type_specification]
#[verifier::external_body]
pub struct ExIppAttribute(IppAttribute);

/// `ipp::attribute::IppAttributeGroup`, opaque here.
#[verifier::external_type_specification]
#[verifier::external_body]
pub struct ExIppAttributeGroup(IppAttributeGroup);

/// `ipp::request::IppRequestResponse`, opaque here.
#[verifier::external_type_specification]
#[verifier::external_body]
pub struct ExIppRequestResponse(IppRequestResponse);

/// `ipp::payload::IppPayload`, opaque here.
#[verifier::external_type_specification]
#[verifier::external_body]
pub struct ExIppPayload(IppPayload);

/// `ipp::parser::IppParseError`, opaque here.
#[verifier::external_type_specification]
#[verifier::external_body]
pub struct ExIppParseError(IppParseError);

/// `ipp::model::DelimiterTag`, opaque here.
#[verifier::external_type_specification]
#[verifier::external_body]
pub struct ExDelimiterTag(DelimiterTag);

/// `http::Uri`, opaque here.
#[verifier::external_type_specification]
#[verifier::external_body]
pub struct ExUri(Uri);

/// What an `IppValue` holds, by its variant.
pub uninterp spec fn value_content(value: IppValue) -> Content;

/// What an `IppAttribute` holds: its name and its value.
pub uninterp spec fn attribute_content(attribute: IppAttribute) -> Attribute;

/// The attributes an `IppAttributeGroup` holds, in order.
pub uninterp spec fn group_attributes(group: IppAttributeGroup) -> Seq<Attribute>;

/// The groups an `IppRequestResponse` holds, in order.
pub uninterp spec fn message_groups(message: IppRequestResponse) -> Seq<Group>;

/// The header's operation code in a request, its status code in a reply.
pub uninterp spec fn message_code(message: IppRequestResponse) -> i16;

/// The header's protocol version.
pub uninterp spec fn message_version(message: IppRequestResponse) -> u16;

/// The header's request id.
pub uninterp spec fn message_id(message: IppRequestResponse) -> i32;

/// What `Debug` prints for the `StatusCode` of a header that holds this code.
pub uninterp spec fn status_name(code: i16) -> Seq<char>;

/// The payload of an `IppRequestResponse`: the document that goes with it.
pub uninterp spec fn message_payload(message: IppRequestResponse) -> IppPayload;

/// The bytes that reading an `IppPayload` to its end yields.
pub uninterp spec fn payload_bytes(payload: IppPayload) -> Seq<u8>;

/// What `Display` prints for an `IppParseError`.
pub uninterp spec fn parse_error_message(error: IppParseError) -> Seq<char>;

/// The number a `DelimiterTag` stands for in an encoded message.
pub uninterp spec fn delimiter_code(tag: DelimiterTag) -> int;

/// What `Display` prints for a `Uri`.
pub uninterp spec fn uri_written(uri: Uri) -> Seq<char>;

/// The `Uri` that parsing a text gives, if it gives one.
pub uninterp spec fn uri_parsed(text: Seq<char>) -> Option<Uri>;

/// What `Display` prints for the error that parsing a text as a `Uri` gives.
pub uninterp spec fn uri_refusal(text: Seq<char>) -> Seq<char>;

/// What `ipp::util::canonicalize_uri` makes of a `Uri`, which is the form that
/// `IppRequestResponse::new` names a printer by: the `ipp` scheme, and the
/// host, port and path it had.
pub uninterp spec fn uri_canonical(uri: Uri) -> Uri;

/// The `ipp` crate's wording for a string of `len` bytes where `max` are allowed.
pub open spec fn length_message(len: nat, max: nat) -> Seq<char> {
    "invalid string length: "@ + decimal(len) + ", max: "@ + decimal(max)
}

/// `error` is the refusal of `text` for being longer than `max` bytes.
pub open spec fn refuses_length(error: IppParseError, text: Seq<char>, max: nat) -> bool {
    parse_error_message(error) == length_message(byte_len(text), max)
}

/// A message, as the request it is.
pub open spec fn request_of(message: IppRequestResponse) -> Request {
    Request {
        version: message_version(message),
        code: message_code(message),
        id: message_id(message),
        groups: message_groups(message),
        document: payload_bytes(message_payload(message)),
    }
}

/// A request of nothing but operation attributes, with no document. Its version
/// is 1.1 and its request id 1, as the `ipp` crate makes every request.
pub open spec fn bare_request(code: i16, attributes: Seq<Attribute>) -> Request {
    Request {
        version: IPP_1_1,
        code,
        id: 1,
        groups: operation_group(attributes),
        document: Seq::empty(),
    }
}

/// Two messages have the same header and the same document.
pub open spec fn same_envelope(a: IppRequestResponse, b: IppRequestResponse) -> bool {
    &&& message_version(a) == message_version(b)
    &&& message_code(a) == message_code(b)
    &&& message_id(a) == message_id(b)
    &&& message_payload(a) == message_payload(b)
}

/// One named value.
pub open spec fn attribute(name: Seq<char>, value: Content) -> Attribute {
    Attribute { name, value }
}

/// The attributes a fresh request opens with: the two that every request
/// carries, and the printer it is addressed to, where there is one.
pub open spec fn opening(uri: Option<Seq<char>>) -> Seq<Attribute> {
    let head = seq![
        attribute("attributes-charset"@, Content::Charset("utf-8"@)),
        attribute("attributes-natural-language"@, Content::NaturalLanguage("en"@)),
    ];
    match uri {
        Some(text) => head.push(attribute("printer-uri"@, Content::Uri(text))),
        None => head,
    }
}

/// A message of nothing but operation attributes.
pub open spec fn operation_group(attributes: Seq<Attribute>) -> Seq<Group> {
    seq![Group { tag: GroupTag::Operation.code(), attributes }]
}

/// The refusal of the first of several fields that is longer than the bytes it
/// is allowed, if any is.
pub open spec fn overlong(fields: Seq<(Seq<char>, nat)>) -> Option<Seq<char>>
    decreases fields.len(),
{
    if fields.len() == 0 {
        None
    } else if byte_len(fields[0].0) > fields[0].1 {
        Some(length_message(byte_len(fields[0].0), fields[0].1))
    } else {
        overlong(fields.drop_first())
    }
}

/// A text, empty where there is none.
pub open spec fn text_or_empty(text: Option<&str>) -> Seq<char> {
    match text {
        Some(t) => t@,
        None => Seq::empty(),
    }
}

/// `groups` with one more attribute in the first group tagged `tag`, or in a
/// new group at the end where none is.
pub open spec fn with_added(groups: Seq<Group>, tag: int, added: Attribute) -> Seq<Group>
    decreases groups.len(),
{
    if groups.len() == 0 {
        seq![Group { tag, attributes: seq![added] }]
    } else if groups[0].tag == tag {
        groups.update(0, Group { tag, attributes: groups[0].attributes.push(added) })
    } else {
        seq![groups[0]] + with_added(groups.drop_first(), tag, added)
    }
}

/// The groups tagged `tag`, in order.
pub open spec fn tagged(groups: Seq<Group>, tag: int) -> Seq<Group>
    decreases groups.len(),
{
    if groups.len() == 0 {
        Seq::empty()
    } else {
        let rest = tagged(groups.drop_last(), tag);
        if groups.last().tag == tag {
            rest.push(groups.last())
        } else {
            rest
        }
    }
}

/// The value of the first attribute called `name`, if there is one.
pub open spec fn lookup(attributes: Seq<Attribute>, name: Seq<char>) -> Option<Content>
    decreases attributes.len(),
{
    if attributes.len() == 0 {
        None
    } else if attributes[0].name == name {
        Some(attributes[0].value)
    } else {
        lookup(attributes.drop_first(), name)
    }
}

/// What each of several values holds.
pub open spec fn contents(values: Seq<IppValue>) -> Seq<Content> {
    values.map_values(|value: IppValue| value_content(value))
}

/// The wording of an `IppParseError`, as its `to_string` gives it.
#[verifier::external_body]
pub(crate) fn parse_error_text(error: &IppParseError) -> (r: String)
    ensures
        r@ == parse_error_message(*error),
{
    error.to_string()
}

/// The `DelimiterTag` variant that goes with a group tag. Its number in an
/// encoded message is the tag's.
#[verifier::external_body]
pub(crate) fn delimiter(tag: GroupTag) -> (r: DelimiterTag)
    ensures
        delimiter_code(r) == tag.code(),
{
    match tag {
        GroupTag::Operation => DelimiterTag::OperationAttributes,
        GroupTag::Job => DelimiterTag::JobAttributes,
        GroupTag::Printer => DelimiterTag::PrinterAttributes,
        GroupTag::Subscription => DelimiterTag::SubscriptionAttributes,
        GroupTag::EventNotification => DelimiterTag::EventNotificationAttributes,
        GroupTag::Document => DelimiterTag::DocumentAttributes,
    }
}

/// `IppValue::Integer` of a number holds that number.
#[verifier::external_body]
pub(crate) fn integer_value(n: i32) -> (r: IppValue)
    ensures
        value_content(r) == Content::Integer(n),
{
    IppValue::Integer(n)
}

/// `IppValue::Boolean` of a truth value holds that value.
#[verifier::external_body]
pub(crate) fn boolean_value(b: bool) -> (r: IppValue)
    ensures
        value_content(r) == Content::Boolean(b),
{
    IppValue::Boolean(b)
}

/// `IppValue::Array` of several values holds what they hold, in order.
#[verifier::external_body]
pub(crate) fn array_value(values: Vec<IppValue>) -> (r: IppValue)
    ensures
        value_content(r) == Content::Array(contents(values@)),
{
    IppValue::Array(values)
}

/// `IppValue::Keyword` of a text turned into an `IppKeyword`, which holds at
/// most 255 bytes.
#[verifier::external_body]
pub(crate) fn keyword_value(text: &str) -> (r: Result<IppValue, IppParseError>)
    ensures
        r is Ok <==> byte_len(text@) <= 255,
        r matches Ok(value) ==> value_content(value) == Content::Keyword(text@),
        r matches Err(error) ==> refuses_length(error, text@, 255),
{
    text.try_into().map(IppValue::Keyword)
}

/// `IppValue::NameWithoutLanguage` of a text turned into an `IppName`, which
/// holds at most 255 bytes.
#[verifier::external_body]
pub(crate) fn name_value(text: &str) -> (r: Result<IppValue, IppParseError>)
    ensures
        r is Ok <==> byte_len(text@) <= 255,
        r matches Ok(value) ==> value_content(value) == Content::NameWithoutLanguage(text@),
        r matches Err(error) ==> refuses_length(error, text@, 255),
{
    text.try_into().map(IppValue::NameWithoutLanguage)
}

/// `IppValue::TextWithoutLanguage` of a text turned into an `IppTextValue`,
/// which holds at most 1023 bytes.
#[verifier::external_body]
pub(crate) fn text_value(text: &str) -> (r: Result<IppValue, IppParseError>)
    ensures
        r is Ok <==> byte_len(text@) <= 1023,
        r matches Ok(value) ==> value_content(value) == Content::TextWithoutLanguage(text@),
        r matches Err(error) ==> refuses_length(error, text@, 1023),
{
    text.try_into().map(IppValue::TextWithoutLanguage)
}

/// `IppValue::MimeMediaType` of a text turned into an `IppMimeMediaType`,
/// which holds at most 255 bytes.
#[verifier::external_body]
pub(crate) fn mime_value(text: &str) -> (r: Result<IppValue, IppParseError>)
    ensures
        r is Ok <==> byte_len(text@) <= 255,
        r matches Ok(value) ==> value_content(value) == Content::MimeMediaType(text@),
        r matches Err(error) ==> refuses_length(error, text@, 255),
{
    text.try_into().map(IppValue::MimeMediaType)
}

/// `IppValue::Uri` of a text turned into an `IppString`, which holds at most
/// 1023 bytes.
#[verifier::external_body]
pub(crate) fn uri_value(text: &str) -> (r: Result<IppValue, IppParseError>)
    ensures
        r is Ok <==> byte_len(text@) <= 1023,
        r matches Ok(value) ==> value_content(value) == Content::Uri(text@),
        r matches Err(error) ==> refuses_length(error, text@, 1023),
{
    text.try_into().map(IppValue::Uri)
}

/// `IppValue::as_integer`: the number of an integer, and nothing of a value of
/// another kind.
#[verifier::external_body]
pub(crate) fn as_integer(value: &IppValue) -> (r: Option<i32>)
    ensures
        r == (match value_content(*value) {
            Content::Integer(n) => Some(n),
            _ => None,
        }),
{
    value.as_integer().copied()
}

/// `IppValue::as_enum`: the number of an enum, and nothing of a value of
/// another kind.
#[verifier::external_body]
pub(crate) fn as_enum(value: &IppValue) -> (r: Option<i32>)
    ensures
        r == (match value_content(*value) {
            Content::Enum(n) => Some(n),
            _ => None,
        }),
{
    value.as_enum().copied()
}

/// `IppValue::as_boolean`: what a boolean holds, and nothing of a value of
/// another kind.
#[verifier::external_body]
pub(crate) fn as_boolean(value: &IppValue) -> (r: Option<bool>)
    ensures
        r == (match value_content(*value) {
            Content::Boolean(b) => Some(b),
            _ => None,
        }),
{
    value.as_boolean().copied()
}

/// `IppValue::as_array`: the values of an array, in order, and nothing of a
/// value of another kind.
#[verifier::external_body]
pub(crate) fn as_array(value: &IppValue) -> (r: Option<&Vec<IppValue>>)
    ensures
        r is Some <==> value_content(*value) is Array,
        r matches Some(items) ==> value_content(*value) == Content::Array(contents(items@)),
{
    value.as_array()
}

/// `IppValue::as_text_without_language`: what a text without a language says,
/// and nothing of a value of another kind.
#[verifier::external_body]
pub(crate) fn as_text_without_language(value: &IppValue) -> (r: Option<&str>)
    ensures
        r is Some <==> value_content(*value) is TextWithoutLanguage,
        r matches Some(t) ==> value_content(*value) == Content::TextWithoutLanguage(t@),
{
    value.as_text_without_language().map(|t| t.as_ref())
}

/// `IppValue::as_name_without_language`: what a name without a language says,
/// and nothing of a value of another kind.
#[verifier::external_body]
pub(crate) fn as_name_without_language(value: &IppValue) -> (r: Option<&str>)
    ensures
        r is Some <==> value_content(*value) is NameWithoutLanguage,
        r matches Some(t) ==> value_content(*value) == Content::NameWithoutLanguage(t@),
{
    value.as_name_without_language().map(|t| t.as_str())
}

/// The text half of `IppValue::as_text_with_language`, and nothing of a value
/// of another kind.
#[verifier::external_body]
pub(crate) fn as_text_with_language(value: &IppValue) -> (r: Option<&str>)
    ensures
        r is Some <==> value_content(*value) is TextWithLanguage,
        r matches Some(t) ==> value_content(*value) == Content::TextWithLanguage(t@),
{
    value.as_text_with_language().map(|t| t.1.as_ref())
}

/// The name half of `IppValue::as_name_with_language`, and nothing of a value
/// of another kind.
#[verifier::external_body]
pub(crate) fn as_name_with_language(value: &IppValue) -> (r: Option<&str>)
    ensures
        r is Some <==> value_content(*value) is NameWithLanguage,
        r matches Some(t) ==> value_content(*value) == Content::NameWithLanguage(t@),
{
    value.as_name_with_language().map(|t| t.1.as_str())
}

/// `IppValue::as_keyword`: what a keyword says, and nothing of a value of
/// another kind.
#[verifier::external_body]
pub(crate) fn as_keyword(value: &IppValue) -> (r: Option<&str>)
    ensures
        r is Some <==> value_content(*value) is Keyword,
        r matches Some(t) ==> value_content(*value) == Content::Keyword(t@),
{
    value.as_keyword().map(|t| t.as_str())
}

/// `IppValue::as_uri`: what a URI says, and nothing of a value of another kind.
#[verifier::external_body]
pub(crate) fn as_uri(value: &IppValue) -> (r: Option<&str>)
    ensures
        r is Some <==> value_content(*value) is Uri,
        r matches Some(t) ==> value_content(*value) == Content::Uri(t@),
{
    value.as_uri().map(|t| t.as_str())
}

/// `IppValue::as_mime_media_type`: what a media type says, and nothing of a
/// value of another kind.
#[verifier::external_body]
pub(crate) fn as_mime_media_type(value: &IppValue) -> (r: Option<&str>)
    ensures
        r is Some <==> value_content(*value) is MimeMediaType,
        r matches Some(t) ==> value_content(*value) == Content::MimeMediaType(t@),
{
    value.as_mime_media_type().map(|t| t.as_str())
}

/// `IppValue::clone` gives a value that holds the same.
pub assume_specification[ <IppValue as Clone>::clone ](value: &IppValue) -> (r: IppValue)
    ensures
        value_content(r) == value_content(*value),
;

/// `Uri::clone` gives the same URI.
pub assume_specification[ <ipp::prelude::Uri as Clone>::clone ](uri: &ipp::prelude::Uri) -> (r:
    ipp::prelude::Uri)
    ensures
        r == *uri,
;

/// `Uri` read from a text by `str::parse`, with the wording of the refusal
/// where the text is not a URI.
#[verifier::external_body]
pub(crate) fn parse_uri(text: &str) -> (r: Result<Uri, String>)
    ensures
        match r {
            Ok(uri) => uri_parsed(text@) == Some(uri),
            Err(reason) => uri_parsed(text@) is None && reason@ == uri_refusal(text@),
        },
{
    text.parse::<Uri>().map_err(|e| e.to_string())
}

/// The written form of a URI, by `Uri::to_string`.
#[verifier::external_body]
pub(crate) fn uri_text(uri: &Uri) -> (r: String)
    ensures
        r@ == uri_written(*uri),
{
    uri.to_string()
}

/// `IppAttribute::with_name`, which puts a name and a value together. It takes
/// names of at most 255 bytes.
#[verifier::external_body]
pub(crate) fn named_attribute(name: &str, value: IppValue) -> (r: Result<
    IppAttribute,
    IppParseError,
>)
    ensures
        r is Ok <==> byte_len(name@) <= 255,
        r matches Ok(a) ==> attribute_content(a) == attribute(name@, value_content(value)),
        r matches Err(error) ==> refuses_length(error, name@, 255),
{
    IppAttribute::with_name(name, value)
}

/// `IppAttributes::add`, on the attributes of a message: the attribute joins
/// the first group with that tag, or opens one at the end. The header and the
/// payload stay as they are.
#[verifier::external_body]
pub(crate) fn add_attribute(
    message: &mut IppRequestResponse,
    tag: DelimiterTag,
    added: IppAttribute,
)
    ensures
        message_groups(*final(message)) == with_added(
            message_groups(*old(message)),
            delimiter_code(tag),
            attribute_content(added),
        ),
        same_envelope(*final(message), *old(message)),
{
    message.attributes_mut().add(tag, added)
}

/// Writes the operation code of a request through
/// `IppRequestResponse::header_mut`, and nothing else of it.
#[verifier::external_body]
pub(crate) fn set_code(message: &mut IppRequestResponse, code: i16)
    ensures
        message_code(*final(message)) == code,
        message_version(*final(message)) == message_version(*old(message)),
        message_id(*final(message)) == message_id(*old(message)),
        message_groups(*final(message)) == message_groups(*old(message)),
        message_payload(*final(message)) == message_payload(*old(message)),
{
    message.header_mut().operation_or_status = code;
}

/// `StatusCode::is_success` of the status in a reply's header: the three codes
/// `successful-ok` comes in.
#[verifier::external_body]
pub(crate) fn is_success(message: &IppRequestResponse) -> (r: bool)
    ensures
        r == (0 <= message_code(*message) <= 2),
{
    message.header().status_code().is_success()
}

/// The code in a message's header, through `IppRequestResponse::header`.
#[verifier::external_body]
pub(crate) fn code_of(message: &IppRequestResponse) -> (r: i16)
    ensures
        r == message_code(*message),
{
    message.header().operation_or_status
}

/// The name of the status in a reply's header: what `Debug` prints for
/// `IppHeader::status_code`. Of the name nothing is said but that the code
/// decides it.
#[verifier::external_body]
pub(crate) fn status_text(message: &IppRequestResponse) -> (r: String)
    ensures
        r@ == status_name(message_code(*message)),
{
    format!("{:?}", message.header().status_code())
}

/// `IppAttributes::groups_of`, on the attributes of a message: the groups with
/// that tag, in order.
#[verifier::external_body]
pub(crate) fn groups_of(message: &IppRequestResponse, tag: DelimiterTag) -> (r: Vec<
    &IppAttributeGroup,
>)
    ensures
        r@.len() == tagged(message_groups(*message), delimiter_code(tag)).len(),
        forall|i: int|
            0 <= i < r@.len() ==> group_attributes(*#[trigger] r@[i]) == tagged(
                message_groups(*message),
                delimiter_code(tag),
            )[i].attributes,
{
    message.attributes().groups_of(tag).collect()
}

/// `IppAttributeGroup::get` and `IppAttribute::value`: the value of the first
/// attribute with that name.
#[verifier::external_body]
pub(crate) fn value_of<'a>(group: &'a IppAttributeGroup, name: &str) -> (r: Option<&'a IppValue>)
    ensures
        r is Some <==> lookup(group_attributes(*group), name@) is Some,
        r matches Some(value) ==> lookup(group_attributes(*group), name@) == Some(
            value_content(*value),
        ),
{
    group.get(name).map(|a| a.value())
}

/// `IppRequestResponse::new` for version 1.1, with the operation left at
/// `Get-Printer-Attributes`. Its request id is 1 and its payload is empty. It is
/// addressed to the canonical form of `uri`, and refuses one that is over 1023
/// bytes in that form.
#[verifier::external_body]
pub(crate) fn new_request(uri: Option<Uri>) -> (r: Result<IppRequestResponse, IppParseError>)
    ensures
        r is Ok <==> (uri matches Some(u) ==> byte_len(uri_written(uri_canonical(u))) <= 1023),
        r matches Ok(message) ==> request_of(message) == bare_request(
            0x000B,
            opening(
                match uri {
                    Some(u) => Some(uri_written(uri_canonical(u))),
                    None => None,
                },
            ),
        ),
        r matches Err(error) ==> uri matches Some(u) && refuses_length(
            error,
            uri_written(uri_canonical(u)),
            1023,
        ),
{
    let placeholder = ipp::model::Operation::GetPrinterAttributes;
    IppRequestResponse::new(IppVersion::v1_1(), placeholder, uri)
}

} // verus!
