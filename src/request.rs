use crate::address::IpAddress;
use vstd::prelude::*;

verus! {

/// The HTTP method of an update request.
#[derive(Clone, Copy, Debug, PartialEq, Eq, Structural)]
pub enum Method {
    Get,
    Post,
}

/// The value of a query or form field. An address is kept as an address and
/// written out in its standard text form when the request is sent.
#[derive(Clone, Debug)]
pub enum FieldValue {
    Text(String),
    Address(IpAddress),
}

pub enum FieldValueView {
    Text(Seq<char>),
    Address(IpAddress),
}

impl View for FieldValue {
    type V = FieldValueView;

    open spec fn view(&self) -> FieldValueView {
        match self {
            FieldValue::Text(s) => FieldValueView::Text(s@),
            FieldValue::Address(a) => FieldValueView::Address(*a),
        }
    }
}

/// One `name=value` pair of a query string or a form.
#[derive(Clone, Debug)]
pub struct Field {
    pub name: String,
    pub value: FieldValue,
}

pub struct FieldView {
    pub name: Seq<char>,
    pub value: FieldValueView,
}

impl View for Field {
    type V = FieldView;

    open spec fn view(&self) -> FieldView {
        FieldView { name: self.name@, value: self.value@ }
    }
}

/// A field whose value is text.
pub open spec fn text_field(name: Seq<char>, value: Seq<char>) -> FieldView {
    FieldView { name, value: FieldValueView::Text(value) }
}

/// A field whose value is an address.
pub open spec fn address_field(name: Seq<char>, a: IpAddress) -> FieldView {
    FieldView { name, value: FieldValueView::Address(a) }
}

/// HTTP basic authentication.
#[derive(Clone, Debug)]
pub struct BasicAuth {
    pub username: String,
    pub password: String,
}

/// A fully formed update request, ready to be sent.
#[derive(Clone, Debug)]
pub struct UpdateRequest {
    pub method: Method,
    pub url: String,
    pub query: Vec<Field>,
    pub form: Vec<Field>,
    pub basic_auth: Option<BasicAuth>,
    /// Send over HTTP/1.0, so that no connection is kept alive for reuse.
    pub http10: bool,
}

pub struct UpdateRequestView {
    pub method: Method,
    pub url: Seq<char>,
    pub query: Seq<FieldView>,
    pub form: Seq<FieldView>,
    /// The user name and password, if the request authenticates.
    pub basic_auth: Option<(Seq<char>, Seq<char>)>,
    pub http10: bool,
}

pub open spec fn fields_view(v: Seq<Field>) -> Seq<FieldView> {
    v.map_values(|f: Field| f@)
}

impl View for UpdateRequest {
    type V = UpdateRequestView;

    open spec fn view(&self) -> UpdateRequestView {
        UpdateRequestView {
            method: self.method,
            url: self.url@,
            query: fields_view(self.query@),
            form: fields_view(self.form@),
            basic_auth: match self.basic_auth {
                Some(a) => Some((a.username@, a.password@)),
                None => None,
            },
            http10: self.http10,
        }
    }
}

/// A field `name=value` with a text value.
pub fn text(name: &str, value: &str) -> (f: Field)
    ensures
        f@ == text_field(name@, value@),
{
    Field { name: String::from_str(name), value: FieldValue::Text(String::from_str(value)) }
}

/// A field `name=a`.
pub fn address(name: &str, a: IpAddress) -> (f: Field)
    ensures
        f@ == address_field(name@, a),
{
    Field { name: String::from_str(name), value: FieldValue::Address(a) }
}

/// Appends `f` to `fields`.
pub fn add_field(fields: &mut Vec<Field>, f: Field)
    ensures
        fields_view(final(fields)@) == fields_view(old(fields)@).push(f@),
{
    fields.push(f);
    assert(fields_view(fields@) =~= fields_view(old(fields)@).push(f@));
}

/// Credentials for HTTP basic authentication.
pub fn credentials(username: &str, password: &str) -> (a: BasicAuth)
    ensures
        a.username@ == username@,
        a.password@ == password@,
{
    BasicAuth { username: String::from_str(username), password: String::from_str(password) }
}

} // verus!
