//! JSON replies with an optional session cookie, as the handlers hand them to
//! the HTTP layer.

use vstd::prelude::*;

verus! {

/// A cookie to set on the client.
#[derive(Debug, Clone, PartialEq, Eq)]
pub struct SessionCookie {
    pub name: String,
    pub value: String,
    pub path: String,
    pub max_age_seconds: i64,
    pub http_only: bool,
}

/// What a [`SessionCookie`] holds, as mathematical values.
#[verifier::ext_equal]
pub struct CookieView {
    pub name: Seq<char>,
    pub value: Seq<char>,
    pub path: Seq<char>,
    pub max_age_seconds: i64,
    pub http_only: bool,
}

impl View for SessionCookie {
    type V = CookieView;

    open spec fn view(&self) -> CookieView {
        CookieView {
            name: self.name@,
            value: self.value@,
            path: self.path@,
            max_age_seconds: self.max_age_seconds,
            http_only: self.http_only,
        }
    }
}

/// A reply: its HTTP status, the cookie it sets, and a flat JSON object of
/// string fields, in order.
#[derive(Debug, Clone, PartialEq, Eq)]
pub struct JsonReply {
    pub status: u16,
    pub cookie: Option<SessionCookie>,
    pub body: Vec<(String, String)>,
}

/// What a [`JsonReply`] holds, as mathematical values.
#[verifier::ext_equal]
pub struct ReplyView {
    pub status: u16,
    pub cookie: Option<CookieView>,
    pub body: Seq<(Seq<char>, Seq<char>)>,
}

/// The fields of a JSON body, each key and value by its characters.
pub open spec fn fields_view(body: Seq<(String, String)>) -> Seq<(Seq<char>, Seq<char>)> {
    body.map_values(|f: (String, String)| (f.0@, f.1@))
}

impl View for JsonReply {
    type V = ReplyView;

    open spec fn view(&self) -> ReplyView {
        ReplyView {
            status: self.status,
            cookie: match self.cookie {
                Some(c) => Some(c@),
                None => None,
            },
            body: fields_view(self.body@),
        }
    }
}

/// A JSON body of one string field.
pub fn one_field(key: &str, value: String) -> (body: Vec<(String, String)>)
    ensures
        fields_view(body@) == seq![(key@, value@)],
{
    let mut body: Vec<(String, String)> = Vec::new();
    body.push((String::from_str(key), value));
    assert(fields_view(body@) =~= seq![(key@, value@)]);
    body
}

/// A JSON body of two string fields, in the given order.
pub fn two_fields(key1: &str, value1: String, key2: &str, value2: String) -> (body: Vec<(String, String)>)
    ensures
        fields_view(body@) == seq![(key1@, value1@), (key2@, value2@)],
{
    let mut body: Vec<(String, String)> = Vec::new();
    body.push((String::from_str(key1), value1));
    body.push((String::from_str(key2), value2));
    assert(fields_view(body@) =~= seq![(key1@, value1@), (key2@, value2@)]);
    body
}

} // verus!
