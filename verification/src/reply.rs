//! What a request is answered: a status, headers and a body.

use vstd::prelude::*;

verus! {

/// A JSON value to be sent. `R` is the type of finite numbers.
#[derive(Debug, PartialEq)]
pub enum Json<R> {
    Null,
    Text(String),
    Integer(i64),
    Count(usize),
    Real(R),
    Array(Vec<Json<R>>),
    Object(Vec<(String, Json<R>)>),
}

/// A JSON value to be sent, as a mathematical value. The members of an object
/// stand in the order in which they were put.
pub enum JsonModel<R> {
    Null,
    Text(Seq<char>),
    Integer(int),
    Real(R),
    Array(Seq<JsonModel<R>>),
    Object(Seq<(Seq<char>, JsonModel<R>)>),
}

/// The mathematical value of a JSON value.
pub open spec fn json_model<R>(json: Json<R>) -> JsonModel<R>
    decreases json,
{
    match json {
        Json::Null => JsonModel::Null,
        Json::Text(text) => JsonModel::Text(text@),
        Json::Integer(n) => JsonModel::Integer(n as int),
        Json::Count(n) => JsonModel::Integer(n as int),
        Json::Real(r) => JsonModel::Real(r),
        Json::Array(elements) => JsonModel::Array(
            Seq::new(
                elements@.len(),
                |i: int|
                    if 0 <= i < elements@.len() {
                        json_model(elements@[i])
                    } else {
                        JsonModel::Null
                    },
            ),
        ),
        Json::Object(members) => JsonModel::Object(
            Seq::new(
                members@.len(),
                |i: int|
                    if 0 <= i < members@.len() {
                        (members@[i].0@, json_model(members@[i].1))
                    } else {
                        (Seq::empty(), JsonModel::Null)
                    },
            ),
        ),
    }
}

impl<R> View for Json<R> {
    type V = JsonModel<R>;

    open spec fn view(&self) -> JsonModel<R> {
        json_model(*self)
    }
}

/// The elements as mathematical values.
pub open spec fn element_models<R>(elements: Seq<Json<R>>) -> Seq<JsonModel<R>> {
    Seq::new(elements.len(), |i: int| elements[i]@)
}

/// The members as mathematical values.
pub open spec fn member_models<R>(members: Seq<(String, Json<R>)>) -> Seq<
    (Seq<char>, JsonModel<R>),
> {
    Seq::new(members.len(), |i: int| (members[i].0@, members[i].1@))
}

/// Makes an array of its elements.
pub fn array<R>(elements: Vec<Json<R>>) -> (json: Json<R>)
    ensures
        json@ == JsonModel::Array(element_models(elements@)),
{
    let json = Json::Array(elements);
    assert(json@->Array_0 =~= element_models(elements@));
    json
}

/// Makes an object of its members.
pub fn object<R>(members: Vec<(String, Json<R>)>) -> (json: Json<R>)
    ensures
        json@ == JsonModel::Object(member_models(members@)),
{
    let json = Json::Object(members);
    assert(json@->Object_0 =~= member_models(members@));
    json
}

/// Puts one more member behind the others.
pub fn put<R>(members: &mut Vec<(String, Json<R>)>, key: &str, value: Json<R>)
    ensures
        member_models(final(members)@) == member_models(old(members)@).push((key@, value@)),
{
    members.push((key.to_owned(), value));
    assert(member_models(members@) =~= member_models(old(members)@).push((key@, value@)));
}

/// The status of an answered request.
pub const OK: u16 = 200;

/// The status of a request that the sender has to mend.
pub const BAD_REQUEST: u16 = 400;

/// The status of a request for something that does not exist.
pub const NOT_FOUND: u16 = 404;

/// The status of a request that failed on the server's side.
pub const INTERNAL_SERVER_ERROR: u16 = 500;

/// The content of a body that is no JSON.
#[derive(Debug, PartialEq)]
pub enum Content {
    Text(String),
    Bytes(Vec<u8>),
}

/// An answer whose body is text or raw bytes.
#[derive(Debug, PartialEq)]
pub struct Reply {
    pub status: u16,
    pub headers: Vec<(String, String)>,
    pub body: Content,
}

/// An answer whose body is JSON.
#[derive(Debug, PartialEq)]
pub struct JsonReply<R> {
    pub status: u16,
    pub headers: Vec<(String, String)>,
    pub body: Json<R>,
}

/// A content as a mathematical value.
pub enum ContentModel {
    Text(Seq<char>),
    Bytes(Seq<u8>),
}

/// An answer as a mathematical value.
pub struct ReplyModel {
    pub status: u16,
    pub headers: Seq<(Seq<char>, Seq<char>)>,
    pub body: ContentModel,
}

/// An answer in JSON as a mathematical value.
pub struct JsonReplyModel<R> {
    pub status: u16,
    pub headers: Seq<(Seq<char>, Seq<char>)>,
    pub body: JsonModel<R>,
}

/// The headers as mathematical values.
pub open spec fn header_models(headers: Seq<(String, String)>) -> Seq<(Seq<char>, Seq<char>)> {
    Seq::new(headers.len(), |i: int| (headers[i].0@, headers[i].1@))
}

impl View for Content {
    type V = ContentModel;

    open spec fn view(&self) -> ContentModel {
        match self {
            Content::Text(text) => ContentModel::Text(text@),
            Content::Bytes(bytes) => ContentModel::Bytes(bytes@),
        }
    }
}

impl View for Reply {
    type V = ReplyModel;

    open spec fn view(&self) -> ReplyModel {
        ReplyModel {
            status: self.status,
            headers: header_models(self.headers@),
            body: self.body@,
        }
    }
}

impl<R> View for JsonReply<R> {
    type V = JsonReplyModel<R>;

    open spec fn view(&self) -> JsonReplyModel<R> {
        JsonReplyModel {
            status: self.status,
            headers: header_models(self.headers@),
            body: self.body@,
        }
    }
}

/// The headers of a body of the given type that pages of any origin may read.
pub open spec fn open_headers(content_type: Seq<char>) -> Seq<(Seq<char>, Seq<char>)> {
    seq![("content-type"@, content_type), ("access-control-allow-origin"@, "*"@)]
}

/// The same, for a body that may be cached as the given policy says.
pub open spec fn cached_headers(content_type: Seq<char>, policy: Seq<char>) -> Seq<
    (Seq<char>, Seq<char>),
> {
    open_headers(content_type).push(("cache-control"@, policy))
}

/// A plain text under a status, without headers of its own.
pub open spec fn plain_reply(status: u16, text: Seq<char>) -> ReplyModel {
    ReplyModel { status, headers: Seq::empty(), body: ContentModel::Text(text) }
}

/// Lists the headers of a body that pages of any origin may read.
pub fn headers_for(content_type: &str) -> (headers: Vec<(String, String)>)
    ensures
        header_models(headers@) == open_headers(content_type@),
{
    let mut headers: Vec<(String, String)> = Vec::new();
    headers.push(("content-type".to_owned(), content_type.to_owned()));
    headers.push(("access-control-allow-origin".to_owned(), "*".to_owned()));
    assert(header_models(headers@) =~= open_headers(content_type@));
    headers
}

/// Lists the headers of a body that may also be cached.
pub fn cached_headers_for(content_type: &str, policy: &str) -> (headers: Vec<(String, String)>)
    ensures
        header_models(headers@) == cached_headers(content_type@, policy@),
{
    let mut headers = headers_for(content_type);
    let ghost before = headers@;
    headers.push(("cache-control".to_owned(), policy.to_owned()));
    assert(header_models(headers@) =~= header_models(before).push(("cache-control"@, policy@)));
    headers
}

/// Answers with a plain text.
pub fn plain(status: u16, text: String) -> (reply: Reply)
    ensures
        reply@ == plain_reply(status, text@),
{
    let headers: Vec<(String, String)> = Vec::new();
    assert(header_models(headers@) =~= Seq::empty());
    Reply { status, headers, body: Content::Text(text) }
}

/// The object has exactly one member of that name, with this value.
pub open spec fn tells<R>(json: JsonModel<R>, key: Seq<char>, value: JsonModel<R>) -> bool {
    &&& json is Object
    &&& exists|i: int|
        {
            &&& 0 <= i < json->Object_0.len()
            &&& #[trigger] json->Object_0[i] == (key, value)
            &&& forall|j: int|
                0 <= j < json->Object_0.len() && (#[trigger] json->Object_0[j]).0 == key ==> j == i
        }
}

/// An answer is known by what it holds: the status, each header with its name and
/// its value in their order, and the text or the bytes of the body.
pub proof fn law_answers_hold_what_is_put_in(reply: Reply)
    ensures
        reply@.status == reply.status,
        reply@.headers.len() == reply.headers@.len(),
        forall|i: int|
            0 <= i < reply.headers@.len() ==> #[trigger] reply@.headers[i] == (
                reply.headers@[i].0@,
                reply.headers@[i].1@,
            ),
        match reply.body {
            Content::Text(text) => reply@.body == ContentModel::Text(text@),
            Content::Bytes(bytes) => reply@.body == ContentModel::Bytes(bytes@),
        },
{
}

/// A value in JSON is known by what it holds: a text by its characters, a number by
/// its size, and an array or an object by its elements or members in their order.
pub proof fn law_json_holds_what_is_put_in<R>(reply: JsonReply<R>, json: Json<R>)
    ensures
        reply@.status == reply.status,
        reply@.body == reply.body@,
        reply@.headers.len() == reply.headers@.len(),
        forall|i: int|
            0 <= i < reply.headers@.len() ==> #[trigger] reply@.headers[i] == (
                reply.headers@[i].0@,
                reply.headers@[i].1@,
            ),
        match json {
            Json::Null => json@ is Null,
            Json::Text(text) => json@ == JsonModel::<R>::Text(text@),
            Json::Integer(n) => json@ == JsonModel::<R>::Integer(n as int),
            Json::Count(n) => json@ == JsonModel::<R>::Integer(n as int),
            Json::Real(r) => json@ == JsonModel::Real(r),
            Json::Array(elements) => {
                &&& json@ is Array
                &&& json@->Array_0.len() == elements@.len()
                &&& forall|i: int|
                    0 <= i < elements@.len() ==> #[trigger] json@->Array_0[i] == elements@[i]@
            },
            Json::Object(members) => {
                &&& json@ is Object
                &&& json@->Object_0.len() == members@.len()
                &&& forall|i: int|
                    0 <= i < members@.len() ==> #[trigger] json@->Object_0[i] == (
                        members@[i].0@,
                        members@[i].1@,
                    )
            },
        },
{
}

} // verus!
