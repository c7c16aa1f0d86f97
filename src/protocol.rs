use vstd::prelude::*;
use crate::identity::GeneratorMetadata;
use crate::json::{decimal, json_integer, json_quoted, json_string};

verus! {

/// The methods a host may call; anything else is a contract violation.
#[derive(PartialEq, Eq, Structural, Clone, Copy, Debug)]
pub enum Method {
    GetManifest,
    Generate,
    Unknown,
}

/// The id a host gives a request, echoed in the reply.
#[derive(Debug)]
pub enum RequestId {
    Int(i64),
    Text(String),
}

/// One decoded request line.
pub struct Request {
    pub method: String,
    pub id: RequestId,
    pub params: serde_json::Value,
}

/// Why no reply line is produced.
#[derive(PartialEq, Eq, Structural, Clone, Copy, Debug)]
pub enum ReplyError {
    /// The request named a method that this protocol does not have.
    UnknownMethod,
}

/// The JSON text of a request id.
pub open spec fn id_json(id: RequestId) -> Seq<char> {
    match id {
        RequestId::Int(n) => decimal(n as int),
        RequestId::Text(s) => json_quoted(s@),
    }
}

/// The reply line that a result holds, if any.
pub open spec fn reply_text(r: Result<String, ReplyError>) -> Option<Seq<char>> {
    match r {
        Ok(t) => Some(t@),
        Err(_) => None,
    }
}

pub fn id_to_json(id: &RequestId) -> (r: String)
    ensures
        r@ == id_json(*id),
{
    match id {
        RequestId::Int(n) => json_integer(*n),
        RequestId::Text(s) => json_string(s.as_str()),
    }
}

pub open spec fn method_of(name: Seq<char>) -> Method {
    if name == "getManifest"@ {
        Method::GetManifest
    } else if name == "generate"@ {
        Method::Generate
    } else {
        Method::Unknown
    }
}

/// The result object of a `getManifest` reply, from the JSON literals of
/// the default output and the display name.
pub open spec fn manifest_json(output_lit: Seq<char>, name_lit: Seq<char>) -> Seq<char> {
    "{\"defaultOutput\":"@ + output_lit + ",\"prettyName\":"@ + name_lit + "}"@
}

/// A whole reply line: the envelope around an id and a result, as JSON
/// text, ended by a newline.
pub open spec fn reply_line(id_json: Seq<char>, result_json: Seq<char>) -> Seq<char> {
    "{\"jsonrpc\":\"2.0\",\"id\":"@ + id_json + ",\"result\":"@ + result_json + "}\n"@
}

/// The reply line owed to a request with the given id and method, where
/// the identity's strings have the given JSON literals.
pub open spec fn reply_for(
    method: Method,
    id_json: Seq<char>,
    output_lit: Seq<char>,
    name_lit: Seq<char>,
) -> Option<Seq<char>> {
    match method {
        Method::GetManifest => Some(reply_line(id_json, manifest_json(output_lit, name_lit))),
        Method::Generate => Some(reply_line(id_json, "null"@)),
        Method::Unknown => None,
    }
}

pub fn classify_method(name: &str) -> (r: Method)
    ensures
        r == method_of(name@),
{
    let n = String::from_str(name);
    if n == String::from_str("getManifest") {
        Method::GetManifest
    } else if n == String::from_str("generate") {
        Method::Generate
    } else {
        Method::Unknown
    }
}

/// Builds the `getManifest` result object from the two JSON literals.
pub fn manifest_json_from(output_lit: &str, name_lit: &str) -> (r: String)
    ensures
        r@ == manifest_json(output_lit@, name_lit@),
{
    let mut r = String::from_str("{\"defaultOutput\":");
    r.append(output_lit);
    r.append(",\"prettyName\":");
    r.append(name_lit);
    r.append("}");
    r
}

/// Frames a reply around the id and result, both given as JSON text.
pub fn encode_reply(id_json: &str, result_json: &str) -> (r: String)
    ensures
        r@ == reply_line(id_json@, result_json@),
{
    let mut r = String::from_str("{\"jsonrpc\":\"2.0\",\"id\":");
    r.append(id_json);
    r.append(",\"result\":");
    r.append(result_json);
    r.append("}\n");
    r
}

/// The reply to a request whose method and id (as JSON text) are given,
/// where the identity's strings have the given JSON literals. An unknown
/// method gets no reply.
pub fn reply_from_parts(method: &str, id_json: &str, output_lit: &str, name_lit: &str) -> (r:
    Option<String>)
    ensures
        r matches Some(t) ==> reply_for(method_of(method@), id_json@, output_lit@, name_lit@)
            == Some(t@),
        r is None ==> reply_for(method_of(method@), id_json@, output_lit@, name_lit@) is None,
{
    match classify_method(method) {
        Method::GetManifest => {
            let result = manifest_json_from(output_lit, name_lit);
            Some(encode_reply(id_json, result.as_str()))
        },
        Method::Generate => Some(encode_reply(id_json, "null")),
        Method::Unknown => None,
    }
}

/// The reply line to a request from the given generator: the one owed to
/// its method and id, or `UnknownMethod` when the method is not one of
/// this protocol's.
pub fn reply_to(generator: &GeneratorMetadata, request: &Request) -> (r: Result<
    String,
    ReplyError,
>)
    ensures
        reply_text(r) == reply_for(
            method_of(request.method@),
            id_json(request.id),
            json_quoted(generator.default_output@),
            json_quoted(generator.name@),
        ),
        r is Ok <==> method_of(request.method@) != Method::Unknown,
        r is Err ==> r == Err::<String, ReplyError>(ReplyError::UnknownMethod),
{
    let id_json = id_to_json(&request.id);
    let output_lit = json_string(generator.default_output.as_str());
    let name_lit = json_string(generator.name.as_str());
    match reply_from_parts(
        request.method.as_str(),
        id_json.as_str(),
        output_lit.as_str(),
        name_lit.as_str(),
    ) {
        Some(t) => Ok(t),
        None => Err(ReplyError::UnknownMethod),
    }
}

} // verus!
