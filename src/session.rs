use vstd::prelude::*;
use crate::identity::GeneratorMetadata;
use crate::json::json_quoted;
use crate::protocol::{
    classify_method, id_json, method_of, reply_for, reply_line, reply_text, manifest_json,
    reply_to, Method, ReplyError, Request,
};

verus! {

#[derive(PartialEq, Eq, Structural, Clone, Copy, Debug)]
pub enum SessionState {
    AwaitingRequest,
    Terminated,
}

/// The read-dispatch-reply cycle between host and generator. The caller
/// reads a line while `awaiting_request` holds, runs the generation when
/// `dispatch` says so, and writes the line that `complete` returns.
pub struct Session {
    pub state: SessionState,
}

/// The state after a request with the given method was handled.
pub open spec fn next_state(method: Method) -> SessionState {
    if method == Method::GetManifest {
        SessionState::AwaitingRequest
    } else {
        SessionState::Terminated
    }
}

/// How many requests a session reads when the host sends requests with
/// these methods in turn.
pub open spec fn requests_read(methods: Seq<Method>) -> nat
    decreases methods.len(),
{
    if methods.len() == 0 {
        0
    } else if next_state(methods[0]) == SessionState::AwaitingRequest {
        1 + requests_read(methods.drop_first())
    } else {
        1
    }
}

/// What a session writes when the host sends requests with these methods
/// and id texts in turn, up to and including the one that ends it.
pub open spec fn transcript(
    requests: Seq<(Method, Seq<char>)>,
    output_lit: Seq<char>,
    name_lit: Seq<char>,
) -> Seq<char>
    decreases requests.len(),
{
    if requests.len() == 0 {
        Seq::empty()
    } else {
        let line = match reply_for(requests[0].0, requests[0].1, output_lit, name_lit) {
            Some(l) => l,
            None => Seq::empty(),
        };
        if next_state(requests[0].0) == SessionState::AwaitingRequest {
            line + transcript(requests.drop_first(), output_lit, name_lit)
        } else {
            line
        }
    }
}

/// The `getManifest` replies to requests with these id texts, one after another.
pub open spec fn manifest_lines(ids: Seq<Seq<char>>, output_lit: Seq<char>, name_lit: Seq<char>) -> Seq<
    char,
>
    decreases ids.len(),
{
    if ids.len() == 0 {
        Seq::empty()
    } else {
        reply_line(ids[0], manifest_json(output_lit, name_lit)) + manifest_lines(
            ids.drop_first(),
            output_lit,
            name_lit,
        )
    }
}

impl Session {
    pub fn new() -> (r: Session)
        ensures
            r.state == SessionState::AwaitingRequest,
    {
        Session { state: SessionState::AwaitingRequest }
    }

    /// Whether another request line is to be read.
    pub fn awaiting_request(&self) -> (r: bool)
        ensures
            r == (self.state == SessionState::AwaitingRequest),
    {
        self.state == SessionState::AwaitingRequest
    }

    /// What a request with this method asks for, before anything is answered.
    pub fn dispatch(&self, request: &Request) -> (r: Method)
        ensures
            r == method_of(request.method@),
    {
        classify_method(request.method.as_str())
    }

    /// Answers a request: the reply line owed to its method and id, or
    /// `UnknownMethod`. Only a `getManifest` keeps the session open.
    pub fn complete(&mut self, generator: &GeneratorMetadata, request: &Request) -> (r: Result<
        String,
        ReplyError,
    >)
        requires
            old(self).state == SessionState::AwaitingRequest,
        ensures
            final(self).state == next_state(method_of(request.method@)),
            reply_text(r) == reply_for(
                method_of(request.method@),
                id_json(request.id),
                json_quoted(generator.default_output@),
                json_quoted(generator.name@),
            ),
            r is Ok <==> method_of(request.method@) != Method::Unknown,
    {
        let r = reply_to(generator, request);
        let method = classify_method(request.method.as_str());
        self.state = if method == Method::GetManifest {
            SessionState::AwaitingRequest
        } else {
            SessionState::Terminated
        };
        r
    }
}

/// A `getManifest` reply carries the identity's output path and display
/// name whatever the request id, and echoes that id.
pub proof fn lemma_manifest_reply(id_json: Seq<char>, output: Seq<char>, name: Seq<char>)
    ensures
        reply_for(Method::GetManifest, id_json, json_quoted(output), json_quoted(name)) == Some(
            reply_line(id_json, manifest_json(json_quoted(output), json_quoted(name))),
        ),
        next_state(Method::GetManifest) == SessionState::AwaitingRequest,
{
}

/// A request whose method is neither `getManifest` nor `generate` gets no
/// reply, and the session ends.
pub proof fn lemma_unknown_method_ends(name: Seq<char>, id_json: Seq<char>, output_lit: Seq<
    char,
>, name_lit: Seq<char>)
    requires
        name != "getManifest"@,
        name != "generate"@,
    ensures
        method_of(name) == Method::Unknown,
        reply_for(method_of(name), id_json, output_lit, name_lit) is None,
        next_state(method_of(name)) == SessionState::Terminated,
{
}

/// Once a `generate` request has been answered, no further request is read:
/// after any number of `getManifest` requests and one `generate`, the count
/// of requests read is fixed, whatever the host sends next.
pub proof fn lemma_one_generation(served: nat, rest: Seq<Method>)
    ensures
        requests_read(Seq::new(served, |i: int| Method::GetManifest).push(Method::Generate)
            + rest) == served + 1,
    decreases served,
{
    let s = Seq::new(served, |i: int| Method::GetManifest).push(Method::Generate) + rest;
    if served == 0 {
        assert(s[0] == Method::Generate);
    } else {
        let t = Seq::new((served - 1) as nat, |i: int| Method::GetManifest).push(Method::Generate)
            + rest;
        assert(s.drop_first() =~= t);
        lemma_one_generation((served - 1) as nat, rest);
    }
}

/// After `getManifest` requests with the given ids and one `generate`, the
/// session has written one manifest reply per id and then the `null` reply
/// to the `generate`, and nothing for whatever the host sends after it.
pub proof fn lemma_one_generation_transcript(
    ids: Seq<Seq<char>>,
    generate_id: Seq<char>,
    rest: Seq<(Method, Seq<char>)>,
    output_lit: Seq<char>,
    name_lit: Seq<char>,
)
    ensures
        transcript(
            ids.map_values(|id: Seq<char>| (Method::GetManifest, id)).push(
                (Method::Generate, generate_id),
            ) + rest,
            output_lit,
            name_lit,
        ) == manifest_lines(ids, output_lit, name_lit) + reply_line(generate_id, "null"@),
    decreases ids.len(),
{
    let s = ids.map_values(|id: Seq<char>| (Method::GetManifest, id)).push(
        (Method::Generate, generate_id),
    ) + rest;
    if ids.len() == 0 {
        assert(s[0] == (Method::Generate, generate_id));
        assert(manifest_lines(ids, output_lit, name_lit) =~= Seq::empty());
        assert(manifest_lines(ids, output_lit, name_lit) + reply_line(generate_id, "null"@)
            =~= reply_line(generate_id, "null"@));
    } else {
        let tail = ids.drop_first();
        let t = tail.map_values(|id: Seq<char>| (Method::GetManifest, id)).push(
            (Method::Generate, generate_id),
        ) + rest;
        assert(s.drop_first() =~= t);
        assert(s[0] == (Method::GetManifest, ids[0]));
        lemma_one_generation_transcript(tail, generate_id, rest, output_lit, name_lit);
        let first = reply_line(ids[0], manifest_json(output_lit, name_lit));
        assert(first + (manifest_lines(tail, output_lit, name_lit) + reply_line(
            generate_id,
            "null"@,
        )) =~= (first + manifest_lines(tail, output_lit, name_lit)) + reply_line(
            generate_id,
            "null"@,
        ));
    }
}

} // verus!
