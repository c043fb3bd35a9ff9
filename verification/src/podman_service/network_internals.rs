//! The values exchanged with the transport: what is sent, what came back, and the four
//! ways in which a response body is handed to the caller.
use vstd::prelude::*;
use vstd::string::StringExecFns;
use crate::error::PodtenderError;
use crate::podman_service::framing::{
    concat, decode_json_frames, decode_lines, is_json_end, is_lines_end, json_frames_of, lines_of,
    StreamOutcome,
};
use crate::podman_service::podman_service::PodmanService;
use crate::podtender_errors::PodmanErrorResponse;
use crate::utils::{handle_service_response_error, is_disambiguated};

verus! {

/// Whether a status code belongs to the 2xx family.
pub open spec fn status_is_success(status_code: u16) -> bool {
    200 <= status_code < 300
}

/// Decides whether a status code belongs to the 2xx family.
pub fn is_success(status_code: u16) -> (r: bool)
    ensures
        r == status_is_success(status_code),
{
    200 <= status_code && status_code < 300
}

/// The HTTP methods that the API is spoken with.
#[derive(Debug, Clone, Copy, PartialEq, Eq, Structural)]
pub enum Method {
    Get,
    Post,
    Put,
    Delete,
}

/// The headers that a call site sets itself: pairs of name and value, in the order in
/// which the names came, and no name twice.
#[derive(Debug)]
pub struct Headers {
    pairs: Vec<(String, String)>,
}

/// Whether no name occurs twice among the entries.
pub open spec fn has_distinct_names(entries: Seq<(Seq<char>, Seq<char>)>) -> bool {
    forall|i: int, j: int| 0 <= i < j < entries.len() ==> entries[i].0 != entries[j].0
}

/// The place of the entry with the given name, or the number of entries where no entry
/// has that name.
pub open spec fn position_of(entries: Seq<(Seq<char>, Seq<char>)>, name: Seq<char>) -> int
    decreases entries.len(),
{
    if entries.len() == 0 {
        0
    } else if entries[0].0 == name {
        0
    } else {
        1 + position_of(entries.skip(1), name)
    }
}

/// `position_of` gives the first place at which the name stands, if it stands anywhere.
pub proof fn lemma_position_of(entries: Seq<(Seq<char>, Seq<char>)>, name: Seq<char>)
    ensures
        0 <= position_of(entries, name) <= entries.len(),
        position_of(entries, name) < entries.len() ==> entries[position_of(entries, name)].0
            == name,
        forall|i: int| 0 <= i < position_of(entries, name) ==> (#[trigger] entries[i]).0 != name,
    decreases entries.len(),
{
    if entries.len() > 0 && entries[0].0 != name {
        let tail = entries.skip(1);
        lemma_position_of(tail, name);
        assert forall|i: int| 0 <= i < position_of(entries, name) implies (
        #[trigger] entries[i]).0 != name by {
            if i > 0 {
                assert(entries[i] == tail[i - 1]);
            }
        }
    }
}

/// The entries after a value was set for a name: the value takes the place of the one
/// that the name had, or the pair comes last where the name is new.
pub open spec fn entries_with(
    entries: Seq<(Seq<char>, Seq<char>)>,
    name: Seq<char>,
    value: Seq<char>,
) -> Seq<(Seq<char>, Seq<char>)> {
    let position = position_of(entries, name);
    if position < entries.len() {
        entries.update(position, (name, value))
    } else {
        entries.push((name, value))
    }
}

impl Headers {
    #[verifier::type_invariant]
    spec fn names_occur_once(self) -> bool {
        has_distinct_names(self.pairs.deep_view())
    }

    /// The pairs of name and value, in order.
    pub closed spec fn entries(self) -> Seq<(Seq<char>, Seq<char>)> {
        self.pairs.deep_view()
    }

    /// No headers.
    pub fn new() -> (r: Self)
        ensures
            r.entries().len() == 0,
    {
        let pairs: Vec<(String, String)> = Vec::new();
        proof {
            assert(pairs.deep_view() =~= Seq::<(Seq<char>, Seq<char>)>::empty());
        }
        Headers { pairs }
    }

    /// Sets the value of a header. A name that is there already keeps its place and gets
    /// the new value.
    pub fn with(self, name: String, value: String) -> (r: Self)
        ensures
            r.entries() == entries_with(self.entries(), name@, value@),
    {
        proof {
            use_type_invariant(&self);
            lemma_position_of(self.pairs.deep_view(), name@);
        }
        let ghost before = self.pairs.deep_view();
        let mut pairs = self.pairs;
        let mut index: usize = 0;
        while index < pairs.len() && !(pairs[index].0 == name)
            invariant
                index <= pairs.len(),
                pairs.deep_view() == before,
                forall|i: int| 0 <= i < index ==> (#[trigger] before[i]).0 != name@,
            decreases pairs.len() - index,
        {
            index = index + 1;
        }
        proof {
            let position = position_of(before, name@);
            if index < pairs.len() {
                assert(before[index as int].0 == pairs[index as int].0@);
                assert(before[index as int].0 == name@);
            }
            if position < index {
                assert(before[position].0 == name@);
            }
            assert(position == index);
        }
        if index < pairs.len() {
            let _ = pairs.remove(index);
            pairs.insert(index, (name, value));
            proof {
                assert(pairs.deep_view() =~= before.update(index as int, (name@, value@)));
            }
        } else {
            pairs.push((name, value));
            proof {
                assert(pairs.deep_view() =~= before.push((name@, value@)));
            }
        }
        Headers { pairs }
    }

    /// The pairs of name and value, in order. No name occurs twice among them.
    pub fn pairs(&self) -> (r: &Vec<(String, String)>)
        ensures
            r.deep_view() == self.entries(),
            has_distinct_names(self.entries()),
    {
        proof {
            use_type_invariant(self);
        }
        &self.pairs
    }
}

/// One request, ready to be put on the wire.
#[derive(Debug)]
pub struct PodmanServiceRequest {
    pub method: Method,
    /// The endpoint, followed by `?` and the query string where there is one.
    pub uri: String,
    /// Headers that the call site sets itself.
    pub header: Option<Headers>,
    /// The content type of the body; none where the request has no body.
    pub content_type: Option<String>,
    /// The body, where it is a JSON text. An upload's bytes are supplied by the transport.
    pub body: Option<String>,
}

/// The request target: the endpoint, followed by `?` and the query where there is one.
pub open spec fn request_target(endpoint: Seq<char>, query: Option<String>) -> Seq<char> {
    match query {
        Some(query) => endpoint + "?"@ + query@,
        None => endpoint,
    }
}

/// Whether `content_type` is the given one where the request has a body, and none where
/// it has not.
pub open spec fn is_content_type(
    content_type: Option<String>,
    has_body: bool,
    expected: Seq<char>,
) -> bool {
    if has_body {
        content_type matches Some(value) && value@ == expected
    } else {
        content_type is None
    }
}

/// Writes the request target for an endpoint and an optional query string.
pub fn create_request_target(endpoint: &str, query: Option<String>) -> (r: String)
    ensures
        r@ == request_target(endpoint@, query),
{
    let mut target = String::from_str(endpoint);
    match query {
        Some(query) => {
            target.append("?");
            target.append(query.as_str());
            proof {
                assert(target@ =~= endpoint@ + "?"@ + query@);
            }
        },
        None => {},
    }
    target
}

/// A response whose body has not been looked at yet: the status code, the headers and
/// the pieces of the body in the order in which they arrived.
///
/// The value cannot be copied. Each function that hands the body on takes the response
/// by value, so a body is read once.
#[derive(Debug)]
pub struct PodmanServiceResponse {
    pub status_code: u16,
    pub body: Vec<Vec<u8>>,
    pub headers: Vec<(String, String)>,
}

/// A response whose body has been drained into memory.
#[derive(Debug, Clone)]
pub struct PodmanServiceResponseBytes {
    pub status_code: u16,
    pub body: Vec<u8>,
    pub headers: Vec<(String, String)>,
}

impl PodmanServiceResponseBytes {
    pub fn new(status_code: u16, body: Vec<u8>, headers: Vec<(String, String)>) -> (r: Self)
        ensures
            r.status_code == status_code,
            r.body == body,
            r.headers == headers,
    {
        PodmanServiceResponseBytes { status_code, body, headers }
    }
}

impl PodmanServiceResponse {
    pub fn new(status_code: u16, body: Vec<Vec<u8>>, headers: Vec<(String, String)>) -> (r: Self)
        ensures
            r.status_code == status_code,
            r.body == body,
            r.headers == headers,
    {
        PodmanServiceResponse { status_code, body, headers }
    }

    /// The bytes of the whole body.
    pub open spec fn body_bytes(self) -> Seq<u8> {
        concat(self.body.deep_view())
    }

    /// Drains the body into memory.
    pub fn into_bytes(self) -> (r: PodmanServiceResponseBytes)
        ensures
            r.status_code == self.status_code,
            r.body@ == self.body_bytes(),
            r.headers == self.headers,
    {
        let mut body: Vec<u8> = Vec::new();
        let mut index: usize = self.body.len();
        let ghost pieces = self.body.deep_view();
        proof {
            assert(pieces.skip(index as int) =~= Seq::<Seq<u8>>::empty());
        }
        while index > 0
            invariant
                index <= self.body.len(),
                pieces == self.body.deep_view(),
                body@ == concat(pieces.skip(index as int)),
            decreases index,
        {
            index = index - 1;
            let mut piece = self.body[index].clone();
            proof {
                assert(piece@ =~= pieces[index as int]);
                assert(pieces.skip(index as int).skip(1) =~= pieces.skip(index as int + 1));
                assert(pieces.skip(index as int)[0] == pieces[index as int]);
            }
            piece.append(&mut body);
            body = piece;
        }
        proof {
            assert(pieces.skip(0) =~= pieces);
        }
        PodmanServiceResponseBytes {
            status_code: self.status_code,
            body,
            headers: self.headers,
        }
    }
}

impl PodmanService {
    /// Describes a request whose body, if it has one, is a JSON text.
    pub fn send_json_request(
        &self,
        method: Method,
        endpoint: &str,
        query: Option<String>,
        header: Option<Headers>,
        body: Option<String>,
    ) -> (r: PodmanServiceRequest)
        ensures
            r.method == method,
            r.uri@ == request_target(endpoint@, query),
            r.header == header,
            is_content_type(r.content_type, body is Some, "application/json"@),
            r.body == body,
    {
        let uri = create_request_target(endpoint, query);
        let content_type = match &body {
            Some(_) => Some(String::from_str("application/json")),
            None => None,
        };
        PodmanServiceRequest { method, uri, header, content_type, body }
    }

    /// Describes a request whose body, if it has one, is a tar archive that the
    /// transport streams.
    pub fn send_file_request(
        &self,
        method: Method,
        endpoint: &str,
        query: Option<String>,
        header: Option<Headers>,
        has_body: bool,
    ) -> (r: PodmanServiceRequest)
        ensures
            r.method == method,
            r.uri@ == request_target(endpoint@, query),
            r.header == header,
            is_content_type(r.content_type, has_body, "application/x-tar"@),
            r.body is None,
    {
        let uri = create_request_target(endpoint, query);
        let content_type = if has_body {
            Some(String::from_str("application/x-tar"))
        } else {
            None
        };
        PodmanServiceRequest { method, uri, header, content_type, body: None }
    }

    /// Describes a GET request.
    pub fn get_request(
        &self,
        endpoint: &str,
        query: Option<String>,
        header: Option<Headers>,
        body: Option<String>,
    ) -> (r: PodmanServiceRequest)
        ensures
            r.method == Method::Get,
            r.uri@ == request_target(endpoint@, query),
            r.header == header,
            is_content_type(r.content_type, body is Some, "application/json"@),
            r.body == body,
    {
        self.send_json_request(Method::Get, endpoint, query, header, body)
    }

    /// Describes a POST request.
    pub fn post_request(
        &self,
        endpoint: &str,
        query: Option<String>,
        header: Option<Headers>,
        body: Option<String>,
    ) -> (r: PodmanServiceRequest)
        ensures
            r.method == Method::Post,
            r.uri@ == request_target(endpoint@, query),
            r.header == header,
            is_content_type(r.content_type, body is Some, "application/json"@),
            r.body == body,
    {
        self.send_json_request(Method::Post, endpoint, query, header, body)
    }

    /// Describes a PUT request.
    pub fn put_request(
        &self,
        endpoint: &str,
        query: Option<String>,
        header: Option<Headers>,
        body: Option<String>,
    ) -> (r: PodmanServiceRequest)
        ensures
            r.method == Method::Put,
            r.uri@ == request_target(endpoint@, query),
            r.header == header,
            is_content_type(r.content_type, body is Some, "application/json"@),
            r.body == body,
    {
        self.send_json_request(Method::Put, endpoint, query, header, body)
    }

    /// Describes a DELETE request.
    pub fn delete_request(
        &self,
        endpoint: &str,
        query: Option<String>,
        header: Option<Headers>,
        body: Option<String>,
    ) -> (r: PodmanServiceRequest)
        ensures
            r.method == Method::Delete,
            r.uri@ == request_target(endpoint@, query),
            r.header == header,
            is_content_type(r.content_type, body is Some, "application/json"@),
            r.body == body,
    {
        self.send_json_request(Method::Delete, endpoint, query, header, body)
    }

    /// Describes the POST request of a file upload.
    pub fn post_send_file_chunks_stream(
        &self,
        endpoint: &str,
        query: Option<String>,
        header: Option<Headers>,
        has_body: bool,
    ) -> (r: PodmanServiceRequest)
        ensures
            r.method == Method::Post,
            r.uri@ == request_target(endpoint@, query),
            r.header == header,
            is_content_type(r.content_type, has_body, "application/x-tar"@),
            r.body is None,
    {
        self.send_file_request(Method::Post, endpoint, query, header, has_body)
    }
}

/// What becomes of a response body that was asked for as a stream.
#[derive(Debug, Clone, Copy, PartialEq, Eq, Structural)]
pub enum BodyHandling {
    /// The status allows streaming: the body is handed on unread.
    Stream,
    /// The call failed: the body is drained and becomes the error.
    Disambiguate,
}

/// Decides from the status code what becomes of a body that was asked for as a stream.
pub fn body_handling(status_code: u16) -> (r: BodyHandling)
    ensures
        r == if status_is_success(status_code) {
            BodyHandling::Stream
        } else {
            BodyHandling::Disambiguate
        },
{
    if is_success(status_code) {
        BodyHandling::Stream
    } else {
        BodyHandling::Disambiguate
    }
}

/// Whether a stream stands for a failed call: no item, and the disambiguated error of the
/// response as its only outcome.
pub open spec fn is_rejected<T>(
    outcome: StreamOutcome<T>,
    status_code: u16,
    body: Seq<u8>,
    envelope: Option<PodmanErrorResponse>,
) -> bool {
    &&& outcome.items@.len() == 0
    &&& outcome.terminal_error matches Some(error)
    &&& is_disambiguated(status_code, body, envelope, error)
}

/// Decides whether a response body may be streamed.
///
/// With a 2xx status the response is handed back untouched. With any other status the
/// body is drained and the response becomes the error that the disambiguation makes of
/// it; `envelope` is the outcome of reading the whole body as an error envelope.
pub fn receive_bytes_stream(
    response: PodmanServiceResponse,
    envelope: Option<PodmanErrorResponse>,
) -> (r: Result<PodmanServiceResponse, PodtenderError>)
    ensures
        status_is_success(response.status_code) ==> r == Ok::<
            PodmanServiceResponse,
            PodtenderError,
        >(response),
        !status_is_success(response.status_code) ==> r is Err && is_disambiguated(
            response.status_code,
            response.body_bytes(),
            envelope,
            r->Err_0,
        ),
{
    match body_handling(response.status_code) {
        BodyHandling::Stream => Ok(response),
        BodyHandling::Disambiguate => Err(
            handle_service_response_error(response.into_bytes(), envelope),
        ),
    }
}

/// Hands a response body on as the frames of a sequence of JSON values.
///
/// `interruption` is the failure that cut the body short while it was streamed, if one
/// did; `envelope` is the outcome of reading the whole body as an error envelope. With a
/// status other than 2xx the stream holds the disambiguated error and nothing else.
pub fn json_stream(
    response: PodmanServiceResponse,
    interruption: Option<std::io::Error>,
    envelope: Option<PodmanErrorResponse>,
) -> (r: StreamOutcome<Vec<u8>>)
    ensures
        status_is_success(response.status_code) ==> r.items.deep_view() == json_frames_of(
            response.body_bytes(),
        ).items && is_json_end(
            json_frames_of(response.body_bytes()),
            interruption,
            r.terminal_error,
        ),
        !status_is_success(response.status_code) ==> is_rejected(
            r,
            response.status_code,
            response.body_bytes(),
            envelope,
        ),
{
    match receive_bytes_stream(response, envelope) {
        Ok(response) => decode_json_frames(response.into_bytes().body, interruption),
        Err(error) => StreamOutcome { items: Vec::new(), terminal_error: Some(error) },
    }
}

/// Hands a response body on as text lines.
///
/// `interruption` is the failure that cut the body short while it was streamed, if one
/// did; `envelope` is the outcome of reading the whole body as an error envelope. With a
/// status other than 2xx the stream holds the disambiguated error and nothing else.
pub fn lines_stream(
    response: PodmanServiceResponse,
    interruption: Option<std::io::Error>,
    envelope: Option<PodmanErrorResponse>,
) -> (r: StreamOutcome<String>)
    ensures
        status_is_success(response.status_code) ==> r.items.deep_view() == lines_of(
            response.body_bytes(),
        ).items && is_lines_end(lines_of(response.body_bytes()), interruption, r.terminal_error),
        !status_is_success(response.status_code) ==> is_rejected(
            r,
            response.status_code,
            response.body_bytes(),
            envelope,
        ),
{
    match receive_bytes_stream(response, envelope) {
        Ok(response) => decode_lines(response.into_bytes().body, interruption),
        Err(error) => StreamOutcome { items: Vec::new(), terminal_error: Some(error) },
    }
}

/// Hands a response body on as the pieces in which it arrived, untouched.
///
/// `interruption` is the failure that cut the body short while it was streamed, if one
/// did; it ends the stream as its last outcome. `envelope` is the outcome of reading the
/// whole body as an error envelope. With a status other than 2xx the stream holds the
/// disambiguated error and nothing else.
pub fn file_chunks_stream(
    response: PodmanServiceResponse,
    interruption: Option<hyper::Error>,
    envelope: Option<PodmanErrorResponse>,
) -> (r: StreamOutcome<Vec<u8>>)
    ensures
        status_is_success(response.status_code) ==> r.items == response.body && (
        match interruption {
            Some(error) => r.terminal_error == Some(PodtenderError::HyperError(error)),
            None => r.terminal_error is None,
        }),
        !status_is_success(response.status_code) ==> is_rejected(
            r,
            response.status_code,
            response.body_bytes(),
            envelope,
        ),
{
    match receive_bytes_stream(response, envelope) {
        Ok(response) => {
            let terminal_error = match interruption {
                Some(error) => Some(PodtenderError::HyperError(error)),
                None => None,
            };
            StreamOutcome { items: response.body, terminal_error }
        },
        Err(error) => StreamOutcome { items: Vec::new(), terminal_error: Some(error) },
    }
}

} // verus!
