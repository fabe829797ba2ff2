//! Turns the requests that a chat server pushes into typed messages.
//!
//! Only `PUT` requests to a known path become a message; every other request
//! is dropped. An incoming message carries the delivery time that the server
//! stated in its `X-Signal-Timestamp` header, or zero where it stated none.
use vstd::prelude::*;
use crate::text::{
    decimal, join3, parse_u64, parsed_u64, split_at_first, split_once, str_eq,
    str_eq_ignore_ascii_case, eq_ignore_case, trim, trimmed, u64_to_string,
};

verus! {

/// The status with which a delivered message is acknowledged.
pub const ACK_STATUS: u16 = 200;

/// `http::Method::PUT.as_str()`: the name of the `PUT` method, which is the
/// text `PUT`.
#[verifier::external_body]
fn put_verb() -> (r: String)
    ensures
        r@ == "PUT"@,
{
    http::Method::PUT.as_str().to_string()
}

/// `http::StatusCode::OK.as_u16()`: the number of the status `OK`, which is
/// 200.
#[verifier::external_body]
fn ok_status() -> (r: u16)
    ensures
        r == 200,
{
    http::StatusCode::OK.as_u16()
}

/// The status with which a delivered message is acknowledged: success.
pub fn ack_status() -> (r: u16)
    ensures
        r == ACK_STATUS,
{
    ok_status()
}

/// A point in time, in milliseconds since the Unix epoch.
#[derive(Clone, Copy, Debug, PartialEq, Eq, Structural)]
pub struct Timestamp(pub u64);

impl Timestamp {
    /// The time that lies `millis` milliseconds after the epoch.
    pub fn from_epoch_millis(millis: u64) -> (r: Timestamp)
        ensures
            r == Timestamp(millis),
    {
        Timestamp(millis)
    }

    /// Milliseconds since the epoch.
    pub fn epoch_millis(&self) -> (r: u64)
        ensures
            r == self.0,
    {
        self.0
    }
}

/// A request as the server framed it. A field that the server left out is
/// `None`.
pub struct RequestProto {
    pub verb: Option<String>,
    pub path: Option<String>,
    pub body: Option<Vec<u8>>,
    pub headers: Vec<String>,
    pub id: Option<u64>,
}

/// What the server has to say.
pub enum ServerMessage {
    /// The server has delivered everything it had queued.
    QueueEmpty,
    /// The server delivers one message.
    IncomingMessage { request_id: u64, envelope: Vec<u8>, server_delivery_timestamp: Timestamp },
}

/// A server message as a mathematical value.
pub enum ServerMessageModel {
    QueueEmpty,
    IncomingMessage { request_id: u64, envelope: Seq<u8>, server_delivery_timestamp: Timestamp },
}

impl View for ServerMessage {
    type V = ServerMessageModel;

    open spec fn view(&self) -> ServerMessageModel {
        match self {
            ServerMessage::QueueEmpty => ServerMessageModel::QueueEmpty,
            ServerMessage::IncomingMessage { request_id, envelope, server_delivery_timestamp } =>
                ServerMessageModel::IncomingMessage {
                    request_id: *request_id,
                    envelope: envelope@,
                    server_delivery_timestamp: *server_delivery_timestamp,
                },
        }
    }
}

/// The message in an optional result, as a mathematical value.
pub open spec fn message_view(message: Option<ServerMessage>) -> Option<ServerMessageModel> {
    match message {
        Some(m) => Some(m@),
        None => None,
    }
}

/// The delivery time that one header states: the number after the colon,
/// white space around it aside, where the name before the colon is
/// `x-signal-timestamp` in any mix of upper and lower case.
pub open spec fn header_timestamp(header: Seq<char>) -> Option<u64> {
    match split_at_first(header, ':') {
        Some((name, value)) => if eq_ignore_case(name, "x-signal-timestamp"@) {
            parsed_u64(trimmed(value))
        } else {
            None
        },
        None => None,
    }
}

/// The delivery time that the last header with one states.
pub open spec fn last_timestamp(headers: Seq<Seq<char>>) -> Option<u64>
    decreases headers.len(),
{
    if headers.len() == 0 {
        None
    } else {
        match header_timestamp(headers.last()) {
            Some(t) => Some(t),
            None => last_timestamp(headers.drop_last()),
        }
    }
}

/// The texts of a list of headers.
pub open spec fn header_texts(headers: Seq<String>) -> Seq<Seq<char>> {
    Seq::new(headers.len(), |i: int| headers[i]@)
}

/// The message that a request stands for, if it stands for one.
pub open spec fn routed(
    verb: Seq<char>,
    path: Seq<char>,
    id: u64,
    body: Seq<u8>,
    raw_timestamp: Option<u64>,
) -> Option<ServerMessageModel> {
    if verb != "PUT"@ {
        None
    } else if path == "/api/v1/queue/empty"@ {
        Some(ServerMessageModel::QueueEmpty)
    } else if path == "/api/v1/message"@ {
        Some(
            ServerMessageModel::IncomingMessage {
                request_id: id,
                envelope: body,
                server_delivery_timestamp: Timestamp(
                    match raw_timestamp {
                        Some(t) => t,
                        None => 0,
                    },
                ),
            },
        )
    } else {
        None
    }
}

/// The text of an optional field: empty where the field was left out.
pub open spec fn text_or_empty(field: Option<String>) -> Seq<char> {
    match field {
        Some(s) => s@,
        None => Seq::empty(),
    }
}

/// The bytes of an optional body: none where the body was left out.
pub open spec fn bytes_or_empty(field: Option<Vec<u8>>) -> Seq<u8> {
    match field {
        Some(b) => b@,
        None => Seq::empty(),
    }
}

/// The message that a framed request stands for, if it stands for one.
pub open spec fn demultiplexed(request: RequestProto) -> Option<ServerMessageModel> {
    routed(
        text_or_empty(request.verb),
        text_or_empty(request.path),
        match request.id {
            Some(id) => id,
            None => 0,
        },
        bytes_or_empty(request.body),
        last_timestamp(header_texts(request.headers@)),
    )
}

/// Reads the delivery time from one header.
pub fn timestamp_from_header(header: &str) -> (r: Option<u64>)
    ensures
        r == header_timestamp(header@),
{
    match split_once(header, ':') {
        Some((name, value)) => {
            if str_eq_ignore_ascii_case(name, "x-signal-timestamp") {
                parse_u64(trim(value))
            } else {
                None
            }
        },
        None => None,
    }
}

/// Reads the delivery time from the headers of a request: the last header
/// that states one decides.
pub fn last_timestamp_header(headers: &Vec<String>) -> (r: Option<u64>)
    ensures
        r == last_timestamp(header_texts(headers@)),
{
    let mut found: Option<u64> = None;
    let mut i: usize = 0;
    while i < headers.len()
        invariant
            0 <= i <= headers.len(),
            found == last_timestamp(header_texts(headers@).take(i as int)),
        decreases headers.len() - i,
    {
        let here = timestamp_from_header(headers[i].as_str());
        proof {
            let texts = header_texts(headers@);
            assert(texts.take(i + 1).last() == headers@[i as int]@);
            assert(texts.take(i + 1).drop_last() =~= texts.take(i as int));
        }
        if here.is_some() {
            found = here;
        }
        i = i + 1;
    }
    proof {
        let texts = header_texts(headers@);
        assert(texts.take(headers.len() as int) =~= texts);
    }
    found
}

/// Decides what a request stands for, given the delivery time that its
/// headers state. A request that is no `PUT`, or whose path is not one of the
/// two known paths, stands for nothing.
pub fn route_request(
    verb: &str,
    path: &str,
    id: u64,
    body: Vec<u8>,
    raw_timestamp: Option<u64>,
) -> (r: Option<ServerMessage>)
    ensures
        message_view(r) == routed(verb@, path@, id, body@, raw_timestamp),
{
    let put = put_verb();
    if !str_eq(verb, put.as_str()) {
        return None;
    }
    if str_eq(path, "/api/v1/queue/empty") {
        Some(ServerMessage::QueueEmpty)
    } else if str_eq(path, "/api/v1/message") {
        let millis: u64 = match raw_timestamp {
            Some(t) => t,
            None => 0,
        };
        Some(
            ServerMessage::IncomingMessage {
                request_id: id,
                envelope: body,
                server_delivery_timestamp: Timestamp::from_epoch_millis(millis),
            },
        )
    } else {
        None
    }
}

/// Turns one framed request into the message it stands for. A field that the
/// server left out counts as empty, a missing identifier as zero.
pub fn incoming_message(request: RequestProto) -> (r: Option<ServerMessage>)
    ensures
        message_view(r) == demultiplexed(request),
{
    let RequestProto { verb, path, body, headers, id } = request;
    let raw_timestamp = last_timestamp_header(&headers);
    let id: u64 = match id {
        Some(id) => id,
        None => 0,
    };
    let body = match body {
        Some(b) => b,
        None => Vec::new(),
    };
    let verb = match verb {
        Some(v) => v,
        None => String::new(),
    };
    let path = match path {
        Some(p) => p,
        None => String::new(),
    };
    route_request(verb.as_str(), path.as_str(), id, body, raw_timestamp)
}

/// The messages that a run of requests stands for, in the order of the
/// requests: one for each request that stands for one, none for the others.
pub open spec fn demultiplexed_all(requests: Seq<RequestProto>) -> Seq<ServerMessageModel>
    decreases requests.len(),
{
    if requests.len() == 0 {
        Seq::empty()
    } else {
        let before = demultiplexed_all(requests.drop_last());
        match demultiplexed(requests.last()) {
            Some(m) => before.push(m),
            None => before,
        }
    }
}

/// A list of messages as mathematical values.
pub open spec fn message_views(messages: Seq<ServerMessage>) -> Seq<ServerMessageModel> {
    Seq::new(messages.len(), |i: int| messages[i]@)
}

/// A list of messages as mathematical values, last message first.
pub open spec fn message_views_reversed(messages: Seq<ServerMessage>) -> Seq<ServerMessageModel> {
    Seq::new(messages.len(), |i: int| messages[messages.len() - 1 - i]@)
}

/// Turns the requests that have arrived into the messages they stand for, in
/// the order of arrival. Requests that stand for nothing leave no trace.
pub fn stream_incoming_messages(requests: Vec<RequestProto>) -> (r: Vec<ServerMessage>)
    ensures
        message_views(r@) == demultiplexed_all(requests@),
{
    let ghost given = requests@;
    let mut pending = requests;
    let mut reversed: Vec<ServerMessage> = Vec::new();
    assert(demultiplexed_all(pending@) + message_views_reversed(reversed@) =~= demultiplexed_all(
        given,
    ));
    while pending.len() > 0
        invariant
            demultiplexed_all(given) == demultiplexed_all(pending@) + message_views_reversed(
                reversed@,
            ),
        decreases pending@.len(),
    {
        let ghost before = pending@;
        let ghost found = reversed@;
        let last = pending.pop();
        match last {
            Some(request) => {
                assert(pending@ =~= before.drop_last());
                assert(request == before.last());
                match incoming_message(request) {
                    Some(message) => {
                        reversed.push(message);
                        assert(message_views_reversed(reversed@) =~= seq![message@]
                            + message_views_reversed(found));
                        assert(demultiplexed_all(before) =~= demultiplexed_all(pending@).push(
                            message@,
                        ));
                        assert(demultiplexed_all(pending@).push(message@) + message_views_reversed(
                            found,
                        ) =~= demultiplexed_all(pending@) + (seq![message@]
                            + message_views_reversed(found)));
                    },
                    None => {},
                }
            },
            None => {},
        }
    }
    let mut out: Vec<ServerMessage> = Vec::new();
    assert(message_views(out@) + message_views_reversed(reversed@) =~= demultiplexed_all(given));
    while reversed.len() > 0
        invariant
            message_views(out@) + message_views_reversed(reversed@) == demultiplexed_all(given),
        decreases reversed@.len(),
    {
        let ghost before = reversed@;
        let ghost done = out@;
        let last = reversed.pop();
        match last {
            Some(message) => {
                out.push(message);
                assert(message_views(out@) =~= message_views(done).push(message@));
                assert(message_views_reversed(before) =~= seq![message@] + message_views_reversed(
                    reversed@,
                ));
                assert(message_views(done).push(message@) + message_views_reversed(reversed@)
                    =~= message_views(done) + (seq![message@] + message_views_reversed(
                    reversed@,
                )));
            },
            None => {},
        }
    }
    assert(message_views(out@) + message_views_reversed(reversed@) =~= message_views(out@));
    out
}

impl ServerMessage {
    /// What [`ServerMessage::describe`] says.
    pub open spec fn spec_describe(self) -> Seq<char> {
        match self {
            ServerMessage::QueueEmpty => "QueueEmpty"@,
            ServerMessage::IncomingMessage { request_id, envelope, server_delivery_timestamp } =>
                "IncomingMessage { request_id: "@ + decimal(request_id as nat) + ", envelope: "@
                    + decimal(envelope@.len()) + " bytes, server_delivery_timestamp: Timestamp("@
                    + decimal(server_delivery_timestamp.0 as nat) + ") }"@,
        }
    }

    /// A description for logs: it gives the size of the envelope, never its
    /// content.
    pub fn describe(&self) -> (r: String)
        ensures
            r@ == self.spec_describe(),
    {
        match self {
            ServerMessage::QueueEmpty => String::from_str("QueueEmpty"),
            ServerMessage::IncomingMessage { request_id, envelope, server_delivery_timestamp } => {
                let id = u64_to_string(*request_id);
                let size = u64_to_string(envelope.len() as u64);
                let time = u64_to_string(server_delivery_timestamp.0);
                let mut out = join3("IncomingMessage { request_id: ", id.as_str(), ", envelope: ");
                out.append(size.as_str());
                out.append(" bytes, server_delivery_timestamp: Timestamp(");
                out.append(time.as_str());
                out.append(") }");
                out
            },
        }
    }
}

/// A request that is no `PUT` stands for nothing, whatever its path.
pub proof fn lemma_other_verbs_dropped(
    verb: Seq<char>,
    path: Seq<char>,
    id: u64,
    body: Seq<u8>,
    raw_timestamp: Option<u64>,
)
    requires
        verb != "PUT"@,
    ensures
        routed(verb, path, id, body, raw_timestamp) is None,
{
}

/// A request to a path that is neither the queue-empty path nor the message
/// path stands for nothing; the empty path is such a path.
pub proof fn lemma_unknown_paths_dropped(
    verb: Seq<char>,
    path: Seq<char>,
    id: u64,
    body: Seq<u8>,
    raw_timestamp: Option<u64>,
)
    requires
        path != "/api/v1/queue/empty"@,
        path != "/api/v1/message"@,
    ensures
        routed(verb, path, id, body, raw_timestamp) is None,
        routed(verb, Seq::empty(), id, body, raw_timestamp) is None,
{
    reveal_strlit("/api/v1/queue/empty");
    reveal_strlit("/api/v1/message");
    assert("/api/v1/queue/empty"@.len() == 19);
    assert("/api/v1/message"@.len() == 15);
}

/// A `PUT` to the queue-empty path stands for exactly the queue-empty
/// message, and a `PUT` to the message path for exactly one incoming message,
/// whose delivery time is the one stated last in the headers, or zero.
pub proof fn lemma_known_paths_routed(id: u64, body: Seq<u8>, headers: Seq<Seq<char>>)
    ensures
        routed("PUT"@, "/api/v1/queue/empty"@, id, body, last_timestamp(headers)) == Some(
            ServerMessageModel::QueueEmpty,
        ),
        routed("PUT"@, "/api/v1/message"@, id, body, last_timestamp(headers)) == Some(
            ServerMessageModel::IncomingMessage {
                request_id: id,
                envelope: body,
                server_delivery_timestamp: Timestamp(
                    match last_timestamp(headers) {
                        Some(t) => t,
                        None => 0,
                    },
                ),
            },
        ),
{
    reveal_strlit("/api/v1/queue/empty");
    reveal_strlit("/api/v1/message");
    assert("/api/v1/queue/empty"@.len() == 19);
    assert("/api/v1/message"@.len() == 15);
}

/// Headers after the last one that states a delivery time do not change it.
pub proof fn lemma_last_header_wins(headers: Seq<Seq<char>>, header: Seq<char>)
    ensures
        last_timestamp(headers.push(header)) == (match header_timestamp(header) {
            Some(t) => Some(t),
            None => last_timestamp(headers),
        }),
{
    assert(headers.push(header).drop_last() =~= headers);
}

} // verus!
