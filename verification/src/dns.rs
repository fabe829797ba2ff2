//! Name resolution over HTTPS: the pinned name servers, the request that a
//! lookup sends, and what its answer means.
use vstd::prelude::*;
use crate::dns_message::{
    create_request_with_id, name_valid, parse_response, query_message, response_records,
};
use crate::text::str_eq;
use vstd::string::StringSliceAdditionalSpecFns;

verus! {

/// The host name of the name server that is used first.
pub const CLOUDFLARE_NS: &'static str = "1.1.1.1";

/// The largest answer, in bytes, that is read.
pub const MAX_RESPONSE_SIZE: usize = 10240;

/// The path that queries are posted to.
pub const DOH_PATH: &'static str = "/dns-query";

/// The media type of a query and of its answer.
pub const DNS_MESSAGE_TYPE: &'static str = "application/dns-message";

/// The identifier of every query: answers are matched to queries by the HTTP
/// exchange, so the message itself carries none.
pub const DOH_REQUEST_ID: u16 = 0;

/// An IPv4 address, as its four bytes.
#[derive(Clone, Copy, Debug, PartialEq, Eq)]
pub struct Ipv4(pub [u8; 4]);

/// An IPv6 address, as its sixteen bytes.
#[derive(Clone, Copy, Debug, PartialEq, Eq)]
pub struct Ipv6(pub [u8; 16]);

/// Where an address was learnt.
#[derive(Clone, Copy, Debug, PartialEq, Eq, Structural)]
pub enum DnsSource {
    /// It was pinned in advance.
    Static,
    /// A lookup over HTTPS gave it.
    DnsOverHttpsLookup,
}

/// The kind of record that a query asks for.
#[derive(Clone, Copy, Debug, PartialEq, Eq, Structural)]
pub enum ResourceType {
    /// IPv4 addresses.
    A,
    /// IPv6 addresses.
    AAAA,
}

/// Why a lookup failed.
#[derive(Clone, Copy, Debug, PartialEq, Eq, Structural)]
pub enum Error {
    /// The request could not be sent or its answer not received.
    TransportFailure,
    /// The server answered with a status other than success.
    DohRequestBadStatus(u16),
    /// A record of the answer does not have the length of an address.
    ProtocolErrorInvalidRecord,
    /// The name asked for cannot be written into a query.
    ProtocolErrorInvalidName,
    /// The answer is not a whole DNS message.
    ProtocolErrorInvalidMessage,
    /// The server answered the query with this response code.
    RequestFailedWithErrorCode(u8),
}

/// The addresses known for one name.
#[derive(Debug)]
pub struct LookupResult {
    pub source: DnsSource,
    pub ipv4: Vec<Ipv4>,
    pub ipv6: Vec<Ipv6>,
}

/// A resolver that answers from a fixed table.
#[derive(Debug)]
pub struct DnsResolver {
    pub names: Vec<&'static str>,
    pub results: Vec<LookupResult>,
    pub ipv6_enabled: bool,
}

/// The IPv4 address of the first pinned name server, `1.1.1.1`.
pub open spec fn cloudflare_v4() -> Seq<u8> {
    seq![1u8, 1u8, 1u8, 1u8]
}

/// The IPv6 address of the first pinned name server, `2606:4700:4700::1111`.
pub open spec fn cloudflare_v6() -> Seq<u8> {
    seq![
        0x26u8, 0x06u8, 0x47u8, 0x00u8, 0x47u8, 0x00u8, 0u8, 0u8, 0u8, 0u8, 0u8, 0u8, 0u8, 0u8,
        0x11u8, 0x11u8,
    ]
}

/// The IPv4 address of the second pinned name server, `8.8.8.8`.
pub open spec fn google_v4() -> Seq<u8> {
    seq![8u8, 8u8, 8u8, 8u8]
}

/// The IPv6 address of the second pinned name server, `2001:4860:4860::8888`.
pub open spec fn google_v6() -> Seq<u8> {
    seq![
        0x20u8, 0x01u8, 0x48u8, 0x60u8, 0x48u8, 0x60u8, 0u8, 0u8, 0u8, 0u8, 0u8, 0u8, 0u8, 0u8,
        0x88u8, 0x88u8,
    ]
}

fn pinned(v4: [u8; 4], v6: [u8; 16]) -> (r: LookupResult)
    ensures
        r.source == DnsSource::Static,
        r.ipv4@.len() == 1,
        r.ipv4@[0].0@ == v4@,
        r.ipv6@.len() == 1,
        r.ipv6@[0].0@ == v6@,
{
    let mut ipv4: Vec<Ipv4> = Vec::new();
    ipv4.push(Ipv4(v4));
    let mut ipv6: Vec<Ipv6> = Vec::new();
    ipv6.push(Ipv6(v6));
    LookupResult { source: DnsSource::Static, ipv4, ipv6 }
}

/// The resolver that knows the pinned name servers, so that they can be
/// reached without a lookup: `1.1.1.1` and `dns.google`, each with one IPv4
/// and one IPv6 address.
pub fn dns_resolver_for_known_ns(ipv6_enabled: bool) -> (r: DnsResolver)
    ensures
        r.ipv6_enabled == ipv6_enabled,
        r.names@.len() == 2,
        r.results@.len() == 2,
        r.names@[0]@ == "1.1.1.1"@,
        r.names@[1]@ == "dns.google"@,
        r.results@[0].source == DnsSource::Static,
        r.results@[0].ipv4@.len() == 1 && r.results@[0].ipv4@[0].0@ == cloudflare_v4(),
        r.results@[0].ipv6@.len() == 1 && r.results@[0].ipv6@[0].0@ == cloudflare_v6(),
        r.results@[1].source == DnsSource::Static,
        r.results@[1].ipv4@.len() == 1 && r.results@[1].ipv4@[0].0@ == google_v4(),
        r.results@[1].ipv6@.len() == 1 && r.results@[1].ipv6@[0].0@ == google_v6(),
{
    let mut names: Vec<&'static str> = Vec::new();
    let mut results: Vec<LookupResult> = Vec::new();
    let v4: [u8; 4] = [1, 1, 1, 1];
    let v6: [u8; 16] = [0x26, 0x06, 0x47, 0x00, 0x47, 0x00, 0, 0, 0, 0, 0, 0, 0, 0, 0x11, 0x11];
    assert(v4@ =~= cloudflare_v4());
    assert(v6@ =~= cloudflare_v6());
    names.push(CLOUDFLARE_NS);
    results.push(pinned(v4, v6));
    let v4: [u8; 4] = [8, 8, 8, 8];
    let v6: [u8; 16] = [0x20, 0x01, 0x48, 0x60, 0x48, 0x60, 0, 0, 0, 0, 0, 0, 0, 0, 0x88, 0x88];
    assert(v4@ =~= google_v4());
    assert(v6@ =~= google_v6());
    names.push("dns.google");
    results.push(pinned(v4, v6));
    DnsResolver { names, results, ipv6_enabled }
}

impl DnsResolver {
    /// Looks a name up in the table: the place of its first entry, if it has
    /// one.
    pub fn position(&self, hostname: &str) -> (r: Option<usize>)
        ensures
            match r {
                Some(i) => i < self.names@.len() && self.names@[i as int]@ == hostname@ && forall|
                    j: int,
                |
                    0 <= j < i ==> self.names@[j]@ != hostname@,
                None => forall|j: int| 0 <= j < self.names@.len() ==> self.names@[j]@ != hostname@,
            },
    {
        let mut i: usize = 0;
        while i < self.names.len()
            invariant
                0 <= i <= self.names@.len(),
                forall|j: int| 0 <= j < i ==> self.names@[j]@ != hostname@,
            decreases self.names@.len() - i,
        {
            if str_eq(self.names[i], hostname) {
                return Some(i);
            }
            i = i + 1;
        }
        None
    }
}

/// The record kinds that a lookup asks for, in the order in which the
/// queries are sent: IPv6 first where it is enabled, IPv4 always.
pub open spec fn query_types(ipv6_enabled: bool) -> Seq<ResourceType> {
    if ipv6_enabled {
        seq![ResourceType::AAAA, ResourceType::A]
    } else {
        seq![ResourceType::A]
    }
}

/// The answer to one query: IPv4 addresses to an `A` query, IPv6 addresses to
/// an `AAAA` query.
#[derive(Debug)]
pub enum DnsQueryResult {
    Left(Vec<Ipv4>),
    Right(Vec<Ipv6>),
}

/// What a lookup looks for.
pub struct DnsLookupRequest {
    pub hostname: String,
    pub ipv6_enabled: bool,
}

/// Plans the queries of lookups that go over HTTPS and reads their answers.
#[derive(Clone, Copy, Debug)]
pub struct DohTransport {
    pub ipv6_enabled: bool,
}

/// The HTTP request that carries one query.
#[derive(Debug)]
pub struct DohRequest {
    pub method: &'static str,
    pub path: &'static str,
    pub accept: &'static str,
    pub content_type: &'static str,
    pub body: Vec<u8>,
}

/// The length in bytes of an address of the kind that a query asks for.
pub open spec fn address_len(resource_type: ResourceType) -> nat {
    match resource_type {
        ResourceType::A => 4,
        ResourceType::AAAA => 16,
    }
}

/// What an answer means: a status other than 200 is a failure that names the
/// status; otherwise every record must have the length of an address of the
/// kind asked for.
pub open spec fn answer_verdict(status: u16, records: Seq<Seq<u8>>, resource_type: ResourceType)
    -> Result<(), Error> {
    if status != 200 {
        Err(Error::DohRequestBadStatus(status))
    } else if exists|i: int|
        0 <= i < records.len() && (#[trigger] records[i]).len() != address_len(resource_type) {
        Err(Error::ProtocolErrorInvalidRecord)
    } else {
        Ok(())
    }
}

/// What a response means: a status other than 200 is a failure that names
/// the status; a body that is no whole DNS message, or that reports a
/// failure, is refused; otherwise the data of the answer records of the kind
/// asked for are the addresses, provided each has the length of one.
pub open spec fn response_outcome(status: u16, body: Seq<u8>, resource_type: ResourceType) -> Result<
    Seq<Seq<u8>>,
    Error,
> {
    if status != 200 {
        Err(Error::DohRequestBadStatus(status))
    } else {
        match response_records(body, resource_type) {
            Err(e) => Err(e),
            Ok(records) => match answer_verdict(status, records, resource_type) {
                Ok(_) => Ok(records),
                Err(e) => Err(e),
            },
        }
    }
}

/// The addresses in an answer, as byte strings in the order of its records.
pub open spec fn result_addresses(result: DnsQueryResult) -> Seq<Seq<u8>> {
    match result {
        DnsQueryResult::Left(v) => Seq::new(v@.len(), |i: int| v@[i].0@),
        DnsQueryResult::Right(v) => Seq::new(v@.len(), |i: int| v@[i].0@),
    }
}

/// The byte strings of a list of records.
pub open spec fn record_bytes(records: Seq<Vec<u8>>) -> Seq<Seq<u8>> {
    Seq::new(records.len(), |i: int| records[i]@)
}

fn ipv4_from(record: &Vec<u8>) -> (r: Option<Ipv4>)
    ensures
        match r {
            Some(a) => record@.len() == 4 && a.0@ == record@,
            None => record@.len() != 4,
        },
{
    if record.len() != 4 {
        return None;
    }
    let a: [u8; 4] = [record[0], record[1], record[2], record[3]];
    assert(a@ =~= record@);
    Some(Ipv4(a))
}

fn ipv6_from(record: &Vec<u8>) -> (r: Option<Ipv6>)
    ensures
        match r {
            Some(a) => record@.len() == 16 && a.0@ == record@,
            None => record@.len() != 16,
        },
{
    if record.len() != 16 {
        return None;
    }
    let a: [u8; 16] = [
        record[0],
        record[1],
        record[2],
        record[3],
        record[4],
        record[5],
        record[6],
        record[7],
        record[8],
        record[9],
        record[10],
        record[11],
        record[12],
        record[13],
        record[14],
        record[15],
    ];
    assert(a@ =~= record@);
    Some(Ipv6(a))
}

impl DohTransport {
    /// A transport for lookups with or without IPv6.
    pub fn new(ipv6_enabled: bool) -> (r: Self)
        ensures
            r.ipv6_enabled == ipv6_enabled,
    {
        DohTransport { ipv6_enabled }
    }

    /// Where the addresses that this transport finds come from.
    pub fn dns_source() -> (r: DnsSource)
        ensures
            r == DnsSource::DnsOverHttpsLookup,
    {
        DnsSource::DnsOverHttpsLookup
    }

    /// The record kinds to ask for, one query each.
    pub fn send_queries(&self, request: &DnsLookupRequest) -> (r: Vec<ResourceType>)
        ensures
            r@ == query_types(request.ipv6_enabled),
    {
        let mut kinds: Vec<ResourceType> = Vec::new();
        if request.ipv6_enabled {
            kinds.push(ResourceType::AAAA);
        }
        kinds.push(ResourceType::A);
        assert(kinds@ =~= query_types(request.ipv6_enabled));
        kinds
    }

    /// The HTTP request that carries the query `message`: a `POST` to the
    /// query path, with the DNS message type as what is sent and what is
    /// accepted, and the message as its body.
    pub fn request_for(message: Vec<u8>) -> (r: DohRequest)
        ensures
            r.method@ == "POST"@,
            r.path@ == "/dns-query"@,
            r.accept@ == "application/dns-message"@,
            r.content_type@ == "application/dns-message"@,
            r.body == message,
    {
        DohRequest {
            method: "POST",
            path: DOH_PATH,
            accept: DNS_MESSAGE_TYPE,
            content_type: DNS_MESSAGE_TYPE,
            body: message,
        }
    }

    /// The HTTP request that asks for the records of one kind under
    /// `hostname`. A name that cannot be written into a query is refused.
    pub fn query_for(hostname: &str, resource_type: ResourceType) -> (r: Result<DohRequest, Error>)
        ensures
            match r {
                Ok(request) => name_valid(hostname.spec_bytes()) && request.body@ == query_message(
                    DOH_REQUEST_ID,
                    hostname.spec_bytes(),
                    resource_type,
                ) && request.method@ == "POST"@ && request.path@ == "/dns-query"@
                    && request.accept@ == "application/dns-message"@ && request.content_type@
                    == "application/dns-message"@,
                Err(e) => !name_valid(hostname.spec_bytes()) && e
                    == Error::ProtocolErrorInvalidName,
            },
    {
        match create_request_with_id(DOH_REQUEST_ID, hostname, resource_type) {
            Ok(message) => Ok(Self::request_for(message)),
            Err(e) => Err(e),
        }
    }

    /// Reads the answer to one query from the HTTP status and the body of the
    /// response: the addresses of the kind asked for, in the order of the
    /// answer records.
    pub fn read_response(status: u16, body: &[u8], resource_type: ResourceType) -> (r: Result<
        DnsQueryResult,
        Error,
    >)
        ensures
            match r {
                Ok(result) => response_outcome(status, body@, resource_type) == Ok::<
                    Seq<Seq<u8>>,
                    Error,
                >(result_addresses(result)) && (match resource_type {
                    ResourceType::A => result is Left,
                    ResourceType::AAAA => result is Right,
                }),
                Err(e) => response_outcome(status, body@, resource_type) == Err::<
                    Seq<Seq<u8>>,
                    Error,
                >(e),
            },
    {
        if status != 200 {
            return Err(Error::DohRequestBadStatus(status));
        }
        match parse_response(body, resource_type) {
            Err(e) => Err(e),
            Ok(records) => Self::read_answer(status, &records, resource_type),
        }
    }

    /// Reads the answer to one query from its HTTP status and the data of its
    /// answer records. The addresses come out in the order of the records.
    pub fn read_answer(status: u16, records: &Vec<Vec<u8>>, resource_type: ResourceType) -> (r:
        Result<DnsQueryResult, Error>)
        ensures
            match r {
                Ok(result) => answer_verdict(status, record_bytes(records@), resource_type) is Ok
                    && result_addresses(result) == record_bytes(records@) && (match resource_type {
                    ResourceType::A => result is Left,
                    ResourceType::AAAA => result is Right,
                }),
                Err(e) => answer_verdict(status, record_bytes(records@), resource_type) == Err::<
                    (),
                    Error,
                >(e),
            },
    {
        if status != 200 {
            return Err(Error::DohRequestBadStatus(status));
        }
        match resource_type {
            ResourceType::A => {
                let mut out: Vec<Ipv4> = Vec::new();
                let mut i: usize = 0;
                while i < records.len()
                    invariant
                        0 <= i <= records@.len(),
                        out@.len() == i,
                        forall|j: int| 0 <= j < i ==> (#[trigger] out@[j]).0@ == records@[j]@,
                        forall|j: int| 0 <= j < i ==> (#[trigger] records@[j])@.len() == 4,
                        resource_type == ResourceType::A,
                        status == 200,
                    decreases records@.len() - i,
                {
                    match ipv4_from(&records[i]) {
                        Some(a) => {
                            out.push(a);
                        },
                        None => {
                            assert(0 <= i < record_bytes(records@).len() && record_bytes(
                                records@,
                            )[i as int].len() != address_len(resource_type));
                            return Err(Error::ProtocolErrorInvalidRecord);
                        },
                    }
                    i = i + 1;
                }
                let result = DnsQueryResult::Left(out);
                assert(result_addresses(result) =~= record_bytes(records@));
                Ok(result)
            },
            ResourceType::AAAA => {
                let mut out: Vec<Ipv6> = Vec::new();
                let mut i: usize = 0;
                while i < records.len()
                    invariant
                        0 <= i <= records@.len(),
                        out@.len() == i,
                        forall|j: int| 0 <= j < i ==> (#[trigger] out@[j]).0@ == records@[j]@,
                        forall|j: int| 0 <= j < i ==> (#[trigger] records@[j])@.len() == 16,
                        resource_type == ResourceType::AAAA,
                        status == 200,
                    decreases records@.len() - i,
                {
                    match ipv6_from(&records[i]) {
                        Some(a) => {
                            out.push(a);
                        },
                        None => {
                            assert(0 <= i < record_bytes(records@).len() && record_bytes(
                                records@,
                            )[i as int].len() != address_len(resource_type));
                            return Err(Error::ProtocolErrorInvalidRecord);
                        },
                    }
                    i = i + 1;
                }
                let result = DnsQueryResult::Right(out);
                assert(result_addresses(result) =~= record_bytes(records@));
                Ok(result)
            },
        }
    }
}

} // verus!
