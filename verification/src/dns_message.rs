//! Queries and answers in the DNS wire format.
//!
//! A query is a twelve-byte header, the name asked for as a run of
//! length-prefixed labels closed by a zero byte, the kind of record asked
//! for, and the Internet class. An answer repeats the question and adds
//! records, each with a name, a kind, a class, a lifetime and its data.
use vstd::prelude::*;
use vstd::slice::{slice_subrange, slice_to_vec};
use crate::dns::{Error, ResourceType, record_bytes};
use vstd::string::StringSliceAdditionalSpecFns;

verus! {

/// The longest label of a name, in bytes.
pub const MAX_DNS_LABEL_LEN: usize = 63;

/// The longest name, in bytes, dots included.
pub const MAX_DNS_NAME_LEN: usize = 253;

/// A number as two bytes, the high byte first.
pub open spec fn be16(n: u16) -> Seq<u8> {
    seq![(n / 256) as u8, (n % 256) as u8]
}

/// The header of a query with one question that asks for recursion.
pub open spec fn query_header(id: u16) -> Seq<u8> {
    be16(id) + seq![1u8, 0u8, 0u8, 1u8, 0u8, 0u8, 0u8, 0u8, 0u8, 0u8]
}

/// Where the first dot stands in a name, if it has one.
pub open spec fn first_dot(name: Seq<u8>) -> Option<int>
    decreases name.len(),
{
    if name.len() == 0 {
        None
    } else if name[0] == 46 {
        Some(0)
    } else {
        match first_dot(name.drop_first()) {
            Some(i) => Some(i + 1),
            None => None,
        }
    }
}

/// Whether every label of a name, the parts between its dots, has at least
/// one byte and at most sixty-three.
pub open spec fn labels_valid(name: Seq<u8>) -> bool
    decreases name.len(),
{
    match first_dot(name) {
        None => 1 <= name.len() <= 63,
        Some(i) => 0 <= i < name.len() && 1 <= i <= 63 && labels_valid(name.skip(i + 1)),
    }
}

/// Whether a name can be asked for.
pub open spec fn name_valid(name: Seq<u8>) -> bool {
    name.len() <= 253 && labels_valid(name)
}

/// A name in the wire format: each label after a byte that gives its length,
/// and a zero byte at the end.
pub open spec fn encoded_name(name: Seq<u8>) -> Seq<u8>
    decreases name.len(),
{
    match first_dot(name) {
        Some(i) if 0 <= i < name.len() => seq![i as u8] + name.take(i) + encoded_name(
            name.skip(i + 1),
        ),
        _ => seq![name.len() as u8] + name + seq![0u8],
    }
}

/// The number that stands for a kind of record.
pub open spec fn record_type_code(resource_type: ResourceType) -> u16 {
    match resource_type {
        ResourceType::A => 1,
        ResourceType::AAAA => 28,
    }
}

/// The query for the records of one kind under one name.
pub open spec fn query_message(id: u16, name: Seq<u8>, resource_type: ResourceType) -> Seq<u8> {
    query_header(id) + encoded_name(name) + be16(record_type_code(resource_type)) + be16(1)
}

/// Where the first dot of a name stands, given that none stands before the
/// place `k` and that the name ends there or has a dot there.
proof fn lemma_first_dot(name: Seq<u8>, k: int)
    requires
        0 <= k <= name.len(),
        forall|j: int| 0 <= j < k ==> name[j] != 46,
        k == name.len() || name[k] == 46,
    ensures
        first_dot(name) == (if k == name.len() {
            None
        } else {
            Some(k)
        }),
    decreases k,
{
    if k > 0 {
        let rest = name.drop_first();
        assert forall|j: int| 0 <= j < k - 1 implies rest[j] != 46 by {
            assert(rest[j] == name[j + 1]);
        }
        lemma_first_dot(rest, k - 1);
    }
}

fn push_be16(out: &mut Vec<u8>, n: u16)
    ensures
        final(out)@ == old(out)@ + be16(n),
{
    out.push((n / 256) as u8);
    out.push((n % 256) as u8);
    assert(final(out)@ =~= old(out)@ + be16(n));
}

/// Writes the query for the records of one kind under `hostname`. A name
/// that is too long, or has a label that is empty or too long, is refused.
pub fn create_request_with_id(id: u16, hostname: &str, resource_type: ResourceType) -> (r: Result<
    Vec<u8>,
    Error,
>)
    ensures
        match r {
            Ok(message) => name_valid(hostname.spec_bytes()) && message@ == query_message(
                id,
                hostname.spec_bytes(),
                resource_type,
            ),
            Err(e) => !name_valid(hostname.spec_bytes()) && e == Error::ProtocolErrorInvalidName,
        },
{
    let name = hostname.as_bytes();
    if name.len() > MAX_DNS_NAME_LEN {
        return Err(Error::ProtocolErrorInvalidName);
    }
    let mut out: Vec<u8> = Vec::new();
    push_be16(&mut out, id);
    out.push(1);
    out.push(0);
    out.push(0);
    out.push(1);
    out.push(0);
    out.push(0);
    out.push(0);
    out.push(0);
    out.push(0);
    out.push(0);
    assert(out@ =~= query_header(id));
    let mut start: usize = 0;
    let mut done = false;
    assert(name@.skip(0) =~= name@);
    while !done
        invariant
            name@ == hostname.spec_bytes(),
            start <= name@.len() <= 253,
            labels_valid(name@) == (done || labels_valid(name@.skip(start as int))),
            !done ==> out@ + encoded_name(name@.skip(start as int)) == query_header(id)
                + encoded_name(name@),
            done ==> out@ == query_header(id) + encoded_name(name@) && labels_valid(name@),
        decreases name@.len() - start + (if done { 0int } else { 1int }),
    {
        let mut end: usize = start;
        while end < name.len() && name[end] != 46
            invariant
                start <= end <= name@.len(),
                forall|j: int| start <= j < end ==> name@[j] != 46,
            decreases name@.len() - end,
        {
            end = end + 1;
        }
        let len = end - start;
        let ghost rest = name@.skip(start as int);
        proof {
            lemma_first_dot(rest, len as int);
        }
        if len == 0 || len > MAX_DNS_LABEL_LEN {
            return Err(Error::ProtocolErrorInvalidName);
        }
        let ghost before = out@;
        out.push(len as u8);
        let mut k: usize = start;
        while k < end
            invariant
                start <= k <= end <= name@.len(),
                1 <= len <= 63,
                out@ == before + seq![len as u8] + name@.subrange(start as int, k as int),
            decreases end - k,
        {
            out.push(name[k]);
            assert(name@.subrange(start as int, k + 1) =~= name@.subrange(
                start as int,
                k as int,
            ).push(name@[k as int]));
            k = k + 1;
        }
        if end == name.len() {
            out.push(0);
            proof {
                assert(name@.subrange(start as int, end as int) =~= rest);
                assert(out@ =~= before + encoded_name(rest));
            }
            done = true;
        } else {
            proof {
                assert(name@.subrange(start as int, end as int) =~= rest.take(len as int));
                assert(rest.skip(len + 1) =~= name@.skip(end + 1));
                assert(out@ + encoded_name(name@.skip(end + 1)) =~= before + encoded_name(rest));
            }
            start = end + 1;
        }
    }
    push_be16(&mut out, match resource_type {
        ResourceType::A => 1,
        ResourceType::AAAA => 28,
    });
    push_be16(&mut out, 1);
    Ok(out)
}

/// The number that two bytes of a message spell, the high byte first.
pub open spec fn be16_at(message: Seq<u8>, pos: int) -> int {
    message[pos] * 256 + message[pos + 1]
}

/// Where the name that starts at `pos` ends: after its closing zero byte, or
/// after the two bytes of a pointer to an earlier name. `None` where the
/// message breaks off or a length byte is none.
pub open spec fn name_end(message: Seq<u8>, pos: int) -> Option<int>
    decreases message.len() - pos,
{
    if pos < 0 || pos >= message.len() {
        None
    } else if message[pos] == 0 {
        Some(pos + 1)
    } else if message[pos] >= 192 {
        if pos + 2 <= message.len() {
            Some(pos + 2)
        } else {
            None
        }
    } else if message[pos] < 64 && pos + 1 + message[pos] <= message.len() {
        name_end(message, pos + 1 + message[pos])
    } else {
        None
    }
}

/// Where the questions that start at `pos` end.
pub open spec fn questions_end(message: Seq<u8>, pos: int, count: nat) -> Option<int>
    decreases count,
{
    if count == 0 {
        Some(pos)
    } else {
        match name_end(message, pos) {
            Some(p) if p + 4 <= message.len() => questions_end(message, p + 4, (count - 1) as nat),
            _ => None,
        }
    }
}

/// One record of an answer.
pub struct RecordModel {
    pub type_code: int,
    pub data: Seq<u8>,
    pub next: int,
}

/// The record that starts at `pos`, if a whole one stands there.
pub open spec fn record_at(message: Seq<u8>, pos: int) -> Option<RecordModel> {
    match name_end(message, pos) {
        Some(p) if p + 10 <= message.len() && p + 10 + be16_at(message, p + 8) <= message.len() =>
            Some(
            RecordModel {
                type_code: be16_at(message, p),
                data: message.subrange(p + 10, p + 10 + be16_at(message, p + 8)),
                next: p + 10 + be16_at(message, p + 8),
            },
        ),
        _ => None,
    }
}

/// Some records followed by those that the rest of a message gives.
pub open spec fn followed_by(found: Seq<Seq<u8>>, rest: Option<Seq<Seq<u8>>>) -> Option<
    Seq<Seq<u8>>,
> {
    match rest {
        Some(r) => Some(found + r),
        None => None,
    }
}

/// The data of the records of the kind `type_code` among the `count` records
/// that start at `pos`, in their order. `None` where a record is broken off.
pub open spec fn answers(message: Seq<u8>, pos: int, count: nat, type_code: int) -> Option<
    Seq<Seq<u8>>,
>
    decreases count,
{
    if count == 0 {
        Some(Seq::empty())
    } else {
        match record_at(message, pos) {
            None => None,
            Some(record) => followed_by(
                if record.type_code == type_code {
                    seq![record.data]
                } else {
                    Seq::empty()
                },
                answers(message, record.next, (count - 1) as nat, type_code),
            ),
        }
    }
}

/// What an answer holds for a query of one kind: a message that is broken
/// off is invalid; a response code other than zero is passed on; otherwise
/// the data of the answer records of the kind asked for, in their order.
pub open spec fn response_records(message: Seq<u8>, resource_type: ResourceType) -> Result<
    Seq<Seq<u8>>,
    Error,
> {
    if message.len() < 12 {
        Err(Error::ProtocolErrorInvalidMessage)
    } else if message[3] % 16 != 0 {
        Err(Error::RequestFailedWithErrorCode(message[3] % 16))
    } else {
        match questions_end(message, 12, be16_at(message, 4) as nat) {
            None => Err(Error::ProtocolErrorInvalidMessage),
            Some(p) => match answers(
                message,
                p,
                be16_at(message, 6) as nat,
                record_type_code(resource_type) as int,
            ) {
                None => Err(Error::ProtocolErrorInvalidMessage),
                Some(records) => Ok(records),
            },
        }
    }
}

fn read_be16(message: &[u8], pos: usize) -> (r: u16)
    requires
        pos + 2 <= message@.len(),
    ensures
        r == be16_at(message@, pos as int),
{
    let high: u16 = message[pos] as u16;
    let low: u16 = message[pos + 1] as u16;
    high * 256 + low
}

fn skip_name(message: &[u8], pos: usize) -> (r: Option<usize>)
    ensures
        match r {
            Some(p) => name_end(message@, pos as int) == Some(p as int) && p <= message@.len(),
            None => name_end(message@, pos as int) is None,
        },
{
    let mut p: usize = pos;
    loop
        invariant
            name_end(message@, pos as int) == name_end(message@, p as int),
        decreases message@.len() - p,
    {
        if p >= message.len() {
            return None;
        }
        let b = message[p];
        if b == 0 {
            return Some(p + 1);
        } else if b >= 192 {
            if message.len() - p >= 2 {
                return Some(p + 2);
            } else {
                return None;
            }
        } else if b < 64 {
            if message.len() - p <= b as usize {
                return None;
            }
            p = p + 1 + b as usize;
        } else {
            return None;
        }
    }
}

/// Reads the answer to a query of one kind: the data of the answer records
/// of that kind, in their order.
pub fn parse_response(message: &[u8], resource_type: ResourceType) -> (r: Result<Vec<Vec<u8>>, Error>)
    ensures
        match r {
            Ok(records) => response_records(message@, resource_type) == Ok::<Seq<Seq<u8>>, Error>(
                record_bytes(records@),
            ),
            Err(e) => response_records(message@, resource_type) == Err::<Seq<Seq<u8>>, Error>(e),
        },
{
    if message.len() < 12 {
        return Err(Error::ProtocolErrorInvalidMessage);
    }
    let code = message[3] % 16;
    if code != 0 {
        return Err(Error::RequestFailedWithErrorCode(code));
    }
    let question_count = read_be16(message, 4);
    let answer_count = read_be16(message, 6);
    let wanted: u16 = match resource_type {
        ResourceType::A => 1,
        ResourceType::AAAA => 28,
    };
    let mut pos: usize = 12;
    let mut i: u16 = 0;
    while i < question_count
        invariant
            i <= question_count,
            pos <= message@.len(),
            message@.len() >= 12,
            message@[3] % 16 == 0,
            question_count == be16_at(message@, 4),
            questions_end(message@, 12, question_count as nat) == questions_end(
                message@,
                pos as int,
                (question_count - i) as nat,
            ),
        decreases question_count - i,
    {
        match skip_name(message, pos) {
            Some(p) => {
                if message.len() - p < 4 {
                    return Err(Error::ProtocolErrorInvalidMessage);
                }
                pos = p + 4;
            },
            None => {
                return Err(Error::ProtocolErrorInvalidMessage);
            },
        }
        i = i + 1;
    }
    let ghost first = pos as int;
    let mut out: Vec<Vec<u8>> = Vec::new();
    let mut j: u16 = 0;
    assert(followed_by(
        record_bytes(out@),
        answers(message@, pos as int, answer_count as nat, wanted as int),
    ) == answers(message@, first, answer_count as nat, wanted as int)) by {
        assert(record_bytes(out@) =~= Seq::<Seq<u8>>::empty());
        match answers(message@, first, answer_count as nat, wanted as int) {
            Some(found) => {
                assert(Seq::<Seq<u8>>::empty() + found =~= found);
            },
            None => {},
        }
    }
    while j < answer_count
        invariant
            j <= answer_count,
            pos <= message@.len(),
            message@.len() >= 12,
            message@[3] % 16 == 0,
            question_count == be16_at(message@, 4),
            answer_count == be16_at(message@, 6),
            questions_end(message@, 12, question_count as nat) == Some(first),
            wanted == record_type_code(resource_type),
            followed_by(
                record_bytes(out@),
                answers(message@, pos as int, (answer_count - j) as nat, wanted as int),
            ) == answers(message@, first, answer_count as nat, wanted as int),
        decreases answer_count - j,
    {
        let p = match skip_name(message, pos) {
            Some(p) => p,
            None => {
                return Err(Error::ProtocolErrorInvalidMessage);
            },
        };
        if message.len() - p < 10 {
            return Err(Error::ProtocolErrorInvalidMessage);
        }
        let type_code = read_be16(message, p);
        let len = read_be16(message, p + 8) as usize;
        if message.len() - p - 10 < len {
            return Err(Error::ProtocolErrorInvalidMessage);
        }
        let ghost before = record_bytes(out@);
        let ghost record = record_at(message@, pos as int)->Some_0;
        let ghost rest = answers(message@, record.next, (answer_count - j - 1) as nat, wanted as int);
        if type_code == wanted {
            let data = slice_to_vec(slice_subrange(message, p + 10, p + 10 + len));
            out.push(data);
            proof {
                assert(record_bytes(out@) =~= before + seq![record.data]);
                match rest {
                    Some(found) => {
                        assert((before + seq![record.data]) + found =~= before + (seq![record.data]
                            + found));
                    },
                    None => {},
                }
            }
        } else {
            proof {
                match rest {
                    Some(found) => {
                        assert(Seq::<Seq<u8>>::empty() + found =~= found);
                    },
                    None => {},
                }
            }
        }
        pos = p + 10 + len;
        j = j + 1;
    }
    proof {
        assert(record_bytes(out@) + Seq::<Seq<u8>>::empty() =~= record_bytes(out@));
    }
    Ok(out)
}

} // verus!
