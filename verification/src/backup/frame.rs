//! Identifiers and the decoded records that a backup stream is made of.
use vstd::prelude::*;
use vstd::bytes::{
    lemma_auto_spec_u128_to_from_le_bytes, spec_u128_from_le_bytes, spec_u128_to_le_bytes,
    u128_from_le_bytes, u128_to_le_bytes,
};

verus! {

/// Identifies a recipient within one backup.
#[derive(Clone, Copy, Debug, PartialEq, Eq, Structural, Hash)]
pub struct RecipientId(pub u64);

/// Identifies a chat within one backup.
#[derive(Clone, Copy, Debug, PartialEq, Eq, Structural, Hash)]
pub struct ChatId(pub u64);

/// Identifies a call within one backup.
#[derive(Clone, Copy, Debug, PartialEq, Eq, Structural, Hash)]
pub struct CallId(pub u64);

/// Identifies a sticker within its pack.
#[derive(Clone, Copy, Debug, PartialEq, Eq, Structural, Hash)]
pub struct StickerId(pub u32);

/// The sixteen-byte identifier of a sticker pack, held as the integer that its
/// bytes spell in little-endian order.
#[derive(Clone, Copy, Debug, PartialEq, Eq, Structural, Hash)]
pub struct StickerPackId(pub u128);

/// Number of bytes in a sticker pack identifier.
pub const STICKER_PACK_ID_LEN: usize = 16;

/// The pack identifier that sixteen bytes spell.
pub open spec fn pack_key(bytes: Seq<u8>) -> u128
    recommends
        bytes.len() == 16,
{
    spec_u128_from_le_bytes(bytes)
}

impl StickerPackId {
    /// Reads an identifier from raw bytes; only a sixteen-byte input is one.
    pub fn from_bytes(bytes: &[u8]) -> (r: Option<StickerPackId>)
        ensures
            r == (if bytes@.len() == 16 {
                Some(StickerPackId(pack_key(bytes@)))
            } else {
                None
            }),
    {
        if bytes.len() == STICKER_PACK_ID_LEN {
            Some(StickerPackId(u128_from_le_bytes(bytes)))
        } else {
            None
        }
    }

    /// The sixteen bytes of the identifier.
    pub fn to_bytes(&self) -> (r: Vec<u8>)
        ensures
            r@.len() == 16,
            pack_key(r@) == self.0,
    {
        proof {
            lemma_auto_spec_u128_to_from_le_bytes();
        }
        u128_to_le_bytes(self.0)
    }

    /// Distinct byte strings of the right length are distinct identifiers.
    pub proof fn lemma_key_injective(a: Seq<u8>, b: Seq<u8>)
        requires
            a.len() == 16,
            b.len() == 16,
            pack_key(a) == pack_key(b),
        ensures
            a == b,
    {
        lemma_auto_spec_u128_to_from_le_bytes();
        assert(spec_u128_to_le_bytes(spec_u128_from_le_bytes(a)) == a);
        assert(spec_u128_to_le_bytes(spec_u128_from_le_bytes(b)) == b);
    }
}

/// A point in time, in milliseconds since the Unix epoch.
#[derive(Clone, Copy, Debug, PartialEq, Eq, Structural)]
pub struct Timestamp(pub u64);

impl Timestamp {
    /// The time that lies `millis` milliseconds after the epoch.
    pub fn from_millis(millis: u64) -> (r: Timestamp)
        ensures
            r == Timestamp(millis),
    {
        Timestamp(millis)
    }

    /// Milliseconds since the epoch.
    pub fn as_millis(&self) -> (r: u64)
        ensures
            r == self.0,
    {
        self.0
    }
}

/// Header record of a backup stream.
#[derive(Clone, Copy, Debug)]
pub struct BackupInfo {
    pub version: u64,
    pub backup_time_ms: u64,
}

/// Account record, as decoded from the stream.
#[derive(Clone, Debug)]
pub struct AccountDataFrame {
    pub profile_key: Vec<u8>,
}

/// Recipient record, as decoded from the stream.
#[derive(Clone, Copy, Debug)]
pub struct RecipientFrame {
    pub id: u64,
}

/// Chat record, as decoded from the stream.
#[derive(Clone, Copy, Debug)]
pub struct ChatFrame {
    pub id: u64,
    pub recipient_id: u64,
}

/// Call details carried by a chat item.
#[derive(Clone, Copy, Debug)]
pub struct CallFrame {
    pub call_id: u64,
}

/// Chat item record, as decoded from the stream.
#[derive(Clone, Copy, Debug)]
pub struct ChatItemFrame {
    pub chat_id: u64,
    pub author_id: u64,
    pub date_sent_ms: u64,
    pub call: Option<CallFrame>,
}

/// Sticker pack record, as decoded from the stream.
#[derive(Clone, Debug)]
pub struct StickerPackFrame {
    pub pack_id: Vec<u8>,
    pub stickers: Vec<u32>,
}

/// The one record that a frame carries.
#[derive(Clone, Debug)]
pub enum FrameItem {
    Account(AccountDataFrame),
    Recipient(RecipientFrame),
    Chat(ChatFrame),
    ChatItem(ChatItemFrame),
    StickerPack(StickerPackFrame),
}

/// One top-level record of a backup stream; `item` is `None` when the record
/// was sent without content.
#[derive(Clone, Debug)]
pub struct Frame {
    pub item: Option<FrameItem>,
}

} // verus!
