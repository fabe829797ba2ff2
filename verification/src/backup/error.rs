//! The reasons for which a frame is refused.
use vstd::prelude::*;
use crate::backup::frame::{CallId, ChatId, RecipientId, StickerPackId};
use crate::text::{decimal, hex_encode, hex_text, join2, join3, u64_to_string};
use vstd::bytes::spec_u128_to_le_bytes;

verus! {

/// A fault in an account record.
#[derive(Clone, Copy, Debug, PartialEq, Eq, Structural)]
pub enum AccountDataError {
    /// The record could not be read as account data.
    Malformed,
}

/// A fault in a recipient record.
#[derive(Clone, Copy, Debug, PartialEq, Eq, Structural)]
pub enum RecipientError {
    /// A recipient with the same identifier was accepted before.
    DuplicateRecipient,
}

/// A fault in a chat item record.
#[derive(Clone, Copy, Debug, PartialEq, Eq, Structural)]
pub enum ChatItemError {
    /// The item names a chat that was not accepted before.
    NoChatForItem,
    /// The item names an author who was not accepted before.
    AuthorNotFound(RecipientId),
}

/// A fault in a chat record, or in an item of a chat.
#[derive(Clone, Copy, Debug, PartialEq, Eq, Structural)]
pub enum ChatError {
    /// A chat with the same identifier was accepted before.
    DuplicateId,
    /// The chat names a recipient who was not accepted before.
    NoRecipient(RecipientId),
    /// An item of the chat is at fault.
    ChatItem(ChatItemError),
}

/// A fault in a call record.
#[derive(Clone, Copy, Debug, PartialEq, Eq, Structural)]
pub enum CallError {
    /// A call with the same identifier was accepted before.
    DuplicateId,
}

/// A fault in the content of a sticker pack.
#[derive(Clone, Copy, Debug, PartialEq, Eq, Structural)]
pub enum StickerPackError {
    /// The record could not be read as a sticker pack.
    Malformed,
}

/// A fault in a sticker pack record.
#[derive(Clone, Copy, Debug, PartialEq, Eq, Structural)]
pub enum StickerError {
    /// The pack identifier does not have the required length.
    InvalidId,
    /// A pack with the same identifier was accepted before.
    DuplicateId(StickerPackId),
    /// The content of the pack is at fault.
    PackError(StickerPackId, StickerPackError),
}

/// A recipient record that was refused, and why.
#[derive(Clone, Copy, Debug, PartialEq, Eq, Structural)]
pub struct RecipientFrameError(pub RecipientId, pub RecipientError);

/// A chat record, or an item of that chat, that was refused, and why.
#[derive(Clone, Copy, Debug, PartialEq, Eq, Structural)]
pub struct ChatFrameError(pub ChatId, pub ChatError);

/// A call that was refused, and why.
#[derive(Clone, Copy, Debug, PartialEq, Eq, Structural)]
pub struct CallFrameError(pub CallId, pub CallError);

/// Why a frame was refused.
#[derive(Clone, Copy, Debug, PartialEq, Eq, Structural)]
pub enum ValidationError {
    /// The frame carries no record.
    EmptyFrame,
    /// An account was accepted before.
    MultipleAccountData,
    /// The account record is at fault.
    AccountData(AccountDataError),
    /// A recipient record is at fault.
    RecipientError(RecipientFrameError),
    /// A chat record or a chat item is at fault.
    ChatError(ChatFrameError),
    /// A call is at fault.
    CallError(CallFrameError),
    /// A sticker pack record is at fault.
    StickerError(StickerError),
}

/// How an identifier is shown: its kind, then its number in brackets.
pub open spec fn id_text(kind: Seq<char>, id: u64) -> Seq<char> {
    kind + "("@ + decimal(id as nat) + ")"@
}

/// How a pack identifier is shown: its sixteen bytes in hexadecimal.
pub open spec fn pack_id_text(id: StickerPackId) -> Seq<char> {
    hex_text(spec_u128_to_le_bytes(id.0))
}

fn show_id(kind: &str, id: u64) -> (r: String)
    ensures
        r@ == id_text(kind@, id),
{
    let number = u64_to_string(id);
    let mut out = join3(kind, "(", number.as_str());
    out.append(")");
    out
}

fn show_pack_id(id: StickerPackId) -> (r: String)
    ensures
        r@ == pack_id_text(id),
{
    let bytes = id.to_bytes();
    proof {
        vstd::bytes::lemma_auto_spec_u128_to_from_le_bytes();
        StickerPackId::lemma_key_injective(bytes@, spec_u128_to_le_bytes(id.0));
    }
    hex_encode(bytes.as_slice())
}

impl AccountDataError {
    /// What the message says.
    pub open spec fn spec_message(self) -> Seq<char> {
        "malformed account data"@
    }

    /// A message that is safe to log.
    pub fn message(&self) -> (r: String)
        ensures
            r@ == self.spec_message(),
    {
        String::from_str("malformed account data")
    }
}

impl RecipientError {
    /// What the message says.
    pub open spec fn spec_message(self) -> Seq<char> {
        "multiple frames with the same ID"@
    }

    /// A message that is safe to log.
    pub fn message(&self) -> (r: String)
        ensures
            r@ == self.spec_message(),
    {
        String::from_str("multiple frames with the same ID")
    }
}

impl ChatItemError {
    /// What the message says.
    pub open spec fn spec_message(self) -> Seq<char> {
        match self {
            ChatItemError::NoChatForItem => "no record for chat"@,
            ChatItemError::AuthorNotFound(id) => "no record for author "@ + id_text(
                "RecipientId"@,
                id.0,
            ),
        }
    }

    /// A message that is safe to log.
    pub fn message(&self) -> (r: String)
        ensures
            r@ == self.spec_message(),
    {
        match self {
            ChatItemError::NoChatForItem => String::from_str("no record for chat"),
            ChatItemError::AuthorNotFound(id) => {
                let shown = show_id("RecipientId", id.0);
                join2("no record for author ", shown.as_str())
            },
        }
    }
}

impl ChatError {
    /// What the message says.
    pub open spec fn spec_message(self) -> Seq<char> {
        match self {
            ChatError::DuplicateId => "multiple records with the same ID"@,
            ChatError::NoRecipient(id) => "no record for "@ + id_text("RecipientId"@, id.0),
            ChatError::ChatItem(e) => "chat item: "@ + e.spec_message(),
        }
    }

    /// A message that is safe to log.
    pub fn message(&self) -> (r: String)
        ensures
            r@ == self.spec_message(),
    {
        match self {
            ChatError::DuplicateId => String::from_str("multiple records with the same ID"),
            ChatError::NoRecipient(id) => {
                let shown = show_id("RecipientId", id.0);
                join2("no record for ", shown.as_str())
            },
            ChatError::ChatItem(e) => {
                let inner = e.message();
                join2("chat item: ", inner.as_str())
            },
        }
    }
}

impl CallError {
    /// What the message says.
    pub open spec fn spec_message(self) -> Seq<char> {
        "multiple records with the same ID"@
    }

    /// A message that is safe to log.
    pub fn message(&self) -> (r: String)
        ensures
            r@ == self.spec_message(),
    {
        String::from_str("multiple records with the same ID")
    }
}

impl StickerPackError {
    /// What the message says.
    pub open spec fn spec_message(self) -> Seq<char> {
        "malformed sticker pack"@
    }

    /// A message that is safe to log.
    pub fn message(&self) -> (r: String)
        ensures
            r@ == self.spec_message(),
    {
        String::from_str("malformed sticker pack")
    }
}

impl StickerError {
    /// What the message says.
    pub open spec fn spec_message(self) -> Seq<char> {
        match self {
            StickerError::InvalidId => "pack ID is invalid"@,
            StickerError::DuplicateId(id) => "multiple sticker packs for ID "@ + pack_id_text(id),
            StickerError::PackError(id, e) => "for pack "@ + pack_id_text(id) + ": "@
                + e.spec_message(),
        }
    }

    /// A message that is safe to log.
    pub fn message(&self) -> (r: String)
        ensures
            r@ == self.spec_message(),
    {
        match self {
            StickerError::InvalidId => String::from_str("pack ID is invalid"),
            StickerError::DuplicateId(id) => {
                let shown = show_pack_id(*id);
                join2("multiple sticker packs for ID ", shown.as_str())
            },
            StickerError::PackError(id, e) => {
                let shown = show_pack_id(*id);
                let inner = e.message();
                let mut out = join3("for pack ", shown.as_str(), ": ");
                out.append(inner.as_str());
                out
            },
        }
    }
}

impl RecipientFrameError {
    /// What the message says.
    pub open spec fn spec_message(self) -> Seq<char> {
        "recipient "@ + id_text("RecipientId"@, self.0.0) + " error: "@ + self.1.spec_message()
    }

    /// A message that is safe to log.
    pub fn message(&self) -> (r: String)
        ensures
            r@ == self.spec_message(),
    {
        let shown = show_id("RecipientId", self.0.0);
        let inner = self.1.message();
        let mut out = join3("recipient ", shown.as_str(), " error: ");
        out.append(inner.as_str());
        out
    }
}

impl ChatFrameError {
    /// What the message says.
    pub open spec fn spec_message(self) -> Seq<char> {
        "chat frame "@ + id_text("ChatId"@, self.0.0) + " error: "@ + self.1.spec_message()
    }

    /// A message that is safe to log.
    pub fn message(&self) -> (r: String)
        ensures
            r@ == self.spec_message(),
    {
        let shown = show_id("ChatId", self.0.0);
        let inner = self.1.message();
        let mut out = join3("chat frame ", shown.as_str(), " error: ");
        out.append(inner.as_str());
        out
    }
}

impl CallFrameError {
    /// What the message says.
    pub open spec fn spec_message(self) -> Seq<char> {
        "call data "@ + id_text("CallId"@, self.0.0) + " error: "@ + self.1.spec_message()
    }

    /// A message that is safe to log.
    pub fn message(&self) -> (r: String)
        ensures
            r@ == self.spec_message(),
    {
        let shown = show_id("CallId", self.0.0);
        let inner = self.1.message();
        let mut out = join3("call data ", shown.as_str(), " error: ");
        out.append(inner.as_str());
        out
    }
}

impl ValidationError {
    /// What the message says.
    pub open spec fn spec_message(self) -> Seq<char> {
        match self {
            ValidationError::EmptyFrame => "Frame.item is a oneof but has no value"@,
            ValidationError::MultipleAccountData => "multiple AccountData frames found"@,
            ValidationError::AccountData(e) => "AccountData error: "@ + e.spec_message(),
            ValidationError::RecipientError(e) => e.spec_message(),
            ValidationError::ChatError(e) => e.spec_message(),
            ValidationError::CallError(e) => e.spec_message(),
            ValidationError::StickerError(e) => e.spec_message(),
        }
    }

    /// A message that is safe to log: it names the kind of fault and the
    /// identifiers involved, never the content of a record.
    pub fn message(&self) -> (r: String)
        ensures
            r@ == self.spec_message(),
    {
        match self {
            ValidationError::EmptyFrame => String::from_str("Frame.item is a oneof but has no value"),
            ValidationError::MultipleAccountData => String::from_str(
                "multiple AccountData frames found",
            ),
            ValidationError::AccountData(e) => {
                let inner = e.message();
                join2("AccountData error: ", inner.as_str())
            },
            ValidationError::RecipientError(e) => e.message(),
            ValidationError::ChatError(e) => e.message(),
            ValidationError::CallError(e) => e.message(),
            ValidationError::StickerError(e) => e.message(),
        }
    }
}

} // verus!
