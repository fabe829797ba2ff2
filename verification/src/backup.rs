//! Streaming validation and assembly of a backup.
//!
//! A [`PartialBackup`] takes the frames of a backup one at a time. Each frame
//! is checked against what was accepted before it: identifiers must be new
//! within their kind and every reference must resolve. A frame that fails a
//! check is refused and leaves the backup as it was.
use vstd::prelude::*;
use std::collections::HashMap;
use std::marker::PhantomData;
use vstd::std_specs::convert::FromSpecImpl;
use crate::backup::frame::{
    AccountDataFrame, BackupInfo, CallId, ChatFrame, ChatId, ChatItemFrame, Frame, FrameItem,
    RecipientFrame, RecipientId, StickerId, StickerPackFrame, StickerPackId, Timestamp, pack_key,
};
use crate::backup::method::{Contains, IdMap, KeyExists, Method, Store, ValidateOnly};

pub mod frame;
pub mod method;
pub mod error;
pub mod purpose;
pub mod laws;

use crate::backup::error::{
    CallError, CallFrameError, ChatError, ChatFrameError, ChatItemError, RecipientError,
    RecipientFrameError, StickerError, ValidationError,
};
use crate::backup::purpose::Purpose;

verus! {

broadcast use vstd::std_specs::hash::group_hash_axioms;

/// What a backup says about itself.
#[derive(Clone, Copy, Debug)]
pub struct BackupMeta {
    /// The version of the backup format.
    pub version: u64,
    /// When the backup process started.
    pub backup_time: Timestamp,
    /// What the backup was made for.
    pub purpose: Purpose,
}

/// The account that a backup belongs to.
#[derive(Clone, Debug)]
pub struct AccountData {
    pub profile_key: Vec<u8>,
}

/// An addressable principal.
#[derive(Clone, Copy, Debug)]
pub struct RecipientData {
    pub id: RecipientId,
}

/// A call record.
#[derive(Clone, Copy, Debug)]
pub struct Call {
    pub id: CallId,
}

/// A message-like entry of a chat.
#[derive(Clone, Copy, Debug)]
pub struct ChatItemData {
    pub author: RecipientId,
    pub sent_at: Timestamp,
    pub call: Option<CallId>,
}

/// A conversation with one recipient, and its items in arrival order.
#[derive(Debug)]
pub struct ChatData {
    pub recipient: RecipientId,
    pub items: Vec<ChatItemData>,
}

/// A sticker pack and the stickers in it.
#[derive(Debug)]
pub struct StickerPack {
    pub id: StickerPackId,
    pub stickers: Vec<u32>,
}

/// A converted chat item together with the call it gave rise to, if any.
#[derive(Clone, Copy, Debug)]
pub struct MaybeWithCall {
    pub item: ChatItemData,
    pub call: Option<Call>,
}

/// Read-only access to what was accepted so far, for converting a frame whose
/// references must resolve.
pub struct ConvertContext<'a> {
    pub recipients: &'a IdMap<RecipientData>,
    pub calls: &'a IdMap<Call>,
    pub meta: &'a BackupMeta,
}

impl<'a> Contains<RecipientId> for ConvertContext<'a> {
    open spec fn spec_contains(&self, key: RecipientId) -> bool {
        self.recipients.ids().contains(key.0)
    }

    /// Whether a recipient with this identifier was accepted.
    fn contains(&self, key: &RecipientId) -> (r: bool) {
        self.recipients.contains(key.0)
    }
}

impl<'a> Contains<CallId> for ConvertContext<'a> {
    open spec fn spec_contains(&self, key: CallId) -> bool {
        self.calls.ids().contains(key.0)
    }

    /// Whether a call with this identifier was accepted.
    fn contains(&self, key: &CallId) -> (r: bool) {
        self.calls.contains(key.0)
    }
}

impl<'a> ConvertContext<'a> {
    /// The description of the backup being read.
    pub fn as_ref(&self) -> (r: &BackupMeta)
        ensures
            r == self.meta,
    {
        self.meta
    }
}

/// The chat that `frame` describes, with no items yet.
pub open spec fn chat_outcome(frame: ChatFrame, recipients: Set<u64>) -> Result<
    RecipientId,
    ChatError,
> {
    if recipients.contains(frame.recipient_id) {
        Ok(RecipientId(frame.recipient_id))
    } else {
        Err(ChatError::NoRecipient(RecipientId(frame.recipient_id)))
    }
}

/// The item that `frame` describes.
pub open spec fn chat_item_data(frame: ChatItemFrame) -> ChatItemData {
    ChatItemData {
        author: RecipientId(frame.author_id),
        sent_at: Timestamp(frame.date_sent_ms),
        call: match frame.call {
            Some(c) => Some(CallId(c.call_id)),
            None => None,
        },
    }
}

/// The item, and the call with it, that `frame` describes.
pub open spec fn chat_item_outcome(frame: ChatItemFrame, recipients: Set<u64>) -> Result<
    MaybeWithCall,
    ChatItemError,
> {
    if recipients.contains(frame.author_id) {
        Ok(
            MaybeWithCall {
                item: chat_item_data(frame),
                call: match frame.call {
                    Some(c) => Some(Call { id: CallId(c.call_id) }),
                    None => None,
                },
            },
        )
    } else {
        Err(ChatItemError::AuthorNotFound(RecipientId(frame.author_id)))
    }
}

impl ChatData {
    /// Converts a chat frame; its recipient must have been accepted before.
    pub fn try_from_with(frame: ChatFrame, recipients: &IdMap<RecipientData>) -> (r: Result<
        ChatData,
        ChatError,
    >)
        ensures
            match r {
                Ok(chat) => chat_outcome(frame, recipients.ids()) == Ok::<RecipientId, ChatError>(
                    chat.recipient,
                ) && chat.items@ == Seq::<ChatItemData>::empty(),
                Err(e) => chat_outcome(frame, recipients.ids()) == Err::<RecipientId, ChatError>(e),
            },
    {
        if recipients.contains(frame.recipient_id) {
            Ok(ChatData { recipient: RecipientId(frame.recipient_id), items: Vec::new() })
        } else {
            Err(ChatError::NoRecipient(RecipientId(frame.recipient_id)))
        }
    }
}

impl ChatItemData {
    /// Converts a chat item frame; its author must have been accepted before.
    pub fn try_from_with(frame: ChatItemFrame, context: &ConvertContext) -> (r: Result<
        MaybeWithCall,
        ChatItemError,
    >)
        ensures
            r == chat_item_outcome(frame, context.recipients.ids()),
    {
        let author = RecipientId(frame.author_id);
        if !Contains::<RecipientId>::contains(context, &author) {
            return Err(ChatItemError::AuthorNotFound(author));
        }
        let (call_id, call) = match frame.call {
            Some(c) => (Some(CallId(c.call_id)), Some(Call { id: CallId(c.call_id) })),
            None => (None, None),
        };
        Ok(
            MaybeWithCall {
                item: ChatItemData {
                    author,
                    sent_at: Timestamp::from_millis(frame.date_sent_ms),
                    call: call_id,
                },
                call,
            },
        )
    }
}

/// The identifiers by which frames are judged: everything that decides
/// whether the next frame is accepted.
pub struct BackupKeys {
    pub account: bool,
    pub recipients: Set<u64>,
    pub chats: Set<u64>,
    pub calls: Set<u64>,
    pub sticker_packs: Set<u128>,
}

/// The verdict on an account frame.
pub open spec fn account_verdict(keys: BackupKeys) -> Result<(), ValidationError> {
    if keys.account {
        Err(ValidationError::MultipleAccountData)
    } else {
        Ok(())
    }
}

/// The verdict on a recipient frame.
pub open spec fn recipient_verdict(keys: BackupKeys, frame: RecipientFrame) -> Result<
    (),
    RecipientFrameError,
> {
    if keys.recipients.contains(frame.id) {
        Err(RecipientFrameError(RecipientId(frame.id), RecipientError::DuplicateRecipient))
    } else {
        Ok(())
    }
}

/// The verdict on a chat frame.
pub open spec fn chat_verdict(keys: BackupKeys, frame: ChatFrame) -> Result<(), ChatFrameError> {
    match chat_outcome(frame, keys.recipients) {
        Err(e) => Err(ChatFrameError(ChatId(frame.id), e)),
        Ok(_) => if keys.chats.contains(frame.id) {
            Err(ChatFrameError(ChatId(frame.id), ChatError::DuplicateId))
        } else {
            Ok(())
        },
    }
}

/// The verdict on a chat item frame.
pub open spec fn chat_item_verdict(keys: BackupKeys, frame: ChatItemFrame) -> Result<
    (),
    ValidationError,
> {
    if !keys.chats.contains(frame.chat_id) {
        Err(
            ValidationError::ChatError(
                ChatFrameError(
                    ChatId(frame.chat_id),
                    ChatError::ChatItem(ChatItemError::NoChatForItem),
                ),
            ),
        )
    } else {
        match chat_item_outcome(frame, keys.recipients) {
            Err(e) => Err(
                ValidationError::ChatError(
                    ChatFrameError(ChatId(frame.chat_id), ChatError::ChatItem(e)),
                ),
            ),
            Ok(converted) => match converted.call {
                Some(call) if keys.calls.contains(call.id.0) => Err(
                    ValidationError::CallError(CallFrameError(call.id, CallError::DuplicateId)),
                ),
                _ => Ok(()),
            },
        }
    }
}

/// The verdict on a sticker pack frame.
pub open spec fn sticker_pack_verdict(keys: BackupKeys, pack_id: Seq<u8>) -> Result<
    (),
    StickerError,
> {
    if pack_id.len() != 16 {
        Err(StickerError::InvalidId)
    } else if keys.sticker_packs.contains(pack_key(pack_id)) {
        Err(StickerError::DuplicateId(StickerPackId(pack_key(pack_id))))
    } else {
        Ok(())
    }
}

/// The verdict on the record that a frame carries.
pub open spec fn item_verdict(keys: BackupKeys, item: FrameItem) -> Result<(), ValidationError> {
    match item {
        FrameItem::Account(_) => account_verdict(keys),
        FrameItem::Recipient(r) => match recipient_verdict(keys, r) {
            Ok(_) => Ok(()),
            Err(e) => Err(ValidationError::RecipientError(e)),
        },
        FrameItem::Chat(c) => match chat_verdict(keys, c) {
            Ok(_) => Ok(()),
            Err(e) => Err(ValidationError::ChatError(e)),
        },
        FrameItem::ChatItem(i) => chat_item_verdict(keys, i),
        FrameItem::StickerPack(p) => match sticker_pack_verdict(keys, p.pack_id@) {
            Ok(_) => Ok(()),
            Err(e) => Err(ValidationError::StickerError(e)),
        },
    }
}

/// The verdict on a frame: `Ok` when it is accepted, else the error that
/// refuses it.
pub open spec fn verdict(keys: BackupKeys, frame: Frame) -> Result<(), ValidationError> {
    match frame.item {
        None => Err(ValidationError::EmptyFrame),
        Some(item) => item_verdict(keys, item),
    }
}

/// The keys after an accepted record.
pub open spec fn keys_with(keys: BackupKeys, item: FrameItem) -> BackupKeys {
    match item {
        FrameItem::Account(_) => BackupKeys { account: true, ..keys },
        FrameItem::Recipient(r) => BackupKeys { recipients: keys.recipients.insert(r.id), ..keys },
        FrameItem::Chat(c) => BackupKeys { chats: keys.chats.insert(c.id), ..keys },
        FrameItem::ChatItem(i) => match i.call {
            Some(c) => BackupKeys { calls: keys.calls.insert(c.call_id), ..keys },
            None => keys,
        },
        FrameItem::StickerPack(p) => BackupKeys {
            sticker_packs: keys.sticker_packs.insert(pack_key(p.pack_id@)),
            ..keys
        },
    }
}

/// The keys after `frame` was offered: grown by an accepted frame, unchanged
/// by a refused one.
pub open spec fn keys_after(keys: BackupKeys, frame: Frame) -> BackupKeys {
    match frame.item {
        Some(item) if verdict(keys, frame) is Ok => keys_with(keys, item),
        _ => keys,
    }
}

/// The verdict on a frame that is offered again after it was accepted: the
/// error that reports its identifier as taken. A chat item without a call has
/// no identifier of its own and is accepted again.
pub open spec fn repeat_verdict(item: FrameItem) -> Result<(), ValidationError> {
    match item {
        FrameItem::Account(_) => Err(ValidationError::MultipleAccountData),
        FrameItem::Recipient(r) => Err(
            ValidationError::RecipientError(
                RecipientFrameError(RecipientId(r.id), RecipientError::DuplicateRecipient),
            ),
        ),
        FrameItem::Chat(c) => Err(
            ValidationError::ChatError(ChatFrameError(ChatId(c.id), ChatError::DuplicateId)),
        ),
        FrameItem::ChatItem(i) => match i.call {
            Some(c) => Err(
                ValidationError::CallError(
                    CallFrameError(CallId(c.call_id), CallError::DuplicateId),
                ),
            ),
            None => Ok(()),
        },
        FrameItem::StickerPack(p) => Err(
            ValidationError::StickerError(
                StickerError::DuplicateId(StickerPackId(pack_key(p.pack_id@))),
            ),
        ),
    }
}

/// What a chat holds, as a mathematical value.
pub struct ChatModel {
    pub recipient: RecipientId,
    pub items: Seq<ChatItemData>,
}

/// A backup in the making, as a mathematical value: the identifiers accepted
/// so far and the content that is kept.
pub struct BackupModel {
    pub account_seen: bool,
    pub account: Option<Seq<u8>>,
    pub recipient_ids: Set<u64>,
    pub recipients: Map<u64, RecipientData>,
    pub chats: Map<u64, ChatModel>,
    pub chat_order: Seq<u64>,
    pub call_ids: Set<u64>,
    pub calls: Map<u64, Call>,
    pub sticker_packs: Map<u128, Seq<u32>>,
}

impl BackupModel {
    /// The identifiers by which the next frame is judged.
    pub open spec fn keys(self) -> BackupKeys {
        BackupKeys {
            account: self.account_seen,
            recipients: self.recipient_ids,
            chats: self.chats.dom(),
            calls: self.call_ids,
            sticker_packs: self.sticker_packs.dom(),
        }
    }

    /// A backup into which nothing was accepted yet.
    pub open spec fn empty() -> BackupModel {
        BackupModel {
            account_seen: false,
            account: None,
            recipient_ids: Set::empty(),
            recipients: Map::empty(),
            chats: Map::empty(),
            chat_order: Seq::empty(),
            call_ids: Set::empty(),
            calls: Map::empty(),
            sticker_packs: Map::empty(),
        }
    }

    /// The backup after `item` was accepted; `retain` says whether values are
    /// kept or identifiers only.
    pub open spec fn with_item(self, item: FrameItem, retain: bool) -> BackupModel {
        match item {
            FrameItem::Account(a) => BackupModel {
                account_seen: true,
                account: if retain {
                    Some(a.profile_key@)
                } else {
                    None
                },
                ..self
            },
            FrameItem::Recipient(r) => BackupModel {
                recipient_ids: self.recipient_ids.insert(r.id),
                recipients: if retain {
                    self.recipients.insert(r.id, RecipientData { id: RecipientId(r.id) })
                } else {
                    self.recipients
                },
                ..self
            },
            FrameItem::Chat(c) => BackupModel {
                chats: self.chats.insert(
                    c.id,
                    ChatModel { recipient: RecipientId(c.recipient_id), items: Seq::empty() },
                ),
                chat_order: self.chat_order.push(c.id),
                ..self
            },
            FrameItem::ChatItem(i) => BackupModel {
                chats: if retain {
                    self.chats.insert(
                        i.chat_id,
                        ChatModel {
                            recipient: self.chats[i.chat_id].recipient,
                            items: self.chats[i.chat_id].items.push(chat_item_data(i)),
                        },
                    )
                } else {
                    self.chats
                },
                call_ids: match i.call {
                    Some(c) => self.call_ids.insert(c.call_id),
                    None => self.call_ids,
                },
                calls: match i.call {
                    Some(c) if retain => self.calls.insert(c.call_id, Call { id: CallId(c.call_id) }),
                    _ => self.calls,
                },
                ..self
            },
            FrameItem::StickerPack(p) => BackupModel {
                sticker_packs: self.sticker_packs.insert(pack_key(p.pack_id@), p.stickers@),
                ..self
            },
        }
    }

    /// The backup after `frame` was offered: grown by an accepted frame,
    /// unchanged by a refused one.
    pub open spec fn after(self, frame: Frame, retain: bool) -> BackupModel {
        match frame.item {
            Some(item) if verdict(self.keys(), frame) is Ok => self.with_item(item, retain),
            _ => self,
        }
    }

    /// The backup after each of `frames` was offered in turn.
    pub open spec fn after_all(self, frames: Seq<Frame>, retain: bool) -> BackupModel
        decreases frames.len(),
    {
        if frames.len() == 0 {
            self
        } else {
            self.after(frames[0], retain).after_all(frames.drop_first(), retain)
        }
    }

    /// The verdicts on `frames`, offered in turn.
    pub open spec fn verdicts(self, frames: Seq<Frame>, retain: bool) -> Seq<
        Result<(), ValidationError>,
    >
        decreases frames.len(),
    {
        if frames.len() == 0 {
            Seq::empty()
        } else {
            seq![verdict(self.keys(), frames[0])] + self.after(frames[0], retain).verdicts(
                frames.drop_first(),
                retain,
            )
        }
    }

    /// The items that `frames`, offered in turn, add to `chat`: those of the
    /// accepted chat item frames that name it, in arrival order.
    pub open spec fn arrivals(self, frames: Seq<Frame>, chat: u64) -> Seq<ChatItemData>
        decreases frames.len(),
    {
        if frames.len() == 0 {
            Seq::empty()
        } else {
            let rest = self.after(frames[0], true).arrivals(frames.drop_first(), chat);
            match frames[0].item {
                Some(FrameItem::ChatItem(i)) if i.chat_id == chat && verdict(
                    self.keys(),
                    frames[0],
                ) is Ok => seq![chat_item_data(i)] + rest,
                _ => rest,
            }
        }
    }
}

/// A backup in the making.
pub struct PartialBackup<M: Method> {
    meta: BackupMeta,
    account_seen: bool,
    account_data: Option<AccountData>,
    recipients: IdMap<RecipientData>,
    chats: HashMap<u64, ChatData>,
    chat_order: Vec<u64>,
    calls: IdMap<Call>,
    sticker_packs: HashMap<u128, StickerPack>,
    method: PhantomData<M>,
}

/// A complete backup, with everything that its frames held. The chats are
/// found by their identifiers; `chat_order` lists those in the order in which
/// the chats were accepted.
#[derive(Debug)]
pub struct Backup {
    pub meta: BackupMeta,
    pub account_data: Option<AccountData>,
    pub recipients: HashMap<u64, RecipientData>,
    pub chats: HashMap<u64, ChatData>,
    pub chat_order: Vec<u64>,
    pub calls: HashMap<u64, Call>,
    pub sticker_packs: HashMap<u128, StickerPack>,
}

impl<M: Method> View for PartialBackup<M> {
    type V = BackupModel;

    closed spec fn view(&self) -> BackupModel {
        BackupModel {
            account_seen: self.account_seen,
            account: match self.account_data {
                Some(a) => Some(a.profile_key@),
                None => None,
            },
            recipient_ids: self.recipients.ids(),
            recipients: self.recipients.stored(),
            chats: Map::new(
                |c: u64| self.chats@.contains_key(c),
                |c: u64| ChatModel { recipient: self.chats@[c].recipient, items: self.chats@[c].items@ },
            ),
            chat_order: self.chat_order@,
            call_ids: self.calls.ids(),
            calls: self.calls.stored(),
            sticker_packs: Map::new(
                |k: u128| self.sticker_packs@.contains_key(k),
                |k: u128| self.sticker_packs@[k].stickers@,
            ),
        }
    }
}

impl<M: Method> PartialBackup<M> {
    /// The description the backup was created with.
    pub closed spec fn spec_meta(&self) -> BackupMeta {
        self.meta
    }

    /// The invariants of a backup in the making: values are kept exactly when
    /// the method keeps them, every chat belongs to an accepted recipient,
    /// every kept item was written by one, and every pack is filed under its
    /// own identifier.
    pub closed spec fn wf(&self) -> bool {
        &&& self.recipients.wf()
        &&& self.calls.wf()
        &&& self.recipients.retaining() == M::retains()
        &&& self.calls.retaining() == M::retains()
        &&& (self.account_data is Some ==> self.account_seen)
        &&& (M::retains() && self.account_seen ==> self.account_data is Some)
        &&& (!M::retains() ==> self.account_data is None)
        &&& forall|c: u64| #[trigger]
            self.chats@.contains_key(c) ==> self.recipients.ids().contains(
                self.chats@[c].recipient.0,
            )
        &&& forall|c: u64, i: int|
            self.chats@.contains_key(c) && 0 <= i < self.chats@[c].items@.len()
                ==> self.recipients.ids().contains((#[trigger] self.chats@[c].items@[i]).author.0)
        &&& forall|c: u64| #[trigger]
            self.chats@.contains_key(c) && !M::retains() ==> self.chats@[c].items@.len() == 0
        &&& forall|k: u128| #[trigger]
            self.sticker_packs@.contains_key(k) ==> self.sticker_packs@[k].id.0 == k
        &&& self.chat_order@.no_duplicates()
        &&& forall|i: int|
            0 <= i < self.chat_order@.len() ==> self.chats@.contains_key(
                #[trigger] self.chat_order@[i],
            )
        &&& forall|c: u64| #[trigger]
            self.chats@.contains_key(c) ==> self.chat_order@.contains(c)
    }

    /// What the invariants mean for the content: every chat belongs to an
    /// accepted recipient and every kept item was written by one; where
    /// values are kept there is one for each identifier, and where they are
    /// not, none is held.
    pub proof fn lemma_references_resolve(&self)
        requires
            self.wf(),
        ensures
            forall|c: u64| #[trigger]
                self@.chats.contains_key(c) ==> self@.recipient_ids.contains(
                    self@.chats[c].recipient.0,
                ),
            forall|c: u64, i: int|
                self@.chats.contains_key(c) && 0 <= i < self@.chats[c].items.len()
                    ==> self@.recipient_ids.contains((#[trigger] self@.chats[c].items[i]).author.0),
            self@.chat_order.no_duplicates(),
            forall|c: u64| self@.chats.contains_key(c) <==> #[trigger] self@.chat_order.contains(c),
            M::retains() ==> self@.recipients.dom() == self@.recipient_ids && self@.calls.dom()
                == self@.call_ids && (self@.account is Some <==> self@.account_seen),
            !M::retains() ==> self@.recipients == Map::<u64, RecipientData>::empty() && self@.calls
                == Map::<u64, Call>::empty() && self@.account is None && forall|c: u64| #[trigger]
                self@.chats.contains_key(c) ==> self@.chats[c].items.len() == 0,
    {
        self.recipients.lemma_stored_matches_ids();
        self.calls.lemma_stored_matches_ids();
    }

    /// Starts a backup from its header record.
    pub fn new(value: BackupInfo, purpose: Purpose) -> (r: Self)
        ensures
            r.wf(),
            r@ == BackupModel::empty(),
            r.spec_meta() == (BackupMeta {
                version: value.version,
                backup_time: Timestamp(value.backup_time_ms),
                purpose,
            }),
    {
        let BackupInfo { version, backup_time_ms } = value;
        let meta = BackupMeta {
            version,
            backup_time: Timestamp::from_millis(backup_time_ms),
            purpose,
        };
        let retain = M::keeps_values();
        let r = Self {
            meta,
            account_seen: false,
            account_data: None,
            recipients: IdMap::new(retain),
            chats: HashMap::new(),
            chat_order: Vec::new(),
            calls: IdMap::new(retain),
            sticker_packs: HashMap::new(),
            method: PhantomData,
        };
        assert(r@.chats =~= Map::<u64, ChatModel>::empty());
        assert(r@.sticker_packs =~= Map::<u128, Seq<u32>>::empty());
        r
    }

    /// The description the backup was created with.
    pub fn meta(&self) -> (r: &BackupMeta)
        ensures
            *r == self.spec_meta(),
    {
        &self.meta
    }

    /// Offers one frame. An accepted frame is recorded; a refused one leaves
    /// the backup exactly as it was.
    pub fn add_frame(&mut self, frame: Frame) -> (r: Result<(), ValidationError>)
        requires
            old(self).wf(),
        ensures
            final(self).wf(),
            r == verdict(old(self)@.keys(), frame),
            final(self)@ == old(self)@.after(frame, M::retains()),
            final(self).spec_meta() == old(self).spec_meta(),
            r is Err ==> *final(self) == *old(self),
    {
        match frame.item {
            None => Err(ValidationError::EmptyFrame),
            Some(item) => self.add_frame_item(item),
        }
    }

    /// Offers the record of a frame.
    pub fn add_frame_item(&mut self, item: FrameItem) -> (r: Result<(), ValidationError>)
        requires
            old(self).wf(),
        ensures
            final(self).wf(),
            r == item_verdict(old(self)@.keys(), item),
            final(self).spec_meta() == old(self).spec_meta(),
            r is Err ==> *final(self) == *old(self),
            r is Ok ==> final(self)@ == old(self)@.with_item(item, M::retains()),
    {
        match item {
            FrameItem::Account(account_data) => self.add_account_data(account_data),
            FrameItem::Recipient(recipient) => match self.add_recipient(recipient) {
                Ok(()) => Ok(()),
                Err(e) => Err(ValidationError::RecipientError(e)),
            },
            FrameItem::Chat(chat) => match self.add_chat(chat) {
                Ok(()) => Ok(()),
                Err(e) => Err(ValidationError::ChatError(e)),
            },
            FrameItem::ChatItem(chat_item) => self.add_chat_item(chat_item),
            FrameItem::StickerPack(sticker_pack) => match self.add_sticker_pack(sticker_pack) {
                Ok(()) => Ok(()),
                Err(e) => Err(ValidationError::StickerError(e)),
            },
        }
    }

    /// Records the account; a second account is refused.
    pub fn add_account_data(&mut self, account_data: AccountDataFrame) -> (r: Result<
        (),
        ValidationError,
    >)
        requires
            old(self).wf(),
        ensures
            final(self).wf(),
            r == account_verdict(old(self)@.keys()),
            final(self).spec_meta() == old(self).spec_meta(),
            r is Err ==> *final(self) == *old(self),
            r is Ok ==> final(self)@ == old(self)@.with_item(
                FrameItem::Account(account_data),
                M::retains(),
            ),
    {
        if self.account_seen {
            return Err(ValidationError::MultipleAccountData);
        }
        self.account_seen = true;
        if M::keeps_values() {
            self.account_data = Some(AccountData { profile_key: account_data.profile_key });
        }
        Ok(())
    }

    /// Records a recipient; an identifier that is already taken is refused.
    pub fn add_recipient(&mut self, recipient: RecipientFrame) -> (r: Result<
        (),
        RecipientFrameError,
    >)
        requires
            old(self).wf(),
        ensures
            final(self).wf(),
            r == recipient_verdict(old(self)@.keys(), recipient),
            final(self).spec_meta() == old(self).spec_meta(),
            r is Err ==> *final(self) == *old(self),
            r is Ok ==> final(self)@ == old(self)@.with_item(
                FrameItem::Recipient(recipient),
                M::retains(),
            ),
    {
        let id = RecipientId(recipient.id);
        match self.recipients.insert(recipient.id, RecipientData { id }) {
            Ok(()) => Ok(()),
            Err(KeyExists) => Err(RecipientFrameError(id, RecipientError::DuplicateRecipient)),
        }
    }

    /// Records a chat; its recipient must be known and its identifier new.
    pub fn add_chat(&mut self, chat: ChatFrame) -> (r: Result<(), ChatFrameError>)
        requires
            old(self).wf(),
        ensures
            final(self).wf(),
            r == chat_verdict(old(self)@.keys(), chat),
            final(self).spec_meta() == old(self).spec_meta(),
            r is Err ==> *final(self) == *old(self),
            r is Ok ==> final(self)@ == old(self)@.with_item(FrameItem::Chat(chat), M::retains()),
    {
        let id = ChatId(chat.id);
        let data = match ChatData::try_from_with(chat, &self.recipients) {
            Ok(data) => data,
            Err(e) => {
                return Err(ChatFrameError(id, e));
            },
        };
        if self.chats.contains_key(&chat.id) {
            return Err(ChatFrameError(id, ChatError::DuplicateId));
        }
        self.chats.insert(chat.id, data);
        self.chat_order.push(chat.id);
        proof {
            let before = old(self).chat_order@;
            let after = final(self).chat_order@;
            assert(final(self)@.chats =~= old(self)@.with_item(
                FrameItem::Chat(chat),
                M::retains(),
            ).chats);
            assert(after[before.len() as int] == chat.id);
            assert forall|c: u64| #[trigger]
                final(self).chats@.contains_key(c) implies after.contains(c) by {
                if c != chat.id {
                    let i = choose|i: int| 0 <= i < before.len() && before[i] == c;
                    assert(after[i] == c);
                }
            }
        }
        Ok(())
    }

    /// Records a chat item under its chat. The chat and the author must be
    /// known, and a call that comes with the item must be new. Nothing is
    /// recorded unless all of that holds.
    pub fn add_chat_item(&mut self, chat_item: ChatItemFrame) -> (r: Result<(), ValidationError>)
        requires
            old(self).wf(),
        ensures
            final(self).wf(),
            r == chat_item_verdict(old(self)@.keys(), chat_item),
            final(self).spec_meta() == old(self).spec_meta(),
            r is Err ==> *final(self) == *old(self),
            r is Ok ==> final(self)@ == old(self)@.with_item(
                FrameItem::ChatItem(chat_item),
                M::retains(),
            ),
    {
        let chat_id = ChatId(chat_item.chat_id);
        if !self.chats.contains_key(&chat_item.chat_id) {
            return Err(
                ValidationError::ChatError(
                    ChatFrameError(chat_id, ChatError::ChatItem(ChatItemError::NoChatForItem)),
                ),
            );
        }
        let context = ConvertContext {
            recipients: &self.recipients,
            calls: &self.calls,
            meta: &self.meta,
        };
        let MaybeWithCall { item: chat_item_data, call } = match ChatItemData::try_from_with(
            chat_item,
            &context,
        ) {
            Ok(converted) => converted,
            Err(e) => {
                return Err(
                    ValidationError::ChatError(ChatFrameError(chat_id, ChatError::ChatItem(e))),
                );
            },
        };
        // State is touched only once every check has passed.
        if let Some(call) = call {
            let call_id = call.id;
            match self.calls.insert(call_id.0, call) {
                Ok(()) => {},
                Err(KeyExists) => {
                    return Err(
                        ValidationError::CallError(CallFrameError(call_id, CallError::DuplicateId)),
                    );
                },
            }
        }
        if M::keeps_values() {
            let taken = self.chats.remove(&chat_item.chat_id);
            match taken {
                Some(mut chat_data) => {
                    chat_data.items.push(chat_item_data);
                    self.chats.insert(chat_item.chat_id, chat_data);
                },
                None => {},
            }
        }
        assert(final(self)@.chats =~= old(self)@.with_item(
            FrameItem::ChatItem(chat_item),
            M::retains(),
        ).chats);
        assert(final(self).chats@.dom() =~= old(self).chats@.dom());
        Ok(())
    }

    /// Records a sticker pack; its identifier must be well formed and new.
    pub fn add_sticker_pack(&mut self, sticker_pack: StickerPackFrame) -> (r: Result<
        (),
        StickerError,
    >)
        requires
            old(self).wf(),
        ensures
            final(self).wf(),
            r == sticker_pack_verdict(old(self)@.keys(), sticker_pack.pack_id@),
            final(self).spec_meta() == old(self).spec_meta(),
            r is Err ==> *final(self) == *old(self),
            r is Ok ==> final(self)@ == old(self)@.with_item(
                FrameItem::StickerPack(sticker_pack),
                M::retains(),
            ),
    {
        let id = match StickerPackId::from_bytes(sticker_pack.pack_id.as_slice()) {
            Some(id) => id,
            None => {
                return Err(StickerError::InvalidId);
            },
        };
        if self.sticker_packs.contains_key(&id.0) {
            return Err(StickerError::DuplicateId(id));
        }
        let pack = StickerPack { id, stickers: sticker_pack.stickers };
        self.sticker_packs.insert(id.0, pack);
        assert(final(self)@.sticker_packs =~= old(self)@.with_item(
            FrameItem::StickerPack(sticker_pack),
            M::retains(),
        ).sticker_packs);
        Ok(())
    }
}

/// Whether `packs` holds the pack `pack_id` and that pack holds the sticker
/// `sticker_id`.
pub fn contains_sticker(
    packs: &HashMap<u128, StickerPack>,
    pack_id: &StickerPackId,
    sticker_id: &StickerId,
) -> (r: bool)
    ensures
        r == (packs@.contains_key(pack_id.0) && packs@[pack_id.0].stickers@.contains(sticker_id.0)),
{
    match packs.get(&pack_id.0) {
        None => false,
        Some(pack) => {
            let mut i: usize = 0;
            while i < pack.stickers.len()
                invariant
                    0 <= i <= pack.stickers@.len(),
                    forall|j: int| 0 <= j < i ==> pack.stickers@[j] != sticker_id.0,
                    packs@.contains_key(pack_id.0),
                    *pack == packs@[pack_id.0],
                decreases pack.stickers@.len() - i,
            {
                if pack.stickers[i] == sticker_id.0 {
                    assert(pack.stickers@[i as int] == sticker_id.0);
                    return true;
                }
                i = i + 1;
            }
            false
        },
    }
}

impl View for Backup {
    type V = BackupModel;

    open spec fn view(&self) -> BackupModel {
        BackupModel {
            account_seen: self.account_data is Some,
            account: match self.account_data {
                Some(a) => Some(a.profile_key@),
                None => None,
            },
            recipient_ids: self.recipients@.dom(),
            recipients: self.recipients@,
            chats: Map::new(
                |c: u64| self.chats@.contains_key(c),
                |c: u64| ChatModel { recipient: self.chats@[c].recipient, items: self.chats@[c].items@ },
            ),
            chat_order: self.chat_order@,
            call_ids: self.calls@.dom(),
            calls: self.calls@,
            sticker_packs: Map::new(
                |k: u128| self.sticker_packs@.contains_key(k),
                |k: u128| self.sticker_packs@[k].stickers@,
            ),
        }
    }
}

impl From<PartialBackup<Store>> for Backup {
    /// Completes a backup whose values were kept.
    fn from(value: PartialBackup<Store>) -> (r: Self) {
        let PartialBackup {
            meta,
            account_seen: _,
            account_data,
            recipients,
            chats,
            chat_order,
            calls,
            sticker_packs,
            method: _,
        } = value;
        Self {
            meta,
            account_data,
            recipients: recipients.into_values(),
            chats,
            chat_order,
            calls: calls.into_values(),
            sticker_packs,
        }
    }
}

impl FromSpecImpl<PartialBackup<Store>> for Backup {
    open spec fn obeys_from_spec() -> bool {
        true
    }

    open spec fn from_spec(v: PartialBackup<Store>) -> Backup {
        Backup::completed(v)
    }
}

impl Backup {
    /// The complete backup that a backup in the making turns into.
    pub closed spec fn completed(v: PartialBackup<Store>) -> Backup {
        Backup {
            meta: v.meta,
            account_data: v.account_data,
            recipients: v.recipients.spec_into_values(),
            chats: v.chats,
            chat_order: v.chat_order,
            calls: v.calls.spec_into_values(),
            sticker_packs: v.sticker_packs,
        }
    }

    /// The complete backup holds what the backup in the making held: the same
    /// description, account, recipients, chats with their items in order,
    /// calls and sticker packs.
    pub proof fn lemma_from_keeps_everything(partial: PartialBackup<Store>)
        requires
            partial.wf(),
        ensures
            Backup::completed(partial)@ == partial@,
            Backup::completed(partial).meta == partial.spec_meta(),
    {
        let b = Backup::completed(partial);
        partial.recipients.lemma_into_values();
        partial.calls.lemma_into_values();
        partial.recipients.lemma_stored_matches_ids();
        partial.calls.lemma_stored_matches_ids();
        assert(b@.chats =~= partial@.chats);
        assert(b@.sticker_packs =~= partial@.sticker_packs);
    }
}

impl PartialBackup<ValidateOnly> {
    /// Starts a backup that is only checked: identifiers are kept, values are
    /// not.
    pub fn new_validator(value: BackupInfo, purpose: Purpose) -> (r: Self)
        ensures
            r.wf(),
            r@ == BackupModel::empty(),
            r.spec_meta() == (BackupMeta {
                version: value.version,
                backup_time: Timestamp(value.backup_time_ms),
                purpose,
            }),
    {
        Self::new(value, purpose)
    }
}

impl PartialBackup<Store> {
    /// Starts a backup whose values are kept.
    pub fn new_store(value: BackupInfo, purpose: Purpose) -> (r: Self)
        ensures
            r.wf(),
            r@ == BackupModel::empty(),
            r.spec_meta() == (BackupMeta {
                version: value.version,
                backup_time: Timestamp(value.backup_time_ms),
                purpose,
            }),
    {
        Self::new(value, purpose)
    }
}

} // verus!
