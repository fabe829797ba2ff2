//! What holds of every sequence of frames.
use vstd::prelude::*;
use crate::backup::{
    BackupKeys, BackupModel, chat_item_data, chat_item_verdict, chat_verdict, keys_after,
    recipient_verdict, repeat_verdict, sticker_pack_verdict, verdict,
};
use crate::backup::error::{
    CallError, CallFrameError, ChatError, ChatFrameError, ChatItemError, RecipientError,
    RecipientFrameError, StickerError, ValidationError,
};
use crate::backup::frame::{
    AccountDataFrame, CallId, ChatFrame, ChatId, ChatItemFrame, Frame, FrameItem, RecipientFrame,
    RecipientId, StickerPackId, pack_key,
};

verus! {

/// One set of keys holds everything that another does.
pub open spec fn keys_within(a: BackupKeys, b: BackupKeys) -> bool {
    &&& a.account ==> b.account
    &&& a.recipients.subset_of(b.recipients)
    &&& a.chats.subset_of(b.chats)
    &&& a.calls.subset_of(b.calls)
    &&& a.sticker_packs.subset_of(b.sticker_packs)
}

/// The identifiers after a frame depend on the identifiers before it and on
/// the frame alone, not on whether values are kept.
pub proof fn lemma_keys_after(model: BackupModel, frame: Frame, retain: bool)
    ensures
        model.after(frame, retain).keys() == keys_after(model.keys(), frame),
        keys_within(model.keys(), model.after(frame, retain).keys()),
{
    let next = model.after(frame, retain);
    assert(next.keys().chats =~= keys_after(model.keys(), frame).chats);
    assert(next.keys().sticker_packs =~= keys_after(model.keys(), frame).sticker_packs);
}

/// Identifiers are never given up: whatever frames are offered, every
/// identifier that was accepted stays accepted.
pub proof fn lemma_keys_grow(model: BackupModel, frames: Seq<Frame>, retain: bool)
    ensures
        keys_within(model.keys(), model.after_all(frames, retain).keys()),
    decreases frames.len(),
{
    if frames.len() > 0 {
        lemma_keys_after(model, frames[0], retain);
        lemma_keys_grow(model.after(frames[0], retain), frames.drop_first(), retain);
    }
}

/// A frame that was accepted is refused when it is offered again, however
/// many frames were offered in between: a second account as such, and a
/// recipient, chat, call or sticker pack because its identifier is taken.
/// The refused frame leaves the backup as it was.
pub proof fn lemma_repeated_frame_refused(
    model: BackupModel,
    item: FrameItem,
    frames: Seq<Frame>,
    retain: bool,
)
    requires
        verdict(model.keys(), Frame { item: Some(item) }) is Ok,
    ensures
        ({
            let frame = Frame { item: Some(item) };
            let later = model.after(frame, retain).after_all(frames, retain);
            &&& verdict(later.keys(), frame) == repeat_verdict(item)
            &&& repeat_verdict(item) is Err ==> later.after(frame, retain) == later
        }),
{
    let frame = Frame { item: Some(item) };
    let first = model.after(frame, retain);
    lemma_keys_after(model, frame, retain);
    lemma_keys_grow(first, frames, retain);
}

/// At most one account is accepted: once an account frame was offered, every
/// later account frame is refused as a second one, whatever was offered in
/// between.
pub proof fn lemma_at_most_one_account(
    model: BackupModel,
    first: AccountDataFrame,
    frames: Seq<Frame>,
    second: AccountDataFrame,
    retain: bool,
)
    ensures
        verdict(
            model.after(Frame { item: Some(FrameItem::Account(first)) }, retain).after_all(
                frames,
                retain,
            ).keys(),
            Frame { item: Some(FrameItem::Account(second)) },
        ) == Err::<(), ValidationError>(ValidationError::MultipleAccountData),
{
    let frame = Frame { item: Some(FrameItem::Account(first)) };
    lemma_keys_after(model, frame, retain);
    lemma_keys_grow(model.after(frame, retain), frames, retain);
}

/// An identifier that is taken is refused for every record of its kind whose
/// references resolve: a recipient, a chat, a call that comes with a chat item,
/// and a sticker pack.
pub proof fn lemma_taken_identifier_refused(
    keys: BackupKeys,
    recipient: RecipientFrame,
    chat: ChatFrame,
    item: ChatItemFrame,
    pack_id: Seq<u8>,
)
    ensures
        keys.recipients.contains(recipient.id) ==> recipient_verdict(keys, recipient) == Err::<
            (),
            RecipientFrameError,
        >(RecipientFrameError(RecipientId(recipient.id), RecipientError::DuplicateRecipient)),
        keys.recipients.contains(chat.recipient_id) && keys.chats.contains(chat.id) ==> chat_verdict(
            keys,
            chat,
        ) == Err::<(), ChatFrameError>(ChatFrameError(ChatId(chat.id), ChatError::DuplicateId)),
        keys.chats.contains(item.chat_id) && keys.recipients.contains(item.author_id) && item.call
            is Some && keys.calls.contains(item.call->Some_0.call_id) ==> chat_item_verdict(
            keys,
            item,
        ) == Err::<(), ValidationError>(
            ValidationError::CallError(
                CallFrameError(CallId(item.call->Some_0.call_id), CallError::DuplicateId),
            ),
        ),
        pack_id.len() == 16 && keys.sticker_packs.contains(pack_key(pack_id))
            ==> sticker_pack_verdict(keys, pack_id) == Err::<(), StickerError>(
            StickerError::DuplicateId(StickerPackId(pack_key(pack_id))),
        ),
{
}

/// A chat whose recipient was not accepted before is refused.
pub proof fn lemma_chat_needs_recipient(keys: BackupKeys, chat: ChatFrame)
    requires
        !keys.recipients.contains(chat.recipient_id),
    ensures
        chat_verdict(keys, chat) == Err::<(), ChatFrameError>(
            ChatFrameError(ChatId(chat.id), ChatError::NoRecipient(RecipientId(chat.recipient_id))),
        ),
{
}

/// A chat item whose chat was not accepted before is refused.
pub proof fn lemma_chat_item_needs_chat(keys: BackupKeys, item: ChatItemFrame)
    requires
        !keys.chats.contains(item.chat_id),
    ensures
        chat_item_verdict(keys, item) == Err::<(), ValidationError>(
            ValidationError::ChatError(
                ChatFrameError(ChatId(item.chat_id), ChatError::ChatItem(ChatItemError::NoChatForItem)),
            ),
        ),
{
}

/// A chat item whose author was not accepted before is refused.
pub proof fn lemma_chat_item_needs_author(keys: BackupKeys, item: ChatItemFrame)
    requires
        keys.chats.contains(item.chat_id),
        !keys.recipients.contains(item.author_id),
    ensures
        chat_item_verdict(keys, item) == Err::<(), ValidationError>(
            ValidationError::ChatError(
                ChatFrameError(
                    ChatId(item.chat_id),
                    ChatError::ChatItem(ChatItemError::AuthorNotFound(RecipientId(item.author_id))),
                ),
            ),
        ),
{
}

/// Keeping values and keeping identifiers only give the same verdict on every
/// frame of every sequence, and the same identifiers afterwards.
pub proof fn lemma_modes_agree(store: BackupModel, validator: BackupModel, frames: Seq<Frame>)
    requires
        store.keys() == validator.keys(),
    ensures
        store.verdicts(frames, true) == validator.verdicts(frames, false),
        store.after_all(frames, true).keys() == validator.after_all(frames, false).keys(),
    decreases frames.len(),
{
    if frames.len() > 0 {
        lemma_keys_after(store, frames[0], true);
        lemma_keys_after(validator, frames[0], false);
        lemma_modes_agree(
            store.after(frames[0], true),
            validator.after(frames[0], false),
            frames.drop_first(),
        );
    }
}

/// There is one verdict for each frame offered.
pub proof fn lemma_verdicts_len(model: BackupModel, frames: Seq<Frame>, retain: bool)
    ensures
        model.verdicts(frames, retain).len() == frames.len(),
    decreases frames.len(),
{
    if frames.len() > 0 {
        lemma_verdicts_len(model.after(frames[0], retain), frames.drop_first(), retain);
    }
}

/// The items that a chat had before `frames` were offered: none if the chat
/// was not there yet.
pub open spec fn items_before(model: BackupModel, chat: u64) -> Seq<crate::backup::ChatItemData> {
    if model.chats.contains_key(chat) {
        model.chats[chat].items
    } else {
        Seq::empty()
    }
}

/// Where values are kept, the items of a chat are those it had, followed by
/// the accepted items that name it, in the order in which they arrived.
pub proof fn lemma_order_preserved(model: BackupModel, frames: Seq<Frame>, chat: u64)
    ensures
        model.after_all(frames, true).chats.contains_key(chat) ==> model.after_all(
            frames,
            true,
        ).chats[chat].items == items_before(model, chat) + model.arrivals(frames, chat),
        model.chats.contains_key(chat) ==> model.after_all(frames, true).chats.contains_key(chat),
    decreases frames.len(),
{
    if frames.len() == 0 {
        assert(items_before(model, chat) + Seq::<crate::backup::ChatItemData>::empty()
            =~= items_before(model, chat));
    } else {
        let next = model.after(frames[0], true);
        let rest = frames.drop_first();
        lemma_order_preserved(next, rest, chat);
        let last = next.after_all(rest, true);
        if last.chats.contains_key(chat) {
            match frames[0].item {
                Some(FrameItem::ChatItem(i)) if i.chat_id == chat && verdict(
                    model.keys(),
                    frames[0],
                ) is Ok => {
                    assert(items_before(next, chat) == items_before(model, chat).push(
                        chat_item_data(i),
                    ));
                    assert(items_before(model, chat).push(chat_item_data(i)) + next.arrivals(
                        rest,
                        chat,
                    ) =~= items_before(model, chat) + (seq![chat_item_data(i)] + next.arrivals(
                        rest,
                        chat,
                    )));
                },
                _ => {
                    assert(items_before(next, chat) == items_before(model, chat));
                },
            }
        }
    }
}

} // verus!
