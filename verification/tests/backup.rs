use signal_client_core::backup::error::{
    AccountDataError, CallError, CallFrameError, ChatError, ChatFrameError, ChatItemError,
    RecipientError, RecipientFrameError, StickerError, StickerPackError, ValidationError,
};
use signal_client_core::backup::frame::{
    AccountDataFrame, BackupInfo, CallFrame, CallId, ChatFrame, ChatId, ChatItemFrame, Frame,
    FrameItem, RecipientFrame, RecipientId, StickerPackFrame, StickerPackId, Timestamp,
};
use signal_client_core::backup::method::{
    Contains, IdMap, KeyExists, Method, Store, ValidateOnly,
};
use signal_client_core::backup::{BackupMeta, ConvertContext, ChatItemData, Call, RecipientData};
use signal_client_core::backup::purpose::Purpose;
use signal_client_core::backup::{contains_sticker, Backup, PartialBackup};
use signal_client_core::backup::frame::StickerId;

const TEST_ID: u64 = 22222;

fn info() -> BackupInfo {
    BackupInfo { version: 1, backup_time_ms: 1_700_000_000_000 }
}

fn account() -> FrameItem {
    FrameItem::Account(AccountDataFrame { profile_key: vec![7u8; 32] })
}

fn recipient() -> FrameItem {
    FrameItem::Recipient(RecipientFrame { id: TEST_ID })
}

fn chat() -> FrameItem {
    FrameItem::Chat(ChatFrame { id: TEST_ID, recipient_id: TEST_ID })
}

fn chat_item() -> FrameItem {
    FrameItem::ChatItem(ChatItemFrame {
        chat_id: TEST_ID,
        author_id: TEST_ID,
        date_sent_ms: 5,
        call: None,
    })
}

fn chat_item_with_call() -> FrameItem {
    FrameItem::ChatItem(ChatItemFrame {
        chat_id: TEST_ID,
        author_id: TEST_ID,
        date_sent_ms: 6,
        call: Some(CallFrame { call_id: 33333 }),
    })
}

fn chat_item_wrong_author() -> FrameItem {
    FrameItem::ChatItem(ChatItemFrame {
        chat_id: TEST_ID,
        author_id: TEST_ID + 1,
        date_sent_ms: 5,
        call: None,
    })
}

fn sticker_pack(id: Vec<u8>) -> FrameItem {
    FrameItem::StickerPack(StickerPackFrame { pack_id: id, stickers: vec![1, 2, 3] })
}

fn fake_with<M: Method>(items: Vec<FrameItem>) -> PartialBackup<M> {
    let mut backup = PartialBackup::<M>::new(info(), Purpose::RemoteBackup);
    for item in items {
        backup.add_frame_item(item).expect("can add one");
    }
    backup
}

fn fake<M: Method>() -> PartialBackup<M> {
    fake_with(vec![recipient(), chat(), chat_item(), chat_item_with_call()])
}

fn frame(item: FrameItem) -> Frame {
    Frame { item: Some(item) }
}

fn check_duplicate<M: Method>(item: FrameItem) {
    let mut partial = fake::<M>();
    let err = partial.add_frame_item(item).unwrap_err().message();
    assert!(err.contains("multiple"), "error was {err}");
}

#[test]
fn rejects_duplicate_id() {
    check_duplicate::<ValidateOnly>(recipient());
    check_duplicate::<ValidateOnly>(chat());
    check_duplicate::<ValidateOnly>(chat_item_with_call());
    check_duplicate::<Store>(recipient());
    check_duplicate::<Store>(chat());
    check_duplicate::<Store>(chat_item_with_call());
}

fn check_missing<M: Method>(mut partial: PartialBackup<M>, item: FrameItem) {
    let err = partial.add_frame(frame(item)).unwrap_err().message();
    assert!(err.contains("no record"), "error was {err}");
}

#[test]
fn rejects_missing_foreign_key() {
    check_missing(fake_with::<ValidateOnly>(vec![]), chat());
    check_missing(fake_with::<ValidateOnly>(vec![]), chat_item_with_call());
    check_missing(fake_with::<Store>(vec![]), chat());
    check_missing(fake_with::<Store>(vec![]), chat_item_with_call());
    check_missing(fake_with::<ValidateOnly>(vec![recipient()]), chat_item());
    check_missing(fake::<ValidateOnly>(), chat_item_wrong_author());
    check_missing(fake::<Store>(), chat_item_wrong_author());
}

#[test]
fn rejects_multiple_account_data() {
    let mut validator = PartialBackup::<ValidateOnly>::new(info(), Purpose::RemoteBackup);
    validator.add_frame_item(account()).expect("accepts first");
    assert_eq!(validator.add_frame_item(account()), Err(ValidationError::MultipleAccountData));
    let mut store = PartialBackup::<Store>::new(info(), Purpose::RemoteBackup);
    store.add_frame_item(account()).expect("accepts first");
    assert_eq!(store.add_frame_item(account()), Err(ValidationError::MultipleAccountData));
}

#[test]
fn empty_frame_is_refused() {
    let mut partial = PartialBackup::new_validator(info(), Purpose::DeviceTransfer);
    assert_eq!(partial.add_frame(Frame { item: None }), Err(ValidationError::EmptyFrame));
    assert_eq!(
        ValidationError::EmptyFrame.message(),
        "Frame.item is a oneof but has no value"
    );
}

#[test]
fn accepts_recipient_chat_and_item() {
    let mut partial = PartialBackup::new_store(info(), Purpose::RemoteBackup);
    assert_eq!(partial.add_frame(frame(recipient())), Ok(()));
    assert_eq!(partial.add_frame(frame(chat())), Ok(()));
    assert_eq!(partial.add_frame(frame(chat_item())), Ok(()));
    let backup = Backup::from(partial);
    let chat = backup.chats.get(&TEST_ID).expect("chat is kept");
    assert_eq!(chat.recipient, RecipientId(TEST_ID));
    assert_eq!(chat.items.len(), 1);
    assert_eq!(chat.items[0].author, RecipientId(TEST_ID));
    assert_eq!(chat.items[0].sent_at, Timestamp(5));
    assert_eq!(chat.items[0].call, None);
    assert_eq!(backup.recipients.len(), 1);
    assert!(backup.calls.is_empty());
}

#[test]
fn unknown_author_is_refused() {
    let mut partial = fake_with::<Store>(vec![recipient(), chat()]);
    let err = partial.add_frame(frame(chat_item_wrong_author())).unwrap_err();
    assert_eq!(
        err,
        ValidationError::ChatError(ChatFrameError(
            ChatId(TEST_ID),
            ChatError::ChatItem(ChatItemError::AuthorNotFound(RecipientId(TEST_ID + 1)))
        ))
    );
    assert_eq!(
        err.message(),
        "chat frame ChatId(22222) error: chat item: no record for author RecipientId(22223)"
    );
    let backup = Backup::from(partial);
    assert!(backup.chats.get(&TEST_ID).unwrap().items.is_empty());
}

#[test]
fn colliding_call_leaves_chat_untouched() {
    let mut partial = fake_with::<Store>(vec![recipient(), chat(), chat_item_with_call()]);
    let err = partial.add_frame(frame(chat_item_with_call())).unwrap_err();
    assert_eq!(
        err,
        ValidationError::CallError(CallFrameError(CallId(33333), CallError::DuplicateId))
    );
    assert_eq!(
        err.message(),
        "call data CallId(33333) error: multiple records with the same ID"
    );
    let backup = Backup::from(partial);
    assert_eq!(backup.chats.get(&TEST_ID).unwrap().items.len(), 1);
    assert_eq!(backup.calls.len(), 1);
    assert_eq!(backup.calls.get(&33333).unwrap().id, CallId(33333));
}

#[test]
fn second_account_is_refused() {
    let mut partial = PartialBackup::new_store(info(), Purpose::RemoteBackup);
    assert_eq!(partial.add_frame(frame(account())), Ok(()));
    assert_eq!(partial.add_frame(frame(recipient())), Ok(()));
    assert_eq!(partial.add_frame(frame(account())), Err(ValidationError::MultipleAccountData));
    let backup = Backup::from(partial);
    assert_eq!(backup.account_data.unwrap().profile_key, vec![7u8; 32]);
}

#[test]
fn sticker_pack_id_of_wrong_length_is_refused() {
    let mut partial = PartialBackup::new_validator(info(), Purpose::RemoteBackup);
    assert_eq!(
        partial.add_frame(frame(sticker_pack(vec![1u8; 15]))),
        Err(ValidationError::StickerError(StickerError::InvalidId))
    );
    assert_eq!(
        partial.add_frame(frame(sticker_pack(vec![1u8; 17]))),
        Err(ValidationError::StickerError(StickerError::InvalidId))
    );
    assert_eq!(partial.add_frame(frame(sticker_pack(vec![]))).unwrap_err().message(), "pack ID is invalid");
    assert_eq!(partial.add_frame(frame(sticker_pack(vec![1u8; 16]))), Ok(()));
}

#[test]
fn duplicate_sticker_pack_is_refused() {
    let id: Vec<u8> = (0u8..16).collect();
    let mut partial = PartialBackup::new_store(info(), Purpose::RemoteBackup);
    assert_eq!(partial.add_frame(frame(sticker_pack(id.clone()))), Ok(()));
    let mut other = id.clone();
    other[15] = 99;
    assert_eq!(partial.add_frame(frame(sticker_pack(other))), Ok(()));
    let err = partial.add_frame(frame(sticker_pack(id.clone()))).unwrap_err();
    let key = StickerPackId::from_bytes(&id).unwrap();
    assert_eq!(err, ValidationError::StickerError(StickerError::DuplicateId(key)));
    assert_eq!(
        err.message(),
        "multiple sticker packs for ID 000102030405060708090a0b0c0d0e0f"
    );
    let backup = Backup::from(partial);
    assert_eq!(backup.sticker_packs.len(), 2);
    assert_eq!(backup.sticker_packs.get(&key.0).unwrap().stickers, vec![1, 2, 3]);
}

#[test]
fn stickers_are_found_in_their_pack() {
    let id: Vec<u8> = vec![5u8; 16];
    let partial = fake_with::<Store>(vec![sticker_pack(id.clone())]);
    let backup = Backup::from(partial);
    let key = StickerPackId::from_bytes(&id).unwrap();
    let other = StickerPackId::from_bytes(&[6u8; 16]).unwrap();
    assert!(contains_sticker(&backup.sticker_packs, &key, &StickerId(1)));
    assert!(contains_sticker(&backup.sticker_packs, &key, &StickerId(3)));
    assert!(!contains_sticker(&backup.sticker_packs, &key, &StickerId(4)));
    assert!(!contains_sticker(&backup.sticker_packs, &other, &StickerId(1)));
}

#[test]
fn sticker_pack_id_round_trips_through_bytes() {
    let id: Vec<u8> = vec![0xff, 0, 1, 2, 3, 4, 5, 6, 7, 8, 9, 10, 11, 12, 13, 0x80];
    let key = StickerPackId::from_bytes(&id).unwrap();
    assert_eq!(key.to_bytes(), id);
    assert_eq!(StickerPackId::from_bytes(&id[..15]), None);
    assert_eq!(key.0, u128::from_le_bytes(id.clone().try_into().unwrap()));
}

#[test]
fn duplicate_errors_name_the_identifier() {
    let mut partial = fake::<ValidateOnly>();
    assert_eq!(
        partial.add_frame(frame(recipient())),
        Err(ValidationError::RecipientError(RecipientFrameError(
            RecipientId(TEST_ID),
            RecipientError::DuplicateRecipient
        )))
    );
    let err = partial.add_frame(frame(chat())).unwrap_err();
    assert_eq!(
        err,
        ValidationError::ChatError(ChatFrameError(ChatId(TEST_ID), ChatError::DuplicateId))
    );
    assert_eq!(
        err.message(),
        "chat frame ChatId(22222) error: multiple records with the same ID"
    );
    assert_eq!(
        partial.add_frame(frame(recipient())).unwrap_err().message(),
        "recipient RecipientId(22222) error: multiple frames with the same ID"
    );
}

#[test]
fn missing_references_are_named() {
    let mut partial = fake_with::<Store>(vec![recipient()]);
    let err = partial
        .add_frame(frame(FrameItem::Chat(ChatFrame { id: 1, recipient_id: 9 })))
        .unwrap_err();
    assert_eq!(
        err,
        ValidationError::ChatError(ChatFrameError(
            ChatId(1),
            ChatError::NoRecipient(RecipientId(9))
        ))
    );
    assert_eq!(err.message(), "chat frame ChatId(1) error: no record for RecipientId(9)");
    let err = partial.add_frame(frame(chat_item())).unwrap_err();
    assert_eq!(
        err,
        ValidationError::ChatError(ChatFrameError(
            ChatId(TEST_ID),
            ChatError::ChatItem(ChatItemError::NoChatForItem)
        ))
    );
    assert_eq!(
        err.message(),
        "chat frame ChatId(22222) error: chat item: no record for chat"
    );
}

fn verdicts<M: Method>(frames: Vec<Frame>) -> Vec<Result<(), ValidationError>> {
    let mut partial = PartialBackup::<M>::new(info(), Purpose::RemoteBackup);
    frames.into_iter().map(|f| partial.add_frame(f)).collect()
}

fn mixed_frames() -> Vec<Frame> {
    vec![
        frame(chat()),
        frame(recipient()),
        frame(account()),
        Frame { item: None },
        frame(chat()),
        frame(chat_item_with_call()),
        frame(chat_item_with_call()),
        frame(chat_item()),
        frame(chat_item_wrong_author()),
        frame(account()),
        frame(sticker_pack(vec![3u8; 16])),
        frame(sticker_pack(vec![3u8; 16])),
        frame(sticker_pack(vec![3u8; 4])),
        frame(recipient()),
    ]
}

#[test]
fn both_methods_give_the_same_verdicts() {
    let kept = verdicts::<Store>(mixed_frames());
    let checked = verdicts::<ValidateOnly>(mixed_frames());
    assert_eq!(kept, checked);
    let accepted: Vec<bool> = kept.iter().map(|v| v.is_ok()).collect();
    assert_eq!(
        accepted,
        vec![
            false, true, true, false, true, true, false, true, false, false, true, false, false,
            false
        ]
    );
}

#[test]
fn items_are_kept_in_arrival_order() {
    let mut partial = fake_with::<Store>(vec![
        recipient(),
        FrameItem::Recipient(RecipientFrame { id: 2 }),
        chat(),
        FrameItem::Chat(ChatFrame { id: 7, recipient_id: 2 }),
    ]);
    for (n, chat_id) in [(10u64, TEST_ID), (11, 7), (12, TEST_ID), (13, TEST_ID), (14, 7)] {
        let item = FrameItem::ChatItem(ChatItemFrame {
            chat_id,
            author_id: 2,
            date_sent_ms: n,
            call: None,
        });
        assert_eq!(partial.add_frame(frame(item)), Ok(()));
    }
    let backup = Backup::from(partial);
    let times = |id: u64| -> Vec<u64> {
        backup.chats.get(&id).unwrap().items.iter().map(|i| i.sent_at.as_millis()).collect()
    };
    assert_eq!(times(TEST_ID), vec![10, 12, 13]);
    assert_eq!(times(7), vec![11, 14]);
}

#[test]
fn chats_are_listed_in_the_order_accepted() {
    let mut partial = fake_with::<Store>(vec![recipient()]);
    for id in [9u64, 3, 7, 3, 1] {
        let _ = partial.add_frame(frame(FrameItem::Chat(ChatFrame { id, recipient_id: TEST_ID })));
    }
    let backup = Backup::from(partial);
    assert_eq!(backup.chat_order, vec![9, 3, 7, 1]);
    assert_eq!(backup.chats.len(), 4);
}

#[test]
fn context_answers_membership_by_kind_of_key() {
    let mut recipients: IdMap<RecipientData> = IdMap::new(false);
    recipients.insert(5, RecipientData { id: RecipientId(5) }).unwrap();
    let mut calls: IdMap<Call> = IdMap::new(true);
    calls.insert(6, Call { id: CallId(6) }).unwrap();
    let meta = BackupMeta { version: 2, backup_time: Timestamp(3), purpose: Purpose::DeviceTransfer };
    let context = ConvertContext { recipients: &recipients, calls: &calls, meta: &meta };
    assert!(context.contains(&RecipientId(5)));
    assert!(!context.contains(&RecipientId(6)));
    assert!(context.contains(&CallId(6)));
    assert!(!context.contains(&CallId(5)));
    assert_eq!(context.as_ref().version, 2);
    let item = ChatItemFrame { chat_id: 1, author_id: 5, date_sent_ms: 8, call: Some(CallFrame { call_id: 6 }) };
    let converted = ChatItemData::try_from_with(item, &context).unwrap();
    assert_eq!(converted.item.author, RecipientId(5));
    assert_eq!(converted.item.sent_at, Timestamp(8));
    assert_eq!(converted.item.call, Some(CallId(6)));
    assert_eq!(converted.call.unwrap().id, CallId(6));
    let stranger = ChatItemFrame { chat_id: 1, author_id: 4, date_sent_ms: 8, call: None };
    assert_eq!(
        ChatItemData::try_from_with(stranger, &context).unwrap_err(),
        ChatItemError::AuthorNotFound(RecipientId(4))
    );
}

#[test]
fn validator_keeps_no_values() {
    let partial = fake::<ValidateOnly>();
    assert_eq!(partial.meta().version, 1);
    assert_eq!(partial.meta().backup_time, Timestamp::from_millis(1_700_000_000_000));
    assert_eq!(partial.meta().purpose, Purpose::RemoteBackup);
}

#[test]
fn id_map_reports_existing_keys() {
    let mut kept: IdMap<u8> = IdMap::new(true);
    assert!(!kept.contains(4));
    assert_eq!(kept.insert(4, 1), Ok(()));
    assert!(kept.contains(4));
    assert_eq!(kept.insert(4, 2), Err(KeyExists));
    assert_eq!(kept.into_values().get(&4), Some(&1));
    let mut keys: IdMap<u8> = IdMap::new(false);
    assert_eq!(keys.insert(4, 1), Ok(()));
    assert_eq!(keys.insert(4, 1), Err(KeyExists));
    assert!(keys.contains(4));
    assert!(keys.into_values().is_empty());
    assert!(Store::keeps_values());
    assert!(!ValidateOnly::keeps_values());
}

#[test]
fn purpose_names_and_tags() {
    for name in ["device_transfer", "device-transfer", "transfer"] {
        assert_eq!(Purpose::parse(name), Some(Purpose::DeviceTransfer));
    }
    for name in ["remote_backup", "remote-backup", "backup"] {
        assert_eq!(Purpose::parse(name), Some(Purpose::RemoteBackup));
    }
    assert_eq!(Purpose::parse("Backup"), None);
    assert_eq!(Purpose::parse(""), None);
    assert_eq!(Purpose::DeviceTransfer.as_str(), "device_transfer");
    assert_eq!(Purpose::RemoteBackup.as_str(), "remote_backup");
    assert_eq!(Purpose::from_tag(0), Some(Purpose::DeviceTransfer));
    assert_eq!(Purpose::from_tag(1), Some(Purpose::RemoteBackup));
    assert_eq!(Purpose::from_tag(2), None);
    assert_eq!(Purpose::DeviceTransfer.tag(), 0);
    assert_eq!(Purpose::RemoteBackup.tag(), 1);
}

#[test]
fn messages_name_kinds_and_identifiers_only() {
    assert_eq!(
        ValidationError::MultipleAccountData.message(),
        "multiple AccountData frames found"
    );
    assert_eq!(
        ValidationError::AccountData(AccountDataError::Malformed).message(),
        "AccountData error: malformed account data"
    );
    let id = StickerPackId::from_bytes(&[0xab; 16]).unwrap();
    assert_eq!(
        ValidationError::StickerError(StickerError::PackError(id, StickerPackError::Malformed))
            .message(),
        "for pack abababababababababababababababab: malformed sticker pack"
    );
    assert_eq!(
        RecipientFrameError(RecipientId(0), RecipientError::DuplicateRecipient).message(),
        "recipient RecipientId(0) error: multiple frames with the same ID"
    );
    assert_eq!(
        CallFrameError(CallId(u64::MAX), CallError::DuplicateId).message(),
        "call data CallId(18446744073709551615) error: multiple records with the same ID"
    );
}
