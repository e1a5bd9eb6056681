use tg::chat_list::{ChatCollection, ChatFilter, ChatSnapshot, ChatTypeKind};
use tg::content::{best_photo_size, format_duration, tdlib_type_name, FileSource, PhotoSizeSource, StickerFormatKind};
use tg::download::{build_download_filename, conflict_parts, download_report, filename_from_parts, settle_file, FileOutcome, edit_date_text, format_timestamp, numbered_name, overall_status, sanitize_filename};
use tg::extract::{extract_message_data, ContentSource, EmojiSticker};
use tg::history::{AfterBatch, Pagination};
use tg::output::{DownloadStatus, DownloadedFileResult, MessageContentDetails, MessageFileRef, MessageInfo};
use std::collections::HashMap;

fn file(id: i32, path: &str) -> FileSource {
    FileSource {
        id,
        size: 1234,
        expected_size: 1234,
        local_path: path.to_string(),
        can_be_downloaded: true,
        is_downloading_completed: !path.is_empty(),
        remote_id: format!("remote-{id}"),
        remote_unique_id: format!("unique-{id}"),
    }
}

#[test]
fn extract_audio_message_metadata() {
    let content = ContentSource::Audio {
        caption: "audio caption".to_string(),
        title: "Song".to_string(),
        performer: "Artist".to_string(),
        file_name: "track.mp3".to_string(),
        mime_type: "audio/mpeg".to_string(),
        duration: 90,
        audio: file(1, "/tmp/track.mp3"),
    };
    let extracted = extract_message_data(content);
    assert_eq!(extracted.content_type.as_deref(), Some("audio"));
    assert!(extracted.is_downloadable);
    assert_eq!(extracted.download_files.len(), 1);
    assert!(extracted.text.starts_with("[Audio:"));
    assert!(extracted.text.ends_with(']'));
    assert_ne!(extracted.text, "[Media]");
    assert_eq!(extracted.text, "[Audio: Song (1:30)]");
}

#[test]
fn extract_voice_message_metadata() {
    let content = ContentSource::VoiceNote {
        caption: "voice caption".to_string(),
        duration: 45,
        mime_type: "audio/ogg".to_string(),
        voice: file(2, "/tmp/voice.ogg"),
        is_listened: false,
    };
    let extracted = extract_message_data(content);
    assert_eq!(extracted.content_type.as_deref(), Some("voice"));
    assert!(extracted.is_downloadable);
    assert_eq!(extracted.download_files.len(), 1);
    assert_ne!(extracted.text, "[Media]");
    assert_eq!(extracted.text, "[Voice: 0:45]");
}

#[test]
fn extract_animation_message_metadata() {
    let content = ContentSource::Animation {
        caption: String::new(),
        width: 640,
        height: 480,
        duration: 12,
        file_name: "anim.mp4".to_string(),
        mime_type: "video/mp4".to_string(),
        animation: file(3, "/tmp/anim.mp4"),
        has_spoiler: false,
        is_secret: false,
    };
    let extracted = extract_message_data(content);
    assert_eq!(extracted.content_type.as_deref(), Some("animation"));
    assert!(extracted.is_downloadable);
    assert!(extracted.text.contains("640x480"));
    assert!(extracted.text.starts_with("[Animation:"));
    assert!(extracted.text.ends_with(']'));
    assert_ne!(extracted.text, "[Media]");
}

#[test]
fn extract_animated_emoji_message_metadata() {
    let content = ContentSource::AnimatedEmoji {
        emoji: "😀".to_string(),
        sticker: Some(EmojiSticker {
            width: 128,
            height: 128,
            format: StickerFormatKind::Webp,
            custom_emoji_id: Some(123456789),
            sticker: file(6, "/tmp/emoji.webp"),
        }),
        sticker_width: 128,
        sticker_height: 128,
        fitzpatrick_type: 0,
        sound: Some(file(7, "/tmp/emoji.ogg")),
    };
    let extracted = extract_message_data(content);
    assert_eq!(extracted.content_type.as_deref(), Some("emoji"));
    assert!(extracted.is_downloadable);
    assert_eq!(extracted.download_files.len(), 2);
    assert!(extracted.text.starts_with("[Emoji:"));
    assert!(extracted.text.ends_with(']'));
    assert_ne!(extracted.text, "[Unsupported]");
    assert_eq!(extracted.download_files[0].file_name.as_deref(), Some("emoji.webp"));
    assert!(!extracted.download_files[1].is_primary);
}

#[test]
fn extract_location_contact_and_poll_metadata() {
    let location = ContentSource::Location {
        coordinates: "37.77490, -122.41940".to_string(),
        latitude: 37.7749f64.to_bits(),
        longitude: (-122.4194f64).to_bits(),
        horizontal_accuracy: 10.0f64.to_bits(),
        live_period: 0,
        expires_in: 0,
        heading: 0,
        proximity_alert_radius: 0,
    };
    let location_extracted = extract_message_data(location);
    assert_eq!(location_extracted.content_type.as_deref(), Some("location"));
    assert!(!location_extracted.is_downloadable);
    assert!(location_extracted.download_files.is_empty());

    let contact = ContentSource::Contact {
        phone_number: "+15555550123".to_string(),
        first_name: "Jane".to_string(),
        last_name: "Doe".to_string(),
        vcard: String::new(),
        user_id: 99,
    };
    let contact_extracted = extract_message_data(contact);
    assert_eq!(contact_extracted.content_type.as_deref(), Some("contact"));
    assert!(!contact_extracted.is_downloadable);
    assert_eq!(contact_extracted.text, "[Contact: Jane Doe (+15555550123)]");

    let poll = ContentSource::Poll {
        question: "Best option?".to_string(),
        option_count: 1,
        total_voter_count: 1,
        is_anonymous: true,
        is_closed: false,
        is_quiz: false,
    };
    let poll_extracted = extract_message_data(poll);
    assert_eq!(poll_extracted.content_type.as_deref(), Some("poll"));
    assert!(!poll_extracted.is_downloadable);
    assert!(poll_extracted.text.starts_with("[Poll:"));
    assert!(poll_extracted.text.ends_with(']'));
}

#[test]
fn extract_photo_uses_best_variant_for_download() {
    let content = ContentSource::Photo {
        caption: String::new(),
        sizes: vec![
            PhotoSizeSource { width: 320, height: 240, photo: file(10, "/tmp/s.jpg") },
            PhotoSizeSource { width: 1920, height: 1080, photo: file(11, "/tmp/x.jpg") },
        ],
        has_spoiler: false,
        is_secret: false,
    };
    let extracted = extract_message_data(content);
    assert_eq!(extracted.download_files.len(), 1);
    assert_eq!(extracted.download_files[0].file_id, 11);
    assert!(extracted.text.starts_with("[Photo:"));
    assert!(extracted.text.ends_with(']'));
    assert_eq!(extracted.text, "[Photo: 1920x1080]");
}

#[test]
fn extract_unsupported_message_sets_content_type_and_tdlib_type() {
    let content = ContentSource::Unsupported { tdlib_type: "messageUnsupported".to_string() };
    let extracted = extract_message_data(content);
    assert_eq!(extracted.text, "[Unsupported]");
    assert_eq!(extracted.content_type.as_deref(), Some("unsupported"));
    assert!(!extracted.is_downloadable);
    if let Some(MessageContentDetails::Unsupported { tdlib_type }) = &extracted.content {
        assert_eq!(tdlib_type, "messageUnsupported");
    } else {
        panic!("expected Unsupported content details");
    }
}

#[test]
fn tdlib_type_name_extracts_camel_case_name() {
    assert_eq!(tdlib_type_name("MessageUnsupported"), "messageUnsupported");
    assert_eq!(tdlib_type_name("MessageExpiredPhoto"), "messageExpiredPhoto");
    assert_eq!(tdlib_type_name("MessageDice(MessageDice { value: 5 })"), "messageDice");
    assert_eq!(tdlib_type_name(""), "");
}

#[test]
fn extract_basic_group_chat_create() {
    let content = ContentSource::BasicGroupChatCreate {
        title: "My Group".to_string(),
        member_user_ids: vec![100, 200, 300],
    };
    let extracted = extract_message_data(content);
    assert_eq!(extracted.content_type.as_deref(), Some("group_created"));
    assert_eq!(extracted.text, "Group created: My Group");
    assert!(!extracted.is_downloadable);
    if let Some(MessageContentDetails::BasicGroupChatCreate { title, member_user_ids }) = &extracted.content {
        assert_eq!(title, "My Group");
        assert_eq!(member_user_ids, &vec![100, 200, 300]);
    } else {
        panic!("expected BasicGroupChatCreate content details");
    }
}

#[test]
fn extract_chat_add_members() {
    let content = ContentSource::ChatAddMembers { member_user_ids: vec![42, 99] };
    let extracted = extract_message_data(content);
    assert_eq!(extracted.content_type.as_deref(), Some("members_added"));
    assert!(extracted.text.contains("42"));
    assert!(extracted.text.contains("99"));
    assert!(!extracted.is_downloadable);
    assert_eq!(extracted.text, "Members added: [42, 99]");
    if let Some(MessageContentDetails::ChatAddMembers { member_user_ids }) = &extracted.content {
        assert_eq!(member_user_ids, &vec![42, 99]);
    } else {
        panic!("expected ChatAddMembers content details");
    }
}

#[test]
fn extract_expired_photo() {
    let extracted = extract_message_data(ContentSource::ExpiredPhoto);
    assert_eq!(extracted.content_type.as_deref(), Some("expired_photo"));
    assert_eq!(extracted.text, "Expired photo");
    assert!(!extracted.is_downloadable);
}

#[test]
fn extract_dice_message() {
    let content = ContentSource::Dice { emoji: "🎲".to_string(), value: 5 };
    let extracted = extract_message_data(content);
    assert_eq!(extracted.content_type.as_deref(), Some("dice"));
    assert!(extracted.text.contains("🎲"));
    assert!(extracted.text.contains("5"));
    if let Some(MessageContentDetails::Dice { emoji, value }) = &extracted.content {
        assert_eq!(emoji, "🎲");
        assert_eq!(*value, 5);
    } else {
        panic!("expected Dice content details");
    }
}

#[test]
fn empty_text_and_captions() {
    let extracted = extract_message_data(ContentSource::Text { text: String::new() });
    assert_eq!(extracted.text, "[Text]");
    let extracted = extract_message_data(ContentSource::Document {
        caption: "  ".to_string(),
        file_name: "a.pdf".to_string(),
        mime_type: String::new(),
        document: file(1, ""),
    });
    assert_eq!(extracted.text, "[Document: a.pdf]");
    assert!(extracted.download_files[0].local_path.is_none());
    assert!(extracted.download_files[0].mime_type.is_none());
    let extracted = extract_message_data(ContentSource::Call {
        is_video: true,
        discard_reason: tg::extract::CallDiscard::HungUp,
        duration: 61,
    });
    assert_eq!(extracted.text, "Video call (hung_up, 61s)");
}

#[test]
fn durations_render_as_minutes_and_seconds() {
    assert_eq!(format_duration(0), "0:00");
    assert_eq!(format_duration(90), "1:30");
    assert_eq!(format_duration(3605), "60:05");
    assert_eq!(format_duration(-5), "0:-5");
}

#[test]
fn best_photo_size_prefers_the_last_of_equal_sizes() {
    let sizes = vec![
        PhotoSizeSource { width: 10, height: 10, photo: file(1, "") },
        PhotoSizeSource { width: 10, height: 10, photo: file(2, "") },
        PhotoSizeSource { width: 5, height: 5, photo: file(3, "") },
    ];
    assert_eq!(best_photo_size(&sizes), Some(1));
    assert_eq!(best_photo_size(&vec![]), None);
}

#[test]
fn format_timestamp_returns_iso_utc() {
    assert_eq!(format_timestamp(0), "1970-01-01T00:00:00Z");
    let ts = format_timestamp(1_700_000_000);
    assert!(ts.contains('T'));
    assert!(ts.ends_with('Z'));
}

#[test]
fn edit_date_zero_maps_to_none() {
    let result: Option<String> = edit_date_text(0);
    assert_eq!(result, None);
}

#[test]
fn edit_date_positive_maps_to_some_iso8601() {
    let result = edit_date_text(1_700_000_000);
    assert!(result.is_some());
    let date_str = result.unwrap();
    assert!(date_str.contains('T'));
    assert!(date_str.ends_with('Z'));
    assert_eq!(date_str, "2023-11-14T22:13:20Z");
}

fn file_ref(file_id: i32, is_primary: bool, role: &str) -> MessageFileRef {
    MessageFileRef {
        file_id,
        is_primary,
        role: Some(role.to_string()),
        file_name: Some("clip.mp4".to_string()),
        mime_type: Some("video/mp4".to_string()),
        size_bytes: 1,
        expected_size_bytes: 1,
        local_path: None,
        remote_id: None,
        remote_unique_id: None,
        can_be_downloaded: true,
        is_downloaded: true,
    }
}

#[test]
fn build_filename_marks_primary_for_multiple_files() {
    let primary = file_ref(1, true, "main");
    let secondary = file_ref(2, false, "alt");
    let p = build_download_filename(1, 2, &primary, Some("video"), true, 1);
    let s = build_download_filename(1, 2, &secondary, Some("video"), true, 2);
    assert!(p.contains("__primary"));
    assert!(s.contains("__file2"));
    assert_eq!(p, "clip__primary.mp4");
    assert_eq!(s, "clip__file2.mp4");
}

#[test]
fn build_filename_falls_back_to_ids_and_types() {
    let mut r = file_ref(9, true, "main");
    r.file_name = None;
    r.mime_type = None;
    assert_eq!(build_download_filename(-5, 7, &r, Some("photo"), false, 1), "chat-5_message7_file9.jpg");
    r.mime_type = Some("application/pdf".to_string());
    assert_eq!(build_download_filename(-5, 7, &r, Some("photo"), false, 1), "chat-5_message7_file9.pdf");
    assert_eq!(build_download_filename(-5, 7, &file_ref_named("a/b:c"), None, false, 1), "a_b_c.mp4");
}

fn file_ref_named(name: &str) -> MessageFileRef {
    let mut r = file_ref(1, true, "main");
    r.file_name = Some(name.to_string());
    r
}

#[test]
fn sanitized_names_are_never_empty() {
    assert_eq!(sanitize_filename("  "), "download");
    assert_eq!(sanitize_filename(" re|port?.pdf "), "re_port_.pdf");
}

#[test]
fn next_available_path_adds_numbered_suffix() {
    // `file.txt` is taken: the first candidate beside it is `file (1).txt`.
    let (stem, ext) = conflict_parts("/tmp/downloads/file.txt");
    assert_eq!(numbered_name(&stem, &ext, 1), "file (1).txt");
    let (stem, ext) = conflict_parts("/tmp/downloads/file");
    assert_eq!(numbered_name(&stem, &ext, 2), "file (2)");
}

fn result_with(status: DownloadStatus) -> DownloadedFileResult {
    DownloadedFileResult {
        file_id: 1,
        is_primary: true,
        status,
        role: None,
        file_name: None,
        mime_type: None,
        size_bytes: 0,
        expected_size_bytes: 0,
        source_path: None,
        saved_path: None,
        note: None,
    }
}

#[test]
fn download_status_summarises_the_files() {
    let all = |v: Vec<DownloadStatus>| overall_status(&v.into_iter().map(result_with).collect());
    assert_eq!(
        all(vec![DownloadStatus::Downloaded, DownloadStatus::Failed, DownloadStatus::RenamedConflict]),
        DownloadStatus::Failed
    );
    assert_eq!(all(vec![DownloadStatus::Downloaded, DownloadStatus::RenamedConflict]), DownloadStatus::RenamedConflict);
    assert_eq!(
        all(vec![DownloadStatus::SkippedSameHash, DownloadStatus::SkippedSameHash]),
        DownloadStatus::SkippedSameHash
    );
    assert_eq!(all(vec![DownloadStatus::SkippedSameHash, DownloadStatus::Downloaded]), DownloadStatus::Downloaded);
}

// --- the chat-list walk, driven against an in-memory chat list ---

fn chat_snapshot(id: i64, title: &str, unread_count: i32, chat_type: ChatTypeKind) -> ChatSnapshot {
    ChatSnapshot { id, title: title.to_string(), unread_count, last_message: None, chat_type, is_bot: None }
}

fn collect(chat_ids: &[i64], chats: &HashMap<i64, ChatSnapshot>, limit: i32, filter: ChatFilter) -> Vec<i64> {
    let mut walk = ChatCollection::new(limit);
    while let Some(n) = walk.next_fetch() {
        let ids: Vec<i64> = chat_ids.iter().cloned().take(n.max(0) as usize).collect();
        let total = ids.len();
        let mut finished = false;
        for id in ids {
            if walk.claim(id) {
                if walk.offer(id, chats.get(&id).cloned(), filter) {
                    finished = true;
                    break;
                }
            }
        }
        if finished {
            break;
        }
        walk.end_round(total);
    }
    walk.into_result().iter().map(|c| c.id).collect()
}

#[test]
fn collect_filtered_chats_expands_limit_for_private_chats() {
    let chat_ids = vec![1, 2, 3, 4, 5, 6, 7];
    let mut chats = HashMap::new();
    chats.insert(1, chat_snapshot(1, "Group A", 0, ChatTypeKind::BasicGroup));
    chats.insert(2, chat_snapshot(2, "Group B", 1, ChatTypeKind::Supergroup));
    chats.insert(3, chat_snapshot(3, "Alice", 0, ChatTypeKind::Private));
    chats.insert(4, chat_snapshot(4, "Bob", 0, ChatTypeKind::Private));
    chats.insert(5, chat_snapshot(5, "Cara", 0, ChatTypeKind::Private));
    chats.insert(6, chat_snapshot(6, "Group C", 0, ChatTypeKind::BasicGroup));
    chats.insert(7, chat_snapshot(7, "Group D", 0, ChatTypeKind::Supergroup));
    assert_eq!(collect(&chat_ids, &chats, 3, ChatFilter::Private), vec![3, 4, 5]);
}

#[test]
fn collect_filtered_chats_returns_partial_when_insufficient() {
    let chat_ids = vec![10, 11, 12, 13];
    let mut chats = HashMap::new();
    chats.insert(10, chat_snapshot(10, "Group", 0, ChatTypeKind::BasicGroup));
    chats.insert(11, chat_snapshot(11, "Unread A", 2, ChatTypeKind::Private));
    chats.insert(12, chat_snapshot(12, "Read", 0, ChatTypeKind::Private));
    chats.insert(13, chat_snapshot(13, "Unread B", 1, ChatTypeKind::Supergroup));
    assert_eq!(collect(&chat_ids, &chats, 5, ChatFilter::Unread), vec![11, 13]);
}

#[test]
fn collect_filtered_chats_handles_zero_limit() {
    assert!(collect(&[1, 2, 3], &HashMap::new(), 0, ChatFilter::Groups).is_empty());
}

// --- the history walk, driven against an in-memory history (newest first) ---

fn msg(id: i64) -> MessageInfo {
    MessageInfo {
        id,
        chat_id: 1,
        sender_id: Some(1),
        sender: "Alice".to_string(),
        sender_is_bot: Some(false),
        text: format!("msg {id}"),
        date: "1h ago".to_string(),
        timestamp: id as i32,
        is_outgoing: false,
        edit_date: None,
        content_type: None,
        is_downloadable: false,
        download_files: vec![],
        content: None,
    }
}

/// Runs the walk against batches handed out in order (then empty ones).
fn collect_messages(batches: Vec<Vec<MessageInfo>>, limit: usize, until: Option<i64>) -> Vec<i64> {
    let mut batches = batches;
    let mut walk = Pagination::new();
    while let Some((_from, _n)) = walk.next_request(limit) {
        let batch = if batches.is_empty() { vec![] } else { batches.remove(0) };
        match walk.absorb(batch, limit, until) {
            AfterBatch::Continue | AfterBatch::Wait => {},
            AfterBatch::Stop => break,
        }
    }
    walk.result.iter().map(|m| m.id).collect()
}

#[test]
fn collect_messages_returns_exact_limit() {
    let ids = collect_messages(vec![vec![msg(3), msg(2), msg(1)]], 3, None);
    assert_eq!(ids, vec![3, 2, 1]);
}

#[test]
fn collect_messages_paginates_across_batches() {
    let ids = collect_messages(vec![vec![msg(10)], vec![msg(9)], vec![msg(8)]], 3, None);
    assert_eq!(ids, vec![10, 9, 8]);
}

#[test]
fn collect_messages_stops_at_limit_even_with_extra() {
    let ids = collect_messages(vec![vec![msg(5), msg(4), msg(3), msg(2), msg(1)]], 3, None);
    assert_eq!(ids.len(), 3);
}

#[test]
fn collect_messages_retries_on_empty_then_succeeds() {
    let ids = collect_messages(vec![vec![], vec![], vec![msg(1), msg(2), msg(3)]], 3, None);
    assert_eq!(ids.len(), 3);
}

#[test]
fn collect_messages_returns_partial_when_exhausted() {
    let ids = collect_messages(vec![vec![msg(2), msg(1)]], 5, None);
    assert_eq!(ids.len(), 2);
}

#[test]
fn collect_messages_deduplicates_across_pages() {
    let ids = collect_messages(vec![vec![msg(3), msg(2)], vec![msg(2), msg(1)]], 3, None);
    assert_eq!(ids, vec![3, 2, 1]);
}

#[test]
fn collect_messages_stops_at_boundary_id() {
    let ids = collect_messages(vec![vec![msg(10), msg(9), msg(8), msg(7), msg(6)]], 10, Some(7));
    assert_eq!(ids, vec![10, 9, 8, 7]);
}

#[test]
fn collect_messages_boundary_and_limit_combined() {
    let ids = collect_messages(vec![vec![msg(10), msg(9), msg(8), msg(7), msg(6), msg(5)]], 2, Some(5));
    assert_eq!(ids, vec![10, 9]);
}

#[test]
fn collect_messages_boundary_across_batches() {
    let ids = collect_messages(vec![vec![msg(10), msg(9)], vec![msg(8), msg(7), msg(6)]], 10, Some(7));
    assert_eq!(ids, vec![10, 9, 8, 7]);
}

#[test]
fn collect_messages_boundary_above_all_returns_empty() {
    let ids = collect_messages(vec![vec![msg(3), msg(2), msg(1)]], 10, Some(5));
    assert!(ids.is_empty());
}

#[test]
fn collect_messages_boundary_is_inclusive_exact_match() {
    let ids = collect_messages(vec![vec![msg(10), msg(9), msg(8), msg(7), msg(6), msg(5)]], 20, Some(7));
    assert!(ids.contains(&7), "boundary message (id=7) must be included");
    assert!(!ids.contains(&6), "message before boundary (id=6) must be excluded");
    assert_eq!(ids, vec![10, 9, 8, 7]);
}

#[test]
fn pagination_asks_from_the_oldest_message_seen() {
    let mut walk = Pagination::new();
    assert_eq!(walk.next_request(250), Some((0, 100)));
    walk.absorb(vec![msg(9), msg(8)], 250, None);
    assert_eq!(walk.next_request(250), Some((8, 100)));
    assert_eq!(walk.next_request(2), None);
}

fn extracted_with(files: Vec<MessageFileRef>) -> tg::extract::ExtractedMessageData {
    tg::extract::ExtractedMessageData {
        text: "Document".to_string(),
        content_type: Some("document".to_string()),
        is_downloadable: !files.is_empty(),
        download_files: files,
        content: None,
    }
}

#[test]
fn each_file_is_settled_by_what_happened_to_it() {
    let f = file_ref(3, true, "main");
    let failed = settle_file(&f, FileOutcome::DownloadFailed { error: tg::error::TgError::TdLib("boom".to_string()) });
    assert_eq!(failed.status, DownloadStatus::Failed);
    assert_eq!(failed.note.as_deref(), Some("TDLib error: boom"));
    assert_eq!(failed.source_path, None);
    let missing = settle_file(
        &f,
        FileOutcome::SourceMissing { size: 9, expected_size: 10, source_path: "/abs/x".to_string(), raw_source: "x".to_string() },
    );
    assert_eq!(missing.note.as_deref(), Some("Downloaded source file not found: x"));
    assert_eq!((missing.size_bytes, missing.expected_size_bytes), (9, 10));
    let same = settle_file(
        &f,
        FileOutcome::SameHash { size: 1, expected_size: 1, source_path: "/s".to_string(), saved_path: "/d".to_string() },
    );
    assert_eq!(same.status, DownloadStatus::SkippedSameHash);
    assert_eq!(same.saved_path.as_deref(), Some("/d"));
    assert_eq!(same.note.as_deref(), Some("Existing file has matching SHA256"));
    let copy = settle_file(
        &f,
        FileOutcome::CopyFailed {
            size: 1,
            expected_size: 1,
            source_path: "/s".to_string(),
            raw_source: "s".to_string(),
            raw_destination: "d".to_string(),
            error: "disk full".to_string(),
        },
    );
    assert_eq!(copy.note.as_deref(), Some("Failed to copy s to d: disk full"));
    let renamed = settle_file(
        &f,
        FileOutcome::Saved { size: 1, expected_size: 1, source_path: "/s".to_string(), saved_path: "/d (1).pdf".to_string(), renamed: true },
    );
    assert_eq!(renamed.status, DownloadStatus::RenamedConflict);
    assert_eq!(renamed.note, None);
}

#[test]
fn a_report_takes_the_status_of_its_files() {
    let report = download_report(1, 2, "/out".to_string(), extracted_with(vec![]), vec![]);
    assert_eq!(report.status, DownloadStatus::NoDownloadableMedia);
    assert!(report.files.is_empty());
    let files = vec![file_ref(1, true, "main"), file_ref(2, false, "thumbnail")];
    let outcomes = vec![
        FileOutcome::Saved { size: 1, expected_size: 1, source_path: "/a".to_string(), saved_path: "/out/a".to_string(), renamed: false },
        FileOutcome::EmptyPath { size: 0, expected_size: 5 },
    ];
    let report = download_report(1, 2, "/out".to_string(), extracted_with(files), outcomes);
    assert_eq!(report.status, DownloadStatus::Failed);
    assert_eq!(report.files.len(), 2);
    assert_eq!(report.files[1].note.as_deref(), Some("TDLib returned empty local file path"));
    assert_eq!(report.output_dir, "/out");
}

#[test]
fn a_saved_name_is_built_from_its_parts() {
    let mut f = file_ref(9, false, "main");
    f.mime_type = Some("application/pdf".to_string());
    assert_eq!(filename_from_parts("report", Some("report".to_string()), None, &f, None, true, 2), "report__file2.pdf");
    assert_eq!(filename_from_parts("a.tar", Some("a".to_string()), Some("tar".to_string()), &f, None, false, 1), "a.tar");
}

#[test]
fn a_chat_listed_twice_is_kept_once() {
    let chat_ids = vec![3, 3, 4, 3];
    let mut chats = HashMap::new();
    chats.insert(3, chat_snapshot(3, "Alice", 0, ChatTypeKind::Private));
    chats.insert(4, chat_snapshot(4, "Bob", 0, ChatTypeKind::Private));
    assert_eq!(collect(&chat_ids, &chats, 5, ChatFilter::Private), vec![3, 4]);
}
