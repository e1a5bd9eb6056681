//! The content of a message, read: for each kind of content TDLib reports,
//! its one-line summary, its content type, whether and which files can be
//! downloaded, and its structured details.

use vstd::prelude::*;
use crate::content::{
    best_photo_size, file_ref_matches, format_duration, duration_spec, format_id_list, id_list_spec,
    is_best_size, media_summary, message_file_ref, non_empty, non_empty_copy, present,
    sticker_format_debug, sticker_format_name, sticker_format_spec, FileSource, PhotoSizeSource,
    StickerFormatKind,
};
use crate::media::opt_view;
use crate::download::{edit_date_text, format_timestamp, rfc3339_utc};
use crate::output::{MessageContentDetails, MessageFileRef, MessageInfo};
use crate::text::{all_ws, concat2, concat3, concat4, concat5, i64_to_string, int_str, is_blank, owned, usize_to_string};

verus! {

/// The sticker of an animated emoji.
#[derive(Debug, Clone)]
pub struct EmojiSticker {
    pub width: i32,
    pub height: i32,
    pub format: StickerFormatKind,
    /// Set for a custom emoji.
    pub custom_emoji_id: Option<i64>,
    pub sticker: FileSource,
}

/// Why a call ended.
#[derive(Debug, Clone, Copy, PartialEq, Eq, Structural)]
pub enum CallDiscard {
    Empty,
    Missed,
    Declined,
    Disconnected,
    HungUp,
}

/// A message's content as TDLib reports it, field for field as far as it
/// is read. Coordinates are carried as IEEE-754 bit patterns, with their
/// five-decimal rendering alongside.
#[derive(Debug)]
pub enum ContentSource {
    Text { text: String },
    Photo { caption: String, sizes: Vec<PhotoSizeSource>, has_spoiler: bool, is_secret: bool },
    Video {
        caption: String,
        width: i32,
        height: i32,
        duration: i32,
        file_name: String,
        mime_type: String,
        supports_streaming: bool,
        video: FileSource,
        has_spoiler: bool,
        is_secret: bool,
    },
    Document { caption: String, file_name: String, mime_type: String, document: FileSource },
    Sticker { emoji: String, width: i32, height: i32, format: StickerFormatKind, sticker: FileSource },
    Audio {
        caption: String,
        title: String,
        performer: String,
        file_name: String,
        mime_type: String,
        duration: i32,
        audio: FileSource,
    },
    VoiceNote { caption: String, duration: i32, mime_type: String, voice: FileSource, is_listened: bool },
    Animation {
        caption: String,
        width: i32,
        height: i32,
        duration: i32,
        file_name: String,
        mime_type: String,
        animation: FileSource,
        has_spoiler: bool,
        is_secret: bool,
    },
    VideoNote { duration: i32, length: i32, video: FileSource, is_viewed: bool, is_secret: bool },
    AnimatedEmoji {
        emoji: String,
        sticker: Option<EmojiSticker>,
        sticker_width: i32,
        sticker_height: i32,
        fitzpatrick_type: i32,
        sound: Option<FileSource>,
    },
    Location {
        coordinates: String,
        latitude: u64,
        longitude: u64,
        horizontal_accuracy: u64,
        live_period: i32,
        expires_in: i32,
        heading: i32,
        proximity_alert_radius: i32,
    },
    Contact { phone_number: String, first_name: String, last_name: String, vcard: String, user_id: i64 },
    Poll {
        question: String,
        option_count: usize,
        total_voter_count: i32,
        is_anonymous: bool,
        is_closed: bool,
        is_quiz: bool,
    },
    Call { is_video: bool, discard_reason: CallDiscard, duration: i32 },
    ContactRegistered,
    Venue { title: String, address: String, latitude: u64, longitude: u64, provider: String },
    PinMessage { message_id: i64 },
    GiftedPremium { gifter_user_id: i64, currency: String, amount: i64, month_count: i32 },
    Dice { emoji: String, value: i32 },
    Game { title: String, short_name: String, description: String },
    Story { story_sender_chat_id: i64, story_id: i32, via_mention: bool },
    Invoice { title: String, currency: String, total_amount: i64, is_test: bool },
    VideoChatScheduled { group_call_id: i32, start_date: i32 },
    VideoChatStarted { group_call_id: i32 },
    VideoChatEnded { duration: i32 },
    InviteVideoChatParticipants { group_call_id: i32, user_ids: Vec<i64> },
    BasicGroupChatCreate { title: String, member_user_ids: Vec<i64> },
    SupergroupChatCreate { title: String },
    ChatChangeTitle { title: String },
    ChatChangePhoto,
    ChatDeletePhoto,
    ChatAddMembers { member_user_ids: Vec<i64> },
    ChatJoinByLink,
    ChatJoinByRequest,
    ChatDeleteMember { user_id: i64 },
    ChatUpgradeTo { supergroup_id: i64 },
    ChatUpgradeFrom { title: String, basic_group_id: i64 },
    ScreenshotTaken,
    ChatSetBackground { old_background_message_id: i64, only_for_self: bool },
    ChatSetTheme { theme_name: String },
    ChatSetMessageAutoDeleteTime { message_auto_delete_time: i32, from_user_id: i64 },
    ChatBoost { boost_count: i32 },
    ForumTopicCreated { name: String },
    ForumTopicEdited { name: String, edit_icon_custom_emoji_id: bool, icon_custom_emoji_id: i64 },
    ForumTopicIsClosedToggled { is_closed: bool },
    ForumTopicIsHiddenToggled { is_hidden: bool },
    SuggestProfilePhoto,
    CustomServiceAction { text: String },
    GameScore { game_message_id: i64, game_id: i64, score: i32 },
    PaymentSuccessful {
        invoice_chat_id: i64,
        invoice_message_id: i64,
        currency: String,
        total_amount: i64,
        is_recurring: bool,
        invoice_name: String,
    },
    PremiumGiftCode {
        is_from_giveaway: bool,
        is_unclaimed: bool,
        currency: String,
        amount: i64,
        month_count: i32,
        code: String,
    },
    GiveawayCreated,
    Giveaway { winner_count: i32, month_count: i32 },
    GiveawayCompleted { giveaway_message_id: i64, winner_count: i32, unclaimed_prize_count: i32 },
    GiveawayWinners {
        boosted_chat_id: i64,
        giveaway_message_id: i64,
        winner_count: i32,
        winner_user_ids: Vec<i64>,
        unclaimed_prize_count: i32,
    },
    UsersShared { user_count: usize, button_id: i32 },
    ChatShared { button_id: i32 },
    BotWriteAccessAllowed,
    WebAppDataSent { button_text: String },
    PassportDataSent,
    ProximityAlertTriggered { distance: i32 },
    ExpiredPhoto,
    ExpiredVideo,
    ExpiredVideoNote,
    ExpiredVoiceNote,
    /// Any other content, by its TDLib type name.
    Unsupported { tdlib_type: String },
}

/// What is read of a message's content.
#[derive(Debug)]
pub struct ExtractedMessageData {
    pub text: String,
    pub content_type: Option<String>,
    pub is_downloadable: bool,
    pub download_files: Vec<MessageFileRef>,
    pub content: Option<MessageContentDetails>,
}

/// A value's view, unless it is only whitespace.
pub open spec fn pv(s: String) -> Option<Seq<char>> {
    if all_ws(s@) { None } else { Some(s@) }
}

/// The size a photo is downloaded in.
pub open spec fn best_index(sizes: Seq<PhotoSizeSource>) -> Option<int> {
    if sizes.len() == 0 { None } else { Some(choose|i: int| is_best_size(sizes, i)) }
}

proof fn lemma_best_unique(sizes: Seq<PhotoSizeSource>, i: int, k: int)
    requires
        is_best_size(sizes, i),
        is_best_size(sizes, k),
    ensures
        i == k,
{
    if i < k {
        assert(!crate::content::key_lt(crate::content::size_key(sizes[k]), crate::content::size_key(sizes[i])));
    } else if k < i {
        assert(!crate::content::key_lt(crate::content::size_key(sizes[i]), crate::content::size_key(sizes[k])));
    }
}

pub open spec fn full_name(first: String, last: String) -> Seq<char> {
    if last@.len() == 0 { first@ } else { first@ + " "@ + last@ }
}

pub open spec fn discard_spec(d: CallDiscard) -> Seq<char> {
    match d {
        CallDiscard::Empty => "unknown"@,
        CallDiscard::Missed => "missed"@,
        CallDiscard::Declined => "declined"@,
        CallDiscard::Disconnected => "disconnected"@,
        CallDiscard::HungUp => "hung_up"@,
    }
}

pub open spec fn bracket(s: Seq<char>) -> Seq<char> {
    "["@ + s + "]"@
}

/// The content type each kind of content is reported as.
pub open spec fn content_type_spec(c: ContentSource) -> Seq<char> {
    match c {
        ContentSource::Text { .. } => "text"@,
        ContentSource::Photo { .. } => "photo"@,
        ContentSource::Video { .. } => "video"@,
        ContentSource::Document { .. } => "document"@,
        ContentSource::Sticker { .. } => "sticker"@,
        ContentSource::Audio { .. } => "audio"@,
        ContentSource::VoiceNote { .. } => "voice"@,
        ContentSource::Animation { .. } => "animation"@,
        ContentSource::VideoNote { .. } => "video_note"@,
        ContentSource::AnimatedEmoji { .. } => "emoji"@,
        ContentSource::Location { .. } => "location"@,
        ContentSource::Contact { .. } => "contact"@,
        ContentSource::Poll { .. } => "poll"@,
        ContentSource::Call { .. } => "call"@,
        ContentSource::ContactRegistered => "contact_registered"@,
        ContentSource::Venue { .. } => "venue"@,
        ContentSource::PinMessage { .. } => "pin_message"@,
        ContentSource::GiftedPremium { .. } => "gifted_premium"@,
        ContentSource::Dice { .. } => "dice"@,
        ContentSource::Game { .. } => "game"@,
        ContentSource::Story { .. } => "story"@,
        ContentSource::Invoice { .. } => "invoice"@,
        ContentSource::VideoChatScheduled { .. } => "video_chat_scheduled"@,
        ContentSource::VideoChatStarted { .. } => "video_chat_started"@,
        ContentSource::VideoChatEnded { .. } => "video_chat_ended"@,
        ContentSource::InviteVideoChatParticipants { .. } => "invite_video_chat_participants"@,
        ContentSource::BasicGroupChatCreate { .. } => "group_created"@,
        ContentSource::SupergroupChatCreate { .. } => "supergroup_created"@,
        ContentSource::ChatChangeTitle { .. } => "chat_change_title"@,
        ContentSource::ChatChangePhoto => "chat_change_photo"@,
        ContentSource::ChatDeletePhoto => "chat_delete_photo"@,
        ContentSource::ChatAddMembers { .. } => "members_added"@,
        ContentSource::ChatJoinByLink => "chat_join_by_link"@,
        ContentSource::ChatJoinByRequest => "chat_join_by_request"@,
        ContentSource::ChatDeleteMember { .. } => "chat_delete_member"@,
        ContentSource::ChatUpgradeTo { .. } => "chat_upgrade_to"@,
        ContentSource::ChatUpgradeFrom { .. } => "chat_upgrade_from"@,
        ContentSource::ScreenshotTaken => "screenshot_taken"@,
        ContentSource::ChatSetBackground { .. } => "chat_set_background"@,
        ContentSource::ChatSetTheme { .. } => "chat_set_theme"@,
        ContentSource::ChatSetMessageAutoDeleteTime { .. } => "chat_set_message_auto_delete_time"@,
        ContentSource::ChatBoost { .. } => "chat_boost"@,
        ContentSource::ForumTopicCreated { .. } => "forum_topic_created"@,
        ContentSource::ForumTopicEdited { .. } => "forum_topic_edited"@,
        ContentSource::ForumTopicIsClosedToggled { .. } => "forum_topic_is_closed_toggled"@,
        ContentSource::ForumTopicIsHiddenToggled { .. } => "forum_topic_is_hidden_toggled"@,
        ContentSource::SuggestProfilePhoto => "suggest_profile_photo"@,
        ContentSource::CustomServiceAction { .. } => "custom_service_action"@,
        ContentSource::GameScore { .. } => "game_score"@,
        ContentSource::PaymentSuccessful { .. } => "payment_successful"@,
        ContentSource::PremiumGiftCode { .. } => "premium_gift_code"@,
        ContentSource::GiveawayCreated => "premium_giveaway_created"@,
        ContentSource::Giveaway { .. } => "premium_giveaway"@,
        ContentSource::GiveawayCompleted { .. } => "premium_giveaway_completed"@,
        ContentSource::GiveawayWinners { .. } => "premium_giveaway_winners"@,
        ContentSource::UsersShared { .. } => "users_shared"@,
        ContentSource::ChatShared { .. } => "chat_shared"@,
        ContentSource::BotWriteAccessAllowed => "bot_write_access_allowed"@,
        ContentSource::WebAppDataSent { .. } => "web_app_data_sent"@,
        ContentSource::PassportDataSent => "passport_data_sent"@,
        ContentSource::ProximityAlertTriggered { .. } => "proximity_alert_triggered"@,
        ContentSource::ExpiredPhoto => "expired_photo"@,
        ContentSource::ExpiredVideo => "expired_video"@,
        ContentSource::ExpiredVideoNote => "expired_video_note"@,
        ContentSource::ExpiredVoiceNote => "expired_voice_note"@,
        ContentSource::Unsupported { .. } => "unsupported"@,
    }
}

/// The media kinds: each has a summary in brackets and files to download.
pub open spec fn is_media(c: ContentSource) -> bool {
    ||| c is Text
    ||| c is Photo
    ||| c is Video
    ||| c is Document
    ||| c is Sticker
    ||| c is Audio
    ||| c is VoiceNote
    ||| c is Animation
    ||| c is VideoNote
    ||| c is AnimatedEmoji
}

/// The one-line summary of media content.
pub open spec fn media_summary_spec(c: ContentSource) -> Seq<char> {
    match c {
        ContentSource::Text { text } => if text@.len() == 0 { "[Text]"@ } else { text@ },
        ContentSource::Photo { caption, sizes, .. } => bracket(match pv(caption) {
            Some(cap) => "Photo: "@ + cap,
            None => match best_index(sizes@) {
                Some(i) => "Photo: "@ + int_str(sizes@[i].width as int) + "x"@ + int_str(sizes@[i].height as int),
                None => "Photo"@,
            },
        }),
        ContentSource::Video { caption, width, height, duration, .. } => bracket(match pv(caption) {
            Some(cap) => "Video: "@ + cap,
            None => "Video: "@ + int_str(width as int) + "x"@ + int_str(height as int) + " "@ + duration_spec(duration),
        }),
        ContentSource::Document { caption, file_name, .. } => bracket(match pv(caption) {
            Some(cap) => "Document: "@ + cap,
            None => match pv(file_name) {
                Some(n) => "Document: "@ + n,
                None => "Document"@,
            },
        }),
        ContentSource::Sticker { emoji, .. } => bracket(match pv(emoji) {
            Some(e) => "Sticker: "@ + e,
            None => "Sticker"@,
        }),
        ContentSource::Audio { title, file_name, duration, .. } => bracket(
            "Audio: "@ + match pv(title) {
                Some(t) => t,
                None => match pv(file_name) {
                    Some(n) => n,
                    None => "Audio"@,
                },
            } + " ("@ + duration_spec(duration) + ")"@,
        ),
        ContentSource::VoiceNote { duration, .. } => bracket("Voice: "@ + duration_spec(duration)),
        ContentSource::Animation { width, height, duration, .. } => bracket(
            "Animation: "@ + int_str(width as int) + "x"@ + int_str(height as int) + " "@ + duration_spec(duration),
        ),
        ContentSource::VideoNote { duration, .. } => bracket("Video note: "@ + duration_spec(duration)),
        ContentSource::AnimatedEmoji { emoji, .. } => bracket("Emoji: "@ + match pv(emoji) {
            Some(e) => e,
            None => "emoji"@,
        }),
        _ => Seq::empty(),
    }
}

/// Whether the media has something to download.
pub open spec fn media_downloadable(c: ContentSource) -> bool {
    match c {
        ContentSource::Text { .. } => false,
        ContentSource::Photo { sizes, .. } => sizes@.len() > 0,
        ContentSource::AnimatedEmoji { sticker, sound, .. } => sticker is Some || sound is Some,
        _ => true,
    }
}

/// The one main file of single-file media, with the name and type it is
/// saved under.
pub open spec fn single_file(files: Seq<MessageFileRef>, f: FileSource, name: Option<Seq<char>>, mime: Option<Seq<char>>) -> bool {
    files.len() == 1 && file_ref_matches(files[0], f, true, "main"@, name, mime)
}

/// The files media content offers for download.
pub open spec fn media_files(files: Seq<MessageFileRef>, c: ContentSource) -> bool {
    match c {
        ContentSource::Text { .. } => files.len() == 0,
        ContentSource::Photo { sizes, .. } => match best_index(sizes@) {
            Some(i) => single_file(files, sizes@[i].photo, None, Some("image/jpeg"@)),
            None => files.len() == 0,
        },
        ContentSource::Video { file_name, mime_type, video, .. } => single_file(files, video, pv(file_name), pv(mime_type)),
        ContentSource::Document { file_name, mime_type, document, .. } => single_file(
            files,
            document,
            pv(file_name),
            pv(mime_type),
        ),
        ContentSource::Sticker { sticker, .. } => single_file(files, sticker, None, None),
        ContentSource::Audio { file_name, mime_type, audio, .. } => single_file(files, audio, pv(file_name), pv(mime_type)),
        ContentSource::VoiceNote { mime_type, voice, .. } => single_file(files, voice, None, pv(mime_type)),
        ContentSource::Animation { file_name, mime_type, animation, .. } => single_file(
            files,
            animation,
            pv(file_name),
            pv(mime_type),
        ),
        ContentSource::VideoNote { video, .. } => single_file(files, video, None, Some("video/mp4"@)),
        ContentSource::AnimatedEmoji { sticker, sound, .. } => {
            let n_sticker: int = if sticker is Some { 1 } else { 0 };
            &&& files.len() == n_sticker + (if sound is Some { 1int } else { 0 })
            &&& sticker matches Some(s) ==> file_ref_matches(
                files[0],
                s.sticker,
                true,
                "main"@,
                Some("emoji."@ + sticker_format_spec(s.format)),
                None,
            )
            &&& sound matches Some(f) ==> file_ref_matches(
                files[n_sticker],
                f,
                sticker is None,
                "sound"@,
                Some("emoji_sound.ogg"@),
                Some("audio/ogg"@),
            )
        },
        _ => files.len() == 0,
    }
}

/// The details of media content.
pub open spec fn media_details(d: MessageContentDetails, c: ContentSource) -> bool {
    match c {
        ContentSource::Text { text } => d == MessageContentDetails::Text { text },
        ContentSource::Photo { caption, sizes, has_spoiler, is_secret } => d == MessageContentDetails::Photo {
            width: match best_index(sizes@) { Some(i) => Some(sizes@[i].width), None => None },
            height: match best_index(sizes@) { Some(i) => Some(sizes@[i].height), None => None },
            caption: present(caption),
            has_spoiler,
            is_secret,
        },
        ContentSource::Video {
            caption,
            width,
            height,
            duration,
            file_name,
            mime_type,
            supports_streaming,
            has_spoiler,
            is_secret,
            ..
        } => d == MessageContentDetails::Video {
            width,
            height,
            duration_seconds: duration,
            caption: present(caption),
            file_name: present(file_name),
            mime_type: present(mime_type),
            has_spoiler,
            is_secret,
            supports_streaming,
        },
        ContentSource::Document { caption, file_name, mime_type, .. } => d == MessageContentDetails::Document {
            caption: present(caption),
            file_name: present(file_name),
            mime_type: present(mime_type),
        },
        ContentSource::Sticker { emoji, width, height, format, .. } => d matches MessageContentDetails::Sticker {
            emoji: e,
            width: w,
            height: h,
            format: f,
        } && e == present(emoji) && w == width && h == height && f@ == sticker_format_debug(format),
        ContentSource::Audio { caption, title, performer, file_name, mime_type, duration, .. } => d
            == MessageContentDetails::Audio {
            title: present(title),
            performer: present(performer),
            duration_seconds: duration,
            caption: present(caption),
            file_name: present(file_name),
            mime_type: present(mime_type),
        },
        ContentSource::VoiceNote { caption, duration, mime_type, is_listened, .. } => d
            == MessageContentDetails::Voice {
            duration_seconds: duration,
            caption: present(caption),
            mime_type: present(mime_type),
            is_listened,
        },
        ContentSource::Animation {
            caption,
            width,
            height,
            duration,
            file_name,
            mime_type,
            has_spoiler,
            is_secret,
            ..
        } => d == MessageContentDetails::Animation {
            width,
            height,
            duration_seconds: duration,
            caption: present(caption),
            file_name: present(file_name),
            mime_type: present(mime_type),
            has_spoiler,
            is_secret,
        },
        ContentSource::VideoNote { duration, length, is_viewed, is_secret, .. } => d
            == MessageContentDetails::VideoNote { duration_seconds: duration, length, is_viewed, is_secret },
        ContentSource::AnimatedEmoji { emoji, sticker, sticker_width, sticker_height, fitzpatrick_type, sound } => d matches MessageContentDetails::Emoji {
            emoji: e,
            sticker_width: w,
            sticker_height: h,
            fitzpatrick_type: ft,
            sticker_format: sf,
            custom_emoji_id: cid,
            has_sound: hs,
        } && e == present(emoji) && ft == fitzpatrick_type && hs == (sound is Some) && match sticker {
            Some(s) => w == s.width && h == s.height && opt_view(sf) == Some(sticker_format_spec(s.format))
                && cid == s.custom_emoji_id,
            None => w == sticker_width && h == sticker_height && sf is None && cid is None,
        },
        _ => false,
    }
}

/// Everything read of media content.
pub open spec fn media_extracted(r: ExtractedMessageData, c: ContentSource) -> bool {
    &&& r.text@ == media_summary_spec(c)
    &&& opt_view(r.content_type) == Some(content_type_spec(c))
    &&& r.is_downloadable == media_downloadable(c)
    &&& media_files(r.download_files@, c)
    &&& r.content matches Some(d) && media_details(d, c)
}

/// The one-line summary of the other kinds of content.
pub open spec fn other_summary_spec(c: ContentSource) -> Seq<char> {
    match c {
        ContentSource::Location { coordinates, .. } => bracket("Location: "@ + coordinates@),
        ContentSource::Contact { phone_number, first_name, last_name, .. } => bracket(
            "Contact: "@ + full_name(first_name, last_name) + " ("@ + phone_number@ + ")"@,
        ),
        ContentSource::Poll { question, .. } => bracket("Poll: "@ + question@),
        ContentSource::Call { is_video, discard_reason, duration } => {
            let kind = if is_video { "Video call"@ } else { "Call"@ };
            if duration > 0 {
                kind + " ("@ + discard_spec(discard_reason) + ", "@ + int_str(duration as int) + "s)"@
            } else {
                kind + " ("@ + discard_spec(discard_reason) + ")"@
            }
        },
        ContentSource::ContactRegistered => "Contact registered"@,
        ContentSource::Venue { title, address, .. } => "Venue: "@ + title@ + ", "@ + address@,
        ContentSource::PinMessage { .. } => "Pinned a message"@,
        ContentSource::GiftedPremium { month_count, .. } => "Gifted Premium ("@ + int_str(month_count as int) + " months)"@,
        ContentSource::Dice { emoji, value } => "Dice: "@ + emoji@ + " (value: "@ + int_str(value as int) + ")"@,
        ContentSource::Game { title, .. } => "Game: "@ + title@,
        ContentSource::Story { story_sender_chat_id, .. } => "Story from chat "@ + int_str(story_sender_chat_id as int),
        ContentSource::Invoice { title, currency, total_amount, .. } => "Invoice: "@ + title@ + " ("@ + int_str(
            total_amount as int,
        ) + " "@ + currency@ + ")"@,
        ContentSource::VideoChatScheduled { start_date, .. } => "Video chat scheduled (start: "@ + int_str(
            start_date as int,
        ) + ")"@,
        ContentSource::VideoChatStarted { .. } => "Video chat started"@,
        ContentSource::VideoChatEnded { duration } => "Video chat ended ("@ + int_str(duration as int) + "s)"@,
        ContentSource::InviteVideoChatParticipants { user_ids, .. } => "Invited "@ + int_str(user_ids@.len() as int)
            + " participants to video chat"@,
        ContentSource::BasicGroupChatCreate { title, .. } => "Group created: "@ + title@,
        ContentSource::SupergroupChatCreate { title } => "Supergroup created: "@ + title@,
        ContentSource::ChatChangeTitle { title } => "Chat title changed to: "@ + title@,
        ContentSource::ChatChangePhoto => "Chat photo changed"@,
        ContentSource::ChatDeletePhoto => "Chat photo deleted"@,
        ContentSource::ChatAddMembers { member_user_ids } => "Members added: "@ + id_list_spec(member_user_ids@),
        ContentSource::ChatJoinByLink => "Joined by invite link"@,
        ContentSource::ChatJoinByRequest => "Joined by request"@,
        ContentSource::ChatDeleteMember { user_id } => "Member removed: "@ + int_str(user_id as int),
        ContentSource::ChatUpgradeTo { supergroup_id } => "Upgraded to supergroup "@ + int_str(supergroup_id as int),
        ContentSource::ChatUpgradeFrom { title, .. } => "Upgraded from basic group: "@ + title@,
        ContentSource::ScreenshotTaken => "Screenshot taken"@,
        ContentSource::ChatSetBackground { .. } => "Chat background changed"@,
        ContentSource::ChatSetTheme { theme_name } => if theme_name@.len() == 0 {
            "Chat theme reset"@
        } else {
            "Chat theme set to: "@ + theme_name@
        },
        ContentSource::ChatSetMessageAutoDeleteTime { message_auto_delete_time, .. } => if message_auto_delete_time
            == 0 {
            "Auto-delete timer disabled"@
        } else {
            "Auto-delete timer set to "@ + int_str(message_auto_delete_time as int) + "s"@
        },
        ContentSource::ChatBoost { boost_count } => "Chat boosted ("@ + int_str(boost_count as int) + " boosts)"@,
        ContentSource::ForumTopicCreated { name } => "Forum topic created: "@ + name@,
        ContentSource::ForumTopicEdited { name, .. } => if name@.len() == 0 {
            "Forum topic edited"@
        } else {
            "Forum topic renamed to: "@ + name@
        },
        ContentSource::ForumTopicIsClosedToggled { is_closed } => if is_closed {
            "Forum topic closed"@
        } else {
            "Forum topic reopened"@
        },
        ContentSource::ForumTopicIsHiddenToggled { is_hidden } => if is_hidden {
            "Forum topic hidden"@
        } else {
            "Forum topic unhidden"@
        },
        ContentSource::SuggestProfilePhoto => "Profile photo suggested"@,
        ContentSource::CustomServiceAction { text } => text@,
        ContentSource::GameScore { score, .. } => "Game score: "@ + int_str(score as int),
        ContentSource::PaymentSuccessful { currency, total_amount, .. } => "Payment: "@ + int_str(total_amount as int)
            + " "@ + currency@,
        ContentSource::PremiumGiftCode { month_count, .. } => "Premium gift code ("@ + int_str(month_count as int)
            + " months)"@,
        ContentSource::GiveawayCreated => "Premium giveaway created"@,
        ContentSource::Giveaway { winner_count, month_count } => "Premium giveaway ("@ + int_str(winner_count as int)
            + " winners, "@ + int_str(month_count as int) + " months)"@,
        ContentSource::GiveawayCompleted { winner_count, .. } => "Premium giveaway completed ("@ + int_str(
            winner_count as int,
        ) + " winners)"@,
        ContentSource::GiveawayWinners { winner_count, .. } => "Premium giveaway winners ("@ + int_str(
            winner_count as int,
        ) + " winners)"@,
        ContentSource::UsersShared { user_count, .. } => "Users shared ("@ + int_str(user_count as int) + " users)"@,
        ContentSource::ChatShared { .. } => "Chat shared"@,
        ContentSource::BotWriteAccessAllowed => "Bot write access allowed"@,
        ContentSource::WebAppDataSent { button_text } => "Web app data sent: "@ + button_text@,
        ContentSource::PassportDataSent => "Passport data sent"@,
        ContentSource::ProximityAlertTriggered { distance } => "Proximity alert ("@ + int_str(distance as int) + "m)"@,
        ContentSource::ExpiredPhoto => "Expired photo"@,
        ContentSource::ExpiredVideo => "Expired video"@,
        ContentSource::ExpiredVideoNote => "Expired video note"@,
        ContentSource::ExpiredVoiceNote => "Expired voice note"@,
        ContentSource::Unsupported { .. } => "[Unsupported]"@,
        _ => Seq::empty(),
    }
}

/// The details of the other kinds of content.
pub open spec fn other_details(d: MessageContentDetails, c: ContentSource) -> bool {
    match c {
        ContentSource::Location {
            latitude,
            longitude,
            horizontal_accuracy,
            live_period,
            expires_in,
            heading,
            proximity_alert_radius,
            ..
        } => d == MessageContentDetails::Location {
            latitude,
            longitude,
            horizontal_accuracy,
            live_period,
            expires_in,
            heading,
            proximity_alert_radius,
        },
        ContentSource::Contact { phone_number, first_name, last_name, vcard, user_id } => d
            == MessageContentDetails::Contact {
            phone_number,
            first_name,
            last_name: present(last_name),
            user_id,
            vcard: present(vcard),
        },
        ContentSource::Poll { question, option_count, total_voter_count, is_anonymous, is_closed, is_quiz } => d matches MessageContentDetails::Poll {
            question: q,
            option_count: oc,
            total_voter_count: tv,
            is_anonymous: an,
            is_closed: cl,
            poll_type: pt,
        } && q == question && oc == option_count && tv == total_voter_count && an == is_anonymous && cl == is_closed
            && pt@ == (if is_quiz { "quiz"@ } else { "regular"@ }),
        ContentSource::Call { is_video, discard_reason, duration } => d matches MessageContentDetails::Call {
            is_video: v,
            discard_reason: dr,
            duration_seconds: ds,
        } && v == is_video && dr@ == discard_spec(discard_reason) && ds == duration,
        ContentSource::ContactRegistered => d == MessageContentDetails::ContactRegistered {},
        ContentSource::Venue { title, address, latitude, longitude, provider } => d == MessageContentDetails::Venue {
            title,
            address,
            latitude,
            longitude,
            provider: present(provider),
        },
        ContentSource::PinMessage { message_id } => d == MessageContentDetails::PinMessage {
            pinned_message_id: message_id,
        },
        ContentSource::GiftedPremium { gifter_user_id, currency, amount, month_count } => d
            == MessageContentDetails::GiftedPremium { gifter_user_id, currency, amount, month_count },
        ContentSource::Dice { emoji, value } => d == MessageContentDetails::Dice { emoji, value },
        ContentSource::Game { title, short_name, description } => d == MessageContentDetails::Game {
            title,
            short_name,
            description,
        },
        ContentSource::Story { story_sender_chat_id, story_id, via_mention } => d == MessageContentDetails::Story {
            story_poster_chat_id: story_sender_chat_id,
            story_id,
            via_mention,
        },
        ContentSource::Invoice { title, currency, total_amount, is_test } => d == MessageContentDetails::Invoice {
            title,
            currency,
            total_amount,
            is_test,
        },
        ContentSource::VideoChatScheduled { group_call_id, start_date } => d
            == MessageContentDetails::VideoChatScheduled { group_call_id, start_date },
        ContentSource::VideoChatStarted { group_call_id } => d == MessageContentDetails::VideoChatStarted {
            group_call_id,
        },
        ContentSource::VideoChatEnded { duration } => d == MessageContentDetails::VideoChatEnded {
            duration_seconds: duration,
        },
        ContentSource::InviteVideoChatParticipants { group_call_id, user_ids } => d
            == MessageContentDetails::InviteVideoChatParticipants { group_call_id, user_ids },
        ContentSource::BasicGroupChatCreate { title, member_user_ids } => d
            == MessageContentDetails::BasicGroupChatCreate { title, member_user_ids },
        ContentSource::SupergroupChatCreate { title } => d == MessageContentDetails::SupergroupChatCreate { title },
        ContentSource::ChatChangeTitle { title } => d == MessageContentDetails::ChatChangeTitle { title },
        ContentSource::ChatChangePhoto => d == MessageContentDetails::ChatChangePhoto {},
        ContentSource::ChatDeletePhoto => d == MessageContentDetails::ChatDeletePhoto {},
        ContentSource::ChatAddMembers { member_user_ids } => d == MessageContentDetails::ChatAddMembers {
            member_user_ids,
        },
        ContentSource::ChatJoinByLink => d == MessageContentDetails::ChatJoinByLink {},
        ContentSource::ChatJoinByRequest => d == MessageContentDetails::ChatJoinByRequest {},
        ContentSource::ChatDeleteMember { user_id } => d == MessageContentDetails::ChatDeleteMember { user_id },
        ContentSource::ChatUpgradeTo { supergroup_id } => d == MessageContentDetails::ChatUpgradeTo { supergroup_id },
        ContentSource::ChatUpgradeFrom { title, basic_group_id } => d == MessageContentDetails::ChatUpgradeFrom {
            title,
            basic_group_id,
        },
        ContentSource::ScreenshotTaken => d == MessageContentDetails::ScreenshotTaken {},
        ContentSource::ChatSetBackground { old_background_message_id, only_for_self } => d
            == MessageContentDetails::ChatSetBackground { old_background_message_id, only_for_self },
        ContentSource::ChatSetTheme { theme_name } => d == MessageContentDetails::ChatSetTheme {
            theme: present(theme_name),
        },
        ContentSource::ChatSetMessageAutoDeleteTime { message_auto_delete_time, from_user_id } => d
            == MessageContentDetails::ChatSetMessageAutoDeleteTime { message_auto_delete_time, from_user_id },
        ContentSource::ChatBoost { boost_count } => d == MessageContentDetails::ChatBoost { boost_count },
        ContentSource::ForumTopicCreated { name } => d == MessageContentDetails::ForumTopicCreated { name },
        ContentSource::ForumTopicEdited { name, edit_icon_custom_emoji_id, icon_custom_emoji_id } => d
            == MessageContentDetails::ForumTopicEdited { name, edit_icon_custom_emoji_id, icon_custom_emoji_id },
        ContentSource::ForumTopicIsClosedToggled { is_closed } => d
            == MessageContentDetails::ForumTopicIsClosedToggled { is_closed },
        ContentSource::ForumTopicIsHiddenToggled { is_hidden } => d
            == MessageContentDetails::ForumTopicIsHiddenToggled { is_hidden },
        ContentSource::SuggestProfilePhoto => d == MessageContentDetails::SuggestProfilePhoto {},
        ContentSource::CustomServiceAction { text } => d == MessageContentDetails::CustomServiceAction { text },
        ContentSource::GameScore { game_message_id, game_id, score } => d == MessageContentDetails::GameScore {
            game_message_id,
            game_id,
            score,
        },
        ContentSource::PaymentSuccessful {
            invoice_chat_id,
            invoice_message_id,
            currency,
            total_amount,
            is_recurring,
            invoice_name,
        } => d == MessageContentDetails::PaymentSuccessful {
            invoice_chat_id,
            invoice_message_id,
            currency,
            total_amount,
            is_recurring,
            invoice_name: present(invoice_name),
        },
        ContentSource::PremiumGiftCode { is_from_giveaway, is_unclaimed, currency, amount, month_count, code } => d
            == MessageContentDetails::PremiumGiftCode {
            is_from_giveaway,
            is_unclaimed,
            currency,
            amount,
            month_count,
            code,
        },
        ContentSource::GiveawayCreated => d == MessageContentDetails::GiveawayCreated {},
        ContentSource::Giveaway { winner_count, .. } => d == MessageContentDetails::Giveaway { winner_count },
        ContentSource::GiveawayCompleted { giveaway_message_id, winner_count, unclaimed_prize_count } => d
            == MessageContentDetails::GiveawayCompleted { giveaway_message_id, winner_count, unclaimed_prize_count },
        ContentSource::GiveawayWinners {
            boosted_chat_id,
            giveaway_message_id,
            winner_count,
            winner_user_ids,
            unclaimed_prize_count,
        } => d == MessageContentDetails::GiveawayWinners {
            boosted_chat_id,
            giveaway_message_id,
            winner_count,
            winner_user_ids,
            unclaimed_prize_count,
        },
        ContentSource::UsersShared { button_id, .. } => d == MessageContentDetails::UsersShared { button_id },
        ContentSource::ChatShared { button_id } => d == MessageContentDetails::ChatShared { button_id },
        ContentSource::BotWriteAccessAllowed => d == MessageContentDetails::BotWriteAccessAllowed {},
        ContentSource::WebAppDataSent { button_text } => d == MessageContentDetails::WebAppDataSent { button_text },
        ContentSource::PassportDataSent => d == MessageContentDetails::PassportDataSent {},
        ContentSource::ProximityAlertTriggered { distance } => d == MessageContentDetails::ProximityAlertTriggered {
            distance,
        },
        ContentSource::ExpiredPhoto => d == MessageContentDetails::ExpiredPhoto {},
        ContentSource::ExpiredVideo => d == MessageContentDetails::ExpiredVideo {},
        ContentSource::ExpiredVideoNote => d == MessageContentDetails::ExpiredVideoNote {},
        ContentSource::ExpiredVoiceNote => d == MessageContentDetails::ExpiredVoiceNote {},
        ContentSource::Unsupported { tdlib_type } => d == MessageContentDetails::Unsupported { tdlib_type },
        _ => false,
    }
}

/// Everything read of the other kinds of content: nothing to download.
pub open spec fn other_extracted(r: ExtractedMessageData, c: ContentSource) -> bool {
    &&& r.text@ == other_summary_spec(c)
    &&& opt_view(r.content_type) == Some(content_type_spec(c))
    &&& !r.is_downloadable
    &&& r.download_files@.len() == 0
    &&& r.content matches Some(d) && other_details(d, c)
}
fn typed(content_type: &str) -> (r: Option<String>)
    ensures
        opt_view(r) == Some(content_type@),
{
    Some(owned(content_type))
}

fn one_file(f: MessageFileRef) -> (r: Vec<MessageFileRef>)
    ensures
        r@ == seq![f],
{
    let mut v = Vec::new();
    v.push(f);
    v
}

/// Media content read.
fn extract_media(content: ContentSource) -> (r: ExtractedMessageData)
    requires
        is_media(content),
    ensures
        media_extracted(r, content),
{
    match content {
        ContentSource::Text { text } => {
            let summary = if text.as_str().unicode_len() == 0 {
                proof { reveal_strlit("[Text]"); }
                owned("[Text]")
            } else {
                owned(text.as_str())
            };
            ExtractedMessageData {
                text: summary,
                content_type: typed("text"),
                is_downloadable: false,
                download_files: Vec::new(),
                content: Some(MessageContentDetails::Text { text }),
            }
        },
        ContentSource::Photo { caption, sizes, has_spoiler, is_secret } => {
            let best = best_photo_size(&sizes);
            proof {
                if sizes@.len() > 0 {
                    let i = best->Some_0 as int;
                    lemma_best_unique(sizes@, i, choose|k: int| is_best_size(sizes@, k));
                }
            }
            let (width, height, files) = match best {
                Some(i) => {
                    let f = message_file_ref(&sizes[i].photo, true, "main", None, Some(owned("image/jpeg")));
                    (Some(sizes[i].width), Some(sizes[i].height), one_file(f))
                },
                None => (None, None, Vec::new()),
            };
            let label = if !is_blank(caption.as_str()) {
                concat2("Photo: ", caption.as_str())
            } else {
                match best {
                    Some(i) => {
                        let w = i64_to_string(sizes[i].width as i64);
                        let h = i64_to_string(sizes[i].height as i64);
                        concat4("Photo: ", w.as_str(), "x", h.as_str())
                    },
                    None => owned("Photo"),
                }
            };
            ExtractedMessageData {
                text: media_summary(label.as_str()),
                content_type: typed("photo"),
                is_downloadable: files.len() > 0,
                download_files: files,
                content: Some(MessageContentDetails::Photo { width, height, caption: non_empty(caption), has_spoiler, is_secret }),
            }
        },
        ContentSource::Video {
            caption,
            width,
            height,
            duration,
            file_name,
            mime_type,
            supports_streaming,
            video,
            has_spoiler,
            is_secret,
        } => {
            let label = if !is_blank(caption.as_str()) {
                concat2("Video: ", caption.as_str())
            } else {
                let w = i64_to_string(width as i64);
                let h = i64_to_string(height as i64);
                let d = format_duration(duration);
                let head = concat4("Video: ", w.as_str(), "x", h.as_str());
                concat3(head.as_str(), " ", d.as_str())
            };
            let f = message_file_ref(
                &video,
                true,
                "main",
                non_empty_copy(file_name.as_str()),
                non_empty_copy(mime_type.as_str()),
            );
            ExtractedMessageData {
                text: media_summary(label.as_str()),
                content_type: typed("video"),
                is_downloadable: true,
                download_files: one_file(f),
                content: Some(MessageContentDetails::Video {
                    width,
                    height,
                    duration_seconds: duration,
                    caption: non_empty(caption),
                    file_name: non_empty(file_name),
                    mime_type: non_empty(mime_type),
                    has_spoiler,
                    is_secret,
                    supports_streaming,
                }),
            }
        },
        ContentSource::Document { caption, file_name, mime_type, document } => {
            let label = if !is_blank(caption.as_str()) {
                concat2("Document: ", caption.as_str())
            } else if !is_blank(file_name.as_str()) {
                concat2("Document: ", file_name.as_str())
            } else {
                owned("Document")
            };
            let f = message_file_ref(
                &document,
                true,
                "main",
                non_empty_copy(file_name.as_str()),
                non_empty_copy(mime_type.as_str()),
            );
            ExtractedMessageData {
                text: media_summary(label.as_str()),
                content_type: typed("document"),
                is_downloadable: true,
                download_files: one_file(f),
                content: Some(MessageContentDetails::Document {
                    caption: non_empty(caption),
                    file_name: non_empty(file_name),
                    mime_type: non_empty(mime_type),
                }),
            }
        },
        ContentSource::Sticker { emoji, width, height, format, sticker } => {
            let label = if !is_blank(emoji.as_str()) {
                concat2("Sticker: ", emoji.as_str())
            } else {
                owned("Sticker")
            };
            let f = message_file_ref(&sticker, true, "main", None, None);
            let fmt = crate::content::sticker_format_debug_name(format);
            ExtractedMessageData {
                text: media_summary(label.as_str()),
                content_type: typed("sticker"),
                is_downloadable: true,
                download_files: one_file(f),
                content: Some(MessageContentDetails::Sticker { emoji: non_empty(emoji), width, height, format: fmt }),
            }
        },
        ContentSource::Audio { caption, title, performer, file_name, mime_type, duration, audio } => {
            let name: String = if !is_blank(title.as_str()) {
                owned(title.as_str())
            } else if !is_blank(file_name.as_str()) {
                owned(file_name.as_str())
            } else {
                owned("Audio")
            };
            let d = format_duration(duration);
            let label = concat5("Audio: ", name.as_str(), " (", d.as_str(), ")");
            let f = message_file_ref(
                &audio,
                true,
                "main",
                non_empty_copy(file_name.as_str()),
                non_empty_copy(mime_type.as_str()),
            );
            ExtractedMessageData {
                text: media_summary(label.as_str()),
                content_type: typed("audio"),
                is_downloadable: true,
                download_files: one_file(f),
                content: Some(MessageContentDetails::Audio {
                    title: non_empty(title),
                    performer: non_empty(performer),
                    duration_seconds: duration,
                    caption: non_empty(caption),
                    file_name: non_empty(file_name),
                    mime_type: non_empty(mime_type),
                }),
            }
        },
        ContentSource::VoiceNote { caption, duration, mime_type, voice, is_listened } => {
            let d = format_duration(duration);
            let label = concat2("Voice: ", d.as_str());
            let f = message_file_ref(&voice, true, "main", None, non_empty_copy(mime_type.as_str()));
            ExtractedMessageData {
                text: media_summary(label.as_str()),
                content_type: typed("voice"),
                is_downloadable: true,
                download_files: one_file(f),
                content: Some(MessageContentDetails::Voice {
                    duration_seconds: duration,
                    caption: non_empty(caption),
                    mime_type: non_empty(mime_type),
                    is_listened,
                }),
            }
        },
        ContentSource::Animation {
            caption,
            width,
            height,
            duration,
            file_name,
            mime_type,
            animation,
            has_spoiler,
            is_secret,
        } => {
            let w = i64_to_string(width as i64);
            let h = i64_to_string(height as i64);
            let d = format_duration(duration);
            let head = concat4("Animation: ", w.as_str(), "x", h.as_str());
            let label = concat3(head.as_str(), " ", d.as_str());
            let f = message_file_ref(
                &animation,
                true,
                "main",
                non_empty_copy(file_name.as_str()),
                non_empty_copy(mime_type.as_str()),
            );
            ExtractedMessageData {
                text: media_summary(label.as_str()),
                content_type: typed("animation"),
                is_downloadable: true,
                download_files: one_file(f),
                content: Some(MessageContentDetails::Animation {
                    width,
                    height,
                    duration_seconds: duration,
                    caption: non_empty(caption),
                    file_name: non_empty(file_name),
                    mime_type: non_empty(mime_type),
                    has_spoiler,
                    is_secret,
                }),
            }
        },
        ContentSource::VideoNote { duration, length, video, is_viewed, is_secret } => {
            let d = format_duration(duration);
            let label = concat2("Video note: ", d.as_str());
            let f = message_file_ref(&video, true, "main", None, Some(owned("video/mp4")));
            ExtractedMessageData {
                text: media_summary(label.as_str()),
                content_type: typed("video_note"),
                is_downloadable: true,
                download_files: one_file(f),
                content: Some(MessageContentDetails::VideoNote { duration_seconds: duration, length, is_viewed, is_secret }),
            }
        },
        ContentSource::AnimatedEmoji { emoji, sticker, sticker_width, sticker_height, fitzpatrick_type, sound } => {
            let mut files: Vec<MessageFileRef> = Vec::new();
            let mut width = sticker_width;
            let mut height = sticker_height;
            let mut format: Option<String> = None;
            let mut custom: Option<i64> = None;
            match &sticker {
                Some(s) => {
                    width = s.width;
                    height = s.height;
                    let ext = sticker_format_name(s.format);
                    format = Some(owned(ext));
                    let name = concat2("emoji.", ext);
                    files.push(message_file_ref(&s.sticker, true, "main", Some(name), None));
                    custom = s.custom_emoji_id;
                },
                None => {},
            }
            let has_sound = sound.is_some();
            match &sound {
                Some(f) => {
                    let primary = files.len() == 0;
                    files.push(message_file_ref(f, primary, "sound", Some(owned("emoji_sound.ogg")), Some(owned("audio/ogg"))));
                },
                None => {},
            }
            let label = if !is_blank(emoji.as_str()) {
                concat2("Emoji: ", emoji.as_str())
            } else {
                concat2("Emoji: ", "emoji")
            };
            ExtractedMessageData {
                text: media_summary(label.as_str()),
                content_type: typed("emoji"),
                is_downloadable: files.len() > 0,
                download_files: files,
                content: Some(MessageContentDetails::Emoji {
                    emoji: non_empty(emoji),
                    sticker_width: width,
                    sticker_height: height,
                    fitzpatrick_type,
                    sticker_format: format,
                    custom_emoji_id: custom,
                    has_sound,
                }),
            }
        },
        _ => {
            proof { assert(false); }
            ExtractedMessageData {
                text: String::new(),
                content_type: None,
                is_downloadable: false,
                download_files: Vec::new(),
                content: None,
            }
        },
    }
}


/// Content with nothing to download.
fn plain(text: String, content_type: &str, details: MessageContentDetails) -> (r: ExtractedMessageData)
    ensures
        r.text == text,
        opt_view(r.content_type) == Some(content_type@),
        !r.is_downloadable,
        r.download_files@.len() == 0,
        r.content == Some(details),
{
    ExtractedMessageData {
        text,
        content_type: Some(owned(content_type)),
        is_downloadable: false,
        download_files: Vec::new(),
        content: Some(details),
    }
}

fn num(n: i64) -> (r: String)
    ensures
        r@ == int_str(n as int),
{
    i64_to_string(n)
}

pub open spec fn is_info(c: ContentSource) -> bool {
    ||| c is Location
    ||| c is Contact
    ||| c is Poll
    ||| c is Call
    ||| c is ContactRegistered
    ||| c is Venue
    ||| c is PinMessage
    ||| c is GiftedPremium
    ||| c is Dice
    ||| c is Game
    ||| c is Story
    ||| c is Invoice
    ||| c is VideoChatScheduled
    ||| c is VideoChatStarted
    ||| c is VideoChatEnded
    ||| c is InviteVideoChatParticipants
    ||| c is BasicGroupChatCreate
    ||| c is SupergroupChatCreate
    ||| c is ChatChangeTitle
    ||| c is ChatChangePhoto
    ||| c is ChatDeletePhoto
    ||| c is ChatAddMembers
    ||| c is ChatJoinByLink
    ||| c is ChatJoinByRequest
    ||| c is ChatDeleteMember
    ||| c is ChatUpgradeTo
    ||| c is ChatUpgradeFrom
}

/// Places, people, polls, calls, games and chat events read.
fn extract_info(content: ContentSource) -> (r: ExtractedMessageData)
    requires
        is_info(content),
    ensures
        other_extracted(r, content),
{
    match content {
        ContentSource::Location {
            coordinates,
            latitude,
            longitude,
            horizontal_accuracy,
            live_period,
            expires_in,
            heading,
            proximity_alert_radius,
        } => {
            let label = concat2("Location: ", coordinates.as_str());
            plain(media_summary(label.as_str()), "location", MessageContentDetails::Location {
                latitude,
                longitude,
                horizontal_accuracy,
                live_period,
                expires_in,
                heading,
                proximity_alert_radius,
            })
        },
        ContentSource::Contact { phone_number, first_name, last_name, vcard, user_id } => {
            let name = if last_name.as_str().unicode_len() == 0 {
                owned(first_name.as_str())
            } else {
                concat3(first_name.as_str(), " ", last_name.as_str())
            };
            let label = concat5("Contact: ", name.as_str(), " (", phone_number.as_str(), ")");
            plain(media_summary(label.as_str()), "contact", MessageContentDetails::Contact {
                phone_number,
                first_name,
                last_name: non_empty(last_name),
                user_id,
                vcard: non_empty(vcard),
            })
        },
        ContentSource::Poll { question, option_count, total_voter_count, is_anonymous, is_closed, is_quiz } => {
            let label = concat2("Poll: ", question.as_str());
            let poll_type = if is_quiz { owned("quiz") } else { owned("regular") };
            plain(media_summary(label.as_str()), "poll", MessageContentDetails::Poll {
                question,
                option_count,
                total_voter_count,
                is_anonymous,
                is_closed,
                poll_type,
            })
        },
        ContentSource::Call { is_video, discard_reason, duration } => {
            let reason: String = match discard_reason {
                CallDiscard::Empty => owned("unknown"),
                CallDiscard::Missed => owned("missed"),
                CallDiscard::Declined => owned("declined"),
                CallDiscard::Disconnected => owned("disconnected"),
                CallDiscard::HungUp => owned("hung_up"),
            };
            let kind = if is_video { "Video call" } else { "Call" };
            let text = if duration > 0 {
                let d = num(duration as i64);
                let head = concat4(kind, " (", reason.as_str(), ", ");
                concat3(head.as_str(), d.as_str(), "s)")
            } else {
                concat4(kind, " (", reason.as_str(), ")")
            };
            plain(text, "call", MessageContentDetails::Call { is_video, discard_reason: reason, duration_seconds: duration })
        },
        ContentSource::ContactRegistered => plain(
            owned("Contact registered"),
            "contact_registered",
            MessageContentDetails::ContactRegistered {},
        ),
        ContentSource::Venue { title, address, latitude, longitude, provider } => {
            let text = concat4("Venue: ", title.as_str(), ", ", address.as_str());
            plain(text, "venue", MessageContentDetails::Venue {
                title,
                address,
                latitude,
                longitude,
                provider: non_empty(provider),
            })
        },
        ContentSource::PinMessage { message_id } => plain(
            owned("Pinned a message"),
            "pin_message",
            MessageContentDetails::PinMessage { pinned_message_id: message_id },
        ),
        ContentSource::GiftedPremium { gifter_user_id, currency, amount, month_count } => {
            let m = num(month_count as i64);
            let text = concat3("Gifted Premium (", m.as_str(), " months)");
            plain(text, "gifted_premium", MessageContentDetails::GiftedPremium {
                gifter_user_id,
                currency,
                amount,
                month_count,
            })
        },
        ContentSource::Dice { emoji, value } => {
            let v = num(value as i64);
            let text = concat5("Dice: ", emoji.as_str(), " (value: ", v.as_str(), ")");
            plain(text, "dice", MessageContentDetails::Dice { emoji, value })
        },
        ContentSource::Game { title, short_name, description } => {
            let text = concat2("Game: ", title.as_str());
            plain(text, "game", MessageContentDetails::Game { title, short_name, description })
        },
        ContentSource::Story { story_sender_chat_id, story_id, via_mention } => {
            let id = num(story_sender_chat_id);
            let text = concat2("Story from chat ", id.as_str());
            plain(text, "story", MessageContentDetails::Story {
                story_poster_chat_id: story_sender_chat_id,
                story_id,
                via_mention,
            })
        },
        ContentSource::Invoice { title, currency, total_amount, is_test } => {
            let amount = num(total_amount);
            let head = concat4("Invoice: ", title.as_str(), " (", amount.as_str());
            let text = concat4(head.as_str(), " ", currency.as_str(), ")");
            plain(text, "invoice", MessageContentDetails::Invoice { title, currency, total_amount, is_test })
        },
        ContentSource::VideoChatScheduled { group_call_id, start_date } => {
            let d = num(start_date as i64);
            let text = concat3("Video chat scheduled (start: ", d.as_str(), ")");
            plain(text, "video_chat_scheduled", MessageContentDetails::VideoChatScheduled { group_call_id, start_date })
        },
        ContentSource::VideoChatStarted { group_call_id } => plain(
            owned("Video chat started"),
            "video_chat_started",
            MessageContentDetails::VideoChatStarted { group_call_id },
        ),
        ContentSource::VideoChatEnded { duration } => {
            let d = num(duration as i64);
            let text = concat3("Video chat ended (", d.as_str(), "s)");
            plain(text, "video_chat_ended", MessageContentDetails::VideoChatEnded { duration_seconds: duration })
        },
        ContentSource::InviteVideoChatParticipants { group_call_id, user_ids } => {
            let n = usize_to_string(user_ids.len());
            let text = concat3("Invited ", n.as_str(), " participants to video chat");
            plain(
                text,
                "invite_video_chat_participants",
                MessageContentDetails::InviteVideoChatParticipants { group_call_id, user_ids },
            )
        },
        ContentSource::BasicGroupChatCreate { title, member_user_ids } => {
            let text = concat2("Group created: ", title.as_str());
            plain(text, "group_created", MessageContentDetails::BasicGroupChatCreate { title, member_user_ids })
        },
        ContentSource::SupergroupChatCreate { title } => {
            let text = concat2("Supergroup created: ", title.as_str());
            plain(text, "supergroup_created", MessageContentDetails::SupergroupChatCreate { title })
        },
        ContentSource::ChatChangeTitle { title } => {
            let text = concat2("Chat title changed to: ", title.as_str());
            plain(text, "chat_change_title", MessageContentDetails::ChatChangeTitle { title })
        },
        ContentSource::ChatChangePhoto => plain(
            owned("Chat photo changed"),
            "chat_change_photo",
            MessageContentDetails::ChatChangePhoto {},
        ),
        ContentSource::ChatDeletePhoto => plain(
            owned("Chat photo deleted"),
            "chat_delete_photo",
            MessageContentDetails::ChatDeletePhoto {},
        ),
        ContentSource::ChatAddMembers { member_user_ids } => {
            let ids = format_id_list(&member_user_ids);
            let text = concat2("Members added: ", ids.as_str());
            plain(text, "members_added", MessageContentDetails::ChatAddMembers { member_user_ids })
        },
        ContentSource::ChatJoinByLink => plain(
            owned("Joined by invite link"),
            "chat_join_by_link",
            MessageContentDetails::ChatJoinByLink {},
        ),
        ContentSource::ChatJoinByRequest => plain(
            owned("Joined by request"),
            "chat_join_by_request",
            MessageContentDetails::ChatJoinByRequest {},
        ),
        ContentSource::ChatDeleteMember { user_id } => {
            let id = num(user_id);
            let text = concat2("Member removed: ", id.as_str());
            plain(text, "chat_delete_member", MessageContentDetails::ChatDeleteMember { user_id })
        },
        ContentSource::ChatUpgradeTo { supergroup_id } => {
            let id = num(supergroup_id);
            let text = concat2("Upgraded to supergroup ", id.as_str());
            plain(text, "chat_upgrade_to", MessageContentDetails::ChatUpgradeTo { supergroup_id })
        },
        ContentSource::ChatUpgradeFrom { title, basic_group_id } => {
            let text = concat2("Upgraded from basic group: ", title.as_str());
            plain(text, "chat_upgrade_from", MessageContentDetails::ChatUpgradeFrom { title, basic_group_id })
        },
        _ => {
            proof { assert(false); }
            plain(String::new(), "", MessageContentDetails::ExpiredPhoto {})
        },
    }
}


/// Service messages read.
fn extract_service(content: ContentSource) -> (r: ExtractedMessageData)
    requires
        !is_media(content),
        !is_info(content),
    ensures
        other_extracted(r, content),
{
    match content {
        ContentSource::ScreenshotTaken => plain(
            owned("Screenshot taken"),
            "screenshot_taken",
            MessageContentDetails::ScreenshotTaken {},
        ),
        ContentSource::ChatSetBackground { old_background_message_id, only_for_self } => plain(
            owned("Chat background changed"),
            "chat_set_background",
            MessageContentDetails::ChatSetBackground { old_background_message_id, only_for_self },
        ),
        ContentSource::ChatSetTheme { theme_name } => {
            let text = if theme_name.as_str().unicode_len() == 0 {
                owned("Chat theme reset")
            } else {
                concat2("Chat theme set to: ", theme_name.as_str())
            };
            plain(text, "chat_set_theme", MessageContentDetails::ChatSetTheme { theme: non_empty(theme_name) })
        },
        ContentSource::ChatSetMessageAutoDeleteTime { message_auto_delete_time, from_user_id } => {
            let text = if message_auto_delete_time == 0 {
                owned("Auto-delete timer disabled")
            } else {
                let t = num(message_auto_delete_time as i64);
                concat3("Auto-delete timer set to ", t.as_str(), "s")
            };
            plain(
                text,
                "chat_set_message_auto_delete_time",
                MessageContentDetails::ChatSetMessageAutoDeleteTime { message_auto_delete_time, from_user_id },
            )
        },
        ContentSource::ChatBoost { boost_count } => {
            let n = num(boost_count as i64);
            let text = concat3("Chat boosted (", n.as_str(), " boosts)");
            plain(text, "chat_boost", MessageContentDetails::ChatBoost { boost_count })
        },
        ContentSource::ForumTopicCreated { name } => {
            let text = concat2("Forum topic created: ", name.as_str());
            plain(text, "forum_topic_created", MessageContentDetails::ForumTopicCreated { name })
        },
        ContentSource::ForumTopicEdited { name, edit_icon_custom_emoji_id, icon_custom_emoji_id } => {
            let text = if name.as_str().unicode_len() == 0 {
                owned("Forum topic edited")
            } else {
                concat2("Forum topic renamed to: ", name.as_str())
            };
            plain(text, "forum_topic_edited", MessageContentDetails::ForumTopicEdited {
                name,
                edit_icon_custom_emoji_id,
                icon_custom_emoji_id,
            })
        },
        ContentSource::ForumTopicIsClosedToggled { is_closed } => {
            let text = if is_closed { owned("Forum topic closed") } else { owned("Forum topic reopened") };
            plain(text, "forum_topic_is_closed_toggled", MessageContentDetails::ForumTopicIsClosedToggled { is_closed })
        },
        ContentSource::ForumTopicIsHiddenToggled { is_hidden } => {
            let text = if is_hidden { owned("Forum topic hidden") } else { owned("Forum topic unhidden") };
            plain(text, "forum_topic_is_hidden_toggled", MessageContentDetails::ForumTopicIsHiddenToggled { is_hidden })
        },
        ContentSource::SuggestProfilePhoto => plain(
            owned("Profile photo suggested"),
            "suggest_profile_photo",
            MessageContentDetails::SuggestProfilePhoto {},
        ),
        ContentSource::CustomServiceAction { text } => {
            let summary = owned(text.as_str());
            plain(summary, "custom_service_action", MessageContentDetails::CustomServiceAction { text })
        },
        ContentSource::GameScore { game_message_id, game_id, score } => {
            let s = num(score as i64);
            let text = concat2("Game score: ", s.as_str());
            plain(text, "game_score", MessageContentDetails::GameScore { game_message_id, game_id, score })
        },
        ContentSource::PaymentSuccessful {
            invoice_chat_id,
            invoice_message_id,
            currency,
            total_amount,
            is_recurring,
            invoice_name,
        } => {
            let amount = num(total_amount);
            let text = concat4("Payment: ", amount.as_str(), " ", currency.as_str());
            plain(text, "payment_successful", MessageContentDetails::PaymentSuccessful {
                invoice_chat_id,
                invoice_message_id,
                currency,
                total_amount,
                is_recurring,
                invoice_name: non_empty(invoice_name),
            })
        },
        ContentSource::PremiumGiftCode { is_from_giveaway, is_unclaimed, currency, amount, month_count, code } => {
            let m = num(month_count as i64);
            let text = concat3("Premium gift code (", m.as_str(), " months)");
            plain(text, "premium_gift_code", MessageContentDetails::PremiumGiftCode {
                is_from_giveaway,
                is_unclaimed,
                currency,
                amount,
                month_count,
                code,
            })
        },
        ContentSource::GiveawayCreated => plain(
            owned("Premium giveaway created"),
            "premium_giveaway_created",
            MessageContentDetails::GiveawayCreated {},
        ),
        ContentSource::Giveaway { winner_count, month_count } => {
            let w = num(winner_count as i64);
            let m = num(month_count as i64);
            let head = concat4("Premium giveaway (", w.as_str(), " winners, ", m.as_str());
            let text = concat2(head.as_str(), " months)");
            plain(text, "premium_giveaway", MessageContentDetails::Giveaway { winner_count })
        },
        ContentSource::GiveawayCompleted { giveaway_message_id, winner_count, unclaimed_prize_count } => {
            let w = num(winner_count as i64);
            let text = concat3("Premium giveaway completed (", w.as_str(), " winners)");
            plain(text, "premium_giveaway_completed", MessageContentDetails::GiveawayCompleted {
                giveaway_message_id,
                winner_count,
                unclaimed_prize_count,
            })
        },
        ContentSource::GiveawayWinners {
            boosted_chat_id,
            giveaway_message_id,
            winner_count,
            winner_user_ids,
            unclaimed_prize_count,
        } => {
            let w = num(winner_count as i64);
            let text = concat3("Premium giveaway winners (", w.as_str(), " winners)");
            plain(text, "premium_giveaway_winners", MessageContentDetails::GiveawayWinners {
                boosted_chat_id,
                giveaway_message_id,
                winner_count,
                winner_user_ids,
                unclaimed_prize_count,
            })
        },
        ContentSource::UsersShared { user_count, button_id } => {
            let n = usize_to_string(user_count);
            let text = concat3("Users shared (", n.as_str(), " users)");
            plain(text, "users_shared", MessageContentDetails::UsersShared { button_id })
        },
        ContentSource::ChatShared { button_id } => plain(
            owned("Chat shared"),
            "chat_shared",
            MessageContentDetails::ChatShared { button_id },
        ),
        ContentSource::BotWriteAccessAllowed => plain(
            owned("Bot write access allowed"),
            "bot_write_access_allowed",
            MessageContentDetails::BotWriteAccessAllowed {},
        ),
        ContentSource::WebAppDataSent { button_text } => {
            let text = concat2("Web app data sent: ", button_text.as_str());
            plain(text, "web_app_data_sent", MessageContentDetails::WebAppDataSent { button_text })
        },
        ContentSource::PassportDataSent => plain(
            owned("Passport data sent"),
            "passport_data_sent",
            MessageContentDetails::PassportDataSent {},
        ),
        ContentSource::ProximityAlertTriggered { distance } => {
            let d = num(distance as i64);
            let text = concat3("Proximity alert (", d.as_str(), "m)");
            plain(text, "proximity_alert_triggered", MessageContentDetails::ProximityAlertTriggered { distance })
        },
        ContentSource::ExpiredPhoto => plain(owned("Expired photo"), "expired_photo", MessageContentDetails::ExpiredPhoto {}),
        ContentSource::ExpiredVideo => plain(owned("Expired video"), "expired_video", MessageContentDetails::ExpiredVideo {}),
        ContentSource::ExpiredVideoNote => plain(
            owned("Expired video note"),
            "expired_video_note",
            MessageContentDetails::ExpiredVideoNote {},
        ),
        ContentSource::ExpiredVoiceNote => plain(
            owned("Expired voice note"),
            "expired_voice_note",
            MessageContentDetails::ExpiredVoiceNote {},
        ),
        ContentSource::Unsupported { tdlib_type } => plain(
            owned("[Unsupported]"),
            "unsupported",
            MessageContentDetails::Unsupported { tdlib_type },
        ),
        _ => {
            proof { assert(false); }
            plain(String::new(), "", MessageContentDetails::ExpiredPhoto {})
        },
    }
}

/// Everything read of a message's content.
pub open spec fn extracted_spec(r: ExtractedMessageData, c: ContentSource) -> bool {
    if is_media(c) { media_extracted(r, c) } else { other_extracted(r, c) }
}

/// Read a message's content: its summary line, content type, downloadable
/// files and details.
pub fn extract_message_data(content: ContentSource) -> (r: ExtractedMessageData)
    ensures
        extracted_spec(r, content),
{
    if is_media_content(&content) {
        extract_media(content)
    } else if is_info_content(&content) {
        extract_info(content)
    } else {
        extract_service(content)
    }
}

fn is_media_content(c: &ContentSource) -> (r: bool)
    ensures
        r == is_media(*c),
{
    match c {
        ContentSource::Text { .. } | ContentSource::Photo { .. } | ContentSource::Video { .. }
        | ContentSource::Document { .. } | ContentSource::Sticker { .. } | ContentSource::Audio { .. }
        | ContentSource::VoiceNote { .. } | ContentSource::Animation { .. } | ContentSource::VideoNote { .. }
        | ContentSource::AnimatedEmoji { .. } => true,
        _ => false,
    }
}

fn is_info_content(c: &ContentSource) -> (r: bool)
    ensures
        r == is_info(*c),
{
    match c {
        ContentSource::Location { .. } | ContentSource::Contact { .. } | ContentSource::Poll { .. }
        | ContentSource::Call { .. } | ContentSource::ContactRegistered | ContentSource::Venue { .. }
        | ContentSource::PinMessage { .. } | ContentSource::GiftedPremium { .. } | ContentSource::Dice { .. }
        | ContentSource::Game { .. } | ContentSource::Story { .. } | ContentSource::Invoice { .. }
        | ContentSource::VideoChatScheduled { .. } | ContentSource::VideoChatStarted { .. }
        | ContentSource::VideoChatEnded { .. } | ContentSource::InviteVideoChatParticipants { .. }
        | ContentSource::BasicGroupChatCreate { .. } | ContentSource::SupergroupChatCreate { .. }
        | ContentSource::ChatChangeTitle { .. } | ContentSource::ChatChangePhoto | ContentSource::ChatDeletePhoto
        | ContentSource::ChatAddMembers { .. } | ContentSource::ChatJoinByLink | ContentSource::ChatJoinByRequest
        | ContentSource::ChatDeleteMember { .. } | ContentSource::ChatUpgradeTo { .. }
        | ContentSource::ChatUpgradeFrom { .. } => true,
        _ => false,
    }
}

/// The summary line alone (the last message of a chat listing).
pub fn extract_message_text(content: ContentSource) -> (r: Option<String>)
    ensures
        r matches Some(t) && t@ == (if is_media(content) { media_summary_spec(content) } else { other_summary_spec(content) }),
{
    let d = extract_message_data(content);
    Some(d.text)
}

/// The caption of media that carries one.
pub open spec fn caption_of(c: ContentSource) -> Option<Seq<char>> {
    match c {
        ContentSource::Photo { caption, .. } => Some(caption@),
        ContentSource::Video { caption, .. } => Some(caption@),
        ContentSource::Document { caption, .. } => Some(caption@),
        _ => None,
    }
}

/// The word a captioned medium is announced by.
pub open spec fn media_word(c: ContentSource) -> Seq<char> {
    match c {
        ContentSource::Photo { .. } => "Photo"@,
        ContentSource::Video { .. } => "Video"@,
        ContentSource::Document { .. } => "Document"@,
        _ => Seq::empty(),
    }
}

/// Law: a caption that is not blank is what a photo, video or document
/// message says: its text is the kind of media, a colon and the caption, in
/// brackets, whatever the dimensions, duration or file name.
pub proof fn lemma_caption_is_the_text(r: ExtractedMessageData, c: ContentSource)
    requires
        extracted_spec(r, c),
        caption_of(c) matches Some(cap) && !all_ws(cap),
    ensures
        r.text@ == "["@ + media_word(c) + ": "@ + caption_of(c)->0 + "]"@,
{
    reveal_strlit("Photo");
    reveal_strlit("Video");
    reveal_strlit("Document");
    reveal_strlit("Photo: ");
    reveal_strlit("Video: ");
    reveal_strlit("Document: ");
    reveal_strlit(": ");
    let cap = caption_of(c)->0;
    match c {
        ContentSource::Photo { .. } => {
            assert("Photo: "@ =~= "Photo"@ + ": "@);
            assert(bracket("Photo: "@ + cap) =~= "["@ + "Photo"@ + ": "@ + cap + "]"@);
        },
        ContentSource::Video { .. } => {
            assert("Video: "@ =~= "Video"@ + ": "@);
            assert(bracket("Video: "@ + cap) =~= "["@ + "Video"@ + ": "@ + cap + "]"@);
        },
        ContentSource::Document { .. } => {
            assert("Document: "@ =~= "Document"@ + ": "@);
            assert(bracket("Document: "@ + cap) =~= "["@ + "Document"@ + ": "@ + cap + "]"@);
        },
        _ => {},
    }
}

/// The law of downloads: content offers files exactly when it is reported
/// downloadable.
pub proof fn lemma_downloadable_iff_files(r: ExtractedMessageData, c: ContentSource)
    requires
        extracted_spec(r, c),
    ensures
        r.is_downloadable <==> r.download_files@.len() > 0,
{
    if is_media(c) {
        match c {
            ContentSource::Photo { sizes, .. } => {
                if sizes@.len() > 0 {
                    assert(best_index(sizes@) is Some);
                }
            },
            ContentSource::AnimatedEmoji { sticker, sound, .. } => {},
            _ => {},
        }
    }
}

/// A fetched message as listings show it: the sender as named, the dates
/// rendered in UTC (no edit date for a message never edited), and what was
/// read of its content.
pub fn message_info_from(
    id: i64,
    chat_id: i64,
    sender_id: Option<i64>,
    sender: String,
    sender_is_bot: Option<bool>,
    date: i32,
    edit_date: i32,
    is_outgoing: bool,
    data: ExtractedMessageData,
) -> (r: MessageInfo)
    ensures
        r.id == id,
        r.chat_id == chat_id,
        r.sender_id == sender_id,
        r.sender == sender,
        r.sender_is_bot == sender_is_bot,
        r.text == data.text,
        r.date@ == match rfc3339_utc(date as i64) { Some(s) => s, None => "unknown"@ },
        r.timestamp == date,
        r.is_outgoing == is_outgoing,
        edit_date == 0 ==> r.edit_date is None,
        edit_date != 0 ==> opt_view(r.edit_date) == Some(
            match rfc3339_utc(edit_date as i64) { Some(s) => s, None => "unknown"@ },
        ),
        r.content_type == data.content_type,
        r.is_downloadable == data.is_downloadable,
        r.download_files == data.download_files,
        r.content == data.content,
{
    MessageInfo {
        id,
        chat_id,
        sender_id,
        sender,
        sender_is_bot,
        text: data.text,
        date: format_timestamp(date),
        timestamp: date,
        is_outgoing,
        edit_date: edit_date_text(edit_date),
        content_type: data.content_type,
        is_downloadable: data.is_downloadable,
        download_files: data.download_files,
        content: data.content,
    }
}

} // verus!
