//! What the commands hand back (chats, contacts, messages, downloads, the
//! user) and how each renders as plain text, plus the text measurements the
//! tables are laid out with.

use vstd::prelude::*;
use crate::style::{blue, bold, dimmed, green, painted, yellow};
use crate::text::{concat2, concat3, concat4, concat5, i64_to_string, int_str, owned};

verus! {

broadcast use vstd::string::group_string_axioms;

#[derive(Debug, Clone, Copy, PartialEq, Eq, Structural)]
pub enum OutputFormat {
    Plain,
    Json,
}

impl OutputFormat {
    pub fn from_json_flag(json: bool) -> (r: OutputFormat)
        ensures
            r == (if json { OutputFormat::Json } else { OutputFormat::Plain }),
    {
        if json {
            OutputFormat::Json
        } else {
            OutputFormat::Plain
        }
    }
}

/// A value with a one-line (or few-line) human rendering.
pub trait PlainText {
    fn to_plain_text(&self) -> String;
}

#[derive(Debug, Clone, PartialEq)]
pub struct ChatInfo {
    pub id: i64,
    pub name: String,
    pub unread_count: i32,
    pub last_message: Option<String>,
    /// Telegram's bot flag for the chat's single user counterpart; `None`
    /// when there is none (groups, channels) or it could not be read.
    pub is_bot: Option<bool>,
}

#[derive(Debug, Clone, PartialEq)]
pub struct ContactInfo {
    pub id: i64,
    pub name: String,
    pub username: Option<String>,
    pub phone: Option<String>,
    /// Telegram's bot flag for the user.
    pub is_bot: Option<bool>,
}

/// Structured description of a message's content. Floating-point fields
/// (coordinates, accuracy) are carried as their IEEE-754 bit patterns.
#[allow(inconsistent_fields)]
#[derive(Debug, Clone, PartialEq)]
pub enum MessageContentDetails {
    Text {
        text: String,
    },
    Photo {
        width: Option<i32>,
        height: Option<i32>,
        caption: Option<String>,
        has_spoiler: bool,
        is_secret: bool,
    },
    Video {
        width: i32,
        height: i32,
        duration_seconds: i32,
        caption: Option<String>,
        file_name: Option<String>,
        mime_type: Option<String>,
        has_spoiler: bool,
        is_secret: bool,
        supports_streaming: bool,
    },
    Document {
        caption: Option<String>,
        file_name: Option<String>,
        mime_type: Option<String>,
    },
    Sticker {
        emoji: Option<String>,
        width: i32,
        height: i32,
        format: String,
    },
    Audio {
        title: Option<String>,
        performer: Option<String>,
        duration_seconds: i32,
        caption: Option<String>,
        file_name: Option<String>,
        mime_type: Option<String>,
    },
    Voice {
        duration_seconds: i32,
        caption: Option<String>,
        mime_type: Option<String>,
        is_listened: bool,
    },
    Animation {
        width: i32,
        height: i32,
        duration_seconds: i32,
        caption: Option<String>,
        file_name: Option<String>,
        mime_type: Option<String>,
        has_spoiler: bool,
        is_secret: bool,
    },
    VideoNote {
        duration_seconds: i32,
        length: i32,
        is_viewed: bool,
        is_secret: bool,
    },
    Location {
        latitude: u64,
        longitude: u64,
        horizontal_accuracy: u64,
        live_period: i32,
        expires_in: i32,
        heading: i32,
        proximity_alert_radius: i32,
    },
    Contact {
        phone_number: String,
        first_name: String,
        last_name: Option<String>,
        user_id: i64,
        vcard: Option<String>,
    },
    Emoji {
        emoji: Option<String>,
        sticker_width: i32,
        sticker_height: i32,
        fitzpatrick_type: i32,
        sticker_format: Option<String>,
        custom_emoji_id: Option<i64>,
        has_sound: bool,
    },
    Poll {
        question: String,
        option_count: usize,
        total_voter_count: i32,
        is_anonymous: bool,
        is_closed: bool,
        poll_type: String,
    },
    Call {
        is_video: bool,
        discard_reason: String,
        duration_seconds: i32,
    },
    ContactRegistered {},
    Venue {
        title: String,
        address: String,
        latitude: u64,
        longitude: u64,
        provider: Option<String>,
    },
    PinMessage {
        pinned_message_id: i64,
    },
    GiftedPremium {
        gifter_user_id: i64,
        currency: String,
        amount: i64,
        month_count: i32,
    },
    Dice {
        emoji: String,
        value: i32,
    },
    Game {
        title: String,
        short_name: String,
        description: String,
    },
    Story {
        story_poster_chat_id: i64,
        story_id: i32,
        via_mention: bool,
    },
    Invoice {
        title: String,
        currency: String,
        total_amount: i64,
        is_test: bool,
    },
    VideoChatScheduled {
        group_call_id: i32,
        start_date: i32,
    },
    VideoChatStarted {
        group_call_id: i32,
    },
    VideoChatEnded {
        duration_seconds: i32,
    },
    InviteVideoChatParticipants {
        group_call_id: i32,
        user_ids: Vec<i64>,
    },
    BasicGroupChatCreate {
        title: String,
        member_user_ids: Vec<i64>,
    },
    SupergroupChatCreate {
        title: String,
    },
    ChatChangeTitle {
        title: String,
    },
    ChatChangePhoto {},
    ChatDeletePhoto {},
    ChatAddMembers {
        member_user_ids: Vec<i64>,
    },
    ChatJoinByLink {},
    ChatJoinByRequest {},
    ChatDeleteMember {
        user_id: i64,
    },
    ChatUpgradeTo {
        supergroup_id: i64,
    },
    ChatUpgradeFrom {
        title: String,
        basic_group_id: i64,
    },
    ScreenshotTaken {},
    ChatSetBackground {
        old_background_message_id: i64,
        only_for_self: bool,
    },
    ChatSetTheme {
        theme: Option<String>,
    },
    ChatSetMessageAutoDeleteTime {
        message_auto_delete_time: i32,
        from_user_id: i64,
    },
    ChatBoost {
        boost_count: i32,
    },
    ForumTopicCreated {
        name: String,
    },
    ForumTopicEdited {
        name: String,
        edit_icon_custom_emoji_id: bool,
        icon_custom_emoji_id: i64,
    },
    ForumTopicIsClosedToggled {
        is_closed: bool,
    },
    ForumTopicIsHiddenToggled {
        is_hidden: bool,
    },
    SuggestProfilePhoto {},
    CustomServiceAction {
        text: String,
    },
    GameScore {
        game_message_id: i64,
        game_id: i64,
        score: i32,
    },
    PaymentSuccessful {
        invoice_chat_id: i64,
        invoice_message_id: i64,
        currency: String,
        total_amount: i64,
        is_recurring: bool,
        invoice_name: Option<String>,
    },
    PremiumGiftCode {
        is_from_giveaway: bool,
        is_unclaimed: bool,
        currency: String,
        amount: i64,
        month_count: i32,
        code: String,
    },
    Giveaway {
        winner_count: i32,
    },
    GiveawayCompleted {
        giveaway_message_id: i64,
        winner_count: i32,
        unclaimed_prize_count: i32,
    },
    GiveawayCreated {},
    GiveawayWinners {
        boosted_chat_id: i64,
        giveaway_message_id: i64,
        winner_count: i32,
        winner_user_ids: Vec<i64>,
        unclaimed_prize_count: i32,
    },
    UsersShared {
        button_id: i32,
    },
    ChatShared {
        button_id: i32,
    },
    BotWriteAccessAllowed {},
    WebAppDataSent {
        button_text: String,
    },
    PassportDataSent {},
    ProximityAlertTriggered {
        distance: i32,
    },
    ExpiredPhoto {},
    ExpiredVideo {},
    ExpiredVideoNote {},
    ExpiredVoiceNote {},
    GroupCall {
        is_video: bool,
        duration: i32,
    },
    GiftedStars {
        gifter_user_id: i64,
        receiver_user_id: i64,
        star_count: i64,
    },
    PaidMedia {
        star_count: i64,
        caption: Option<String>,
    },
    Gift {},
    GiveawayPrizeStars {
        star_count: i64,
        giveaway_message_id: i64,
    },
    ChatOwnerChanged {
        new_owner_user_id: i64,
    },
    ChatOwnerLeft {
        new_owner_user_id: i64,
    },
    PaymentRefunded {
        currency: String,
        total_amount: i64,
    },
    Unsupported {
        tdlib_type: String,
    },
}

#[derive(Debug, Clone, PartialEq)]
pub struct MessageFileRef {
    pub file_id: i32,
    pub is_primary: bool,
    pub role: Option<String>,
    pub file_name: Option<String>,
    pub mime_type: Option<String>,
    pub size_bytes: i64,
    pub expected_size_bytes: i64,
    pub local_path: Option<String>,
    pub remote_id: Option<String>,
    pub remote_unique_id: Option<String>,
    pub can_be_downloaded: bool,
    pub is_downloaded: bool,
}

#[derive(Debug, Clone, PartialEq)]
pub struct MessageInfo {
    pub id: i64,
    pub chat_id: i64,
    pub sender_id: Option<i64>,
    pub sender: String,
    /// Telegram's bot flag for the sender: `None` when the sending user
    /// could not be read, `false` for a chat sending as itself.
    pub sender_is_bot: Option<bool>,
    pub text: String,
    pub date: String,
    /// Unix time of the message; not part of the wire form.
    pub timestamp: i32,
    pub is_outgoing: bool,
    pub edit_date: Option<String>,
    pub content_type: Option<String>,
    pub is_downloadable: bool,
    pub download_files: Vec<MessageFileRef>,
    pub content: Option<MessageContentDetails>,
}

#[derive(Debug, Clone, Copy, PartialEq, Eq, Structural)]
pub enum DownloadStatus {
    Downloaded,
    SkippedSameHash,
    RenamedConflict,
    Failed,
    NoDownloadableMedia,
}

#[derive(Debug, Clone, PartialEq)]
pub struct DownloadedFileResult {
    pub file_id: i32,
    pub is_primary: bool,
    pub status: DownloadStatus,
    pub role: Option<String>,
    pub file_name: Option<String>,
    pub mime_type: Option<String>,
    pub size_bytes: i64,
    pub expected_size_bytes: i64,
    pub source_path: Option<String>,
    pub saved_path: Option<String>,
    pub note: Option<String>,
}

#[derive(Debug, Clone, PartialEq)]
pub struct DownloadReport {
    pub chat_id: i64,
    pub message_id: i64,
    pub status: DownloadStatus,
    pub output_dir: String,
    pub content_type: Option<String>,
    pub content: Option<MessageContentDetails>,
    pub files: Vec<DownloadedFileResult>,
}

#[derive(Debug, Clone, PartialEq)]
pub struct UserInfo {
    pub id: i64,
    pub first_name: String,
    pub last_name: String,
    pub username: Option<String>,
    pub phone: Option<String>,
    /// Telegram's bot flag for the account.
    pub is_bot: Option<bool>,
}

/// An album element that arrived, with the id of its message.
#[derive(Debug, Clone, PartialEq, Eq)]
pub struct DeliveredElement {
    pub index: usize,
    pub message_id: i64,
}

/// An album element that was refused, with TDLib's reason.
#[derive(Debug, Clone, PartialEq, Eq)]
pub struct FailedElement {
    pub index: usize,
    pub error: String,
}

/// An album element whose fate was not reported, with its temporary
/// message id.
#[derive(Debug, Clone, PartialEq, Eq)]
pub struct UnconfirmedElement {
    pub index: usize,
    pub message_id: i64,
}

/// What became of each element of an album.
#[derive(Debug, Clone, PartialEq, Eq)]
pub struct MediaElements {
    pub delivered: Vec<DeliveredElement>,
    pub failed: Vec<FailedElement>,
    pub unconfirmed: Vec<UnconfirmedElement>,
}

/// The record of a send that delivered only part of an album: a caller
/// reads from it what arrived, so that it does not resend it.
#[derive(Debug, Clone, PartialEq, Eq)]
pub struct PartialSendResult {
    pub chat_id: i64,
    pub elements: MediaElements,
}

#[derive(Debug, Clone, Copy, PartialEq, Eq, Structural)]
pub struct SendResult {
    pub message_id: i64,
    pub chat_id: i64,
}

// ---------------------------------------------------------------------------
// Plain-text renderings
// ---------------------------------------------------------------------------

pub open spec fn opt_or(o: Option<String>, dflt: Seq<char>) -> Seq<char> {
    match o {
        Some(s) => s@,
        None => dflt,
    }
}

fn opt_str_or<'a>(o: &'a Option<String>, dflt: &'a str) -> (r: &'a str)
    ensures
        r@ == opt_or(*o, dflt@),
{
    match o {
        Some(s) => s.as_str(),
        None => dflt,
    }
}

impl PlainText for ChatInfo {
    /// `<id>  <name in bold>` followed by ` (<unread in yellow>)` when there is unread mail.
    fn to_plain_text(&self) -> (r: String)
        ensures
            exists|name: Seq<char>, count: Seq<char>| {
                &&& painted(seq!['1'], self.name@, name)
                &&& painted(seq!['3', '3'], int_str(self.unread_count as int), count)
                &&& r@ == int_str(self.id as int) + "  "@ + name + if self.unread_count > 0 {
                    " ("@ + count + ")"@
                } else {
                    Seq::<char>::empty()
                }
            },
    {
        let count = i64_to_string(self.unread_count as i64);
        let count_s = yellow(count.as_str());
        let unread = if self.unread_count > 0 {
            concat3(" (", count_s.as_str(), ")")
        } else {
            String::new()
        };
        let id = i64_to_string(self.id);
        let name = bold(self.name.as_str());
        let r = concat4(id.as_str(), "  ", name.as_str(), unread.as_str());
        assert(painted(seq!['1'], self.name@, name@) && painted(seq!['3', '3'], int_str(self.unread_count as int), count_s@));
        r
    }
}

impl PlainText for ContactInfo {
    /// `<name>  @<username or ->  <id>  <phone or ->`.
    fn to_plain_text(&self) -> (r: String)
        ensures
            r@ == self.name@ + "  @"@ + opt_or(self.username, "-"@) + "  "@ + int_str(self.id as int) + "  "@
                + opt_or(self.phone, "-"@),
    {
        let username = opt_str_or(&self.username, "-");
        let phone = opt_str_or(&self.phone, "-");
        let id = i64_to_string(self.id);
        let head = concat4(self.name.as_str(), "  @", username, "  ");
        concat4(head.as_str(), id.as_str(), "  ", phone)
    }
}

/// The sender column of the messages table: `You` for outgoing messages,
/// otherwise the sender's name with its id in parentheses when known.
pub open spec fn sender_cell_spec(m: MessageInfo) -> Seq<char> {
    if m.is_outgoing {
        "You"@
    } else {
        match m.sender_id {
            Some(id) => m.sender@ + " ("@ + int_str(id as int) + ")"@,
            None => m.sender@,
        }
    }
}

/// Law: an outgoing message is the user's own: its Sender cell is `You`,
/// whoever its sender field names.
pub proof fn lemma_outgoing_sender_is_you(m: MessageInfo)
    requires
        m.is_outgoing,
    ensures
        sender_cell_spec(m) == "You"@,
{
}

/// Law: an incoming message's Sender cell begins with the sender's name and
/// tells senders apart: two incoming messages from the same sender id show
/// the same cell only when their senders have the same name. When the id is
/// known it follows the name in parentheses.
pub proof fn lemma_incoming_sender_is_named(a: MessageInfo, b: MessageInfo)
    requires
        !a.is_outgoing,
        !b.is_outgoing,
    ensures
        sender_cell_spec(a).len() >= a.sender@.len(),
        sender_cell_spec(a).subrange(0, a.sender@.len() as int) == a.sender@,
        a.sender_id matches Some(id) ==> sender_cell_spec(a).subrange(a.sender@.len() as int, sender_cell_spec(a).len() as int)
            == " ("@ + int_str(id as int) + ")"@,
        a.sender_id == b.sender_id && sender_cell_spec(a) == sender_cell_spec(b) ==> a.sender@ == b.sender@,
{
    let ca = sender_cell_spec(a);
    let cb = sender_cell_spec(b);
    match a.sender_id {
        Some(id) => {
            let tail = " ("@ + int_str(id as int) + ")"@;
            assert(ca =~= a.sender@ + tail);
            assert(ca.subrange(0, a.sender@.len() as int) =~= a.sender@);
            assert(ca.subrange(a.sender@.len() as int, ca.len() as int) =~= tail);
            if a.sender_id == b.sender_id && ca == cb {
                assert(cb =~= b.sender@ + tail);
                assert(a.sender@.len() == b.sender@.len());
                assert(a.sender@ =~= ca.subrange(0, a.sender@.len() as int));
                assert(b.sender@ =~= cb.subrange(0, b.sender@.len() as int));
            }
        },
        None => {
            assert(ca.subrange(0, a.sender@.len() as int) =~= a.sender@);
        },
    }
}

pub fn sender_cell(m: &MessageInfo) -> (r: String)
    ensures
        r@ == sender_cell_spec(*m),
{
    if m.is_outgoing {
        owned("You")
    } else {
        match m.sender_id {
            Some(id) => {
                let n = i64_to_string(id);
                concat4(m.sender.as_str(), " (", n.as_str(), ")")
            },
            None => m.sender.clone(),
        }
    }
}

impl PlainText for MessageInfo {
    /// `[<date dimmed>] <sender>: <text>`, the sender being `You` in blue for
    /// outgoing messages, otherwise the name in green with the id when known.
    fn to_plain_text(&self) -> (r: String)
        ensures
            exists|date: Seq<char>, sender: Seq<char>| {
                &&& painted(seq!['2'], self.date@, date)
                &&& if self.is_outgoing {
                    painted(seq!['3', '4'], "You"@, sender)
                } else {
                    exists|name: Seq<char>| {
                        &&& painted(seq!['3', '2'], self.sender@, name)
                        &&& sender == match self.sender_id {
                            Some(id) => name + " ("@ + int_str(id as int) + ")"@,
                            None => name,
                        }
                    }
                }
                &&& r@ == "["@ + date + "] "@ + sender + ": "@ + self.text@
            },
    {
        let sender = if self.is_outgoing {
            blue("You")
        } else {
            let name = green(self.sender.as_str());
            match self.sender_id {
                Some(id) => {
                    let n = i64_to_string(id);
                    let s = concat4(name.as_str(), " (", n.as_str(), ")");
                    assert(painted(seq!['3', '2'], self.sender@, name@));
                    s
                },
                None => {
                    assert(painted(seq!['3', '2'], self.sender@, name@));
                    name
                },
            }
        };
        let date = dimmed(self.date.as_str());
        let r = concat5("[", date.as_str(), "] ", sender.as_str(), ": ");
        let r = concat2(r.as_str(), self.text.as_str());
        assert(painted(seq!['2'], self.date@, date@));
        r
    }
}

/// How `{:?}` renders a download status.
pub open spec fn status_name(s: DownloadStatus) -> Seq<char> {
    match s {
        DownloadStatus::Downloaded => "Downloaded"@,
        DownloadStatus::SkippedSameHash => "SkippedSameHash"@,
        DownloadStatus::RenamedConflict => "RenamedConflict"@,
        DownloadStatus::Failed => "Failed"@,
        DownloadStatus::NoDownloadableMedia => "NoDownloadableMedia"@,
    }
}

pub fn status_debug(s: DownloadStatus) -> (r: &'static str)
    ensures
        r@ == status_name(s),
{
    match s {
        DownloadStatus::Downloaded => "Downloaded",
        DownloadStatus::SkippedSameHash => "SkippedSameHash",
        DownloadStatus::RenamedConflict => "RenamedConflict",
        DownloadStatus::Failed => "Failed",
        DownloadStatus::NoDownloadableMedia => "NoDownloadableMedia",
    }
}

/// One line per downloaded file: `file_id=<id> status=<status>` with the saved
/// path and the name appended when known.
pub open spec fn file_line(f: DownloadedFileResult) -> Seq<char> {
    "file_id="@ + int_str(f.file_id as int) + " status="@ + status_name(f.status)
        + match f.saved_path { Some(p) => " path="@ + p@, None => Seq::<char>::empty() }
        + match f.file_name { Some(n) => " name="@ + n@, None => Seq::<char>::empty() }
}

/// The report's lines, newline-separated.
pub open spec fn report_lines(r: DownloadReport, n: int) -> Seq<char>
    decreases n,
{
    if n <= 0 {
        "chat="@ + int_str(r.chat_id as int) + " message="@ + int_str(r.message_id as int)
            + " status="@ + status_name(r.status) + "\n"@ + "output="@ + r.output_dir@
    } else {
        report_lines(r, n - 1) + "\n"@ + file_line(r.files@[n - 1])
    }
}

fn file_line_exec(f: &DownloadedFileResult) -> (r: String)
    ensures
        r@ == file_line(*f),
{
    let id = i64_to_string(f.file_id as i64);
    let mut line = concat4("file_id=", id.as_str(), " status=", status_debug(f.status));
    match &f.saved_path {
        Some(p) => {
            line = concat3(line.as_str(), " path=", p.as_str());
        },
        None => {},
    }
    match &f.file_name {
        Some(n) => {
            line = concat3(line.as_str(), " name=", n.as_str());
        },
        None => {},
    }
    line
}

impl PlainText for DownloadReport {
    fn to_plain_text(&self) -> (r: String)
        ensures
            r@ == report_lines(*self, self.files@.len() as int),
    {
        let chat = i64_to_string(self.chat_id);
        let msg = i64_to_string(self.message_id);
        let head = concat5("chat=", chat.as_str(), " message=", msg.as_str(), " status=");
        let head = concat3(head.as_str(), status_debug(self.status), "\n");
        let mut out = concat3(head.as_str(), "output=", self.output_dir.as_str());
        let mut i: usize = 0;
        while i < self.files.len()
            invariant
                0 <= i <= self.files@.len(),
                out@ == report_lines(*self, i as int),
            decreases self.files@.len() - i,
        {
            let line = file_line_exec(&self.files[i]);
            out = concat3(out.as_str(), "\n", line.as_str());
            i = i + 1;
        }
        out
    }
}

/// `ID: <id>`, `Name: <first[ last]>`, then the username and phone when known.
pub open spec fn user_text(u: UserInfo) -> Seq<char> {
    "ID: "@ + int_str(u.id as int) + "\n"@ + "Name: "@ + (if u.last_name@.len() == 0 {
        u.first_name@
    } else {
        u.first_name@ + " "@ + u.last_name@
    }) + match u.username { Some(n) => "\n"@ + "Username: @"@ + n@, None => Seq::<char>::empty() }
        + match u.phone { Some(p) => "\n"@ + "Phone: "@ + p@, None => Seq::<char>::empty() }
}

impl PlainText for UserInfo {
    fn to_plain_text(&self) -> (r: String)
        ensures
            r@ == user_text(*self),
    {
        let id = i64_to_string(self.id);
        let name = if self.last_name.as_str().unicode_len() == 0 {
            self.first_name.clone()
        } else {
            concat3(self.first_name.as_str(), " ", self.last_name.as_str())
        };
        let mut out = concat4("ID: ", id.as_str(), "\n", "Name: ");
        out = concat2(out.as_str(), name.as_str());
        match &self.username {
            Some(n) => {
                out = concat4(out.as_str(), "\n", "Username: @", n.as_str());
            },
            None => {},
        }
        match &self.phone {
            Some(p) => {
                out = concat4(out.as_str(), "\n", "Phone: ", p.as_str());
            },
            None => {},
        }
        out
    }
}

impl PlainText for SendResult {
    fn to_plain_text(&self) -> (r: String)
        ensures
            r@ == "Message sent (id: "@ + int_str(self.message_id as int) + ")"@,
    {
        let id = i64_to_string(self.message_id);
        concat3("Message sent (id: ", id.as_str(), ")")
    }
}

/// The username column of the contacts table.
pub fn contact_username_cell(username: &Option<String>) -> (r: String)
    ensures
        r@ == match username { Some(u) => "@"@ + u@, None => "-"@ },
{
    match username {
        Some(u) => concat2("@", u.as_str()),
        None => owned("-"),
    }
}

} // verus!
