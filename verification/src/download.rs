//! Saving message media: the file names a download is saved under, the
//! name a conflicting file is renamed to, the notes and statuses each file
//! gets, and the status of the whole download. The caller moves the bytes.

use vstd::prelude::*;
use crate::media::opt_view;
use crate::error::{error_text, TgError};
use crate::extract::ExtractedMessageData;
use crate::output::{DownloadReport, DownloadStatus, DownloadedFileResult, MessageFileRef};
use crate::text::{
    chars_of, clone_opt, concat2, concat3, concat4, concat5, i64_to_string, int_str, is_ctrl,
    is_control, owned, push_char, str_eq, trim, trim_spec, u64_to_string, usize_to_string,
};

verus! {

// ---------------------------------------------------------------------------
// File names
// ---------------------------------------------------------------------------

/// The character a file name may not carry is replaced by `_`.
pub open spec fn safe_char(c: char) -> char {
    if c == '/' || c == '\\' || c == ':' || c == '*' || c == '?' || c == '"' || c == '<' || c == '>' || c == '|'
        || is_ctrl(c) {
        '_'
    } else {
        c
    }
}

/// `name` trimmed (`download` when nothing is left), with path separators,
/// reserved punctuation and control characters replaced by `_`.
pub open spec fn sanitize_spec(name: Seq<char>) -> Seq<char> {
    let t = trim_spec(name);
    let source = if t.len() == 0 { "download"@ } else { t };
    source.map_values(|c: char| safe_char(c))
}

/// A name safe to create in the output directory.
pub fn sanitize_filename(name: &str) -> (r: String)
    ensures
        r@ == sanitize_spec(name@),
{
    let trimmed = trim(name);
    let source: String = if trimmed.as_str().unicode_len() == 0 {
        proof { reveal_strlit("download"); }
        owned("download")
    } else {
        trimmed
    };
    let chars = chars_of(source.as_str());
    let ghost src = source@;
    let mut r = String::new();
    let mut i: usize = 0;
    while i < chars.len()
        invariant
            0 <= i <= chars@.len(),
            chars@ == src,
            r@ == src.take(i as int).map_values(|c: char| safe_char(c)),
        decreases chars@.len() - i,
    {
        let c = chars[i];
        let out = if c == '/' || c == '\\' || c == ':' || c == '*' || c == '?' || c == '"' || c == '<' || c == '>'
            || c == '|' || is_control(c) {
            '_'
        } else {
            c
        };
        push_char(&mut r, out);
        assert(src.take(i + 1).map_values(|c: char| safe_char(c)) =~= src.take(i as int).map_values(
            |c: char| safe_char(c),
        ).push(safe_char(c)));
        i = i + 1;
    }
    assert(src.take(src.len() as int) == src);
    r
}

/// The extension for a MIME type the downloads know.
pub open spec fn mime_ext_spec(mime: Seq<char>) -> Option<Seq<char>> {
    if mime == "image/jpeg"@ { Some("jpg"@) }
    else if mime == "image/png"@ { Some("png"@) }
    else if mime == "image/gif"@ { Some("gif"@) }
    else if mime == "video/mp4"@ { Some("mp4"@) }
    else if mime == "audio/mpeg"@ { Some("mp3"@) }
    else if mime == "audio/ogg"@ { Some("ogg"@) }
    else if mime == "audio/mp4"@ { Some("m4a"@) }
    else if mime == "application/pdf"@ { Some("pdf"@) }
    else { None }
}

/// Law: distinct MIME types are saved under distinct extensions, so an
/// extension never passes one format off as another.
pub proof fn lemma_mime_extension_injective(a: Seq<char>, b: Seq<char>)
    requires
        mime_ext_spec(a) is Some,
        mime_ext_spec(a) == mime_ext_spec(b),
    ensures
        a == b,
{
    reveal_strlit("image/jpeg");
    reveal_strlit("image/png");
    reveal_strlit("image/gif");
    reveal_strlit("video/mp4");
    reveal_strlit("audio/mpeg");
    reveal_strlit("audio/ogg");
    reveal_strlit("audio/mp4");
    reveal_strlit("application/pdf");
    reveal_strlit("jpg");
    reveal_strlit("png");
    reveal_strlit("gif");
    reveal_strlit("mp4");
    reveal_strlit("mp3");
    reveal_strlit("ogg");
    reveal_strlit("m4a");
    reveal_strlit("pdf");
    reveal_strlit("image/");
    reveal_strlit("video/");
    reveal_strlit("audio/");
    reveal_strlit("application/");
    assert("jpg"@.len() == 3 && "jpg"@[0] == 'j' && "jpg"@[1] == 'p' && "jpg"@[2] == 'g');
    assert("png"@.len() == 3 && "png"@[0] == 'p' && "png"@[1] == 'n' && "png"@[2] == 'g');
    assert("gif"@.len() == 3 && "gif"@[0] == 'g' && "gif"@[1] == 'i' && "gif"@[2] == 'f');
    assert("mp4"@.len() == 3 && "mp4"@[0] == 'm' && "mp4"@[1] == 'p' && "mp4"@[2] == '4');
    assert("mp3"@.len() == 3 && "mp3"@[0] == 'm' && "mp3"@[1] == 'p' && "mp3"@[2] == '3');
    assert("ogg"@.len() == 3 && "ogg"@[0] == 'o' && "ogg"@[1] == 'g' && "ogg"@[2] == 'g');
    assert("m4a"@.len() == 3 && "m4a"@[0] == 'm' && "m4a"@[1] == '4' && "m4a"@[2] == 'a');
    assert("pdf"@.len() == 3 && "pdf"@[0] == 'p' && "pdf"@[1] == 'd' && "pdf"@[2] == 'f');
}

/// Law: the extension names the type's format: it is the MIME subtype
/// itself, except for the customary short names of JPEG (`jpg`), MPEG audio
/// (`mp3`) and MPEG-4 audio (`m4a`); every extension has three letters.
pub proof fn lemma_mime_extension_is_subtype(m: Seq<char>, e: Seq<char>)
    requires
        mime_ext_spec(m) == Some(e),
    ensures
        e.len() == 3,
        ({
            ||| m == "image/"@ + e
            ||| m == "video/"@ + e
            ||| m == "audio/"@ + e
            ||| m == "application/"@ + e
            ||| m == "image/jpeg"@ && e == "jpg"@
            ||| m == "audio/mpeg"@ && e == "mp3"@
            ||| m == "audio/mp4"@ && e == "m4a"@
        }),
{
    reveal_strlit("image/jpeg");
    reveal_strlit("image/png");
    reveal_strlit("image/gif");
    reveal_strlit("video/mp4");
    reveal_strlit("audio/mpeg");
    reveal_strlit("audio/ogg");
    reveal_strlit("audio/mp4");
    reveal_strlit("application/pdf");
    reveal_strlit("jpg");
    reveal_strlit("png");
    reveal_strlit("gif");
    reveal_strlit("mp4");
    reveal_strlit("mp3");
    reveal_strlit("ogg");
    reveal_strlit("m4a");
    reveal_strlit("pdf");
    reveal_strlit("image/");
    reveal_strlit("video/");
    reveal_strlit("audio/");
    reveal_strlit("application/");
    if m == "image/png"@ {
        assert(m =~= "image/"@ + e);
    } else if m == "image/gif"@ {
        assert(m =~= "image/"@ + e);
    } else if m == "video/mp4"@ {
        assert(m =~= "video/"@ + e);
    } else if m == "audio/ogg"@ {
        assert(m =~= "audio/"@ + e);
    } else if m == "application/pdf"@ {
        assert(m =~= "application/"@ + e);
    }
}

pub open spec fn static_view(o: Option<&'static str>) -> Option<Seq<char>> {
    match o {
        Some(s) => Some(s@),
        None => None,
    }
}

pub fn mime_extension(mime: &str) -> (r: Option<&'static str>)
    ensures
        static_view(r) == mime_ext_spec(mime@),
{
    if str_eq(mime, "image/jpeg") { Some("jpg") }
    else if str_eq(mime, "image/png") { Some("png") }
    else if str_eq(mime, "image/gif") { Some("gif") }
    else if str_eq(mime, "video/mp4") { Some("mp4") }
    else if str_eq(mime, "audio/mpeg") { Some("mp3") }
    else if str_eq(mime, "audio/ogg") { Some("ogg") }
    else if str_eq(mime, "audio/mp4") { Some("m4a") }
    else if str_eq(mime, "application/pdf") { Some("pdf") }
    else { None }
}

/// The extension a content type implies when nothing else names one.
pub open spec fn content_ext_spec(content_type: Option<Seq<char>>) -> Option<Seq<char>> {
    match content_type {
        Some(t) => if t == "photo"@ { Some("jpg"@) }
            else if t == "video"@ || t == "video_note"@ || t == "animation"@ { Some("mp4"@) }
            else if t == "audio"@ { Some("mp3"@) }
            else if t == "voice"@ { Some("ogg"@) }
            else if t == "sticker"@ { Some("webp"@) }
            else { None },
        None => None,
    }
}

pub fn content_type_extension(content_type: Option<&str>) -> (r: Option<&'static str>)
    ensures
        static_view(r) == content_ext_spec(match content_type { Some(t) => Some(t@), None => None }),
{
    match content_type {
        Some(t) => {
            if str_eq(t, "photo") { Some("jpg") }
            else if str_eq(t, "video") || str_eq(t, "video_note") || str_eq(t, "animation") { Some("mp4") }
            else if str_eq(t, "audio") { Some("mp3") }
            else if str_eq(t, "voice") { Some("ogg") }
            else if str_eq(t, "sticker") { Some("webp") }
            else { None }
        },
        None => None,
    }
}

/// The stem of the final component of a path, as `Path::file_stem` computes it.
pub uninterp spec fn path_stem(path: Seq<char>) -> Option<Seq<char>>;

/// The extension of the final component of a path, as `Path::extension`
/// computes it.
pub uninterp spec fn path_ext(path: Seq<char>) -> Option<Seq<char>>;

/// `Path::new(path).file_stem()`, rendered as a `String`.
#[verifier::external_body]
fn file_stem_of(path: &str) -> (r: Option<String>)
    ensures
        opt_view(r) == path_stem(path@),
{
    std::path::Path::new(path).file_stem().map(|s| s.to_string_lossy().into_owned())
}

/// `Path::new(path).extension()`, rendered as a `String`.
#[verifier::external_body]
fn extension_of(path: &str) -> (r: Option<String>)
    ensures
        opt_view(r) == path_ext(path@),
{
    std::path::Path::new(path).extension().map(|s| s.to_string_lossy().into_owned())
}

/// The sender's file name made safe, or `chat{chat}_message{message}_file{id}`
/// when it has none (or nothing is left of it).
pub open spec fn base_name_spec(chat_id: i64, message_id: i64, file_ref: MessageFileRef) -> Seq<char> {
    match file_ref.file_name {
        Some(n) if sanitize_spec(n@).len() > 0 => sanitize_spec(n@),
        _ => "chat"@ + int_str(chat_id as int) + "_message"@ + int_str(message_id as int) + "_file"@ + int_str(
            file_ref.file_id as int,
        ),
    }
}

/// The saved name from the base name and what the path functions found in
/// it (`stem`, `ext`): the stem (the base itself when it has none), marked
/// `__primary` or `__file{index}` when the message has several files, with
/// the base's extension, else the MIME type's, else the content type's,
/// else `bin`.
pub open spec fn filename_from_parts_spec(
    base: Seq<char>,
    stem: Option<Seq<char>>,
    ext: Option<Seq<char>>,
    file_ref: MessageFileRef,
    content_type: Option<Seq<char>>,
    multi_file: bool,
    index: usize,
) -> Seq<char> {
    let stem0 = match stem {
        Some(s) if s.len() > 0 => s,
        _ => base,
    };
    let stem1 = if multi_file {
        if file_ref.is_primary { stem0 + "__primary"@ } else { stem0 + "__file"@ + int_str(index as int) }
    } else {
        stem0
    };
    let e = match ext {
        Some(e) if e.len() > 0 => e,
        _ => match (match file_ref.mime_type { Some(m) => mime_ext_spec(m@), None => None }) {
            Some(e) => e,
            None => match content_ext_spec(content_type) {
                Some(e) => e,
                None => "bin"@,
            },
        },
    };
    stem1 + "."@ + e
}

/// The name a file is saved under before any conflict is resolved.
pub open spec fn download_filename_spec(
    chat_id: i64,
    message_id: i64,
    file_ref: MessageFileRef,
    content_type: Option<Seq<char>>,
    multi_file: bool,
    index: usize,
) -> Seq<char> {
    let base = base_name_spec(chat_id, message_id, file_ref);
    filename_from_parts_spec(base, path_stem(base), path_ext(base), file_ref, content_type, multi_file, index)
}

/// The base of a saved name.
pub fn download_base_name(chat_id: i64, message_id: i64, file_ref: &MessageFileRef) -> (r: String)
    ensures
        r@ == base_name_spec(chat_id, message_id, *file_ref),
{
    let sanitized: Option<String> = match &file_ref.file_name {
        Some(n) => {
            let s = sanitize_filename(n.as_str());
            if s.as_str().unicode_len() > 0 { Some(s) } else { None }
        },
        None => None,
    };
    match sanitized {
        Some(s) => s,
        None => {
            let c = i64_to_string(chat_id);
            let m = i64_to_string(message_id);
            let f = i64_to_string(file_ref.file_id as i64);
            let head = concat4("chat", c.as_str(), "_message", m.as_str());
            concat3(head.as_str(), "_file", f.as_str())
        },
    }
}

/// The saved name from the base name and its stem and extension as the path
/// functions found them.
pub fn filename_from_parts(
    base: &str,
    stem: Option<String>,
    ext: Option<String>,
    file_ref: &MessageFileRef,
    content_type: Option<&str>,
    multi_file: bool,
    index: usize,
) -> (r: String)
    ensures
        r@ == filename_from_parts_spec(
            base@,
            opt_view(stem),
            opt_view(ext),
            *file_ref,
            match content_type { Some(t) => Some(t@), None => None },
            multi_file,
            index,
        ),
{
    let stem0: String = match stem {
        Some(s) => if s.as_str().unicode_len() > 0 { s } else { owned(base) },
        None => owned(base),
    };
    let stem1: String = if multi_file {
        if file_ref.is_primary {
            concat2(stem0.as_str(), "__primary")
        } else {
            let i = usize_to_string(index);
            concat3(stem0.as_str(), "__file", i.as_str())
        }
    } else {
        stem0
    };
    let e: String = match ext {
        Some(e) if e.as_str().unicode_len() > 0 => e,
        _ => {
            let from_mime: Option<&'static str> = match &file_ref.mime_type {
                Some(m) => mime_extension(m.as_str()),
                None => None,
            };
            match from_mime {
                Some(e) => owned(e),
                None => match content_type_extension(content_type) {
                    Some(e) => owned(e),
                    None => owned("bin"),
                },
            }
        },
    };
    concat3(stem1.as_str(), ".", e.as_str())
}

pub fn build_download_filename(
    chat_id: i64,
    message_id: i64,
    file_ref: &MessageFileRef,
    content_type: Option<&str>,
    multi_file: bool,
    index: usize,
) -> (r: String)
    ensures
        r@ == download_filename_spec(
            chat_id,
            message_id,
            *file_ref,
            match content_type { Some(t) => Some(t@), None => None },
            multi_file,
            index,
        ),
{
    let base = download_base_name(chat_id, message_id, file_ref);
    let stem = file_stem_of(base.as_str());
    let ext = extension_of(base.as_str());
    filename_from_parts(base.as_str(), stem, ext, file_ref, content_type, multi_file, index)
}

/// The name `stem (counter).ext` (or `stem (counter)` without an extension)
/// tried when the saved name is taken.
pub open spec fn numbered_name_spec(stem: Seq<char>, ext: Option<Seq<char>>, counter: u32) -> Seq<char> {
    match ext {
        Some(e) => stem + " ("@ + int_str(counter as int) + ")."@ + e,
        None => stem + " ("@ + int_str(counter as int) + ")"@,
    }
}

pub fn numbered_name(stem: &str, ext: &Option<String>, counter: u32) -> (r: String)
    ensures
        r@ == numbered_name_spec(stem@, opt_view(*ext), counter),
{
    let n = u64_to_string(counter as u64);
    match ext {
        Some(e) => concat5(stem, " (", n.as_str(), ").", e.as_str()),
        None => concat4(stem, " (", n.as_str(), ")"),
    }
}

/// What the renaming keeps of a taken path: its stem (`file` when it has
/// none) and its extension.
pub fn conflict_parts(path: &str) -> (r: (String, Option<String>))
    ensures
        r.0@ == match path_stem(path@) { Some(s) => s, None => "file"@ },
        opt_view(r.1) == path_ext(path@),
{
    let stem = match file_stem_of(path) {
        Some(s) => s,
        None => owned("file"),
    };
    (stem, extension_of(path))
}

// ---------------------------------------------------------------------------
// Per-file results
// ---------------------------------------------------------------------------

/// The result a file starts from: what the message said of it, status
/// `Downloaded`, no paths and no note yet.
pub fn start_file_result(file_ref: &MessageFileRef) -> (r: DownloadedFileResult)
    ensures
        r.file_id == file_ref.file_id,
        r.is_primary == file_ref.is_primary,
        r.status == DownloadStatus::Downloaded,
        opt_view(r.role) == opt_view(file_ref.role),
        opt_view(r.file_name) == opt_view(file_ref.file_name),
        opt_view(r.mime_type) == opt_view(file_ref.mime_type),
        r.size_bytes == file_ref.size_bytes,
        r.expected_size_bytes == file_ref.expected_size_bytes,
        r.source_path is None,
        r.saved_path is None,
        r.note is None,
{
    DownloadedFileResult {
        file_id: file_ref.file_id,
        is_primary: file_ref.is_primary,
        status: DownloadStatus::Downloaded,
        role: clone_opt(&file_ref.role),
        file_name: clone_opt(&file_ref.file_name),
        mime_type: clone_opt(&file_ref.mime_type),
        size_bytes: file_ref.size_bytes,
        expected_size_bytes: file_ref.expected_size_bytes,
        source_path: None,
        saved_path: None,
        note: None,
    }
}

/// The note of a file TDLib reported with no local path.
pub fn empty_path_note() -> (r: String)
    ensures
        r@ == "TDLib returned empty local file path"@,
{
    owned("TDLib returned empty local file path")
}

/// The note of a downloaded file that is not where TDLib said.
pub fn missing_source_note(source: &str) -> (r: String)
    ensures
        r@ == "Downloaded source file not found: "@ + source@,
{
    concat2("Downloaded source file not found: ", source)
}

/// The note of a file skipped because the saved copy has its hash.
pub fn same_hash_note() -> (r: String)
    ensures
        r@ == "Existing file has matching SHA256"@,
{
    owned("Existing file has matching SHA256")
}

/// The note of a file whose hash could not be compared.
pub fn hash_failure_note(err: &str) -> (r: String)
    ensures
        r@ == "Failed to compare SHA256: "@ + err@,
{
    concat2("Failed to compare SHA256: ", err)
}

/// The note of a file that could not be copied into place.
pub fn copy_failure_note(source: &str, destination: &str, err: &str) -> (r: String)
    ensures
        r@ == "Failed to copy "@ + source@ + " to "@ + destination@ + ": "@ + err@,
{
    let head = concat4("Failed to copy ", source, " to ", destination);
    concat3(head.as_str(), ": ", err)
}

/// `result` marked failed with `note`; the rest is kept.
pub fn fail_file(result: DownloadedFileResult, note: String) -> (r: DownloadedFileResult)
    ensures
        r.status == DownloadStatus::Failed,
        r.note == Some(note),
        r.file_id == result.file_id,
        r.is_primary == result.is_primary,
        r.role == result.role,
        r.file_name == result.file_name,
        r.mime_type == result.mime_type,
        r.size_bytes == result.size_bytes,
        r.expected_size_bytes == result.expected_size_bytes,
        r.source_path == result.source_path,
        r.saved_path == result.saved_path,
{
    DownloadedFileResult { status: DownloadStatus::Failed, note: Some(note), ..result }
}

// ---------------------------------------------------------------------------
// The whole download
// ---------------------------------------------------------------------------

/// The status of a download from its files' statuses: any failure fails
/// it, else any rename marks it renamed, else it is skipped when every
/// file was skipped, and downloaded otherwise.
pub open spec fn overall_status_spec(st: Seq<DownloadStatus>) -> DownloadStatus {
    if st.contains(DownloadStatus::Failed) {
        DownloadStatus::Failed
    } else if st.contains(DownloadStatus::RenamedConflict) {
        DownloadStatus::RenamedConflict
    } else if forall|i: int| 0 <= i < st.len() ==> st[i] == DownloadStatus::SkippedSameHash {
        DownloadStatus::SkippedSameHash
    } else {
        DownloadStatus::Downloaded
    }
}

pub open spec fn statuses(files: Seq<DownloadedFileResult>) -> Seq<DownloadStatus> {
    files.map_values(|f: DownloadedFileResult| f.status)
}

pub fn overall_status(files: &Vec<DownloadedFileResult>) -> (r: DownloadStatus)
    ensures
        r == overall_status_spec(statuses(files@)),
{
    let ghost st = statuses(files@);
    let mut any_failed = false;
    let mut any_renamed = false;
    let mut all_skipped = true;
    let mut i: usize = 0;
    while i < files.len()
        invariant
            0 <= i <= files@.len(),
            st == statuses(files@),
            any_failed == st.take(i as int).contains(DownloadStatus::Failed),
            any_renamed == st.take(i as int).contains(DownloadStatus::RenamedConflict),
            all_skipped == (forall|k: int| 0 <= k < i ==> st[k] == DownloadStatus::SkippedSameHash),
        decreases files@.len() - i,
    {
        let s = files[i].status;
        proof {
            let t = st.take(i + 1);
            assert(t == st.take(i as int).push(s));
            assert(t.contains(DownloadStatus::Failed) == (st.take(i as int).contains(DownloadStatus::Failed) || s
                == DownloadStatus::Failed)) by {
                if s == DownloadStatus::Failed {
                    assert(t[i as int] == s);
                }
                if st.take(i as int).contains(DownloadStatus::Failed) {
                    let k = choose|k: int| 0 <= k < i && st.take(i as int)[k] == DownloadStatus::Failed;
                    assert(t[k] == DownloadStatus::Failed);
                }
            }
            assert(t.contains(DownloadStatus::RenamedConflict) == (st.take(i as int).contains(
                DownloadStatus::RenamedConflict,
            ) || s == DownloadStatus::RenamedConflict)) by {
                if s == DownloadStatus::RenamedConflict {
                    assert(t[i as int] == s);
                }
                if st.take(i as int).contains(DownloadStatus::RenamedConflict) {
                    let k = choose|k: int| 0 <= k < i && st.take(i as int)[k] == DownloadStatus::RenamedConflict;
                    assert(t[k] == DownloadStatus::RenamedConflict);
                }
            }
        }
        if s == DownloadStatus::Failed {
            any_failed = true;
        }
        if s == DownloadStatus::RenamedConflict {
            any_renamed = true;
        }
        if s != DownloadStatus::SkippedSameHash {
            all_skipped = false;
        }
        i = i + 1;
    }
    assert(st.take(st.len() as int) == st);
    if any_failed {
        DownloadStatus::Failed
    } else if any_renamed {
        DownloadStatus::RenamedConflict
    } else if all_skipped {
        DownloadStatus::SkippedSameHash
    } else {
        DownloadStatus::Downloaded
    }
}

// ---------------------------------------------------------------------------
// Timestamps
// ---------------------------------------------------------------------------

/// The RFC 3339 rendering (`YYYY-MM-DDTHH:MM:SSZ`) of a Unix time, as
/// `chrono` writes it, or `None` when the time is out of its range.
pub uninterp spec fn rfc3339_utc(timestamp: i64) -> Option<Seq<char>>;

/// `DateTime::<Utc>::from_timestamp(t, 0)` rendered by
/// `to_rfc3339_opts(SecondsFormat::Secs, true)`.
#[verifier::external_body]
fn render_rfc3339(timestamp: i64) -> (r: Option<String>)
    ensures
        opt_view(r) == rfc3339_utc(timestamp),
{
    chrono::DateTime::<chrono::Utc>::from_timestamp(timestamp, 0)
        .map(|dt| dt.to_rfc3339_opts(chrono::SecondsFormat::Secs, true))
}

/// A message date as shown to users: RFC 3339 in UTC, or `unknown`.
pub fn format_timestamp(timestamp: i32) -> (r: String)
    ensures
        r@ == match rfc3339_utc(timestamp as i64) { Some(s) => s, None => "unknown"@ },
{
    match render_rfc3339(timestamp as i64) {
        Some(s) => s,
        None => owned("unknown"),
    }
}

/// A message's edit date: none when it was never edited (`0`).
pub fn edit_date_text(edit_date: i32) -> (r: Option<String>)
    ensures
        edit_date == 0 ==> r is None,
        edit_date != 0 ==> opt_view(r) == Some(
            match rfc3339_utc(edit_date as i64) { Some(s) => s, None => "unknown"@ },
        ),
{
    if edit_date == 0 { None } else { Some(format_timestamp(edit_date)) }
}

// ---------------------------------------------------------------------------
// Settling a download
// ---------------------------------------------------------------------------

/// What happened to one file of a download, as the caller that moves the
/// bytes found it. Sizes are the ones TDLib reported for the downloaded
/// file; `source_path` and `saved_path` are absolute; `raw_*` are the paths
/// as the copy used them, for the notes.
#[derive(Debug, Clone)]
pub enum FileOutcome {
    /// TDLib could not download the file.
    DownloadFailed { error: TgError },
    /// TDLib reported the file with no local path.
    EmptyPath { size: i64, expected_size: i64 },
    /// TDLib's local file is not there.
    SourceMissing { size: i64, expected_size: i64, source_path: String, raw_source: String },
    /// A file of the same SHA-256 already stands at the destination.
    SameHash { size: i64, expected_size: i64, source_path: String, saved_path: String },
    /// The hashes could not be compared.
    HashFailed { size: i64, expected_size: i64, source_path: String, error: String },
    /// The copy into place failed.
    CopyFailed {
        size: i64,
        expected_size: i64,
        source_path: String,
        raw_source: String,
        raw_destination: String,
        error: String,
    },
    /// The file was copied to `saved_path`, under a numbered name when
    /// `renamed` (a different file had its name).
    Saved { size: i64, expected_size: i64, source_path: String, saved_path: String, renamed: bool },
}

/// The status a file ends with.
pub open spec fn outcome_status(o: FileOutcome) -> DownloadStatus {
    match o {
        FileOutcome::SameHash { .. } => DownloadStatus::SkippedSameHash,
        FileOutcome::Saved { renamed, .. } => if renamed {
            DownloadStatus::RenamedConflict
        } else {
            DownloadStatus::Downloaded
        },
        _ => DownloadStatus::Failed,
    }
}

/// The note a file ends with.
pub open spec fn outcome_note(o: FileOutcome) -> Option<Seq<char>> {
    match o {
        FileOutcome::DownloadFailed { error } => Some(error_text(error@)),
        FileOutcome::EmptyPath { .. } => Some("TDLib returned empty local file path"@),
        FileOutcome::SourceMissing { raw_source, .. } => Some("Downloaded source file not found: "@ + raw_source@),
        FileOutcome::SameHash { .. } => Some("Existing file has matching SHA256"@),
        FileOutcome::HashFailed { error, .. } => Some("Failed to compare SHA256: "@ + error@),
        FileOutcome::CopyFailed { raw_source, raw_destination, error, .. } => Some(
            "Failed to copy "@ + raw_source@ + " to "@ + raw_destination@ + ": "@ + error@,
        ),
        FileOutcome::Saved { .. } => None,
    }
}

/// The absolute source path a file ends with.
pub open spec fn outcome_source(o: FileOutcome) -> Option<Seq<char>> {
    match o {
        FileOutcome::SourceMissing { source_path, .. } => Some(source_path@),
        FileOutcome::SameHash { source_path, .. } => Some(source_path@),
        FileOutcome::HashFailed { source_path, .. } => Some(source_path@),
        FileOutcome::CopyFailed { source_path, .. } => Some(source_path@),
        FileOutcome::Saved { source_path, .. } => Some(source_path@),
        _ => None,
    }
}

/// The absolute path a file was saved at (or found already saved at).
pub open spec fn outcome_saved(o: FileOutcome) -> Option<Seq<char>> {
    match o {
        FileOutcome::SameHash { saved_path, .. } => Some(saved_path@),
        FileOutcome::Saved { saved_path, .. } => Some(saved_path@),
        _ => None,
    }
}

/// The sizes a file ends with: TDLib's, once it downloaded the file.
pub open spec fn outcome_sizes(o: FileOutcome, f: MessageFileRef) -> (i64, i64) {
    match o {
        FileOutcome::DownloadFailed { .. } => (f.size_bytes, f.expected_size_bytes),
        FileOutcome::EmptyPath { size, expected_size } => (size, expected_size),
        FileOutcome::SourceMissing { size, expected_size, .. } => (size, expected_size),
        FileOutcome::SameHash { size, expected_size, .. } => (size, expected_size),
        FileOutcome::HashFailed { size, expected_size, .. } => (size, expected_size),
        FileOutcome::CopyFailed { size, expected_size, .. } => (size, expected_size),
        FileOutcome::Saved { size, expected_size, .. } => (size, expected_size),
    }
}

/// `r` is the result of file `f` settled by `o`.
pub open spec fn settled(r: DownloadedFileResult, f: MessageFileRef, o: FileOutcome) -> bool {
    &&& r.file_id == f.file_id
    &&& r.is_primary == f.is_primary
    &&& opt_view(r.role) == opt_view(f.role)
    &&& opt_view(r.file_name) == opt_view(f.file_name)
    &&& opt_view(r.mime_type) == opt_view(f.mime_type)
    &&& (r.size_bytes, r.expected_size_bytes) == outcome_sizes(o, f)
    &&& r.status == outcome_status(o)
    &&& opt_view(r.note) == outcome_note(o)
    &&& opt_view(r.source_path) == outcome_source(o)
    &&& opt_view(r.saved_path) == outcome_saved(o)
}

/// The result of one file of a download from what happened to it.
pub fn settle_file(file_ref: &MessageFileRef, outcome: FileOutcome) -> (r: DownloadedFileResult)
    ensures
        settled(r, *file_ref, outcome),
{
    let start = start_file_result(file_ref);
    match outcome {
        FileOutcome::DownloadFailed { error } => fail_file(start, error.to_string()),
        FileOutcome::EmptyPath { size, expected_size } => {
            let r = DownloadedFileResult { size_bytes: size, expected_size_bytes: expected_size, ..start };
            fail_file(r, empty_path_note())
        },
        FileOutcome::SourceMissing { size, expected_size, source_path, raw_source } => {
            let note = missing_source_note(raw_source.as_str());
            let r = DownloadedFileResult {
                size_bytes: size,
                expected_size_bytes: expected_size,
                source_path: Some(source_path),
                ..start
            };
            fail_file(r, note)
        },
        FileOutcome::SameHash { size, expected_size, source_path, saved_path } => DownloadedFileResult {
            size_bytes: size,
            expected_size_bytes: expected_size,
            source_path: Some(source_path),
            saved_path: Some(saved_path),
            status: DownloadStatus::SkippedSameHash,
            note: Some(same_hash_note()),
            ..start
        },
        FileOutcome::HashFailed { size, expected_size, source_path, error } => {
            let note = hash_failure_note(error.as_str());
            let r = DownloadedFileResult {
                size_bytes: size,
                expected_size_bytes: expected_size,
                source_path: Some(source_path),
                ..start
            };
            fail_file(r, note)
        },
        FileOutcome::CopyFailed { size, expected_size, source_path, raw_source, raw_destination, error } => {
            let note = copy_failure_note(raw_source.as_str(), raw_destination.as_str(), error.as_str());
            let r = DownloadedFileResult {
                size_bytes: size,
                expected_size_bytes: expected_size,
                source_path: Some(source_path),
                ..start
            };
            fail_file(r, note)
        },
        FileOutcome::Saved { size, expected_size, source_path, saved_path, renamed } => DownloadedFileResult {
            size_bytes: size,
            expected_size_bytes: expected_size,
            source_path: Some(source_path),
            saved_path: Some(saved_path),
            status: if renamed { DownloadStatus::RenamedConflict } else { DownloadStatus::Downloaded },
            ..start
        },
    }
}

/// The report of a download from the message's files and what happened to
/// each: a message without files has no downloadable media; otherwise every
/// file is settled by its outcome and the status is that of the files.
pub fn download_report(
    chat_id: i64,
    message_id: i64,
    output_dir: String,
    extracted: ExtractedMessageData,
    outcomes: Vec<FileOutcome>,
) -> (r: DownloadReport)
    requires
        outcomes@.len() == extracted.download_files@.len() || extracted.download_files@.len() == 0,
    ensures
        r.chat_id == chat_id,
        r.message_id == message_id,
        r.output_dir == output_dir,
        r.content_type == extracted.content_type,
        r.content == extracted.content,
        extracted.download_files@.len() == 0 ==> r.status == DownloadStatus::NoDownloadableMedia
            && r.files@.len() == 0,
        extracted.download_files@.len() > 0 ==> {
            &&& r.files@.len() == outcomes@.len()
            &&& forall|i: int| 0 <= i < r.files@.len() ==> settled(
                #[trigger] r.files@[i],
                extracted.download_files@[i],
                outcomes@[i],
            )
            &&& r.status == overall_status_spec(statuses(r.files@))
        },
{
    if extracted.download_files.len() == 0 {
        return DownloadReport {
            chat_id,
            message_id,
            status: DownloadStatus::NoDownloadableMedia,
            output_dir,
            content_type: extracted.content_type,
            content: extracted.content,
            files: Vec::new(),
        };
    }
    let ghost outs = outcomes@;
    let mut files: Vec<DownloadedFileResult> = Vec::new();
    for o in it: outcomes.into_iter()
        invariant
            it.seq() == outs,
            outs.len() == extracted.download_files@.len(),
            files@.len() == it.index(),
            forall|k: int| 0 <= k < files@.len() ==> settled(
                #[trigger] files@[k],
                extracted.download_files@[k],
                outs[k],
            ),
    {
        let i = files.len();
        let r = settle_file(&extracted.download_files[i], o);
        files.push(r);
    }
    let status = overall_status(&files);
    DownloadReport {
        chat_id,
        message_id,
        status,
        output_dir,
        content_type: extracted.content_type,
        content: extracted.content,
        files,
    }
}

/// Law: a sanitized name is never empty and never names another directory:
/// it holds no `/`, `\\` or control character.
pub proof fn lemma_sanitized_is_safe(name: Seq<char>)
    ensures
        sanitize_spec(name).len() > 0,
        forall|k: int| 0 <= k < sanitize_spec(name).len() ==> {
            let c = #[trigger] sanitize_spec(name)[k];
            c != '/' && c != '\\' && !is_ctrl(c)
        },
{
    reveal_strlit("download");
}

/// Law: one failed file fails the whole download, and a download is
/// reported skipped only when every file was.
pub proof fn lemma_download_status(st: Seq<DownloadStatus>)
    ensures
        st.contains(DownloadStatus::Failed) ==> overall_status_spec(st) == DownloadStatus::Failed,
        overall_status_spec(st) == DownloadStatus::SkippedSameHash ==> forall|i: int| 0 <= i < st.len() ==> st[i]
            == DownloadStatus::SkippedSameHash,
{
}

} // verus!
