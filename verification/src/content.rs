//! What a message's content is, as the listings and downloads see it: the
//! one-line summary, the content type, the files that can be downloaded,
//! and the structured details. TDLib's content is handed over as
//! [`ContentSource`], a plain copy of the fields read here.

use vstd::prelude::*;
use crate::client_flow::{lowercase, to_lowercase};
use crate::media::opt_view;
use crate::output::MessageFileRef;
use crate::text::{all_ws, chars_of, concat2, concat3, i64_to_string, int_str, is_blank, owned, string_from_range};

verus! {

// ---------------------------------------------------------------------------
// Small renderings
// ---------------------------------------------------------------------------

/// A value that is only whitespace counts as absent.
pub open spec fn present(s: String) -> Option<String> {
    if all_ws(s@) { None } else { Some(s) }
}

/// The value, unless it is only whitespace.
pub fn non_empty(value: String) -> (r: Option<String>)
    ensures
        r == present(value),
{
    if is_blank(value.as_str()) { None } else { Some(value) }
}

/// A copy of the value, unless it is only whitespace.
pub fn non_empty_copy(value: &str) -> (r: Option<String>)
    ensures
        opt_view(r) == (if all_ws(value@) { None } else { Some(value@) }),
{
    if is_blank(value) { None } else { Some(owned(value)) }
}

/// Division and remainder as Rust computes them on integers: the quotient
/// rounds toward zero.
pub open spec fn trunc_div(a: int, b: int) -> int {
    if a >= 0 { a / b } else { -((-a) / b) }
}

pub open spec fn trunc_rem(a: int, b: int) -> int {
    a - b * trunc_div(a, b)
}

/// `{:02}`: at least two characters, zero-padded.
pub open spec fn pad2(s: Seq<char>) -> Seq<char> {
    if s.len() < 2 { "0"@ + s } else { s }
}

/// `m:ss`.
pub open spec fn duration_spec(seconds: i32) -> Seq<char> {
    int_str(trunc_div(seconds as int, 60)) + ":"@ + pad2(int_str(trunc_rem(seconds as int, 60)))
}

pub fn format_duration(seconds: i32) -> (r: String)
    ensures
        r@ == duration_spec(seconds),
{
    let s: i64 = seconds as i64;
    let minutes: i64 = if s >= 0 { s / 60 } else { -((-s) / 60) };
    let remaining: i64 = s - 60 * minutes;
    let m = i64_to_string(minutes);
    let rs = i64_to_string(remaining);
    let padded = if rs.as_str().unicode_len() < 2 {
        proof { reveal_strlit("0"); }
        concat2("0", rs.as_str())
    } else {
        rs
    };
    concat3(m.as_str(), ":", padded.as_str())
}

/// `[summary]`.
pub fn media_summary(summary: &str) -> (r: String)
    ensures
        r@ == "["@ + summary@ + "]"@,
{
    concat3("[", summary, "]")
}

/// The sticker formats TDLib knows.
#[derive(Debug, Clone, Copy, PartialEq, Eq, Structural)]
pub enum StickerFormatKind {
    Webp,
    Tgs,
    Webm,
}

pub open spec fn sticker_format_spec(f: StickerFormatKind) -> Seq<char> {
    match f {
        StickerFormatKind::Webp => "webp"@,
        StickerFormatKind::Tgs => "tgs"@,
        StickerFormatKind::Webm => "webm"@,
    }
}

/// The format's name, also the extension its files are saved with.
pub fn sticker_format_name(f: StickerFormatKind) -> (r: &'static str)
    ensures
        r@ == sticker_format_spec(f),
{
    match f {
        StickerFormatKind::Webp => "webp",
        StickerFormatKind::Tgs => "tgs",
        StickerFormatKind::Webm => "webm",
    }
}

/// How TDLib's `Debug` names the format.
pub open spec fn sticker_format_debug(f: StickerFormatKind) -> Seq<char> {
    match f {
        StickerFormatKind::Webp => "Webp"@,
        StickerFormatKind::Tgs => "Tgs"@,
        StickerFormatKind::Webm => "Webm"@,
    }
}

pub fn sticker_format_debug_name(f: StickerFormatKind) -> (r: String)
    ensures
        r@ == sticker_format_debug(f),
{
    match f {
        StickerFormatKind::Webp => owned("Webp"),
        StickerFormatKind::Tgs => owned("Tgs"),
        StickerFormatKind::Webm => owned("Webm"),
    }
}

/// `[a, b, c]`, how `{:?}` renders a list of ids.
pub open spec fn id_list_spec(ids: Seq<i64>) -> Seq<char> {
    "["@ + id_items(ids) + "]"@
}

pub open spec fn id_items(ids: Seq<i64>) -> Seq<char>
    decreases ids.len(),
{
    if ids.len() == 0 {
        Seq::empty()
    } else if ids.len() == 1 {
        int_str(ids[0] as int)
    } else {
        id_items(ids.drop_last()) + ", "@ + int_str(ids.last() as int)
    }
}

pub fn format_id_list(ids: &Vec<i64>) -> (r: String)
    ensures
        r@ == id_list_spec(ids@),
{
    let mut items = String::new();
    let mut i: usize = 0;
    while i < ids.len()
        invariant
            0 <= i <= ids@.len(),
            items@ == id_items(ids@.take(i as int)),
        decreases ids@.len() - i,
    {
        let n = i64_to_string(ids[i]);
        assert(ids@.take(i + 1).drop_last() == ids@.take(i as int));
        if i == 0 {
            items = n;
        } else {
            items = concat3(items.as_str(), ", ", n.as_str());
        }
        i = i + 1;
    }
    assert(ids@.take(ids@.len() as int) == ids@);
    concat3("[", items.as_str(), "]")
}

/// The camel-case TDLib type name in a content's `Debug` rendering: the
/// variant name (up to the first `(` or space) with its first character
/// lowercased.
pub open spec fn type_name_spec(debug: Seq<char>) -> Seq<char> {
    let variant = debug.take(first_stop(debug));
    if variant.len() == 0 { Seq::empty() } else { lowercase(variant.take(1)) + variant.skip(1) }
}

/// The position of the first `(` or space, or the length.
pub open spec fn first_stop(s: Seq<char>) -> int
    decreases s.len(),
{
    if s.len() == 0 {
        0
    } else if s[0] == '(' || s[0] == ' ' {
        0
    } else {
        1 + first_stop(s.drop_first())
    }
}

proof fn lemma_first_stop(s: Seq<char>, i: int)
    requires
        0 <= i <= s.len(),
        forall|j: int| 0 <= j < i ==> s[j] != '(' && s[j] != ' ',
        i == s.len() || s[i] == '(' || s[i] == ' ',
    ensures
        first_stop(s) == i,
    decreases i,
{
    if i > 0 {
        lemma_first_stop(s.drop_first(), i - 1);
    }
}

pub fn tdlib_type_name(debug: &str) -> (r: String)
    ensures
        r@ == type_name_spec(debug@),
{
    let v = chars_of(debug);
    let mut i: usize = 0;
    while i < v.len() && v[i] != '(' && v[i] != ' '
        invariant
            0 <= i <= v@.len(),
            v@ == debug@,
            forall|j: int| 0 <= j < i ==> v@[j] != '(' && v@[j] != ' ',
        decreases v@.len() - i,
    {
        i = i + 1;
    }
    proof {
        lemma_first_stop(v@, i as int);
    }
    if i == 0 {
        return String::new();
    }
    let first = string_from_range(&v, 0, 1);
    let rest = string_from_range(&v, 1, i);
    let lower = to_lowercase(first.as_str());
    proof {
        let variant = v@.take(i as int);
        assert(variant.take(1) == v@.subrange(0, 1));
        assert(variant.skip(1) == v@.subrange(1, i as int));
    }
    concat2(lower.as_str(), rest.as_str())
}

// ---------------------------------------------------------------------------
// Files
// ---------------------------------------------------------------------------

/// What a message says of one of its files.
#[derive(Debug, Clone)]
pub struct FileSource {
    pub id: i32,
    pub size: i64,
    pub expected_size: i64,
    pub local_path: String,
    pub can_be_downloaded: bool,
    pub is_downloading_completed: bool,
    pub remote_id: String,
    pub remote_unique_id: String,
}

/// The file reference a listing carries for `file`.
pub open spec fn file_ref_matches(
    r: MessageFileRef,
    file: FileSource,
    is_primary: bool,
    role: Seq<char>,
    file_name: Option<Seq<char>>,
    mime_type: Option<Seq<char>>,
) -> bool {
    &&& r.file_id == file.id
    &&& r.is_primary == is_primary
    &&& opt_view(r.role) == Some(role)
    &&& opt_view(r.file_name) == file_name
    &&& opt_view(r.mime_type) == mime_type
    &&& r.size_bytes == file.size
    &&& r.expected_size_bytes == file.expected_size
    &&& opt_view(r.local_path) == (if all_ws(file.local_path@) { None } else { Some(file.local_path@) })
    &&& opt_view(r.remote_id) == (if all_ws(file.remote_id@) { None } else { Some(file.remote_id@) })
    &&& opt_view(r.remote_unique_id) == (if all_ws(file.remote_unique_id@) { None } else { Some(file.remote_unique_id@) })
    &&& r.can_be_downloaded == file.can_be_downloaded
    &&& r.is_downloaded == file.is_downloading_completed
}

pub fn message_file_ref(
    file: &FileSource,
    is_primary: bool,
    role: &str,
    file_name: Option<String>,
    mime_type: Option<String>,
) -> (r: MessageFileRef)
    ensures
        file_ref_matches(r, *file, is_primary, role@, opt_view(file_name), opt_view(mime_type)),
{
    MessageFileRef {
        file_id: file.id,
        is_primary,
        role: Some(owned(role)),
        file_name,
        mime_type,
        size_bytes: file.size,
        expected_size_bytes: file.expected_size,
        local_path: non_empty_copy(file.local_path.as_str()),
        remote_id: non_empty_copy(file.remote_id.as_str()),
        remote_unique_id: non_empty_copy(file.remote_unique_id.as_str()),
        can_be_downloaded: file.can_be_downloaded,
        is_downloaded: file.is_downloading_completed,
    }
}

/// One size of a photo.
#[derive(Debug, Clone)]
pub struct PhotoSizeSource {
    pub width: i32,
    pub height: i32,
    pub photo: FileSource,
}

/// What ranks photo sizes: the pixel count, then the file size, then the
/// expected size.
pub open spec fn size_key(p: PhotoSizeSource) -> (int, int, int) {
    (p.width as int * p.height as int, p.photo.size as int, p.photo.expected_size as int)
}

pub open spec fn key_lt(a: (int, int, int), b: (int, int, int)) -> bool {
    a.0 < b.0 || (a.0 == b.0 && (a.1 < b.1 || (a.1 == b.1 && a.2 < b.2)))
}

/// The size `Iterator::max_by_key` picks: one with the greatest key, the
/// last of them when several tie.
pub open spec fn is_best_size(sizes: Seq<PhotoSizeSource>, i: int) -> bool {
    &&& 0 <= i < sizes.len()
    &&& forall|j: int| 0 <= j < i ==> !key_lt(size_key(sizes[i]), #[trigger] size_key(sizes[j]))
    &&& forall|j: int| i < j < sizes.len() ==> key_lt(#[trigger] size_key(sizes[j]), size_key(sizes[i]))
}

proof fn lemma_pixel_count_fits(w: i32, h: i32)
    ensures
        -4611686018427387904 <= w as int * h as int <= 4611686018427387904,
{
    let aw: int = if w < 0 { -(w as int) } else { w as int };
    let ah: int = if h < 0 { -(h as int) } else { h as int };
    assert(aw * ah <= 2147483648 * 2147483648) by (nonlinear_arith)
        requires 0 <= aw <= 2147483648, 0 <= ah <= 2147483648;
    assert(aw * ah >= 0) by (nonlinear_arith)
        requires 0 <= aw, 0 <= ah;
    assert(w as int * h as int == aw * ah || w as int * h as int == -(aw * ah)) by (nonlinear_arith)
        requires aw == (if w < 0 { -(w as int) } else { w as int }), ah == (if h < 0 { -(h as int) } else { h as int });
}

fn key_less(a: &PhotoSizeSource, b: &PhotoSizeSource) -> (r: bool)
    ensures
        r == key_lt(size_key(*a), size_key(*b)),
{
    proof {
        lemma_pixel_count_fits(a.width, a.height);
        lemma_pixel_count_fits(b.width, b.height);
    }
    let pa: i64 = (a.width as i64) * (a.height as i64);
    let pb: i64 = (b.width as i64) * (b.height as i64);
    pa < pb || (pa == pb && (a.photo.size < b.photo.size || (a.photo.size == b.photo.size
        && a.photo.expected_size < b.photo.expected_size)))
}

/// The index of the size a photo is downloaded in, `None` for a photo
/// without sizes.
pub fn best_photo_size(sizes: &Vec<PhotoSizeSource>) -> (r: Option<usize>)
    ensures
        sizes@.len() == 0 ==> r is None,
        sizes@.len() > 0 ==> (r matches Some(i) && is_best_size(sizes@, i as int)),
{
    if sizes.len() == 0 {
        return None;
    }
    let mut best: usize = 0;
    let mut i: usize = 1;
    while i < sizes.len()
        invariant
            1 <= i <= sizes@.len(),
            0 <= best < i,
            forall|j: int| 0 <= j < best ==> !key_lt(size_key(sizes@[best as int]), #[trigger] size_key(sizes@[j])),
            forall|j: int| best < j < i ==> key_lt(#[trigger] size_key(sizes@[j]), size_key(sizes@[best as int])),
        decreases sizes@.len() - i,
    {
        if !key_less(&sizes[i], &sizes[best]) {
            best = i;
        }
        i = i + 1;
    }
    Some(best)
}

} // verus!
