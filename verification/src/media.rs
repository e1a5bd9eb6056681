//! Attachments carried by a `send` request: the wire mirror (`SendFile`), the
//! validated form the client is handed (`MediaFile`), and the validator both
//! go through.
//!
//! No TDLib input type carries a filename or a MIME type (the recipient sees
//! the basename of the local path), and TDLib groups only same-typed contents
//! into one album, so a request mixing a photo with a document is refused.
//! Every check here is about the request's shape; whether a path names a
//! readable regular file is asked of the filesystem by the caller, per file,
//! right after `validate_path` accepts it.

use vstd::prelude::*;
use crate::error::{ErrorValue, TgError};
use crate::text::{
    concat2, concat3, concat4, concat5, int_str, i64_to_string, owned, starts_with_char,
    usize_to_string,
};

verus! {

/// TDLib albums carry 2-10 contents; a single file is sent as one message.
pub const MAX_FILES: usize = 10;

/// Wire mirror of one `args.files[]` entry.
#[derive(Debug, Clone, Default, PartialEq)]
pub struct SendFile {
    /// Absolute path to the file. Its basename is what the recipient sees.
    pub path: String,
    /// `photo` or `file`; absent means `file`.
    pub kind: Option<String>,
    /// Photo pixel width; `0` or absent lets TDLib work it out.
    pub width: Option<i32>,
    /// Photo pixel height; `0` or absent lets TDLib work it out.
    pub height: Option<i32>,
}

/// How a file is presented to the recipient.
#[derive(Debug, Clone, Copy, PartialEq, Eq, Structural)]
pub enum MediaKind {
    /// An inline image.
    Photo,
    /// A document: an attachment with a filename, whatever its content type.
    File,
}

/// A validated attachment: an absolute path plus the presentation asked for.
#[derive(Debug, Clone, PartialEq)]
pub struct MediaFile {
    pub path: String,
    pub kind: MediaKind,
    /// `0` means "let TDLib work it out"; always `0` for [`MediaKind::File`].
    pub width: i32,
    pub height: i32,
}

pub open spec fn kind_literal(k: MediaKind) -> Seq<char> {
    match k {
        MediaKind::Photo => "photo"@,
        MediaKind::File => "file"@,
    }
}

pub open spec fn opt_view(o: Option<String>) -> Option<Seq<char>> {
    match o {
        Some(s) => Some(s@),
        None => None,
    }
}

/// What `MediaKind::parse` answers: absent or `file` is a document, `photo` a
/// photo, anything else is refused with this message.
pub open spec fn parse_kind_spec(v: Option<Seq<char>>) -> Result<MediaKind, Seq<char>> {
    match v {
        None => Ok(MediaKind::File),
        Some(s) => if s == "file"@ {
            Ok(MediaKind::File)
        } else if s == "photo"@ {
            Ok(MediaKind::Photo)
        } else {
            Err("kind '"@ + s + "' is not supported. Expected `photo` or `file`"@)
        },
    }
}

impl MediaKind {
    /// Strict, case-sensitive; absent means `file`.
    pub fn parse(value: Option<&str>) -> (r: Result<MediaKind, TgError>)
        ensures
            match (r, parse_kind_spec(match value { Some(s) => Some(s@), None => None })) {
                (Ok(k), Ok(k2)) => k == k2,
                (Err(e), Err(m)) => e@ == ErrorValue::Other(m),
                _ => false,
            },
    {
        match value {
            None => Ok(MediaKind::File),
            Some(s) => {
                if crate::text::str_eq(s, "file") {
                    Ok(MediaKind::File)
                } else if crate::text::str_eq(s, "photo") {
                    Ok(MediaKind::Photo)
                } else {
                    Err(TgError::Other(concat3(
                        "kind '",
                        s,
                        "' is not supported. Expected `photo` or `file`",
                    )))
                }
            },
        }
    }

    pub fn as_str(self) -> (r: &'static str)
        ensures
            r@ == kind_literal(self),
    {
        match self {
            MediaKind::Photo => "photo",
            MediaKind::File => "file",
        }
    }
}

/// The final component of a path as `Path::file_name` computes it.
pub uninterp spec fn path_file_name(path: Seq<char>) -> Option<Seq<char>>;

/// `Path::new(path).file_name()`, rendered as a `String`.
#[verifier::external_body]
fn file_name_of(path: &str) -> (r: Option<String>)
    ensures
        opt_view(r) == path_file_name(path@),
{
    std::path::Path::new(path).file_name().map(|n| n.to_string_lossy().into_owned())
}

impl MediaFile {
    /// The basename the recipient will see; empty when the path has none.
    pub fn display_name(&self) -> (r: String)
        ensures
            r@ == match path_file_name(self.path@) {
                Some(n) => n,
                None => Seq::<char>::empty(),
            },
    {
        match file_name_of(self.path.as_str()) {
            Some(n) => n,
            None => String::new(),
        }
    }
}

/// `files[i]` as it appears in messages.
pub open spec fn file_label(i: int) -> Seq<char> {
    "send: files["@ + int_str(i) + "]"@
}

/// The dimension name and value of one of the two dimension fields.
pub open spec fn dim_field(f: SendFile, which: int) -> (Seq<char>, Option<i32>) {
    if which == 0 { ("width"@, f.width) } else { ("height"@, f.height) }
}

/// The refusal, if any, for one dimension field.
pub open spec fn dim_error(i: int, name: Seq<char>, value: Option<i32>, kind: MediaKind) -> Option<
    Seq<char>,
> {
    match value {
        None => None,
        Some(v) => if v < 0 {
            Some(file_label(i) + "."@ + name + " is "@ + int_str(v as int)
                + "; pixel dimensions cannot be negative (use 0 to let Telegram work it out)"@)
        } else if v != 0 && kind != MediaKind::Photo {
            Some(file_label(i) + "."@ + name + " is set but kind is `"@ + kind_literal(kind)
                + "`; dimensions are read only for kind `photo`"@)
        } else {
            None
        },
    }
}

/// The shape of one entry: its kind, or why it is refused (width before height).
pub open spec fn file_shape(i: int, f: SendFile) -> Result<MediaKind, Seq<char>> {
    match parse_kind_spec(opt_view(f.kind)) {
        Err(m) => Err(file_label(i) + ": "@ + m),
        Ok(k) => match dim_error(i, "width"@, f.width, k) {
            Some(m) => Err(m),
            None => match dim_error(i, "height"@, f.height, k) {
                Some(m) => Err(m),
                None => Ok(k),
            },
        },
    }
}

/// The kinds of the first `n` entries, or the first refusal among them.
pub open spec fn shapes_spec(files: Seq<SendFile>, n: int) -> Result<Seq<MediaKind>, Seq<char>>
    decreases n,
{
    if n <= 0 {
        Ok(Seq::empty())
    } else {
        match shapes_spec(files, n - 1) {
            Err(m) => Err(m),
            Ok(ks) => match file_shape(n - 1, files[n - 1]) {
                Err(m) => Err(m),
                Ok(k) => Ok(ks.push(k)),
            },
        }
    }
}

/// The first index whose kind differs from the first entry's, if any.
pub open spec fn first_mismatch(ks: Seq<MediaKind>) -> Option<int> {
    if exists|j: int| 0 <= j < ks.len() && #[trigger] ks[j] != ks[0] {
        Some(choose|j: int| 0 <= j < ks.len() && #[trigger] ks[j] != ks[0] && forall|k: int| 0 <= k < j ==> #[trigger] ks[k] == ks[0])
    } else {
        None
    }
}

pub open spec fn mixed_message(ks: Seq<MediaKind>, j: int) -> Seq<char> {
    "send: files mixes kind `"@ + kind_literal(ks[0]) + "` (files[0]) with kind `"@
        + kind_literal(ks[j]) + "` (files["@ + int_str(j)
        + "]); TDLib groups only same-typed contents into one message — split it into two sends"@
}

pub open spec fn is_absolute_path(p: Seq<char>) -> bool {
    p.len() > 0 && p[0] == '/'
}

pub open spec fn relative_message(i: int, raw: Seq<char>) -> Seq<char> {
    "send: files["@ + int_str(i) + "].path '"@ + raw
        + "' is not absolute; the daemon resolves no relative paths (its working directory is not the caller's)"@
}

pub open spec fn too_many_message(n: int) -> Seq<char> {
    "send: "@ + int_str(n) + " files requested; a Telegram album carries at most 10 — split the message"@
}

pub open spec fn empty_files_message() -> Seq<char> {
    "send: `files` is present but empty; omit the key to send a text-only message"@
}

/// The dimension a validated entry carries.
pub open spec fn dimension_spec(value: Option<i32>, kind: MediaKind) -> i32 {
    match kind {
        MediaKind::Photo => match value { Some(v) => v, None => 0 },
        MediaKind::File => 0,
    }
}

/// The first entry whose path is not absolute, if any.
pub open spec fn first_relative(files: Seq<SendFile>) -> Option<int> {
    if exists|i: int| 0 <= i < files.len() && !is_absolute_path(#[trigger] files[i].path@) {
        Some(choose|i: int| 0 <= i < files.len() && !is_absolute_path(#[trigger] files[i].path@)
            && forall|k: int| 0 <= k < i ==> is_absolute_path(#[trigger] files[k].path@))
    } else {
        None
    }
}

/// The refusal `validate_files` answers for a present `files` array, if any.
pub open spec fn files_refusal(files: Seq<SendFile>) -> Option<Seq<char>> {
    if files.len() == 0 {
        Some(empty_files_message())
    } else if files.len() > MAX_FILES {
        Some(too_many_message(files.len() as int))
    } else {
        match shapes_spec(files, files.len() as int) {
            Err(m) => Some(m),
            Ok(ks) => match first_mismatch(ks) {
                Some(j) => Some(mixed_message(ks, j)),
                None => match first_relative(files) {
                    Some(i) => Some(relative_message(i, files[i].path@)),
                    None => None,
                },
            },
        }
    }
}

/// `out` is `files` validated: same paths, the kinds `ks`, and the dimensions
/// a photo keeps and a document drops.
pub open spec fn validated_as(out: Seq<MediaFile>, files: Seq<SendFile>, ks: Seq<MediaKind>) -> bool {
    &&& out.len() == files.len()
    &&& ks.len() == files.len()
    &&& forall|i: int| 0 <= i < out.len() ==> {
        &&& (#[trigger] out[i]).path@ == files[i].path@
        &&& out[i].kind == ks[i]
        &&& out[i].width == dimension_spec(files[i].width, ks[i])
        &&& out[i].height == dimension_spec(files[i].height, ks[i])
    }
}

fn file_label_exec(i: usize) -> (r: String)
    ensures
        r@ == file_label(i as int),
{
    let n = usize_to_string(i);
    concat3("send: files[", n.as_str(), "]")
}

fn dim_check(i: usize, name: &str, value: Option<i32>, kind: MediaKind) -> (r: Result<(), TgError>)
    ensures
        match dim_error(i as int, name@, value, kind) {
            Some(m) => r matches Err(e) && e@ == ErrorValue::Other(m),
            None => r is Ok,
        },
{
    match value {
        None => Ok(()),
        Some(v) => {
            if v < 0 {
                let label = file_label_exec(i);
                let vs = i64_to_string(v as i64);
                let head = concat4(label.as_str(), ".", name, " is ");
                Err(TgError::Other(concat3(
                    head.as_str(),
                    vs.as_str(),
                    "; pixel dimensions cannot be negative (use 0 to let Telegram work it out)",
                )))
            } else if v != 0 && kind != MediaKind::Photo {
                let label = file_label_exec(i);
                let head = concat4(label.as_str(), ".", name, " is set but kind is `");
                Err(TgError::Other(concat3(
                    head.as_str(),
                    kind.as_str(),
                    "`; dimensions are read only for kind `photo`",
                )))
            } else {
                Ok(())
            }
        },
    }
}

/// Kind and dimension checks for one entry (kind first, then width, then height).
fn check_shape(i: usize, file: &SendFile) -> (r: Result<MediaKind, TgError>)
    ensures
        match file_shape(i as int, *file) {
            Ok(k) => r == Ok::<MediaKind, TgError>(k),
            Err(m) => r matches Err(e) && e@ == ErrorValue::Other(m),
        },
{
    let kind = match &file.kind {
        Some(s) => MediaKind::parse(Some(s.as_str())),
        None => MediaKind::parse(None),
    };
    let kind = match kind {
        Ok(k) => k,
        Err(e) => {
            let label = file_label_exec(i);
            let msg = e.to_string();
            return Err(TgError::Other(concat3(label.as_str(), ": ", msg.as_str())));
        },
    };
    match validate_dimensions(i, file, kind) {
        Ok(()) => Ok(kind),
        Err(e) => Err(e),
    }
}

/// The dimension checks of one entry: width first, then height.
pub fn validate_dimensions(i: usize, file: &SendFile, kind: MediaKind) -> (r: Result<(), TgError>)
    ensures
        match dim_error(i as int, "width"@, file.width, kind) {
            Some(m) => r matches Err(e) && e@ == ErrorValue::Other(m),
            None => match dim_error(i as int, "height"@, file.height, kind) {
                Some(m) => r matches Err(e) && e@ == ErrorValue::Other(m),
                None => r is Ok,
            },
        },
{
    match dim_check(i, "width", file.width, kind) {
        Ok(()) => {},
        Err(e) => return Err(e),
    }
    dim_check(i, "height", file.height, kind)
}

/// Every shape check over the whole request: the count, each entry's kind and
/// dimensions, and that all kinds agree. Touches no path.
pub fn validate_file_shapes(files: &[SendFile]) -> (r: Result<Vec<MediaKind>, TgError>)
    ensures
        match r {
            Ok(ks) => files@.len() > 0 && files@.len() <= MAX_FILES
                && shapes_spec(files@, files@.len() as int) == Ok::<Seq<MediaKind>, Seq<char>>(ks@)
                && first_mismatch(ks@) is None,
            Err(e) => {
                let fs = files@;
                if fs.len() == 0 {
                    e@ == ErrorValue::Other(empty_files_message())
                } else if fs.len() > MAX_FILES {
                    e@ == ErrorValue::Other(too_many_message(fs.len() as int))
                } else {
                    match shapes_spec(fs, fs.len() as int) {
                        Err(m) => e@ == ErrorValue::Other(m),
                        Ok(ks) => first_mismatch(ks) matches Some(j)
                            && e@ == ErrorValue::Other(mixed_message(ks, j)),
                    }
                }
            },
        },
{
    if files.len() == 0 {
        return Err(TgError::Other(owned(
            "send: `files` is present but empty; omit the key to send a text-only message",
        )));
    }
    if files.len() > MAX_FILES {
        let n = usize_to_string(files.len());
        return Err(TgError::Other(concat3(
            "send: ",
            n.as_str(),
            " files requested; a Telegram album carries at most 10 — split the message",
        )));
    }
    let mut kinds: Vec<MediaKind> = Vec::new();
    let mut i: usize = 0;
    while i < files.len()
        invariant
            0 <= i <= files@.len() <= MAX_FILES,
            shapes_spec(files@, i as int) == Ok::<Seq<MediaKind>, Seq<char>>(kinds@),
        decreases files@.len() - i,
    {
        match check_shape(i, &files[i]) {
            Ok(k) => {
                kinds.push(k);
            },
            Err(e) => {
                proof {
                    lemma_shapes_err_persists(files@, i as int + 1, files@.len() as int);
                }
                return Err(e);
            },
        }
        i = i + 1;
    }
    proof {
        lemma_shapes_len(files@, files@.len() as int);
    }
    let mut j: usize = 0;
    while j < kinds.len()
        invariant
            kinds@.len() == files@.len(),
            files@.len() <= MAX_FILES,
            shapes_spec(files@, files@.len() as int) == Ok::<Seq<MediaKind>, Seq<char>>(kinds@),
            0 < kinds@.len(),
            0 <= j <= kinds@.len(),
            forall|k: int| 0 <= k < j ==> #[trigger] kinds@[k] == kinds@[0],
        decreases kinds@.len() - j,
    {
        if kinds[j] != kinds[0] {
            proof {
                let ks = kinds@;
                assert(exists|x: int| 0 <= x < ks.len() && #[trigger] ks[x] != ks[0]);
                let c = choose|x: int| 0 <= x < ks.len() && #[trigger] ks[x] != ks[0] && forall|k: int| 0 <= k < x ==> #[trigger] ks[k] == ks[0];
                assert(0 <= j < ks.len() && ks[j as int] != ks[0] && forall|k: int| 0 <= k < j ==> #[trigger] ks[k] == ks[0]);
                if c < j {
                } else if c > j {
                }
                assert(c == j);
            }
            let n = usize_to_string(j);
            let head = concat3("send: files mixes kind `", kinds[0].as_str(), "` (files[0]) with kind `");
            let tail = concat3(
                "` (files[",
                n.as_str(),
                "]); TDLib groups only same-typed contents into one message — split it into two sends",
            );
            let msg = concat3(head.as_str(), kinds[j].as_str(), tail.as_str());
            assert(msg@ =~= mixed_message(kinds@, j as int));
            return Err(TgError::Other(msg));
        }
        j = j + 1;
    }
    Ok(kinds)
}

proof fn lemma_shapes_len(files: Seq<SendFile>, n: int)
    requires
        0 <= n,
        shapes_spec(files, n) is Ok,
    ensures
        shapes_spec(files, n)->Ok_0.len() == n,
    decreases n,
{
    if n > 0 {
        lemma_shapes_len(files, n - 1);
    }
}

proof fn lemma_shapes_err_persists(files: Seq<SendFile>, i: int, n: int)
    requires
        0 < i <= n,
        shapes_spec(files, i) is Err,
    ensures
        shapes_spec(files, n) == shapes_spec(files, i),
    decreases n - i,
{
    if i < n {
        lemma_shapes_err_persists(files, i, n - 1);
    }
}

/// The path check `validate_files` makes of entry `i`: it must be absolute.
pub fn validate_path(i: usize, raw: &str) -> (r: Result<String, TgError>)
    ensures
        is_absolute_path(raw@) ==> (r matches Ok(p) && p@ == raw@),
        !is_absolute_path(raw@) ==> (r matches Err(e) && e@ == ErrorValue::Other(
            relative_message(i as int, raw@),
        )),
{
    if starts_with_char(raw, '/') {
        Ok(owned(raw))
    } else {
        let n = usize_to_string(i);
        Err(TgError::Other(concat5(
            "send: files[",
            n.as_str(),
            "].path '",
            raw,
            "' is not absolute; the daemon resolves no relative paths (its working directory is not the caller's)",
        )))
    }
}

/// The dimension a validated entry carries.
pub fn dimension(value: Option<i32>, kind: MediaKind) -> (r: i32)
    ensures
        r == dimension_spec(value, kind),
{
    match kind {
        MediaKind::Photo => match value {
            Some(v) => v,
            None => 0,
        },
        MediaKind::File => 0,
    }
}

/// The validated form of entry `file` once its kind and path are accepted.
pub fn media_file(path: String, kind: MediaKind, file: &SendFile) -> (r: MediaFile)
    ensures
        r.path == path,
        r.kind == kind,
        r.width == dimension_spec(file.width, kind),
        r.height == dimension_spec(file.height, kind),
{
    MediaFile { path, kind, width: dimension(file.width, kind), height: dimension(file.height, kind) }
}

/// Validate an optional `files` array. Absent is a text-only send (no checks,
/// empty result); a present array must hold 1-10 entries of one kind, sane
/// dimensions, and absolute paths. Readability of each path is left to the
/// filesystem check that follows.
pub fn validate_files(files: Option<&[SendFile]>) -> (r: Result<Vec<MediaFile>, TgError>)
    ensures
        match files {
            None => r matches Ok(v) && v@.len() == 0,
            Some(fs) => match files_refusal(fs@) {
                Some(m) => r matches Err(e) && e@ == ErrorValue::Other(m),
                None => r matches Ok(v) && shapes_spec(fs@, fs@.len() as int) matches Ok(ks)
                    && validated_as(v@, fs@, ks),
            },
        },
{
    let fs = match files {
        None => return Ok(Vec::new()),
        Some(f) => f,
    };
    let kinds = match validate_file_shapes(fs) {
        Ok(k) => k,
        Err(e) => return Err(e),
    };
    proof {
        lemma_shapes_len(fs@, fs@.len() as int);
    }
    let mut out: Vec<MediaFile> = Vec::new();
    let mut i: usize = 0;
    while i < fs.len()
        invariant
            kinds@.len() == fs@.len() <= MAX_FILES,
            fs@.len() > 0,
            shapes_spec(fs@, fs@.len() as int) == Ok::<Seq<MediaKind>, Seq<char>>(kinds@),
            first_mismatch(kinds@) is None,
            files == Some(fs),
            0 <= i <= fs@.len(),
            out@.len() == i,
            forall|k: int| 0 <= k < i ==> is_absolute_path(fs@[k].path@),
            forall|k: int| 0 <= k < i ==> {
                &&& (#[trigger] out@[k]).path@ == fs@[k].path@
                &&& out@[k].kind == kinds@[k]
                &&& out@[k].width == dimension_spec(fs@[k].width, kinds@[k])
                &&& out@[k].height == dimension_spec(fs@[k].height, kinds@[k])
            },
        decreases fs@.len() - i,
    {
        let path = match validate_path(i, fs[i].path.as_str()) {
            Ok(p) => p,
            Err(e) => {
                proof {
                    let fss = fs@;
                    let c = choose|x: int| 0 <= x < fss.len() && !is_absolute_path(#[trigger] fss[x].path@)
                        && forall|k: int| 0 <= k < x ==> is_absolute_path(#[trigger] fss[k].path@);
                    assert(0 <= i < fss.len() && !is_absolute_path(fss[i as int].path@));
                    if c < i {
                    } else if c > i {
                        assert(!is_absolute_path(fss[i as int].path@));
                    }
                    assert(c == i);
                    assert(first_relative(fss) == Some(i as int));
                    assert(files_refusal(fss) == Some(relative_message(i as int, fss[i as int].path@)));
                }
                return Err(e);
            },
        };
        out.push(media_file(path, kinds[i], &fs[i]));
        i = i + 1;
    }
    proof {
        assert(first_relative(fs@) is None);
    }
    Ok(out)
}

pub open spec fn unreadable_spec(i: int, raw: Seq<char>, cause: Seq<char>) -> Seq<char> {
    "send: files["@ + int_str(i) + "].path '"@ + raw + "' is unreadable: "@ + cause
}

pub open spec fn not_regular_spec(i: int, raw: Seq<char>) -> Seq<char> {
    "send: files["@ + int_str(i) + "].path '"@ + raw + "' is not a regular file"@
}

/// The refusal for a path the filesystem could not open or stat.
pub fn unreadable_message(i: usize, raw: &str, cause: &str) -> (r: String)
    ensures
        r@ == unreadable_spec(i as int, raw@, cause@),
{
    let n = usize_to_string(i);
    let head = concat5("send: files[", n.as_str(), "].path '", raw, "' is unreadable: ");
    concat2(head.as_str(), cause)
}

/// The refusal for a path that exists but is not a regular file.
pub fn not_regular_message(i: usize, raw: &str) -> (r: String)
    ensures
        r@ == not_regular_spec(i as int, raw@),
{
    let n = usize_to_string(i);
    concat5("send: files[", n.as_str(), "].path '", raw, "' is not a regular file")
}

// ---------------------------------------------------------------------------
// Attachments checked against the filesystem
// ---------------------------------------------------------------------------

/// What the filesystem answered for an attachment's path: it opens as a
/// regular file, it could not be stat'ed or opened (with the cause), or it is
/// something other than a regular file.
#[derive(Debug, Clone)]
pub enum FileAccess {
    Readable,
    Unreadable(String),
    NotRegular,
}

/// Why entry `i` is refused once its path is known to the filesystem: a
/// relative path first, then what the filesystem answered for it.
pub open spec fn path_fault(i: int, raw: Seq<char>, access: Seq<FileAccess>) -> Option<Seq<char>> {
    if !is_absolute_path(raw) {
        Some(relative_message(i, raw))
    } else {
        match access[i] {
            FileAccess::Readable => None,
            FileAccess::Unreadable(cause) => Some(unreadable_spec(i, raw, cause@)),
            FileAccess::NotRegular => Some(not_regular_spec(i, raw)),
        }
    }
}

/// The first entry with a path fault, if any.
pub open spec fn first_fault(files: Seq<SendFile>, access: Seq<FileAccess>) -> Option<int> {
    if exists|i: int| 0 <= i < files.len() && (#[trigger] path_fault(i, files[i].path@, access)) is Some {
        Some(choose|i: int| 0 <= i < files.len() && (#[trigger] path_fault(i, files[i].path@, access)) is Some
            && forall|k: int| 0 <= k < i ==> (#[trigger] path_fault(k, files[k].path@, access)) is None)
    } else {
        None
    }
}

/// The refusal for the shape of a present `files` array, before any path
/// is looked at: empty, too many entries, an entry's kind or dimensions, or
/// mixed kinds.
pub open spec fn shape_refusal(files: Seq<SendFile>) -> Option<Seq<char>> {
    if files.len() == 0 {
        Some(empty_files_message())
    } else if files.len() > MAX_FILES {
        Some(too_many_message(files.len() as int))
    } else {
        match shapes_spec(files, files.len() as int) {
            Err(m) => Some(m),
            Ok(ks) => match first_mismatch(ks) {
                Some(j) => Some(mixed_message(ks, j)),
                None => None,
            },
        }
    }
}

/// The refusal for a present `files` array whose paths the filesystem was
/// asked about: the request's shape first, then each entry's path in order.
pub open spec fn checked_refusal(files: Seq<SendFile>, access: Seq<FileAccess>) -> Option<Seq<char>> {
    match shape_refusal(files) {
        Some(m) => Some(m),
        None => match first_fault(files, access) {
            Some(i) => path_fault(i, files[i].path@, access),
            None => None,
        },
    }
}

/// Check only the shape of a `files` array; no path is looked at.
pub fn check_file_shapes(files: &[SendFile]) -> (r: Result<(), TgError>)
    ensures
        match shape_refusal(files@) {
            Some(m) => r matches Err(e) && e@ == ErrorValue::Other(m),
            None => r is Ok,
        },
{
    match validate_file_shapes(files) {
        Ok(_) => Ok(()),
        Err(e) => Err(e),
    }
}

fn check_access(i: usize, raw: &str, access: &Vec<FileAccess>) -> (r: Result<(), TgError>)
    requires
        i < access@.len(),
    ensures
        match path_fault(i as int, raw@, access@) {
            Some(m) => r matches Err(e) && e@ == ErrorValue::Other(m),
            None => r is Ok,
        },
{
    match validate_path(i, raw) {
        Err(e) => return Err(e),
        Ok(_) => {},
    }
    match &access[i] {
        FileAccess::Readable => Ok(()),
        FileAccess::Unreadable(cause) => Err(TgError::Other(unreadable_message(i, raw, cause.as_str()))),
        FileAccess::NotRegular => Err(TgError::Other(not_regular_message(i, raw))),
    }
}

/// Validate a `files` array whose paths the filesystem was asked about
/// (`access[i]` for entry `i`): the shape checks of `validate_files`, then
/// each entry in order refused for a relative path or for what the
/// filesystem answered.
pub fn validate_checked_files(fs: &[SendFile], access: &Vec<FileAccess>) -> (r: Result<Vec<MediaFile>, TgError>)
    requires
        access@.len() == fs@.len(),
    ensures
        match checked_refusal(fs@, access@) {
            Some(m) => r matches Err(e) && e@ == ErrorValue::Other(m),
            None => r matches Ok(v) && shapes_spec(fs@, fs@.len() as int) matches Ok(ks)
                && validated_as(v@, fs@, ks),
        },
{
    let kinds = match validate_file_shapes(fs) {
        Ok(k) => k,
        Err(e) => return Err(e),
    };
    proof {
        lemma_shapes_len(fs@, fs@.len() as int);
    }
    let mut out: Vec<MediaFile> = Vec::new();
    let mut i: usize = 0;
    while i < fs.len()
        invariant
            kinds@.len() == fs@.len() <= MAX_FILES,
            fs@.len() > 0,
            access@.len() == fs@.len(),
            shapes_spec(fs@, fs@.len() as int) == Ok::<Seq<MediaKind>, Seq<char>>(kinds@),
            first_mismatch(kinds@) is None,
            0 <= i <= fs@.len(),
            out@.len() == i,
            forall|k: int| 0 <= k < i ==> (#[trigger] path_fault(k, fs@[k].path@, access@)) is None,
            forall|k: int| 0 <= k < i ==> {
                &&& (#[trigger] out@[k]).path@ == fs@[k].path@
                &&& out@[k].kind == kinds@[k]
                &&& out@[k].width == dimension_spec(fs@[k].width, kinds@[k])
                &&& out@[k].height == dimension_spec(fs@[k].height, kinds@[k])
            },
        decreases fs@.len() - i,
    {
        match check_access(i, fs[i].path.as_str(), access) {
            Ok(()) => {},
            Err(e) => {
                proof {
                    let fss = fs@;
                    let a = access@;
                    assert(path_fault(i as int, fss[i as int].path@, a) is Some);
                    let c = choose|x: int| 0 <= x < fss.len() && (#[trigger] path_fault(x, fss[x].path@, a)) is Some
                        && forall|k: int| 0 <= k < x ==> (#[trigger] path_fault(k, fss[k].path@, a)) is None;
                    if c < i {
                    } else if c > i {
                        assert(path_fault(i as int, fss[i as int].path@, a) is Some);
                    }
                    assert(c == i);
                    assert(first_fault(fss, a) == Some(i as int));
                }
                return Err(e);
            },
        }
        out.push(media_file(owned(fs[i].path.as_str()), kinds[i], &fs[i]));
        i = i + 1;
    }
    proof {
        assert(first_fault(fs@, access@) is None);
    }
    Ok(out)
}

} // verus!
