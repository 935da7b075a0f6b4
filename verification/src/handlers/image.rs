//! Serving, taking and deleting profile images.
//!
//! A request for an image names a size; it is served the smallest stored size
//! that is larger, or the largest stored size if none is. Every stored file is
//! served with a validator made from the time it was last written, and a
//! client that shows the current validator is told that nothing changed. A
//! user without an image gets the placeholder, unless the request declines
//! it; the placeholder carries a validator of its own, made from the user's
//! id, so that it can be cached like a file.

use crate::decimal::{
    decimal, is_digit, lemma_decimal_digits, lemma_decimal_injective, to_decimal,
};
use crate::error::AppError;
use crate::format::{classified, SupportedFormat};
use crate::image::{
    admitted, derived_name, dotted, is_job_for, lemma_dotted_parts, lemma_names_are_distinct,
    is_beyond, original_name, profile_of, settled, upload_probe, DataImage, ImageConfig, Opened,
    ProfileImage, ResizeJob, ResponseImage,
};
use crate::text::{lemma_boundary_behind_ascii, part, str_of, text_of};
use headers::{ETag, Header, HeaderValue, IfNoneMatch};
use std::collections::hash_map::DefaultHasher;
use std::hash::Hasher;
use vstd::prelude::*;
use vstd::std_specs::hash::*;
use vstd::string::*;
use vstd::utf8::is_ascii_chars;

verus! {

/// The size that is served where a request names none.
pub const DEFAULT_SIZE: u32 = 256;

pub const OK: u16 = 200;

pub const NO_CONTENT: u16 = 204;

pub const NOT_MODIFIED: u16 = 304;

pub struct ImageHandler;

/// What a request for an image may ask for.
#[derive(Debug, Clone, Copy, PartialEq, Eq, Structural)]
pub struct GetImageQuery {
    pub placeholder: Option<bool>,
    pub size: Option<u32>,
}

/// The time a file was last written: whole seconds since the start of 1970,
/// and the nanoseconds beyond them.
#[derive(Debug, Clone, Copy, PartialEq, Eq, Structural)]
pub struct ModTime {
    pub secs: u64,
    pub nanos: u32,
}

/// What asking for a file's metadata gave.
#[derive(Debug, Clone, PartialEq, Eq)]
pub enum Metadata {
    /// The file is there and was last written at this time.
    Modified(ModTime),
    /// There is no such file.
    Missing,
    /// The metadata could not be read; the text says why.
    Failed(String),
}

/// What removing a file gave.
#[derive(Debug, Clone, PartialEq, Eq)]
pub enum Removal {
    /// The file was there and is gone now.
    Removed,
    /// There was no such file.
    Missing,
    /// The file could not be removed; the text says why.
    Failed(String),
}

/// How a stored file stands to what the client already has.
#[derive(Debug, Clone, PartialEq, Eq)]
pub enum Negotiation {
    /// The client is sent the file, with this validator.
    Serve(String),
    /// The client has the current content.
    NotModified,
    /// There is no file.
    Absent,
}

/// The answer to a request for an image.
#[derive(Debug, Clone, PartialEq, Eq)]
pub enum Fetch {
    /// Nothing is sent: the client has the current content.
    NotModified,
    /// The image is sent, with its validator: that of the file it came from,
    /// or that of the user's placeholder.
    Image { image: ResponseImage, etag: String },
}

/// All that an accepted upload writes: the original under its name, and one
/// derived file per job.
#[derive(Debug, Clone, PartialEq, Eq)]
pub struct UploadPlan {
    pub original: String,
    pub jobs: Vec<ResizeJob>,
}

/// Whether `size` is what a request for `requested` is served from the
/// `available` sizes: the smallest of them that is larger than `requested`,
/// and the largest of them where none is larger.
pub open spec fn is_resolved(requested: u32, available: Seq<u32>, size: u32) -> bool {
    &&& available.contains(size)
    &&& if exists|i: int| 0 <= i < available.len() && available[i] > requested {
        size > requested && forall|i: int|
            0 <= i < available.len() && available[i] > requested ==> size <= available[i]
    } else {
        forall|i: int| 0 <= i < available.len() ==> available[i] <= size
    }
}

/// The size a request asks for: the one it names, or the default size.
pub open spec fn requested_size(params: GetImageQuery) -> u32 {
    match params.size {
        Some(size) => size,
        None => DEFAULT_SIZE,
    }
}

/// The size a request for `requested` is served in, out of the `available`
/// ones.
pub open spec fn resolved(requested: u32, available: Seq<u32>) -> u32 {
    choose|size: u32| is_resolved(requested, available, size)
}

/// The size a request is served in under the given sizes.
pub open spec fn served_size(params: GetImageQuery, sizes: Seq<u32>) -> u32 {
    resolved(requested_size(params), sizes)
}

/// A time as text: its seconds, a dot, its nanoseconds, both in base ten.
pub open spec fn mod_time_text(modified: ModTime) -> Seq<char> {
    dotted(decimal(modified.secs as nat), decimal(modified.nanos as nat))
}

/// What is written to the hasher for a time: its text, in one piece.
pub open spec fn mod_time_writes(modified: ModTime) -> Seq<Seq<u8>> {
    seq![vstd::utf8::encode_utf8(mod_time_text(modified))]
}

/// The number a validator is made of: the standard hasher's digest of the
/// time.
pub open spec fn validator_digest(modified: ModTime) -> u64 {
    DefaultHasher::spec_finish(mod_time_writes(modified))
}

/// A number as a strong validator: its decimal text between double quotes.
pub open spec fn quoted(digest: u64) -> Seq<char> {
    seq!['"'] + decimal(digest as nat) + seq!['"']
}

/// The validator of a file last written at the given time.
pub open spec fn validator(modified: ModTime) -> Seq<char> {
    quoted(validator_digest(modified))
}

/// Whether `text` is a validator as this service makes them.
pub open spec fn is_validator(text: Seq<char>) -> bool {
    exists|digest: u64| text == #[trigger] quoted(digest)
}

/// What is written to the hasher for a user's placeholder: the user's id in
/// base ten, in one piece.
pub open spec fn placeholder_writes(user_id: u32) -> Seq<Seq<u8>> {
    seq![vstd::utf8::encode_utf8(decimal(user_id as nat))]
}

/// The validator of a user's placeholder: the quoted digest of the user's id.
/// It depends on the id and on nothing else.
pub open spec fn placeholder_validator(user_id: u32) -> Seq<char> {
    quoted(DefaultHasher::spec_finish(placeholder_writes(user_id)))
}

/// Whether the byte at `at` stands inside a quoted stretch: double quotes
/// open and close such stretches in turn, from the start of the bytes.
pub open spec fn in_quotes(bytes: Seq<u8>, at: int) -> bool
    decreases at,
{
    if at <= 0 {
        false
    } else {
        in_quotes(bytes, at - 1) != (bytes[at - 1] == 0x22)
    }
}

/// Whether no blank and no tab stands inside a quoted stretch of the bytes.
pub open spec fn has_plain_quotes(bytes: Seq<u8>) -> bool {
    forall|i: int|
        0 <= i < bytes.len() && in_quotes(bytes, i) ==> #[trigger] bytes[i] != 0x20 && bytes[i]
            != 0x09
}

/// Whether a text is plain: written as bytes, it holds no blank and no tab
/// inside a quoted stretch. Only plain texts are compared as entity tags; an
/// entity tag proper never holds a blank.
pub open spec fn is_plain(text: Seq<char>) -> bool {
    has_plain_quotes(vstd::utf8::encode_utf8(text))
}

/// What the `headers` crate makes of an `If-None-Match` value and an entity
/// tag: whether the tag passes the precondition, or nothing where one of the
/// two cannot be read as what it should be.
pub uninterp spec fn header_precondition(if_none_match: Seq<char>, etag: Seq<char>) -> Option<
    bool,
>;

/// A tag without the mark of a weak tag in front of it, if it has one.
pub open spec fn without_weak_mark(tag: Seq<char>) -> Seq<char> {
    if tag.len() >= 2 && tag[0] == 'W' && tag[1] == '/' {
        tag.subrange(2, tag.len() as int)
    } else {
        tag
    }
}

/// Whether an entity tag passes an `If-None-Match` precondition, as the
/// `headers` crate decides it. One case is spelled out: against a header that
/// is one of this service's validators, weak or not, a validator passes
/// exactly if it is another one. Every other pair goes by the crate's name
/// for its answer.
pub open spec fn precondition(if_none_match: Seq<char>, etag: Seq<char>) -> Option<bool> {
    if is_validator(etag) && is_validator(without_weak_mark(if_none_match)) {
        Some(without_weak_mark(if_none_match) != etag)
    } else {
        header_precondition(if_none_match, etag)
    }
}

/// Whether a byte is a blank or a tab.
pub open spec fn is_blank(byte: u8) -> bool {
    byte == 0x20 || byte == 0x09
}

/// Whether a comma that parts two tags of a header stands at `at`: a comma
/// outside quotes.
pub open spec fn is_separator(bytes: Seq<u8>, at: int) -> bool {
    0 <= at < bytes.len() && bytes[at] == 0x2c && !in_quotes(bytes, at)
}

/// Whether the bytes from `start` up to `end` are one piece of a header: they
/// reach from the start of the header, or from behind a parting comma, to the
/// next parting comma or to the end of the header.
pub open spec fn is_piece(bytes: Seq<u8>, start: int, end: int) -> bool {
    &&& 0 <= start <= end <= bytes.len()
    &&& (start == 0 || is_separator(bytes, start - 1))
    &&& (end == bytes.len() || is_separator(bytes, end))
    &&& forall|k: int| start <= k < end ==> !is_separator(bytes, k)
}

/// Bytes without the blanks and tabs at either end.
pub open spec fn trimmed(bytes: Seq<u8>) -> Seq<u8>
    decreases bytes.len(),
{
    if bytes.len() > 0 && is_blank(bytes[0]) {
        trimmed(bytes.drop_first())
    } else if bytes.len() > 0 && is_blank(bytes.last()) {
        trimmed(bytes.drop_last())
    } else {
        bytes
    }
}

/// The header `*`, which stands for any tag. It does so only as a whole
/// header, not as one piece of several.
pub open spec fn any_tag() -> Seq<u8> {
    seq![0x2au8]
}

/// Whether one tag of a header shows that the client holds the content with
/// the given validator: the tag is plain, it is not `*`, and taken as a header
/// of its own it does not let the validator pass.
pub open spec fn tag_shows(tag: Seq<u8>, etag: Seq<char>) -> bool {
    tag != any_tag() && has_plain_quotes(tag) && precondition(vstd::utf8::decode_utf8(tag), etag)
        == Some(false)
}

/// Whether an `If-None-Match` header shows that the client holds the content
/// with the given validator. The header `*` shows every validator that is an
/// entity tag. Any other header shows the validator if one of its pieces,
/// trimmed, does, whatever the other pieces hold. A validator that is not
/// plain is shown by nothing.
pub open spec fn shows(if_none_match: Seq<char>, etag: Seq<char>) -> bool {
    let bytes = vstd::utf8::encode_utf8(if_none_match);
    is_plain(etag) && if bytes == any_tag() {
        precondition(if_none_match, etag) == Some(false)
    } else {
        exists|start: int, end: int| #[trigger]
            is_piece(bytes, start, end) && tag_shows(trimmed(bytes.subrange(start, end)), etag)
    }
}

/// Whether the client's `If-None-Match` header, if it sent one, shows that it
/// holds the content with the given validator, if there is one.
pub open spec fn is_match(if_none_match: Option<Seq<char>>, etag: Option<Seq<char>>) -> bool {
    match (if_none_match, etag) {
        (Some(header), Some(etag)) => shows(header, etag),
        _ => false,
    }
}

/// The validator of a file, given what asking for its metadata gave: none
/// for a missing file.
pub open spec fn is_etag_of(metadata: Metadata, result: Result<Option<String>, AppError>) -> bool {
    match metadata {
        Metadata::Modified(modified) => result matches Ok(Some(etag)) && etag@ == validator(
            modified,
        ),
        Metadata::Missing => result == Ok::<Option<String>, AppError>(None),
        Metadata::Failed(message) => result == Err::<Option<String>, AppError>(
            AppError::Io(message),
        ),
    }
}

/// How a file last written at `modified` (or absent) stands to a client that
/// sent the given `If-None-Match` header (or none).
pub open spec fn is_negotiated(
    modified: Option<ModTime>,
    if_none_match: Option<Seq<char>>,
    outcome: Negotiation,
) -> bool {
    match modified {
        None => outcome == Negotiation::Absent,
        Some(modified) => if is_match(if_none_match, Some(validator(modified))) {
            outcome == Negotiation::NotModified
        } else {
            outcome matches Negotiation::Serve(etag) && etag@ == validator(modified)
        },
    }
}

/// The status a fetch is answered with.
pub open spec fn fetch_status(fetch: Fetch) -> u16 {
    match fetch {
        Fetch::NotModified => NOT_MODIFIED,
        Fetch::Image { .. } => OK,
    }
}

/// What removing one file comes to: a file that was already gone is as good
/// as one removed.
pub open spec fn removal_result(outcome: Removal) -> Result<(), AppError> {
    match outcome {
        Removal::Removed => Ok(()),
        Removal::Missing => Ok(()),
        Removal::Failed(message) => Err(AppError::Io(message)),
    }
}

/// What removing a row of files comes to: the first failure, or success.
pub open spec fn removal_results(outcomes: Seq<Removal>) -> Seq<Result<(), AppError>> {
    Seq::new(outcomes.len(), |i: int| removal_result(outcomes[i]))
}

/// The names of all files of a user, in the order they are removed: each
/// size, then the original.
pub open spec fn removal_names(user_id: u32, sizes: Seq<u32>, format: SupportedFormat) -> Seq<
    Seq<char>,
> {
    Seq::new(sizes.len(), |i: int| derived_name(user_id, sizes[i], format)).push(
        original_name(user_id),
    )
}

/// `IfNoneMatch::decode` on the header value and `ETag::from_str` on the
/// tag, then `IfNoneMatch::precondition_passes`: whether the tag passes the
/// precondition, and nothing where the value is no header value or the tag
/// no entity tag. The answer depends on the two texts alone. The crate reads
/// a header without a comma as one tag and compares the opaque parts of two
/// tags byte by byte, whether or not a tag is marked as weak. So against a
/// header that is a quoted row of digits, with or without `W/` in front, a
/// quoted row of digits passes exactly if it is another row: this is what the
/// first clause adds to the second.
///
/// In a build with debug assertions the crate asserts, of every byte from
/// the opening double quote of a tag to the next double quote, that it is
/// neither a blank nor a tab, and stops where one is. A tag opens at the start
/// of the text or behind a comma outside quotes, where an even number of
/// double quotes has gone before it, so each of those bytes stands inside a
/// quoted stretch as `in_quotes` counts them. Both texts are therefore asked
/// to be plain.
#[verifier::external_body]
fn precondition_passes(if_none_match: &str, etag: &str) -> (passes: Option<bool>)
    requires
        is_plain(if_none_match@),
        is_plain(etag@),
    ensures
        passes == precondition(if_none_match@, etag@),
        passes == header_precondition(if_none_match@, etag@),
{
    let value = HeaderValue::from_str(if_none_match).ok()?;
    let header = IfNoneMatch::decode(&mut std::iter::once(&value)).ok()?;
    let tag = etag.parse::<ETag>().ok()?;
    Some(header.precondition_passes(&tag))
}

/// Whether a text is plain.
pub fn plain(text: &str) -> (result: bool)
    ensures
        result == is_plain(text@),
{
    let bytes = text.as_bytes();
    let mut quoted = false;
    let mut i: usize = 0;
    while i < bytes.len()
        invariant
            i <= bytes.len(),
            bytes@ == vstd::utf8::encode_utf8(text@),
            quoted == in_quotes(bytes@, i as int),
            forall|k: int|
                0 <= k < i && in_quotes(bytes@, k) ==> #[trigger] bytes[k] != 0x20 && bytes[k]
                    != 0x09,
        decreases bytes.len() - i,
    {
        let byte = bytes[i];
        if quoted && (byte == 0x20 || byte == 0x09) {
            return false;
        }
        if byte == 0x22 {
            quoted = !quoted;
        }
        i = i + 1;
    }
    true
}

/// The validators this service makes are plain: double quotes and digits.
pub proof fn lemma_validator_is_plain(digest: u64)
    ensures
        is_plain(quoted(digest)),
        is_validator(quoted(digest)),
{
    let digits = decimal(digest as nat);
    let text = quoted(digest);
    let bytes = vstd::utf8::encode_utf8(text);
    lemma_decimal_digits(digest as nat);
    assert forall|i: int| 0 <= i < text.len() implies (#[trigger] text[i] == '"' || is_digit(
        text[i],
    )) by {
        if 0 < i && i <= digits.len() {
            assert(text[i] == digits[i - 1]);
        }
    }
    assert(is_ascii_chars(text));
    vstd::utf8::is_ascii_chars_encode_utf8(text);
    assert forall|i: int| 0 <= i < bytes.len() implies #[trigger] bytes[i] != 0x20 && bytes[i]
        != 0x09 by {
        assert(bytes[i] == text[i] as u8);
    }
}

/// For given sizes, at most one size is the one a request is served in.
pub proof fn lemma_resolved_is_unique(requested: u32, available: Seq<u32>, a: u32, b: u32)
    requires
        is_resolved(requested, available, a),
        is_resolved(requested, available, b),
    ensures
        a == b,
        a == resolved(requested, available),
{
    let i = choose|i: int| 0 <= i < available.len() && available[i] == a;
    let j = choose|j: int| 0 <= j < available.len() && available[j] == b;
    assert(available[i] == a && available[j] == b);
    let c = resolved(requested, available);
    let k = choose|k: int| 0 <= k < available.len() && available[k] == c;
    assert(is_resolved(requested, available, c));
    assert(available[k] == c);
}

/// The size a request for `requested` is served in, out of the `available`
/// ones; none only where nothing is available.
pub fn resolve(requested: u32, available: &[u32]) -> (size: Option<u32>)
    ensures
        size is None <==> available@.len() == 0,
        size matches Some(s) ==> is_resolved(requested, available@, s),
        size matches Some(s) ==> s == resolved(requested, available@),
{
    if available.len() == 0 {
        return None;
    }
    let mut largest: u32 = available[0];
    let mut above: Option<u32> = if available[0] > requested {
        Some(available[0])
    } else {
        None
    };
    let mut i: usize = 1;
    while i < available.len()
        invariant
            1 <= i <= available.len(),
            exists|k: int| 0 <= k < i && available[k] == largest,
            forall|k: int| 0 <= k < i ==> available[k] <= largest,
            above is None <==> forall|k: int| 0 <= k < i ==> available[k] <= requested,
            above matches Some(a) ==> a > requested && (exists|k: int|
                0 <= k < i && available[k] == a) && forall|k: int|
                0 <= k < i && available[k] > requested ==> a <= available[k],
        decreases available.len() - i,
    {
        let candidate = available[i];
        if candidate > largest {
            largest = candidate;
        }
        if candidate > requested {
            above = match above {
                Some(a) => if candidate < a {
                    Some(candidate)
                } else {
                    Some(a)
                },
                None => Some(candidate),
            };
        }
        i = i + 1;
    }
    let size = match above {
        Some(a) => a,
        None => largest,
    };
    proof {
        lemma_resolved_is_unique(requested, available@, size, size);
    }
    Some(size)
}

/// A digest as a validator: its decimal text between double quotes.
fn quoted_text(digest: u64) -> (etag: String)
    ensures
        etag@ == quoted(digest),
{
    proof {
        reveal_strlit("\"");
    }
    let mut etag = String::from_str("\"");
    let digits = to_decimal(digest);
    etag.append(digits.as_str());
    etag.append("\"");
    assert(etag@ =~= quoted(digest));
    etag
}

/// The validator of a file last written at the given time.
pub fn etag_of(modified: ModTime) -> (etag: String)
    ensures
        etag@ == validator(modified),
{
    proof {
        reveal_strlit(".");
    }
    let mut text = to_decimal(modified.secs);
    text.append(".");
    let nanos = to_decimal(modified.nanos as u64);
    text.append(nanos.as_str());
    assert(text@ =~= mod_time_text(modified));
    let mut hasher = DefaultHasher::new();
    hasher.write(text.as_str().as_bytes());
    assert(hasher@ =~= mod_time_writes(modified));
    quoted_text(hasher.finish())
}

/// The validator of a user's placeholder.
pub fn placeholder_etag(user_id: u32) -> (etag: String)
    ensures
        etag@ == placeholder_validator(user_id),
{
    let text = to_decimal(user_id as u64);
    let mut hasher = DefaultHasher::new();
    hasher.write(text.as_str().as_bytes());
    assert(hasher@ =~= placeholder_writes(user_id));
    quoted_text(hasher.finish())
}

/// The validator of a file, given what asking for its metadata gave.
pub fn file_modified_etag(metadata: Metadata) -> (result: Result<Option<String>, AppError>)
    ensures
        is_etag_of(metadata, result),
{
    match metadata {
        Metadata::Modified(modified) => Ok(Some(etag_of(modified))),
        Metadata::Missing => Ok(None),
        Metadata::Failed(message) => Err(AppError::Io(message)),
    }
}

/// What the crate makes of one plain header and one plain validator: whether
/// the header does not let the validator pass.
fn fails_precondition(if_none_match: &str, etag: &str) -> (fails: bool)
    requires
        is_plain(if_none_match@),
        is_plain(etag@),
    ensures
        fails == (precondition(if_none_match@, etag@) == Some(false)),
{
    match precondition_passes(if_none_match, etag) {
        Some(passes) => !passes,
        None => false,
    }
}

/// Whether the piece of the header from `start` up to `end`, trimmed, shows
/// that the client holds the content with the given validator.
fn piece_shows(if_none_match: &str, start: usize, end: usize, etag: &str) -> (matches: bool)
    requires
        is_piece(if_none_match.spec_bytes(), start as int, end as int),
        is_plain(etag@),
    ensures
        matches == tag_shows(
            trimmed(if_none_match.spec_bytes().subrange(start as int, end as int)),
            etag@,
        ),
{
    broadcast use vstd::utf8::encode_utf8_valid_utf8;

    let bytes = if_none_match.as_bytes();
    let ghost piece = bytes@.subrange(start as int, end as int);
    let mut from = start;
    while from < end && (bytes[from] == 0x20 || bytes[from] == 0x09)
        invariant
            start <= from <= end <= bytes.len(),
            trimmed(piece) == trimmed(bytes@.subrange(from as int, end as int)),
            from == start || is_blank(bytes[from - 1]),
        decreases end - from,
    {
        assert(bytes@.subrange(from as int, end as int).drop_first() =~= bytes@.subrange(
            from + 1,
            end as int,
        ));
        from = from + 1;
    }
    let mut to = end;
    while from < to && (bytes[to - 1] == 0x20 || bytes[to - 1] == 0x09)
        invariant
            from <= to <= end <= bytes.len(),
            from < end ==> !is_blank(bytes[from as int]),
            trimmed(piece) == trimmed(bytes@.subrange(from as int, to as int)),
            to == end || is_blank(bytes[to as int]),
        decreases to - from,
    {
        assert(bytes@.subrange(from as int, to as int).drop_last() =~= bytes@.subrange(
            from as int,
            to - 1,
        ));
        to = to - 1;
    }
    let ghost tag = bytes@.subrange(from as int, to as int);
    assert(trimmed(tag) == tag);
    if to - from == 1 && bytes[from] == 0x2a {
        assert(tag =~= any_tag());
        return false;
    }
    assert(tag != any_tag()) by {
        if tag == any_tag() {
            assert(tag.len() == 1 && tag[0] == 0x2a);
        }
    }
    proof {
        if from > 0 {
            lemma_boundary_behind_ascii(bytes@, from - 1);
            if from < bytes.len() {
                vstd::utf8::is_char_boundary_iff_not_is_continuation_byte(bytes@, from as int);
            }
        }
    }
    let text = part(if_none_match, from, to);
    if !plain(text) {
        return false;
    }
    fails_precondition(text, etag)
}

/// Whether the header shows that the client already holds the content with
/// the given validator. The header is taken apart at the commas outside
/// quotes, and each piece is compared by itself, so that a piece that cannot
/// be compared hides no other.
pub fn header_shows(if_none_match: &str, etag: &str) -> (matches: bool)
    ensures
        matches == shows(if_none_match@, etag@),
{
    if !plain(etag) {
        return false;
    }
    let bytes = if_none_match.as_bytes();
    if bytes.len() == 1 && bytes[0] == 0x2a {
        assert(bytes@ =~= any_tag());
        assert(in_quotes(bytes@, 0) == false);
        return fails_precondition(if_none_match, etag);
    }
    assert(bytes@ != any_tag()) by {
        if bytes@ == any_tag() {
            assert(bytes@.len() == 1 && bytes@[0] == 0x2a);
        }
    }
    let mut start: usize = 0;
    let mut quoted = false;
    let mut i: usize = 0;
    while i < bytes.len()
        invariant
            start <= i <= bytes.len(),
            bytes@ == if_none_match.spec_bytes(),
            is_plain(etag@),
            quoted == in_quotes(bytes@, i as int),
            start == 0 || is_separator(bytes@, start - 1),
            forall|k: int| start <= k < i ==> !is_separator(bytes@, k),
            forall|s: int, e: int| #[trigger]
                is_piece(bytes@, s, e) && e < start ==> !tag_shows(
                    trimmed(bytes@.subrange(s, e)),
                    etag@,
                ),
        decreases bytes.len() - i,
    {
        let byte = bytes[i];
        if byte == 0x2c && !quoted {
            assert(is_separator(bytes@, i as int));
            assert(is_piece(bytes@, start as int, i as int));
            if piece_shows(if_none_match, start, i, etag) {
                return true;
            }
            assert forall|s: int, e: int| #[trigger]
                is_piece(bytes@, s, e) && e < i + 1 implies !tag_shows(
                trimmed(bytes@.subrange(s, e)),
                etag@,
            ) by {
                if e >= start {
                    lemma_piece_is_unique(bytes@, s, e, start as int, i as int);
                }
            }
            start = i + 1;
        } else if byte == 0x22 {
            quoted = !quoted;
        }
        i = i + 1;
    }
    assert(is_piece(bytes@, start as int, bytes.len() as int));
    let last = piece_shows(if_none_match, start, bytes.len(), etag);
    assert forall|s: int, e: int| #[trigger] is_piece(bytes@, s, e) implies (tag_shows(
        trimmed(bytes@.subrange(s, e)),
        etag@,
    ) ==> last) by {
        if e >= start {
            lemma_piece_is_unique(bytes@, s, e, start as int, bytes.len() as int);
        }
    }
    last
}

/// The pieces of a header do not overlap: two of them that reach a common
/// place, or of which one ends where the other starts, are one piece.
pub proof fn lemma_piece_is_unique(bytes: Seq<u8>, s: int, e: int, start: int, end: int)
    requires
        is_piece(bytes, s, e),
        is_piece(bytes, start, end),
        start <= e <= end,
    ensures
        s == start,
        e == end,
{
    if s > start {
        assert(is_separator(bytes, s - 1));
    }
    if s < start {
        assert(is_separator(bytes, start - 1));
    }
    if e < end {
        assert(is_separator(bytes, e));
    }
}

/// Whether the client already holds the content with the given validator.
pub fn etag_matches(if_none_match: Option<&str>, etag: &Option<String>) -> (matches: bool)
    ensures
        matches == is_match(str_of(if_none_match), text_of(*etag)),
{
    match etag {
        Some(etag) => client_holds(if_none_match, etag.as_str()),
        None => false,
    }
}

/// Whether the client, if it sent a header, already holds the content with
/// the given validator.
fn client_holds(if_none_match: Option<&str>, etag: &str) -> (holds: bool)
    ensures
        holds == is_match(str_of(if_none_match), Some(etag@)),
{
    match if_none_match {
        Some(header) => header_shows(header, etag),
        None => false,
    }
}

/// Decides between sending a file, telling the client that nothing changed,
/// and reporting that there is no file.
pub fn negotiate(modified: Option<ModTime>, if_none_match: Option<&str>) -> (outcome: Negotiation)
    ensures
        is_negotiated(modified, str_of(if_none_match), outcome),
{
    match modified {
        None => Negotiation::Absent,
        Some(modified) => {
            let etag = etag_of(modified);
            if client_holds(if_none_match, etag.as_str()) {
                Negotiation::NotModified
            } else {
                Negotiation::Serve(etag)
            }
        },
    }
}

/// Whether `result` answers a request for the image of a user who has no
/// file: a request that declines the placeholder is told that nothing was
/// found; any other is sent the placeholder with the placeholder's validator,
/// unless it shows that validator, in which case nothing has changed.
pub open spec fn is_placeholder_answer(
    params: GetImageQuery,
    user_id: u32,
    if_none_match: Option<Seq<char>>,
    result: Result<Fetch, AppError>,
) -> bool {
    if params.placeholder == Some(false) {
        result == Err::<Fetch, AppError>(AppError::NotFound)
    } else if is_match(if_none_match, Some(placeholder_validator(user_id))) {
        result == Ok::<Fetch, AppError>(Fetch::NotModified)
    } else {
        result matches Ok(Fetch::Image { image: ResponseImage::Placeholder(id), etag }) && id
            == user_id && etag@ == placeholder_validator(user_id)
    }
}

/// Whether `result` answers a request for a user's image, given the request,
/// what asking for the file's metadata gave and what opening the file gave.
/// The metadata decides whether there is a file; what opening gave counts
/// only where there is one and it has to be sent. A file that is gone by the
/// time it is opened is answered like one that was never there.
pub open spec fn is_fetch(
    params: GetImageQuery,
    user_id: u32,
    if_none_match: Option<Seq<char>>,
    metadata: Metadata,
    opened: Opened,
    config: ImageConfig,
    result: Result<Fetch, AppError>,
) -> bool {
    match metadata {
        Metadata::Failed(message) => result == Err::<Fetch, AppError>(AppError::Io(message)),
        Metadata::Missing => is_placeholder_answer(params, user_id, if_none_match, result),
        Metadata::Modified(modified) => if is_match(if_none_match, Some(validator(modified))) {
            result == Ok::<Fetch, AppError>(Fetch::NotModified)
        } else {
            match opened {
                Opened::File => result matches Ok(
                    Fetch::Image { image: ResponseImage::File { name, format }, etag },
                ) && name@ == derived_name(
                    user_id,
                    served_size(params, config.sizes@),
                    config.save_type,
                ) && format == config.save_type && etag@ == validator(modified),
                Opened::Missing => is_placeholder_answer(params, user_id, if_none_match, result),
                Opened::Failed(message) => result == Err::<Fetch, AppError>(
                    AppError::Io(message),
                ),
            }
        },
    }
}

/// Whether `plan` is the plan for the given upload and sizes: the original
/// under the user's name, and the job of each size, in the order of the sizes.
pub open spec fn is_plan_for(plan: UploadPlan, image: DataImage, sizes: Seq<u32>) -> bool {
    &&& plan.original@ == original_name(image.profile.user_id)
    &&& plan.jobs.len() == sizes.len()
    &&& forall|i: int| 0 <= i < sizes.len() ==> is_job_for(#[trigger] plan.jobs[i], image, sizes[i])
}

/// The names of the files that are written for an upload: none for one that
/// was refused.
pub open spec fn planned_writes(result: Result<UploadPlan, AppError>) -> Seq<Seq<char>> {
    match result {
        Ok(plan) => seq![plan.original@] + Seq::new(
            plan.jobs.len() as nat,
            |i: int| plan.jobs[i].target@,
        ),
        Err(_) => Seq::empty(),
    }
}

/// Whether `result` is what an upload of `data` for a user comes to before
/// anything is written: the refusal, or the plan for the configured sizes.
pub open spec fn is_upload(
    user_id: u32,
    data: Seq<u8>,
    config: ImageConfig,
    result: Result<UploadPlan, AppError>,
) -> bool {
    match admitted(profile_of(user_id, config), classified(data), upload_probe(data)) {
        Err(e) => result == Err::<UploadPlan, AppError>(e),
        Ok(image) => result matches Ok(plan) && is_plan_for(plan, image, config.sizes@),
    }
}

/// What a finished request comes to: `204 No Content` where every step did
/// well, and the first failure otherwise.
pub open spec fn finished(outcomes: Seq<Result<(), AppError>>) -> Result<u16, AppError> {
    match settled(outcomes) {
        Ok(_) => Ok(NO_CONTENT),
        Err(e) => Err(e),
    }
}

/// What a disk that holds the files named in `store` reports when the file
/// `name` is removed.
pub open spec fn store_removal(store: Set<Seq<char>>, name: Seq<char>) -> Removal {
    if store.contains(name) {
        Removal::Removed
    } else {
        Removal::Missing
    }
}

/// What such a disk reports when the files `names` are removed one after the
/// other.
pub open spec fn observed_removals(store: Set<Seq<char>>, names: Seq<Seq<char>>) -> Seq<Removal>
    decreases names.len(),
{
    if names.len() == 0 {
        Seq::empty()
    } else {
        seq![store_removal(store, names[0])] + observed_removals(
            store.remove(names[0]),
            names.subrange(1, names.len() as int),
        )
    }
}

/// The files such a disk holds after the files `names` were removed.
pub open spec fn store_after(store: Set<Seq<char>>, names: Seq<Seq<char>>) -> Set<Seq<char>>
    decreases names.len(),
{
    if names.len() == 0 {
        store
    } else {
        store_after(store.remove(names[0]), names.subrange(1, names.len() as int))
    }
}

impl Fetch {
    /// The status this answer is sent with.
    pub fn status(&self) -> (status: u16)
        ensures
            status == fetch_status(*self),
    {
        match self {
            Fetch::NotModified => NOT_MODIFIED,
            Fetch::Image { .. } => OK,
        }
    }
}

impl ImageHandler {
    /// The name of the file a request is served from.
    pub fn target(params: &GetImageQuery, user_id: u32, config: &ImageConfig) -> (name: String)
        requires
            config.wf(),
        ensures
            name@ == derived_name(
                user_id,
                served_size(*params, config.sizes@),
                config.save_type,
            ),
    {
        ProfileImage::new(user_id, config).path(Self::size(params, config))
    }

    /// The size a request is served in.
    pub fn size(params: &GetImageQuery, config: &ImageConfig) -> (size: u32)
        requires
            config.wf(),
        ensures
            size == served_size(*params, config.sizes@),
            is_resolved(requested_size(*params), config.sizes@, size),
    {
        let requested = match params.size {
            Some(size) => size,
            None => DEFAULT_SIZE,
        };
        match resolve(requested, config.sizes.as_slice()) {
            Some(size) => size,
            None => DEFAULT_SIZE,
        }
    }

    /// Answers a request for the image of a user who has no file.
    pub fn placeholder(params: &GetImageQuery, user_id: u32, if_none_match: Option<&str>) -> (result:
        Result<Fetch, AppError>)
        ensures
            is_placeholder_answer(*params, user_id, str_of(if_none_match), result),
    {
        match params.placeholder {
            Some(false) => Err(AppError::NotFound),
            _ => {
                let etag = placeholder_etag(user_id);
                if client_holds(if_none_match, etag.as_str()) {
                    Ok(Fetch::NotModified)
                } else {
                    Ok(Fetch::Image { image: ResponseImage::Placeholder(user_id), etag })
                }
            },
        }
    }

    /// Answers a request for a user's image from what was found on disk.
    /// Every image that is sent carries a validator.
    pub fn get(
        params: &GetImageQuery,
        user_id: u32,
        if_none_match: Option<&str>,
        metadata: Metadata,
        opened: Opened,
        config: &ImageConfig,
    ) -> (result: Result<Fetch, AppError>)
        requires
            config.wf(),
        ensures
            is_fetch(*params, user_id, str_of(if_none_match), metadata, opened, *config, result),
    {
        let etag = match file_modified_etag(metadata) {
            Ok(Some(etag)) => etag,
            Ok(None) => {
                return Self::placeholder(params, user_id, if_none_match);
            },
            Err(e) => {
                return Err(e);
            },
        };
        if client_holds(if_none_match, etag.as_str()) {
            return Ok(Fetch::NotModified);
        }
        let profile = ProfileImage::new(user_id, config);
        let size = Self::size(params, config);
        match profile.get(size, opened) {
            Ok(image) => Ok(Fetch::Image { image, etag }),
            Err(AppError::NotFound) => Self::placeholder(params, user_id, if_none_match),
            Err(e) => Err(e),
        }
    }

    /// Takes or refuses an upload and, where it is taken, plans what is
    /// written for it. Nothing is written for an upload that is refused.
    pub fn post(user_id: u32, data: &[u8], config: &ImageConfig) -> (result: Result<
        UploadPlan,
        AppError,
    >)
        ensures
            is_upload(user_id, data@, *config, result),
            result is Err ==> planned_writes(result).len() == 0,
            is_beyond(upload_probe(data@), config.max_resolution) ==> result == Err::<
                UploadPlan,
                AppError,
            >(AppError::ImageResTooLarge),
    {
        let profile = ProfileImage::new(user_id, config);
        match profile.with_data(data) {
            Err(e) => Err(e),
            Ok(image) => {
                let jobs = image.save_sizes(config.sizes.as_slice());
                Ok(UploadPlan { original: profile.path_orig(), jobs })
            },
        }
    }

    /// What an upload comes to once all its jobs have ended, given their
    /// outcomes in the order they ended.
    pub fn uploaded(outcomes: Vec<Result<(), AppError>>) -> (result: Result<u16, AppError>)
        ensures
            result == finished(outcomes@),
    {
        match DataImage::settle(outcomes) {
            Ok(_) => Ok(NO_CONTENT),
            Err(e) => Err(e),
        }
    }

    /// The names of all files of a user, in the order they are removed.
    pub fn delete(user_id: u32, config: &ImageConfig) -> (names: Vec<String>)
        ensures
            crate::image::texts(names@) == removal_names(
                user_id,
                config.sizes@,
                config.save_type,
            ),
    {
        let profile = ProfileImage::new(user_id, config);
        let mut names: Vec<String> = Vec::new();
        let mut i: usize = 0;
        while i < config.sizes.len()
            invariant
                i <= config.sizes.len(),
                profile == profile_of(user_id, *config),
                names.len() == i,
                forall|k: int|
                    0 <= k < i ==> (#[trigger] names[k])@ == derived_name(
                        user_id,
                        config.sizes[k],
                        config.save_type,
                    ),
            decreases config.sizes.len() - i,
        {
            names.push(profile.path(config.sizes[i]));
            i = i + 1;
        }
        names.push(profile.path_orig());
        assert(crate::image::texts(names@) =~= removal_names(
            user_id,
            config.sizes@,
            config.save_type,
        ));
        names
    }

    /// What removing one file comes to. Nothing more is removed once a
    /// removal has failed.
    pub fn removed(outcome: Removal) -> (result: Result<(), AppError>)
        ensures
            result == removal_result(outcome),
    {
        match outcome {
            Removal::Removed => Ok(()),
            Removal::Missing => Ok(()),
            Removal::Failed(message) => Err(AppError::Io(message)),
        }
    }

    /// What a deletion comes to, given what removing each file gave, in the
    /// order the files were removed.
    pub fn deleted(outcomes: Vec<Removal>) -> (result: Result<u16, AppError>)
        ensures
            result == finished(removal_results(outcomes@)),
    {
        let mut left = outcomes;
        let ghost all = removal_results(left@);
        let mut i: usize = 0;
        assert(all.subrange(0, all.len() as int) =~= all);
        while i < left.len()
            invariant
                i <= left.len(),
                all == removal_results(left@),
                left@ == outcomes@,
                settled(all) == settled(all.subrange(i as int, all.len() as int)),
            decreases left.len() - i,
        {
            let ghost rest = all.subrange(i as int, all.len() as int);
            assert(rest[0] == all[i as int]);
            let failed = match &left[i] {
                Removal::Failed(_) => true,
                _ => false,
            };
            if failed {
                assert(settled(rest) == rest[0]);
                return match Self::removed(left.remove(i)) {
                    Ok(_) => Ok(NO_CONTENT),
                    Err(e) => Err(e),
                };
            }
            assert(rest.subrange(1, rest.len() as int) =~= all.subrange(
                i + 1,
                all.len() as int,
            ));
            i = i + 1;
        }
        Ok(NO_CONTENT)
    }
}

/// Two times are hashed as the same text only if they are the same time.
pub proof fn lemma_mod_time_text_is_injective(a: ModTime, b: ModTime)
    requires
        mod_time_text(a) == mod_time_text(b),
    ensures
        a == b,
{
    lemma_decimal_digits(a.secs as nat);
    lemma_decimal_digits(b.secs as nat);
    lemma_dotted_parts(
        decimal(a.secs as nat),
        decimal(a.nanos as nat),
        decimal(b.secs as nat),
        decimal(b.nanos as nat),
    );
    lemma_decimal_injective(a.secs as nat, b.secs as nat);
    lemma_decimal_injective(a.nanos as nat, b.nanos as nat);
}

/// A validator of this service as a client may send it back: as it is, or
/// marked as weak.
pub open spec fn sent_back(digest: u64, weak: bool) -> Seq<char> {
    if weak {
        seq!['W', '/'] + quoted(digest)
    } else {
        quoted(digest)
    }
}

/// Trimming takes bytes away and adds none.
pub proof fn lemma_trimmed_is_no_longer(bytes: Seq<u8>)
    ensures
        trimmed(bytes).len() <= bytes.len(),
    decreases bytes.len(),
{
    if bytes.len() > 0 && is_blank(bytes[0]) {
        lemma_trimmed_is_no_longer(bytes.drop_first());
    } else if bytes.len() > 0 && is_blank(bytes.last()) {
        lemma_trimmed_is_no_longer(bytes.drop_last());
    }
}

/// A validator that is sent back is written with one byte for each
/// character, none of them a blank, a tab or a comma; it is plain, and read
/// back from its bytes it is itself.
pub proof fn lemma_sent_back_bytes(digest: u64, weak: bool)
    ensures
        ({
            let text = sent_back(digest, weak);
            let bytes = vstd::utf8::encode_utf8(text);
            &&& bytes.len() == text.len()
            &&& bytes.len() >= 3
            &&& forall|i: int|
                0 <= i < bytes.len() ==> !is_blank(#[trigger] bytes[i]) && bytes[i] != 0x2c
            &&& trimmed(bytes) == bytes
            &&& has_plain_quotes(bytes)
            &&& bytes != any_tag()
            &&& vstd::utf8::decode_utf8(bytes) == text
            &&& without_weak_mark(text) == quoted(digest)
            &&& is_validator(quoted(digest))
        }),
{
    broadcast use vstd::utf8::encode_utf8_decode_utf8;

    let digits = decimal(digest as nat);
    let tag = quoted(digest);
    let text = sent_back(digest, weak);
    let bytes = vstd::utf8::encode_utf8(text);
    let lead: int = if weak {
        2
    } else {
        0
    };
    lemma_decimal_digits(digest as nat);
    assert forall|i: int| 0 <= i < tag.len() implies (#[trigger] tag[i] == '"' || is_digit(tag[i])) by {
        if 0 < i && i <= digits.len() {
            assert(tag[i] == digits[i - 1]);
        }
    }
    assert forall|i: int| 0 <= i < text.len() implies (#[trigger] text[i] == '"' || is_digit(
        text[i],
    ) || text[i] == 'W' || text[i] == '/') by {
        if i >= lead {
            assert(text[i] == tag[i - lead]);
        }
    }
    assert(is_ascii_chars(text));
    vstd::utf8::is_ascii_chars_encode_utf8(text);
    assert forall|i: int| 0 <= i < bytes.len() implies !is_blank(#[trigger] bytes[i]) && bytes[i]
        != 0x2c by {
        assert(bytes[i] == text[i] as u8);
    }
    assert(tag[0] == '"');
    if weak {
        assert(text.subrange(2, text.len() as int) =~= tag);
    }
    assert(without_weak_mark(text) == tag);
    assert(bytes != any_tag()) by {
        if bytes == any_tag() {
            assert(bytes.len() == 1);
        }
    }
}

/// A header shows a validator of this service whenever one of its pieces,
/// trimmed, is that validator, marked as weak or not, whatever the other
/// pieces hold.
pub proof fn lemma_listed_validator_is_shown(
    if_none_match: Seq<char>,
    start: int,
    end: int,
    digest: u64,
    weak: bool,
)
    requires
        is_piece(vstd::utf8::encode_utf8(if_none_match), start, end),
        trimmed(vstd::utf8::encode_utf8(if_none_match).subrange(start, end))
            == vstd::utf8::encode_utf8(sent_back(digest, weak)),
    ensures
        shows(if_none_match, quoted(digest)),
{
    let bytes = vstd::utf8::encode_utf8(if_none_match);
    let tag = trimmed(bytes.subrange(start, end));
    lemma_sent_back_bytes(digest, weak);
    lemma_sent_back_bytes(digest, false);
    lemma_trimmed_is_no_longer(bytes.subrange(start, end));
    assert(tag_shows(tag, quoted(digest)));
    assert(bytes != any_tag()) by {
        if bytes == any_tag() {
            assert(bytes.len() == 1);
        }
    }
}

/// A header that is one validator of this service, marked as weak or not,
/// shows that validator and no other.
pub proof fn lemma_validator_shows_itself_alone(sent: u64, weak: bool, current: u64)
    ensures
        shows(sent_back(sent, weak), quoted(current)) <==> sent == current,
{
    let header = sent_back(sent, weak);
    let bytes = vstd::utf8::encode_utf8(header);
    lemma_sent_back_bytes(sent, weak);
    lemma_sent_back_bytes(current, false);
    assert(is_piece(bytes, 0, bytes.len() as int));
    assert(bytes.subrange(0, bytes.len() as int) =~= bytes);
    if sent == current {
        lemma_listed_validator_is_shown(header, 0, bytes.len() as int, sent, weak);
    } else {
        assert(quoted(sent) != quoted(current)) by {
            if quoted(sent) == quoted(current) {
                assert(quoted(sent).subrange(1, quoted(sent).len() - 1) =~= decimal(sent as nat));
                assert(quoted(current).subrange(1, quoted(current).len() - 1) =~= decimal(
                    current as nat,
                ));
                lemma_decimal_injective(sent as nat, current as nat);
            }
        }
        assert forall|s: int, e: int| #[trigger] is_piece(bytes, s, e) implies !tag_shows(
            trimmed(bytes.subrange(s, e)),
            quoted(current),
        ) by {
            if e < bytes.len() {
                assert(is_separator(bytes, e));
            }
            if s > 0 {
                assert(is_separator(bytes, s - 1));
            }
        }
    }
}

/// A client that fetches an unchanged file twice, and the second time shows
/// the validator it got the first time, is sent the file at first and told
/// that nothing changed afterwards.
pub proof fn lemma_second_fetch_is_not_modified(
    params: GetImageQuery,
    user_id: u32,
    config: ImageConfig,
    modified: ModTime,
    first: Result<Fetch, AppError>,
    opened_again: Opened,
    second: Result<Fetch, AppError>,
)
    requires
        is_fetch(params, user_id, None, Metadata::Modified(modified), Opened::File, config, first),
        first matches Ok(Fetch::Image { etag, .. }) ==> is_fetch(
            params,
            user_id,
            Some(etag@),
            Metadata::Modified(modified),
            opened_again,
            config,
            second,
        ),
    ensures
        first matches Ok(Fetch::Image { image: ResponseImage::File { .. }, etag }) && etag@
            == validator(modified),
        fetch_status(first->Ok_0) == OK,
        second == Ok::<Fetch, AppError>(Fetch::NotModified),
        fetch_status(second->Ok_0) == NOT_MODIFIED,
{
    lemma_validator_shows_itself_alone(
        validator_digest(modified),
        false,
        validator_digest(modified),
    );
}

/// A client that fetches the image of a user who has none, and fetches it
/// again while there is still none, showing the validator it got the first
/// time: it is sent the placeholder at first, with a validator that depends
/// on the user alone, and told that nothing changed afterwards.
pub proof fn lemma_second_placeholder_fetch_is_not_modified(
    params: GetImageQuery,
    user_id: u32,
    config: ImageConfig,
    opened: Opened,
    first: Result<Fetch, AppError>,
    opened_again: Opened,
    second: Result<Fetch, AppError>,
)
    requires
        params.placeholder != Some(false),
        is_fetch(params, user_id, None, Metadata::Missing, opened, config, first),
        first matches Ok(Fetch::Image { etag, .. }) ==> is_fetch(
            params,
            user_id,
            Some(etag@),
            Metadata::Missing,
            opened_again,
            config,
            second,
        ),
    ensures
        first matches Ok(Fetch::Image { image: ResponseImage::Placeholder(id), etag }) && id
            == user_id && etag@ == placeholder_validator(user_id),
        fetch_status(first->Ok_0) == OK,
        second == Ok::<Fetch, AppError>(Fetch::NotModified),
        fetch_status(second->Ok_0) == NOT_MODIFIED,
{
    let digest = DefaultHasher::spec_finish(placeholder_writes(user_id));
    lemma_validator_shows_itself_alone(digest, false, digest);
}

/// Every image that a fetch sends carries a validator of this service: a
/// quoted row of digits, which is the file's where a file is sent and the
/// user's placeholder's where the placeholder is.
pub proof fn lemma_sent_image_has_validator(
    params: GetImageQuery,
    user_id: u32,
    if_none_match: Option<Seq<char>>,
    metadata: Metadata,
    opened: Opened,
    config: ImageConfig,
    result: Result<Fetch, AppError>,
)
    requires
        is_fetch(params, user_id, if_none_match, metadata, opened, config, result),
    ensures
        result matches Ok(Fetch::Image { image, etag }) ==> is_validator(etag@) && is_plain(etag@)
            && match image {
            ResponseImage::Placeholder(id) => id == user_id && etag@ == placeholder_validator(
                user_id,
            ),
            ResponseImage::File { .. } => metadata matches Metadata::Modified(modified) && etag@
                == validator(modified),
        },
{
    lemma_validator_is_plain(DefaultHasher::spec_finish(placeholder_writes(user_id)));
    if let Metadata::Modified(modified) = metadata {
        lemma_validator_is_plain(validator_digest(modified));
    }
}

/// Removing files never leaves one of them behind, and touches no other.
pub proof fn lemma_store_after(store: Set<Seq<char>>, names: Seq<Seq<char>>, name: Seq<char>)
    ensures
        store_after(store, names).contains(name) <==> store.contains(name) && !names.contains(
            name,
        ),
    decreases names.len(),
{
    if names.len() > 0 {
        let rest = names.subrange(1, names.len() as int);
        lemma_store_after(store.remove(names[0]), rest, name);
        if names.contains(name) && name != names[0] {
            let k = choose|k: int| 0 <= k < names.len() && names[k] == name;
            assert(rest[k - 1] == name);
        }
        if rest.contains(name) {
            let k = choose|k: int| 0 <= k < rest.len() && rest[k] == name;
            assert(names[k + 1] == name);
        }
    }
}

/// Removal reports one outcome per file, none of them a failure, and only
/// `Missing` where none of the files is there.
pub proof fn lemma_observed_removals(store: Set<Seq<char>>, names: Seq<Seq<char>>)
    ensures
        observed_removals(store, names).len() == names.len(),
        forall|i: int|
            0 <= i < names.len() ==> !((#[trigger] observed_removals(store, names)[i]) is Failed),
        (forall|i: int| 0 <= i < names.len() ==> !store.contains(#[trigger] names[i]))
            ==> forall|i: int|
            0 <= i < names.len() ==> #[trigger] observed_removals(store, names)[i]
                == Removal::Missing,
    decreases names.len(),
{
    if names.len() > 0 {
        let rest = names.subrange(1, names.len() as int);
        let less = store.remove(names[0]);
        lemma_observed_removals(less, rest);
        let head = seq![store_removal(store, names[0])];
        let all = observed_removals(store, names);
        assert(all == head + observed_removals(less, rest));
        assert forall|i: int| 0 <= i < names.len() implies !((#[trigger] all[i]) is Failed) by {
            if i > 0 {
                assert(all[i] == observed_removals(less, rest)[i - 1]);
            }
        }
        if forall|i: int| 0 <= i < names.len() ==> !store.contains(#[trigger] names[i]) {
            assert forall|i: int| 0 <= i < rest.len() implies !less.contains(#[trigger] rest[i]) by {
                assert(rest[i] == names[i + 1]);
            }
            assert forall|i: int| 0 <= i < names.len() implies #[trigger] all[i]
                == Removal::Missing by {
                if i > 0 {
                    assert(all[i] == observed_removals(less, rest)[i - 1]);
                } else {
                    assert(!store.contains(names[0]));
                }
            }
        }
    }
}

/// Deleting is idempotent. On a disk that does not fail, deleting a user's
/// images succeeds whatever was there; and deleting them once more finds
/// every file missing, succeeds again and leaves the disk as it was.
pub proof fn lemma_delete_twice(
    store: Set<Seq<char>>,
    user_id: u32,
    sizes: Seq<u32>,
    format: SupportedFormat,
)
    ensures
        ({
            let names = removal_names(user_id, sizes, format);
            let after = store_after(store, names);
            &&& finished(removal_results(observed_removals(store, names))) == Ok::<u16, AppError>(
                NO_CONTENT,
            )
            &&& finished(removal_results(observed_removals(after, names))) == Ok::<u16, AppError>(
                NO_CONTENT,
            )
            &&& forall|i: int|
                0 <= i < names.len() ==> #[trigger] observed_removals(after, names)[i]
                    == Removal::Missing
            &&& store_after(after, names) == after
        }),
{
    let names = removal_names(user_id, sizes, format);
    let after = store_after(store, names);
    lemma_observed_removals(store, names);
    assert forall|i: int| 0 <= i < names.len() implies !after.contains(#[trigger] names[i]) by {
        lemma_store_after(store, names, names[i]);
    }
    lemma_observed_removals(after, names);
    let first = removal_results(observed_removals(store, names));
    let second = removal_results(observed_removals(after, names));
    crate::image::lemma_settled_ok(first);
    crate::image::lemma_settled_ok(second);
    assert forall|name: Seq<char>| store_after(after, names).contains(name) == after.contains(
        name,
    ) by {
        lemma_store_after(after, names, name);
        lemma_store_after(store, names, name);
    }
    assert(store_after(after, names) =~= after);
}

/// No two writes of an upload go to the same file: under well-formed
/// settings the jobs of a plan write to files of different names, and none of
/// them to the file of the original.
pub proof fn lemma_plan_writes_are_disjoint(plan: UploadPlan, image: DataImage, config: ImageConfig)
    requires
        config.wf(),
        is_plan_for(plan, image, config.sizes@),
    ensures
        forall|i: int, j: int|
            0 <= i < j < plan.jobs.len() ==> (#[trigger] plan.jobs[i]).target@ != (
            #[trigger] plan.jobs[j]).target@,
        forall|i: int| 0 <= i < plan.jobs.len() ==> (#[trigger] plan.jobs[i]).target@ != plan.original@,
{
    let user = image.profile.user_id;
    let format = image.profile.save_type;
    assert forall|i: int, j: int| 0 <= i < j < plan.jobs.len() implies (#[trigger] plan.jobs[i]).target@
        != (#[trigger] plan.jobs[j]).target@ by {
        lemma_names_are_distinct(user, config.sizes[i], user, config.sizes[j], format);
    }
    assert forall|i: int| 0 <= i < plan.jobs.len() implies (#[trigger] plan.jobs[i]).target@
        != plan.original@ by {
        lemma_names_are_distinct(user, config.sizes[i], user, config.sizes[i], format);
    }
}

/// A successful upload leaves nothing out: every configured size has its job
/// in the plan, that job writes the file of that size as a square of exactly
/// `size` by `size` pixels, and every job of the run ended well.
pub proof fn lemma_upload_is_complete(
    plan: UploadPlan,
    image: DataImage,
    sizes: Seq<u32>,
    outcomes: Seq<Result<(), AppError>>,
)
    requires
        is_plan_for(plan, image, sizes),
        outcomes.len() == plan.jobs.len(),
        finished(outcomes) is Ok,
    ensures
        forall|i: int|
            0 <= i < sizes.len() ==> {
                let job = #[trigger] plan.jobs[i];
                &&& job.target@ == derived_name(
                    image.profile.user_id,
                    sizes[i],
                    image.profile.save_type,
                )
                &&& job.width == sizes[i]
                &&& job.height == sizes[i]
                &&& outcomes[i] is Ok
            },
{
    crate::image::lemma_settled_ok(outcomes);
}

} // verus!
