//! Input validation: per-field domain constraints, and the collectors that
//! gather every failed field of a request form into one list, never stopping
//! at the first failure.
//!
//! Lengths are deliberately counted in characters (Unicode scalar values),
//! never in encoded bytes: a multi-byte character counts once. Field keys
//! name the rejected input; for the tag list the key carries the index of
//! the first rejected tag.

use vstd::prelude::*;
use vstd::string::StrSliceExecFns;
use vstd::string::StringExecFns;

use crate::errors::{entry_views, reason_view, DomainError, ReasonView, ValidationError};
use crate::models::{
    ARTICLE_CONTENT_MAX, ARTICLE_TITLE_MAX, ARTICLE_TITLE_MIN, COMMENT_CONTENT_MAX, FILE_MIME_TYPE_MAX,
    FILE_NAME_MAX, TAG_TITLE_MAX, TAG_TITLE_MIN,
};

verus! {

pub const PAGE_MIN: u32 = 1;

pub const PAGE_MAX: u32 = 1000000;

pub const PER_PAGE_MIN: u8 = 1;

pub const PER_PAGE_MAX: u8 = 100;

pub open spec fn digit_char(d: nat) -> char {
    if d == 0 {
        '0'
    } else if d == 1 {
        '1'
    } else if d == 2 {
        '2'
    } else if d == 3 {
        '3'
    } else if d == 4 {
        '4'
    } else if d == 5 {
        '5'
    } else if d == 6 {
        '6'
    } else if d == 7 {
        '7'
    } else if d == 8 {
        '8'
    } else {
        '9'
    }
}

/// The decimal notation of `n`, most significant digit first.
pub open spec fn spec_decimal(n: nat) -> Seq<char>
    decreases n,
{
    if n < 10 {
        seq![digit_char(n)]
    } else {
        spec_decimal(n / 10) + seq![digit_char(n % 10)]
    }
}

fn digit_str(d: usize) -> (r: &'static str)
    requires
        d < 10,
    ensures
        r@ == seq![digit_char(d as nat)],
{
    proof {
        reveal_strlit("0");
        reveal_strlit("1");
        reveal_strlit("2");
        reveal_strlit("3");
        reveal_strlit("4");
        reveal_strlit("5");
        reveal_strlit("6");
        reveal_strlit("7");
        reveal_strlit("8");
        reveal_strlit("9");
    }
    let r = match d {
        0 => "0",
        1 => "1",
        2 => "2",
        3 => "3",
        4 => "4",
        5 => "5",
        6 => "6",
        7 => "7",
        8 => "8",
        _ => "9",
    };
    proof {
        assert(r@ =~= seq![digit_char(d as nat)]);
    }
    r
}

/// Renders `n` in decimal.
pub fn usize_to_string(n: usize) -> (r: String)
    ensures
        r@ == spec_decimal(n as nat),
    decreases n,
{
    if n < 10 {
        String::from_str(digit_str(n))
    } else {
        proof {
            assert(n / 10 < n) by (nonlinear_arith)
                requires
                    n >= 10,
            ;
        }
        let mut s = usize_to_string(n / 10);
        s.append(digit_str(n % 10));
        s
    }
}

pub open spec fn title_ok(t: Seq<char>) -> bool {
    ARTICLE_TITLE_MIN <= t.len() <= ARTICLE_TITLE_MAX
}

/// The reason a rejected title was rejected.
pub open spec fn title_error(t: Seq<char>) -> ReasonView {
    if t.len() == 0 {
        ReasonView::Empty
    } else {
        ReasonView::Range(ARTICLE_TITLE_MIN as i64, ARTICLE_TITLE_MAX as i64)
    }
}

pub fn validate_article_title(title: &str) -> (r: Result<(), DomainError>)
    ensures
        r is Ok <==> title_ok(title@),
        !title_ok(title@) ==> (r matches Err(DomainError::Validation(p)) && p.0@ == "title"@
            && reason_view(p.1) == title_error(title@)),
{
    let n = title.unicode_len();
    if n == 0 {
        return Err(
            DomainError::Validation((String::from_str("title"), ValidationError::InvalidEmpty)),
        );
    }
    if !(ARTICLE_TITLE_MIN <= n && n <= ARTICLE_TITLE_MAX) {
        return Err(
            DomainError::Validation(
                (
                    String::from_str("title"),
                    ValidationError::InvalidRange(
                        ARTICLE_TITLE_MIN as i64,
                        ARTICLE_TITLE_MAX as i64,
                    ),
                ),
            ),
        );
    }
    Ok(())
}

pub open spec fn content_ok(c: Seq<char>) -> bool {
    1 <= c.len() <= ARTICLE_CONTENT_MAX
}

pub open spec fn content_error(c: Seq<char>) -> ReasonView {
    if c.len() == 0 {
        ReasonView::Empty
    } else {
        ReasonView::Range(1, ARTICLE_CONTENT_MAX as i64)
    }
}

pub fn validate_article_content(content: &str) -> (r: Result<(), DomainError>)
    ensures
        r is Ok <==> content_ok(content@),
        !content_ok(content@) ==> (r matches Err(DomainError::Validation(p)) && p.0@ == "content"@
            && reason_view(p.1) == content_error(content@)),
{
    let n = content.unicode_len();
    if n == 0 {
        return Err(
            DomainError::Validation((String::from_str("content"), ValidationError::InvalidEmpty)),
        );
    }
    if !(1 <= n && n <= ARTICLE_CONTENT_MAX) {
        return Err(
            DomainError::Validation(
                (
                    String::from_str("content"),
                    ValidationError::InvalidRange(1, ARTICLE_CONTENT_MAX as i64),
                ),
            ),
        );
    }
    Ok(())
}

pub open spec fn tag_ok(t: Seq<char>) -> bool {
    TAG_TITLE_MIN <= t.len() <= TAG_TITLE_MAX
}

pub open spec fn tag_error(t: Seq<char>) -> ReasonView {
    if t.len() == 0 {
        ReasonView::Empty
    } else {
        ReasonView::Range(TAG_TITLE_MIN as i64, TAG_TITLE_MAX as i64)
    }
}

pub open spec fn tags_all_ok(tags: Seq<String>) -> bool {
    forall|j: int| 0 <= j < tags.len() ==> tag_ok(tags[j]@)
}

/// Index of the first rejected tag, scanning from `i`; the length when every
/// tag from `i` on is fine.
pub open spec fn first_bad_tag_from(tags: Seq<String>, i: int) -> int
    decreases tags.len() - i,
{
    if i < 0 || i >= tags.len() {
        i
    } else if !tag_ok(tags[i]@) {
        i
    } else {
        first_bad_tag_from(tags, i + 1)
    }
}

pub open spec fn first_bad_tag(tags: Seq<String>) -> int {
    first_bad_tag_from(tags, 0)
}

/// The field key naming the tag at index `i`.
pub open spec fn tag_field(i: int) -> Seq<char> {
    "tags_"@ + spec_decimal(i as nat)
}

proof fn lemma_first_bad_skip(tags: Seq<String>, i: int)
    requires
        0 <= i <= tags.len(),
        forall|j: int| 0 <= j < i ==> tag_ok(tags[j]@),
    ensures
        first_bad_tag(tags) == first_bad_tag_from(tags, i),
    decreases i,
{
    if i > 0 {
        lemma_first_bad_skip(tags, i - 1);
    }
}

pub fn validate_article_tags(tags: &[String]) -> (r: Result<(), DomainError>)
    ensures
        r is Ok <==> tags_all_ok(tags@),
        !tags_all_ok(tags@) ==> (r matches Err(DomainError::Validation(p)) && p.0@ == tag_field(
            first_bad_tag(tags@),
        ) && reason_view(p.1) == tag_error(tags@[first_bad_tag(tags@)]@)),
{
    let mut i: usize = 0;
    while i < tags.len()
        invariant
            0 <= i <= tags@.len(),
            forall|j: int| 0 <= j < i ==> tag_ok(tags@[j]@),
        decreases tags@.len() - i,
    {
        let n = tags[i].as_str().unicode_len();
        if !(TAG_TITLE_MIN <= n && n <= TAG_TITLE_MAX) {
            proof {
                lemma_first_bad_skip(tags@, i as int);
            }
            let mut key = String::from_str("tags_");
            key.append(usize_to_string(i).as_str());
            let reason = if n == 0 {
                ValidationError::InvalidEmpty
            } else {
                ValidationError::InvalidRange(TAG_TITLE_MIN as i64, TAG_TITLE_MAX as i64)
            };
            return Err(DomainError::Validation((key, reason)));
        }
        i = i + 1;
    }
    Ok(())
}

pub open spec fn comment_content_ok(c: Seq<char>) -> bool {
    1 <= c.len() <= COMMENT_CONTENT_MAX
}

pub open spec fn comment_content_error(c: Seq<char>) -> ReasonView {
    if c.len() == 0 {
        ReasonView::Empty
    } else {
        ReasonView::Range(1, COMMENT_CONTENT_MAX as i64)
    }
}

pub fn validate_comment_content(content: &str) -> (r: Result<(), DomainError>)
    ensures
        r is Ok <==> comment_content_ok(content@),
        !comment_content_ok(content@) ==> (r matches Err(DomainError::Validation(p)) && p.0@
            == "content"@ && reason_view(p.1) == comment_content_error(content@)),
{
    let n = content.unicode_len();
    if n == 0 {
        return Err(
            DomainError::Validation((String::from_str("content"), ValidationError::InvalidEmpty)),
        );
    }
    if !(1 <= n && n <= COMMENT_CONTENT_MAX) {
        return Err(
            DomainError::Validation(
                (
                    String::from_str("content"),
                    ValidationError::InvalidRange(1, COMMENT_CONTENT_MAX as i64),
                ),
            ),
        );
    }
    Ok(())
}

pub open spec fn filename_ok(f: Seq<char>) -> bool {
    1 <= f.len() <= FILE_NAME_MAX
}

pub open spec fn filename_error(f: Seq<char>) -> ReasonView {
    if f.len() == 0 {
        ReasonView::Empty
    } else {
        ReasonView::Range(1, FILE_NAME_MAX as i64)
    }
}

pub fn validate_filename(filename: &str) -> (r: Result<(), DomainError>)
    ensures
        r is Ok <==> filename_ok(filename@),
        !filename_ok(filename@) ==> (r matches Err(DomainError::Validation(p)) && p.0@
            == "filename"@ && reason_view(p.1) == filename_error(filename@)),
{
    let n = filename.unicode_len();
    if n == 0 {
        return Err(
            DomainError::Validation((String::from_str("filename"), ValidationError::InvalidEmpty)),
        );
    }
    if !(1 <= n && n <= FILE_NAME_MAX) {
        return Err(
            DomainError::Validation(
                (
                    String::from_str("filename"),
                    ValidationError::InvalidRange(1, FILE_NAME_MAX as i64),
                ),
            ),
        );
    }
    Ok(())
}

/// A word character of the media-type pattern: an ASCII letter, an ASCII
/// digit, or an underscore. The class is deliberately ASCII-only — narrower
/// than a Unicode-aware word class — since registered media-type names use
/// ASCII.
pub open spec fn is_word_char(c: char) -> bool {
    ||| ('a' as u32) <= (c as u32) && (c as u32) <= ('z' as u32)
    ||| ('A' as u32) <= (c as u32) && (c as u32) <= ('Z' as u32)
    ||| ('0' as u32) <= (c as u32) && (c as u32) <= ('9' as u32)
    ||| c == '_'
}

/// A character allowed after the slash of a media type: a word character or
/// one of `-`, `+`, `.`.
pub open spec fn is_mime_tail_char(c: char) -> bool {
    is_word_char(c) || c == '-' || c == '+' || c == '.'
}

/// The media-type pattern: somewhere in the string, a word character
/// immediately followed by a slash immediately followed by a tail character.
pub open spec fn mime_pattern_match(s: Seq<char>) -> bool {
    exists|i: int| 0 <= i && i + 2 < s.len() && is_word_char(s[i]) && s[i + 1] == '/'
        && is_mime_tail_char(s[i + 2])
}

fn word_char(c: char) -> (r: bool)
    ensures
        r == is_word_char(c),
{
    let u = c as u32;
    (('a' as u32) <= u && u <= ('z' as u32)) || (('A' as u32) <= u && u <= ('Z' as u32)) || (('0'
        as u32) <= u && u <= ('9' as u32)) || c == '_'
}

fn mime_tail_char(c: char) -> (r: bool)
    ensures
        r == is_mime_tail_char(c),
{
    word_char(c) || c == '-' || c == '+' || c == '.'
}

/// Scans for the media-type pattern.
pub fn mime_pattern_matches(s: &str) -> (r: bool)
    ensures
        r == mime_pattern_match(s@),
{
    let n = s.unicode_len();
    if n < 3 {
        return false;
    }
    let mut i: usize = 0;
    while i < n - 2
        invariant
            3 <= n == s@.len(),
            0 <= i <= n - 2,
            forall|j: int|
                0 <= j < i ==> !(is_word_char(s@[j]) && s@[j + 1] == '/' && is_mime_tail_char(
                    s@[j + 2],
                )),
        decreases n - i,
    {
        if word_char(s.get_char(i)) && s.get_char(i + 1) == '/' && mime_tail_char(
            s.get_char(i + 2),
        ) {
            return true;
        }
        i = i + 1;
    }
    false
}

/// The pattern a media type must match, in regular-expression notation.
pub fn mime_pattern_text() -> (r: &'static str)
    ensures
        r@ == "\\w+/[-+.\\w]+"@,
{
    "\\w+/[-+.\\w]+"
}

pub open spec fn mime_ok(m: Seq<char>) -> bool {
    1 <= m.len() <= FILE_MIME_TYPE_MAX && mime_pattern_match(m)
}

/// The field key a rejected media type is reported under. An empty value is
/// reported as `mime_type`, any other rejection as `content_type`.
pub open spec fn mime_field(m: Seq<char>) -> Seq<char> {
    if m.len() == 0 {
        "mime_type"@
    } else {
        "content_type"@
    }
}

pub open spec fn mime_error(m: Seq<char>) -> ReasonView {
    if m.len() == 0 {
        ReasonView::Empty
    } else if m.len() > FILE_MIME_TYPE_MAX {
        ReasonView::Range(1, FILE_MIME_TYPE_MAX as i64)
    } else {
        ReasonView::Pattern("\\w+/[-+.\\w]+"@)
    }
}

pub fn validate_mime_content_type(content_type: &str) -> (r: Result<(), DomainError>)
    ensures
        r is Ok <==> mime_ok(content_type@),
        !mime_ok(content_type@) ==> (r matches Err(DomainError::Validation(p)) && p.0@
            == mime_field(content_type@) && reason_view(p.1) == mime_error(content_type@)),
{
    let n = content_type.unicode_len();
    if n == 0 {
        return Err(
            DomainError::Validation((String::from_str("mime_type"), ValidationError::InvalidEmpty)),
        );
    }
    if !(1 <= n && n <= FILE_MIME_TYPE_MAX) {
        return Err(
            DomainError::Validation(
                (
                    String::from_str("content_type"),
                    ValidationError::InvalidRange(1, FILE_MIME_TYPE_MAX as i64),
                ),
            ),
        );
    }
    if !mime_pattern_matches(content_type) {
        return Err(
            DomainError::Validation(
                (
                    String::from_str("content_type"),
                    ValidationError::InvalidRegex(String::from_str(mime_pattern_text())),
                ),
            ),
        );
    }
    Ok(())
}

pub open spec fn page_ok(page: u32) -> bool {
    PAGE_MIN <= page <= PAGE_MAX
}

pub fn validate_page(page: u32) -> (r: Result<(), DomainError>)
    ensures
        r is Ok <==> page_ok(page),
        !page_ok(page) ==> (r matches Err(DomainError::Validation(p)) && p.0@ == "page"@ && p.1
            == ValidationError::InvalidRange(PAGE_MIN as i64, PAGE_MAX as i64)),
{
    if !(PAGE_MIN <= page && page <= PAGE_MAX) {
        return Err(
            DomainError::Validation(
                (
                    String::from_str("page"),
                    ValidationError::InvalidRange(PAGE_MIN as i64, PAGE_MAX as i64),
                ),
            ),
        );
    }
    Ok(())
}

pub open spec fn per_page_ok(per_page: u8) -> bool {
    PER_PAGE_MIN <= per_page <= PER_PAGE_MAX
}

pub fn validate_per_page(per_page: u8) -> (r: Result<(), DomainError>)
    ensures
        r is Ok <==> per_page_ok(per_page),
        !per_page_ok(per_page) ==> (r matches Err(DomainError::Validation(p)) && p.0@ == "per_page"@
            && p.1 == ValidationError::InvalidRange(PER_PAGE_MIN as i64, PER_PAGE_MAX as i64)),
{
    if !(PER_PAGE_MIN <= per_page && per_page <= PER_PAGE_MAX) {
        return Err(
            DomainError::Validation(
                (
                    String::from_str("per_page"),
                    ValidationError::InvalidRange(PER_PAGE_MIN as i64, PER_PAGE_MAX as i64),
                ),
            ),
        );
    }
    Ok(())
}

/// Every failed field of the article form: title, content, and the tag
/// list, in that order. Empty when the form is fine.
pub open spec fn article_form_errors(
    title: Seq<char>,
    content: Seq<char>,
    tags: Seq<String>,
) -> Seq<(Seq<char>, ReasonView)> {
    (if title_ok(title) {
        Seq::<(Seq<char>, ReasonView)>::empty()
    } else {
        seq![("title"@, title_error(title))]
    }) + (if content_ok(content) {
        Seq::<(Seq<char>, ReasonView)>::empty()
    } else {
        seq![("content"@, content_error(content))]
    }) + (if tags_all_ok(tags) {
        Seq::<(Seq<char>, ReasonView)>::empty()
    } else {
        seq![(tag_field(first_bad_tag(tags)), tag_error(tags[first_bad_tag(tags)]@))]
    })
}

/// Gathers every failed field of the article form; never stops at the first
/// failure.
pub fn collect_article_form_errors(title: &str, content: &str, tags: &[String]) -> (r: Vec<
    (String, ValidationError),
>)
    ensures
        entry_views(r@) == article_form_errors(title@, content@, tags@),
        r@.len() == 0 <==> title_ok(title@) && content_ok(content@) && tags_all_ok(tags@),
{
    let mut out: Vec<(String, ValidationError)> = Vec::new();
    match validate_article_title(title) {
        Err(DomainError::Validation(p)) => out.push(p),
        _ => (),
    }
    match validate_article_content(content) {
        Err(DomainError::Validation(p)) => out.push(p),
        _ => (),
    }
    match validate_article_tags(tags) {
        Err(DomainError::Validation(p)) => out.push(p),
        _ => (),
    }
    proof {
        assert(entry_views(out@) =~= article_form_errors(title@, content@, tags@));
    }
    out
}

/// The failed fields of the comment form: its one field, the content.
pub open spec fn comment_form_errors(content: Seq<char>) -> Seq<(Seq<char>, ReasonView)> {
    if comment_content_ok(content) {
        Seq::<(Seq<char>, ReasonView)>::empty()
    } else {
        seq![("content"@, comment_content_error(content))]
    }
}

pub fn collect_comment_form_errors(content: &str) -> (r: Vec<(String, ValidationError)>)
    ensures
        entry_views(r@) == comment_form_errors(content@),
        r@.len() == 0 <==> comment_content_ok(content@),
{
    let mut out: Vec<(String, ValidationError)> = Vec::new();
    match validate_comment_content(content) {
        Err(DomainError::Validation(p)) => out.push(p),
        _ => (),
    }
    proof {
        assert(entry_views(out@) =~= comment_form_errors(content@));
    }
    out
}

/// Every failed field of the file form: the filename, then the media type.
pub open spec fn file_form_errors(filename: Seq<char>, content_type: Seq<char>) -> Seq<
    (Seq<char>, ReasonView),
> {
    (if filename_ok(filename) {
        Seq::<(Seq<char>, ReasonView)>::empty()
    } else {
        seq![("filename"@, filename_error(filename))]
    }) + (if mime_ok(content_type) {
        Seq::<(Seq<char>, ReasonView)>::empty()
    } else {
        seq![(mime_field(content_type), mime_error(content_type))]
    })
}

pub fn collect_file_form_errors(filename: &str, content_type: &str) -> (r: Vec<
    (String, ValidationError),
>)
    ensures
        entry_views(r@) == file_form_errors(filename@, content_type@),
        r@.len() == 0 <==> filename_ok(filename@) && mime_ok(content_type@),
{
    let mut out: Vec<(String, ValidationError)> = Vec::new();
    match validate_filename(filename) {
        Err(DomainError::Validation(p)) => out.push(p),
        _ => (),
    }
    match validate_mime_content_type(content_type) {
        Err(DomainError::Validation(p)) => out.push(p),
        _ => (),
    }
    proof {
        assert(entry_views(out@) =~= file_form_errors(filename@, content_type@));
    }
    out
}

/// Every failed field of a paginated find request: the page, the page size,
/// and (for the article search) the tag filter, in that order.
pub open spec fn find_form_errors(page: u32, per_page: u8, tags: Seq<String>) -> Seq<
    (Seq<char>, ReasonView),
> {
    (if page_ok(page) {
        Seq::<(Seq<char>, ReasonView)>::empty()
    } else {
        seq![("page"@, ReasonView::Range(PAGE_MIN as i64, PAGE_MAX as i64))]
    }) + (if per_page_ok(per_page) {
        Seq::<(Seq<char>, ReasonView)>::empty()
    } else {
        seq![("per_page"@, ReasonView::Range(PER_PAGE_MIN as i64, PER_PAGE_MAX as i64))]
    }) + (if tags_all_ok(tags) {
        Seq::<(Seq<char>, ReasonView)>::empty()
    } else {
        seq![(tag_field(first_bad_tag(tags)), tag_error(tags[first_bad_tag(tags)]@))]
    })
}

pub fn collect_find_form_errors(page: u32, per_page: u8, tags: &[String]) -> (r: Vec<
    (String, ValidationError),
>)
    ensures
        entry_views(r@) == find_form_errors(page, per_page, tags@),
        r@.len() == 0 <==> page_ok(page) && per_page_ok(per_page) && tags_all_ok(tags@),
{
    let mut out: Vec<(String, ValidationError)> = Vec::new();
    match validate_page(page) {
        Err(DomainError::Validation(p)) => out.push(p),
        _ => (),
    }
    match validate_per_page(per_page) {
        Err(DomainError::Validation(p)) => out.push(p),
        _ => (),
    }
    match validate_article_tags(tags) {
        Err(DomainError::Validation(p)) => out.push(p),
        _ => (),
    }
    proof {
        assert(entry_views(out@) =~= find_form_errors(page, per_page, tags@));
    }
    out
}

/// Every failed field of a paginated tag-find request: page and page size.
pub open spec fn page_form_errors(page: u32, per_page: u8) -> Seq<(Seq<char>, ReasonView)> {
    (if page_ok(page) {
        Seq::<(Seq<char>, ReasonView)>::empty()
    } else {
        seq![("page"@, ReasonView::Range(PAGE_MIN as i64, PAGE_MAX as i64))]
    }) + (if per_page_ok(per_page) {
        Seq::<(Seq<char>, ReasonView)>::empty()
    } else {
        seq![("per_page"@, ReasonView::Range(PER_PAGE_MIN as i64, PER_PAGE_MAX as i64))]
    })
}

pub fn collect_page_form_errors(page: u32, per_page: u8) -> (r: Vec<(String, ValidationError)>)
    ensures
        entry_views(r@) == page_form_errors(page, per_page),
        r@.len() == 0 <==> page_ok(page) && per_page_ok(per_page),
{
    let mut out: Vec<(String, ValidationError)> = Vec::new();
    match validate_page(page) {
        Err(DomainError::Validation(p)) => out.push(p),
        _ => (),
    }
    match validate_per_page(per_page) {
        Err(DomainError::Validation(p)) => out.push(p),
        _ => (),
    }
    proof {
        assert(entry_views(out@) =~= page_form_errors(page, per_page));
    }
    out
}

/// A character the tag-list parser strips from segment ends: a space, tab,
/// or line break.
pub open spec fn is_edge_space(c: char) -> bool {
    c == ' ' || c == '\t' || c == '\n' || c == '\r'
}

/// `s` with leading and trailing edge spaces removed.
pub open spec fn trimmed(s: Seq<char>) -> Seq<char>
    decreases s.len(),
{
    if s.len() > 0 && is_edge_space(s[0]) {
        trimmed(s.drop_first())
    } else if s.len() > 0 && is_edge_space(s.last()) {
        trimmed(s.drop_last())
    } else {
        s
    }
}

/// The segments of `s` between semicolons, from `i` on, the current segment
/// having started at `start`. A trailing semicolon yields a final empty
/// segment, as does an empty input.
pub open spec fn split_semis_from(s: Seq<char>, i: int, start: int) -> Seq<Seq<char>>
    decreases s.len() - i,
{
    if i < 0 || i >= s.len() {
        seq![s.subrange(start, s.len() as int)]
    } else if s[i] == ';' {
        seq![s.subrange(start, i)] + split_semis_from(s, i + 1, i + 1)
    } else {
        split_semis_from(s, i + 1, start)
    }
}

/// The tag titles written in a `;`-separated list: each segment between
/// semicolons, trimmed of edge spaces.
pub open spec fn spec_tag_list(s: Seq<char>) -> Seq<Seq<char>> {
    split_semis_from(s, 0, 0).map_values(|seg: Seq<char>| trimmed(seg))
}

proof fn lemma_trimmed_of_padded(s: Seq<char>, i: int, j: int)
    requires
        0 <= i <= j + 1 <= s.len(),
        forall|k: int| 0 <= k < i ==> is_edge_space(s[k]),
        forall|k: int| j < k < s.len() ==> is_edge_space(s[k]),
        i <= j ==> !is_edge_space(s[i]) && !is_edge_space(s[j]),
    ensures
        trimmed(s) == s.subrange(i, j + 1),
    decreases s.len(),
{
    if s.len() > 0 && is_edge_space(s[0]) {
        assert(s.drop_first() =~= s.subrange(1, s.len() as int));
        if i > 0 {
            lemma_trimmed_of_padded(s.drop_first(), i - 1, j - 1);
            assert(s.drop_first().subrange(i - 1, j) =~= s.subrange(i, j + 1));
        } else {
            lemma_trimmed_of_padded(s.drop_first(), 0, -1);
            assert(s.drop_first().subrange(0, 0) =~= s.subrange(i, j + 1));
        }
    } else if s.len() > 0 && is_edge_space(s.last()) {
        assert(s.drop_last() =~= s.subrange(0, s.len() - 1));
        lemma_trimmed_of_padded(s.drop_last(), i, j);
        assert(s.drop_last().subrange(i, j + 1) =~= s.subrange(i, j + 1));
    } else {
        assert(s.subrange(i, j + 1) =~= s);
    }
}

/// Strips edge spaces from both ends.
pub fn trim_edges(s: &str) -> (r: &str)
    ensures
        r@ == trimmed(s@),
{
    let n = s.unicode_len();
    let mut i: usize = 0;
    while i < n && is_edge_space_exec(s.get_char(i))
        invariant
            n == s@.len(),
            0 <= i <= n,
            forall|k: int| 0 <= k < i ==> is_edge_space(s@[k]),
        decreases n - i,
    {
        i = i + 1;
    }
    if i == n {
        proof {
            lemma_trimmed_of_padded(s@, i as int, i as int - 1);
            assert(s@.subrange(i as int, i as int) =~= Seq::<char>::empty());
            assert(""@ =~= Seq::<char>::empty()) by {
                reveal_strlit("");
            }
        }
        return "";
    }
    let mut j: usize = n - 1;
    while j > i && is_edge_space_exec(s.get_char(j))
        invariant
            n == s@.len(),
            0 <= i <= j < n,
            !is_edge_space(s@[i as int]),
            forall|k: int| j < k < n ==> is_edge_space(s@[k]),
        decreases j,
    {
        j = j - 1;
    }
    proof {
        lemma_trimmed_of_padded(s@, i as int, j as int);
    }
    s.substring_char(i, j + 1)
}

fn is_edge_space_exec(c: char) -> (r: bool)
    ensures
        r == is_edge_space(c),
{
    c == ' ' || c == '\t' || c == '\n' || c == '\r'
}

/// Parses a `;`-separated tag list: one title per segment, trimmed of edge
/// spaces. Empty segments come through empty — validation, not parsing,
/// rejects them.
pub fn parse_tag_list(s: &str) -> (r: Vec<String>)
    ensures
        r@.map_values(|t: String| t@) == spec_tag_list(s@),
{
    let n = s.unicode_len();
    let mut out: Vec<String> = Vec::new();
    let mut start: usize = 0;
    let mut i: usize = 0;
    while i < n
        invariant
            n == s@.len(),
            0 <= start <= i <= n,
            out@.map_values(|t: String| t@) + split_semis_from(s@, i as int, start as int)
                .map_values(|seg: Seq<char>| trimmed(seg)) == spec_tag_list(s@),
        decreases n - i,
    {
        if s.get_char(i) == ';' {
            let ghost old_out = out@;
            let segment = trim_edges(s.substring_char(start, i));
            out.push(String::from_str(segment));
            proof {
                let view = |t: String| t@;
                let tr = |seg: Seq<char>| trimmed(seg);
                let ghost head = seq![trimmed(s@.subrange(start as int, i as int))];
                assert(out@.map_values(view) =~= old_out.map_values(view) + head);
                assert(split_semis_from(s@, i as int, start as int).map_values(tr) =~= head
                    + split_semis_from(s@, i as int + 1, i as int + 1).map_values(tr));
                assert((old_out.map_values(view) + head) + split_semis_from(
                    s@,
                    i as int + 1,
                    i as int + 1,
                ).map_values(tr) =~= old_out.map_values(view) + (head + split_semis_from(
                    s@,
                    i as int + 1,
                    i as int + 1,
                ).map_values(tr)));
            }
            start = i + 1;
        }
        i = i + 1;
    }
    let ghost old_out = out@;
    let segment = trim_edges(s.substring_char(start, n));
    out.push(String::from_str(segment));
    proof {
        let view = |t: String| t@;
        let tr = |seg: Seq<char>| trimmed(seg);
        let ghost head = seq![trimmed(s@.subrange(start as int, n as int))];
        assert(out@.map_values(view) =~= old_out.map_values(view) + head);
        assert(split_semis_from(s@, n as int, start as int).map_values(tr) =~= head);
    }
    out
}

} // verus!
