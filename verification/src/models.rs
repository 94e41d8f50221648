//! Data model: identifiers, lifecycle states, capability vocabulary, and the
//! article / comment / tag / file entities.

use vstd::prelude::*;

verus! {

/// Identifiers are 128-bit values (the wire form is a UUID; its 128 bits are
/// carried here as a plain integer). A nil identifier (all zero) stands for
/// the guest user.
pub type UserId = u128;

pub type ArticleId = u128;

pub type CommentId = u128;

pub type FileId = u128;

/// A moment in time, in microseconds since the Unix epoch.
pub type Timestamp = i64;

/// Lifecycle state of the user an actor acts as.
#[derive(Clone, Copy, PartialEq, Eq, Structural, Debug)]
pub enum UserState {
    Active,
    NotVerify,
    Banned,
    Deleted,
}

/// An atomic capability grant. `Any` grants the action regardless of
/// ownership, `Self` only on resources the actor owns, and `Pub` grants read
/// access only to resources in a published state; none implies another.
#[derive(Clone, Copy, PartialEq, Eq, Structural, Debug)]
pub enum Permission {
    CreateArticle,
    GetAnyArticle,
    GetPubArticle,
    GetSelfArticle,
    FindAnyArticle,
    FindPubArticle,
    FindSelfArticle,
    UpdateAnyArticle,
    UpdateSelfArticle,
    DeleteAnyArticle,
    DeleteSelfArticle,
    RateArticle,
    FindTag,
    CreateComment,
    GetAnyComment,
    GetPubComment,
    UpdateAnyComment,
    UpdateSelfComment,
    DeleteAnyComment,
    DeleteSelfComment,
    RateComment,
}

/// Lifecycle state of an article.
#[derive(Clone, Copy, PartialEq, Eq, Structural, Debug)]
pub enum ArticleState {
    Draft,
    Published,
    Archived,
}

/// Lifecycle state of a comment. `Deleted` is a soft delete: the row
/// persists, its content becomes redaction-eligible and can no longer
/// change, and it still anchors replies — the ones it has and new ones.
#[derive(Clone, Copy, PartialEq, Eq, Structural, Debug)]
pub enum CommentState {
    Deleted,
    Published,
}

/// A per-user tri-state opinion on an article or comment. `Neutral` is the
/// default: it is what a missing rating row reads back as.
#[derive(Clone, Copy, PartialEq, Eq, Structural, Debug)]
pub enum RateState {
    Up,
    Neutral,
    Down,
}

pub const ARTICLE_TITLE_MIN: usize = 1;

pub const ARTICLE_TITLE_MAX: usize = 255;

pub const ARTICLE_CONTENT_MAX: usize = 32000;

pub const COMMENT_CONTENT_MAX: usize = 1000;

pub const TAG_TITLE_MIN: usize = 1;

pub const TAG_TITLE_MAX: usize = 64;

pub const FILE_NAME_MAX: usize = 255;

pub const FILE_MIME_TYPE_MAX: usize = 255;

/// Smallest and largest object size, in bytes, an upload link is issued for.
pub const CONTENT_LENGTH_MIN: u64 = 1;

pub const CONTENT_LENGTH_MAX: u64 = 50 * 1024 * 1024;

/// How long an issued upload link stays valid.
pub const FILE_UPLOAD_TTL_SECS: u64 = 3600;

/// Relies on uuid::Uuid::new_v4 for a freshly generated random identifier,
/// carried as its 128-bit value. Nothing is assumed of the value. The call
/// aborts the process if the operating system's random source fails.
#[verifier::external_body]
pub(crate) fn fresh_id() -> u128 {
    uuid::Uuid::new_v4().as_u128()
}

/// Relies on chrono::Utc::now for the current time, as microseconds since
/// the Unix epoch. Nothing is assumed of the value. The call aborts the
/// process if the system clock is unreadable or out of the representable
/// range.
#[verifier::external_body]
pub(crate) fn now_micros() -> i64 {
    chrono::Utc::now().timestamp_micros()
}

/// A label attached to articles, deduplicated by title at write time.
#[derive(Clone, Debug)]
pub struct Tag {
    pub title: String,
    pub created_at: Timestamp,
}

impl Tag {
    pub fn new(title: String) -> (t: Tag)
        ensures
            t.title == title,
    {
        Tag { title, created_at: now_micros() }
    }
}

#[derive(Clone, Debug)]
pub struct Article {
    pub id: ArticleId,
    pub title: String,
    pub poster: Option<FileId>,
    pub content: String,
    pub state: ArticleState,
    pub views: u32,
    pub rating: i64,
    pub author_id: UserId,
    pub tags: Vec<Tag>,
    pub created_at: Timestamp,
    pub updated_at: Option<Timestamp>,
}

impl Article {
    /// A freshly created article: never viewed, never rated, never updated.
    pub fn new(
        title: String,
        poster: Option<FileId>,
        content: String,
        tags: Vec<Tag>,
        state: ArticleState,
        author_id: UserId,
    ) -> (a: Article)
        ensures
            a.title == title,
            a.poster == poster,
            a.content == content,
            a.state == state,
            a.views == 0,
            a.rating == 0,
            a.author_id == author_id,
            a.tags == tags,
            a.updated_at is None,
    {
        Article {
            id: fresh_id(),
            title,
            poster,
            content,
            state,
            views: 0,
            rating: 0,
            author_id,
            tags,
            created_at: now_micros(),
            updated_at: None,
        }
    }

    /// Full replace-update of the author-controlled fields; identity, views,
    /// rating, authorship and creation time stay.
    pub fn update(
        &mut self,
        title: String,
        poster: Option<FileId>,
        content: String,
        state: ArticleState,
        tags: Vec<Tag>,
    )
        ensures
            final(self).title == title,
            final(self).poster == poster,
            final(self).content == content,
            final(self).state == state,
            final(self).tags == tags,
            final(self).updated_at is Some,
            final(self).id == old(self).id,
            final(self).views == old(self).views,
            final(self).rating == old(self).rating,
            final(self).author_id == old(self).author_id,
            final(self).created_at == old(self).created_at,
    {
        self.title = title;
        self.poster = poster;
        self.content = content;
        self.state = state;
        self.tags = tags;
        self.updated_at = Some(now_micros());
    }

    pub fn increment_views(&mut self)
        requires
            old(self).views < u32::MAX,
        ensures
            final(self).views == old(self).views + 1,
            final(self).id == old(self).id,
            final(self).title == old(self).title,
            final(self).poster == old(self).poster,
            final(self).content == old(self).content,
            final(self).state == old(self).state,
            final(self).rating == old(self).rating,
            final(self).author_id == old(self).author_id,
            final(self).tags == old(self).tags,
            final(self).created_at == old(self).created_at,
            final(self).updated_at == old(self).updated_at,
    {
        self.views = self.views + 1;
    }
}

#[derive(Clone, Debug)]
pub struct Comment {
    pub id: CommentId,
    pub content: String,
    pub author_id: UserId,
    pub article_id: ArticleId,
    /// `None` marks a root comment; otherwise the parent must belong to the
    /// same article.
    pub parent_id: Option<CommentId>,
    pub rating: i64,
    pub state: CommentState,
    pub created_at: Timestamp,
    pub updated_at: Option<Timestamp>,
}

impl Comment {
    /// A freshly created comment: published, never rated, never updated.
    pub fn new(
        content: String,
        author_id: UserId,
        article_id: ArticleId,
        parent_id: Option<CommentId>,
    ) -> (c: Comment)
        ensures
            c.content == content,
            c.author_id == author_id,
            c.article_id == article_id,
            c.parent_id == parent_id,
            c.rating == 0,
            c.state == CommentState::Published,
            c.updated_at is None,
    {
        Comment {
            id: fresh_id(),
            content,
            author_id,
            article_id,
            parent_id,
            rating: 0,
            state: CommentState::Published,
            created_at: now_micros(),
            updated_at: None,
        }
    }

    pub fn update(&mut self, new_content: String)
        ensures
            final(self).content == new_content,
            final(self).updated_at is Some,
            final(self).id == old(self).id,
            final(self).author_id == old(self).author_id,
            final(self).article_id == old(self).article_id,
            final(self).parent_id == old(self).parent_id,
            final(self).rating == old(self).rating,
            final(self).state == old(self).state,
            final(self).created_at == old(self).created_at,
    {
        self.content = new_content;
        self.updated_at = Some(now_micros());
    }

    pub fn mark_deleted(&mut self)
        ensures
            final(self).state == CommentState::Deleted,
            final(self).updated_at is Some,
            final(self).id == old(self).id,
            final(self).content == old(self).content,
            final(self).author_id == old(self).author_id,
            final(self).article_id == old(self).article_id,
            final(self).parent_id == old(self).parent_id,
            final(self).rating == old(self).rating,
            final(self).created_at == old(self).created_at,
    {
        self.state = CommentState::Deleted;
        self.updated_at = Some(now_micros());
    }
}

/// Metadata of a file attached to an article. The object itself lives in
/// outside storage; `is_uploaded` turns true only after an existence check
/// against that storage.
#[derive(Clone, Debug)]
pub struct File {
    pub id: FileId,
    pub filename: String,
    pub content_type: String,
    pub article_id: ArticleId,
    pub is_uploaded: bool,
    pub created_at: Timestamp,
    pub updated_at: Option<Timestamp>,
}

impl File {
    pub fn new(filename: String, content_type: String, article_id: ArticleId) -> (f: File)
        ensures
            f.filename == filename,
            f.content_type == content_type,
            f.article_id == article_id,
            !f.is_uploaded,
            f.updated_at is None,
    {
        File {
            id: fresh_id(),
            filename,
            content_type,
            article_id,
            is_uploaded: false,
            created_at: now_micros(),
            updated_at: None,
        }
    }

    pub fn mark_uploaded(&mut self)
        ensures
            final(self).is_uploaded,
            final(self).updated_at is Some,
            final(self).id == old(self).id,
            final(self).filename == old(self).filename,
            final(self).content_type == old(self).content_type,
            final(self).article_id == old(self).article_id,
            final(self).created_at == old(self).created_at,
    {
        self.is_uploaded = true;
        self.updated_at = Some(now_micros());
    }
}

} // verus!
