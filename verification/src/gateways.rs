//! The storage contracts the use cases consume. Persistence, object storage
//! and transport live outside this library; each capability group is one
//! trait here, implemented by the storage adapters and composable per use
//! case. The traits promise nothing the adapters are not held to: a caller
//! learns only a call's type, never its outcome ahead of time.

use vstd::prelude::*;

use crate::errors::{
    AppError, ArticleGatewayError, CommentGatewayError, FileMapGatewayError, FileStorageError,
    TagGatewayError,
};
use crate::models::{
    Article, ArticleId, ArticleState, Comment, CommentId, File, FileId, RateState, Tag, UserId,
};

verus! {

/// How a page of found articles is ordered.
#[derive(Clone, Copy, PartialEq, Eq, Structural, Debug)]
pub enum FindArticleOrderBy {
    CreatedAtDesc,
    CreatedAtAsc,
    ViewsDesc,
    ViewsAsc,
    RatingDesc,
    RatingAsc,
}

/// How a page of found tags is ordered.
#[derive(Clone, Copy, PartialEq, Eq, Structural, Debug)]
pub enum FindArticleTagsOrderBy {
    ArticleCountDesc,
    ArticleCountAsc,
    CreatedAtDesc,
    CreatedAtAsc,
}

/// A time-limited signed upload destination: the URL, the HTTP method to use
/// against it, and the headers the storage expects.
#[derive(Debug)]
pub struct UploadUrl {
    pub url: String,
    pub method: String,
    pub headers: Vec<(String, String)>,
}

pub trait ArticleReader {
    fn get_article(&self, id: &ArticleId) -> Result<Option<Article>, ArticleGatewayError>;

    fn find_articles(
        &self,
        query: Option<String>,
        limit: u8,
        offset: u32,
        order_by: &FindArticleOrderBy,
        state: &ArticleState,
        tags: &[String],
        author_id: &Option<UserId>,
    ) -> Result<Vec<Article>, ArticleGatewayError>;

    fn get_article_author(&self, article_id: &ArticleId) -> Result<
        Option<UserId>,
        ArticleGatewayError,
    >;

    fn get_article_state(&self, article_id: &ArticleId) -> Result<
        Option<ArticleState>,
        ArticleGatewayError,
    >;
}

pub trait ArticleWriter {
    fn save(&self, article: &Article) -> Result<(), ArticleGatewayError>;

    fn increment_article_views(&self, id: &ArticleId) -> Result<(), ArticleGatewayError>;
}

pub trait ArticleRemover {
    fn remove(&self, article_id: &ArticleId) -> Result<(), ArticleGatewayError>;
}

pub trait ArticleRater {
    fn rate_article(
        &self,
        article_id: &ArticleId,
        user_id: &UserId,
        state: &RateState,
    ) -> Result<(), ArticleGatewayError>;

    fn user_rate_state(&self, article_id: &ArticleId, user_id: &UserId) -> Result<
        RateState,
        ArticleGatewayError,
    >;

    fn user_rate_states(&self, article_ids: &[ArticleId], user_id: &UserId) -> Result<
        Vec<RateState>,
        ArticleGatewayError,
    >;
}

pub trait ArticleGateway: ArticleReader + ArticleWriter + ArticleRemover + ArticleRater {
}

pub trait CommentReader {
    fn get_comment(&self, id: &CommentId) -> Result<Option<Comment>, CommentGatewayError>;

    /// The whole flat comment set of one article, each comment with its
    /// depth below the article root, siblings ordered by creation time.
    fn get_comments(&self, article_id: &ArticleId) -> Result<
        Vec<(Comment, u32)>,
        CommentGatewayError,
    >;
}

pub trait CommentWriter {
    fn save(&self, comment: &Comment) -> Result<(), CommentGatewayError>;
}

pub trait CommentRemover {
    fn remove_by_article(&self, article_id: &ArticleId) -> Result<(), CommentGatewayError>;
}

pub trait CommentRater {
    fn rate_comment(
        &self,
        comment_id: &CommentId,
        user_id: &UserId,
        state: &RateState,
    ) -> Result<(), CommentGatewayError>;

    fn user_rate_state(&self, comment_id: &CommentId, user_id: &UserId) -> Result<
        RateState,
        CommentGatewayError,
    >;

    fn user_rate_states(&self, comment_ids: &[CommentId], user_id: &UserId) -> Result<
        Vec<RateState>,
        CommentGatewayError,
    >;
}

pub trait CommentGateway: CommentReader + CommentWriter + CommentRemover + CommentRater {
}

pub trait FileMapReader {
    fn get_file(&self, id: &FileId) -> Result<Option<File>, FileMapGatewayError>;

    fn get_article_files(&self, article_id: &ArticleId) -> Result<Vec<File>, FileMapGatewayError>;
}

pub trait FileMapWriter {
    fn save(&self, file: &File) -> Result<(), FileMapGatewayError>;
}

pub trait FileMapRemover {
    fn remove(&self, file_id: &FileId) -> Result<(), FileMapGatewayError>;
}

pub trait FileMapGateway: FileMapReader + FileMapWriter + FileMapRemover {
}

pub trait FileStorageReader {
    fn is_exist_file(&self, article_id: &ArticleId, id: &FileId) -> Result<bool, FileStorageError>;
}

pub trait FileStorageLinker {
    /// A signed upload destination for one object, bound to the given
    /// content type, size range (bytes, inclusive) and lifetime (seconds).
    fn upload_link(
        &self,
        article_id: &ArticleId,
        file_id: &FileId,
        content_type: &str,
        content_length_min: u64,
        content_length_max: u64,
        ttl_secs: u64,
    ) -> Result<UploadUrl, FileStorageError>;

    /// The deterministic public download URL of one object.
    fn download_link(&self, article_id: &ArticleId, file_id: &FileId) -> String;
}

pub trait FileStorageRemover {
    fn remove(&self, article_id: &ArticleId, file_id: &FileId) -> Result<(), FileStorageError>;
}

pub trait FileStorageGateway: FileStorageReader + FileStorageLinker + FileStorageRemover {
}

pub trait TagReader {
    /// A page of tags, each with the count of articles linked to it.
    fn find_tags(
        &self,
        limit: u8,
        offset: u32,
        order_by: &FindArticleTagsOrderBy,
        query: Option<String>,
    ) -> Result<Vec<(Tag, u32)>, TagGatewayError>;
}

pub trait TagGateway: TagReader {
}

/// One use case: a request value in, a response value or an [`AppError`]
/// out. Implementations carry their collaborators; `execute` is one request.
pub trait Interactor<I, O> {
    fn execute(&self, input: I) -> Result<O, AppError>;
}

} // verus!
