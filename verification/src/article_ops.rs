//! Article use cases: create, get, find, update, delete, rate. Each one
//! loads the least state its access check needs, authorizes before it
//! validates — so a denied caller never learns which fields were wrong —
//! collects every validation failure at once, and only then touches storage.

use vstd::prelude::*;
use vstd::string::StringExecFns;

use crate::access::{
    can_create_article, can_delete_article, can_find_articles,
    can_get_article, can_update_article, ensure_can_create_article, ensure_can_delete_article,
    ensure_can_find_articles, ensure_can_get_article, ensure_can_rate_article,
    ensure_can_update_article, spec_has,
};
use crate::actor::IdProvider;
use crate::errors::{entry_views, AppError};
use crate::gateways::{
    ArticleGateway, ArticleWriter, CommentRemover, FileMapGateway, FileMapReader,
    FileStorageLinker, FindArticleOrderBy, Interactor,
};
use crate::models::{
    Article, ArticleId, ArticleState, File, FileId, Permission, RateState, Tag, Timestamp, UserId,
    UserState,
};
use crate::validation::{
    article_form_errors, collect_article_form_errors, collect_find_form_errors, find_form_errors,
};

verus! {

/// Turns the submitted tag titles into tags.
fn tags_of_titles(titles: Vec<String>) -> (r: Vec<Tag>)
    ensures
        r@.len() == titles@.len(),
        forall|i: int| 0 <= i < r@.len() ==> (#[trigger] r@[i].title)@ == titles@[i]@,
{
    let mut tags: Vec<Tag> = Vec::new();
    let mut i: usize = 0;
    while i < titles.len()
        invariant
            0 <= i <= titles@.len(),
            tags@.len() == i,
            forall|j: int| 0 <= j < i ==> (#[trigger] tags@[j].title)@ == titles@[j]@,
        decreases titles@.len() - i,
    {
        tags.push(Tag::new(titles[i].clone()));
        i = i + 1;
    }
    tags
}

#[derive(Debug)]
pub struct CreateArticleInput {
    pub title: String,
    pub content: String,
    pub state: ArticleState,
    pub tags: Vec<String>,
}

#[derive(Debug)]
pub struct CreateArticleOutput {
    pub id: ArticleId,
}

pub struct CreateArticle<'a, P: IdProvider, W: ArticleWriter> {
    pub id_provider: &'a P,
    pub article_writer: &'a W,
}

impl<'a, P: IdProvider, W: ArticleWriter> Interactor<
    CreateArticleInput,
    CreateArticleOutput,
> for CreateArticle<'a, P, W> {
    fn execute(&self, input: CreateArticleInput) -> (r: Result<CreateArticleOutput, AppError>)
        ensures
            ({
                let can = can_create_article(
                    self.id_provider.spec_permissions(),
                    self.id_provider.spec_user_state(),
                );
                let errs = article_form_errors(input.title@, input.content@, input.tags@);
                &&& !can ==> (r matches Err(e) && e == AppError::AccessDenied)
                &&& (can && errs.len() != 0) ==> (r matches Err(AppError::Validation(l))
                    && entry_views(l@) == errs)
                &&& (can && errs.len() == 0) ==> (r is Ok || (r matches Err(e) && e is Critical))
            }),
    {
        if let Err(e) = ensure_can_create_article(
            self.id_provider.permissions(),
            self.id_provider.user_state(),
        ) {
            return Err(AppError::from_domain(e));
        }
        let errors = collect_article_form_errors(
            input.title.as_str(),
            input.content.as_str(),
            input.tags.as_slice(),
        );
        if errors.len() > 0 {
            return Err(AppError::Validation(errors));
        }
        let tags = tags_of_titles(input.tags);
        let article = Article::new(
            input.title,
            None,
            input.content,
            tags,
            input.state,
            *self.id_provider.user_id(),
        );
        match self.article_writer.save(&article) {
            Ok(_) => Ok(CreateArticleOutput { id: article.id }),
            Err(e) => Err(AppError::from_article_gateway(e)),
        }
    }
}

/// Decides whether a fetched file may stand as the article's poster: it
/// must exist, be uploaded, and belong to the article being updated.
/// Anything else is refused as `NotFound` on the poster field.
pub fn check_poster(file: Option<File>, article_id: ArticleId) -> (r: Result<(), AppError>)
    ensures
        r is Ok <==> (file matches Some(f) && f.is_uploaded && f.article_id == article_id),
        r is Err ==> (r matches Err(AppError::NotFound(f)) && f@ == "poster"@),
{
    match file {
        Some(f) => {
            if !f.is_uploaded {
                Err(AppError::NotFound(String::from_str("poster")))
            } else if f.article_id != article_id {
                Err(AppError::NotFound(String::from_str("poster")))
            } else {
                Ok(())
            }
        },
        None => Err(AppError::NotFound(String::from_str("poster"))),
    }
}

#[derive(Debug)]
pub struct UpdateArticleInput {
    pub id: ArticleId,
    pub title: String,
    pub content: String,
    pub state: ArticleState,
    pub poster: Option<FileId>,
    pub tags: Vec<String>,
}

pub struct UpdateArticle<'a, P: IdProvider, G: ArticleGateway, F: FileMapGateway> {
    pub id_provider: &'a P,
    pub article_gateway: &'a G,
    pub file_map_gateway: &'a F,
}

impl<'a, P: IdProvider, G: ArticleGateway, F: FileMapGateway> Interactor<
    UpdateArticleInput,
    (),
> for UpdateArticle<'a, P, G, F> {
    fn execute(&self, input: UpdateArticleInput) -> (r: Result<(), AppError>)
        ensures
            ({
                let perms = self.id_provider.spec_permissions();
                let user_state = self.id_provider.spec_user_state();
                let user_id = self.id_provider.spec_user_id();
                let errs = article_form_errors(input.title@, input.content@, input.tags@);
                &&& r is Ok ==> (errs.len() == 0 && exists|author: UserId|
                    can_update_article(perms, user_state, user_id, author))
                &&& r matches Err(AppError::Validation(l)) ==> (entry_views(l@) == errs
                    && errs.len() != 0 && exists|author: UserId|
                    can_update_article(perms, user_state, user_id, author))
                &&& r matches Err(AppError::NotFound(f)) ==> (f@ == "id"@ || f@ == "poster"@)
            }),
    {
        let author_id = match self.article_gateway.get_article_author(&input.id) {
            Ok(Some(author_id)) => author_id,
            Ok(None) => { return Err(AppError::NotFound(String::from_str("id"))) },
            Err(e) => { return Err(AppError::from_article_gateway(e)) },
        };
        if let Err(e) = ensure_can_update_article(
            self.id_provider.permissions(),
            self.id_provider.user_state(),
            self.id_provider.user_id(),
            &author_id,
        ) {
            return Err(AppError::from_domain(e));
        }
        let errors = collect_article_form_errors(
            input.title.as_str(),
            input.content.as_str(),
            input.tags.as_slice(),
        );
        if errors.len() > 0 {
            return Err(AppError::Validation(errors));
        }
        if let Some(file_id) = input.poster {
            let file = match self.file_map_gateway.get_file(&file_id) {
                Ok(f) => f,
                Err(e) => { return Err(AppError::from_file_map_gateway(e)) },
            };
            if let Err(e) = check_poster(file, input.id) {
                return Err(e);
            }
        }
        let mut article = match self.article_gateway.get_article(&input.id) {
            Ok(Some(article)) => article,
            Ok(None) => {
                return Err(
                    AppError::Critical(
                        String::from_str("article author found, but the article was not"),
                    ),
                )
            },
            Err(e) => { return Err(AppError::from_article_gateway(e)) },
        };
        let tags = tags_of_titles(input.tags);
        article.update(input.title, input.poster, input.content, input.state, tags);
        match self.article_gateway.save(&article) {
            Ok(_) => Ok(()),
            Err(e) => Err(AppError::from_article_gateway(e)),
        }
    }
}

#[derive(Debug)]
pub struct DeleteArticleInput {
    pub id: ArticleId,
}

pub struct DeleteArticle<'a, P: IdProvider, G: ArticleGateway, C: CommentRemover> {
    pub id_provider: &'a P,
    pub article_gateway: &'a G,
    pub comment_remover: &'a C,
}

impl<'a, P: IdProvider, G: ArticleGateway, C: CommentRemover> Interactor<
    DeleteArticleInput,
    (),
> for DeleteArticle<'a, P, G, C> {
    fn execute(&self, input: DeleteArticleInput) -> (r: Result<(), AppError>)
        ensures
            ({
                let perms = self.id_provider.spec_permissions();
                let user_state = self.id_provider.spec_user_state();
                let user_id = self.id_provider.spec_user_id();
                &&& r is Ok ==> exists|author: UserId|
                    can_delete_article(perms, user_state, user_id, author)
                &&& (r matches Err(e) && e == AppError::AccessDenied) ==> exists|author: UserId|
                    !can_delete_article(perms, user_state, user_id, author)
                &&& !(r matches Err(AppError::Validation(_)))
                &&& r matches Err(AppError::NotFound(f)) ==> f@ == "id"@
            }),
    {
        let author_id = match self.article_gateway.get_article_author(&input.id) {
            Ok(Some(author_id)) => author_id,
            Ok(None) => { return Err(AppError::NotFound(String::from_str("id"))) },
            Err(e) => { return Err(AppError::from_article_gateway(e)) },
        };
        if let Err(e) = ensure_can_delete_article(
            self.id_provider.permissions(),
            self.id_provider.user_state(),
            self.id_provider.user_id(),
            &author_id,
        ) {
            return Err(AppError::from_domain(e));
        }
        let removed = self.article_gateway.remove(&input.id);
        let comments_removed = self.comment_remover.remove_by_article(&input.id);
        if let Err(e) = removed {
            return Err(AppError::from_article_gateway(e));
        }
        if let Err(e) = comments_removed {
            return Err(AppError::from_comment_gateway(e));
        }
        Ok(())
    }
}

#[derive(Debug)]
pub struct GetArticleInput {
    pub id: ArticleId,
}

/// One uploaded attachment of the article, with its download URL.
#[derive(Debug)]
pub struct ArticleFile {
    pub id: FileId,
    pub filename: String,
    pub content_type: String,
    pub url: String,
    pub created_at: Timestamp,
    pub updated_at: Option<Timestamp>,
}

#[derive(Debug)]
pub struct GetArticleOutput {
    pub title: String,
    pub poster: Option<FileId>,
    pub content: String,
    pub state: ArticleState,
    pub views: u32,
    pub rating: i64,
    pub author_id: UserId,
    pub tags: Vec<Tag>,
    pub self_rate: RateState,
    pub files: Vec<ArticleFile>,
    pub created_at: Timestamp,
    pub updated_at: Option<Timestamp>,
}

/// What is pinned of one shown attachment: everything but the URL text,
/// which comes from the storage linker.
pub ghost struct ArticleFileView {
    pub id: FileId,
    pub filename: Seq<char>,
    pub content_type: Seq<char>,
    pub created_at: Timestamp,
    pub updated_at: Option<Timestamp>,
}

pub open spec fn article_file_view(f: ArticleFile) -> ArticleFileView {
    ArticleFileView {
        id: f.id,
        filename: f.filename@,
        content_type: f.content_type@,
        created_at: f.created_at,
        updated_at: f.updated_at,
    }
}

/// The uploaded files among `files` from index `i` on, in input order, as a
/// reader is shown them.
pub open spec fn shown_files(files: Seq<File>, i: int) -> Seq<ArticleFileView>
    decreases files.len() - i,
{
    if i < 0 || i >= files.len() {
        Seq::empty()
    } else if files[i].is_uploaded {
        seq![
            ArticleFileView {
                id: files[i].id,
                filename: files[i].filename@,
                content_type: files[i].content_type@,
                created_at: files[i].created_at,
                updated_at: files[i].updated_at,
            },
        ] + shown_files(files, i + 1)
    } else {
        shown_files(files, i + 1)
    }
}

/// Keeps the uploaded files, in order, each dressed with its download URL.
pub fn visible_files<L: FileStorageLinker>(
    linker: &L,
    article_id: &ArticleId,
    files: Vec<File>,
) -> (r: Vec<ArticleFile>)
    ensures
        r@.map_values(|f: ArticleFile| article_file_view(f)) == shown_files(files@, 0),
{
    let mut out: Vec<ArticleFile> = Vec::new();
    let mut i: usize = 0;
    while i < files.len()
        invariant
            0 <= i <= files@.len(),
            out@.map_values(|f: ArticleFile| article_file_view(f)) + shown_files(
                files@,
                i as int,
            ) == shown_files(files@, 0),
        decreases files@.len() - i,
    {
        if files[i].is_uploaded {
            let ghost old_out = out@;
            let url = linker.download_link(article_id, &files[i].id);
            let f = ArticleFile {
                id: files[i].id,
                filename: files[i].filename.clone(),
                content_type: files[i].content_type.clone(),
                url,
                created_at: files[i].created_at,
                updated_at: files[i].updated_at,
            };
            out.push(f);
            proof {
                let ghost head = seq![article_file_view(f)];
                assert(out@.map_values(|f: ArticleFile| article_file_view(f)) =~= old_out
                    .map_values(|f: ArticleFile| article_file_view(f)) + head);
                assert((old_out.map_values(|f: ArticleFile| article_file_view(f)) + head)
                    + shown_files(files@, i as int + 1) =~= old_out.map_values(
                    |f: ArticleFile| article_file_view(f),
                ) + (head + shown_files(files@, i as int + 1)));
            }
        }
        i = i + 1;
    }
    proof {
        assert(out@.map_values(|f: ArticleFile| article_file_view(f)) + Seq::<
            ArticleFileView,
        >::empty() =~= out@.map_values(|f: ArticleFile| article_file_view(f)));
    }
    out
}

/// Shapes the read article, the viewer's rating, and the dressed file list
/// into the response: every output field mirrors the fetched article
/// verbatim.
pub fn shape_article_output(
    article: Article,
    self_rate: RateState,
    files: Vec<ArticleFile>,
) -> (o: GetArticleOutput)
    ensures
        o.title == article.title,
        o.poster == article.poster,
        o.content == article.content,
        o.state == article.state,
        o.views == article.views,
        o.rating == article.rating,
        o.author_id == article.author_id,
        o.tags == article.tags,
        o.self_rate == self_rate,
        o.files == files,
        o.created_at == article.created_at,
        o.updated_at == article.updated_at,
{
    GetArticleOutput {
        title: article.title,
        poster: article.poster,
        content: article.content,
        state: article.state,
        views: article.views,
        rating: article.rating,
        author_id: article.author_id,
        tags: article.tags,
        self_rate,
        files,
        created_at: article.created_at,
        updated_at: article.updated_at,
    }
}

pub struct GetArticle<'a, P: IdProvider, G: ArticleGateway, F: FileMapReader, L: FileStorageLinker> {
    pub id_provider: &'a P,
    pub article_gateway: &'a G,
    pub file_map_reader: &'a F,
    pub file_storage_linker: &'a L,
}

impl<'a, P: IdProvider, G: ArticleGateway, F: FileMapReader, L: FileStorageLinker> Interactor<
    GetArticleInput,
    GetArticleOutput,
> for GetArticle<'a, P, G, F, L> {
    fn execute(&self, input: GetArticleInput) -> (r: Result<GetArticleOutput, AppError>)
        ensures
            ({
                let perms = self.id_provider.spec_permissions();
                let user_state = self.id_provider.spec_user_state();
                let user_id = self.id_provider.spec_user_id();
                &&& r is Ok ==> exists|st: ArticleState, author: UserId|
                    can_get_article(perms, user_state, st, author, user_id)
                &&& !(r matches Err(AppError::Validation(_)))
                &&& r matches Err(AppError::NotFound(f)) ==> f@ == "id"@
            }),
    {
        let article = match self.article_gateway.get_article(&input.id) {
            Ok(Some(article)) => article,
            Ok(None) => { return Err(AppError::NotFound(String::from_str("id"))) },
            Err(e) => { return Err(AppError::from_article_gateway(e)) },
        };
        if let Err(e) = ensure_can_get_article(
            self.id_provider.permissions(),
            self.id_provider.user_state(),
            &article.state,
            &article.author_id,
            self.id_provider.user_id(),
        ) {
            return Err(AppError::from_domain(e));
        }
        let self_rate = match self.article_gateway.user_rate_state(
            &article.id,
            self.id_provider.user_id(),
        ) {
            Ok(s) => s,
            Err(e) => { return Err(AppError::from_article_gateway(e)) },
        };
        let files = match self.file_map_reader.get_article_files(&article.id) {
            Ok(fs) => fs,
            Err(e) => { return Err(AppError::from_file_map_gateway(e)) },
        };
        if let Err(e) = self.article_gateway.increment_article_views(&article.id) {
            return Err(AppError::from_article_gateway(e));
        }
        let shown = visible_files(self.file_storage_linker, &article.id, files);
        Ok(shape_article_output(article, self_rate, shown))
    }
}

#[derive(Debug)]
pub struct FindArticleInput {
    pub page: u32,
    pub per_page: u8,
    pub query: Option<String>,
    pub tags: Vec<String>,
    pub state: ArticleState,
    pub order_by: FindArticleOrderBy,
    pub author_id: Option<UserId>,
}

/// One row of a find result.
#[derive(Debug)]
pub struct ArticleItem {
    pub id: ArticleId,
    pub title: String,
    pub poster_url: Option<String>,
    pub state: ArticleState,
    pub views: u32,
    pub rating: i64,
    pub author_id: UserId,
    pub tags: Vec<Tag>,
    pub self_rate: RateState,
    pub created_at: Timestamp,
    pub updated_at: Option<Timestamp>,
}

#[derive(Debug)]
pub struct FindArticleOutput(pub Vec<ArticleItem>);

/// The ids of the found articles, in result order: the keys the per-viewer
/// rating lookup is made with.
fn article_ids(articles: &Vec<Article>) -> (r: Vec<ArticleId>)
    ensures
        r@ == articles@.map_values(|a: Article| a.id),
{
    let mut ids: Vec<ArticleId> = Vec::new();
    let mut i: usize = 0;
    while i < articles.len()
        invariant
            0 <= i <= articles@.len(),
            ids@ == articles@.take(i as int).map_values(|a: Article| a.id),
        decreases articles@.len() - i,
    {
        ids.push(articles[i].id);
        i = i + 1;
        proof {
            assert(ids@ =~= articles@.take(i as int).map_values(|a: Article| a.id));
        }
    }
    proof {
        assert(articles@.take(articles@.len() as int).map_values(|a: Article| a.id)
            =~= articles@.map_values(|a: Article| a.id));
    }
    ids
}

/// Whether one tag list carries the other, tag for tag: same titles, same
/// creation times, in the same order.
pub open spec fn tags_match(a: Seq<Tag>, b: Seq<Tag>) -> bool {
    &&& a.len() == b.len()
    &&& forall|j: int|
        0 <= j < a.len() ==> ((#[trigger] a[j]).title@ == b[j].title@ && a[j].created_at
            == b[j].created_at)
}

/// Copies a tag list, tag for tag.
fn clone_tags(tags: &Vec<Tag>) -> (r: Vec<Tag>)
    ensures
        tags_match(r@, tags@),
{
    let mut out: Vec<Tag> = Vec::new();
    let mut i: usize = 0;
    while i < tags.len()
        invariant
            0 <= i <= tags@.len(),
            out@.len() == i,
            forall|j: int|
                0 <= j < i ==> ((#[trigger] out@[j]).title@ == tags@[j].title@
                    && out@[j].created_at == tags@[j].created_at),
        decreases tags@.len() - i,
    {
        out.push(Tag { title: tags[i].title.clone(), created_at: tags[i].created_at });
        i = i + 1;
    }
    out
}

/// Whether one result row faithfully carries one found article and the
/// viewer's rating of it. The poster URL's text comes from the storage
/// linker; what is pinned is that it is present exactly for an article with
/// a poster.
pub open spec fn item_matches(item: ArticleItem, article: Article, rate: RateState) -> bool {
    &&& item.id == article.id
    &&& item.title@ == article.title@
    &&& (item.poster_url is Some <==> article.poster is Some)
    &&& item.state == article.state
    &&& item.views == article.views
    &&& item.rating == article.rating
    &&& item.author_id == article.author_id
    &&& tags_match(item.tags@, article.tags@)
    &&& item.self_rate == rate
    &&& item.created_at == article.created_at
    &&& item.updated_at == article.updated_at
}

/// Pairs each found article with the viewer's rating of it. A length
/// mismatch between the two lists marks a broken storage invariant and is
/// refused as a critical error, never a partial result.
pub fn combine_find_results<L: FileStorageLinker>(
    linker: &L,
    articles: Vec<Article>,
    rates: Vec<RateState>,
) -> (r: Result<Vec<ArticleItem>, AppError>)
    ensures
        r is Ok <==> articles@.len() == rates@.len(),
        r matches Ok(items) ==> (items@.len() == articles@.len() && forall|i: int|
            0 <= i < items@.len() ==> item_matches(#[trigger] items@[i], articles@[i], rates@[i])),
        r matches Err(e) ==> e is Critical,
{
    if articles.len() != rates.len() {
        return Err(AppError::Critical(String::from_str("article and rating counts differ")));
    }
    let mut items: Vec<ArticleItem> = Vec::new();
    let mut i: usize = 0;
    while i < articles.len()
        invariant
            articles@.len() == rates@.len(),
            0 <= i <= articles@.len(),
            items@.len() == i,
            forall|j: int|
                0 <= j < i ==> item_matches(#[trigger] items@[j], articles@[j], rates@[j]),
        decreases articles@.len() - i,
    {
        let article = &articles[i];
        let poster_url = match &article.poster {
            Some(poster) => Some(linker.download_link(&article.id, poster)),
            None => None,
        };
        let item = ArticleItem {
            id: article.id,
            title: article.title.clone(),
            poster_url,
            state: article.state,
            views: article.views,
            rating: article.rating,
            author_id: article.author_id,
            tags: clone_tags(&article.tags),
            self_rate: rates[i],
            created_at: article.created_at,
            updated_at: article.updated_at,
        };
        items.push(item);
        i = i + 1;
    }
    Ok(items)
}

pub struct FindArticle<'a, P: IdProvider, G: ArticleGateway, L: FileStorageLinker> {
    pub id_provider: &'a P,
    pub article_gateway: &'a G,
    pub file_storage_linker: &'a L,
}

impl<'a, P: IdProvider, G: ArticleGateway, L: FileStorageLinker> Interactor<
    FindArticleInput,
    FindArticleOutput,
> for FindArticle<'a, P, G, L> {
    fn execute(&self, input: FindArticleInput) -> (r: Result<FindArticleOutput, AppError>)
        ensures
            ({
                let can = can_find_articles(
                    self.id_provider.spec_permissions(),
                    self.id_provider.spec_user_state(),
                    input.state,
                    input.author_id,
                    self.id_provider.spec_user_id(),
                );
                let errs = find_form_errors(input.page, input.per_page, input.tags@);
                &&& !can ==> (r matches Err(e) && e == AppError::AccessDenied)
                &&& (can && errs.len() != 0) ==> (r matches Err(AppError::Validation(l))
                    && entry_views(l@) == errs)
                &&& (can && errs.len() == 0) ==> (r is Ok || (r matches Err(e) && e is Critical))
            }),
    {
        if let Err(e) = ensure_can_find_articles(
            self.id_provider.permissions(),
            self.id_provider.user_state(),
            &input.state,
            &input.author_id,
            self.id_provider.user_id(),
        ) {
            return Err(AppError::from_domain(e));
        }
        let errors = collect_find_form_errors(input.page, input.per_page, input.tags.as_slice());
        if errors.len() > 0 {
            return Err(AppError::Validation(errors));
        }
        let offset = (input.page - 1).wrapping_mul(input.per_page as u32);
        let articles = match self.article_gateway.find_articles(
            input.query,
            input.per_page,
            offset,
            &input.order_by,
            &input.state,
            input.tags.as_slice(),
            &input.author_id,
        ) {
            Ok(a) => a,
            Err(e) => { return Err(AppError::from_article_gateway(e)) },
        };
        let ids = article_ids(&articles);
        let rates = match self.article_gateway.user_rate_states(
            ids.as_slice(),
            self.id_provider.user_id(),
        ) {
            Ok(rs) => rs,
            Err(e) => { return Err(AppError::from_article_gateway(e)) },
        };
        match combine_find_results(self.file_storage_linker, articles, rates) {
            Ok(items) => Ok(FindArticleOutput(items)),
            Err(e) => Err(e),
        }
    }
}

#[derive(Debug)]
pub struct RateArticleInput {
    pub id: ArticleId,
    pub state: RateState,
}

pub struct RateArticle<'a, P: IdProvider, G: ArticleGateway> {
    pub id_provider: &'a P,
    pub article_gateway: &'a G,
}

impl<'a, P: IdProvider, G: ArticleGateway> Interactor<RateArticleInput, ()> for RateArticle<
    'a,
    P,
    G,
> {
    fn execute(&self, input: RateArticleInput) -> (r: Result<(), AppError>)
        ensures
            ({
                let perms = self.id_provider.spec_permissions();
                let user_state = self.id_provider.spec_user_state();
                &&& r is Ok ==> (user_state == UserState::Active && spec_has(
                    perms,
                    Permission::RateArticle,
                ))
                &&& !(r matches Err(AppError::Validation(_)))
                &&& r matches Err(AppError::NotFound(f)) ==> f@ == "id"@
            }),
    {
        let article = match self.article_gateway.get_article(&input.id) {
            Ok(Some(article)) => article,
            Ok(None) => { return Err(AppError::NotFound(String::from_str("id"))) },
            Err(e) => { return Err(AppError::from_article_gateway(e)) },
        };
        if let Err(e) = ensure_can_rate_article(
            self.id_provider.permissions(),
            self.id_provider.user_state(),
            &article.state,
        ) {
            return Err(AppError::from_domain(e));
        }
        match self.article_gateway.rate_article(
            &article.id,
            self.id_provider.user_id(),
            &input.state,
        ) {
            Ok(_) => Ok(()),
            Err(e) => Err(AppError::from_article_gateway(e)),
        }
    }
}

} // verus!
