//! Comment use cases: create, get, update, delete, rate, and the assembled
//! comment tree of an article. Authorization always precedes validation. A
//! deleted comment never accepts new content but still anchors replies, new
//! ones included; only a reply naming a missing parent, or a parent from
//! another article, is refused as `NotFound` on the parent field.

use vstd::prelude::*;
use vstd::string::StringExecFns;

use crate::access::{
    can_create_comment, can_get_comment, can_get_comments, can_update_comment,
    ensure_can_create_comment, ensure_can_delete_comment, ensure_can_get_comment,
    ensure_can_get_comments, ensure_can_rate_comment, ensure_can_update_comment, spec_has,
};
use crate::actor::IdProvider;
use crate::errors::{entry_views, AppError};
use crate::gateways::{ArticleGateway, CommentGateway, Interactor};
use crate::models::{
    ArticleId, ArticleState, Comment, CommentId, CommentState, Permission, RateState, Timestamp,
    UserId, UserState,
};
use crate::tree::{build_comments_tree, GetCommentsTreeItem};
use crate::validation::{collect_comment_form_errors, comment_form_errors};

verus! {

/// Decides whether a fetched parent may anchor a new reply: the parent must
/// exist and belong to the article commented on. Its own state does not
/// matter — a soft-deleted comment still anchors replies. Anything else is
/// refused as `NotFound` on the parent field.
pub fn check_reply_parent(parent: Option<Comment>, article_id: ArticleId) -> (r: Result<
    (),
    AppError,
>)
    ensures
        r is Ok <==> (parent matches Some(p) && p.article_id == article_id),
        r is Err ==> (r matches Err(AppError::NotFound(f)) && f@ == "parent_id"@),
{
    match parent {
        Some(p) => {
            if p.article_id != article_id {
                Err(AppError::NotFound(String::from_str("parent_id")))
            } else {
                Ok(())
            }
        },
        None => Err(AppError::NotFound(String::from_str("parent_id"))),
    }
}

/// The ids of the fetched comment rows, in row order: the keys the
/// per-viewer rating lookup is made with.
fn comment_ids(comments: &Vec<(Comment, u32)>) -> (r: Vec<CommentId>)
    ensures
        r@ == comments@.map_values(|p: (Comment, u32)| p.0.id),
{
    let mut ids: Vec<CommentId> = Vec::new();
    let mut i: usize = 0;
    while i < comments.len()
        invariant
            0 <= i <= comments@.len(),
            ids@ == comments@.take(i as int).map_values(|p: (Comment, u32)| p.0.id),
        decreases comments@.len() - i,
    {
        ids.push(comments[i].0.id);
        i = i + 1;
        proof {
            assert(ids@ =~= comments@.take(i as int).map_values(|p: (Comment, u32)| p.0.id));
        }
    }
    proof {
        assert(comments@.take(comments@.len() as int).map_values(|p: (Comment, u32)| p.0.id)
            =~= comments@.map_values(|p: (Comment, u32)| p.0.id));
    }
    ids
}

#[derive(Debug)]
pub struct CreateCommentInput {
    pub article_id: ArticleId,
    pub content: String,
    pub parent_id: Option<CommentId>,
}

#[derive(Debug)]
pub struct CreateCommentOutput {
    pub id: CommentId,
}

pub struct CreateComment<'a, P: IdProvider, A: ArticleGateway, C: CommentGateway> {
    pub id_provider: &'a P,
    pub article_reader: &'a A,
    pub comment_gateway: &'a C,
}

impl<'a, P: IdProvider, A: ArticleGateway, C: CommentGateway> Interactor<
    CreateCommentInput,
    CreateCommentOutput,
> for CreateComment<'a, P, A, C> {
    fn execute(&self, input: CreateCommentInput) -> (r: Result<CreateCommentOutput, AppError>)
        ensures
            ({
                let perms = self.id_provider.spec_permissions();
                let user_state = self.id_provider.spec_user_state();
                let errs = comment_form_errors(input.content@);
                &&& r is Ok ==> (errs.len() == 0 && exists|st: ArticleState|
                    can_create_comment(perms, user_state, st))
                &&& r matches Err(AppError::Validation(l)) ==> (entry_views(l@) == errs
                    && errs.len() != 0 && exists|st: ArticleState|
                    can_create_comment(perms, user_state, st))
                &&& r matches Err(AppError::NotFound(f)) ==> (f@ == "article_id"@ || f@
                    == "parent_id"@)
            }),
    {
        let article = match self.article_reader.get_article(&input.article_id) {
            Ok(Some(article)) => article,
            Ok(None) => { return Err(AppError::NotFound(String::from_str("article_id"))) },
            Err(e) => { return Err(AppError::from_article_gateway(e)) },
        };
        if let Err(e) = ensure_can_create_comment(
            self.id_provider.permissions(),
            self.id_provider.user_state(),
            &article.state,
        ) {
            return Err(AppError::from_domain(e));
        }
        let errors = collect_comment_form_errors(input.content.as_str());
        if let Some(parent_id) = input.parent_id {
            let parent = match self.comment_gateway.get_comment(&parent_id) {
                Ok(p) => p,
                Err(e) => { return Err(AppError::from_comment_gateway(e)) },
            };
            if let Err(e) = check_reply_parent(parent, article.id) {
                return Err(e);
            }
        }
        if errors.len() > 0 {
            return Err(AppError::Validation(errors));
        }
        let comment = Comment::new(
            input.content,
            *self.id_provider.user_id(),
            article.id,
            input.parent_id,
        );
        match self.comment_gateway.save(&comment) {
            Ok(_) => Ok(CreateCommentOutput { id: comment.id }),
            Err(e) => Err(AppError::from_comment_gateway(e)),
        }
    }
}

#[derive(Debug)]
pub struct GetCommentInput {
    pub id: CommentId,
}

#[derive(Debug)]
pub struct GetCommentOutput {
    pub content: String,
    pub author_id: UserId,
    pub article_id: ArticleId,
    pub parent_id: Option<CommentId>,
    pub rating: i64,
    pub state: CommentState,
    pub self_rate: RateState,
    pub created_at: Timestamp,
    pub updated_at: Option<Timestamp>,
}

/// Shapes the read comment and the viewer's rating into the response: every
/// output field mirrors the fetched comment verbatim.
pub fn shape_comment_output(comment: Comment, self_rate: RateState) -> (o: GetCommentOutput)
    ensures
        o.content == comment.content,
        o.author_id == comment.author_id,
        o.article_id == comment.article_id,
        o.parent_id == comment.parent_id,
        o.rating == comment.rating,
        o.state == comment.state,
        o.self_rate == self_rate,
        o.created_at == comment.created_at,
        o.updated_at == comment.updated_at,
{
    GetCommentOutput {
        content: comment.content,
        author_id: comment.author_id,
        article_id: comment.article_id,
        parent_id: comment.parent_id,
        rating: comment.rating,
        state: comment.state,
        self_rate,
        created_at: comment.created_at,
        updated_at: comment.updated_at,
    }
}

pub struct GetComment<'a, P: IdProvider, A: ArticleGateway, C: CommentGateway> {
    pub id_provider: &'a P,
    pub comment_gateway: &'a C,
    pub article_reader: &'a A,
}

impl<'a, P: IdProvider, A: ArticleGateway, C: CommentGateway> Interactor<
    GetCommentInput,
    GetCommentOutput,
> for GetComment<'a, P, A, C> {
    fn execute(&self, input: GetCommentInput) -> (r: Result<GetCommentOutput, AppError>)
        ensures
            ({
                let perms = self.id_provider.spec_permissions();
                let user_state = self.id_provider.spec_user_state();
                &&& r is Ok ==> exists|cst: CommentState, ast: ArticleState|
                    can_get_comment(perms, user_state, cst, ast)
                &&& !(r matches Err(AppError::Validation(_)))
                &&& r matches Err(AppError::NotFound(f)) ==> f@ == "id"@
            }),
    {
        let comment = match self.comment_gateway.get_comment(&input.id) {
            Ok(Some(comment)) => comment,
            Ok(None) => { return Err(AppError::NotFound(String::from_str("id"))) },
            Err(e) => { return Err(AppError::from_comment_gateway(e)) },
        };
        let article_state = match self.article_reader.get_article_state(&comment.article_id) {
            Ok(Some(state)) => state,
            Ok(None) => {
                return Err(
                    AppError::Critical(
                        String::from_str("comment found, but its article was not"),
                    ),
                )
            },
            Err(e) => { return Err(AppError::from_article_gateway(e)) },
        };
        if let Err(e) = ensure_can_get_comment(
            self.id_provider.permissions(),
            self.id_provider.user_state(),
            &comment.state,
            &article_state,
        ) {
            return Err(AppError::from_domain(e));
        }
        let self_rate = match self.comment_gateway.user_rate_state(
            &comment.id,
            self.id_provider.user_id(),
        ) {
            Ok(s) => s,
            Err(e) => { return Err(AppError::from_comment_gateway(e)) },
        };
        Ok(shape_comment_output(comment, self_rate))
    }
}

#[derive(Debug)]
pub struct UpdateCommentInput {
    pub id: CommentId,
    pub content: String,
}

pub struct UpdateComment<'a, P: IdProvider, C: CommentGateway> {
    pub id_provider: &'a P,
    pub comment_gateway: &'a C,
}

impl<'a, P: IdProvider, C: CommentGateway> Interactor<UpdateCommentInput, ()> for UpdateComment<
    'a,
    P,
    C,
> {
    fn execute(&self, input: UpdateCommentInput) -> (r: Result<(), AppError>)
        ensures
            ({
                let perms = self.id_provider.spec_permissions();
                let user_state = self.id_provider.spec_user_state();
                let user_id = self.id_provider.spec_user_id();
                let errs = comment_form_errors(input.content@);
                &&& r is Ok ==> (errs.len() == 0 && exists|author: UserId, cst: CommentState|
                    can_update_comment(perms, user_state, user_id, author, cst))
                &&& r matches Err(AppError::Validation(l)) ==> (entry_views(l@) == errs
                    && errs.len() != 0 && exists|author: UserId, cst: CommentState|
                    can_update_comment(perms, user_state, user_id, author, cst))
                &&& r matches Err(AppError::NotFound(f)) ==> f@ == "id"@
            }),
    {
        let mut comment = match self.comment_gateway.get_comment(&input.id) {
            Ok(Some(comment)) => comment,
            Ok(None) => { return Err(AppError::NotFound(String::from_str("id"))) },
            Err(e) => { return Err(AppError::from_comment_gateway(e)) },
        };
        if let Err(e) = ensure_can_update_comment(
            self.id_provider.permissions(),
            self.id_provider.user_state(),
            self.id_provider.user_id(),
            &comment.author_id,
            &comment.state,
        ) {
            return Err(AppError::from_domain(e));
        }
        let errors = collect_comment_form_errors(input.content.as_str());
        if errors.len() > 0 {
            return Err(AppError::Validation(errors));
        }
        comment.update(input.content);
        match self.comment_gateway.save(&comment) {
            Ok(_) => Ok(()),
            Err(e) => Err(AppError::from_comment_gateway(e)),
        }
    }
}

#[derive(Debug)]
pub struct DeleteCommentInput {
    pub id: CommentId,
}

pub struct DeleteComment<'a, P: IdProvider, C: CommentGateway> {
    pub id_provider: &'a P,
    pub comment_gateway: &'a C,
}

impl<'a, P: IdProvider, C: CommentGateway> Interactor<DeleteCommentInput, ()> for DeleteComment<
    'a,
    P,
    C,
> {
    fn execute(&self, input: DeleteCommentInput) -> (r: Result<(), AppError>)
        ensures
            ({
                let perms = self.id_provider.spec_permissions();
                let user_state = self.id_provider.spec_user_state();
                &&& r is Ok ==> (user_state == UserState::Active && (spec_has(
                    perms,
                    Permission::DeleteSelfComment,
                ) || spec_has(perms, Permission::DeleteAnyComment)))
                &&& !(r matches Err(AppError::Validation(_)))
                &&& r matches Err(AppError::NotFound(f)) ==> f@ == "id"@
            }),
    {
        let mut comment = match self.comment_gateway.get_comment(&input.id) {
            Ok(Some(comment)) => comment,
            Ok(None) => { return Err(AppError::NotFound(String::from_str("id"))) },
            Err(e) => { return Err(AppError::from_comment_gateway(e)) },
        };
        if let Err(e) = ensure_can_delete_comment(
            self.id_provider.permissions(),
            self.id_provider.user_state(),
            self.id_provider.user_id(),
            &comment.author_id,
            &comment.state,
        ) {
            return Err(AppError::from_domain(e));
        }
        comment.mark_deleted();
        match self.comment_gateway.save(&comment) {
            Ok(_) => Ok(()),
            Err(e) => Err(AppError::from_comment_gateway(e)),
        }
    }
}

#[derive(Debug)]
pub struct RateCommentInput {
    pub id: CommentId,
    pub state: RateState,
}

pub struct RateComment<'a, P: IdProvider, C: CommentGateway> {
    pub id_provider: &'a P,
    pub comment_gateway: &'a C,
}

impl<'a, P: IdProvider, C: CommentGateway> Interactor<RateCommentInput, ()> for RateComment<
    'a,
    P,
    C,
> {
    fn execute(&self, input: RateCommentInput) -> (r: Result<(), AppError>)
        ensures
            ({
                let perms = self.id_provider.spec_permissions();
                let user_state = self.id_provider.spec_user_state();
                &&& r is Ok ==> (user_state == UserState::Active && spec_has(
                    perms,
                    Permission::RateComment,
                ))
                &&& !(r matches Err(AppError::Validation(_)))
                &&& r matches Err(AppError::NotFound(f)) ==> f@ == "id"@
            }),
    {
        let comment = match self.comment_gateway.get_comment(&input.id) {
            Ok(Some(comment)) => comment,
            Ok(None) => { return Err(AppError::NotFound(String::from_str("id"))) },
            Err(e) => { return Err(AppError::from_comment_gateway(e)) },
        };
        if let Err(e) = ensure_can_rate_comment(
            self.id_provider.permissions(),
            self.id_provider.user_state(),
            &comment.state,
        ) {
            return Err(AppError::from_domain(e));
        }
        match self.comment_gateway.rate_comment(
            &comment.id,
            self.id_provider.user_id(),
            &input.state,
        ) {
            Ok(_) => Ok(()),
            Err(e) => Err(AppError::from_comment_gateway(e)),
        }
    }
}

#[derive(Debug)]
pub struct GetCommentsTreeInput {
    pub article_id: ArticleId,
}

pub type GetCommentsTreeOutput = Vec<GetCommentsTreeItem>;

pub struct GetCommentsTree<'a, P: IdProvider, A: ArticleGateway, C: CommentGateway> {
    pub id_provider: &'a P,
    pub comment_gateway: &'a C,
    pub article_reader: &'a A,
}

impl<'a, P: IdProvider, A: ArticleGateway, C: CommentGateway> Interactor<
    GetCommentsTreeInput,
    GetCommentsTreeOutput,
> for GetCommentsTree<'a, P, A, C> {
    fn execute(&self, input: GetCommentsTreeInput) -> (r: Result<GetCommentsTreeOutput, AppError>)
        ensures
            ({
                let perms = self.id_provider.spec_permissions();
                let user_state = self.id_provider.spec_user_state();
                &&& r is Ok ==> exists|st: ArticleState| can_get_comments(perms, user_state, st)
                &&& !(r matches Err(AppError::Validation(_)))
                &&& r matches Err(AppError::NotFound(f)) ==> f@ == "article_id"@
            }),
    {
        let article_state = match self.article_reader.get_article_state(&input.article_id) {
            Ok(Some(state)) => state,
            Ok(None) => { return Err(AppError::NotFound(String::from_str("article_id"))) },
            Err(e) => { return Err(AppError::from_article_gateway(e)) },
        };
        if let Err(e) = ensure_can_get_comments(
            self.id_provider.permissions(),
            self.id_provider.user_state(),
            &article_state,
        ) {
            return Err(AppError::from_domain(e));
        }
        let comments = match self.comment_gateway.get_comments(&input.article_id) {
            Ok(cs) => cs,
            Err(e) => { return Err(AppError::from_comment_gateway(e)) },
        };
        let ids = comment_ids(&comments);
        let rated = match self.comment_gateway.user_rate_states(
            ids.as_slice(),
            self.id_provider.user_id(),
        ) {
            Ok(rs) => rs,
            Err(e) => { return Err(AppError::from_comment_gateway(e)) },
        };
        let can_look_deleted = crate::access::has_permission(
            self.id_provider.permissions(),
            Permission::GetAnyComment,
        );
        build_comments_tree(comments, rated, can_look_deleted)
    }
}

} // verus!
