//! Access decision engine: one pure predicate per protected operation,
//! evaluating the actor's capabilities, the actor's lifecycle state, and the
//! resource's state and ownership. Every denial is the same opaque
//! `DomainError::Access`, so no caller can learn which clause failed.
//!
//! Universal precondition: only an `Active` actor is ever allowed anything;
//! every other state denies unconditionally, whatever the permission set.

use vstd::prelude::*;

use crate::errors::DomainError;
use crate::models::{ArticleState, CommentState, Permission, UserId, UserState};

verus! {

/// True when the permission set grants `p`. Written over the sequence the
/// set is carried as; membership is all that matters.
pub open spec fn spec_has(perms: Seq<Permission>, p: Permission) -> bool {
    perms.contains(p)
}

/// Membership test on the carried permission list.
pub fn has_permission(perms: &Vec<Permission>, p: Permission) -> (r: bool)
    ensures
        r == spec_has(perms@, p),
{
    let mut i: usize = 0;
    while i < perms.len()
        invariant
            0 <= i <= perms@.len(),
            forall|j: int| 0 <= j < i ==> perms@[j] != p,
        decreases perms@.len() - i,
    {
        if perms[i] == p {
            return true;
        }
        i = i + 1;
    }
    false
}

pub open spec fn can_create_article(perms: Seq<Permission>, user_state: UserState) -> bool {
    &&& user_state == UserState::Active
    &&& spec_has(perms, Permission::CreateArticle)
}

pub open spec fn can_update_article(
    perms: Seq<Permission>,
    user_state: UserState,
    user_id: UserId,
    article_author_id: UserId,
) -> bool {
    &&& user_state == UserState::Active
    &&& {
        ||| (spec_has(perms, Permission::UpdateSelfArticle) && user_id == article_author_id)
        ||| spec_has(perms, Permission::UpdateAnyArticle)
    }
}

pub open spec fn can_delete_article(
    perms: Seq<Permission>,
    user_state: UserState,
    user_id: UserId,
    article_author_id: UserId,
) -> bool {
    &&& user_state == UserState::Active
    &&& {
        ||| (spec_has(perms, Permission::DeleteSelfArticle) && user_id == article_author_id)
        ||| spec_has(perms, Permission::DeleteAnyArticle)
    }
}

pub open spec fn can_get_article(
    perms: Seq<Permission>,
    user_state: UserState,
    article_state: ArticleState,
    article_author_id: UserId,
    user_id: UserId,
) -> bool {
    &&& user_state == UserState::Active
    &&& {
        ||| spec_has(perms, Permission::GetAnyArticle)
        ||| (spec_has(perms, Permission::GetPubArticle) && article_state
            == ArticleState::Published)
        ||| (spec_has(perms, Permission::GetSelfArticle) && user_id == article_author_id)
    }
}

pub open spec fn can_find_articles(
    perms: Seq<Permission>,
    user_state: UserState,
    article_state: ArticleState,
    article_author_id: Option<UserId>,
    user_id: UserId,
) -> bool {
    &&& user_state == UserState::Active
    &&& {
        ||| spec_has(perms, Permission::FindAnyArticle)
        ||| (spec_has(perms, Permission::FindPubArticle) && article_state
            == ArticleState::Published)
        ||| (article_author_id matches Some(author_id) && spec_has(
            perms,
            Permission::FindSelfArticle,
        ) && user_id == author_id)
    }
}

pub open spec fn can_rate_article(
    perms: Seq<Permission>,
    user_state: UserState,
    article_state: ArticleState,
) -> bool {
    &&& user_state == UserState::Active
    &&& spec_has(perms, Permission::RateArticle)
    &&& article_state == ArticleState::Published
}

pub open spec fn can_create_comment(
    perms: Seq<Permission>,
    user_state: UserState,
    article_state: ArticleState,
) -> bool {
    &&& user_state == UserState::Active
    &&& spec_has(perms, Permission::CreateComment)
    &&& article_state == ArticleState::Published
}

pub open spec fn can_update_comment(
    perms: Seq<Permission>,
    user_state: UserState,
    user_id: UserId,
    comment_author_id: UserId,
    comment_state: CommentState,
) -> bool {
    &&& user_state == UserState::Active
    &&& {
        ||| (spec_has(perms, Permission::UpdateSelfComment) && user_id == comment_author_id
            && comment_state == CommentState::Published)
        ||| spec_has(perms, Permission::UpdateAnyComment)
    }
}

pub open spec fn can_delete_comment(
    perms: Seq<Permission>,
    user_state: UserState,
    user_id: UserId,
    comment_author_id: UserId,
    comment_state: CommentState,
) -> bool {
    &&& user_state == UserState::Active
    &&& comment_state != CommentState::Deleted
    &&& {
        ||| (spec_has(perms, Permission::DeleteSelfComment) && user_id == comment_author_id)
        ||| spec_has(perms, Permission::DeleteAnyComment)
    }
}

pub open spec fn can_get_comment(
    perms: Seq<Permission>,
    user_state: UserState,
    comment_state: CommentState,
    article_state: ArticleState,
) -> bool {
    &&& user_state == UserState::Active
    &&& {
        ||| spec_has(perms, Permission::GetAnyComment)
        ||| (spec_has(perms, Permission::GetPubComment) && comment_state
            == CommentState::Published && article_state != ArticleState::Draft)
    }
}

/// Listing a whole comment tree is gated on the article alone: deleted
/// comments still appear (redacted), so only the article's state and the
/// breadth of the viewer's read grant matter.
pub open spec fn can_get_comments(
    perms: Seq<Permission>,
    user_state: UserState,
    article_state: ArticleState,
) -> bool {
    &&& user_state == UserState::Active
    &&& {
        ||| spec_has(perms, Permission::GetAnyComment)
        ||| (spec_has(perms, Permission::GetPubComment) && article_state != ArticleState::Draft)
    }
}

pub open spec fn can_rate_comment(
    perms: Seq<Permission>,
    user_state: UserState,
    comment_state: CommentState,
) -> bool {
    &&& user_state == UserState::Active
    &&& comment_state == CommentState::Published
    &&& spec_has(perms, Permission::RateComment)
}

/// Looking tags up asks no capability beyond an Active actor. The grant
/// `FindTag` exists in the vocabulary but is deliberately not consulted
/// here: tag titles carry no protected content.
pub open spec fn can_find_tags(perms: Seq<Permission>, user_state: UserState) -> bool {
    user_state == UserState::Active
}

pub fn ensure_can_create_article(permissions: &Vec<Permission>, user_state: &UserState) -> (r:
    Result<(), DomainError>)
    ensures
        r is Ok <==> can_create_article(permissions@, *user_state),
        r is Err ==> r matches Err(DomainError::Access),
{
    if *user_state != UserState::Active {
        return Err(DomainError::Access);
    }
    if !has_permission(permissions, Permission::CreateArticle) {
        return Err(DomainError::Access);
    }
    Ok(())
}

pub fn ensure_can_update_article(
    permissions: &Vec<Permission>,
    user_state: &UserState,
    user_id: &UserId,
    article_author_id: &UserId,
) -> (r: Result<(), DomainError>)
    ensures
        r is Ok <==> can_update_article(permissions@, *user_state, *user_id, *article_author_id),
        r is Err ==> r matches Err(DomainError::Access),
{
    if *user_state != UserState::Active {
        return Err(DomainError::Access);
    }
    if has_permission(permissions, Permission::UpdateSelfArticle) && *user_id
        == *article_author_id {
        return Ok(());
    }
    if has_permission(permissions, Permission::UpdateAnyArticle) {
        return Ok(());
    }
    Err(DomainError::Access)
}

pub fn ensure_can_delete_article(
    permissions: &Vec<Permission>,
    user_state: &UserState,
    user_id: &UserId,
    article_author_id: &UserId,
) -> (r: Result<(), DomainError>)
    ensures
        r is Ok <==> can_delete_article(permissions@, *user_state, *user_id, *article_author_id),
        r is Err ==> r matches Err(DomainError::Access),
{
    if *user_state != UserState::Active {
        return Err(DomainError::Access);
    }
    if has_permission(permissions, Permission::DeleteSelfArticle) && *user_id
        == *article_author_id {
        return Ok(());
    }
    if has_permission(permissions, Permission::DeleteAnyArticle) {
        return Ok(());
    }
    Err(DomainError::Access)
}

pub fn ensure_can_get_article(
    permissions: &Vec<Permission>,
    user_state: &UserState,
    article_state: &ArticleState,
    article_author_id: &UserId,
    user_id: &UserId,
) -> (r: Result<(), DomainError>)
    ensures
        r is Ok <==> can_get_article(
            permissions@,
            *user_state,
            *article_state,
            *article_author_id,
            *user_id,
        ),
        r is Err ==> r matches Err(DomainError::Access),
{
    if *user_state != UserState::Active {
        return Err(DomainError::Access);
    }
    if has_permission(permissions, Permission::GetAnyArticle) {
        return Ok(());
    }
    if has_permission(permissions, Permission::GetPubArticle) && *article_state
        == ArticleState::Published {
        return Ok(());
    }
    if has_permission(permissions, Permission::GetSelfArticle) && *user_id == *article_author_id {
        return Ok(());
    }
    Err(DomainError::Access)
}

pub fn ensure_can_find_articles(
    permissions: &Vec<Permission>,
    user_state: &UserState,
    article_state: &ArticleState,
    article_author_id: &Option<UserId>,
    user_id: &UserId,
) -> (r: Result<(), DomainError>)
    ensures
        r is Ok <==> can_find_articles(
            permissions@,
            *user_state,
            *article_state,
            *article_author_id,
            *user_id,
        ),
        r is Err ==> r matches Err(DomainError::Access),
{
    if *user_state != UserState::Active {
        return Err(DomainError::Access);
    }
    if has_permission(permissions, Permission::FindAnyArticle) {
        return Ok(());
    }
    if has_permission(permissions, Permission::FindPubArticle) && *article_state
        == ArticleState::Published {
        return Ok(());
    }
    if let Some(author_id) = article_author_id {
        if has_permission(permissions, Permission::FindSelfArticle) && *user_id == *author_id {
            return Ok(());
        }
    }
    Err(DomainError::Access)
}

pub fn ensure_can_rate_article(
    permissions: &Vec<Permission>,
    user_state: &UserState,
    article_state: &ArticleState,
) -> (r: Result<(), DomainError>)
    ensures
        r is Ok <==> can_rate_article(permissions@, *user_state, *article_state),
        r is Err ==> r matches Err(DomainError::Access),
{
    if *user_state != UserState::Active {
        return Err(DomainError::Access);
    }
    if !has_permission(permissions, Permission::RateArticle) {
        return Err(DomainError::Access);
    }
    if *article_state != ArticleState::Published {
        return Err(DomainError::Access);
    }
    Ok(())
}

pub fn ensure_can_create_comment(
    permissions: &Vec<Permission>,
    user_state: &UserState,
    article_state: &ArticleState,
) -> (r: Result<(), DomainError>)
    ensures
        r is Ok <==> can_create_comment(permissions@, *user_state, *article_state),
        r is Err ==> r matches Err(DomainError::Access),
{
    if *user_state != UserState::Active {
        return Err(DomainError::Access);
    }
    if !has_permission(permissions, Permission::CreateComment) {
        return Err(DomainError::Access);
    }
    if *article_state != ArticleState::Published {
        return Err(DomainError::Access);
    }
    Ok(())
}

pub fn ensure_can_update_comment(
    permissions: &Vec<Permission>,
    user_state: &UserState,
    user_id: &UserId,
    comment_author_id: &UserId,
    comment_state: &CommentState,
) -> (r: Result<(), DomainError>)
    ensures
        r is Ok <==> can_update_comment(
            permissions@,
            *user_state,
            *user_id,
            *comment_author_id,
            *comment_state,
        ),
        r is Err ==> r matches Err(DomainError::Access),
{
    if *user_state != UserState::Active {
        return Err(DomainError::Access);
    }
    if has_permission(permissions, Permission::UpdateSelfComment) && *user_id == *comment_author_id
        && *comment_state == CommentState::Published {
        return Ok(());
    }
    if has_permission(permissions, Permission::UpdateAnyComment) {
        return Ok(());
    }
    Err(DomainError::Access)
}

pub fn ensure_can_delete_comment(
    permissions: &Vec<Permission>,
    user_state: &UserState,
    user_id: &UserId,
    comment_author_id: &UserId,
    comment_state: &CommentState,
) -> (r: Result<(), DomainError>)
    ensures
        r is Ok <==> can_delete_comment(
            permissions@,
            *user_state,
            *user_id,
            *comment_author_id,
            *comment_state,
        ),
        r is Err ==> r matches Err(DomainError::Access),
{
    if *user_state != UserState::Active {
        return Err(DomainError::Access);
    }
    if *comment_state == CommentState::Deleted {
        return Err(DomainError::Access);
    }
    if has_permission(permissions, Permission::DeleteSelfComment) && *user_id
        == *comment_author_id {
        return Ok(());
    }
    if has_permission(permissions, Permission::DeleteAnyComment) {
        return Ok(());
    }
    Err(DomainError::Access)
}

pub fn ensure_can_get_comment(
    permissions: &Vec<Permission>,
    user_state: &UserState,
    comment_state: &CommentState,
    article_state: &ArticleState,
) -> (r: Result<(), DomainError>)
    ensures
        r is Ok <==> can_get_comment(permissions@, *user_state, *comment_state, *article_state),
        r is Err ==> r matches Err(DomainError::Access),
{
    if *user_state != UserState::Active {
        return Err(DomainError::Access);
    }
    if has_permission(permissions, Permission::GetAnyComment) {
        return Ok(());
    }
    if has_permission(permissions, Permission::GetPubComment) && *comment_state
        == CommentState::Published && *article_state != ArticleState::Draft {
        return Ok(());
    }
    Err(DomainError::Access)
}

pub fn ensure_can_get_comments(
    permissions: &Vec<Permission>,
    user_state: &UserState,
    article_state: &ArticleState,
) -> (r: Result<(), DomainError>)
    ensures
        r is Ok <==> can_get_comments(permissions@, *user_state, *article_state),
        r is Err ==> r matches Err(DomainError::Access),
{
    if *user_state != UserState::Active {
        return Err(DomainError::Access);
    }
    if has_permission(permissions, Permission::GetAnyComment) {
        return Ok(());
    }
    if has_permission(permissions, Permission::GetPubComment) && *article_state
        != ArticleState::Draft {
        return Ok(());
    }
    Err(DomainError::Access)
}

pub fn ensure_can_rate_comment(
    permissions: &Vec<Permission>,
    user_state: &UserState,
    comment_state: &CommentState,
) -> (r: Result<(), DomainError>)
    ensures
        r is Ok <==> can_rate_comment(permissions@, *user_state, *comment_state),
        r is Err ==> r matches Err(DomainError::Access),
{
    if *user_state != UserState::Active {
        return Err(DomainError::Access);
    }
    if *comment_state != CommentState::Published {
        return Err(DomainError::Access);
    }
    if !has_permission(permissions, Permission::RateComment) {
        return Err(DomainError::Access);
    }
    Ok(())
}

pub fn ensure_can_find_tags(permissions: &Vec<Permission>, user_state: &UserState) -> (r: Result<
    (),
    DomainError,
>)
    ensures
        r is Ok <==> can_find_tags(permissions@, *user_state),
        r is Err ==> r matches Err(DomainError::Access),
{
    if *user_state != UserState::Active {
        return Err(DomainError::Access);
    }
    Ok(())
}

/// Law: an actor whose state is not `Active` is denied every operation,
/// whatever its permission set and whatever the resource looks like.
pub proof fn lemma_non_active_denied(
    perms: Seq<Permission>,
    user_state: UserState,
    user_id: UserId,
    author_id: UserId,
    author_filter: Option<UserId>,
    article_state: ArticleState,
    comment_state: CommentState,
)
    requires
        user_state != UserState::Active,
    ensures
        !can_create_article(perms, user_state),
        !can_update_article(perms, user_state, user_id, author_id),
        !can_delete_article(perms, user_state, user_id, author_id),
        !can_get_article(perms, user_state, article_state, author_id, user_id),
        !can_find_articles(perms, user_state, article_state, author_filter, user_id),
        !can_rate_article(perms, user_state, article_state),
        !can_create_comment(perms, user_state, article_state),
        !can_update_comment(perms, user_state, user_id, author_id, comment_state),
        !can_delete_comment(perms, user_state, user_id, author_id, comment_state),
        !can_get_comment(perms, user_state, comment_state, article_state),
        !can_get_comments(perms, user_state, article_state),
        !can_rate_comment(perms, user_state, comment_state),
        !can_find_tags(perms, user_state),
{
}

/// Law: a permission set that carries the `Self`-scoped grant for an
/// operation but not the `Any`-scoped one allows that operation exactly when
/// the actor owns the resource. For comment updates this holds of published
/// comments, and for comment deletion of comments not already deleted: those
/// resource-state gates apply to owners and non-owners alike.
pub proof fn lemma_self_scope_is_ownership(
    perms: Seq<Permission>,
    user_id: UserId,
    author_id: UserId,
    comment_state: CommentState,
)
    ensures
        spec_has(perms, Permission::UpdateSelfArticle) && !spec_has(
            perms,
            Permission::UpdateAnyArticle,
        ) ==> (can_update_article(perms, UserState::Active, user_id, author_id) <==> user_id
            == author_id),
        spec_has(perms, Permission::DeleteSelfArticle) && !spec_has(
            perms,
            Permission::DeleteAnyArticle,
        ) ==> (can_delete_article(perms, UserState::Active, user_id, author_id) <==> user_id
            == author_id),
        spec_has(perms, Permission::UpdateSelfComment) && !spec_has(
            perms,
            Permission::UpdateAnyComment,
        ) && comment_state == CommentState::Published ==> (can_update_comment(
            perms,
            UserState::Active,
            user_id,
            author_id,
            comment_state,
        ) <==> user_id == author_id),
        spec_has(perms, Permission::DeleteSelfComment) && !spec_has(
            perms,
            Permission::DeleteAnyComment,
        ) && comment_state != CommentState::Deleted ==> (can_delete_comment(
            perms,
            UserState::Active,
            user_id,
            author_id,
            comment_state,
        ) <==> user_id == author_id),
{
}

} // verus!
