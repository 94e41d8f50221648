use articles_core::access::{
    ensure_can_create_article, ensure_can_create_comment, ensure_can_delete_article,
    ensure_can_delete_comment, ensure_can_find_articles, ensure_can_find_tags,
    ensure_can_get_article, ensure_can_get_comment, ensure_can_get_comments,
    ensure_can_rate_article, ensure_can_rate_comment, ensure_can_update_article,
    ensure_can_update_comment, has_permission,
};
use articles_core::errors::DomainError;
use articles_core::models::{ArticleState, CommentState, Permission, UserState};

fn all_permissions() -> Vec<Permission> {
    vec![
        Permission::CreateArticle,
        Permission::GetAnyArticle,
        Permission::GetPubArticle,
        Permission::GetSelfArticle,
        Permission::FindAnyArticle,
        Permission::FindPubArticle,
        Permission::FindSelfArticle,
        Permission::UpdateAnyArticle,
        Permission::UpdateSelfArticle,
        Permission::DeleteAnyArticle,
        Permission::DeleteSelfArticle,
        Permission::RateArticle,
        Permission::FindTag,
        Permission::CreateComment,
        Permission::GetAnyComment,
        Permission::GetPubComment,
        Permission::UpdateAnyComment,
        Permission::UpdateSelfComment,
        Permission::DeleteAnyComment,
        Permission::DeleteSelfComment,
        Permission::RateComment,
    ]
}

#[test]
fn non_active_state_denies_every_operation_despite_full_permissions() {
    let perms = all_permissions();
    for state in [UserState::NotVerify, UserState::Banned, UserState::Deleted] {
        assert!(ensure_can_create_article(&perms, &state).is_err());
        assert!(ensure_can_update_article(&perms, &state, &1, &1).is_err());
        assert!(ensure_can_delete_article(&perms, &state, &1, &1).is_err());
        assert!(
            ensure_can_get_article(&perms, &state, &ArticleState::Published, &1, &1).is_err()
        );
        assert!(
            ensure_can_find_articles(&perms, &state, &ArticleState::Published, &Some(1), &1)
                .is_err()
        );
        assert!(ensure_can_rate_article(&perms, &state, &ArticleState::Published).is_err());
        assert!(ensure_can_create_comment(&perms, &state, &ArticleState::Published).is_err());
        assert!(
            ensure_can_update_comment(&perms, &state, &1, &1, &CommentState::Published).is_err()
        );
        assert!(
            ensure_can_delete_comment(&perms, &state, &1, &1, &CommentState::Published).is_err()
        );
        assert!(
            ensure_can_get_comment(
                &perms,
                &state,
                &CommentState::Published,
                &ArticleState::Published
            )
            .is_err()
        );
        assert!(ensure_can_get_comments(&perms, &state, &ArticleState::Published).is_err());
        assert!(ensure_can_rate_comment(&perms, &state, &CommentState::Published).is_err());
        assert!(ensure_can_find_tags(&perms, &state).is_err());
    }
}

#[test]
fn self_scope_allows_exactly_the_owner() {
    let active = UserState::Active;
    let perms = vec![Permission::UpdateSelfArticle, Permission::DeleteSelfArticle];
    assert!(ensure_can_update_article(&perms, &active, &7, &7).is_ok());
    assert!(ensure_can_update_article(&perms, &active, &7, &8).is_err());
    assert!(ensure_can_delete_article(&perms, &active, &7, &7).is_ok());
    assert!(ensure_can_delete_article(&perms, &active, &7, &8).is_err());

    let comment_perms = vec![Permission::UpdateSelfComment, Permission::DeleteSelfComment];
    assert!(
        ensure_can_update_comment(&comment_perms, &active, &7, &7, &CommentState::Published)
            .is_ok()
    );
    assert!(
        ensure_can_update_comment(&comment_perms, &active, &7, &8, &CommentState::Published)
            .is_err()
    );
    assert!(
        ensure_can_delete_comment(&comment_perms, &active, &7, &7, &CommentState::Published)
            .is_ok()
    );
    assert!(
        ensure_can_delete_comment(&comment_perms, &active, &7, &8, &CommentState::Published)
            .is_err()
    );
}

#[test]
fn any_scope_ignores_ownership() {
    let active = UserState::Active;
    let perms = vec![Permission::UpdateAnyArticle, Permission::DeleteAnyArticle];
    assert!(ensure_can_update_article(&perms, &active, &7, &8).is_ok());
    assert!(ensure_can_delete_article(&perms, &active, &7, &8).is_ok());
}

#[test]
fn create_article_needs_the_grant() {
    let active = UserState::Active;
    assert!(ensure_can_create_article(&vec![Permission::CreateArticle], &active).is_ok());
    assert!(ensure_can_create_article(&vec![Permission::CreateComment], &active).is_err());
    assert!(ensure_can_create_article(&vec![], &active).is_err());
}

#[test]
fn get_article_pub_scope_sees_published_only() {
    let active = UserState::Active;
    let perms = vec![Permission::GetPubArticle];
    assert!(ensure_can_get_article(&perms, &active, &ArticleState::Published, &1, &2).is_ok());
    assert!(ensure_can_get_article(&perms, &active, &ArticleState::Draft, &1, &2).is_err());
    assert!(ensure_can_get_article(&perms, &active, &ArticleState::Archived, &1, &2).is_err());
}

#[test]
fn get_article_self_scope_sees_own_drafts() {
    let active = UserState::Active;
    let perms = vec![Permission::GetSelfArticle];
    assert!(ensure_can_get_article(&perms, &active, &ArticleState::Draft, &5, &5).is_ok());
    assert!(ensure_can_get_article(&perms, &active, &ArticleState::Draft, &5, &6).is_err());
}

#[test]
fn find_articles_self_scope_needs_matching_author_filter() {
    let active = UserState::Active;
    let perms = vec![Permission::FindSelfArticle];
    assert!(
        ensure_can_find_articles(&perms, &active, &ArticleState::Draft, &Some(5), &5).is_ok()
    );
    assert!(
        ensure_can_find_articles(&perms, &active, &ArticleState::Draft, &Some(6), &5).is_err()
    );
    assert!(ensure_can_find_articles(&perms, &active, &ArticleState::Draft, &None, &5).is_err());
}

#[test]
fn rate_article_needs_published_state() {
    let active = UserState::Active;
    let perms = vec![Permission::RateArticle];
    assert!(ensure_can_rate_article(&perms, &active, &ArticleState::Published).is_ok());
    assert!(ensure_can_rate_article(&perms, &active, &ArticleState::Draft).is_err());
    assert!(ensure_can_rate_article(&perms, &active, &ArticleState::Archived).is_err());
}

#[test]
fn create_comment_needs_published_article() {
    let active = UserState::Active;
    let perms = vec![Permission::CreateComment];
    assert!(ensure_can_create_comment(&perms, &active, &ArticleState::Published).is_ok());
    assert!(ensure_can_create_comment(&perms, &active, &ArticleState::Draft).is_err());
}

#[test]
fn update_comment_self_scope_needs_published_comment() {
    let active = UserState::Active;
    let perms = vec![Permission::UpdateSelfComment];
    assert!(
        ensure_can_update_comment(&perms, &active, &7, &7, &CommentState::Deleted).is_err()
    );
    let any = vec![Permission::UpdateAnyComment];
    assert!(ensure_can_update_comment(&any, &active, &7, &8, &CommentState::Deleted).is_ok());
}

#[test]
fn delete_comment_never_deletes_twice() {
    let active = UserState::Active;
    let any = vec![Permission::DeleteAnyComment];
    assert!(ensure_can_delete_comment(&any, &active, &7, &8, &CommentState::Deleted).is_err());
    assert!(ensure_can_delete_comment(&any, &active, &7, &8, &CommentState::Published).is_ok());
}

#[test]
fn get_comment_pub_scope_excludes_draft_articles_and_deleted_comments() {
    let active = UserState::Active;
    let perms = vec![Permission::GetPubComment];
    assert!(
        ensure_can_get_comment(&perms, &active, &CommentState::Published, &ArticleState::Published)
            .is_ok()
    );
    assert!(
        ensure_can_get_comment(&perms, &active, &CommentState::Published, &ArticleState::Archived)
            .is_ok()
    );
    assert!(
        ensure_can_get_comment(&perms, &active, &CommentState::Published, &ArticleState::Draft)
            .is_err()
    );
    assert!(
        ensure_can_get_comment(&perms, &active, &CommentState::Deleted, &ArticleState::Published)
            .is_err()
    );
    let any = vec![Permission::GetAnyComment];
    assert!(
        ensure_can_get_comment(&any, &active, &CommentState::Deleted, &ArticleState::Draft).is_ok()
    );
}

#[test]
fn comment_listing_is_gated_on_the_article_alone() {
    let active = UserState::Active;
    let perms = vec![Permission::GetPubComment];
    assert!(ensure_can_get_comments(&perms, &active, &ArticleState::Published).is_ok());
    assert!(ensure_can_get_comments(&perms, &active, &ArticleState::Archived).is_ok());
    assert!(ensure_can_get_comments(&perms, &active, &ArticleState::Draft).is_err());
    assert!(ensure_can_get_comments(&vec![], &active, &ArticleState::Published).is_err());
}

#[test]
fn rate_comment_needs_published_comment() {
    let active = UserState::Active;
    let perms = vec![Permission::RateComment];
    assert!(ensure_can_rate_comment(&perms, &active, &CommentState::Published).is_ok());
    assert!(ensure_can_rate_comment(&perms, &active, &CommentState::Deleted).is_err());
}

#[test]
fn find_tags_needs_only_an_active_actor() {
    assert!(ensure_can_find_tags(&vec![], &UserState::Active).is_ok());
    assert!(ensure_can_find_tags(&all_permissions(), &UserState::Banned).is_err());
}

#[test]
fn denials_are_opaque() {
    let r = ensure_can_create_article(&vec![], &UserState::Active);
    assert!(matches!(r, Err(DomainError::Access)));
    let r2 = ensure_can_create_article(&all_permissions(), &UserState::Deleted);
    assert!(matches!(r2, Err(DomainError::Access)));
}

#[test]
fn permission_membership_is_exact() {
    let perms = vec![Permission::FindTag, Permission::RateComment];
    assert!(has_permission(&perms, Permission::FindTag));
    assert!(has_permission(&perms, Permission::RateComment));
    assert!(!has_permission(&perms, Permission::RateArticle));
    assert!(!has_permission(&vec![], Permission::FindTag));
}
