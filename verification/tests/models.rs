use articles_core::actor::{IdProvider, JwtIdProvider};
use articles_core::models::{Article, ArticleState, Comment, CommentState, File, Permission, Tag, UserState};

#[test]
fn a_new_article_is_fresh() {
    let a = Article::new(
        "T".to_string(),
        None,
        "C".to_string(),
        vec![Tag::new("xx".to_string())],
        ArticleState::Draft,
        7,
    );
    assert_eq!(a.title, "T");
    assert_eq!(a.content, "C");
    assert_eq!(a.state, ArticleState::Draft);
    assert_eq!(a.views, 0);
    assert_eq!(a.rating, 0);
    assert_eq!(a.author_id, 7);
    assert_eq!(a.tags.len(), 1);
    assert!(a.updated_at.is_none());
}

#[test]
fn distinct_entities_get_distinct_ids() {
    let a = Article::new("T".to_string(), None, "C".to_string(), vec![], ArticleState::Draft, 7);
    let b = Article::new("T".to_string(), None, "C".to_string(), vec![], ArticleState::Draft, 7);
    assert_ne!(a.id, b.id);
}

#[test]
fn updating_an_article_keeps_identity_and_counters() {
    let mut a =
        Article::new("T".to_string(), None, "C".to_string(), vec![], ArticleState::Draft, 7);
    let id = a.id;
    a.increment_views();
    a.update(
        "T2".to_string(),
        Some(9),
        "C2".to_string(),
        ArticleState::Published,
        vec![],
    );
    assert_eq!(a.id, id);
    assert_eq!(a.title, "T2");
    assert_eq!(a.poster, Some(9));
    assert_eq!(a.views, 1);
    assert_eq!(a.author_id, 7);
    assert!(a.updated_at.is_some());
}

#[test]
fn a_new_comment_is_published_and_unrated() {
    let c = Comment::new("hi".to_string(), 7, 42, Some(3));
    assert_eq!(c.content, "hi");
    assert_eq!(c.author_id, 7);
    assert_eq!(c.article_id, 42);
    assert_eq!(c.parent_id, Some(3));
    assert_eq!(c.rating, 0);
    assert_eq!(c.state, CommentState::Published);
    assert!(c.updated_at.is_none());
}

#[test]
fn marking_a_comment_deleted_keeps_its_content() {
    let mut c = Comment::new("hi".to_string(), 7, 42, None);
    c.mark_deleted();
    assert_eq!(c.state, CommentState::Deleted);
    assert_eq!(c.content, "hi");
    assert!(c.updated_at.is_some());
}

#[test]
fn a_new_file_is_unuploaded_until_marked() {
    let mut f = File::new("a.png".to_string(), "image/png".to_string(), 42);
    assert!(!f.is_uploaded);
    assert!(f.updated_at.is_none());
    f.mark_uploaded();
    assert!(f.is_uploaded);
    assert!(f.updated_at.is_some());
}

#[test]
fn the_guest_actor_is_active_with_the_configured_permissions() {
    let guest = JwtIdProvider::guest(vec![Permission::GetPubArticle]);
    assert_eq!(*guest.user_id(), 0);
    assert_eq!(*guest.user_state(), UserState::Active);
    assert_eq!(guest.permissions().as_slice(), &[Permission::GetPubArticle]);
}

#[test]
fn claims_carry_over_into_the_actor() {
    let p = JwtIdProvider::from_claims(9, vec![Permission::RateComment], UserState::Banned);
    assert_eq!(*p.user_id(), 9);
    assert_eq!(*p.user_state(), UserState::Banned);
    assert_eq!(p.permissions().as_slice(), &[Permission::RateComment]);
}
