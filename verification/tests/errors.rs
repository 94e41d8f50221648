use articles_core::errors::{
    AppError, ArticleGatewayError, CommentGatewayError, DomainError, FileMapGatewayError,
    FileStorageError, TagGatewayError, ValidationError,
};

#[test]
fn an_access_denial_stays_opaque() {
    let e = AppError::from_domain(DomainError::Access);
    assert!(matches!(e, AppError::AccessDenied));
}

#[test]
fn a_single_field_rejection_becomes_a_one_entry_validation_error() {
    let e = AppError::from_domain(DomainError::Validation((
        "title".to_string(),
        ValidationError::InvalidEmpty,
    )));
    match e {
        AppError::Validation(fields) => {
            assert_eq!(fields.len(), 1);
            assert_eq!(fields[0].0, "title");
            assert_eq!(fields[0].1, ValidationError::InvalidEmpty);
        },
        other => panic!("expected a validation error, got {other:?}"),
    }
}

#[test]
fn gateway_failures_become_critical_errors() {
    let cases = [
        AppError::from_article_gateway(ArticleGatewayError::Critical("a".to_string())),
        AppError::from_comment_gateway(CommentGatewayError::Critical("b".to_string())),
        AppError::from_tag_gateway(TagGatewayError::Critical("c".to_string())),
        AppError::from_file_map_gateway(FileMapGatewayError::Critical("d".to_string())),
        AppError::from_file_storage(FileStorageError::Critical("e".to_string())),
    ];
    let carried: Vec<String> = cases
        .into_iter()
        .map(|e| match e {
            AppError::Critical(detail) => detail,
            other => panic!("expected a critical error, got {other:?}"),
        })
        .collect();
    assert_eq!(carried, vec!["a", "b", "c", "d", "e"]);
}
