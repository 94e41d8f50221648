use articles_core::errors::{DomainError, ValidationError};
use articles_core::validation::{
    collect_article_form_errors, collect_file_form_errors, collect_find_form_errors,
    collect_page_form_errors, mime_pattern_matches, parse_tag_list, trim_edges, usize_to_string,
    validate_article_content, validate_article_tags, validate_article_title,
    validate_comment_content, validate_filename, validate_mime_content_type, validate_page,
    validate_per_page,
};

fn field_of(r: Result<(), DomainError>) -> (String, ValidationError) {
    match r {
        Err(DomainError::Validation(p)) => p,
        _ => panic!("expected a validation error"),
    }
}

#[test]
fn title_rules() {
    assert!(validate_article_title("a").is_ok());
    assert!(validate_article_title(&"x".repeat(255)).is_ok());
    let (field, reason) = field_of(validate_article_title(""));
    assert_eq!(field, "title");
    assert_eq!(reason, ValidationError::InvalidEmpty);
    let (field, reason) = field_of(validate_article_title(&"x".repeat(256)));
    assert_eq!(field, "title");
    assert_eq!(reason, ValidationError::InvalidRange(1, 255));
}

#[test]
fn content_rules() {
    assert!(validate_article_content("c").is_ok());
    assert!(validate_article_content(&"x".repeat(32000)).is_ok());
    let (field, reason) = field_of(validate_article_content(""));
    assert_eq!(field, "content");
    assert_eq!(reason, ValidationError::InvalidEmpty);
    let (field, reason) = field_of(validate_article_content(&"x".repeat(32001)));
    assert_eq!(field, "content");
    assert_eq!(reason, ValidationError::InvalidRange(1, 32000));
}

#[test]
fn tag_rules_report_the_first_rejected_index() {
    assert!(validate_article_tags(&[]).is_ok());
    assert!(validate_article_tags(&["x".to_string(), "rust".to_string()]).is_ok());
    assert!(validate_article_tags(&["y".repeat(64)]).is_ok());
    let (field, reason) =
        field_of(validate_article_tags(&["ok".to_string(), "".to_string(), "x".to_string()]));
    assert_eq!(field, "tags_1");
    assert_eq!(reason, ValidationError::InvalidEmpty);
    let (field, reason) =
        field_of(validate_article_tags(&["ok".to_string(), "y".repeat(65)]));
    assert_eq!(field, "tags_1");
    assert_eq!(reason, ValidationError::InvalidRange(1, 64));
    let (field, _) = field_of(validate_article_tags(&[
        "t0".to_string(),
        "t1".to_string(),
        "t2".to_string(),
        "t3".to_string(),
        "t4".to_string(),
        "t5".to_string(),
        "t6".to_string(),
        "t7".to_string(),
        "t8".to_string(),
        "t9".to_string(),
        "t10".to_string(),
        "x".repeat(65),
    ]));
    assert_eq!(field, "tags_11");
}

#[test]
fn comment_content_rules() {
    assert!(validate_comment_content("hello").is_ok());
    assert!(validate_comment_content(&"x".repeat(1000)).is_ok());
    let (field, reason) = field_of(validate_comment_content(""));
    assert_eq!(field, "content");
    assert_eq!(reason, ValidationError::InvalidEmpty);
    let (field, reason) = field_of(validate_comment_content(&"x".repeat(1001)));
    assert_eq!(field, "content");
    assert_eq!(reason, ValidationError::InvalidRange(1, 1000));
}

#[test]
fn filename_rules() {
    assert!(validate_filename("a.png").is_ok());
    let (field, reason) = field_of(validate_filename(""));
    assert_eq!(field, "filename");
    assert_eq!(reason, ValidationError::InvalidEmpty);
    let (field, reason) = field_of(validate_filename(&"x".repeat(256)));
    assert_eq!(field, "filename");
    assert_eq!(reason, ValidationError::InvalidRange(1, 255));
}

#[test]
fn mime_pattern() {
    assert!(mime_pattern_matches("image/png"));
    assert!(mime_pattern_matches("application/vnd.api+json"));
    assert!(mime_pattern_matches("a/b"));
    assert!(mime_pattern_matches("weird image/png trailer"));
    assert!(!mime_pattern_matches("image"));
    assert!(!mime_pattern_matches("/png"));
    assert!(!mime_pattern_matches("image/"));
    assert!(!mime_pattern_matches(""));
    assert!(!mime_pattern_matches("a/"));
    assert!(!mime_pattern_matches("//"));
}

#[test]
fn mime_rules() {
    assert!(validate_mime_content_type("image/png").is_ok());
    let (field, reason) = field_of(validate_mime_content_type(""));
    assert_eq!(field, "mime_type");
    assert_eq!(reason, ValidationError::InvalidEmpty);
    let (field, reason) = field_of(validate_mime_content_type(&"x/".repeat(200)));
    assert_eq!(field, "content_type");
    assert_eq!(reason, ValidationError::InvalidRange(1, 255));
    let (field, reason) = field_of(validate_mime_content_type("not a mime"));
    assert_eq!(field, "content_type");
    assert_eq!(reason, ValidationError::InvalidRegex("\\w+/[-+.\\w]+".to_string()));
}

#[test]
fn page_rules() {
    assert!(validate_page(1).is_ok());
    assert!(validate_page(1_000_000).is_ok());
    let (field, reason) = field_of(validate_page(0));
    assert_eq!(field, "page");
    assert_eq!(reason, ValidationError::InvalidRange(1, 1_000_000));
    assert!(validate_page(1_000_001).is_err());
}

#[test]
fn per_page_rules() {
    assert!(validate_per_page(1).is_ok());
    assert!(validate_per_page(100).is_ok());
    let (field, reason) = field_of(validate_per_page(0));
    assert_eq!(field, "per_page");
    assert_eq!(reason, ValidationError::InvalidRange(1, 100));
    assert!(validate_per_page(101).is_err());
}

#[test]
fn article_form_collects_every_failure_not_just_the_first() {
    let errors = collect_article_form_errors("", "", &["ok".to_string()]);
    let fields: Vec<&str> = errors.iter().map(|p| p.0.as_str()).collect();
    assert_eq!(fields, vec!["title", "content"]);
    assert_eq!(errors[0].1, ValidationError::InvalidEmpty);
    assert_eq!(errors[1].1, ValidationError::InvalidEmpty);
}

#[test]
fn article_form_collects_all_three_fields() {
    let errors = collect_article_form_errors("", &"x".repeat(32001), &["".to_string()]);
    let fields: Vec<&str> = errors.iter().map(|p| p.0.as_str()).collect();
    assert_eq!(fields, vec!["title", "content", "tags_0"]);
}

#[test]
fn clean_forms_collect_nothing() {
    assert!(collect_article_form_errors("t", "c", &[]).is_empty());
    assert!(collect_file_form_errors("a.png", "image/png").is_empty());
    assert!(collect_find_form_errors(1, 10, &[]).is_empty());
    assert!(collect_page_form_errors(1, 10).is_empty());
}

#[test]
fn file_form_collects_both_fields() {
    let errors = collect_file_form_errors("", "nope");
    let fields: Vec<&str> = errors.iter().map(|p| p.0.as_str()).collect();
    assert_eq!(fields, vec!["filename", "content_type"]);
}

#[test]
fn find_form_collects_page_per_page_and_tags() {
    let errors = collect_find_form_errors(0, 0, &["".to_string()]);
    let fields: Vec<&str> = errors.iter().map(|p| p.0.as_str()).collect();
    assert_eq!(fields, vec!["page", "per_page", "tags_0"]);
}

#[test]
fn decimal_rendering() {
    assert_eq!(usize_to_string(0), "0");
    assert_eq!(usize_to_string(7), "7");
    assert_eq!(usize_to_string(10), "10");
    assert_eq!(usize_to_string(105), "105");
    assert_eq!(usize_to_string(98765), "98765");
}

#[test]
fn trimming_strips_edge_spaces_only() {
    assert_eq!(trim_edges("  rust  "), "rust");
    assert_eq!(trim_edges("\t a b \n"), "a b");
    assert_eq!(trim_edges("rust"), "rust");
    assert_eq!(trim_edges("   "), "");
    assert_eq!(trim_edges(""), "");
}

#[test]
fn tag_lists_split_on_semicolons_and_trim() {
    assert_eq!(parse_tag_list("a; b ;c"), vec!["a", "b", "c"]);
    assert_eq!(parse_tag_list("rust"), vec!["rust"]);
    assert_eq!(parse_tag_list(""), vec![""]);
    assert_eq!(parse_tag_list("a;;b"), vec!["a", "", "b"]);
    assert_eq!(parse_tag_list("a;b;"), vec!["a", "b", ""]);
    assert_eq!(parse_tag_list(" spaced out ; tags "), vec!["spaced out", "tags"]);
}
