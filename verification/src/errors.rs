//! Error taxonomy: domain-level denial and validation failures, the
//! application-level error a use case surfaces, and the failures the outside
//! collaborators (storage gateways, token resolution) report.

use vstd::prelude::*;

verus! {

/// Why one input field was rejected.
#[derive(Clone, PartialEq, Debug)]
pub enum ValidationError {
    /// The value must lie in the inclusive range carried here.
    InvalidRange(i64, i64),
    InvalidEmpty,
    /// The value does not match the pattern carried here.
    InvalidRegex(String),
}

/// The mathematical shape of a [`ValidationError`]: the carried pattern text
/// is abstracted to its character sequence. Contracts speak of this view.
pub ghost enum ReasonView {
    Range(i64, i64),
    Empty,
    Pattern(Seq<char>),
}

/// The view of one rejection reason.
pub open spec fn reason_view(e: ValidationError) -> ReasonView {
    match e {
        ValidationError::InvalidRange(lo, hi) => ReasonView::Range(lo, hi),
        ValidationError::InvalidEmpty => ReasonView::Empty,
        ValidationError::InvalidRegex(p) => ReasonView::Pattern(p@),
    }
}

/// The view of a collected field-error list: each entry as its field key's
/// characters and its reason's view.
pub open spec fn entry_views(l: Seq<(String, ValidationError)>) -> Seq<(Seq<char>, ReasonView)> {
    l.map_values(|p: (String, ValidationError)| (p.0@, reason_view(p.1)))
}

/// A failure produced by the domain services: either an opaque access
/// denial, or one field with the reason it was rejected.
#[derive(Debug)]
pub enum DomainError {
    Access,
    Validation((String, ValidationError)),
}

/// The error a use case surfaces. `AccessDenied` and `NotFound` carry
/// minimal detail; `Validation` carries every rejected field with its
/// reason; `Critical` marks a broken internal invariant or a collaborator
/// failure and exposes no detail to the client.
#[derive(Clone, Debug)]
pub enum AppError {
    Validation(Vec<(String, ValidationError)>),
    NotFound(String),
    AccessDenied,
    Critical(String),
}

/// How resolving an identity token can fail.
#[derive(Clone, PartialEq, Debug)]
pub enum TokenError {
    Invalid(String),
    Expired,
    Critical(String),
}

#[derive(Clone, PartialEq, Debug)]
pub enum ArticleGatewayError {
    Critical(String),
}

#[derive(Clone, PartialEq, Debug)]
pub enum CommentGatewayError {
    Critical(String),
}

#[derive(Clone, PartialEq, Debug)]
pub enum TagGatewayError {
    Critical(String),
}

#[derive(Clone, PartialEq, Debug)]
pub enum FileMapGatewayError {
    Critical(String),
}

#[derive(Clone, PartialEq, Debug)]
pub enum FileStorageError {
    Critical(String),
}

impl AppError {
    /// An access denial becomes the opaque denied outcome; a single-field
    /// validation failure becomes a one-entry validation error.
    pub fn from_domain(e: DomainError) -> (r: AppError)
        ensures
            e is Access ==> r == AppError::AccessDenied,
            e matches DomainError::Validation(p) ==> (r matches AppError::Validation(l)
                && l@ == seq![p]),
    {
        match e {
            DomainError::Access => AppError::AccessDenied,
            DomainError::Validation(p) => {
                let mut l: Vec<(String, ValidationError)> = Vec::new();
                l.push(p);
                AppError::Validation(l)
            },
        }
    }

    /// A storage failure is wrapped into a critical error, detail kept for
    /// the operator.
    pub fn from_article_gateway(e: ArticleGatewayError) -> (r: AppError)
        ensures
            e matches ArticleGatewayError::Critical(s) ==> r == AppError::Critical(s),
    {
        match e {
            ArticleGatewayError::Critical(s) => AppError::Critical(s),
        }
    }

    pub fn from_comment_gateway(e: CommentGatewayError) -> (r: AppError)
        ensures
            e matches CommentGatewayError::Critical(s) ==> r == AppError::Critical(s),
    {
        match e {
            CommentGatewayError::Critical(s) => AppError::Critical(s),
        }
    }

    pub fn from_tag_gateway(e: TagGatewayError) -> (r: AppError)
        ensures
            e matches TagGatewayError::Critical(s) ==> r == AppError::Critical(s),
    {
        match e {
            TagGatewayError::Critical(s) => AppError::Critical(s),
        }
    }

    pub fn from_file_map_gateway(e: FileMapGatewayError) -> (r: AppError)
        ensures
            e matches FileMapGatewayError::Critical(s) ==> r == AppError::Critical(s),
    {
        match e {
            FileMapGatewayError::Critical(s) => AppError::Critical(s),
        }
    }

    pub fn from_file_storage(e: FileStorageError) -> (r: AppError)
        ensures
            e matches FileStorageError::Critical(s) ==> r == AppError::Critical(s),
    {
        match e {
            FileStorageError::Critical(s) => AppError::Critical(s),
        }
    }
}

} // verus!
