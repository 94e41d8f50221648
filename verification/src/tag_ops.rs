//! Tag lookup: a paginated, optionally filtered page of tags, each with the
//! count of articles linked to it.

use vstd::prelude::*;

use crate::access::{can_find_tags, ensure_can_find_tags};
use crate::actor::IdProvider;
use crate::errors::{entry_views, AppError};
use crate::gateways::{FindArticleTagsOrderBy, Interactor, TagReader};
use crate::models::{Tag, Timestamp};
use crate::validation::{collect_page_form_errors, page_form_errors};

verus! {

#[derive(Debug)]
pub struct FindArticleTagsInput {
    pub page: u32,
    pub per_page: u8,
    pub query: Option<String>,
    pub order_by: FindArticleTagsOrderBy,
}

/// One row of a tag page.
#[derive(Debug)]
pub struct TagItem {
    pub title: String,
    /// How many articles carry this tag.
    pub article_count: u32,
    pub created_at: Timestamp,
}

#[derive(Debug)]
pub struct FindArticleTagsOutput(pub Vec<TagItem>);

/// Whether one result row faithfully carries one found tag and its count.
pub open spec fn tag_item_matches(item: TagItem, found: (Tag, u32)) -> bool {
    &&& item.title@ == found.0.title@
    &&& item.article_count == found.1
    &&& item.created_at == found.0.created_at
}

pub struct FindArticleTags<'a, P: IdProvider, T: TagReader> {
    pub id_provider: &'a P,
    pub tag_reader: &'a T,
}

impl<'a, P: IdProvider, T: TagReader> Interactor<
    FindArticleTagsInput,
    FindArticleTagsOutput,
> for FindArticleTags<'a, P, T> {
    fn execute(&self, input: FindArticleTagsInput) -> (r: Result<FindArticleTagsOutput, AppError>)
        ensures
            ({
                let can = can_find_tags(
                    self.id_provider.spec_permissions(),
                    self.id_provider.spec_user_state(),
                );
                let errs = page_form_errors(input.page, input.per_page);
                &&& !can ==> (r matches Err(e) && e == AppError::AccessDenied)
                &&& (can && errs.len() != 0) ==> (r matches Err(AppError::Validation(l))
                    && entry_views(l@) == errs)
                &&& (can && errs.len() == 0) ==> (r is Ok || (r matches Err(e) && e is Critical))
            }),
    {
        if let Err(e) = ensure_can_find_tags(
            self.id_provider.permissions(),
            self.id_provider.user_state(),
        ) {
            return Err(AppError::from_domain(e));
        }
        let errors = collect_page_form_errors(input.page, input.per_page);
        if errors.len() > 0 {
            return Err(AppError::Validation(errors));
        }
        let offset = (input.page - 1).wrapping_mul(input.per_page as u32);
        let tags = match self.tag_reader.find_tags(
            input.per_page,
            offset,
            &input.order_by,
            input.query,
        ) {
            Ok(ts) => ts,
            Err(e) => { return Err(AppError::from_tag_gateway(e)) },
        };
        let mut items: Vec<TagItem> = Vec::new();
        let mut i: usize = 0;
        while i < tags.len()
            invariant
                0 <= i <= tags@.len(),
                items@.len() == i,
                forall|j: int| 0 <= j < i ==> tag_item_matches(#[trigger] items@[j], tags@[j]),
            decreases tags@.len() - i,
        {
            items.push(
                TagItem {
                    title: tags[i].0.title.clone(),
                    article_count: tags[i].1,
                    created_at: tags[i].0.created_at,
                },
            );
            i = i + 1;
        }
        Ok(FindArticleTagsOutput(items))
    }
}

} // verus!
