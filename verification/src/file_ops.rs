//! File-attachment use cases: create a metadata record with a signed upload
//! destination, confirm an upload after checking the object exists, and
//! delete. All three are gated like an article update: attachments are part
//! of the article they belong to.

use vstd::prelude::*;
use vstd::string::StringExecFns;

use crate::access::{can_update_article, ensure_can_update_article};
use crate::actor::IdProvider;
use crate::errors::{entry_views, AppError};
use crate::gateways::{
    ArticleGateway, FileMapGateway, FileStorageLinker, FileStorageReader, FileStorageRemover,
    Interactor, UploadUrl,
};
use crate::models::{
    ArticleId, File, FileId, UserId, CONTENT_LENGTH_MAX, CONTENT_LENGTH_MIN, FILE_UPLOAD_TTL_SECS,
};
use crate::validation::{collect_file_form_errors, file_form_errors};

verus! {

#[derive(Debug)]
pub struct CreateArticleFileInput {
    pub article_id: ArticleId,
    pub filename: String,
    pub content_type: String,
}

#[derive(Debug)]
pub struct CreateArticleFileOutput {
    pub id: FileId,
    pub url: String,
    pub method: String,
    pub headers: Vec<(String, String)>,
}

pub struct CreateArticleFile<
    'a,
    P: IdProvider,
    A: ArticleGateway,
    F: FileMapGateway,
    L: FileStorageLinker,
> {
    pub id_provider: &'a P,
    pub article_reader: &'a A,
    pub file_map_gateway: &'a F,
    pub file_storage_linker: &'a L,
}

impl<'a, P: IdProvider, A: ArticleGateway, F: FileMapGateway, L: FileStorageLinker> Interactor<
    CreateArticleFileInput,
    CreateArticleFileOutput,
> for CreateArticleFile<'a, P, A, F, L> {
    fn execute(&self, input: CreateArticleFileInput) -> (r: Result<
        CreateArticleFileOutput,
        AppError,
    >)
        ensures
            ({
                let perms = self.id_provider.spec_permissions();
                let user_state = self.id_provider.spec_user_state();
                let user_id = self.id_provider.spec_user_id();
                let errs = file_form_errors(input.filename@, input.content_type@);
                &&& r is Ok ==> (errs.len() == 0 && exists|author: UserId|
                    can_update_article(perms, user_state, user_id, author))
                &&& r matches Err(AppError::Validation(l)) ==> (entry_views(l@) == errs
                    && errs.len() != 0 && exists|author: UserId|
                    can_update_article(perms, user_state, user_id, author))
                &&& r matches Err(AppError::NotFound(f)) ==> f@ == "article_id"@
            }),
    {
        let article_author = match self.article_reader.get_article_author(&input.article_id) {
            Ok(Some(author_id)) => author_id,
            Ok(None) => { return Err(AppError::NotFound(String::from_str("article_id"))) },
            Err(e) => { return Err(AppError::from_article_gateway(e)) },
        };
        if let Err(e) = ensure_can_update_article(
            self.id_provider.permissions(),
            self.id_provider.user_state(),
            self.id_provider.user_id(),
            &article_author,
        ) {
            return Err(AppError::from_domain(e));
        }
        let errors = collect_file_form_errors(input.filename.as_str(), input.content_type.as_str());
        if errors.len() > 0 {
            return Err(AppError::Validation(errors));
        }
        let file = File::new(input.filename, input.content_type, input.article_id);
        if let Err(e) = self.file_map_gateway.save(&file) {
            return Err(AppError::from_file_map_gateway(e));
        }
        let url_parts = match self.file_storage_linker.upload_link(
            &file.article_id,
            &file.id,
            file.content_type.as_str(),
            CONTENT_LENGTH_MIN,
            CONTENT_LENGTH_MAX,
            FILE_UPLOAD_TTL_SECS,
        ) {
            Ok(u) => u,
            Err(e) => { return Err(AppError::from_file_storage(e)) },
        };
        let UploadUrl { url, method, headers } = url_parts;
        Ok(CreateArticleFileOutput { id: file.id, url, method, headers })
    }
}

/// Decides confirmation from the storage existence check: only an object
/// actually present in storage confirms its file record; a missing object is
/// refused as `NotFound` on the id field, and nothing is marked uploaded.
pub fn check_object_present(found: bool) -> (r: Result<(), AppError>)
    ensures
        r is Ok <==> found,
        r is Err ==> (r matches Err(AppError::NotFound(f)) && f@ == "id"@),
{
    if found {
        Ok(())
    } else {
        Err(AppError::NotFound(String::from_str("id")))
    }
}

#[derive(Debug)]
pub struct ConfirmArticleFileInput {
    pub id: FileId,
}

pub struct ConfirmArticleFile<
    'a,
    P: IdProvider,
    A: ArticleGateway,
    F: FileMapGateway,
    S: FileStorageReader,
> {
    pub id_provider: &'a P,
    pub article_reader: &'a A,
    pub file_map_gateway: &'a F,
    pub file_storage_reader: &'a S,
}

impl<'a, P: IdProvider, A: ArticleGateway, F: FileMapGateway, S: FileStorageReader> Interactor<
    ConfirmArticleFileInput,
    (),
> for ConfirmArticleFile<'a, P, A, F, S> {
    fn execute(&self, input: ConfirmArticleFileInput) -> (r: Result<(), AppError>)
        ensures
            ({
                let perms = self.id_provider.spec_permissions();
                let user_state = self.id_provider.spec_user_state();
                let user_id = self.id_provider.spec_user_id();
                &&& r is Ok ==> exists|author: UserId|
                    can_update_article(perms, user_state, user_id, author)
                &&& !(r matches Err(AppError::Validation(_)))
                &&& r matches Err(AppError::NotFound(f)) ==> f@ == "id"@
            }),
    {
        let mut file = match self.file_map_gateway.get_file(&input.id) {
            Ok(Some(file)) => file,
            Ok(None) => { return Err(AppError::NotFound(String::from_str("id"))) },
            Err(e) => { return Err(AppError::from_file_map_gateway(e)) },
        };
        let article_author = match self.article_reader.get_article_author(&file.article_id) {
            Ok(Some(author_id)) => author_id,
            Ok(None) => {
                return Err(
                    AppError::Critical(String::from_str("file found, but its article was not")),
                )
            },
            Err(e) => { return Err(AppError::from_article_gateway(e)) },
        };
        if let Err(e) = ensure_can_update_article(
            self.id_provider.permissions(),
            self.id_provider.user_state(),
            self.id_provider.user_id(),
            &article_author,
        ) {
            return Err(AppError::from_domain(e));
        }
        let found = match self.file_storage_reader.is_exist_file(&file.article_id, &file.id) {
            Ok(b) => b,
            Err(e) => { return Err(AppError::from_file_storage(e)) },
        };
        if let Err(e) = check_object_present(found) {
            return Err(e);
        }
        file.mark_uploaded();
        match self.file_map_gateway.save(&file) {
            Ok(_) => Ok(()),
            Err(e) => Err(AppError::from_file_map_gateway(e)),
        }
    }
}

#[derive(Debug)]
pub struct DeleteArticleFileInput {
    pub id: FileId,
}

pub struct DeleteArticleFile<
    'a,
    P: IdProvider,
    A: ArticleGateway,
    F: FileMapGateway,
    S: FileStorageRemover,
> {
    pub id_provider: &'a P,
    pub article_reader: &'a A,
    pub file_map_gateway: &'a F,
    pub file_storage_remover: &'a S,
}

impl<'a, P: IdProvider, A: ArticleGateway, F: FileMapGateway, S: FileStorageRemover> Interactor<
    DeleteArticleFileInput,
    (),
> for DeleteArticleFile<'a, P, A, F, S> {
    fn execute(&self, input: DeleteArticleFileInput) -> (r: Result<(), AppError>)
        ensures
            ({
                let perms = self.id_provider.spec_permissions();
                let user_state = self.id_provider.spec_user_state();
                let user_id = self.id_provider.spec_user_id();
                &&& r is Ok ==> exists|author: UserId|
                    can_update_article(perms, user_state, user_id, author)
                &&& !(r matches Err(AppError::Validation(_)))
                &&& r matches Err(AppError::NotFound(f)) ==> f@ == "id"@
            }),
    {
        let file = match self.file_map_gateway.get_file(&input.id) {
            Ok(Some(file)) => file,
            Ok(None) => { return Err(AppError::NotFound(String::from_str("id"))) },
            Err(e) => { return Err(AppError::from_file_map_gateway(e)) },
        };
        let article_author = match self.article_reader.get_article_author(&file.article_id) {
            Ok(Some(author_id)) => author_id,
            Ok(None) => {
                return Err(
                    AppError::Critical(String::from_str("file found, but its article was not")),
                )
            },
            Err(e) => { return Err(AppError::from_article_gateway(e)) },
        };
        if let Err(e) = ensure_can_update_article(
            self.id_provider.permissions(),
            self.id_provider.user_state(),
            self.id_provider.user_id(),
            &article_author,
        ) {
            return Err(AppError::from_domain(e));
        }
        if let Err(e) = self.file_map_gateway.remove(&file.id) {
            return Err(AppError::from_file_map_gateway(e));
        }
        // The stored object exists only once the upload was confirmed; only
        // then is there anything to remove from storage.
        if file.is_uploaded {
            if let Err(e) = self.file_storage_remover.remove(&file.article_id, &file.id) {
                return Err(AppError::from_file_storage(e));
            }
        }
        Ok(())
    }
}

} // verus!
