//! The configured client: builder-based construction, authenticated
//! request formation, the dry-run gate, and the plan behind each
//! operation of the API surface.
//!
//! The client issues no network traffic itself. Each operation yields a
//! fully-formed [`RequestSpec`] (or a plan around one); the caller's
//! transport sends those whose plan allows transmission and hands the
//! decoded response back to this crate's interpreting functions.

use vstd::prelude::*;
use vstd::string::StringExecFns;

use crate::correspondent::Correspondent;
use crate::document::{Document, DocumentBulkEdit};
use crate::errors::PaperlessError;
use crate::page::Page;
use crate::paginate::{Paginator, UrlRewrite};
use crate::text::{i32_to_string, spec_decimal_i32};

verus! {

/// The HTTP method of one outbound request.
#[derive(Debug, Clone, Copy, PartialEq, Eq, Structural)]
pub enum HttpMethod {
    /// A non-mutating read.
    Get,
    /// Deletion of one resource.
    Delete,
    /// A mutation carried as a JSON body.
    PostJson,
    /// A mutation carried as a multipart form with a file.
    PostMultipart,
}

/// Whether a request with this method may be transmitted by a client
/// whose dry-run flag is `noop`: a `GET` always may; every mutating
/// method only when dry-run is off.
pub open spec fn spec_transmit_allowed(noop: bool, method: HttpMethod) -> bool {
    method is Get || !noop
}

/// Law: the dry-run gate. With dry-run set, no mutating method may be
/// transmitted — upload, bulk edit and delete are all withheld — while
/// a `GET` is unaffected by the flag.
pub proof fn lemma_dry_run_gate(noop: bool)
    ensures
        noop ==> !spec_transmit_allowed(noop, HttpMethod::PostMultipart),
        noop ==> !spec_transmit_allowed(noop, HttpMethod::PostJson),
        noop ==> !spec_transmit_allowed(noop, HttpMethod::Delete),
        spec_transmit_allowed(noop, HttpMethod::Get),
{
}

/// The `Authorization` header value stamped on every request.
pub open spec fn spec_token_header(auth: Seq<char>) -> Seq<char> {
    "Token "@ + auth
}

/// One fully-formed outbound request: its method, its absolute URL, and
/// the `Authorization` header value to stamp on it.
#[derive(Debug)]
pub struct RequestSpec {
    /// The HTTP method.
    pub method: HttpMethod,
    /// The absolute URL.
    pub url: String,
    /// The `Authorization` header value.
    pub auth_header: String,
}

/// The plan of one upload: the multipart request, the file to attach,
/// and whether the dry-run gate lets it be transmitted. The request is
/// fully formed either way, so that a dry run still exercises request
/// construction and the file's readability.
#[derive(Debug)]
pub struct UploadPlan {
    /// The multipart `POST` to send.
    pub request: RequestSpec,
    /// The local path of the file to attach as the `document` field.
    pub file_path: String,
    /// Whether the dry-run gate allows transmission.
    pub transmit: bool,
}

/// The plan of one bulk edit: the edit body, the JSON `POST` carrying
/// it, and whether the dry-run gate lets it be transmitted.
#[derive(Debug)]
pub struct BulkEditPlan {
    /// The edit to carry as the JSON body.
    pub edit: DocumentBulkEdit,
    /// The `POST` to send.
    pub request: RequestSpec,
    /// Whether the dry-run gate allows transmission.
    pub transmit: bool,
}

/// The plan of one deletion: the `DELETE` request and whether the
/// dry-run gate lets it be transmitted.
#[derive(Debug)]
pub struct DeletePlan {
    /// The `DELETE` to send.
    pub request: RequestSpec,
    /// Whether the dry-run gate allows transmission.
    pub transmit: bool,
}

/// The listing path for documents, optionally filtered to one
/// correspondent's id.
pub open spec fn spec_documents_path(filter: Option<int>) -> Seq<char> {
    match filter {
        Some(id) => "/api/documents/"@ + "?correspondent__id__in="@ + spec_decimal_i32(id),
        None => "/api/documents/"@,
    }
}

/// The listing path for correspondents, optionally filtered to names
/// containing `filter`.
pub open spec fn spec_correspondents_path(filter: Option<Seq<char>>) -> Seq<char> {
    match filter {
        Some(n) => "/api/correspondents/"@ + "?name__icontains="@ + n,
        None => "/api/correspondents/"@,
    }
}

/// A configured client. Every field is read-only after construction, so
/// one instance may serve any number of logical operations.
#[derive(Debug)]
pub struct PaperlessNgxClient {
    /// The base URL every path is appended to.
    pub url: String,
    /// The credential carried as `Authorization: Token <credential>`.
    pub auth: String,
    /// The dry-run flag: when set, mutating requests are formed but
    /// never transmitted.
    pub noop: bool,
    /// The rewrite applied to each server-supplied next-page URL.
    pub rewrite: UrlRewrite,
}

/// Collects the client's configuration; [`PaperlessNgxClientBuilder::build`]
/// fails with [`PaperlessError::IncompleteConfig`] until both the base
/// URL and the credential are set.
#[derive(Debug)]
pub struct PaperlessNgxClientBuilder {
    /// The base URL, once set.
    pub url: Option<String>,
    /// The credential, once set.
    pub auth: Option<String>,
    /// The dry-run flag; off unless set.
    pub noop: bool,
    /// The next-page URL rewrite; identity unless set.
    pub rewrite: UrlRewrite,
}

impl Default for PaperlessNgxClientBuilder {
    /// A builder with nothing set: no URL, no credential, dry-run off,
    /// identity rewrite.
    fn default() -> (r: Self)
        ensures
            r.url is None,
            r.auth is None,
            !r.noop,
            r.rewrite == UrlRewrite::Identity,
    {
        PaperlessNgxClientBuilder { url: None, auth: None, noop: false, rewrite: UrlRewrite::Identity }
    }
}

impl PaperlessNgxClientBuilder {
    /// Set the base URL.
    pub fn set_url(self, url: &str) -> (r: Self)
        ensures
            r.url is Some && r.url->0@ == url@,
            r.auth == self.auth,
            r.noop == self.noop,
            r.rewrite == self.rewrite,
    {
        PaperlessNgxClientBuilder { url: Some(url.to_owned()), ..self }
    }

    /// Set the credential.
    pub fn set_auth_token(self, auth: &str) -> (r: Self)
        ensures
            r.auth is Some && r.auth->0@ == auth@,
            r.url == self.url,
            r.noop == self.noop,
            r.rewrite == self.rewrite,
    {
        PaperlessNgxClientBuilder { auth: Some(auth.to_owned()), ..self }
    }

    /// Set the dry-run flag.
    pub fn set_no_op(self, noop: bool) -> (r: Self)
        ensures
            r.noop == noop,
            r.url == self.url,
            r.auth == self.auth,
            r.rewrite == self.rewrite,
    {
        PaperlessNgxClientBuilder { noop, ..self }
    }

    /// Choose the rewrite applied to each next-page URL while paging.
    pub fn set_url_rewrite(self, rewrite: UrlRewrite) -> (r: Self)
        ensures
            r.rewrite == rewrite,
            r.url == self.url,
            r.auth == self.auth,
            r.noop == self.noop,
    {
        PaperlessNgxClientBuilder { rewrite, ..self }
    }

    /// Build the client. Succeeds exactly when both the base URL and the
    /// credential are set, and then carries every configured value over
    /// unchanged; otherwise fails with
    /// [`PaperlessError::IncompleteConfig`] before any network activity.
    pub fn build(&self) -> (r: Result<PaperlessNgxClient, PaperlessError>)
        ensures
            r is Ok <==> (self.url is Some && self.auth is Some),
            r is Err ==> r->Err_0 is IncompleteConfig,
            r is Ok ==> r->Ok_0.url@ == self.url->0@ && r->Ok_0.auth@ == self.auth->0@
                && r->Ok_0.noop == self.noop && r->Ok_0.rewrite == self.rewrite,
    {
        match (&self.url, &self.auth) {
            (Some(url), Some(auth)) => {
                let mut client = PaperlessNgxClient::new(url.clone(), auth.clone());
                if self.noop {
                    client.noop = true;
                }
                client.rewrite = self.rewrite;
                Ok(client)
            },
            _ => Err(PaperlessError::IncompleteConfig),
        }
    }
}

impl PaperlessNgxClient {
    fn new(url: String, auth: String) -> (c: PaperlessNgxClient)
        ensures
            c.url == url,
            c.auth == auth,
            !c.noop,
            c.rewrite == UrlRewrite::Identity,
    {
        PaperlessNgxClient { url, auth, noop: false, rewrite: UrlRewrite::Identity }
    }

    /// The absolute URL for a path under the base URL.
    pub fn url_from_path(&self, path: &str) -> (r: String)
        ensures
            r@ == self.url@ + path@,
    {
        self.url.clone().concat(path)
    }

    /// The `Authorization` header value this client stamps on requests.
    pub fn auth_header_value(&self) -> (r: String)
        ensures
            r@ == spec_token_header(self.auth@),
    {
        String::from_str("Token ").concat(self.auth.as_str())
    }

    fn request(&self, method: HttpMethod, url: String) -> (r: RequestSpec)
        ensures
            r.method == method,
            r.url == url,
            r.auth_header@ == spec_token_header(self.auth@),
    {
        RequestSpec { method, url, auth_header: self.auth_header_value() }
    }

    /// A `GET` of an absolute URL, as following a pagination cursor
    /// requires.
    pub fn raw_get_request(&self, url: &str) -> (r: RequestSpec)
        ensures
            r.method is Get,
            r.url@ == url@,
            r.auth_header@ == spec_token_header(self.auth@),
    {
        self.request(HttpMethod::Get, String::from_str(url))
    }

    /// A `GET` of a path under the base URL.
    pub fn get_request(&self, path: &str) -> (r: RequestSpec)
        ensures
            r.method is Get,
            r.url@ == self.url@ + path@,
            r.auth_header@ == spec_token_header(self.auth@),
    {
        self.request(HttpMethod::Get, self.url_from_path(path))
    }

    /// A `DELETE` of a path under the base URL.
    pub fn delete_request(&self, path: &str) -> (r: RequestSpec)
        ensures
            r.method is Delete,
            r.url@ == self.url@ + path@,
            r.auth_header@ == spec_token_header(self.auth@),
    {
        self.request(HttpMethod::Delete, self.url_from_path(path))
    }

    /// The plan of uploading the file at `path`: a multipart `POST` of
    /// `/api/documents/post_document/` with the file as the `document`
    /// field. The request is fully formed even under dry-run, which
    /// withholds only its transmission.
    pub fn upload_plan(&self, path: &str) -> (p: UploadPlan)
        ensures
            p.request.method is PostMultipart,
            p.request.url@ == self.url@ + "/api/documents/post_document/"@,
            p.request.auth_header@ == spec_token_header(self.auth@),
            p.file_path@ == path@,
            p.transmit == spec_transmit_allowed(self.noop, HttpMethod::PostMultipart),
    {
        UploadPlan {
            request: self.request(
                HttpMethod::PostMultipart,
                self.url_from_path("/api/documents/post_document/"),
            ),
            file_path: String::from_str(path),
            transmit: !self.noop,
        }
    }

    fn documents_path(correspondent: Option<&Correspondent>) -> (r: String)
        ensures
            r@ == spec_documents_path(
                match correspondent {
                    Some(c) => Some(c.id as int),
                    None => None,
                },
            ),
    {
        match correspondent {
            Some(c) => {
                let r = String::from_str("/api/documents/").concat("?correspondent__id__in=")
                    .concat(i32_to_string(c.id).as_str());
                proof {
                    assert(r@ =~= spec_documents_path(Some(c.id as int)));
                }
                r
            },
            None => String::from_str("/api/documents/"),
        }
    }

    /// Start listing documents, optionally those of one correspondent:
    /// a fresh walk whose first request is the filtered listing path
    /// under the base URL.
    pub fn documents_start(&self, correspondent: Option<&Correspondent>) -> (p: Paginator<
        Document,
    >)
        ensures
            p.model().collected == Seq::<Document>::empty(),
            p.model().pending == Some(
                self.url@ + spec_documents_path(
                    match correspondent {
                        Some(c) => Some(c.id as int),
                        None => None,
                    },
                ),
            ),
            p.model().rewrite == self.rewrite,
            p.model().budget is None,
            !p.model().truncated,
            p.wf(),
    {
        let path = Self::documents_path(correspondent);
        Paginator::new(self.url_from_path(path.as_str()), self.rewrite)
    }

    /// The single `GET` behind a listing of document ids: the same
    /// filtered path, fetched once rather than walked.
    pub fn document_ids_request(&self, correspondent: Option<&Correspondent>) -> (r: RequestSpec)
        ensures
            r.method is Get,
            r.url@ == self.url@ + spec_documents_path(
                match correspondent {
                    Some(c) => Some(c.id as int),
                    None => None,
                },
            ),
            r.auth_header@ == spec_token_header(self.auth@),
    {
        let path = Self::documents_path(correspondent);
        self.get_request(path.as_str())
    }

    /// The document ids a listing page carries.
    pub fn document_ids_from_page(page: Page<Document>) -> (r: Vec<i32>)
        ensures
            r@ == page.all@,
    {
        page.all
    }

    /// The `GET` of one document by id.
    pub fn document_get_request(&self, id: &i32) -> (r: RequestSpec)
        ensures
            r.method is Get,
            r.url@ == self.url@ + "/api/documents/"@ + spec_decimal_i32(*id as int) + "/"@,
            r.auth_header@ == spec_token_header(self.auth@),
    {
        let path = String::from_str("/api/documents/").concat(i32_to_string(*id).as_str()).concat(
            "/",
        );
        let r = self.get_request(path.as_str());
        proof {
            assert(r.url@ =~= self.url@ + "/api/documents/"@ + spec_decimal_i32(*id as int)
                + "/"@);
        }
        r
    }

    /// The plan of one bulk edit that assigns `correspondent` to every
    /// document in `doc_ids`: a JSON `POST` of `/api/documents/bulk_edit/`
    /// carrying method `set_correspondent` and the correspondent's id as
    /// its one parameter. The body and request are fully formed even
    /// under dry-run, which withholds only transmission.
    pub fn documents_bulk_set_correspondent_plan(
        &self,
        doc_ids: Vec<i32>,
        correspondent: &Correspondent,
    ) -> (p: BulkEditPlan)
        ensures
            p.edit.documents@ == doc_ids@,
            p.edit.method@ == "set_correspondent"@,
            p.edit.parameters@.len() == 1,
            p.edit.parameters@[0].0@ == "correspondent"@,
            p.edit.parameters@[0].1@ == spec_decimal_i32(correspondent.id as int),
            p.request.method is PostJson,
            p.request.url@ == self.url@ + "/api/documents/bulk_edit/"@,
            p.request.auth_header@ == spec_token_header(self.auth@),
            p.transmit == spec_transmit_allowed(self.noop, HttpMethod::PostJson),
    {
        BulkEditPlan {
            edit: DocumentBulkEdit::set_correspondent(doc_ids, correspondent.id),
            request: self.request(
                HttpMethod::PostJson,
                self.url_from_path("/api/documents/bulk_edit/"),
            ),
            transmit: !self.noop,
        }
    }

    fn correspondents_path(name: &Option<String>) -> (r: String)
        ensures
            r@ == spec_correspondents_path(
                match name {
                    Some(n) => Some(n@),
                    None => None,
                },
            ),
    {
        match name {
            Some(n) => {
                let r = String::from_str("/api/correspondents/").concat("?name__icontains=")
                    .concat(n.as_str());
                proof {
                    assert(r@ =~= spec_correspondents_path(Some(n@)));
                }
                r
            },
            None => String::from_str("/api/correspondents/"),
        }
    }

    /// Start listing correspondents, optionally those whose name
    /// contains `name`: a fresh walk whose first request is the filtered
    /// listing path under the base URL.
    pub fn correspondents_start(&self, name: Option<String>) -> (p: Paginator<Correspondent>)
        ensures
            p.model().collected == Seq::<Correspondent>::empty(),
            p.model().pending == Some(
                self.url@ + spec_correspondents_path(
                    match name {
                        Some(n) => Some(n@),
                        None => None,
                    },
                ),
            ),
            p.model().rewrite == self.rewrite,
            p.model().budget is None,
            !p.model().truncated,
            p.wf(),
    {
        let path = Self::correspondents_path(&name);
        Paginator::new(self.url_from_path(path.as_str()), self.rewrite)
    }

    /// The `GET` of one correspondent by id.
    pub fn correspondent_get_request(&self, id: &i32) -> (r: RequestSpec)
        ensures
            r.method is Get,
            r.url@ == self.url@ + "/api/correspondents/"@ + spec_decimal_i32(*id as int) + "/"@,
            r.auth_header@ == spec_token_header(self.auth@),
    {
        let path = String::from_str("/api/correspondents/").concat(
            i32_to_string(*id).as_str(),
        ).concat("/");
        let r = self.get_request(path.as_str());
        proof {
            assert(r.url@ =~= self.url@ + "/api/correspondents/"@ + spec_decimal_i32(*id as int)
                + "/"@);
        }
        r
    }

    /// The plan of deleting one correspondent by id. The request is
    /// fully formed even under dry-run, which withholds only its
    /// transmission.
    pub fn correspondent_delete_plan(&self, id: &i32) -> (p: DeletePlan)
        ensures
            p.request.method is Delete,
            p.request.url@ == self.url@ + "/api/correspondents/"@ + spec_decimal_i32(*id as int)
                + "/"@,
            p.request.auth_header@ == spec_token_header(self.auth@),
            p.transmit == spec_transmit_allowed(self.noop, HttpMethod::Delete),
    {
        let path = String::from_str("/api/correspondents/").concat(
            i32_to_string(*id).as_str(),
        ).concat("/");
        let r = self.delete_request(path.as_str());
        proof {
            assert(r.url@ =~= self.url@ + "/api/correspondents/"@ + spec_decimal_i32(*id as int)
                + "/"@);
        }
        DeletePlan { request: r, transmit: !self.noop }
    }
}

} // verus!
