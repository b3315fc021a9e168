//! The URL-shortening engine: validates target URLs, derives content-
//! addressed short codes, manages a link's lifecycle (created,
//! favourited/unfavourited, soft-deleted) and shapes responses with the
//! fully-qualified short URL.
//!
//! Short codes are the first 8 characters of the lowercase hex digest of
//! the normalized URL, so shortening is deterministic: the same normalized
//! URL always yields the same code, whoever shortens it. This is a known
//! collision property of the scheme, kept deliberately.

use vstd::prelude::*;

use crate::config::Config;
use crate::errors::AppError;
use crate::store::{
    find_link_by_id, find_live_link, find_live_user_by_id, live_user_id, owned_live_links,
    lemma_find_from_some, Url, UrlRepo, UsersRepo,
};

verus! {

/// A shortening request.
#[derive(Debug)]
pub struct UrlRequest {
    pub url: String,
}

/// The outward shape of a link record.
#[derive(Debug, PartialEq, Eq)]
pub struct UrlResponse {
    pub id: String,
    /// The stored target URL.
    pub url: String,
    /// The short form; rendered under the configured host for newly
    /// shortened links and for listings.
    pub short_url: String,
    pub favourite: bool,
    pub deleted: bool,
    /// Unix-epoch creation time, in seconds.
    pub created_at: u64,
}

/// A favourite-flag update request.
#[derive(Debug)]
pub struct FavouriteUrl {
    pub favourite: bool,
}

/// The normalized rendering of `s` as an absolute URL, or nothing when `s`
/// does not parse as one. Names the outcome of `url::Url::parse` followed
/// by the crate's canonical rendering, a function of the string alone.
pub uninterp spec fn normalized_url(s: Seq<char>) -> Option<Seq<char>>;

/// The 32 lowercase hex characters of the md5 digest of the UTF-8 bytes of
/// `s`. Names the outcome of `md5::compute` under its hex rendering, a
/// function of the input alone.
pub uninterp spec fn md5_hex(s: Seq<char>) -> Seq<char>;

/// The short code derived for a normalized URL: the first 8 hex characters
/// of its content digest.
pub open spec fn short_code_of(normalized: Seq<char>) -> Seq<char> {
    md5_hex(normalized).take(8)
}

/// How a link record is shaped for the caller when the short form is
/// rendered under the host `prefix`.
pub open spec fn rendered_response(prefix: Seq<char>, l: Url, resp: UrlResponse) -> bool {
    &&& resp.id@ == l.id@
    &&& resp.url@ == l.url@
    &&& resp.short_url@ == prefix + "/"@ + l.short_url@
    &&& resp.favourite == l.favourite
    &&& resp.deleted == l.deleted
    &&& resp.created_at == l.created_at
}

/// How a link record is shaped for the caller when the short code is
/// passed through bare.
pub open spec fn bare_response(l: Url, resp: UrlResponse) -> bool {
    &&& resp.id@ == l.id@
    &&& resp.url@ == l.url@
    &&& resp.short_url@ == l.short_url@
    &&& resp.favourite == l.favourite
    &&& resp.deleted == l.deleted
    &&& resp.created_at == l.created_at
}

/// Relies on `url::Url::parse` and the crate's canonical rendering: an
/// absolute, well-formed URL is accepted and returned normalized; anything
/// else is rejected.
#[verifier::external_body]
fn parse_url(s: &String) -> (r: Option<String>)
    ensures
        r is Some <==> normalized_url(s@) is Some,
        r matches Some(p) ==> Some(p@) == normalized_url(s@),
{
    match url::Url::parse(s.as_str()) {
        Ok(u) => Some(u.to_string()),
        Err(_) => None,
    }
}

/// Relies on `md5::compute` and its lowercase-hex rendering: the 16 digest
/// bytes print as exactly 32 lowercase hex characters.
#[verifier::external_body]
fn md5_hex_string(s: &String) -> (r: String)
    ensures
        r@ == md5_hex(s@),
        r@.len() == 32,
{
    let digest = md5::compute(s.as_bytes());
    format!("{:x}", digest)
}

/// The URL service.
pub struct UrlService {
    /// The configured host that shortened URLs are rendered under.
    pub prefix: String,
}

impl UrlService {
    pub fn new(config: &Config) -> (r: UrlService)
        ensures
            r.prefix@ == config.service_host@,
    {
        UrlService { prefix: String::clone(&config.service_host) }
    }

    /// The fully-qualified short URL for `code`.
    fn render(&self, code: &String) -> (r: String)
        ensures
            r@ == self.prefix@ + "/"@ + code@,
    {
        let mut out = String::clone(&self.prefix);
        out.append("/");
        out.append(code.as_str());
        out
    }

    /// Shortens `url` for the owner `user_id`: rejects an input that does
    /// not parse as an absolute URL, requires the owner to exist, derives
    /// the content-addressed short code of the normalized URL, persists the
    /// record under the fresh record id `id`, and returns it with the short
    /// form rendered under the configured host.
    pub fn shorten_url(
        &self,
        user_repo: &UsersRepo,
        url_repo: &mut UrlRepo,
        url: &String,
        user_id: &String,
        id: &String,
        now: u64,
    ) -> (r: Result<UrlResponse, AppError>)
        requires
            old(url_repo).wf(),
        ensures
            final(url_repo).wf(),
            normalized_url(url@) is None ==> (r matches Err(e) && e is ValidationError) && final(url_repo).links@ == old(url_repo).links@,
            normalized_url(url@) matches Some(n) ==> match find_live_user_by_id(
                user_repo.users@,
                user_id@,
            ) {
                None => (r matches Err(e) && e is NotFound) && final(url_repo).links@ == old(url_repo).links@,
                Some(_) => {
                    if find_link_by_id(old(url_repo).links@, id@) is Some {
                        r == Err::<UrlResponse, AppError>(AppError::StorageFailure) && final(url_repo).links@ == old(url_repo).links@
                    } else {
                        let l = final(url_repo).links@.last();
                        &&& final(url_repo).links@ == old(url_repo).links@.push(l)
                        &&& l.id@ == id@
                        &&& l.user_id@ == user_id@
                        &&& l.url@ == n
                        &&& l.short_url@ == short_code_of(n)
                        &&& !l.favourite
                        &&& !l.deleted
                        &&& l.created_at == now
                        &&& r matches Ok(resp) && rendered_response(self.prefix@, l, resp)
                    }
                },
            },
    {
        let parsed = match parse_url(url) {
            Some(p) => p,
            None => {
                return Err(AppError::ValidationError(String::from_str("URL Error")));
            },
        };
        let user = match user_repo.get_user_by_id(user_id) {
            Some(u) => u,
            None => {
                return Err(AppError::NotFound(String::from_str("User not found")));
            },
        };
        proof {
            lemma_find_from_some(user_repo.users@, live_user_id(user_id@), 0);
        }
        let hash = md5_hex_string(&parsed);
        let short_url = hash.as_str().substring_char(0, 8).to_owned();
        proof {
            assert(short_url@ == hash@.take(8));
        }
        match url_repo.create(&parsed, &short_url, &user.id, id, now) {
            Ok(l) => {
                let rendered = self.render(&l.short_url);
                Ok(
                    UrlResponse {
                        id: l.id,
                        url: l.url,
                        short_url: rendered,
                        favourite: l.favourite,
                        deleted: l.deleted,
                        created_at: l.created_at,
                    },
                )
            },
            Err(e) => Err(e),
        }
    }

    /// Marks the link `id` deleted, unconditionally on its current state,
    /// and returns the updated record; an unknown id is `NotFound`.
    /// Repeating a delete therefore succeeds again as a no-op-equivalent
    /// write, and a deleted link never leaves that state.
    pub fn delete_url(&self, url_repo: &mut UrlRepo, id: &String) -> (r: Result<
        UrlResponse,
        AppError,
    >)
        requires
            old(url_repo).wf(),
        ensures
            final(url_repo).wf(),
            match find_link_by_id(old(url_repo).links@, id@) {
                None => (r matches Err(e) && e is NotFound) && final(url_repo).links@ == old(url_repo).links@,
                Some(k) => ({
                    let l = (Url { deleted: true, ..old(url_repo).links@[k] });
                    &&& final(url_repo).links@ == old(url_repo).links@.update(k, l)
                    &&& r matches Ok(resp) && bare_response(l, resp)
                }),
            },
    {
        match url_repo.delete(id) {
            Ok(l) => Ok(
                UrlResponse {
                    id: l.id,
                    url: l.url,
                    short_url: l.short_url,
                    favourite: l.favourite,
                    deleted: l.deleted,
                    created_at: l.created_at,
                },
            ),
            Err(e) => Err(e),
        }
    }

    /// Resolves a short code to its stored target: the first non-deleted
    /// link holding `short_url`, or `NotFound` when no live link holds it.
    /// The `url` field of the response is the redirect target.
    pub fn enter_url(&self, url_repo: &UrlRepo, short_url: &String) -> (r: Result<
        UrlResponse,
        AppError,
    >)
        ensures
            match find_live_link(url_repo.links@, short_url@) {
                None => r matches Err(e) && e is NotFound,
                Some(k) => r matches Ok(resp) && bare_response(url_repo.links@[k], resp),
            },
    {
        match url_repo.get_url_by_short_url(short_url) {
            Ok(l) => Ok(
                UrlResponse {
                    id: l.id,
                    url: l.url,
                    short_url: l.short_url,
                    favourite: l.favourite,
                    deleted: l.deleted,
                    created_at: l.created_at,
                },
            ),
            Err(e) => Err(e),
        }
    }

    /// Sets the favourite flag of link `id` to `state`, unconditionally,
    /// and returns the updated record; an unknown id is `NotFound`.
    pub fn favourite_url(&self, url_repo: &mut UrlRepo, id: &String, state: bool) -> (r: Result<
        UrlResponse,
        AppError,
    >)
        requires
            old(url_repo).wf(),
        ensures
            final(url_repo).wf(),
            match find_link_by_id(old(url_repo).links@, id@) {
                None => (r matches Err(e) && e is NotFound) && final(url_repo).links@ == old(url_repo).links@,
                Some(k) => ({
                    let l = (Url { favourite: state, ..old(url_repo).links@[k] });
                    &&& final(url_repo).links@ == old(url_repo).links@.update(k, l)
                    &&& r matches Ok(resp) && bare_response(l, resp)
                }),
            },
    {
        match url_repo.favourite_url(id, state) {
            Ok(l) => Ok(
                UrlResponse {
                    id: l.id,
                    url: l.url,
                    short_url: l.short_url,
                    favourite: l.favourite,
                    deleted: l.deleted,
                    created_at: l.created_at,
                },
            ),
            Err(e) => Err(e),
        }
    }

    /// All non-deleted links of the owner `user_id`, in storage order, each
    /// rendered with the fully-qualified short URL.
    pub fn get_user_urls(&self, url_repo: &UrlRepo, user_id: &String) -> (r: Result<
        Vec<UrlResponse>,
        AppError,
    >)
        ensures
            r matches Ok(v) && v@.len() == owned_live_links(url_repo.links@, user_id@).len()
                && (forall|i: int|
                    0 <= i < v@.len() ==> rendered_response(
                        self.prefix@,
                        owned_live_links(url_repo.links@, user_id@)[i],
                        #[trigger] v@[i],
                    )),
    {
        let urls = url_repo.get_user_urls(user_id);
        let n = urls.len();
        let mut out: Vec<UrlResponse> = Vec::new();
        let mut k: usize = 0;
        while k < n
            invariant
                n == urls@.len(),
                0 <= k <= n,
                out@.len() == k,
                forall|i: int|
                    0 <= i < k ==> rendered_response(self.prefix@, urls@[i], #[trigger] out@[i]),
            decreases n - k,
        {
            let l = &urls[k];
            let rendered = self.render(&l.short_url);
            out.push(
                UrlResponse {
                    id: l.id.clone(),
                    url: l.url.clone(),
                    short_url: rendered,
                    favourite: l.favourite,
                    deleted: l.deleted,
                    created_at: l.created_at,
                },
            );
            k = k + 1;
        }
        Ok(out)
    }
}

} // verus!
