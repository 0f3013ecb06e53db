//! The remote catalog lister's data model and decision logic.
//!
//! The surrounding application performs the HTTP requests; this module owns
//! everything that can be decided from their results: whether a response
//! status admits the identity or a listing page, which descriptors of a page
//! are kept under a visibility flag, and when the pagination stops.

use vstd::prelude::*;
use crate::errors::SyncError;

verus! {

/// The authenticated identity, as the "whoami" endpoint reports it.
#[derive(Debug)]
pub struct User {
    pub login: String,
    pub name: Option<String>,
    pub email: Option<String>,
}

/// One remote repository descriptor, immutable for the duration of a pass.
///
/// The short `name` becomes the local directory leaf verbatim; `full_name`
/// (owner/name) is what the authenticated clone URL is built from.
#[derive(Debug)]
pub struct Repository {
    pub id: u64,
    pub name: String,
    pub full_name: String,
    pub clone_url: String,
    pub ssh_url: String,
    pub private: bool,
    pub default_branch: String,
    pub updated_at: String,
    pub size: u64,
}

impl Clone for Repository {
    fn clone(&self) -> (r: Self)
        ensures
            r == *self,
    {
        Repository {
            id: self.id,
            name: self.name.clone(),
            full_name: self.full_name.clone(),
            clone_url: self.clone_url.clone(),
            ssh_url: self.ssh_url.clone(),
            private: self.private,
            default_branch: self.default_branch.clone(),
            updated_at: self.updated_at.clone(),
            size: self.size,
        }
    }
}

impl PartialEq for Repository {
    fn eq(&self, other: &Self) -> (r: bool) {
        self.id == other.id && self.name == other.name && self.full_name == other.full_name
            && self.clone_url == other.clone_url && self.ssh_url == other.ssh_url
            && self.private == other.private && self.default_branch == other.default_branch
            && self.updated_at == other.updated_at && self.size == other.size
    }
}

impl vstd::std_specs::cmp::PartialEqSpecImpl for Repository {
    open spec fn obeys_eq_spec() -> bool {
        true
    }

    open spec fn eq_spec(&self, other: &Self) -> bool {
        &&& self.id == other.id
        &&& self.name@ == other.name@
        &&& self.full_name@ == other.full_name@
        &&& self.clone_url@ == other.clone_url@
        &&& self.ssh_url@ == other.ssh_url@
        &&& self.private == other.private
        &&& self.default_branch@ == other.default_branch@
        &&& self.updated_at@ == other.updated_at@
        &&& self.size == other.size
    }
}

/// The fixed page size every listing request asks for.
pub const PER_PAGE: usize = 100;

/// The client-level timeout, in seconds, applied to every catalog request.
pub const REQUEST_TIMEOUT_SECS: u64 = 30;

/// A response status admits its payload exactly when it is a success status.
pub open spec fn spec_status_success(status: u16) -> bool {
    200 <= status && status < 300
}

/// Whether an HTTP status is a success status.
pub fn status_is_success(status: u16) -> (ok: bool)
    ensures
        ok == spec_status_success(status),
{
    200 <= status && status < 300
}

/// Gate for the identity ("whoami") response: any non-success status means
/// the token was refused, and the whole pass fails with `AuthError`.
pub fn check_user_response(status: u16) -> (r: Result<(), SyncError>)
    ensures
        r is Ok <==> spec_status_success(status),
        r matches Err(e) ==> e == SyncError::AuthError,
{
    if status_is_success(status) {
        Ok(())
    } else {
        Err(SyncError::AuthError)
    }
}

/// Gate for a listing-page response: any non-success status aborts the whole
/// listing with `ApiError` carrying that status; no partial result survives.
pub fn check_page_response(status: u16) -> (r: Result<(), SyncError>)
    ensures
        r is Ok <==> spec_status_success(status),
        r matches Err(e) ==> e == (SyncError::ApiError { status }),
{
    if status_is_success(status) {
        Ok(())
    } else {
        Err(SyncError::ApiError { status })
    }
}

/// A descriptor is kept under a visibility flag unless it is private and
/// private repositories were not asked for.
pub open spec fn spec_visible(r: Repository, include_private: bool) -> bool {
    !r.private || include_private
}

/// Whether one descriptor passes the visibility filter.
pub fn repo_visible(r: &Repository, include_private: bool) -> (v: bool)
    ensures
        v == spec_visible(*r, include_private),
{
    !r.private || include_private
}

/// The subsequence of a page that the visibility filter keeps, in page order.
pub open spec fn visible_subset(page: Seq<Repository>, include_private: bool) -> Seq<Repository> {
    page.filter(|r: Repository| spec_visible(r, include_private))
}

/// Keep exactly the descriptors the visibility filter admits, in page order.
#[verifier::loop_isolation(false)]
pub fn filter_visible(page: &Vec<Repository>, include_private: bool) -> (kept: Vec<Repository>)
    ensures
        kept@ == visible_subset(page@, include_private),
{
    let ghost pred = |r: Repository| spec_visible(r, include_private);
    let mut kept: Vec<Repository> = Vec::new();
    let mut i: usize = 0;
    while i < page.len()
        invariant
            i <= page.len(),
            kept@ == page@.take(i as int).filter(pred),
        decreases page.len() - i,
    {
        if repo_visible(&page[i], include_private) {
            kept.push(page[i].clone());
        }
        proof {
            let prev = page@.take(i as int);
            assert(page@.take(i + 1) =~= prev.push(page@[i as int]));
            prev.lemma_filter_push(page@[i as int], pred);
        }
        i += 1;
    }
    proof {
        assert(page@.take(page@.len() as int) =~= page@);
    }
    kept
}

/// With private repositories excluded, the filter keeps exactly the public
/// descriptors; with them included, it keeps the whole page.
pub proof fn lemma_filter_visibility(page: Seq<Repository>)
    ensures
        visible_subset(page, false) == page.filter(|r: Repository| !r.private),
        visible_subset(page, true) == page,
    decreases page.len(),
{
    reveal(Seq::filter);
    if page.len() > 0 {
        lemma_filter_visibility(page.drop_last());
        assert(visible_subset(page, true) =~= page);
        assert(visible_subset(page, false) =~= page.filter(|r: Repository| !r.private));
    } else {
        assert(visible_subset(page, true) =~= page);
        assert(visible_subset(page, false) =~= page.filter(|r: Repository| !r.private));
    }
}

/// A page ends the listing exactly when it is short: strictly fewer items
/// than a full page (an empty page included).
pub open spec fn spec_listing_finished(page_len: nat) -> bool {
    page_len < PER_PAGE as nat
}

/// Pagination terminates on the page that decides it: a short final page
/// stops the listing, a run of exactly-full pages keeps it going, and only
/// an empty page ends such a run.
pub proof fn lemma_pagination_termination(page_len: nat)
    ensures
        page_len < PER_PAGE as nat ==> spec_listing_finished(page_len),
        page_len == PER_PAGE as nat ==> !spec_listing_finished(page_len),
        page_len == 0 ==> spec_listing_finished(page_len),
{
}

/// The state of one paginated listing pass: what has been collected, which
/// page the next request asks for, and whether the listing is over.
pub struct CatalogListing {
    pub repos: Vec<Repository>,
    pub next_page: u64,
    pub finished: bool,
}

impl CatalogListing {
    /// A fresh listing: nothing collected, the first request asks for page 1.
    pub fn new() -> (s: Self)
        ensures
            s.repos@ == Seq::<Repository>::empty(),
            s.next_page == 1,
            !s.finished,
    {
        CatalogListing { repos: Vec::new(), next_page: 1, finished: false }
    }

    /// Absorb one fetched page: keep exactly the descriptors the visibility
    /// filter admits, in order, after everything collected so far; the
    /// listing finishes exactly on a short page, and otherwise the next
    /// request asks for the following page.
    pub fn absorb_page(&mut self, page: &Vec<Repository>, include_private: bool)
        requires
            !old(self).finished,
            old(self).next_page < u64::MAX,
        ensures
            final(self).repos@ == old(self).repos@ + visible_subset(page@, include_private),
            final(self).finished == spec_listing_finished(page@.len()),
            spec_listing_finished(page@.len()) ==> final(self).next_page == old(self).next_page,
            !spec_listing_finished(page@.len()) ==> final(self).next_page == old(
                self,
            ).next_page + 1,
    {
        let mut kept = filter_visible(page, include_private);
        self.repos.append(&mut kept);
        if page.len() < PER_PAGE {
            self.finished = true;
        } else {
            self.next_page = self.next_page + 1;
        }
    }
}

} // verus!
