//! What the three endpoints of the service answer: the page after a creation, the home page,
//! and the redirect for an identifier. Each takes and returns plain values; a web front end
//! reads the request and sends the answer.

use vstd::prelude::*;
use vstd::string::*;
use crate::error::StorageError;
use crate::page::{
    blank_page, page_with_message, render_page, substitute, INDEX_TEMPLATE, MESSAGE_PLACEHOLDER,
};
use crate::storage::{found_view, Storage};
use crate::table::{lookup_outcome, records_after_store, store_outcome, RedirectView};

verus! {

/// Shown after a redirect was created.
pub const CREATED_MESSAGE: &'static str = "Redirect created successfully";

/// Shown when the identifier of a new redirect is taken.
pub const DUPLICATE_MESSAGE: &'static str = "ID already exists";

/// Shown when a redirect could not be created for any other reason.
pub const CREATE_FAILED_MESSAGE: &'static str = "An error occurred while creating the redirect";

/// Where a request for an unknown identifier is sent: the home page, with the reason in the
/// query. The home page does not read the query and shows no message.
pub const NOT_FOUND_LOCATION: &'static str = "/?message=Redirect not found&success=false";

/// Where a request is sent when the lookup failed for any other reason.
pub const LOOKUP_FAILED_LOCATION: &'static str =
    "/?message=An error occurred while looking up the redirect&success=false";

/// The fields of the creation form. None is checked: an empty string is a value like any other.
pub struct CreateRedirectRequest {
    /// The identifier that the new redirect is to have.
    pub short_name: String,
    /// Where it is to lead.
    pub url: String,
    /// Who asks for it.
    pub owner: String,
}

/// Whether clients may remember a redirect.
#[derive(Debug, Clone, Copy, PartialEq, Eq)]
pub enum RedirectKind {
    /// Clients may cache the target and need not ask again.
    Permanent,
    /// Clients must ask again each time.
    Temporary,
}

/// A redirect response: its kind and where it sends the client.
#[derive(Debug)]
pub struct Redirection {
    pub kind: RedirectKind,
    pub location: String,
}

/// A redirect response as the contracts see it.
pub struct RedirectionView {
    pub kind: RedirectKind,
    pub location: Seq<char>,
}

impl View for Redirection {
    type V = RedirectionView;

    open spec fn view(&self) -> RedirectionView {
        RedirectionView { kind: self.kind, location: self.location@ }
    }
}

/// The page after a creation that succeeded.
pub open spec fn created_page() -> Seq<char> {
    page_with_message(CREATED_MESSAGE@, true)
}

/// The page after a creation under an identifier that was taken.
pub open spec fn duplicate_page() -> Seq<char> {
    page_with_message(DUPLICATE_MESSAGE@, false)
}

/// The page after a creation that failed for any other reason.
pub open spec fn create_failed_page() -> Seq<char> {
    page_with_message(CREATE_FAILED_MESSAGE@, false)
}

/// The page that answers a creation, given what the storage returned.
pub open spec fn creation_page(stored: Result<(), StorageError>) -> Seq<char> {
    match stored {
        Ok(_) => created_page(),
        Err(StorageError::AlreadyExists) => duplicate_page(),
        Err(_) => create_failed_page(),
    }
}

/// The redirect that answers a request for an identifier, given what the storage returned.
pub open spec fn redirection_for(found: Result<Seq<char>, StorageError>) -> RedirectionView {
    match found {
        Ok(url) => RedirectionView { kind: RedirectKind::Permanent, location: url },
        Err(StorageError::NotFound) => RedirectionView {
            kind: RedirectKind::Temporary,
            location: NOT_FOUND_LOCATION@,
        },
        Err(_) => RedirectionView {
            kind: RedirectKind::Temporary,
            location: LOOKUP_FAILED_LOCATION@,
        },
    }
}

/// Builds the page that answers a creation: always the whole page, with the message that fits
/// what the storage returned.
pub fn render_creation(stored: &Result<(), StorageError>) -> (page: String)
    ensures
        page@ == creation_page(*stored),
{
    match stored {
        Ok(_) => render_page(CREATED_MESSAGE, true),
        Err(StorageError::AlreadyExists) => render_page(DUPLICATE_MESSAGE, false),
        Err(_) => render_page(CREATE_FAILED_MESSAGE, false),
    }
}

/// Builds the redirect that answers a request for an identifier: permanent to the URL that was
/// found, temporary to the home page otherwise.
pub fn redirect_response(found: Result<String, StorageError>) -> (response: Redirection)
    ensures
        response@ == redirection_for(found_view(found)),
{
    match found {
        Ok(url) => Redirection { kind: RedirectKind::Permanent, location: url },
        Err(StorageError::NotFound) => Redirection {
            kind: RedirectKind::Temporary,
            location: String::from_str(NOT_FOUND_LOCATION),
        },
        Err(_) => Redirection {
            kind: RedirectKind::Temporary,
            location: String::from_str(LOOKUP_FAILED_LOCATION),
        },
    }
}

/// Answers a request for the home page: the page with an empty message region.
pub fn index() -> (page: String)
    ensures
        page@ == blank_page(),
{
    let page = substitute(INDEX_TEMPLATE, MESSAGE_PLACEHOLDER, "");
    proof {
        reveal_strlit("");
        assert(""@ =~= Seq::<char>::empty());
    }
    page
}

/// Answers a creation: stores the redirect, once, and builds the page that says how it went.
/// Which of the three pages comes back depends on what the storage holds.
pub fn create_redirect<S: Storage>(storage: &S, request: &CreateRedirectRequest) -> (page: String)
    ensures
        exists|stored: Result<(), StorageError>|
            {
                &&& #[trigger] storage.store_may_return(
                    request.short_name@,
                    request.url@,
                    request.owner@,
                    stored,
                )
                &&& page@ == creation_page(stored)
            },
        page@ == created_page() || page@ == duplicate_page() || page@ == create_failed_page(),
{
    let stored = storage.store(
        request.short_name.as_str(),
        request.url.as_str(),
        request.owner.as_str(),
    );
    render_creation(&stored)
}

/// Answers a request for an identifier: looks it up, once, and builds the redirect. A
/// temporary redirect leads to the home page, whatever the storage holds.
pub fn handle_redirect<S: Storage>(storage: &S, id: &str) -> (response: Redirection)
    ensures
        exists|found: Result<Seq<char>, StorageError>|
            {
                &&& #[trigger] storage.lookup_may_return(id@, found)
                &&& response@ == redirection_for(found)
            },
        response.kind == RedirectKind::Temporary ==> response.location@ == NOT_FOUND_LOCATION@
            || response.location@ == LOOKUP_FAILED_LOCATION@,
{
    let found = storage.lookup(id);
    let ghost found_as_seen = found_view(found);
    let response = redirect_response(found);
    assert(storage.lookup_may_return(id@, found_as_seen) && response@ == redirection_for(
        found_as_seen,
    ));
    response
}

/// A creation under a free identifier is answered with the page of success, and a request for
/// that identifier is then redirected for good to the URL that was given.
pub proof fn law_created_redirect_is_served(
    records: Map<Seq<char>, RedirectView>,
    id: Seq<char>,
    url: Seq<char>,
    owner: Seq<char>,
)
    requires
        !records.contains_key(id),
    ensures
        creation_page(store_outcome(records, id)) == created_page(),
        redirection_for(lookup_outcome(records_after_store(records, id, url, owner), id)) == (
        RedirectionView { kind: RedirectKind::Permanent, location: url }),
{
}

/// A creation under an identifier that is taken is answered with the page of the conflict, and
/// a request for that identifier is redirected as it was before.
pub proof fn law_repeated_creation_is_refused(
    records: Map<Seq<char>, RedirectView>,
    id: Seq<char>,
    url: Seq<char>,
    owner: Seq<char>,
)
    requires
        records.contains_key(id),
    ensures
        creation_page(store_outcome(records, id)) == duplicate_page(),
        redirection_for(lookup_outcome(records_after_store(records, id, url, owner), id))
            == redirection_for(lookup_outcome(records, id)),
        redirection_for(lookup_outcome(records, id)) == (RedirectionView {
            kind: RedirectKind::Permanent,
            location: records[id].target_url,
        }),
{
}

/// A request for an identifier that the table does not hold is sent to the home page, and not
/// for good.
pub proof fn law_unknown_identifier_goes_home(
    records: Map<Seq<char>, RedirectView>,
    id: Seq<char>,
)
    requires
        !records.contains_key(id),
    ensures
        redirection_for(lookup_outcome(records, id)) == (RedirectionView {
            kind: RedirectKind::Temporary,
            location: NOT_FOUND_LOCATION@,
        }),
{
}

} // verus!
