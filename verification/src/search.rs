//! A whole search at once: the one operation that the dispatcher carries
//! out step by step, given everything that the outside would answer.

use crate::dispatch::{
    answer_view, query_for, validated, Action, Event, Search, SearchDispatcher, SearchError,
    SearchView,
};
use crate::entity::{CommentView, CommunityView, Entity, PostView, UserView};
use crate::kinds::{EntityKind, SearchType, SortType};
use crate::query::{page_of, BackendError, QueryView};
use crate::resolver::RemoteResolutionOutcome;
use crate::response::{SearchResponse, SearchResponseView};
use vstd::prelude::*;

verus! {

/// What the outside answers to each piece of work that a search may ask
/// for.
#[derive(Debug, PartialEq, Eq)]
pub struct Surroundings {
    /// How the resolution of the query ends.
    pub remote: RemoteResolutionOutcome,
    /// The user that the credential of the request stands for, or why it is
    /// not accepted. It is consulted only where the request carries one.
    pub requester: Result<i32, String>,
    pub posts: Result<Vec<PostView>, BackendError>,
    pub comments: Result<Vec<CommentView>, BackendError>,
    pub communities: Result<Vec<CommunityView>, BackendError>,
    pub users: Result<Vec<UserView>, BackendError>,
}

/// The rows that `query` lists from what the storage delivered, or the
/// failure that the storage reported.
pub open spec fn bucket<E: Entity>(query: QueryView, fetched: Result<Vec<E>, BackendError>) -> Result<
    Seq<E>,
    BackendError,
> {
    match fetched {
        Ok(rows) => Ok(page_of(query, rows@)),
        Err(failure) => Err(failure),
    }
}

/// The viewer of a search: nobody where the request carries no credential,
/// else the user that the credential stands for.
pub open spec fn viewer_of(request: SearchView, around: Surroundings) -> Result<
    Option<i32>,
    String,
> {
    match request.auth {
        None => Ok(None),
        Some(_) => match around.requester {
            Ok(id) => Ok(Some(id)),
            Err(reason) => Err(reason),
        },
    }
}

/// The answer of a local search of one kind: the bucket of that kind holds
/// what its query lists, and the other buckets are empty.
pub open spec fn single_answer(
    kind: EntityKind,
    request: SearchView,
    search_type: SearchType,
    sort: SortType,
    viewer: Option<i32>,
    around: Surroundings,
) -> Result<SearchResponseView, SearchError> {
    let query = query_for(kind, request, search_type, sort, viewer);
    let nothing = SearchResponseView::empty(request.type_);
    match kind {
        EntityKind::Post => match bucket(query, around.posts) {
            Ok(posts) => Ok(SearchResponseView { posts, ..nothing }),
            Err(failure) => Err(SearchError::Backend(failure)),
        },
        EntityKind::Comment => match bucket(query, around.comments) {
            Ok(comments) => Ok(SearchResponseView { comments, ..nothing }),
            Err(failure) => Err(SearchError::Backend(failure)),
        },
        EntityKind::Community => match bucket(query, around.communities) {
            Ok(communities) => Ok(SearchResponseView { communities, ..nothing }),
            Err(failure) => Err(SearchError::Backend(failure)),
        },
        EntityKind::User => match bucket(query, around.users) {
            Ok(users) => Ok(SearchResponseView { users, ..nothing }),
            Err(failure) => Err(SearchError::Backend(failure)),
        },
    }
}

/// The answer of a local search for everything: each bucket holds what the
/// query of its kind lists. The first kind whose storage fails, in the
/// order posts, comments, communities, users, fails the search.
pub open spec fn combined_answer(
    request: SearchView,
    sort: SortType,
    viewer: Option<i32>,
    around: Surroundings,
) -> Result<SearchResponseView, SearchError> {
    let all = SearchType::All;
    match bucket(query_for(EntityKind::Post, request, all, sort, viewer), around.posts) {
        Err(failure) => Err(SearchError::Backend(failure)),
        Ok(posts) => match bucket(
            query_for(EntityKind::Comment, request, all, sort, viewer),
            around.comments,
        ) {
            Err(failure) => Err(SearchError::Backend(failure)),
            Ok(comments) => match bucket(
                query_for(EntityKind::Community, request, all, sort, viewer),
                around.communities,
            ) {
                Err(failure) => Err(SearchError::Backend(failure)),
                Ok(communities) => match bucket(
                    query_for(EntityKind::User, request, all, sort, viewer),
                    around.users,
                ) {
                    Err(failure) => Err(SearchError::Backend(failure)),
                    Ok(users) => Ok(
                        SearchResponseView {
                            type_: request.type_,
                            comments,
                            posts,
                            communities,
                            users,
                        },
                    ),
                },
            },
        },
    }
}

/// The answer of the local search of `request`.
pub open spec fn local_answer(
    request: SearchView,
    search_type: SearchType,
    sort: SortType,
    viewer: Option<i32>,
    around: Surroundings,
) -> Result<SearchResponseView, SearchError> {
    match search_type {
        SearchType::All => combined_answer(request, sort, viewer, around),
        SearchType::Comments => single_answer(
            EntityKind::Comment,
            request,
            search_type,
            sort,
            viewer,
            around,
        ),
        SearchType::Communities => single_answer(
            EntityKind::Community,
            request,
            search_type,
            sort,
            viewer,
            around,
        ),
        SearchType::Users => single_answer(
            EntityKind::User,
            request,
            search_type,
            sort,
            viewer,
            around,
        ),
        _ => single_answer(EntityKind::Post, request, search_type, sort, viewer, around),
    }
}

/// What a search of `request` answers in the given surroundings.
///
/// A request that is turned down fails before anything else is looked at.
/// A query that resolves as a remote identifier is answered with the
/// resolved object, under the requested type, whatever type was requested.
/// Otherwise a credential that is not accepted fails the search, and the
/// local search answers.
pub open spec fn outcome(request: SearchView, around: Surroundings) -> Result<
    SearchResponseView,
    SearchError,
> {
    match validated(request) {
        Err(error) => Err(SearchError::Validation(error)),
        Ok((search_type, sort)) => match around.remote {
            RemoteResolutionOutcome::Resolved(response) => Ok(response@.echoing(request.type_)),
            _ => match viewer_of(request, around) {
                Err(reason) => Err(SearchError::Unauthenticated(reason)),
                Ok(viewer) => local_answer(request, search_type, sort, viewer, around),
            },
        },
    }
}

/// Searches for `request` in the given surroundings, by running the
/// dispatcher to its end.
pub fn search(request: Search, around: Surroundings) -> (answer: Result<
    SearchResponse,
    SearchError,
>)
    ensures
        answer_view(answer) == outcome(request@, around),
{
    let (dispatcher, action) = SearchDispatcher::start(request);
    let (dispatcher, action) = match action {
        Action::Resolve { candidate: _ } => dispatcher.step(Event::Remote(around.remote)),
        other => (dispatcher, other),
    };
    let (dispatcher, action) = match action {
        Action::Authenticate { credential: _ } => dispatcher.step(
            Event::Authenticated(around.requester),
        ),
        other => (dispatcher, other),
    };
    let (dispatcher, action) = match action {
        Action::Load { kind: EntityKind::Post, viewer: _ } => dispatcher.step(
            Event::Posts(around.posts),
        ),
        other => (dispatcher, other),
    };
    let (dispatcher, action) = match action {
        Action::Load { kind: EntityKind::Comment, viewer: _ } => dispatcher.step(
            Event::Comments(around.comments),
        ),
        other => (dispatcher, other),
    };
    let (dispatcher, action) = match action {
        Action::Load { kind: EntityKind::Community, viewer: _ } => dispatcher.step(
            Event::Communities(around.communities),
        ),
        other => (dispatcher, other),
    };
    let (_, action) = match action {
        Action::Load { kind: EntityKind::User, viewer: _ } => dispatcher.step(
            Event::Users(around.users),
        ),
        other => (dispatcher, other),
    };
    match action {
        Action::Finish(answer) => answer,
        _ => Err(SearchError::OutOfTurn),
    }
}

} // verus!
