//! The search dispatcher: what a search does, in which order, and what it
//! answers.
//!
//! The dispatcher decides; its caller does the outside work. `start`
//! validates the request and asks for the first piece of work; each result
//! is handed to `step`, which asks for the next piece or ends the search.
//! A request passes through these phases: it is validated, the query is
//! resolved as a remote identifier, the requester is authenticated if the
//! request carries a credential, the rows of each requested kind are
//! loaded and queried, and the answer is assembled.

use crate::entity::{CommentView, CommunityView, PostView, UserView};
use crate::kinds::{
    search_type_named, sort_type_named, EntityKind, SearchType, SortType, ValidationError,
};
use crate::query::{
    page_of, BackendError, CommentQueryBuilder, CommunityQueryBuilder, CriterionView,
    PostQueryBuilder, QueryError, QueryView, UserQueryBuilder,
};
use crate::resolver::RemoteResolutionOutcome;
use crate::response::{SearchResponse, SearchResponseView};
use vstd::prelude::*;

verus! {

/// A search request as it arrives.
#[derive(Debug, PartialEq, Eq)]
pub struct Search {
    q: String,
    type_: String,
    community_id: Option<i32>,
    sort: String,
    page: Option<i64>,
    limit: Option<i64>,
    auth: Option<String>,
}

/// A search request as contracts see it.
pub struct SearchView {
    pub q: Seq<char>,
    pub type_: Seq<char>,
    pub community_id: Option<i32>,
    pub sort: Seq<char>,
    pub page: Option<i64>,
    pub limit: Option<i64>,
    pub auth: Option<Seq<char>>,
}

impl View for Search {
    type V = SearchView;

    closed spec fn view(&self) -> SearchView {
        SearchView {
            q: self.q@,
            type_: self.type_@,
            community_id: self.community_id,
            sort: self.sort@,
            page: self.page,
            limit: self.limit,
            auth: match self.auth {
                Some(credential) => Some(credential@),
                None => None,
            },
        }
    }
}

impl Search {
    /// A request for `q`, of the type and in the order that `type_` and
    /// `sort` spell.
    pub fn new(
        q: String,
        type_: String,
        community_id: Option<i32>,
        sort: String,
        page: Option<i64>,
        limit: Option<i64>,
        auth: Option<String>,
    ) -> (request: Search)
        ensures
            request@ == (SearchView {
                q: q@,
                type_: type_@,
                community_id,
                sort: sort@,
                page,
                limit,
                auth: match auth {
                    Some(credential) => Some(credential@),
                    None => None,
                },
            }),
    {
        Search { q, type_, community_id, sort, page, limit, auth }
    }
}

/// Why a search gave no answer.
#[derive(Debug, PartialEq, Eq)]
pub enum SearchError {
    /// The request was turned down before any work was done for it.
    Validation(ValidationError),
    /// The storage failed while the rows of one kind were loaded.
    Backend(BackendError),
    /// The credential of the request was not accepted.
    Unauthenticated(String),
    /// The dispatcher was handed a result that it had not asked for.
    OutOfTurn,
}

/// What a search is waiting for.
#[derive(Clone, Copy, Debug, PartialEq, Eq, Structural)]
pub enum Phase {
    /// The query is being resolved as a remote identifier.
    ResolvingRemote,
    /// The credential of the request is being checked.
    Authenticating,
    /// The rows of the given kind are being loaded.
    LocalSearch(EntityKind),
    /// The search has ended.
    Done,
}

/// What the caller of the dispatcher is to do next.
#[derive(Debug, PartialEq, Eq)]
pub enum Action {
    /// Resolve `candidate` as a remote identifier.
    Resolve { candidate: String },
    /// Find the user that `credential` stands for.
    Authenticate { credential: String },
    /// Load the rows of `kind`, with what they hold of `viewer`'s own.
    Load { kind: EntityKind, viewer: Option<i32> },
    /// The search has ended with this answer or error.
    Finish(Result<SearchResponse, SearchError>),
}

/// An action as contracts see it.
pub enum ActionView {
    Resolve { candidate: Seq<char> },
    Authenticate { credential: Seq<char> },
    Load { kind: EntityKind, viewer: Option<i32> },
    Finish(Result<SearchResponseView, SearchError>),
}

/// An answer or error as contracts see it.
pub open spec fn answer_view(answer: Result<SearchResponse, SearchError>) -> Result<
    SearchResponseView,
    SearchError,
> {
    match answer {
        Ok(response) => Ok(response@),
        Err(error) => Err(error),
    }
}

impl View for Action {
    type V = ActionView;

    open spec fn view(&self) -> ActionView {
        match *self {
            Action::Resolve { candidate } => ActionView::Resolve { candidate: candidate@ },
            Action::Authenticate { credential } => ActionView::Authenticate {
                credential: credential@,
            },
            Action::Load { kind, viewer } => ActionView::Load { kind, viewer },
            Action::Finish(answer) => ActionView::Finish(answer_view(answer)),
        }
    }
}

/// The result of a piece of outside work.
#[derive(Debug, PartialEq, Eq)]
pub enum Event {
    /// How the resolution of the query ended.
    Remote(RemoteResolutionOutcome),
    /// The user that the credential stands for, or why it was not accepted.
    Authenticated(Result<i32, String>),
    Posts(Result<Vec<PostView>, BackendError>),
    Comments(Result<Vec<CommentView>, BackendError>),
    Communities(Result<Vec<CommunityView>, BackendError>),
    Users(Result<Vec<UserView>, BackendError>),
}

/// A search under way.
pub struct SearchDispatcher {
    request: Search,
    search_type: SearchType,
    sort: SortType,
    viewer: Option<i32>,
    phase: Phase,
    posts: Vec<PostView>,
    comments: Vec<CommentView>,
    communities: Vec<CommunityView>,
    users: Vec<UserView>,
}

/// A search under way as contracts see it.
pub struct DispatcherView {
    pub request: SearchView,
    pub search_type: SearchType,
    pub sort: SortType,
    pub viewer: Option<i32>,
    pub phase: Phase,
    pub posts: Seq<PostView>,
    pub comments: Seq<CommentView>,
    pub communities: Seq<CommunityView>,
    pub users: Seq<UserView>,
}

/// The type and order that a request names, or why the request is turned
/// down: its type is unknown, else its sort is unknown, else its page is
/// less than 1, else its limit is less than 1.
pub open spec fn validated(request: SearchView) -> Result<(SearchType, SortType), ValidationError> {
    match (search_type_named(request.type_), sort_type_named(request.sort)) {
        (None, _) => Err(ValidationError::UnknownSearchType),
        (Some(_), None) => Err(ValidationError::UnknownSortType),
        (Some(search_type), Some(sort)) => {
            if request.page matches Some(p) && p < 1 {
                Err(ValidationError::PageOutOfRange)
            } else if request.limit matches Some(l) && l < 1 {
                Err(ValidationError::LimitOutOfRange)
            } else {
                Ok((search_type, sort))
            }
        },
    }
}

/// The kind whose rows a search of `search_type` loads first.
pub open spec fn first_kind(search_type: SearchType) -> EntityKind {
    match search_type {
        SearchType::Comments => EntityKind::Comment,
        SearchType::Communities => EntityKind::Community,
        SearchType::Users => EntityKind::User,
        _ => EntityKind::Post,
    }
}

/// The kind whose rows a search of `search_type` loads after those of
/// `kind`, if any. Only a search for everything loads more than one kind.
pub open spec fn next_kind(search_type: SearchType, kind: EntityKind) -> Option<EntityKind> {
    if search_type == SearchType::All {
        match kind {
            EntityKind::Post => Some(EntityKind::Comment),
            EntityKind::Comment => Some(EntityKind::Community),
            EntityKind::Community => Some(EntityKind::User),
            EntityKind::User => None,
        }
    } else {
        None
    }
}

/// The query that a search runs on the rows of `kind`.
///
/// Posts are matched against the link in a search by link and against the
/// term otherwise, within the community of the request, flagged rows
/// included. The other kinds are matched against the term, across
/// communities, flagged rows excluded. The viewer is named for posts and
/// comments, but not in a search by link.
pub open spec fn query_for(
    kind: EntityKind,
    request: SearchView,
    search_type: SearchType,
    sort: SortType,
    viewer: Option<i32>,
) -> QueryView {
    match kind {
        EntityKind::Post => QueryView {
            criterion: if search_type == SearchType::Url {
                CriterionView::Url(request.q)
            } else {
                CriterionView::Text(request.q)
            },
            community: request.community_id,
            show_nsfw: true,
            sort,
            viewer: if search_type == SearchType::Url {
                None
            } else {
                viewer
            },
            page: request.page,
            limit: request.limit,
        },
        EntityKind::Comment => QueryView {
            criterion: CriterionView::Text(request.q),
            community: None,
            show_nsfw: false,
            sort,
            viewer,
            page: request.page,
            limit: request.limit,
        },
        _ => QueryView {
            criterion: CriterionView::Text(request.q),
            community: None,
            show_nsfw: false,
            sort,
            viewer: None,
            page: request.page,
            limit: request.limit,
        },
    }
}

impl DispatcherView {
    /// A search that has not ended holds the type and order that its
    /// request names.
    pub open spec fn consistent(self) -> bool {
        self.phase != Phase::Done ==> validated(self.request) == Ok::<
            (SearchType, SortType),
            ValidationError,
        >((self.search_type, self.sort))
    }

    /// The search after it has ended: its buckets have been handed out.
    pub open spec fn ended(self) -> DispatcherView {
        DispatcherView {
            phase: Phase::Done,
            posts: Seq::empty(),
            comments: Seq::empty(),
            communities: Seq::empty(),
            users: Seq::empty(),
            ..self
        }
    }

    /// The search ends with `error`.
    pub open spec fn fail(self, error: SearchError) -> (DispatcherView, ActionView) {
        (self.ended(), ActionView::Finish(Err(error)))
    }

    /// The query that the search runs on the rows of `kind`.
    pub open spec fn query(self, kind: EntityKind) -> QueryView {
        query_for(kind, self.request, self.search_type, self.sort, self.viewer)
    }

    /// The answer that the search has assembled.
    pub open spec fn answer(self) -> SearchResponseView {
        SearchResponseView {
            type_: self.request.type_,
            comments: self.comments,
            posts: self.posts,
            communities: self.communities,
            users: self.users,
        }
    }

    /// The search asks for the rows of `kind`.
    pub open spec fn load(self, kind: EntityKind) -> (DispatcherView, ActionView) {
        (
            DispatcherView { phase: Phase::LocalSearch(kind), ..self },
            ActionView::Load { kind, viewer: self.query(kind).viewer },
        )
    }

    /// The search goes on behind the rows of `kind`: to the next kind, or
    /// to its answer.
    pub open spec fn advance(self, kind: EntityKind) -> (DispatcherView, ActionView) {
        match next_kind(self.search_type, kind) {
            Some(next) => self.load(next),
            None => (self.ended(), ActionView::Finish(Ok(self.answer()))),
        }
    }
}

/// How a search of `request` begins: a request that is turned down ends at
/// once, and every other asks for its query to be resolved.
pub open spec fn start_spec(request: SearchView) -> (DispatcherView, ActionView) {
    let fresh = DispatcherView {
        request,
        search_type: SearchType::All,
        sort: SortType::Hot,
        viewer: None,
        phase: Phase::Done,
        posts: Seq::empty(),
        comments: Seq::empty(),
        communities: Seq::empty(),
        users: Seq::empty(),
    };
    match validated(request) {
        Err(error) => fresh.fail(SearchError::Validation(error)),
        Ok((search_type, sort)) => (
            DispatcherView { search_type, sort, phase: Phase::ResolvingRemote, ..fresh },
            ActionView::Resolve { candidate: request.q },
        ),
    }
}

/// How a search goes on when it is handed `event`.
///
/// A resolved query ends the search with the resolved answer under the
/// requested type. An unresolved one leads to authentication where the
/// request carries a credential, and to the first kind of rows otherwise.
/// An accepted credential names the viewer; a rejected one ends the search.
/// Loaded rows are queried and fill the bucket of their kind; a failure of
/// the storage ends the search. A result that the search is not waiting
/// for ends it as out of turn.
pub open spec fn step_spec(search: DispatcherView, event: Event) -> (DispatcherView, ActionView) {
    match (search.phase, event) {
        (Phase::ResolvingRemote, Event::Remote(outcome)) => match outcome {
            RemoteResolutionOutcome::Resolved(response) => (
                search.ended(),
                ActionView::Finish(Ok(response@.echoing(search.request.type_))),
            ),
            _ => match search.request.auth {
                Some(credential) => (
                    DispatcherView { phase: Phase::Authenticating, ..search },
                    ActionView::Authenticate { credential },
                ),
                None => search.load(first_kind(search.search_type)),
            },
        },
        (Phase::Authenticating, Event::Authenticated(requester)) => match requester {
            Ok(id) => (DispatcherView { viewer: Some(id), ..search }).load(
                first_kind(search.search_type),
            ),
            Err(reason) => search.fail(SearchError::Unauthenticated(reason)),
        },
        (Phase::LocalSearch(EntityKind::Post), Event::Posts(fetched)) => match fetched {
            Ok(rows) => (DispatcherView {
                posts: page_of(search.query(EntityKind::Post), rows@),
                ..search
            }).advance(EntityKind::Post),
            Err(failure) => search.fail(SearchError::Backend(failure)),
        },
        (Phase::LocalSearch(EntityKind::Comment), Event::Comments(fetched)) => match fetched {
            Ok(rows) => (DispatcherView {
                comments: page_of(search.query(EntityKind::Comment), rows@),
                ..search
            }).advance(EntityKind::Comment),
            Err(failure) => search.fail(SearchError::Backend(failure)),
        },
        (Phase::LocalSearch(EntityKind::Community), Event::Communities(fetched)) => match fetched {
            Ok(rows) => (DispatcherView {
                communities: page_of(search.query(EntityKind::Community), rows@),
                ..search
            }).advance(EntityKind::Community),
            Err(failure) => search.fail(SearchError::Backend(failure)),
        },
        (Phase::LocalSearch(EntityKind::User), Event::Users(fetched)) => match fetched {
            Ok(rows) => (DispatcherView {
                users: page_of(search.query(EntityKind::User), rows@),
                ..search
            }).advance(EntityKind::User),
            Err(failure) => search.fail(SearchError::Backend(failure)),
        },
        _ => search.fail(SearchError::OutOfTurn),
    }
}

impl View for SearchDispatcher {
    type V = DispatcherView;

    closed spec fn view(&self) -> DispatcherView {
        DispatcherView {
            request: self.request@,
            search_type: self.search_type,
            sort: self.sort,
            viewer: self.viewer,
            phase: self.phase,
            posts: self.posts@,
            comments: self.comments@,
            communities: self.communities@,
            users: self.users@,
        }
    }
}

/// The kind whose rows a search of `search_type` loads first.
fn first_kind_of(search_type: SearchType) -> (kind: EntityKind)
    ensures
        kind == first_kind(search_type),
{
    match search_type {
        SearchType::Comments => EntityKind::Comment,
        SearchType::Communities => EntityKind::Community,
        SearchType::Users => EntityKind::User,
        _ => EntityKind::Post,
    }
}

/// The kind whose rows a search of `search_type` loads after those of
/// `kind`.
fn next_kind_of(search_type: SearchType, kind: EntityKind) -> (next: Option<EntityKind>)
    ensures
        next == next_kind(search_type, kind),
{
    match search_type {
        SearchType::All => match kind {
            EntityKind::Post => Some(EntityKind::Comment),
            EntityKind::Comment => Some(EntityKind::Community),
            EntityKind::Community => Some(EntityKind::User),
            EntityKind::User => None,
        },
        _ => None,
    }
}

impl SearchDispatcher {
    #[verifier::type_invariant]
    spec fn holds_what_the_request_names(self) -> bool {
        self@.consistent()
    }

    /// The phase the search is in.
    pub fn phase(&self) -> (phase: Phase)
        ensures
            phase == self@.phase,
    {
        self.phase
    }

    /// Begins the search of `request`.
    pub fn start(request: Search) -> (next: (SearchDispatcher, Action))
        ensures
            (next.0@, next.1@) == start_spec(request@),
            next.0@.consistent(),
    {
        let parsed_type = SearchType::from_str(request.type_.as_str());
        let parsed_sort = SortType::from_str(request.sort.as_str());
        let page_fits = match request.page {
            Some(p) => p >= 1,
            None => true,
        };
        let limit_fits = match request.limit {
            Some(l) => l >= 1,
            None => true,
        };
        let checked: Result<(SearchType, SortType), ValidationError> = match (
            parsed_type,
            parsed_sort,
        ) {
            (Err(error), _) => Err(error),
            (Ok(_), Err(error)) => Err(error),
            (Ok(search_type), Ok(sort)) => {
                if !page_fits {
                    Err(ValidationError::PageOutOfRange)
                } else if !limit_fits {
                    Err(ValidationError::LimitOutOfRange)
                } else {
                    Ok((search_type, sort))
                }
            },
        };
        assert(checked == validated(request@));
        match checked {
            Err(error) => (
                SearchDispatcher {
                    request,
                    search_type: SearchType::All,
                    sort: SortType::Hot,
                    viewer: None,
                    phase: Phase::Done,
                    posts: Vec::new(),
                    comments: Vec::new(),
                    communities: Vec::new(),
                    users: Vec::new(),
                },
                Action::Finish(Err(SearchError::Validation(error))),
            ),
            Ok((search_type, sort)) => {
                let candidate = request.q.clone();
                (
                    SearchDispatcher {
                        request,
                        search_type,
                        sort,
                        viewer: None,
                        phase: Phase::ResolvingRemote,
                        posts: Vec::new(),
                        comments: Vec::new(),
                        communities: Vec::new(),
                        users: Vec::new(),
                    },
                    Action::Resolve { candidate },
                )
            },
        }
    }

    /// Ends the search with `answer`.
    fn finish(self, answer: Result<SearchResponse, SearchError>) -> (next: (
        SearchDispatcher,
        Action,
    ))
        ensures
            next.0@ == self@.ended(),
            next.1@ == ActionView::Finish(answer_view(answer)),
    {
        (
            SearchDispatcher {
                request: self.request,
                search_type: self.search_type,
                sort: self.sort,
                viewer: self.viewer,
                phase: Phase::Done,
                posts: Vec::new(),
                comments: Vec::new(),
                communities: Vec::new(),
                users: Vec::new(),
            },
            Action::Finish(answer),
        )
    }

    /// Asks for the rows of `kind`.
    fn load(self, kind: EntityKind) -> (next: (SearchDispatcher, Action))
        requires
            self@.phase != Phase::Done,
        ensures
            (next.0@, next.1@) == self@.load(kind),
    {
        proof {
            use_type_invariant(&self);
        }
        let viewer = match kind {
            EntityKind::Post => match self.search_type {
                SearchType::Url => None,
                _ => self.viewer,
            },
            EntityKind::Comment => self.viewer,
            _ => None,
        };
        (
            SearchDispatcher {
                request: self.request,
                search_type: self.search_type,
                sort: self.sort,
                viewer: self.viewer,
                phase: Phase::LocalSearch(kind),
                posts: self.posts,
                comments: self.comments,
                communities: self.communities,
                users: self.users,
            },
            Action::Load { kind, viewer },
        )
    }

    /// Goes on behind the rows of `kind`.
    fn advance(self, kind: EntityKind) -> (next: (SearchDispatcher, Action))
        requires
            self@.phase != Phase::Done,
        ensures
            (next.0@, next.1@) == self@.advance(kind),
    {
        match next_kind_of(self.search_type, kind) {
            Some(next) => self.load(next),
            None => {
                let response = SearchResponse::aggregate(
                    self.request.type_.clone(),
                    Some(self.posts),
                    Some(self.comments),
                    Some(self.communities),
                    Some(self.users),
                );
                let ended = SearchDispatcher {
                    request: self.request,
                    search_type: self.search_type,
                    sort: self.sort,
                    viewer: self.viewer,
                    phase: Phase::Done,
                    posts: Vec::new(),
                    comments: Vec::new(),
                    communities: Vec::new(),
                    users: Vec::new(),
                };
                (ended, Action::Finish(Ok(response)))
            },
        }
    }

    /// Takes the result of the work that was asked for last.
    pub fn step(self, event: Event) -> (next: (SearchDispatcher, Action))
        ensures
            (next.0@, next.1@) == step_spec(self@, event),
            next.0@.consistent(),
    {
        proof {
            use_type_invariant(&self);
        }
        match (self.phase, event) {
            (Phase::ResolvingRemote, Event::Remote(outcome)) => match outcome {
                RemoteResolutionOutcome::Resolved(response) => {
                    let echoed = response.echoing(self.request.type_.clone());
                    self.finish(Ok(echoed))
                },
                _ => {
                    let credential = match &self.request.auth {
                        Some(credential) => Some(credential.clone()),
                        None => None,
                    };
                    match credential {
                        Some(credential) => (
                            SearchDispatcher {
                                request: self.request,
                                search_type: self.search_type,
                                sort: self.sort,
                                viewer: self.viewer,
                                phase: Phase::Authenticating,
                                posts: self.posts,
                                comments: self.comments,
                                communities: self.communities,
                                users: self.users,
                            },
                            Action::Authenticate { credential },
                        ),
                        None => {
                            let kind = first_kind_of(self.search_type);
                            self.load(kind)
                        },
                    }
                },
            },
            (Phase::Authenticating, Event::Authenticated(requester)) => match requester {
                Ok(id) => {
                    let kind = first_kind_of(self.search_type);
                    let named = SearchDispatcher {
                        request: self.request,
                        search_type: self.search_type,
                        sort: self.sort,
                        viewer: Some(id),
                        phase: self.phase,
                        posts: self.posts,
                        comments: self.comments,
                        communities: self.communities,
                        users: self.users,
                    };
                    named.load(kind)
                },
                Err(reason) => self.finish(Err(SearchError::Unauthenticated(reason))),
            },
            (Phase::LocalSearch(EntityKind::Post), Event::Posts(fetched)) => {
                let term = self.request.q.clone();
                let query = PostQueryBuilder::create(&fetched).sort(&self.sort).show_nsfw(
                    true,
                ).for_community_id(self.request.community_id);
                let query = match self.search_type {
                    SearchType::Url => query.url_search(term),
                    _ => query.search_term(term).my_user_id(self.viewer),
                };
                let found = query.page(self.request.page).limit(self.request.limit).list();
                match found {
                    Ok(posts) => {
                        let filled = SearchDispatcher {
                            request: self.request,
                            search_type: self.search_type,
                            sort: self.sort,
                            viewer: self.viewer,
                            phase: self.phase,
                            posts,
                            comments: self.comments,
                            communities: self.communities,
                            users: self.users,
                        };
                        filled.advance(EntityKind::Post)
                    },
                    Err(QueryError::Backend(failure)) => self.finish(
                        Err(SearchError::Backend(failure)),
                    ),
                }
            },
            (Phase::LocalSearch(EntityKind::Comment), Event::Comments(fetched)) => {
                let term = self.request.q.clone();
                let found = CommentQueryBuilder::create(&fetched).sort(&self.sort).search_term(
                    term,
                ).my_user_id(self.viewer).page(self.request.page).limit(self.request.limit).list();
                match found {
                    Ok(comments) => {
                        let filled = SearchDispatcher {
                            request: self.request,
                            search_type: self.search_type,
                            sort: self.sort,
                            viewer: self.viewer,
                            phase: self.phase,
                            posts: self.posts,
                            comments,
                            communities: self.communities,
                            users: self.users,
                        };
                        filled.advance(EntityKind::Comment)
                    },
                    Err(QueryError::Backend(failure)) => self.finish(
                        Err(SearchError::Backend(failure)),
                    ),
                }
            },
            (Phase::LocalSearch(EntityKind::Community), Event::Communities(fetched)) => {
                let term = self.request.q.clone();
                let found = CommunityQueryBuilder::create(&fetched).sort(&self.sort).search_term(
                    term,
                ).page(self.request.page).limit(self.request.limit).list();
                match found {
                    Ok(communities) => {
                        let filled = SearchDispatcher {
                            request: self.request,
                            search_type: self.search_type,
                            sort: self.sort,
                            viewer: self.viewer,
                            phase: self.phase,
                            posts: self.posts,
                            comments: self.comments,
                            communities,
                            users: self.users,
                        };
                        filled.advance(EntityKind::Community)
                    },
                    Err(QueryError::Backend(failure)) => self.finish(
                        Err(SearchError::Backend(failure)),
                    ),
                }
            },
            (Phase::LocalSearch(EntityKind::User), Event::Users(fetched)) => {
                let term = self.request.q.clone();
                let found = UserQueryBuilder::create(&fetched).sort(&self.sort).search_term(
                    term,
                ).page(self.request.page).limit(self.request.limit).list();
                match found {
                    Ok(users) => {
                        let filled = SearchDispatcher {
                            request: self.request,
                            search_type: self.search_type,
                            sort: self.sort,
                            viewer: self.viewer,
                            phase: self.phase,
                            posts: self.posts,
                            comments: self.comments,
                            communities: self.communities,
                            users,
                        };
                        filled.advance(EntityKind::User)
                    },
                    Err(QueryError::Backend(failure)) => self.finish(
                        Err(SearchError::Backend(failure)),
                    ),
                }
            },
            _ => self.finish(Err(SearchError::OutOfTurn)),
        }
    }
}

} // verus!
