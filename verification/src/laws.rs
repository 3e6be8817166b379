//! What holds of every search, stated over the functions that the contracts
//! of the library speak of.

use crate::dispatch::{
    query_for, start_spec, step_spec, validated, ActionView, DispatcherView, Event, Phase,
    SearchError, SearchView,
};
use crate::entity::{CommentView, CommunityView, Entity, PostView, UserView};
use crate::kinds::{search_type_named, sort_type_named, EntityKind, SearchType};
use crate::query::{candidates_of, listed, page_of, window, BackendError, QueryView};
use crate::ranking::{
    comes_before, is_ranking, lemma_ranking_exists, lemma_ranking_is_unique, ranking,
};
use crate::resolver::RemoteResolutionOutcome;
use crate::response::SearchResponseView;
use crate::search::{bucket, outcome, viewer_of, Surroundings};
use crate::uri::{host_of, is_remote, names_host, scheme_length};
use vstd::prelude::*;

verus! {

/// A listing is determined by the query and the rows alone: whatever lists
/// exactly the admitted rows, best first, is the ranking, and its window is
/// the page that the query returns. Two runs of one query on the same rows
/// therefore return the same rows in the same order.
pub proof fn listing_is_determined<E: Entity>(query: QueryView, rows: Seq<E>, order: Seq<int>)
    requires
        is_ranking(candidates_of(query, rows), order),
    ensures
        order == ranking(candidates_of(query, rows)),
        page_of(query, rows) == window(order, query.first_row(), query.row_count()).map_values(
            |i: int| rows[i],
        ),
{
    let candidates = candidates_of(query, rows);
    lemma_ranking_is_unique(candidates, order, ranking(candidates));
}

/// A page holds rows of the table that the query admits, none of them
/// twice, the better before the worse, and no more of them than the query
/// asks for.
pub proof fn listing_holds_admitted_rows_in_order<E: Entity>(query: QueryView, rows: Seq<E>)
    requires
        query.well_formed(),
    ensures
        listed(query, rows).len() <= query.row_count(),
        page_of(query, rows).len() == listed(query, rows).len(),
        forall|k: int|
            0 <= k < listed(query, rows).len() ==> {
                &&& 0 <= #[trigger] listed(query, rows)[k] < rows.len()
                &&& query.admits(rows[listed(query, rows)[k]])
                &&& page_of(query, rows)[k] == rows[listed(query, rows)[k]]
            },
        forall|a: int, b: int|
            0 <= a < b < listed(query, rows).len() ==> comes_before(
                candidates_of(query, rows),
                #[trigger] listed(query, rows)[a],
                #[trigger] listed(query, rows)[b],
            ),
{
    let candidates = candidates_of(query, rows);
    lemma_ranking_exists(candidates);
    let full = ranking(candidates);
    let lo = if query.first_row() < full.len() {
        query.first_row()
    } else {
        full.len() as int
    };
    assert(query.first_row() >= 0) by (nonlinear_arith)
        requires
            query.page_number() >= 1,
            query.row_count() >= 1,
            query.first_row() == (query.page_number() - 1) * query.row_count(),
    ;
    assert forall|k: int| 0 <= k < listed(query, rows).len() implies {
        &&& 0 <= #[trigger] listed(query, rows)[k] < rows.len()
        &&& query.admits(rows[listed(query, rows)[k]])
        &&& page_of(query, rows)[k] == rows[listed(query, rows)[k]]
    } by {
        assert(listed(query, rows)[k] == full[lo + k]);
        assert(candidates[full[lo + k]].admitted);
    }
    assert forall|a: int, b: int| 0 <= a < b < listed(query, rows).len() implies comes_before(
        candidates,
        #[trigger] listed(query, rows)[a],
        #[trigger] listed(query, rows)[b],
    ) by {
        assert(listed(query, rows)[a] == full[lo + a]);
        assert(listed(query, rows)[b] == full[lo + b]);
    }
}

/// The viewer decides nothing about which rows a query lists, nor about
/// their order.
pub proof fn viewer_never_filters<E: Entity>(query: QueryView, viewer: Option<i32>, rows: Seq<E>)
    ensures
        page_of(QueryView { viewer, ..query }, rows) == page_of(query, rows),
{
    let other = QueryView { viewer, ..query };
    assert(candidates_of(other, rows) =~= candidates_of(query, rows));
}

/// A text that begins with neither scheme is no identifier, so it is not
/// remote whatever the local host is.
pub proof fn identifier_needs_a_scheme(text: Seq<char>, local_host: Seq<char>)
    requires
        scheme_length(text) is None,
    ensures
        host_of(text) is None,
        !is_remote(text, local_host),
{
    assert forall|start: int, end: int| !names_host(text, start, end) by {}
}

/// A request whose sort is no sort order is turned down at the start: the
/// dispatcher asks for no work at all, and the search fails with a
/// validation error whatever the surroundings hold.
pub proof fn malformed_sort_is_refused_at_once(request: SearchView, around: Surroundings)
    requires
        sort_type_named(request.sort) is None,
    ensures
        start_spec(request).0.phase == Phase::Done,
        start_spec(request).1 matches ActionView::Finish(Err(SearchError::Validation(_))),
        outcome(request, around) matches Err(SearchError::Validation(_)),
{
}

/// A request that is turned down is turned down for one reason, and the
/// dispatcher and the whole search agree on it.
pub proof fn refusal_precedes_all_work(request: SearchView, around: Surroundings)
    requires
        validated(request) is Err,
    ensures
        start_spec(request).0.phase == Phase::Done,
        start_spec(request).1 == ActionView::Finish(
            Err(SearchError::Validation(validated(request)->Err_0)),
        ),
        outcome(request, around) == Err::<SearchResponseView, SearchError>(
            SearchError::Validation(validated(request)->Err_0),
        ),
{
}

/// A query that resolves as a remote identifier is answered at once: the
/// dispatcher ends the search with the resolved answer under the requested
/// type and asks for no rows.
pub proof fn resolved_query_ends_the_search(search: DispatcherView, outcome: RemoteResolutionOutcome)
    requires
        search.phase == Phase::ResolvingRemote,
        outcome is Resolved,
    ensures
        step_spec(search, Event::Remote(outcome)).0.phase == Phase::Done,
        step_spec(search, Event::Remote(outcome)).1 == ActionView::Finish(
            Ok(outcome->Resolved_0@.echoing(search.request.type_)),
        ),
{
}

/// The answer to a query that resolves as a remote identifier is the
/// resolved one whatever the storage holds and whoever asks.
pub proof fn resolved_query_wins_over_local_search(
    request: SearchView,
    here: Surroundings,
    there: Surroundings,
)
    requires
        validated(request) is Ok,
        here.remote is Resolved,
        there.remote == here.remote,
    ensures
        outcome(request, here) == outcome(request, there),
        outcome(request, here) == Ok::<SearchResponseView, SearchError>(
            here.remote->Resolved_0@.echoing(request.type_),
        ),
{
}

/// A search by link fills no bucket but that of the posts, unless its query
/// resolves as a remote identifier to an answer that holds other rows.
pub proof fn search_by_link_fills_posts_only(request: SearchView, around: Surroundings)
    requires
        search_type_named(request.type_) == Some(SearchType::Url),
        around.remote matches RemoteResolutionOutcome::Resolved(resolved) ==> {
            &&& resolved@.comments.len() == 0
            &&& resolved@.communities.len() == 0
            &&& resolved@.users.len() == 0
        },
    ensures
        outcome(request, around) matches Ok(response) ==> {
            &&& response.comments.len() == 0
            &&& response.communities.len() == 0
            &&& response.users.len() == 0
        },
{
}

/// In a local search for everything each bucket holds exactly what the
/// query of its kind lists from the rows of its kind: no bucket depends on
/// the rows of another.
pub proof fn search_for_all_keeps_buckets_apart(request: SearchView, around: Surroundings)
    requires
        validated(request) matches Ok(named) && named.0 == SearchType::All,
        !(around.remote is Resolved),
        outcome(request, around) is Ok,
    ensures
        ({
            let sort = validated(request)->Ok_0.1;
            let viewer = viewer_of(request, around)->Ok_0;
            let response = outcome(request, around)->Ok_0;
            let all = SearchType::All;
            &&& viewer_of(request, around) is Ok
            &&& bucket(query_for(EntityKind::Post, request, all, sort, viewer), around.posts)
                == Ok::<Seq<PostView>, BackendError>(response.posts)
            &&& bucket(query_for(EntityKind::Comment, request, all, sort, viewer), around.comments)
                == Ok::<Seq<CommentView>, BackendError>(
                response.comments,
            )
            &&& bucket(
                query_for(EntityKind::Community, request, all, sort, viewer),
                around.communities,
            ) == Ok::<Seq<CommunityView>, BackendError>(
                response.communities,
            )
            &&& bucket(query_for(EntityKind::User, request, all, sort, viewer), around.users)
                == Ok::<Seq<UserView>, BackendError>(response.users)
        }),
{
}

/// A local search for everything fills each bucket as the search for that
/// kind alone fills it, in the same surroundings and with the same query,
/// order, page, limit and community.
pub proof fn search_for_all_agrees_with_single_searches(
    all: SearchView,
    one: SearchView,
    around: Surroundings,
)
    requires
        validated(all) matches Ok(named) && named.0 == SearchType::All,
        one == (SearchView { type_: one.type_, ..all }),
        search_type_named(one.type_) matches Some(single) && single != SearchType::All && single
            != SearchType::Url,
        outcome(all, around) is Ok,
    ensures
        outcome(one, around) is Ok,
        ({
            let combined = outcome(all, around)->Ok_0;
            let alone = outcome(one, around)->Ok_0;
            match search_type_named(one.type_)->Some_0 {
                SearchType::Posts => alone.posts == combined.posts,
                SearchType::Comments => alone.comments == combined.comments,
                SearchType::Communities => alone.communities == combined.communities,
                _ => alone.users == combined.users,
            }
        }),
{
}

/// A search that has ended stays ended: whatever it is handed, it asks for
/// no work.
pub proof fn ended_search_asks_for_nothing(search: DispatcherView, event: Event)
    requires
        search.phase == Phase::Done,
    ensures
        step_spec(search, event).0.phase == Phase::Done,
        step_spec(search, event).1 == ActionView::Finish(Err(SearchError::OutOfTurn)),
{
}

} // verus!
