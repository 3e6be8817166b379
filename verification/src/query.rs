//! Query composition: a filtered, sorted and paged read of one kind of row.
//!
//! A query is built from a store handle by chained configuration calls and
//! run by `list`. The store handle is what the storage delivered for the
//! kind: its rows, or the failure it reported.

use crate::entity::{mentioned_in, CommentView, CommunityView, Entity, PostView, UserView};
use crate::kinds::SortType;
use crate::ranking::{as_ints, is_ranking, rank, ranking, Candidate};
use crate::text::chars_of;
use vstd::prelude::*;

verus! {

/// The page that is listed when a query names none.
pub const DEFAULT_PAGE: i64 = 1;

/// The number of rows on a page when a query names none.
pub const DEFAULT_LIMIT: i64 = 10;

/// A failure of the storage behind a query.
#[derive(Debug, PartialEq, Eq)]
pub struct BackendError {
    pub reason: String,
}

impl Clone for BackendError {
    fn clone(&self) -> (copy: Self)
        ensures
            copy == *self,
    {
        BackendError { reason: self.reason.clone() }
    }
}

/// Why a query returned no rows at all.
#[derive(Debug, PartialEq, Eq)]
pub enum QueryError {
    /// The storage failed; its failure is handed on unchanged.
    Backend(BackendError),
}

impl Clone for QueryError {
    fn clone(&self) -> (copy: Self)
        ensures
            copy == *self,
    {
        match self {
            QueryError::Backend(failure) => QueryError::Backend(failure.clone()),
        }
    }
}

/// What the rows of a query are matched against.
enum Criterion {
    Any,
    Text(String),
    Url(String),
}

/// What the rows of a query are matched against: nothing, a search term,
/// or a link. A query has one of the three, so a term and a link never
/// apply together.
pub enum CriterionView {
    Any,
    Text(Seq<char>),
    Url(Seq<char>),
}

/// The accumulated state of a query, as contracts see it.
pub struct QueryView {
    pub criterion: CriterionView,
    pub community: Option<i32>,
    pub show_nsfw: bool,
    pub sort: SortType,
    pub viewer: Option<i32>,
    pub page: Option<i64>,
    pub limit: Option<i64>,
}

impl QueryView {
    /// A given page or limit is at least 1.
    pub open spec fn well_formed(self) -> bool {
        &&& self.page matches Some(p) ==> p >= 1
        &&& self.limit matches Some(l) ==> l >= 1
    }

    /// The 1-based number of the page that is listed.
    pub open spec fn page_number(self) -> int {
        match self.page {
            Some(p) => p as int,
            None => DEFAULT_PAGE as int,
        }
    }

    /// The number of rows on a full page.
    pub open spec fn row_count(self) -> int {
        match self.limit {
            Some(l) => l as int,
            None => DEFAULT_LIMIT as int,
        }
    }

    /// The number of ranked rows that precede the listed page.
    pub open spec fn first_row(self) -> int {
        (self.page_number() - 1) * self.row_count()
    }

    /// The row passes every filter of the query.
    ///
    /// An empty search term admits every row. A link admits the rows that
    /// link to exactly it. Flagged rows pass only where the query shows
    /// them. A community restricts the kinds that belong to one.
    pub open spec fn admits<E: Entity>(self, row: E) -> bool {
        &&& match self.criterion {
            CriterionView::Any => true,
            CriterionView::Text(term) => term.len() == 0 || mentioned_in(row.text_fields(), term),
            CriterionView::Url(url) => row.link() == Some(url),
        }
        &&& (self.show_nsfw || !row.flagged_nsfw())
        &&& match self.community {
            Some(community) => row.scope() is None || row.scope() == Some(community),
            None => true,
        }
    }
}

/// What `query` reads of each of `rows`: its key under the sort order of
/// the query, and whether the query admits it.
pub open spec fn candidates_of<E: Entity>(query: QueryView, rows: Seq<E>) -> Seq<Candidate> {
    Seq::new(
        rows.len(),
        |i: int| Candidate { key: rows[i].rank_of(query.sort), admitted: query.admits(rows[i]) },
    )
}

/// The part of `s` that starts behind its first `first` entries and holds
/// at most `count` of them.
pub open spec fn window<T>(s: Seq<T>, first: int, count: int) -> Seq<T> {
    let lo = if first < s.len() {
        first
    } else {
        s.len() as int
    };
    let hi = if lo + count < s.len() {
        lo + count
    } else {
        s.len() as int
    };
    s.subrange(lo, hi)
}

/// The numbers of the rows that `query` lists from `rows`: the admitted
/// rows, ranked, cut to the requested page.
pub open spec fn listed<E: Entity>(query: QueryView, rows: Seq<E>) -> Seq<int> {
    window(ranking(candidates_of(query, rows)), query.first_row(), query.row_count())
}

/// The rows that `query` lists from `rows`.
pub open spec fn page_of<E: Entity>(query: QueryView, rows: Seq<E>) -> Seq<E> {
    listed(query, rows).map_values(|i: int| rows[i])
}

/// A query in the making on one kind of row.
pub struct QuerySpec<'a, E: Entity> {
    source: &'a Result<Vec<E>, BackendError>,
    criterion: Criterion,
    community: Option<i32>,
    show_nsfw: bool,
    sort: SortType,
    viewer: Option<i32>,
    page: Option<i64>,
    limit: Option<i64>,
}

/// A query on posts.
pub type PostQueryBuilder<'a> = QuerySpec<'a, PostView>;

/// A query on comments.
pub type CommentQueryBuilder<'a> = QuerySpec<'a, CommentView>;

/// A query on communities.
pub type CommunityQueryBuilder<'a> = QuerySpec<'a, CommunityView>;

/// A query on users.
pub type UserQueryBuilder<'a> = QuerySpec<'a, UserView>;

impl<'a, E: Entity> View for QuerySpec<'a, E> {
    type V = QueryView;

    closed spec fn view(&self) -> QueryView {
        QueryView {
            criterion: match self.criterion {
                Criterion::Any => CriterionView::Any,
                Criterion::Text(term) => CriterionView::Text(term@),
                Criterion::Url(url) => CriterionView::Url(url@),
            },
            community: self.community,
            show_nsfw: self.show_nsfw,
            sort: self.sort,
            viewer: self.viewer,
            page: self.page,
            limit: self.limit,
        }
    }
}

/// The bounds within a ranking of `total` rows of the page that `page` and
/// `limit` ask for.
fn window_bounds(page: Option<i64>, limit: Option<i64>, total: usize) -> (bounds: (usize, usize))
    requires
        page matches Some(p) ==> p >= 1,
        limit matches Some(l) ==> l >= 1,
    ensures
        ({
            let p = if let Some(p) = page { p as int } else { DEFAULT_PAGE as int };
            let l = if let Some(l) = limit { l as int } else { DEFAULT_LIMIT as int };
            let first = (p - 1) * l;
            let lo = if first < total { first } else { total as int };
            let hi = if lo + l < total { lo + l } else { total as int };
            bounds.0 == lo && bounds.1 == hi
        }),
{
    let p: i64 = match page {
        Some(p) => p,
        None => DEFAULT_PAGE,
    };
    let l: i64 = match limit {
        Some(l) => l,
        None => DEFAULT_LIMIT,
    };
    let before: u128 = (p - 1) as u128;
    let each: u128 = l as u128;
    assert(before * each <= 0x7fff_ffff_ffff_ffff * 0x7fff_ffff_ffff_ffff) by (nonlinear_arith)
        requires
            0 <= before <= 0x7fff_ffff_ffff_ffff,
            0 <= each <= 0x7fff_ffff_ffff_ffff,
    ;
    let first: u128 = before * each;
    let lo: usize = if first < total as u128 {
        first as usize
    } else {
        total
    };
    let room: usize = total - lo;
    let hi: usize = if each < room as u128 {
        lo + l as usize
    } else {
        total
    };
    (lo, hi)
}

impl<'a, E: Entity> QuerySpec<'a, E> {
    #[verifier::type_invariant]
    spec fn names_a_page_that_exists(self) -> bool {
        self@.well_formed()
    }

    /// The store handle the query was created from.
    pub closed spec fn source(&self) -> Result<Vec<E>, BackendError> {
        *self.source
    }

    /// A query on `source` that admits every row that is not flagged,
    /// ranks by heat and lists the first page.
    pub fn create(source: &'a Result<Vec<E>, BackendError>) -> (query: Self)
        ensures
            query.source() == *source,
            query@ == (QueryView {
                criterion: CriterionView::Any,
                community: None,
                show_nsfw: false,
                sort: SortType::Hot,
                viewer: None,
                page: None,
                limit: None,
            }),
    {
        QuerySpec {
            source,
            criterion: Criterion::Any,
            community: None,
            show_nsfw: false,
            sort: SortType::Hot,
            viewer: None,
            page: None,
            limit: None,
        }
    }

    /// Ranks the rows by `sort`.
    pub fn sort(self, sort: &SortType) -> (query: Self)
        ensures
            query.source() == self.source(),
            query@ == (QueryView { sort: *sort, ..self@ }),
    {
        proof {
            use_type_invariant(&self);
        }
        QuerySpec { sort: *sort, ..self }
    }

    /// Shows or hides the rows that are flagged as not safe for work.
    pub fn show_nsfw(self, show_nsfw: bool) -> (query: Self)
        ensures
            query.source() == self.source(),
            query@ == (QueryView { show_nsfw, ..self@ }),
    {
        proof {
            use_type_invariant(&self);
        }
        QuerySpec { show_nsfw, ..self }
    }

    /// Restricts the query to one community, or lifts the restriction.
    pub fn for_community_id(self, community: Option<i32>) -> (query: Self)
        ensures
            query.source() == self.source(),
            query@ == (QueryView { community, ..self@ }),
    {
        proof {
            use_type_invariant(&self);
        }
        QuerySpec { community, ..self }
    }

    /// Matches the rows against a search term. The term takes the place of
    /// whatever term or link the query matched before.
    pub fn search_term(self, term: String) -> (query: Self)
        ensures
            query.source() == self.source(),
            query@ == (QueryView { criterion: CriterionView::Text(term@), ..self@ }),
    {
        proof {
            use_type_invariant(&self);
        }
        QuerySpec { criterion: Criterion::Text(term), ..self }
    }

    /// Matches the rows against a link. The link takes the place of
    /// whatever term or link the query matched before.
    pub fn url_search(self, url: String) -> (query: Self)
        ensures
            query.source() == self.source(),
            query@ == (QueryView { criterion: CriterionView::Url(url@), ..self@ }),
    {
        proof {
            use_type_invariant(&self);
        }
        QuerySpec { criterion: Criterion::Url(url), ..self }
    }

    /// Names the viewer for whom the storage fills in what a row holds of
    /// the viewer's own. The viewer decides nothing about which rows are
    /// listed.
    pub fn my_user_id(self, viewer: Option<i32>) -> (query: Self)
        ensures
            query.source() == self.source(),
            query@ == (QueryView { viewer, ..self@ }),
    {
        proof {
            use_type_invariant(&self);
        }
        QuerySpec { viewer, ..self }
    }

    /// Names the page to list, counted from 1, or asks for the default.
    pub fn page(self, page: Option<i64>) -> (query: Self)
        requires
            page matches Some(p) ==> p >= 1,
        ensures
            query.source() == self.source(),
            query@ == (QueryView { page, ..self@ }),
    {
        proof {
            use_type_invariant(&self);
        }
        QuerySpec { page, ..self }
    }

    /// Names the number of rows on a page, or asks for the default.
    pub fn limit(self, limit: Option<i64>) -> (query: Self)
        requires
            limit matches Some(l) ==> l >= 1,
        ensures
            query.source() == self.source(),
            query@ == (QueryView { limit, ..self@ }),
    {
        proof {
            use_type_invariant(&self);
        }
        QuerySpec { limit, ..self }
    }

    /// Whether the query admits `row`, given the characters of its search
    /// term.
    fn passes(&self, row: &E, needle: &Vec<char>) -> (admitted: bool)
        requires
            self@.criterion matches CriterionView::Text(term) ==> needle@ == term,
        ensures
            admitted == self@.admits(*row),
    {
        let matched = match &self.criterion {
            Criterion::Any => true,
            Criterion::Text(_) => needle.len() == 0 || row.mentions(needle),
            Criterion::Url(url) => row.links_to(url.as_str()),
        };
        let shown = self.show_nsfw || !row.is_nsfw();
        let in_scope = match self.community {
            Some(community) => match row.community_scope() {
                Some(own) => own == community,
                None => true,
            },
            None => true,
        };
        matched && shown && in_scope
    }

    /// Runs the query: the admitted rows of the store handle, ranked by the
    /// sort order and cut to the requested page. A failure of the storage
    /// is returned as it was reported.
    pub fn list(self) -> (found: Result<Vec<E>, QueryError>)
        ensures
            self@.well_formed(),
            match self.source() {
                Ok(rows) => {
                    &&& found matches Ok(page)
                    &&& page@ == page_of(self@, rows@)
                    &&& is_ranking(
                        candidates_of(self@, rows@),
                        ranking(candidates_of(self@, rows@)),
                    )
                },
                Err(failure) => found == Err::<Vec<E>, QueryError>(QueryError::Backend(failure)),
            },
    {
        proof {
            use_type_invariant(&self);
        }
        let rows = match self.source {
            Ok(rows) => rows,
            Err(failure) => {
                return Err(QueryError::Backend(failure.clone()));
            },
        };
        let needle: Vec<char> = match &self.criterion {
            Criterion::Text(term) => chars_of(term.as_str()),
            _ => Vec::new(),
        };
        let mut candidates: Vec<Candidate> = Vec::new();
        let mut i: usize = 0;
        while i < rows.len()
            invariant
                i <= rows.len(),
                candidates.len() == i,
                self@.criterion matches CriterionView::Text(term) ==> needle@ == term,
                forall|j: int|
                    0 <= j < i ==> #[trigger] candidates@[j] == (Candidate {
                        key: rows@[j].rank_of(self@.sort),
                        admitted: self@.admits(rows@[j]),
                    }),
            decreases rows.len() - i,
        {
            let key = rows[i].rank_key(self.sort);
            let admitted = self.passes(&rows[i], &needle);
            candidates.push(Candidate { key, admitted });
            i += 1;
        }
        assert(candidates@ =~= candidates_of(self@, rows@));
        let order = rank(&candidates);
        let (lo, hi) = window_bounds(self.page, self.limit, order.len());
        let ghost full = ranking(candidates@);
        let mut page: Vec<E> = Vec::new();
        let mut k: usize = lo;
        while k < hi
            invariant
                lo <= k <= hi <= order.len(),
                page.len() == k - lo,
                candidates.len() == rows.len(),
                as_ints(order@) == full,
                is_ranking(candidates@, full),
                forall|j: int| 0 <= j < page.len() ==> #[trigger] page@[j] == rows@[full[lo + j]],
            decreases hi - k,
        {
            assert(full[k as int] == order@[k as int]);
            page.push(rows[order[k]].duplicate());
            k += 1;
        }
        assert(page@ =~= page_of(self@, rows@));
        Ok(page)
    }
}

} // verus!
