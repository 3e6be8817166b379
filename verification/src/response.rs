//! The envelope in which every search answers: one sequence per kind of
//! row, each always present and most of them empty.

use crate::entity::{CommentView, CommunityView, PostView, UserView};
use crate::kinds::EntityKind;
use vstd::prelude::*;

verus! {

/// The answer to a search.
#[derive(Debug, PartialEq, Eq)]
pub struct SearchResponse {
    /// The requested type, as the request spelled it.
    pub type_: String,
    pub comments: Vec<CommentView>,
    pub posts: Vec<PostView>,
    pub communities: Vec<CommunityView>,
    pub users: Vec<UserView>,
}

/// An answer as contracts see it.
pub struct SearchResponseView {
    pub type_: Seq<char>,
    pub comments: Seq<CommentView>,
    pub posts: Seq<PostView>,
    pub communities: Seq<CommunityView>,
    pub users: Seq<UserView>,
}

impl View for SearchResponse {
    type V = SearchResponseView;

    open spec fn view(&self) -> SearchResponseView {
        SearchResponseView {
            type_: self.type_@,
            comments: self.comments@,
            posts: self.posts@,
            communities: self.communities@,
            users: self.users@,
        }
    }
}

/// A row of one of the four kinds, as it stands in the local storage.
#[derive(Debug, PartialEq, Eq)]
pub enum LocalEntity {
    Post(PostView),
    Comment(CommentView),
    Community(CommunityView),
    User(UserView),
}

impl LocalEntity {
    /// The kind of the row.
    pub open spec fn kind(self) -> EntityKind {
        match self {
            LocalEntity::Post(_) => EntityKind::Post,
            LocalEntity::Comment(_) => EntityKind::Comment,
            LocalEntity::Community(_) => EntityKind::Community,
            LocalEntity::User(_) => EntityKind::User,
        }
    }

    /// The kind of the row.
    pub fn entity_kind(&self) -> (kind: EntityKind)
        ensures
            kind == self.kind(),
    {
        match self {
            LocalEntity::Post(_) => EntityKind::Post,
            LocalEntity::Comment(_) => EntityKind::Comment,
            LocalEntity::Community(_) => EntityKind::Community,
            LocalEntity::User(_) => EntityKind::User,
        }
    }
}

impl SearchResponseView {
    /// The answer with the given type whose buckets are all empty.
    pub open spec fn empty(type_: Seq<char>) -> SearchResponseView {
        SearchResponseView {
            type_,
            comments: Seq::empty(),
            posts: Seq::empty(),
            communities: Seq::empty(),
            users: Seq::empty(),
        }
    }

    /// The answer with the given type that holds `entity` in the bucket of
    /// its kind and nothing else.
    pub open spec fn holding(type_: Seq<char>, entity: LocalEntity) -> SearchResponseView {
        match entity {
            LocalEntity::Post(post) => SearchResponseView {
                posts: seq![post],
                ..Self::empty(type_)
            },
            LocalEntity::Comment(comment) => SearchResponseView {
                comments: seq![comment],
                ..Self::empty(type_)
            },
            LocalEntity::Community(community) => SearchResponseView {
                communities: seq![community],
                ..Self::empty(type_)
            },
            LocalEntity::User(user) => SearchResponseView { users: seq![user], ..Self::empty(type_) },
        }
    }

    /// The number of buckets that hold at least one row.
    pub open spec fn populated_buckets(self) -> int {
        (if self.comments.len() > 0 { 1int } else { 0 })
            + (if self.posts.len() > 0 { 1int } else { 0 })
            + (if self.communities.len() > 0 { 1int } else { 0 })
            + (if self.users.len() > 0 { 1int } else { 0 })
    }

    /// The same buckets under another type.
    pub open spec fn echoing(self, type_: Seq<char>) -> SearchResponseView {
        SearchResponseView { type_, ..self }
    }
}

/// The rows of a bucket that was filled, or none for one that was not.
pub open spec fn bucket_or_empty<R>(bucket: Option<Vec<R>>) -> Seq<R> {
    match bucket {
        Some(rows) => rows@,
        None => Seq::empty(),
    }
}

impl SearchResponse {
    /// Assembles an answer from the buckets that were filled. A bucket that
    /// was not filled is present and empty.
    pub fn aggregate(
        type_: String,
        posts: Option<Vec<PostView>>,
        comments: Option<Vec<CommentView>>,
        communities: Option<Vec<CommunityView>>,
        users: Option<Vec<UserView>>,
    ) -> (response: SearchResponse)
        ensures
            response@ == (SearchResponseView {
                type_: type_@,
                comments: bucket_or_empty(comments),
                posts: bucket_or_empty(posts),
                communities: bucket_or_empty(communities),
                users: bucket_or_empty(users),
            }),
            response.type_ == type_,
    {
        SearchResponse {
            type_,
            comments: match comments {
                Some(rows) => rows,
                None => Vec::new(),
            },
            posts: match posts {
                Some(rows) => rows,
                None => Vec::new(),
            },
            communities: match communities {
                Some(rows) => rows,
                None => Vec::new(),
            },
            users: match users {
                Some(rows) => rows,
                None => Vec::new(),
            },
        }
    }

    /// The answer that holds `entity` in the bucket of its kind and nothing
    /// else.
    pub fn of_entity(type_: String, entity: LocalEntity) -> (response: SearchResponse)
        ensures
            response@ == SearchResponseView::holding(type_@, entity),
            response@.populated_buckets() == 1,
    {
        let response = match entity {
            LocalEntity::Post(post) => {
                let mut posts: Vec<PostView> = Vec::new();
                posts.push(post);
                Self::aggregate(type_, Some(posts), None, None, None)
            },
            LocalEntity::Comment(comment) => {
                let mut comments: Vec<CommentView> = Vec::new();
                comments.push(comment);
                Self::aggregate(type_, None, Some(comments), None, None)
            },
            LocalEntity::Community(community) => {
                let mut communities: Vec<CommunityView> = Vec::new();
                communities.push(community);
                Self::aggregate(type_, None, None, Some(communities), None)
            },
            LocalEntity::User(user) => {
                let mut users: Vec<UserView> = Vec::new();
                users.push(user);
                Self::aggregate(type_, None, None, None, Some(users))
            },
        };
        assert(response@ =~= SearchResponseView::holding(type_@, entity));
        response
    }

    /// The same buckets under another type.
    pub fn echoing(self, type_: String) -> (response: SearchResponse)
        ensures
            response@ == self@.echoing(type_@),
            response.type_ == type_,
    {
        SearchResponse {
            type_,
            comments: self.comments,
            posts: self.posts,
            communities: self.communities,
            users: self.users,
        }
    }
}

} // verus!
