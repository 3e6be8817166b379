//! The four kinds of searchable rows and what a query may ask of each.

use crate::kinds::SortType;
use crate::ranking::RankKey;
use crate::text::{contains_fold, same_text, text_contains};
use vstd::prelude::*;

verus! {

/// One of `fields` contains `needle`, letter case aside.
pub open spec fn mentioned_in(fields: Seq<Seq<char>>, needle: Seq<char>) -> bool {
    exists|k: int| 0 <= k < fields.len() && contains_fold(#[trigger] fields[k], needle)
}

/// What a query reads of a row: its searchable text, its link, whether it is
/// flagged as not safe for work, the community it belongs to, and its place
/// under each sort order.
pub trait Entity: Sized {
    /// The text fields that a search term is matched against.
    spec fn text_fields(&self) -> Seq<Seq<char>>;

    /// The address the row links to, where the kind has one.
    spec fn link(&self) -> Option<Seq<char>>;

    /// The row is flagged as not safe for work.
    spec fn flagged_nsfw(&self) -> bool;

    /// The community the row belongs to, where the kind has one.
    spec fn scope(&self) -> Option<i32>;

    /// The row's sort key under `sort`. An order that the kind does not
    /// have ranks every row alike in its first component.
    spec fn rank_of(&self, sort: SortType) -> RankKey;

    /// Whether one of the text fields contains `needle`, letter case aside.
    fn mentions(&self, needle: &Vec<char>) -> (found: bool)
        ensures
            found == mentioned_in(self.text_fields(), needle@),
    ;

    /// Whether the row links to exactly `url`.
    fn links_to(&self, url: &str) -> (same: bool)
        ensures
            same == (self.link() == Some(url@)),
    ;

    /// Whether the row is flagged as not safe for work.
    fn is_nsfw(&self) -> (flag: bool)
        ensures
            flag == self.flagged_nsfw(),
    ;

    /// The community the row belongs to.
    fn community_scope(&self) -> (scope: Option<i32>)
        ensures
            scope == self.scope(),
    ;

    /// The row's sort key under `sort`.
    fn rank_key(&self, sort: SortType) -> (key: RankKey)
        ensures
            key == self.rank_of(sort),
    ;

    /// A copy of the row, equal to it in every field.
    fn duplicate(&self) -> (copy: Self)
        ensures
            copy == *self,
    ;
}

/// A copy of an optional text.
pub fn copy_optional_text(text: &Option<String>) -> (copy: Option<String>)
    ensures
        copy == *text,
{
    match text {
        Some(t) => Some(t.clone()),
        None => None,
    }
}

/// Whether an optional text is present and contains `needle`, letter case
/// aside.
pub fn optional_text_contains(text: &Option<String>, needle: &Vec<char>) -> (found: bool)
    ensures
        found == (text matches Some(t) && contains_fold(t@, needle@)),
{
    match text {
        Some(t) => text_contains(t.as_str(), needle),
        None => false,
    }
}

/// A post as search returns it.
#[derive(Debug, PartialEq, Eq)]
pub struct PostView {
    pub id: i32,
    pub name: String,
    pub url: Option<String>,
    pub body: Option<String>,
    pub creator_id: i32,
    pub community_id: i32,
    pub nsfw: bool,
    /// Creation time, in seconds.
    pub published: i64,
    pub score: i64,
    pub hot_rank: i32,
    pub hot_rank_active: i32,
    /// The viewer's vote, filled in by the storage for the viewer it was
    /// asked for.
    pub my_vote: Option<i32>,
}

/// A comment as search returns it.
#[derive(Debug, PartialEq, Eq)]
pub struct CommentView {
    pub id: i32,
    pub creator_id: i32,
    pub post_id: i32,
    pub community_id: i32,
    pub content: String,
    /// Creation time, in seconds.
    pub published: i64,
    pub score: i64,
    pub hot_rank: i32,
    pub hot_rank_active: i32,
    /// The viewer's vote, filled in by the storage for the viewer it was
    /// asked for.
    pub my_vote: Option<i32>,
}

/// A community as search returns it.
#[derive(Debug, PartialEq, Eq)]
pub struct CommunityView {
    pub id: i32,
    pub name: String,
    pub title: String,
    pub description: Option<String>,
    pub nsfw: bool,
    /// Creation time, in seconds.
    pub published: i64,
    pub number_of_subscribers: i64,
    pub hot_rank: i32,
}

/// A user as search returns it.
#[derive(Debug, PartialEq, Eq)]
pub struct UserView {
    pub id: i32,
    pub name: String,
    pub bio: Option<String>,
    /// Creation time, in seconds.
    pub published: i64,
    pub post_score: i64,
    pub comment_score: i64,
}

impl Clone for PostView {
    fn clone(&self) -> (copy: Self)
        ensures
            copy == *self,
    {
        PostView {
            id: self.id,
            name: self.name.clone(),
            url: copy_optional_text(&self.url),
            body: copy_optional_text(&self.body),
            creator_id: self.creator_id,
            community_id: self.community_id,
            nsfw: self.nsfw,
            published: self.published,
            score: self.score,
            hot_rank: self.hot_rank,
            hot_rank_active: self.hot_rank_active,
            my_vote: self.my_vote,
        }
    }
}

impl Clone for CommentView {
    fn clone(&self) -> (copy: Self)
        ensures
            copy == *self,
    {
        CommentView {
            id: self.id,
            creator_id: self.creator_id,
            post_id: self.post_id,
            community_id: self.community_id,
            content: self.content.clone(),
            published: self.published,
            score: self.score,
            hot_rank: self.hot_rank,
            hot_rank_active: self.hot_rank_active,
            my_vote: self.my_vote,
        }
    }
}

impl Clone for CommunityView {
    fn clone(&self) -> (copy: Self)
        ensures
            copy == *self,
    {
        CommunityView {
            id: self.id,
            name: self.name.clone(),
            title: self.title.clone(),
            description: copy_optional_text(&self.description),
            nsfw: self.nsfw,
            published: self.published,
            number_of_subscribers: self.number_of_subscribers,
            hot_rank: self.hot_rank,
        }
    }
}

impl Clone for UserView {
    fn clone(&self) -> (copy: Self)
        ensures
            copy == *self,
    {
        UserView {
            id: self.id,
            name: self.name.clone(),
            bio: copy_optional_text(&self.bio),
            published: self.published,
            post_score: self.post_score,
            comment_score: self.comment_score,
        }
    }
}

impl Entity for PostView {
    /// The title, then the body where the post has one.
    open spec fn text_fields(&self) -> Seq<Seq<char>> {
        match self.body {
            Some(body) => seq![self.name@, body@],
            None => seq![self.name@],
        }
    }

    open spec fn link(&self) -> Option<Seq<char>> {
        match self.url {
            Some(url) => Some(url@),
            None => None,
        }
    }

    open spec fn flagged_nsfw(&self) -> bool {
        self.nsfw
    }

    open spec fn scope(&self) -> Option<i32> {
        Some(self.community_id)
    }

    open spec fn rank_of(&self, sort: SortType) -> RankKey {
        RankKey {
            primary: match sort {
                SortType::Active => self.hot_rank_active as i64,
                SortType::Hot => self.hot_rank as i64,
                SortType::New => self.published,
                _ => self.score,
            },
            published: self.published,
            id: self.id as i64,
        }
    }

    fn mentions(&self, needle: &Vec<char>) -> (found: bool) {
        let in_title = text_contains(self.name.as_str(), needle);
        let in_body = optional_text_contains(&self.body, needle);
        proof {
            let fields = self.text_fields();
            if in_title {
                assert(contains_fold(fields[0], needle@));
            }
            if in_body {
                assert(contains_fold(fields[1], needle@));
            }
        }
        in_title || in_body
    }

    fn links_to(&self, url: &str) -> (same: bool) {
        match &self.url {
            Some(own) => same_text(own.as_str(), url),
            None => false,
        }
    }

    fn is_nsfw(&self) -> (flag: bool) {
        self.nsfw
    }

    fn community_scope(&self) -> (scope: Option<i32>) {
        Some(self.community_id)
    }

    fn rank_key(&self, sort: SortType) -> (key: RankKey) {
        let primary: i64 = match sort {
            SortType::Active => self.hot_rank_active as i64,
            SortType::Hot => self.hot_rank as i64,
            SortType::New => self.published,
            _ => self.score,
        };
        RankKey { primary, published: self.published, id: self.id as i64 }
    }

    fn duplicate(&self) -> (copy: Self) {
        self.clone()
    }
}

impl Entity for CommentView {
    /// The comment's text.
    open spec fn text_fields(&self) -> Seq<Seq<char>> {
        seq![self.content@]
    }

    open spec fn link(&self) -> Option<Seq<char>> {
        None
    }

    open spec fn flagged_nsfw(&self) -> bool {
        false
    }

    open spec fn scope(&self) -> Option<i32> {
        Some(self.community_id)
    }

    open spec fn rank_of(&self, sort: SortType) -> RankKey {
        RankKey {
            primary: match sort {
                SortType::Active => self.hot_rank_active as i64,
                SortType::Hot => self.hot_rank as i64,
                SortType::New => self.published,
                _ => self.score,
            },
            published: self.published,
            id: self.id as i64,
        }
    }

    fn mentions(&self, needle: &Vec<char>) -> (found: bool) {
        let in_content = text_contains(self.content.as_str(), needle);
        proof {
            if in_content {
                assert(contains_fold(self.text_fields()[0], needle@));
            }
        }
        in_content
    }

    fn links_to(&self, url: &str) -> (same: bool) {
        false
    }

    fn is_nsfw(&self) -> (flag: bool) {
        false
    }

    fn community_scope(&self) -> (scope: Option<i32>) {
        Some(self.community_id)
    }

    fn rank_key(&self, sort: SortType) -> (key: RankKey) {
        let primary: i64 = match sort {
            SortType::Active => self.hot_rank_active as i64,
            SortType::Hot => self.hot_rank as i64,
            SortType::New => self.published,
            _ => self.score,
        };
        RankKey { primary, published: self.published, id: self.id as i64 }
    }

    fn duplicate(&self) -> (copy: Self) {
        self.clone()
    }
}

impl Entity for CommunityView {
    /// The community's name, then its title.
    open spec fn text_fields(&self) -> Seq<Seq<char>> {
        seq![self.name@, self.title@]
    }

    open spec fn link(&self) -> Option<Seq<char>> {
        None
    }

    open spec fn flagged_nsfw(&self) -> bool {
        self.nsfw
    }

    open spec fn scope(&self) -> Option<i32> {
        None
    }

    /// Communities are ranked by heat, by age or by subscribers; the other
    /// orders rank them all alike.
    open spec fn rank_of(&self, sort: SortType) -> RankKey {
        RankKey {
            primary: match sort {
                SortType::Hot => self.hot_rank as i64,
                SortType::New => self.published,
                SortType::TopAll => self.number_of_subscribers,
                _ => 0,
            },
            published: self.published,
            id: self.id as i64,
        }
    }

    fn mentions(&self, needle: &Vec<char>) -> (found: bool) {
        let in_name = text_contains(self.name.as_str(), needle);
        let in_title = text_contains(self.title.as_str(), needle);
        proof {
            let fields = self.text_fields();
            if in_name {
                assert(contains_fold(fields[0], needle@));
            }
            if in_title {
                assert(contains_fold(fields[1], needle@));
            }
        }
        in_name || in_title
    }

    fn links_to(&self, url: &str) -> (same: bool) {
        false
    }

    fn is_nsfw(&self) -> (flag: bool) {
        self.nsfw
    }

    fn community_scope(&self) -> (scope: Option<i32>) {
        None
    }

    fn rank_key(&self, sort: SortType) -> (key: RankKey) {
        let primary: i64 = match sort {
            SortType::Hot => self.hot_rank as i64,
            SortType::New => self.published,
            SortType::TopAll => self.number_of_subscribers,
            _ => 0,
        };
        RankKey { primary, published: self.published, id: self.id as i64 }
    }

    fn duplicate(&self) -> (copy: Self) {
        self.clone()
    }
}

impl Entity for UserView {
    /// The user's name, then the biography where the user has one.
    open spec fn text_fields(&self) -> Seq<Seq<char>> {
        match self.bio {
            Some(bio) => seq![self.name@, bio@],
            None => seq![self.name@],
        }
    }

    open spec fn link(&self) -> Option<Seq<char>> {
        None
    }

    open spec fn flagged_nsfw(&self) -> bool {
        false
    }

    open spec fn scope(&self) -> Option<i32> {
        None
    }

    /// Users are ranked by age under `New`, and by the score of their
    /// comments under every other order.
    open spec fn rank_of(&self, sort: SortType) -> RankKey {
        RankKey {
            primary: match sort {
                SortType::New => self.published,
                _ => self.comment_score,
            },
            published: self.published,
            id: self.id as i64,
        }
    }

    fn mentions(&self, needle: &Vec<char>) -> (found: bool) {
        let in_name = text_contains(self.name.as_str(), needle);
        let in_bio = optional_text_contains(&self.bio, needle);
        proof {
            let fields = self.text_fields();
            if in_name {
                assert(contains_fold(fields[0], needle@));
            }
            if in_bio {
                assert(contains_fold(fields[1], needle@));
            }
        }
        in_name || in_bio
    }

    fn links_to(&self, url: &str) -> (same: bool) {
        false
    }

    fn is_nsfw(&self) -> (flag: bool) {
        false
    }

    fn community_scope(&self) -> (scope: Option<i32>) {
        None
    }

    fn rank_key(&self, sort: SortType) -> (key: RankKey) {
        let primary: i64 = match sort {
            SortType::New => self.published,
            _ => self.comment_score,
        };
        RankKey { primary, published: self.published, id: self.id as i64 }
    }

    fn duplicate(&self) -> (copy: Self) {
        self.clone()
    }
}

} // verus!
