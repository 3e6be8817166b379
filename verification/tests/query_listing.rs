use lemmy_search::entity::{CommentView, CommunityView, Entity, PostView, UserView};
use lemmy_search::kinds::SortType;
use lemmy_search::query::{
    BackendError, CommentQueryBuilder, CommunityQueryBuilder, PostQueryBuilder, QueryError,
    UserQueryBuilder, DEFAULT_LIMIT, DEFAULT_PAGE,
};
use lemmy_search::ranking::RankKey;

fn entry(id: i32, name: &str, published: i64) -> PostView {
    PostView {
        id,
        name: name.to_string(),
        url: None,
        body: None,
        creator_id: 1,
        community_id: 1,
        nsfw: false,
        published,
        score: 0,
        hot_rank: 0,
        hot_rank_active: 0,
        my_vote: None,
    }
}

fn scored(id: i32, published: i64, score: i64, hot_rank: i32, hot_rank_active: i32) -> PostView {
    PostView { score, hot_rank, hot_rank_active, ..entry(id, "post", published) }
}

fn remark(id: i32, content: &str, published: i64, score: i64) -> CommentView {
    CommentView {
        id,
        creator_id: 1,
        post_id: 1,
        community_id: 1,
        content: content.to_string(),
        published,
        score,
        hot_rank: 0,
        hot_rank_active: 0,
        my_vote: None,
    }
}

fn group(id: i32, name: &str, title: &str, subscribers: i64, hot_rank: i32) -> CommunityView {
    CommunityView {
        id,
        name: name.to_string(),
        title: title.to_string(),
        description: None,
        nsfw: false,
        published: 100 + id as i64,
        number_of_subscribers: subscribers,
        hot_rank,
    }
}

fn person(id: i32, name: &str, bio: Option<&str>, published: i64, comment_score: i64) -> UserView {
    UserView {
        id,
        name: name.to_string(),
        bio: bio.map(|b| b.to_string()),
        published,
        post_score: 0,
        comment_score,
    }
}

fn ids(posts: &Vec<PostView>) -> Vec<i32> {
    posts.iter().map(|p| p.id).collect()
}

fn twelve() -> Result<Vec<PostView>, BackendError> {
    Ok((1..=12).map(|id| entry(id, "post", id as i64)).collect())
}

fn three_scored() -> Result<Vec<PostView>, BackendError> {
    Ok(vec![scored(1, 100, 5, 10, 1), scored(2, 200, 5, 10, 3), scored(3, 150, 9, 2, 2)])
}

#[test]
fn defaults_are_the_first_page_of_ten() {
    assert_eq!(DEFAULT_PAGE, 1);
    assert_eq!(DEFAULT_LIMIT, 10);
    let source = twelve();
    let listed = PostQueryBuilder::create(&source).sort(&SortType::New).list().unwrap();
    assert_eq!(ids(&listed), vec![12, 11, 10, 9, 8, 7, 6, 5, 4, 3]);
}

#[test]
fn a_fresh_query_ranks_by_heat_and_hides_flagged_rows() {
    let source = Ok(vec![
        scored(1, 10, 0, 1, 0),
        PostView { nsfw: true, ..scored(2, 20, 0, 9, 0) },
        scored(3, 30, 0, 5, 0),
    ]);
    let listed = PostQueryBuilder::create(&source).list().unwrap();
    assert_eq!(ids(&listed), vec![3, 1]);
}

#[test]
fn page_and_limit_select_a_window_of_the_ranking() {
    let source = twelve();
    let page = |page: i64| {
        let listed = PostQueryBuilder::create(&source)
            .sort(&SortType::New)
            .page(Some(page))
            .limit(Some(5))
            .list()
            .unwrap();
        ids(&listed)
    };
    assert_eq!(page(1), vec![12, 11, 10, 9, 8]);
    assert_eq!(page(2), vec![7, 6, 5, 4, 3]);
    assert_eq!(page(3), vec![2, 1]);
    assert_eq!(page(4), Vec::<i32>::new());
    assert_eq!(page(i64::MAX), Vec::<i32>::new());
}

#[test]
fn a_limit_beyond_the_rows_lists_them_all() {
    let source = twelve();
    let listed = PostQueryBuilder::create(&source)
        .sort(&SortType::New)
        .limit(Some(i64::MAX))
        .list()
        .unwrap();
    assert_eq!(ids(&listed), vec![12, 11, 10, 9, 8, 7, 6, 5, 4, 3, 2, 1]);
    let second = PostQueryBuilder::create(&source)
        .sort(&SortType::New)
        .page(Some(2))
        .limit(Some(i64::MAX))
        .list()
        .unwrap();
    assert!(second.is_empty());
}

#[test]
fn a_limit_of_one_lists_one_row_per_page() {
    let source = twelve();
    let listed = PostQueryBuilder::create(&source)
        .sort(&SortType::New)
        .page(Some(12))
        .limit(Some(1))
        .list()
        .unwrap();
    assert_eq!(ids(&listed), vec![1]);
}

#[test]
fn posts_are_ranked_by_each_order() {
    let source = three_scored();
    let by = |sort: SortType| {
        ids(&PostQueryBuilder::create(&source).sort(&sort).list().unwrap())
    };
    assert_eq!(by(SortType::New), vec![2, 3, 1]);
    assert_eq!(by(SortType::Hot), vec![2, 1, 3]);
    assert_eq!(by(SortType::Active), vec![2, 3, 1]);
    assert_eq!(by(SortType::TopAll), vec![3, 2, 1]);
    assert_eq!(by(SortType::TopDay), vec![3, 2, 1]);
    assert_eq!(by(SortType::TopWeek), vec![3, 2, 1]);
    assert_eq!(by(SortType::TopMonth), vec![3, 2, 1]);
    assert_eq!(by(SortType::TopYear), vec![3, 2, 1]);
}

#[test]
fn equal_rank_and_age_fall_back_to_the_larger_id() {
    let source = Ok(vec![scored(7, 50, 4, 0, 0), scored(9, 50, 4, 0, 0), scored(8, 50, 4, 0, 0)]);
    let listed = PostQueryBuilder::create(&source).sort(&SortType::TopAll).list().unwrap();
    assert_eq!(ids(&listed), vec![9, 8, 7]);
}

#[test]
fn rows_alike_in_every_key_keep_their_given_order() {
    let source = Ok(vec![entry(5, "first", 50), entry(5, "second", 50), entry(5, "third", 50)]);
    let listed = PostQueryBuilder::create(&source).sort(&SortType::New).list().unwrap();
    let names: Vec<&str> = listed.iter().map(|p| p.name.as_str()).collect();
    assert_eq!(names, vec!["first", "second", "third"]);
}

#[test]
fn listed_rows_are_equal_to_the_stored_ones() {
    let stored = PostView {
        url: Some("https://example.com/a".to_string()),
        body: Some("body".to_string()),
        my_vote: Some(-1),
        ..scored(3, 30, 4, 5, 6)
    };
    let source = Ok(vec![stored.clone()]);
    let listed = PostQueryBuilder::create(&source).list().unwrap();
    assert_eq!(listed, vec![stored]);
}

#[test]
fn a_search_term_is_matched_in_title_and_body_of_posts() {
    let source = Ok(vec![
        entry(1, "Cats and dogs", 1),
        PostView { body: Some("all about CATS".to_string()), ..entry(2, "pets", 2) },
        PostView { body: Some("all about dogs".to_string()), ..entry(3, "pets", 3) },
        PostView { url: Some("https://cats.example".to_string()), ..entry(4, "link", 4) },
    ]);
    let listed = PostQueryBuilder::create(&source)
        .sort(&SortType::New)
        .search_term("cats".to_string())
        .list()
        .unwrap();
    assert_eq!(ids(&listed), vec![2, 1]);
}

#[test]
fn an_empty_search_term_admits_every_row() {
    let source = twelve();
    let listed = PostQueryBuilder::create(&source)
        .sort(&SortType::New)
        .search_term(String::new())
        .limit(Some(20))
        .list()
        .unwrap();
    assert_eq!(listed.len(), 12);
}

#[test]
fn a_link_is_matched_exactly_against_the_url_of_posts() {
    let source = Ok(vec![
        PostView { url: Some("https://example.com/a".to_string()), ..entry(1, "a", 1) },
        PostView { url: Some("https://example.com/a/b".to_string()), ..entry(2, "b", 2) },
        PostView { url: Some("https://EXAMPLE.com/a".to_string()), ..entry(3, "c", 3) },
        entry(4, "https://example.com/a", 4),
    ]);
    let listed = PostQueryBuilder::create(&source)
        .sort(&SortType::New)
        .url_search("https://example.com/a".to_string())
        .list()
        .unwrap();
    assert_eq!(ids(&listed), vec![1]);
}

#[test]
fn the_last_of_term_and_link_wins() {
    let source = Ok(vec![
        PostView { url: Some("https://example.com/a".to_string()), ..entry(1, "dogs", 1) },
        entry(2, "cats", 2),
    ]);
    let term_last = PostQueryBuilder::create(&source)
        .url_search("https://example.com/a".to_string())
        .search_term("cats".to_string())
        .list()
        .unwrap();
    assert_eq!(ids(&term_last), vec![2]);
    let link_last = PostQueryBuilder::create(&source)
        .search_term("cats".to_string())
        .url_search("https://example.com/a".to_string())
        .list()
        .unwrap();
    assert_eq!(ids(&link_last), vec![1]);
}

#[test]
fn a_link_matches_no_row_of_a_kind_without_links() {
    let source = Ok(vec![remark(1, "https://example.com/a", 1, 0)]);
    let listed = CommentQueryBuilder::create(&source)
        .url_search("https://example.com/a".to_string())
        .list()
        .unwrap();
    assert!(listed.is_empty());
}

#[test]
fn flagged_rows_are_listed_only_on_request() {
    let source = Ok(vec![entry(1, "safe", 1), PostView { nsfw: true, ..entry(2, "flagged", 2) }]);
    let hidden = PostQueryBuilder::create(&source).sort(&SortType::New).list().unwrap();
    assert_eq!(ids(&hidden), vec![1]);
    let shown = PostQueryBuilder::create(&source)
        .sort(&SortType::New)
        .show_nsfw(true)
        .list()
        .unwrap();
    assert_eq!(ids(&shown), vec![2, 1]);
    let hidden_again = PostQueryBuilder::create(&source)
        .sort(&SortType::New)
        .show_nsfw(true)
        .show_nsfw(false)
        .list()
        .unwrap();
    assert_eq!(ids(&hidden_again), vec![1]);
}

#[test]
fn a_community_restricts_posts_and_comments() {
    let posts = Ok(vec![
        PostView { community_id: 2, ..entry(1, "a", 1) },
        PostView { community_id: 3, ..entry(2, "b", 2) },
        PostView { community_id: 2, ..entry(3, "c", 3) },
    ]);
    let in_two = PostQueryBuilder::create(&posts)
        .sort(&SortType::New)
        .for_community_id(Some(2))
        .list()
        .unwrap();
    assert_eq!(ids(&in_two), vec![3, 1]);
    let anywhere = PostQueryBuilder::create(&posts)
        .sort(&SortType::New)
        .for_community_id(Some(2))
        .for_community_id(None)
        .list()
        .unwrap();
    assert_eq!(ids(&anywhere), vec![3, 2, 1]);

    let comments = Ok(vec![
        CommentView { community_id: 2, ..remark(1, "x", 1, 0) },
        CommentView { community_id: 3, ..remark(2, "y", 2, 0) },
    ]);
    let listed = CommentQueryBuilder::create(&comments)
        .for_community_id(Some(3))
        .list()
        .unwrap();
    assert_eq!(listed.iter().map(|c| c.id).collect::<Vec<i32>>(), vec![2]);
}

#[test]
fn a_community_restricts_no_kind_without_one() {
    let users = Ok(vec![person(1, "ann", None, 1, 0), person(2, "bob", None, 2, 0)]);
    let listed = UserQueryBuilder::create(&users)
        .sort(&SortType::New)
        .for_community_id(Some(2))
        .list()
        .unwrap();
    assert_eq!(listed.iter().map(|u| u.id).collect::<Vec<i32>>(), vec![2, 1]);
}

#[test]
fn the_viewer_filters_nothing() {
    let source = three_scored();
    let without = PostQueryBuilder::create(&source).sort(&SortType::New).list().unwrap();
    let with = PostQueryBuilder::create(&source)
        .sort(&SortType::New)
        .my_user_id(Some(7))
        .list()
        .unwrap();
    assert_eq!(with, without);
}

#[test]
fn a_failure_of_the_storage_is_handed_on() {
    let failure = BackendError { reason: "connection lost".to_string() };
    let source: Result<Vec<PostView>, BackendError> = Err(failure.clone());
    let listed = PostQueryBuilder::create(&source)
        .sort(&SortType::New)
        .search_term("cats".to_string())
        .list();
    assert_eq!(listed, Err(QueryError::Backend(failure.clone())));
    assert_eq!(QueryError::Backend(failure.clone()).clone(), QueryError::Backend(failure));
}

#[test]
fn comments_are_matched_in_their_text_and_ranked() {
    let source = Ok(vec![
        remark(1, "I like Cats", 10, 3),
        remark(2, "dogs only", 20, 9),
        remark(3, "cats!", 30, 1),
        remark(4, "more cats", 5, 3),
    ]);
    let newest = CommentQueryBuilder::create(&source)
        .sort(&SortType::New)
        .search_term("cats".to_string())
        .list()
        .unwrap();
    assert_eq!(newest.iter().map(|c| c.id).collect::<Vec<i32>>(), vec![3, 1, 4]);
    let top = CommentQueryBuilder::create(&source)
        .sort(&SortType::TopAll)
        .search_term("cats".to_string())
        .list()
        .unwrap();
    assert_eq!(top.iter().map(|c| c.id).collect::<Vec<i32>>(), vec![1, 4, 3]);
}

#[test]
fn communities_are_matched_in_name_and_title_and_ranked() {
    let source = Ok(vec![
        group(1, "cats", "Felines", 10, 3),
        group(2, "dogs", "Not Cats", 30, 1),
        group(3, "birds", "Birds", 99, 9),
        CommunityView { nsfw: true, ..group(4, "wildcats", "Wild", 50, 5) },
    ]);
    let by = |sort: SortType| {
        CommunityQueryBuilder::create(&source)
            .sort(&sort)
            .search_term("cats".to_string())
            .list()
            .unwrap()
            .iter()
            .map(|c| c.id)
            .collect::<Vec<i32>>()
    };
    assert_eq!(by(SortType::Hot), vec![1, 2]);
    assert_eq!(by(SortType::TopAll), vec![2, 1]);
    assert_eq!(by(SortType::New), vec![2, 1]);
    assert_eq!(by(SortType::TopDay), vec![2, 1]);
    assert_eq!(by(SortType::Active), vec![2, 1]);
    let shown = CommunityQueryBuilder::create(&source)
        .sort(&SortType::TopAll)
        .search_term("cats".to_string())
        .show_nsfw(true)
        .list()
        .unwrap();
    assert_eq!(shown.iter().map(|c| c.id).collect::<Vec<i32>>(), vec![4, 2, 1]);
}

#[test]
fn users_are_matched_in_name_and_biography_and_ranked() {
    let source = Ok(vec![
        person(1, "catlover", None, 10, 5),
        person(2, "bob", Some("I breed CATS"), 20, 1),
        person(3, "carl", Some("dogs"), 30, 9),
        person(4, "cathy", None, 40, 5),
    ]);
    let by = |sort: SortType| {
        UserQueryBuilder::create(&source)
            .sort(&sort)
            .search_term("cat".to_string())
            .list()
            .unwrap()
            .iter()
            .map(|u| u.id)
            .collect::<Vec<i32>>()
    };
    assert_eq!(by(SortType::New), vec![4, 2, 1]);
    assert_eq!(by(SortType::TopAll), vec![4, 1, 2]);
    assert_eq!(by(SortType::Hot), vec![4, 1, 2]);
    assert_eq!(by(SortType::Active), vec![4, 1, 2]);
}

#[test]
fn entities_report_their_keys() {
    let post = scored(3, 30, 4, 5, 6);
    assert_eq!(post.rank_key(SortType::Hot), RankKey { primary: 5, published: 30, id: 3 });
    assert_eq!(post.rank_key(SortType::Active), RankKey { primary: 6, published: 30, id: 3 });
    assert_eq!(post.rank_key(SortType::New), RankKey { primary: 30, published: 30, id: 3 });
    assert_eq!(post.rank_key(SortType::TopWeek), RankKey { primary: 4, published: 30, id: 3 });
    assert_eq!(post.community_scope(), Some(1));
    assert!(!post.is_nsfw());

    let community = group(2, "cats", "Cats", 30, 7);
    assert_eq!(community.rank_key(SortType::Hot), RankKey { primary: 7, published: 102, id: 2 });
    assert_eq!(
        community.rank_key(SortType::TopAll),
        RankKey { primary: 30, published: 102, id: 2 }
    );
    assert_eq!(
        community.rank_key(SortType::TopYear),
        RankKey { primary: 0, published: 102, id: 2 }
    );
    assert_eq!(community.community_scope(), None);

    let user = person(4, "dana", None, 40, 8);
    assert_eq!(user.rank_key(SortType::New), RankKey { primary: 40, published: 40, id: 4 });
    assert_eq!(user.rank_key(SortType::Hot), RankKey { primary: 8, published: 40, id: 4 });
    assert_eq!(user.community_scope(), None);
}

#[test]
fn entities_match_terms_and_links() {
    let needle: Vec<char> = "cat".chars().collect();
    let post = PostView {
        url: Some("https://example.com/a".to_string()),
        body: Some("a CAT".to_string()),
        ..entry(1, "title", 1)
    };
    assert!(post.mentions(&needle));
    assert!(post.links_to("https://example.com/a"));
    assert!(!post.links_to("https://example.com/"));
    assert!(!entry(2, "title", 1).mentions(&needle));
    assert!(!entry(2, "title", 1).links_to(""));
    assert!(remark(1, "Cat", 1, 0).mentions(&needle));
    assert!(!remark(1, "Cat", 1, 0).links_to("Cat"));
    assert!(group(1, "dogs", "Cats", 0, 0).mentions(&needle));
    assert!(person(1, "bob", Some("cat"), 0, 0).mentions(&needle));
    assert!(!person(1, "bob", None, 0, 0).mentions(&needle));
    assert_eq!(post.duplicate(), post);
}
