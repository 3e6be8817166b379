use lemmy_search::entity::{CommentView, CommunityView, PostView, UserView};
use lemmy_search::kinds::{EntityKind, SearchType, SortType, ValidationError};
use lemmy_search::ranking::{rank, Candidate, RankKey};
use lemmy_search::response::{LocalEntity, SearchResponse};
use lemmy_search::site::{diesel_option_overwrite, position_of_user, promote};

fn member(id: i32, name: &str) -> UserView {
    UserView {
        id,
        name: name.to_string(),
        bio: None,
        published: 0,
        post_score: 0,
        comment_score: 0,
    }
}

fn sample_post(id: i32) -> PostView {
    PostView {
        id,
        name: format!("post {}", id),
        url: None,
        body: None,
        creator_id: 1,
        community_id: 1,
        nsfw: false,
        published: 0,
        score: 0,
        hot_rank: 0,
        hot_rank_active: 0,
        my_vote: None,
    }
}

fn sample_comment(id: i32) -> CommentView {
    CommentView {
        id,
        creator_id: 1,
        post_id: 1,
        community_id: 1,
        content: format!("comment {}", id),
        published: 0,
        score: 0,
        hot_rank: 0,
        hot_rank_active: 0,
        my_vote: None,
    }
}

fn sample_community(id: i32) -> CommunityView {
    CommunityView {
        id,
        name: format!("community{}", id),
        title: format!("Community {}", id),
        description: None,
        nsfw: false,
        published: 0,
        number_of_subscribers: 0,
        hot_rank: 0,
    }
}

#[test]
fn search_type_is_read_from_its_exact_name() {
    assert_eq!(SearchType::from_str("All"), Ok(SearchType::All));
    assert_eq!(SearchType::from_str("Comments"), Ok(SearchType::Comments));
    assert_eq!(SearchType::from_str("Posts"), Ok(SearchType::Posts));
    assert_eq!(SearchType::from_str("Communities"), Ok(SearchType::Communities));
    assert_eq!(SearchType::from_str("Users"), Ok(SearchType::Users));
    assert_eq!(SearchType::from_str("Url"), Ok(SearchType::Url));
}

#[test]
fn search_type_refuses_other_names() {
    assert_eq!(SearchType::from_str("posts"), Err(ValidationError::UnknownSearchType));
    assert_eq!(SearchType::from_str("Post"), Err(ValidationError::UnknownSearchType));
    assert_eq!(SearchType::from_str(""), Err(ValidationError::UnknownSearchType));
    assert_eq!(SearchType::from_str("Posts "), Err(ValidationError::UnknownSearchType));
    assert_eq!(SearchType::from_str("New"), Err(ValidationError::UnknownSearchType));
}

#[test]
fn sort_type_is_read_from_its_exact_name() {
    assert_eq!(SortType::from_str("Active"), Ok(SortType::Active));
    assert_eq!(SortType::from_str("Hot"), Ok(SortType::Hot));
    assert_eq!(SortType::from_str("New"), Ok(SortType::New));
    assert_eq!(SortType::from_str("TopDay"), Ok(SortType::TopDay));
    assert_eq!(SortType::from_str("TopWeek"), Ok(SortType::TopWeek));
    assert_eq!(SortType::from_str("TopMonth"), Ok(SortType::TopMonth));
    assert_eq!(SortType::from_str("TopYear"), Ok(SortType::TopYear));
    assert_eq!(SortType::from_str("TopAll"), Ok(SortType::TopAll));
}

#[test]
fn sort_type_refuses_other_names() {
    assert_eq!(SortType::from_str("Newest"), Err(ValidationError::UnknownSortType));
    assert_eq!(SortType::from_str("new"), Err(ValidationError::UnknownSortType));
    assert_eq!(SortType::from_str("Top"), Err(ValidationError::UnknownSortType));
    assert_eq!(SortType::from_str(""), Err(ValidationError::UnknownSortType));
}

#[test]
fn every_search_type_is_read_back_from_its_name() {
    let all = [
        SearchType::All,
        SearchType::Comments,
        SearchType::Posts,
        SearchType::Communities,
        SearchType::Users,
        SearchType::Url,
    ];
    for search_type in all {
        assert_eq!(SearchType::from_str(search_type.as_str()), Ok(search_type));
    }
    assert_eq!(SearchType::Url.as_str(), "Url");
}

#[test]
fn every_sort_type_is_read_back_from_its_name() {
    let all = [
        SortType::Active,
        SortType::Hot,
        SortType::New,
        SortType::TopDay,
        SortType::TopWeek,
        SortType::TopMonth,
        SortType::TopYear,
        SortType::TopAll,
    ];
    for sort in all {
        assert_eq!(SortType::from_str(sort.as_str()), Ok(sort));
    }
    assert_eq!(SortType::TopMonth.as_str(), "TopMonth");
}

#[test]
fn rank_key_compares_component_by_component() {
    let key = RankKey { primary: 5, published: 100, id: 7 };
    assert!(key.beats(&RankKey { primary: 4, published: 900, id: 9 }));
    assert!(key.beats(&RankKey { primary: 5, published: 99, id: 9 }));
    assert!(key.beats(&RankKey { primary: 5, published: 100, id: 6 }));
    assert!(!key.beats(&RankKey { primary: 5, published: 100, id: 7 }));
    assert!(!key.beats(&RankKey { primary: 5, published: 100, id: 8 }));
    assert!(!key.beats(&RankKey { primary: 6, published: 0, id: 0 }));
}

#[test]
fn rank_lists_admitted_rows_best_first() {
    let row = |primary: i64, published: i64, id: i64, admitted: bool| Candidate {
        key: RankKey { primary, published, id },
        admitted,
    };
    let rows = vec![
        row(1, 10, 1, true),
        row(3, 10, 2, true),
        row(9, 10, 3, false),
        row(3, 20, 4, true),
        row(3, 10, 5, true),
    ];
    assert_eq!(rank(&rows), vec![3, 4, 1, 0]);
}

#[test]
fn rank_keeps_the_given_order_of_equal_keys() {
    let key = RankKey { primary: 2, published: 2, id: 2 };
    let kept = Candidate { key, admitted: true };
    let dropped = Candidate { key, admitted: false };
    assert_eq!(rank(&vec![kept, kept, kept]), vec![0, 1, 2]);
    assert_eq!(rank(&vec![kept, dropped, kept]), vec![0, 2]);
    assert_eq!(rank(&vec![dropped, dropped, dropped]), Vec::<usize>::new());
    assert_eq!(rank(&Vec::new()), Vec::<usize>::new());
}

#[test]
fn aggregate_leaves_unfilled_buckets_empty() {
    let response = SearchResponse::aggregate(
        "Comments".to_string(),
        None,
        Some(vec![sample_comment(1), sample_comment(2)]),
        None,
        None,
    );
    assert_eq!(response.type_, "Comments");
    assert_eq!(response.comments, vec![sample_comment(1), sample_comment(2)]);
    assert!(response.posts.is_empty());
    assert!(response.communities.is_empty());
    assert!(response.users.is_empty());
}

#[test]
fn aggregate_of_nothing_is_empty_throughout() {
    let response = SearchResponse::aggregate("All".to_string(), None, None, None, None);
    assert_eq!(
        response,
        SearchResponse {
            type_: "All".to_string(),
            comments: vec![],
            posts: vec![],
            communities: vec![],
            users: vec![],
        }
    );
}

#[test]
fn aggregate_keeps_every_filled_bucket() {
    let response = SearchResponse::aggregate(
        "All".to_string(),
        Some(vec![sample_post(1)]),
        Some(vec![sample_comment(2)]),
        Some(vec![sample_community(3)]),
        Some(vec![member(4, "dana")]),
    );
    assert_eq!(response.posts, vec![sample_post(1)]);
    assert_eq!(response.comments, vec![sample_comment(2)]);
    assert_eq!(response.communities, vec![sample_community(3)]);
    assert_eq!(response.users, vec![member(4, "dana")]);
}

#[test]
fn of_entity_fills_the_bucket_of_the_kind() {
    let post = SearchResponse::of_entity("All".to_string(), LocalEntity::Post(sample_post(1)));
    assert_eq!(post.posts, vec![sample_post(1)]);
    assert!(post.comments.is_empty() && post.communities.is_empty() && post.users.is_empty());

    let comment =
        SearchResponse::of_entity("All".to_string(), LocalEntity::Comment(sample_comment(2)));
    assert_eq!(comment.comments, vec![sample_comment(2)]);
    assert!(comment.posts.is_empty() && comment.communities.is_empty() && comment.users.is_empty());

    let community = SearchResponse::of_entity(
        "All".to_string(),
        LocalEntity::Community(sample_community(3)),
    );
    assert_eq!(community.communities, vec![sample_community(3)]);
    assert!(community.posts.is_empty() && community.comments.is_empty());
    assert!(community.users.is_empty());

    let user = SearchResponse::of_entity("All".to_string(), LocalEntity::User(member(4, "dana")));
    assert_eq!(user.users, vec![member(4, "dana")]);
    assert!(user.posts.is_empty() && user.comments.is_empty() && user.communities.is_empty());
}

#[test]
fn echoing_replaces_the_type_only() {
    let response =
        SearchResponse::of_entity("All".to_string(), LocalEntity::Post(sample_post(1)));
    let echoed = response.echoing("Users".to_string());
    assert_eq!(echoed.type_, "Users");
    assert_eq!(echoed.posts, vec![sample_post(1)]);
    assert!(echoed.users.is_empty());
}

#[test]
fn local_entity_knows_its_kind() {
    assert_eq!(LocalEntity::Post(sample_post(1)).entity_kind(), EntityKind::Post);
    assert_eq!(LocalEntity::Comment(sample_comment(1)).entity_kind(), EntityKind::Comment);
    assert_eq!(LocalEntity::Community(sample_community(1)).entity_kind(), EntityKind::Community);
    assert_eq!(LocalEntity::User(member(1, "ann")).entity_kind(), EntityKind::User);
}

#[test]
fn position_of_user_finds_the_first_match() {
    let admins = vec![member(4, "ann"), member(9, "bob"), member(4, "cy")];
    assert_eq!(position_of_user(&admins, 4), Some(0));
    assert_eq!(position_of_user(&admins, 9), Some(1));
    assert_eq!(position_of_user(&admins, 5), None);
    assert_eq!(position_of_user(&Vec::new(), 5), None);
}

#[test]
fn promote_moves_one_user_to_the_head() {
    let mut admins = vec![member(1, "ann"), member(2, "bob"), member(3, "cy")];
    promote(&mut admins, 2);
    assert_eq!(admins, vec![member(3, "cy"), member(1, "ann"), member(2, "bob")]);
    promote(&mut admins, 0);
    assert_eq!(admins, vec![member(3, "cy"), member(1, "ann"), member(2, "bob")]);
    promote(&mut admins, 1);
    assert_eq!(admins, vec![member(1, "ann"), member(3, "cy"), member(2, "bob")]);
}

#[test]
fn diesel_option_overwrite_tells_keep_clear_and_set_apart() {
    assert_eq!(diesel_option_overwrite(&None), None);
    assert_eq!(diesel_option_overwrite(&Some(String::new())), Some(None));
    assert_eq!(
        diesel_option_overwrite(&Some("icon.png".to_string())),
        Some(Some("icon.png".to_string()))
    );
    assert_eq!(diesel_option_overwrite(&Some(" ".to_string())), Some(Some(" ".to_string())));
}
