use mdsns_backend::cruds::{
    add_favorite, create_new_post, get_post_info_by_id, get_post_info_from_parsed, get_posts,
    remove_favorite, search_user_from_db, Answer, CreatePostErr, FavoriteErr, GetPostErr, Lookup,
    PostInfoFlow, Progress, Query,
};
use mdsns_backend::models::{Favorite, Post, PostInfo, User};

const POST_ID: u128 = 0x936da01f_9abd_4d9d_80c7_02af85c822a8;
const POST_TEXT: &str = "936da01f-9abd-4d9d-80c7-02af85c822a8";

fn user(id: &str) -> User {
    User {
        id: id.to_string(),
        name: format!("name of {}", id),
        email: format!("{}@example.com", id),
        description: None,
        created_at: 1_700_000_000_000_000,
        updated_at: 1_700_000_000_000_001,
    }
}

fn post(id: u128, author: &str) -> Post {
    Post {
        id,
        user_id: author.to_string(),
        content_md: "# hello".to_string(),
        content_html: "<h1>hello</h1>".to_string(),
        reply_at: None,
        created_at: 1_700_000_000_000_000,
        updated_at: 1_700_000_000_000_000,
    }
}

fn reply(id: u128, author: &str, to: u128) -> Post {
    let mut p = post(id, author);
    p.reply_at = Some(to);
    p
}

fn favorite(user_id: &str, post_id: u128) -> Favorite {
    Favorite { user_id: user_id.to_string(), post_id, created_at: 1_700_000_000_000_002 }
}

fn next<F, T>(p: Progress<F, T>) -> (F, Query) {
    match p {
        Progress::Next(f, q) => (f, q),
        Progress::Finished(_) => panic!("the flow finished early"),
    }
}

fn finished<F, T>(p: Progress<F, T>) -> T {
    match p {
        Progress::Finished(t) => t,
        Progress::Next(_, q) => panic!("the flow still asks {:?}", q),
    }
}

/// Drives a post's assembly from its author on: `favorites` with one user
/// per favorite, then `replies`.
fn assemble(
    flow: PostInfoFlow,
    author: User,
    favorites: Vec<Favorite>,
    users: Vec<User>,
    replies: Vec<Post>,
) -> PostInfo {
    let post_id = favorites.first().map(|f| f.post_id);
    let (flow, q) = next(flow.step(Answer::User(author)));
    if let Some(id) = post_id {
        assert_eq!(q, Query::FavoritesOfPost { post_id: id });
    }
    let mut expected: Vec<String> = favorites.iter().map(|f| f.user_id.clone()).collect();
    expected.reverse();
    let mut progress = flow.step(Answer::Favorites(favorites));
    for u in users {
        let (flow, q) = next(progress);
        assert_eq!(q, Query::UserById { user_id: expected.pop().unwrap() });
        progress = flow.step(Answer::User(u));
    }
    let (flow, q) = next(progress);
    assert!(matches!(q, Query::RepliesTo { .. }));
    finished(flow.step(Answer::Posts(replies)))
}

#[test]
fn search_user_from_db_finds_registered_id() {
    let users = vec![user("alice"), user("bob")];
    assert!(search_user_from_db(&users, "bob".to_string()));
    assert!(search_user_from_db(&users, "alice".to_string()));
}

#[test]
fn search_user_from_db_misses_unknown_id() {
    let users = vec![user("alice"), user("bob")];
    assert!(!search_user_from_db(&users, "carol".to_string()));
    assert!(!search_user_from_db(&users, "Alice".to_string()));
    assert!(!search_user_from_db(&Vec::new(), "alice".to_string()));
}

#[test]
fn get_post_info_by_id_refuses_text_that_is_no_uuid() {
    for text in ["", "hoge", "936da01f-9abd-4d9d-80c7-02af85c822a", "936da01f-9abd-4d9d-80c7-02af85c822ag"] {
        let outcome = finished(get_post_info_by_id(text.to_string()));
        assert_eq!(outcome, Err(GetPostErr::InvalidParam));
    }
}

#[test]
fn get_post_info_by_id_reads_the_post_named_by_any_uuid_form() {
    for text in [
        POST_TEXT,
        "936DA01F-9ABD-4D9D-80C7-02AF85C822A8",
        "936da01f9abd4d9d80c702af85c822a8",
        "{936da01f-9abd-4d9d-80c7-02af85c822a8}",
        "urn:uuid:936da01f-9abd-4d9d-80c7-02af85c822a8",
    ] {
        let (_, q) = next(get_post_info_by_id(text.to_string()));
        assert_eq!(q, Query::PostById { post_id: POST_ID });
    }
}

#[test]
fn get_post_info_from_parsed_follows_the_parse() {
    assert_eq!(finished(get_post_info_from_parsed(None)), Err(GetPostErr::InvalidParam));
    let (_, q) = next(get_post_info_from_parsed(Some(7)));
    assert_eq!(q, Query::PostById { post_id: 7 });
}

#[test]
fn get_post_info_by_id_assembles_author_favorites_and_replies() {
    let (flow, q) = next(get_post_info_by_id(POST_TEXT.to_string()));
    assert_eq!(q, Query::PostById { post_id: POST_ID });
    let (flow, q) = next(flow.step(Answer::Post(post(POST_ID, "alice"))));
    assert_eq!(q, Query::UserById { user_id: "alice".to_string() });
    let (flow, q) = next(flow.step(Answer::User(user("alice"))));
    assert_eq!(q, Query::FavoritesOfPost { post_id: POST_ID });
    let (flow, q) = next(flow.step(Answer::Favorites(vec![
        favorite("bob", POST_ID),
        favorite("carol", POST_ID),
    ])));
    assert_eq!(q, Query::UserById { user_id: "bob".to_string() });
    let (flow, q) = next(flow.step(Answer::User(user("bob"))));
    assert_eq!(q, Query::UserById { user_id: "carol".to_string() });
    let (flow, q) = next(flow.step(Answer::User(user("carol"))));
    assert_eq!(q, Query::RepliesTo { post_id: POST_ID });
    let info = finished(flow.step(Answer::Posts(vec![
        reply(1, "bob", POST_ID),
        reply(2, "carol", POST_ID),
        reply(3, "bob", POST_ID),
    ])))
    .unwrap();
    assert_eq!(info.base_post, post(POST_ID, "alice"));
    assert_eq!(info.author, user("alice"));
    assert_eq!(info.favorited_by, vec![user("bob"), user("carol")]);
    assert_eq!(info.favorite_count, 2);
    assert_eq!(info.replied_count, 3);
}

#[test]
fn post_without_favorites_goes_straight_to_replies() {
    let (flow, _) = PostInfoFlow::start(post(5, "alice"));
    let (flow, _) = next(flow.step(Answer::User(user("alice"))));
    let (flow, q) = next(flow.step(Answer::Favorites(Vec::new())));
    assert_eq!(q, Query::RepliesTo { post_id: 5 });
    let info = finished(flow.step(Answer::Posts(Vec::new())));
    assert_eq!(info.favorited_by, Vec::new());
    assert_eq!(info.favorite_count, 0);
    assert_eq!(info.replied_count, 0);
}

#[test]
fn unexpected_answer_asks_the_same_query_again() {
    let (flow, q) = PostInfoFlow::start(post(5, "alice"));
    assert_eq!(q, Query::UserById { user_id: "alice".to_string() });
    let (flow, q) = next(flow.step(Answer::Written(true)));
    assert_eq!(q, Query::UserById { user_id: "alice".to_string() });
    assert_eq!(flow.query(), q);
    let (flow, q) = next(flow.step(Answer::User(user("alice"))));
    let (_, again) = next(flow.step(Answer::Lookup(Lookup::Found)));
    assert_eq!(again, q);
}

#[test]
fn create_new_post_inserts_then_reads_back_by_new_id() {
    let author = "alice".to_string();
    let md = "text".to_string();
    let html = "<p>text</p>".to_string();
    let (flow, q) = create_new_post(&author, &md, &html, &None);
    assert_eq!(
        q,
        Query::InsertPost {
            author_id: author.clone(),
            content_md: md.clone(),
            content_html: html.clone(),
            reply_at: None,
        }
    );
    let new_id: u128 = 0x0123_4567_89ab_cdef_fedc_ba98_7654_3210;
    let (flow, q) = next(flow.step(Answer::Post(post(new_id, "alice"))));
    assert_eq!(q, Query::PostById { post_id: new_id });
    let (flow, _) = next(flow.step(Answer::Post(post(new_id, "alice"))));
    let info = assemble(flow_of_create(flow), user("alice"), Vec::new(), Vec::new(), Vec::new());
    assert_eq!(info.base_post.id, new_id);
}

fn flow_of_create(flow: mdsns_backend::cruds::CreatePostFlow) -> PostInfoFlow {
    match flow {
        mdsns_backend::cruds::CreatePostFlow::Loading {
            flow: mdsns_backend::cruds::GetPostInfoFlow::Assembling { flow },
        } => flow,
        _ => panic!("the creation is not assembling the post's details"),
    }
}

#[test]
fn create_new_post_as_reply_carries_the_replied_post() {
    let author = "bob".to_string();
    let md = "re".to_string();
    let (flow, q) = create_new_post(&author, &md, &md, &Some(POST_ID));
    assert_eq!(
        q,
        Query::InsertPost {
            author_id: author,
            content_md: md.clone(),
            content_html: md,
            reply_at: Some(POST_ID),
        }
    );
    assert_eq!(flow.query(), q);
    let (_, again) = next(flow.step(Answer::Lookup(Lookup::Missing)));
    assert_eq!(again, q);
}

#[test]
fn create_new_post_finishes_with_the_details_of_the_new_post() {
    let author = "alice".to_string();
    let md = "a".to_string();
    let (flow, _) = create_new_post(&author, &md, &md, &None);
    let (flow, _) = next(flow.step(Answer::Post(post(9, "alice"))));
    let (flow, _) = next(flow.step(Answer::Post(post(9, "alice"))));
    let (flow, _) = next(flow.step(Answer::User(user("alice"))));
    let (flow, _) = next(flow.step(Answer::Favorites(vec![favorite("bob", 9)])));
    let (flow, _) = next(flow.step(Answer::User(user("bob"))));
    let info = finished(flow.step(Answer::Posts(Vec::new()))).unwrap();
    assert_eq!(info.base_post, post(9, "alice"));
    assert_eq!(info.favorited_by, vec![user("bob")]);
    assert_eq!(info.favorite_count, 1);
}

#[test]
fn create_post_err_display_texts() {
    assert_eq!(CreatePostErr::InvalidParam.to_string(), "Paramaters are invalid");
    assert_eq!(CreatePostErr::InternalServerError.to_string(), "InternalServerError");
}

#[test]
fn add_favorite_refuses_invalid_post_id() {
    let outcome = finished(add_favorite("hoge_id".to_string(), "not-a-uuid".to_string()));
    assert_eq!(outcome, Err(FavoriteErr::InvalidParam));
}

#[test]
fn add_favorite_reports_missing_post() {
    let (flow, q) = next(add_favorite("hoge_id".to_string(), POST_TEXT.to_string()));
    assert_eq!(q, Query::PostExists { post_id: POST_ID });
    assert_eq!(finished(flow.step(Answer::Lookup(Lookup::Missing))), Err(FavoriteErr::NotFound));
}

#[test]
fn add_favorite_reports_failed_post_lookup() {
    let (flow, _) = next(add_favorite("hoge_id".to_string(), POST_TEXT.to_string()));
    assert_eq!(
        finished(flow.step(Answer::Lookup(Lookup::Failed))),
        Err(FavoriteErr::InternalServerError)
    );
}

#[test]
fn add_favorite_inserts_missing_favorite_then_reads_post() {
    let (flow, _) = next(add_favorite("hoge_id".to_string(), POST_TEXT.to_string()));
    let (flow, q) = next(flow.step(Answer::Lookup(Lookup::Found)));
    assert_eq!(q, Query::FavoriteExists { user_id: "hoge_id".to_string(), post_id: POST_ID });
    let (flow, q) = next(flow.step(Answer::Lookup(Lookup::Missing)));
    assert_eq!(q, Query::InsertFavorite { user_id: "hoge_id".to_string(), post_id: POST_ID });
    let (flow, q) = next(flow.step(Answer::Written(true)));
    assert_eq!(q, Query::PostById { post_id: POST_ID });
    let (flow, _) = next(flow.step(Answer::Post(post(POST_ID, "alice"))));
    let (flow, _) = next(flow.step(Answer::User(user("alice"))));
    let (flow, _) = next(flow.step(Answer::Favorites(vec![favorite("hoge_id", POST_ID)])));
    let (flow, _) = next(flow.step(Answer::User(user("hoge_id"))));
    let info = finished(flow.step(Answer::Posts(Vec::new()))).unwrap();
    assert_eq!(info.favorited_by, vec![user("hoge_id")]);
    assert_eq!(info.favorite_count, 1);
}

#[test]
fn add_favorite_skips_existing_favorite() {
    let (flow, _) = next(add_favorite("hoge_id".to_string(), POST_TEXT.to_string()));
    let (flow, _) = next(flow.step(Answer::Lookup(Lookup::Found)));
    let (_, q) = next(flow.step(Answer::Lookup(Lookup::Found)));
    assert_eq!(q, Query::PostById { post_id: POST_ID });
}

#[test]
fn add_favorite_reports_failed_favorite_lookup_and_write() {
    let (flow, _) = next(add_favorite("hoge_id".to_string(), POST_TEXT.to_string()));
    let (flow, _) = next(flow.step(Answer::Lookup(Lookup::Found)));
    assert_eq!(
        finished(flow.step(Answer::Lookup(Lookup::Failed))),
        Err(FavoriteErr::InternalServerError)
    );
    let (flow, _) = next(add_favorite("hoge_id".to_string(), POST_TEXT.to_string()));
    let (flow, _) = next(flow.step(Answer::Lookup(Lookup::Found)));
    let (flow, _) = next(flow.step(Answer::Lookup(Lookup::Missing)));
    assert_eq!(finished(flow.step(Answer::Written(false))), Err(FavoriteErr::InternalServerError));
}

#[test]
fn remove_favorite_deletes_existing_favorite() {
    let (flow, q) = next(remove_favorite("hoge_id".to_string(), POST_TEXT.to_string()));
    assert_eq!(q, Query::PostRows { post_id: POST_ID });
    let (flow, q) = next(flow.step(Answer::Lookup(Lookup::Found)));
    assert_eq!(q, Query::FavoriteRows { user_id: "hoge_id".to_string(), post_id: POST_ID });
    let (flow, q) = next(flow.step(Answer::Lookup(Lookup::Found)));
    assert_eq!(q, Query::DeleteFavorite { user_id: "hoge_id".to_string(), post_id: POST_ID });
    let (_, q) = next(flow.step(Answer::Written(true)));
    assert_eq!(q, Query::PostById { post_id: POST_ID });
}

#[test]
fn remove_favorite_skips_missing_favorite() {
    let (flow, _) = next(remove_favorite("hoge_id".to_string(), POST_TEXT.to_string()));
    let (flow, _) = next(flow.step(Answer::Lookup(Lookup::Found)));
    let (_, q) = next(flow.step(Answer::Lookup(Lookup::Missing)));
    assert_eq!(q, Query::PostById { post_id: POST_ID });
}

#[test]
fn remove_favorite_errors() {
    assert_eq!(
        finished(remove_favorite("u".to_string(), "{bad}".to_string())),
        Err(FavoriteErr::InvalidParam)
    );
    let (flow, _) = next(remove_favorite("u".to_string(), POST_TEXT.to_string()));
    assert_eq!(finished(flow.step(Answer::Lookup(Lookup::Missing))), Err(FavoriteErr::NotFound));
    let (flow, _) = next(remove_favorite("u".to_string(), POST_TEXT.to_string()));
    let (flow, _) = next(flow.step(Answer::Lookup(Lookup::Found)));
    let (flow, _) = next(flow.step(Answer::Lookup(Lookup::Found)));
    assert_eq!(finished(flow.step(Answer::Written(false))), Err(FavoriteErr::InternalServerError));
}

#[test]
fn get_posts_defaults_to_first_page_of_thirty() {
    let (_, q) = get_posts(None, None);
    assert_eq!(q, Query::TopLevelPosts { limit: 30, offset: 0 });
    let (_, q) = get_posts(None, Some(2));
    assert_eq!(q, Query::TopLevelPosts { limit: 30, offset: 60 });
}

#[test]
fn get_posts_skips_whole_pages() {
    let (_, q) = get_posts(Some(10), Some(3));
    assert_eq!(q, Query::TopLevelPosts { limit: 10, offset: 30 });
    let (_, q) = get_posts(Some(7), None);
    assert_eq!(q, Query::TopLevelPosts { limit: 7, offset: 0 });
}

#[test]
fn get_posts_of_empty_page_is_empty() {
    let (flow, _) = get_posts(None, None);
    assert_eq!(finished(flow.step(Answer::Posts(Vec::new()))), Vec::new());
}

#[test]
fn get_posts_assembles_each_post_in_listed_order() {
    let (flow, _) = get_posts(Some(2), None);
    let (flow, q) = next(flow.step(Answer::Posts(vec![post(1, "alice"), post(2, "bob")])));
    assert_eq!(q, Query::UserById { user_id: "alice".to_string() });
    let (flow, _) = next(flow.step(Answer::User(user("alice"))));
    let (flow, q) = next(flow.step(Answer::Favorites(Vec::new())));
    assert_eq!(q, Query::RepliesTo { post_id: 1 });
    let (flow, q) = next(flow.step(Answer::Posts(vec![reply(3, "bob", 1)])));
    assert_eq!(q, Query::UserById { user_id: "bob".to_string() });
    let (flow, _) = next(flow.step(Answer::User(user("bob"))));
    let (flow, q) = next(flow.step(Answer::Favorites(vec![favorite("alice", 2)])));
    assert_eq!(q, Query::UserById { user_id: "alice".to_string() });
    let (flow, _) = next(flow.step(Answer::User(user("alice"))));
    let infos = finished(flow.step(Answer::Posts(Vec::new())));
    assert_eq!(infos.len(), 2);
    assert_eq!(infos[0].base_post, post(1, "alice"));
    assert_eq!(infos[0].replied_count, 1);
    assert_eq!(infos[0].favorite_count, 0);
    assert_eq!(infos[1].base_post, post(2, "bob"));
    assert_eq!(infos[1].author, user("bob"));
    assert_eq!(infos[1].favorited_by, vec![user("alice")]);
    assert_eq!(infos[1].favorite_count, 1);
}
