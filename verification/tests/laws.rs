use std::collections::HashSet;

use mdsns_backend::cruds::{add_favorite, remove_favorite, Answer, FavoriteFlow, Lookup, Progress, Query};

const POST_TEXT: &str = "00000000-0000-0000-0000-00000000002a";

/// Runs a favorite change against an in-memory table of favorites up to the
/// point where it reads the post back, and gives back that table.
fn run(start: Progress<FavoriteFlow, Result<mdsns_backend::models::PostInfo, mdsns_backend::cruds::FavoriteErr>>, table: &mut HashSet<(String, u128)>) {
    let mut progress = start;
    loop {
        let (flow, query) = match progress {
            Progress::Next(f, q) => (f, q),
            Progress::Finished(_) => panic!("the change finished early"),
        };
        let answer = match &query {
            Query::PostExists { .. } | Query::PostRows { .. } => Answer::Lookup(Lookup::Found),
            Query::FavoriteExists { user_id, post_id } | Query::FavoriteRows { user_id, post_id } => {
                if table.contains(&(user_id.clone(), *post_id)) {
                    Answer::Lookup(Lookup::Found)
                } else {
                    Answer::Lookup(Lookup::Missing)
                }
            }
            Query::InsertFavorite { user_id, post_id } => {
                Answer::Written(table.insert((user_id.clone(), *post_id)))
            }
            Query::DeleteFavorite { user_id, post_id } => {
                table.remove(&(user_id.clone(), *post_id));
                Answer::Written(true)
            }
            Query::PostById { .. } => return,
            other => panic!("unexpected query {:?}", other),
        };
        progress = flow.step(answer);
    }
}

#[test]
fn adding_a_favorite_twice_is_adding_it_once() {
    let mut table = HashSet::new();
    table.insert(("other".to_string(), 42u128));
    run(add_favorite("hoge_id".to_string(), POST_TEXT.to_string()), &mut table);
    let once = table.clone();
    run(add_favorite("hoge_id".to_string(), POST_TEXT.to_string()), &mut table);
    assert_eq!(table, once);
    assert!(table.contains(&("hoge_id".to_string(), 42)));
    assert_eq!(table.len(), 2);
}

#[test]
fn removing_a_favorite_twice_is_removing_it_once() {
    let mut table = HashSet::new();
    table.insert(("hoge_id".to_string(), 42u128));
    table.insert(("other".to_string(), 42u128));
    run(remove_favorite("hoge_id".to_string(), POST_TEXT.to_string()), &mut table);
    let once = table.clone();
    run(remove_favorite("hoge_id".to_string(), POST_TEXT.to_string()), &mut table);
    assert_eq!(table, once);
    assert_eq!(table.len(), 1);
    assert!(table.contains(&("other".to_string(), 42)));
}

use mdsns_backend::cruds::{
    create_new_post, get_post_info_by_id, get_posts, CreatePostFlow, FirebaseUser, GetPostInfoFlow,
    PostListFlow,
};
use mdsns_backend::middle::{check_firebase, CheckFirebaseResult, FirebaseFlow};
use mdsns_backend::models::{Favorite, Post, PostInfo, User};

/// An in-memory database that answers every query the way the tables do.
struct Db {
    users: Vec<User>,
    posts: Vec<Post>,
    favorites: Vec<Favorite>,
    accounts: Vec<FirebaseUser>,
    next_id: u128,
}

fn row_user(id: &str) -> User {
    User {
        id: id.to_string(),
        name: id.to_uppercase(),
        email: format!("{}@example.com", id),
        description: None,
        created_at: 10,
        updated_at: 10,
    }
}

fn row_post(id: u128, author: &str, reply_at: Option<u128>) -> Post {
    Post {
        id,
        user_id: author.to_string(),
        content_md: format!("post {}", id),
        content_html: format!("<p>post {}</p>", id),
        reply_at,
        created_at: 20,
        updated_at: 20,
    }
}

impl Db {
    fn sample() -> Db {
        Db {
            users: vec![row_user("alice"), row_user("bob"), row_user("carol")],
            posts: vec![
                row_post(42, "alice", None),
                row_post(43, "bob", Some(42)),
                row_post(44, "carol", Some(42)),
                row_post(45, "bob", None),
            ],
            favorites: vec![
                Favorite { user_id: "bob".to_string(), post_id: 42, created_at: 30 },
                Favorite { user_id: "carol".to_string(), post_id: 42, created_at: 31 },
                Favorite { user_id: "alice".to_string(), post_id: 45, created_at: 32 },
            ],
            accounts: vec![FirebaseUser { local_id: "dave".to_string(), email: "d@mail".to_string() }],
            next_id: 100,
        }
    }

    fn user(&self, id: &str) -> User {
        self.users.iter().find(|u| u.id == id).cloned().expect("no such user")
    }

    fn post(&self, id: u128) -> Post {
        self.posts.iter().find(|p| p.id == id).cloned().expect("no such post")
    }

    fn details(&self, id: u128) -> PostInfo {
        let post = self.post(id);
        let favorited_by: Vec<User> = self
            .favorites
            .iter()
            .filter(|f| f.post_id == id)
            .map(|f| self.user(&f.user_id))
            .collect();
        let replies = self.posts.iter().filter(|p| p.reply_at == Some(id)).count();
        PostInfo {
            author: self.user(&post.user_id),
            favorite_count: favorited_by.len() as i64,
            favorited_by,
            replied_count: replies as i64,
            base_post: post,
        }
    }

    fn answer(&mut self, query: Query) -> Answer {
        match query {
            Query::ListUsers => Answer::Users(self.users.clone()),
            Query::InsertUser { id, name, email } => {
                self.users.push(User { id, name, email, description: None, created_at: 50, updated_at: 50 });
                Answer::User(self.users[0].clone())
            }
            Query::FirebaseLookup { token } => Answer::FirebaseUser(
                self.accounts
                    .iter()
                    .find(|a| format!("token-{}", a.local_id) == token)
                    .map(|a| FirebaseUser { local_id: a.local_id.clone(), email: a.email.clone() }),
            ),
            Query::TopLevelPosts { limit, offset } => Answer::Posts(
                self.posts
                    .iter()
                    .filter(|p| p.reply_at.is_none())
                    .skip(offset as usize)
                    .take(limit as usize)
                    .cloned()
                    .collect(),
            ),
            Query::PostById { post_id } => Answer::Post(self.post(post_id)),
            Query::UserById { user_id } => Answer::User(self.user(&user_id)),
            Query::FavoritesOfPost { post_id } => Answer::Favorites(
                self.favorites
                    .iter()
                    .filter(|f| f.post_id == post_id)
                    .cloned()
                    .collect(),
            ),
            Query::RepliesTo { post_id } => Answer::Posts(
                self.posts.iter().filter(|p| p.reply_at == Some(post_id)).cloned().collect(),
            ),
            Query::InsertPost { author_id, content_md, content_html, reply_at } => {
                let id = self.next_id;
                self.next_id += 1;
                self.posts.push(Post { id, user_id: author_id, content_md, content_html, reply_at, created_at: 60, updated_at: 60 });
                Answer::Post(self.post(id))
            }
            Query::PostExists { post_id } => Answer::Lookup(if self.posts.iter().any(|p| p.id == post_id) {
                Lookup::Found
            } else {
                Lookup::Missing
            }),
            Query::PostRows { .. } | Query::FavoriteRows { .. } => Answer::Lookup(Lookup::Found),
            Query::FavoriteExists { user_id, post_id } => Answer::Lookup(
                if self.favorites.iter().any(|f| f.user_id == user_id && f.post_id == post_id) {
                    Lookup::Found
                } else {
                    Lookup::Missing
                },
            ),
            Query::InsertFavorite { user_id, post_id } => {
                self.favorites.push(Favorite { user_id, post_id, created_at: 70 });
                Answer::Written(true)
            }
            Query::DeleteFavorite { user_id, post_id } => {
                self.favorites.retain(|f| !(f.user_id == user_id && f.post_id == post_id));
                Answer::Written(true)
            }
        }
    }
}

trait Feed: Sized {
    type Out;
    fn feed(self, answer: Answer) -> Progress<Self, Self::Out>;
}

impl Feed for GetPostInfoFlow {
    type Out = Result<PostInfo, mdsns_backend::cruds::GetPostErr>;
    fn feed(self, answer: Answer) -> Progress<Self, Self::Out> {
        self.step(answer)
    }
}

impl Feed for PostListFlow {
    type Out = Vec<PostInfo>;
    fn feed(self, answer: Answer) -> Progress<Self, Self::Out> {
        self.step(answer)
    }
}

impl Feed for CreatePostFlow {
    type Out = Result<PostInfo, mdsns_backend::cruds::CreatePostErr>;
    fn feed(self, answer: Answer) -> Progress<Self, Self::Out> {
        self.step(answer)
    }
}

impl Feed for FavoriteFlow {
    type Out = Result<PostInfo, mdsns_backend::cruds::FavoriteErr>;
    fn feed(self, answer: Answer) -> Progress<Self, Self::Out> {
        self.step(answer)
    }
}

impl Feed for FirebaseFlow {
    type Out = CheckFirebaseResult;
    fn feed(self, answer: Answer) -> Progress<Self, Self::Out> {
        self.step(answer)
    }
}

fn drive<F: Feed>(db: &mut Db, start: Progress<F, F::Out>) -> (F::Out, Vec<Query>) {
    let mut asked = Vec::new();
    let mut progress = start;
    loop {
        match progress {
            Progress::Finished(out) => return (out, asked),
            Progress::Next(flow, query) => {
                asked.push(query.clone());
                let answer = db.answer(query);
                progress = flow.feed(answer);
            }
        }
    }
}

fn writes(asked: &[Query]) -> usize {
    asked
        .iter()
        .filter(|q| matches!(q, Query::InsertFavorite { .. } | Query::DeleteFavorite { .. } | Query::InsertUser { .. }))
        .count()
}

#[test]
fn reading_a_post_gives_back_its_stored_details_example() {
    let mut db = Db::sample();
    let (outcome, _) = drive(&mut db, get_post_info_by_id("00000000-0000-0000-0000-00000000002a".to_string()));
    let info = outcome.unwrap();
    assert_eq!(info, db.details(42));
    assert_eq!(info.favorited_by, vec![row_user("bob"), row_user("carol")]);
    assert_eq!(info.favorite_count, 2);
    assert_eq!(info.replied_count, 2);
}

#[test]
fn listing_gives_back_stored_details_example() {
    let mut db = Db::sample();
    let (flow, query) = get_posts(Some(30), Some(0));
    let (infos, _) = drive(&mut db, Progress::Next(flow, query));
    assert_eq!(infos, vec![db.details(42), db.details(45)]);
    let (flow, query) = get_posts(Some(1), Some(1));
    let (infos, _) = drive(&mut db, Progress::Next(flow, query));
    assert_eq!(infos, vec![db.details(45)]);
}

#[test]
fn creating_a_post_gives_back_its_stored_details_example() {
    let mut db = Db::sample();
    let author = "carol".to_string();
    let text = "new".to_string();
    let (flow, query) = create_new_post(&author, &text, &text, &Some(45));
    let (outcome, _) = drive(&mut db, Progress::Next(flow, query));
    let info = outcome.unwrap();
    assert_eq!(info, db.details(100));
    assert_eq!(info.author, row_user("carol"));
    assert_eq!(info.base_post.reply_at, Some(45));
    assert_eq!(db.details(45).replied_count, 1);
}

#[test]
fn favoriting_a_post_lists_the_user_example() {
    let mut db = Db::sample();
    let (outcome, asked) = drive(&mut db, add_favorite("alice".to_string(), "00000000-0000-0000-0000-00000000002a".to_string()));
    let info = outcome.unwrap();
    assert_eq!(writes(&asked), 1);
    assert!(info.favorited_by.contains(&row_user("alice")));
    assert_eq!(info.favorite_count, 3);
    let (outcome, asked) = drive(&mut db, add_favorite("alice".to_string(), "00000000-0000-0000-0000-00000000002a".to_string()));
    assert_eq!(writes(&asked), 0);
    assert_eq!(outcome.unwrap().favorite_count, 3);
}

#[test]
fn withdrawing_a_favorite_drops_the_user_example() {
    let mut db = Db::sample();
    let (outcome, _) = drive(&mut db, remove_favorite("bob".to_string(), "00000000-0000-0000-0000-00000000002a".to_string()));
    let info = outcome.unwrap();
    assert_eq!(info.favorited_by, vec![row_user("carol")]);
    assert_eq!(info.favorite_count, 1);
    assert!(!db.favorites.iter().any(|f| f.user_id == "bob" && f.post_id == 42));
}

#[test]
fn authentication_registers_each_account_once_example() {
    let mut db = Db::sample();
    let (outcome, asked) = drive(&mut db, check_firebase(Some("token-dave".to_string())));
    assert_eq!(outcome, Ok(true));
    assert_eq!(writes(&asked), 1);
    let dave = db.users.last().unwrap();
    assert_eq!((dave.id.as_str(), dave.name.as_str(), dave.email.as_str()), ("dave", "dave", "d@mail"));
    let (outcome, asked) = drive(&mut db, check_firebase(Some("token-dave".to_string())));
    assert_eq!(outcome, Ok(true));
    assert_eq!(writes(&asked), 0);
    let (outcome, _) = drive(&mut db, check_firebase(Some("token-eve".to_string())));
    assert_eq!(outcome, Err(mdsns_backend::middle::CheckFirebaseErr::UserFirebaseNotFound));
}

const POST_42: &str = "00000000-0000-0000-0000-00000000002a";

#[test]
fn favoriting_twice_is_favoriting_once_example() {
    let mut db = Db::sample();
    let (first, _) = drive(&mut db, add_favorite("alice".to_string(), POST_42.to_string()));
    let once = db.favorites.clone();
    let (second, asked) = drive(&mut db, add_favorite("alice".to_string(), POST_42.to_string()));
    assert_eq!(writes(&asked), 0);
    assert_eq!(db.favorites, once);
    assert_eq!(first.unwrap(), second.unwrap());
}

#[test]
fn withdrawing_a_new_favorite_restores_the_tables_example() {
    let mut db = Db::sample();
    let before = db.favorites.clone();
    let details_before = db.details(42);
    let (added, _) = drive(&mut db, add_favorite("alice".to_string(), POST_42.to_string()));
    assert_eq!(added.unwrap().favorite_count, 3);
    let (withdrawn, _) = drive(&mut db, remove_favorite("alice".to_string(), POST_42.to_string()));
    assert_eq!(db.favorites, before);
    let info = withdrawn.unwrap();
    assert_eq!(info, details_before);
    assert_eq!(info.favorite_count, 2);
}

#[test]
fn withdrawing_a_favorite_leaves_no_favoriting_user_of_that_id() {
    let mut db = Db::sample();
    let (outcome, _) = drive(&mut db, remove_favorite("carol".to_string(), POST_42.to_string()));
    assert!(outcome.unwrap().favorited_by.iter().all(|u| u.id != "carol"));
}

#[test]
fn stored_details_name_the_author_of_the_post() {
    let mut db = Db::sample();
    let (outcome, _) = drive(&mut db, get_post_info_by_id(POST_42.to_string()));
    let info = outcome.unwrap();
    assert_eq!(info.author.id, info.base_post.user_id);
}

#[test]
fn a_listed_post_reads_back_the_same_example() {
    let mut db = Db::sample();
    let (flow, query) = get_posts(None, None);
    let (infos, _) = drive(&mut db, Progress::Next(flow, query));
    assert_eq!(infos.len(), 2);
    for info in infos {
        let text = format!("{:032x}", info.base_post.id);
        let (read, _) = drive(&mut db, get_post_info_by_id(text));
        assert_eq!(read.unwrap(), info);
    }
}

#[test]
fn listing_only_reads_example() {
    let mut db = Db::sample();
    let (users, posts, favorites) = (db.users.clone(), db.posts.clone(), db.favorites.clone());
    let (flow, query) = get_posts(Some(1), None);
    let (infos, asked) = drive(&mut db, Progress::Next(flow, query));
    assert_eq!(infos, vec![db.details(42)]);
    assert_eq!(writes(&asked), 0);
    assert_eq!((db.users, db.posts, db.favorites), (users, posts, favorites));
}

#[test]
fn listing_defaults_are_30_posts_from_page_0_example() {
    let (_, defaults) = get_posts(None, None);
    let (_, explicit) = get_posts(Some(30), Some(0));
    assert_eq!(defaults, explicit);
    assert_eq!(defaults, Query::TopLevelPosts { limit: 30, offset: 0 });
    let (_, no_page) = get_posts(Some(5), None);
    assert_eq!(no_page, Query::TopLevelPosts { limit: 5, offset: 0 });
    let (_, no_length) = get_posts(None, Some(2));
    assert_eq!(no_length, Query::TopLevelPosts { limit: 30, offset: 60 });
}

#[test]
fn post_ids_name_one_uuid_in_any_form_example() {
    let forms = [
        POST_42.to_string(),
        POST_42.to_uppercase(),
        format!("{:032x}", 42u128),
        format!("{:032X}", 42u128),
        format!("{{{}}}", POST_42),
        format!("URN:UUID:{}", POST_42.to_uppercase()),
    ];
    for text in forms {
        let mut db = Db::sample();
        let (outcome, _) = drive(&mut db, get_post_info_by_id(text));
        assert_eq!(outcome.unwrap(), db.details(42));
    }
    for text in ["bad", "00000000-0000-0000-0000-00000000002g", "0000000000000000000000000000002a0"] {
        let mut db = Db::sample();
        let (outcome, asked) = drive(&mut db, get_post_info_by_id(text.to_string()));
        assert_eq!(outcome, Err(mdsns_backend::cruds::GetPostErr::InvalidParam));
        assert!(asked.is_empty());
    }
}

#[test]
fn favoriting_lists_the_user_exactly_once_example() {
    let mut db = Db::sample();
    for _ in 0..2 {
        let (outcome, _) = drive(&mut db, add_favorite("carol".to_string(), POST_42.to_string()));
        let info = outcome.unwrap();
        assert_eq!(info.favorited_by.iter().filter(|u| u.id == "carol").count(), 1);
        assert_eq!(info.favorite_count, 2);
    }
}
