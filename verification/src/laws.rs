//! Properties of the flows that hold over whole classes of states and
//! answers.
use vstd::prelude::*;
use crate::cruds::{
    AnswerView, CreatePostErr, CreatePostView, FavoriteFlowView, FavoriteStageView, GetPostErr,
    GetPostInfoView, InfoStage, ListStageView, Lookup, Outcome, PostInfoFlowView, PostListView,
    Query, listing_start, writes_rows,
};
use crate::models::{Favorite, Post, PostInfoView, User};
use crate::cruds::FirebaseUser;
use crate::middle::{CheckFirebaseErr, CheckFirebaseResult, FirebaseFlowView, FirebaseStage, registered};
use crate::identifiers::{ascii_lower, ascii_upper, hyphenated_text, names_uuid, simple_text, uuid_parse};

verus! {

/// Every step of a post's assembly keeps its state well formed and about
/// the same post; the details it ends with are those of that post, with one
/// favoriting user per favorite and `favorite_count` equal to their number.
pub proof fn post_info_assembly_counts_favorites(v: PostInfoFlowView, answer: AnswerView)
    requires
        v.wf(),
    ensures
        match v.step(answer) {
            Outcome::Continue(w) => w.wf() && w.post == v.post,
            Outcome::Stop(info) => {
                &&& info.base_post == v.post
                &&& info.favorited_by.len() == v.favorites.len()
                &&& info.favorite_count == info.favorited_by.len() as i64
            },
        },
{
}

/// Once the post is read, reading a post's details never fails: every
/// result it ends with is the details of the post that was read.
pub proof fn reading_a_read_post_never_fails(v: GetPostInfoView, answer: AnswerView)
    ensures
        v.step(answer) matches Outcome::Stop(result) ==> (v matches GetPostInfoView::Assembling {
            flow,
        } && result == Ok::<_, crate::cruds::GetPostErr>(flow.finish(
            answer->Posts_0,
        ))),
{
}

/// Creating a post never ends in an error: the id the database gives the
/// new post is written as text and read back as the same id.
pub proof fn creating_a_post_never_fails(v: CreatePostView, answer: AnswerView)
    ensures
        !(v.step(answer) matches Outcome::Stop(Err(_))),
        v matches CreatePostView::Inserting { .. } ==> (answer matches AnswerView::Post(post)
            ==> v.step(answer) == Outcome::<CreatePostView, Result<crate::models::PostInfoView, CreatePostErr>>::Continue(
            CreatePostView::Loading { flow: GetPostInfoView::Waiting { post_id: post.id } },
        )),
{
}

/// Creating a post asks the database to store exactly what was given: the
/// author, the Markdown, the HTML and the post it replies to, for a reply
/// as for a top-level post; and once stored, the post's details are read by
/// the id the database gave it.
pub proof fn creating_a_post_stores_what_was_given(
    author_id: String,
    content_md: String,
    content_html: String,
    reply_at: Option<u128>,
    created: Post,
)
    ensures
        ({
            let creation = CreatePostView::Inserting { author_id, content_md, content_html, reply_at };
            &&& creation.query() == (Query::InsertPost {
                author_id,
                content_md,
                content_html,
                reply_at,
            })
            &&& creation.step(AnswerView::Post(created)) == Outcome::<
                CreatePostView,
                Result<crate::models::PostInfoView, CreatePostErr>,
            >::Continue(
                CreatePostView::Loading { flow: GetPostInfoView::Waiting { post_id: created.id } },
            )
        }),
{
}

/// The favorites after the write that a step issues next, if it issues one.
pub open spec fn favorites_after<T>(
    favorites: Set<(String, u128)>,
    next: Outcome<FavoriteFlowView, T>,
) -> Set<(String, u128)> {
    match next {
        Outcome::Continue(w) => match w.query() {
            Query::InsertFavorite { user_id, post_id } => favorites.insert((user_id, post_id)),
            Query::DeleteFavorite { user_id, post_id } => favorites.remove((user_id, post_id)),
            _ => favorites,
        },
        Outcome::Stop(_) => favorites,
    }
}

/// What the database answers when asked whether a favorite exists.
pub open spec fn favorite_lookup(favorites: Set<(String, u128)>, user_id: String, post_id: u128) -> Lookup {
    if favorites.contains((user_id, post_id)) {
        Lookup::Found
    } else {
        Lookup::Missing
    }
}

/// The favorites a change aims at: the pair added, or removed.
pub open spec fn favorite_target(v: FavoriteFlowView, favorites: Set<(String, u128)>) -> Set<
    (String, u128),
> {
    if v.removing {
        favorites.remove((v.user_id, v.post_uuid))
    } else {
        favorites.insert((v.user_id, v.post_uuid))
    }
}

/// Adding a favorite is idempotent and removing one is too: whether or not
/// the favorite already exists, the write (if any) that follows the check
/// leaves exactly the favorites with the pair added (or removed), and a
/// second identical change leaves them as they are.
pub proof fn favorite_changes_are_idempotent(v: FavoriteFlowView, favorites: Set<(String, u128)>)
    requires
        v.stage == FavoriteStageView::FavoriteCheck,
        uuid_parse(v.post_id@) is Some,
    ensures
        favorites_after(favorites, v.step(AnswerView::Lookup(favorite_lookup(favorites, v.user_id, v.post_uuid))))
            == favorite_target(v, favorites),
        favorite_target(v, favorite_target(v, favorites)) == favorite_target(v, favorites),
{
    let pair = (v.user_id, v.post_uuid);
    if favorites.contains(pair) {
        assert(favorites.insert(pair) =~= favorites);
    } else {
        assert(favorites.remove(pair) =~= favorites);
    }
    assert(favorite_target(v, favorite_target(v, favorites)) =~= favorite_target(v, favorites));
}

/// A favorite change writes at most once: after a successful write it goes
/// on to read the post, and no answer to that read leads to another write.
pub proof fn favorite_changes_write_once(v: FavoriteFlowView, answer: AnswerView)
    requires
        v.stage == FavoriteStageView::Writing || v.stage is Loading,
    ensures
        v.step(answer) matches Outcome::Continue(w) ==> (w.stage == v.stage || w.stage is Loading),
{
}

/// Authenticating a request never reports a database error, and accepts an
/// account already registered without writing anything.
pub proof fn authentication_reports_only_unknown_accounts(v: FirebaseFlowView, answer: AnswerView)
    ensures
        v.step(answer) matches Outcome::Stop(Err(e)) ==> e == CheckFirebaseErr::UserFirebaseNotFound,
        (v.stage matches FirebaseStage::UserSearch { local_id } && answer matches AnswerView::Users(
            users,
        ) && registered(users, local_id)) ==> v.step(answer) == Outcome::<
            FirebaseFlowView,
            Result<bool, CheckFirebaseErr>,
        >::Stop(Ok(true)),
{
}

/// The number of posts a listing has accounted for: details assembled,
/// posts waiting, and the post being assembled.
pub open spec fn listed_posts(v: PostListView) -> int {
    v.infos.len() + v.remaining.len() + if v.stage is Assembling {
        1int
    } else {
        0int
    }
}

/// A listing assembles exactly one set of details per listed post, each
/// for the post it was begun for.
pub proof fn listing_accounts_for_every_post(v: PostListView, answer: AnswerView)
    requires
        v.stage matches ListStageView::Assembling { flow } && flow.wf(),
    ensures
        match v.step(answer) {
            Outcome::Continue(w) => listed_posts(w) == listed_posts(v),
            Outcome::Stop(infos) => infos.len() == listed_posts(v),
        },
        v.step(answer) matches Outcome::Stop(infos) ==> infos.last().base_post
            == v.stage->Assembling_flow.post,
{
    let flow = v.stage->Assembling_flow;
    post_info_assembly_counts_favorites(flow, answer);
}


/// A page length or page index left out is the default one: a listing
/// without a length begins as one of 30 posts per page, and one without a
/// page index as one of page 0.
pub proof fn listing_defaults_are_30_posts_from_page_0(length: Option<i32>, pages: Option<i32>)
    ensures
        listing_start(None, pages) == listing_start(Some(30), pages),
        listing_start(length, None) == listing_start(length, Some(0)),
        listing_start(None, None) == listing_start(Some(30), Some(0)),
{
}

/// A listing asks for the page it was given: `length` posts (30 when left
/// out) after skipping `pages` pages of that length (none when left out).
pub proof fn listing_asks_for_the_page_given(l: i32, p: i32)
    requires
        i32::MIN <= p * l <= i32::MAX,
        i32::MIN <= p * 30 <= i32::MAX,
    ensures
        listing_start(Some(l), Some(p)).query() == (Query::TopLevelPosts {
            limit: l as i64,
            offset: (p * l) as i64,
        }),
        listing_start(Some(l), None).query() == (Query::TopLevelPosts { limit: l as i64, offset: 0 }),
        listing_start(None, Some(p)).query() == (Query::TopLevelPosts {
            limit: 30,
            offset: (p * 30) as i64,
        }),
        listing_start(None, None).query() == (Query::TopLevelPosts { limit: 30, offset: 0 }),
        listing_start(Some(l), Some(p)).remaining.len() == 0,
        listing_start(Some(l), Some(p)).infos.len() == 0,
{
    assert(0 * l == 0);
    assert(p * 30 == 30 * p);
}

/// A listing only reads: whatever state it is in, the query it waits on
/// inserts, changes and deletes no row.
pub proof fn listing_only_reads(v: PostListView, tables: Tables, created_at: i64)
    ensures
        !writes_rows(v.query()),
        tables.apply(v.query(), created_at) == tables,
{
}

/// The rows that reads of posts see: users by id, posts by id, for each post
/// its favorites and its replies, and for each window (limit, offset) the
/// top-level posts it holds, all in the order the database lists them.
pub struct Tables {
    pub users: Map<String, User>,
    pub posts: Map<u128, Post>,
    pub favorites: Map<u128, Seq<Favorite>>,
    pub replies: Map<u128, Seq<Post>>,
    pub listings: Map<(i64, i64), Seq<Post>>,
}

impl Tables {
    /// What these tables answer to a read.
    pub open spec fn answer(self, query: Query) -> AnswerView {
        match query {
            Query::PostById { post_id } => AnswerView::Post(self.posts[post_id]),
            Query::UserById { user_id } => AnswerView::User(self.users[user_id]),
            Query::FavoritesOfPost { post_id } => AnswerView::Favorites(self.favorites[post_id]),
            Query::RepliesTo { post_id } => AnswerView::Posts(self.replies[post_id]),
            Query::TopLevelPosts { limit, offset } => AnswerView::Posts(
                self.listings[(limit, offset)],
            ),
            _ => AnswerView::Written(false),
        }
    }

    /// The users who made the given favorites, in the same order.
    pub open spec fn users_of(self, favorites: Seq<Favorite>) -> Seq<User> {
        favorites.map_values(|favorite: Favorite| self.users[favorite.user_id])
    }

    /// The details of each of the posts, in the same order.
    pub open spec fn details_of(self, posts: Seq<Post>) -> Seq<PostInfoView> {
        posts.map_values(|post: Post| self.details(post))
    }

    /// The number of queries needed to assemble the details of the posts.
    pub open spec fn assembly_steps(self, posts: Seq<Post>) -> nat
        decreases posts.len(),
    {
        if posts.len() == 0 {
            0
        } else {
            self.favorites[posts[0].id].len() + 3 + self.assembly_steps(posts.drop_first())
        }
    }

    /// Whether the rows hang together: each user and each post is stored
    /// under its own id; each post's author is a stored user and its
    /// favorites and replies are stored; each favorite is made by a stored
    /// user, and a user favorites a post at most once (the key of a
    /// favorite is its user and post); and each post that a window lists is
    /// the stored post of that id.
    pub open spec fn wf(self) -> bool {
        &&& forall|k: String| #[trigger] self.users.dom().contains(k) ==> self.users[k].id == k
        &&& forall|k: u128|
            #[trigger] self.posts.dom().contains(k) ==> {
                &&& self.posts[k].id == k
                &&& self.users.dom().contains(self.posts[k].user_id)
                &&& self.favorites.dom().contains(k)
                &&& self.replies.dom().contains(k)
            }
        &&& forall|k: u128, i: int|
            self.favorites.dom().contains(k) && 0 <= i < self.favorites[k].len()
                ==> self.users.dom().contains((#[trigger] self.favorites[k][i]).user_id)
        &&& forall|k: u128, i: int, j: int|
            self.favorites.dom().contains(k) && 0 <= i < j < self.favorites[k].len()
                ==> (#[trigger] self.favorites[k][i]).user_id != (#[trigger] self.favorites[k][j]).user_id
        &&& forall|w: (i64, i64), i: int|
            self.listings.dom().contains(w) && 0 <= i < self.listings[w].len() ==> {
                &&& self.posts.dom().contains((#[trigger] self.listings[w][i]).id)
                &&& self.posts[self.listings[w][i].id] == self.listings[w][i]
            }
    }

    /// The details of a post as these tables hold them.
    pub open spec fn details(self, post: Post) -> PostInfoView {
        PostInfoView {
            base_post: post,
            author: self.users[post.user_id],
            favorited_by: self.users_of(self.favorites[post.id]),
            favorite_count: self.favorites[post.id].len() as i64,
            replied_count: self.replies[post.id].len() as i64,
        }
    }
}

/// Runs a post's assembly for at most `fuel` steps, answering each query
/// from `tables`.
pub open spec fn assemble(flow: PostInfoFlowView, tables: Tables, fuel: nat) -> Option<PostInfoView>
    decreases fuel,
{
    if fuel == 0 {
        None
    } else {
        match flow.step(tables.answer(flow.query())) {
            Outcome::Stop(info) => Some(info),
            Outcome::Continue(next) => assemble(next, tables, (fuel - 1) as nat),
        }
    }
}

/// Runs the read of a post's details for at most `fuel` steps, answering
/// each query from `tables`.
pub open spec fn read_post(read: GetPostInfoView, tables: Tables, fuel: nat) -> Option<
    Result<PostInfoView, GetPostErr>,
>
    decreases fuel,
{
    if fuel == 0 {
        None
    } else {
        match read.step(tables.answer(read.query())) {
            Outcome::Stop(result) => Some(result),
            Outcome::Continue(next) => read_post(next, tables, (fuel - 1) as nat),
        }
    }
}

proof fn assemble_favorite_users(flow: PostInfoFlowView, tables: Tables, fuel: nat)
    requires
        flow.stage == InfoStage::FavoriteUsers,
        flow.author == Some(tables.users[flow.post.user_id]),
        flow.favorites == tables.favorites[flow.post.id],
        flow.favorited_by.len() < flow.favorites.len(),
        flow.favorited_by == tables.users_of(flow.favorites.take(flow.favorited_by.len() as int)),
        fuel == flow.favorites.len() - flow.favorited_by.len() + 1,
    ensures
        assemble(flow, tables, fuel) == Some(tables.details(flow.post)),
    decreases flow.favorites.len() - flow.favorited_by.len(),
{
    let favorites = flow.favorites;
    let k = flow.favorited_by.len() as int;
    let user = tables.users[favorites[k].user_id];
    assert(tables.users_of(favorites.take(k + 1)) =~= flow.favorited_by.push(user));
    let next = PostInfoFlowView {
        favorited_by: flow.favorited_by.push(user),
        stage: if k + 1 == favorites.len() {
            InfoStage::Replies
        } else {
            InfoStage::FavoriteUsers
        },
        ..flow
    };
    assert(flow.step(tables.answer(flow.query())) == Outcome::<PostInfoFlowView, PostInfoView>::Continue(next));
    if k + 1 == favorites.len() {
        assert(favorites.take(k + 1) =~= favorites);
        assert(assemble(next, tables, 1) == Some(tables.details(flow.post)));
    } else {
        assemble_favorite_users(next, tables, (fuel - 1) as nat);
    }
}

/// Assembling the details of a post, with every query answered from the
/// tables, gives back exactly the details the tables hold: the post, its
/// author, the user of each of its favorites in order, their number and the
/// number of its replies.
pub proof fn assembly_gives_back_stored_details(post: Post, tables: Tables)
    ensures
        assemble(PostInfoFlowView::start(post), tables, tables.favorites[post.id].len() + 3)
            == Some(tables.details(post)),
{
    let favorites = tables.favorites[post.id];
    let fuel = favorites.len() + 3;
    let start = PostInfoFlowView::start(post);
    let with_author = PostInfoFlowView {
        author: Some(tables.users[post.user_id]),
        stage: InfoStage::Favorites,
        ..start
    };
    assert(start.step(tables.answer(start.query())) == Outcome::<PostInfoFlowView, PostInfoView>::Continue(with_author));
    let with_favorites = PostInfoFlowView {
        favorites,
        stage: if favorites.len() == 0 {
            InfoStage::Replies
        } else {
            InfoStage::FavoriteUsers
        },
        ..with_author
    };
    assert(with_author.step(tables.answer(with_author.query())) == Outcome::<PostInfoFlowView, PostInfoView>::Continue(with_favorites));
    assert(tables.users_of(favorites.take(0)) =~= Seq::<User>::empty());
    if favorites.len() == 0 {
        assert(tables.users_of(favorites) =~= Seq::<User>::empty());
        assert(assemble(with_favorites, tables, 1) == Some(tables.details(post)));
    } else {
        assemble_favorite_users(with_favorites, tables, (fuel - 2) as nat);
    }
    assert(assemble(with_author, tables, (fuel - 1) as nat) == assemble(with_favorites, tables, (fuel - 2) as nat));
}

proof fn read_post_follows_assembly(flow: PostInfoFlowView, tables: Tables, fuel: nat)
    ensures
        read_post(GetPostInfoView::Assembling { flow }, tables, fuel) == match assemble(
            flow,
            tables,
            fuel,
        ) {
            Some(info) => Some(Ok::<PostInfoView, GetPostErr>(info)),
            None => None,
        },
    decreases fuel,
{
    if fuel > 0 {
        match flow.step(tables.answer(flow.query())) {
            Outcome::Stop(info) => {},
            Outcome::Continue(next) => {
                read_post_follows_assembly(next, tables, (fuel - 1) as nat);
            },
        }
    }
}

/// Reading the details of a post, with every query answered from the
/// tables, gives back exactly the details the tables hold for the post with
/// that id.
pub proof fn reading_a_post_gives_back_its_stored_details(post_id: u128, tables: Tables)
    requires
        tables.posts.dom().contains(post_id),
    ensures
        read_post(
            GetPostInfoView::Waiting { post_id },
            tables,
            tables.favorites[tables.posts[post_id].id].len() + 4,
        ) == Some(Ok::<PostInfoView, GetPostErr>(tables.details(tables.posts[post_id]))),
        tables.wf() ==> tables.details(tables.posts[post_id]).author.id
            == tables.posts[post_id].user_id,
{
    let post = tables.posts[post_id];
    let fuel = tables.favorites[post.id].len() + 3;
    assembly_gives_back_stored_details(post, tables);
    read_post_follows_assembly(PostInfoFlowView::start(post), tables, fuel);
}


/// Runs a listing of posts for at most `fuel` steps, answering each query
/// from `tables`.
pub open spec fn list_posts(listing: PostListView, tables: Tables, fuel: nat) -> Option<
    Seq<PostInfoView>,
>
    decreases fuel,
{
    if fuel == 0 {
        None
    } else {
        match listing.step(tables.answer(listing.query())) {
            Outcome::Stop(infos) => Some(infos),
            Outcome::Continue(next) => list_posts(next, tables, (fuel - 1) as nat),
        }
    }
}

proof fn list_posts_with_more_fuel(listing: PostListView, tables: Tables, fuel: nat, more: nat)
    requires
        list_posts(listing, tables, fuel) is Some,
        fuel <= more,
    ensures
        list_posts(listing, tables, more) == list_posts(listing, tables, fuel),
    decreases fuel,
{
    if let Outcome::Continue(next) = listing.step(tables.answer(listing.query())) {
        list_posts_with_more_fuel(next, tables, (fuel - 1) as nat, (more - 1) as nat);
    }
}

proof fn list_posts_through_assembly(
    listing: PostListView,
    flow: PostInfoFlowView,
    tables: Tables,
    steps: nat,
    rest: nat,
    info: PostInfoView,
)
    requires
        listing.stage == (ListStageView::Assembling { flow }),
        assemble(flow, tables, steps) == Some(info),
        match listing.next_post(listing.remaining, listing.infos.push(info)) {
            Outcome::Stop(_) => true,
            Outcome::Continue(after) => list_posts(after, tables, rest) is Some,
        },
    ensures
        list_posts(listing, tables, steps + rest) == match listing.next_post(
            listing.remaining,
            listing.infos.push(info),
        ) {
            Outcome::Stop(infos) => Some(infos),
            Outcome::Continue(after) => list_posts(after, tables, rest),
        },
    decreases steps,
{
    match flow.step(tables.answer(flow.query())) {
        Outcome::Stop(i) => {
            if let Outcome::Continue(after) = listing.next_post(
                listing.remaining,
                listing.infos.push(info),
            ) {
                list_posts_with_more_fuel(after, tables, rest, (steps + rest - 1) as nat);
            }
        },
        Outcome::Continue(next) => {
            let next_listing = PostListView {
                stage: ListStageView::Assembling { flow: next },
                ..listing
            };
            list_posts_through_assembly(next_listing, next, tables, (steps - 1) as nat, rest, info);
        },
    }
}

proof fn list_posts_assembles_the_rest(
    listing: PostListView,
    post: Post,
    tables: Tables,
)
    requires
        listing.stage == (ListStageView::Assembling { flow: PostInfoFlowView::start(post) }),
    ensures
        list_posts(
            listing,
            tables,
            tables.favorites[post.id].len() + 3 + tables.assembly_steps(listing.remaining),
        ) == Some(listing.infos.push(tables.details(post)) + tables.details_of(listing.remaining)),
    decreases listing.remaining.len(),
{
    let steps = (tables.favorites[post.id].len() + 3) as nat;
    let rest = tables.assembly_steps(listing.remaining);
    let infos = listing.infos.push(tables.details(post));
    assembly_gives_back_stored_details(post, tables);
    if listing.remaining.len() == 0 {
        assert(tables.details_of(listing.remaining) =~= Seq::<PostInfoView>::empty());
        assert(infos + tables.details_of(listing.remaining) =~= infos);
        list_posts_through_assembly(
            listing,
            PostInfoFlowView::start(post),
            tables,
            steps,
            rest,
            tables.details(post),
        );
    } else {
        let next_post = listing.remaining[0];
        let after = PostListView {
            remaining: listing.remaining.drop_first(),
            infos,
            stage: ListStageView::Assembling { flow: PostInfoFlowView::start(next_post) },
            ..listing
        };
        list_posts_assembles_the_rest(after, next_post, tables);
        assert(infos.push(tables.details(next_post)) + tables.details_of(after.remaining)
            =~= infos + tables.details_of(listing.remaining));
        list_posts_through_assembly(
            listing,
            PostInfoFlowView::start(post),
            tables,
            steps,
            rest,
            tables.details(post),
        );
    }
}

/// Listing a page of posts, with every query answered from the tables,
/// gives back exactly the stored details of each post of the window, in the
/// order the window lists them.
pub proof fn listing_gives_back_stored_details(limit: i64, offset: i64, tables: Tables)
    ensures
        list_posts(
            PostListView {
                limit,
                offset,
                remaining: Seq::empty(),
                infos: Seq::empty(),
                stage: ListStageView::Listing,
            },
            tables,
            tables.assembly_steps(tables.listings[(limit, offset)]) + 1,
        ) == Some(tables.details_of(tables.listings[(limit, offset)])),
{
    let posts = tables.listings[(limit, offset)];
    let start = PostListView {
        limit,
        offset,
        remaining: Seq::empty(),
        infos: Seq::empty(),
        stage: ListStageView::Listing,
    };
    if posts.len() == 0 {
        assert(tables.details_of(posts) =~= Seq::<PostInfoView>::empty());
    } else {
        let first = PostListView {
            remaining: posts.drop_first(),
            infos: Seq::empty(),
            stage: ListStageView::Assembling { flow: PostInfoFlowView::start(posts[0]) },
            ..start
        };
        list_posts_assembles_the_rest(first, posts[0], tables);
        assert(Seq::<PostInfoView>::empty().push(tables.details(posts[0])) + tables.details_of(
            posts.drop_first(),
        ) =~= tables.details_of(posts));
    }
}


/// A post that a listing gives back reads back by its id with the same
/// details, when the tables hang together.
pub proof fn a_listed_post_reads_back_the_same(limit: i64, offset: i64, tables: Tables, i: int)
    requires
        tables.wf(),
        tables.listings.dom().contains((limit, offset)),
        0 <= i < tables.listings[(limit, offset)].len(),
    ensures
        ({
            let infos = tables.details_of(tables.listings[(limit, offset)]);
            let id = infos[i].base_post.id;
            &&& list_posts(
                PostListView {
                    limit,
                    offset,
                    remaining: Seq::empty(),
                    infos: Seq::empty(),
                    stage: ListStageView::Listing,
                },
                tables,
                tables.assembly_steps(tables.listings[(limit, offset)]) + 1,
            ) == Some(infos)
            &&& read_post(GetPostInfoView::Waiting { post_id: id }, tables, tables.favorites[id].len() + 4)
                == Some(Ok::<PostInfoView, GetPostErr>(infos[i]))
        }),
{
    let posts = tables.listings[(limit, offset)];
    let post = posts[i];
    listing_gives_back_stored_details(limit, offset, tables);
    assert(tables.posts.dom().contains(post.id) && tables.posts[post.id] == post);
    reading_a_post_gives_back_its_stored_details(post.id, tables);
}

impl Tables {
    /// Whether a favorite of `user_id` for the post is stored.
    pub open spec fn has_favorite(self, user_id: String, post_id: u128) -> bool {
        exists|i: int|
            0 <= i < self.favorites[post_id].len() && (#[trigger] self.favorites[post_id][i]).user_id
                == user_id
    }

    /// What these tables answer to any query of a favorite change. Loading
    /// rows answers `Found` even when there are none, as loading succeeds
    /// with an empty list; writes succeed.
    pub open spec fn respond(self, query: Query) -> AnswerView {
        match query {
            Query::PostExists { post_id } => AnswerView::Lookup(
                if self.posts.dom().contains(post_id) {
                    Lookup::Found
                } else {
                    Lookup::Missing
                },
            ),
            Query::PostRows { .. } => AnswerView::Lookup(Lookup::Found),
            Query::FavoriteExists { user_id, post_id } => AnswerView::Lookup(
                if self.has_favorite(user_id, post_id) {
                    Lookup::Found
                } else {
                    Lookup::Missing
                },
            ),
            Query::FavoriteRows { .. } => AnswerView::Lookup(Lookup::Found),
            Query::InsertFavorite { .. } => AnswerView::Written(true),
            Query::DeleteFavorite { .. } => AnswerView::Written(true),
            _ => self.answer(query),
        }
    }

    /// These tables after a query: an inserted favorite (stamped
    /// `created_at`) comes last among the post's favorites; a deletion drops
    /// every favorite of the user for the post.
    pub open spec fn apply(self, query: Query, created_at: i64) -> Tables {
        match query {
            Query::InsertFavorite { user_id, post_id } => Tables {
                favorites: self.favorites.insert(
                    post_id,
                    self.favorites[post_id].push(Favorite { user_id, post_id, created_at }),
                ),
                ..self
            },
            Query::DeleteFavorite { user_id, post_id } => Tables {
                favorites: self.favorites.insert(
                    post_id,
                    self.favorites[post_id].filter(|favorite: Favorite| favorite.user_id != user_id),
                ),
                ..self
            },
            _ => self,
        }
    }
}

/// Runs a favorite change for at most `fuel` steps, answering each query
/// from the tables and applying each write to them.
pub open spec fn change_favorite(
    change: FavoriteFlowView,
    tables: Tables,
    created_at: i64,
    fuel: nat,
) -> Option<Result<PostInfoView, crate::cruds::FavoriteErr>>
    decreases fuel,
{
    if fuel == 0 {
        None
    } else {
        let query = change.query();
        match change.step(tables.respond(query)) {
            Outcome::Stop(result) => Some(result),
            Outcome::Continue(next) => change_favorite(
                next,
                tables.apply(query, created_at),
                created_at,
                (fuel - 1) as nat,
            ),
        }
    }
}

proof fn change_follows_read(
    change: FavoriteFlowView,
    read: GetPostInfoView,
    tables: Tables,
    created_at: i64,
    fuel: nat,
)
    requires
        change.stage == (FavoriteStageView::Loading { flow: read }),
    ensures
        change_favorite(change, tables, created_at, fuel) == match read_post(read, tables, fuel) {
            Some(Ok(info)) => Some(Ok::<PostInfoView, crate::cruds::FavoriteErr>(info)),
            Some(Err(_)) => Some(Err(crate::cruds::FavoriteErr::InternalServerError)),
            None => None,
        },
    decreases fuel,
{
    if fuel > 0 {
        let query = read.query();
        assert(tables.respond(query) == tables.answer(query));
        assert(tables.apply(query, created_at) == tables);
        if let Outcome::Continue(next) = read.step(tables.answer(query)) {
            let next_change = FavoriteFlowView {
                stage: FavoriteStageView::Loading { flow: next },
                ..change
            };
            change_follows_read(next_change, next, tables, created_at, (fuel - 1) as nat);
        }
    }
}

/// The tables after `user_id` favorites the post `post_id`: unchanged when
/// the favorite is already stored, otherwise with it added.
pub open spec fn after_favoriting(tables: Tables, user_id: String, post_id: u128, created_at: i64) -> Tables {
    if tables.has_favorite(user_id, post_id) {
        tables
    } else {
        tables.apply(Query::InsertFavorite { user_id, post_id }, created_at)
    }
}

proof fn favoriting_keeps_the_tables_well_formed(
    tables: Tables,
    user_id: String,
    id: u128,
    created_at: i64,
)
    requires
        tables.wf(),
        tables.users.dom().contains(user_id),
        tables.posts.dom().contains(id),
    ensures
        after_favoriting(tables, user_id, id, created_at).wf(),
{
    if !tables.has_favorite(user_id, id) {
        let after = after_favoriting(tables, user_id, id, created_at);
        let stored = tables.favorites[id];
        assert(tables.favorites.dom().contains(id));
        assert(after.favorites[id] == stored.push(Favorite { user_id, post_id: id, created_at }));
        assert forall|k: u128, i: int|
            after.favorites.dom().contains(k) && 0 <= i < after.favorites[k].len() implies after.users.dom().contains(
            (#[trigger] after.favorites[k][i]).user_id,
        ) by {
            if k == id && i < stored.len() {
                assert(after.favorites[k][i] == stored[i]);
            }
        }
        assert forall|k: u128, i: int, j: int|
            after.favorites.dom().contains(k) && 0 <= i < j < after.favorites[k].len() implies (
            #[trigger] after.favorites[k][i]).user_id != (#[trigger] after.favorites[k][j]).user_id by {
            if k == id {
                assert(after.favorites[k][i] == stored[i]);
                if j < stored.len() {
                    assert(after.favorites[k][j] == stored[j]);
                } else if stored[i].user_id == user_id {
                    assert(tables.has_favorite(user_id, id));
                }
            }
        }
    }
}

proof fn favorited_at_most_once(tables: Tables, post: Post, user_id: String)
    requires
        tables.wf(),
        tables.favorites.dom().contains(post.id),
    ensures
        ({
            let favorited_by = tables.details(post).favorited_by;
            forall|i: int, j: int|
                0 <= i < favorited_by.len() && 0 <= j < favorited_by.len() && (
                #[trigger] favorited_by[i]).id == user_id && (#[trigger] favorited_by[j]).id
                    == user_id ==> i == j
        }),
{
    let favorites = tables.favorites[post.id];
    let favorited_by = tables.details(post).favorited_by;
    assert forall|i: int, j: int|
        0 <= i < favorited_by.len() && 0 <= j < favorited_by.len() && (
        #[trigger] favorited_by[i]).id == user_id && (#[trigger] favorited_by[j]).id
            == user_id implies i == j by {
        assert(tables.users.dom().contains(favorites[i].user_id));
        assert(tables.users.dom().contains(favorites[j].user_id));
        assert(favorited_by[i] == tables.users[favorites[i].user_id]);
        assert(favorited_by[j] == tables.users[favorites[j].user_id]);
        if i < j {
            assert(favorites[i].user_id != favorites[j].user_id);
        } else if j < i {
            assert(favorites[j].user_id != favorites[i].user_id);
        }
    }
}

/// Favoriting an existing post, with every query answered from the tables
/// and every write applied to them, ends with the details that the tables
/// then hold for the post, and those name the user among the users who
/// favorited it: whether or not the favorite was already stored.
pub proof fn favoriting_a_post_lists_the_user(
    user_id: String,
    post_id: String,
    id: u128,
    tables: Tables,
    created_at: i64,
)
    requires
        uuid_parse(post_id@) == Some(id),
        tables.posts.dom().contains(id),
        tables.posts[id].id == id,
    ensures
        ({
            let after = after_favoriting(tables, user_id, id, created_at);
            let change = FavoriteFlowView {
                user_id,
                post_id,
                post_uuid: id,
                removing: false,
                stage: FavoriteStageView::PostCheck,
            };
            let writes: nat = if tables.has_favorite(user_id, id) { 0 } else { 1 };
            let favorited_by = after.details(tables.posts[id]).favorited_by;
            &&& change_favorite(change, tables, created_at, after.favorites[id].len() + 6 + writes)
                == Some(Ok::<PostInfoView, crate::cruds::FavoriteErr>(after.details(tables.posts[id])))
            &&& favorited_by.contains(tables.users[user_id])
            &&& tables.wf() && tables.users.dom().contains(user_id) ==> {
                &&& after.wf()
                &&& forall|i: int, j: int|
                    0 <= i < favorited_by.len() && 0 <= j < favorited_by.len() && (
                    #[trigger] favorited_by[i]).id == user_id && (#[trigger] favorited_by[j]).id
                        == user_id ==> i == j
            }
        }),
{
    if tables.wf() && tables.users.dom().contains(user_id) {
        favoriting_keeps_the_tables_well_formed(tables, user_id, id, created_at);
        favorited_at_most_once(after_favoriting(tables, user_id, id, created_at), tables.posts[id], user_id);
    }
    let after = after_favoriting(tables, user_id, id, created_at);
    let change = FavoriteFlowView {
        user_id,
        post_id,
        post_uuid: id,
        removing: false,
        stage: FavoriteStageView::PostCheck,
    };
    let checking = FavoriteFlowView { stage: FavoriteStageView::FavoriteCheck, ..change };
    let loading = FavoriteFlowView {
        stage: FavoriteStageView::Loading { flow: GetPostInfoView::Waiting { post_id: id } },
        ..change
    };
    let n = after.favorites[id].len();
    reading_a_post_gives_back_its_stored_details(id, after);
    change_follows_read(loading, GetPostInfoView::Waiting { post_id: id }, after, created_at, n + 4);
    assert(change.step(tables.respond(change.query())) == Outcome::<
        FavoriteFlowView,
        Result<PostInfoView, crate::cruds::FavoriteErr>,
    >::Continue(checking));
    if tables.has_favorite(user_id, id) {
        assert(checking.step(tables.respond(checking.query())) == checking.load());
        assert(change_favorite(checking, tables, created_at, n + 5) == change_favorite(
            loading,
            tables,
            created_at,
            n + 4,
        ));
        let i = choose|i: int|
            0 <= i < tables.favorites[id].len() && (#[trigger] tables.favorites[id][i]).user_id
                == user_id;
        assert(after.details(tables.posts[id]).favorited_by[i] == tables.users[user_id]);
    } else {
        let writing = FavoriteFlowView { stage: FavoriteStageView::Writing, ..change };
        assert(checking.step(tables.respond(checking.query())) == Outcome::<
            FavoriteFlowView,
            Result<PostInfoView, crate::cruds::FavoriteErr>,
        >::Continue(writing));
        assert(writing.step(tables.respond(writing.query())) == writing.load());
        assert(change_favorite(writing, tables, created_at, n + 5) == change_favorite(
            loading,
            after,
            created_at,
            n + 4,
        ));
        assert(change_favorite(checking, tables, created_at, n + 6) == change_favorite(
            writing,
            tables,
            created_at,
            n + 5,
        ));
        let last = after.favorites[id].len() - 1;
        assert(after.details(tables.posts[id]).favorited_by[last] == tables.users[user_id]);
    }
}

/// Withdrawing a favorite of an existing post, with every query answered
/// from the tables and every write applied to them, ends with the details
/// that the tables then hold for the post, and none of the post's stored
/// favorites is the user's any more.
pub proof fn withdrawing_a_favorite_drops_the_user(
    user_id: String,
    post_id: String,
    id: u128,
    tables: Tables,
    created_at: i64,
)
    requires
        uuid_parse(post_id@) == Some(id),
        tables.posts.dom().contains(id),
        tables.posts[id].id == id,
    ensures
        ({
            let after = tables.apply(Query::DeleteFavorite { user_id, post_id: id }, created_at);
            let change = FavoriteFlowView {
                user_id,
                post_id,
                post_uuid: id,
                removing: true,
                stage: FavoriteStageView::PostCheck,
            };
            &&& change_favorite(change, tables, created_at, after.favorites[id].len() + 7)
                == Some(Ok::<PostInfoView, crate::cruds::FavoriteErr>(after.details(tables.posts[id])))
            &&& forall|i: int|
                0 <= i < after.favorites[id].len() ==> (#[trigger] after.favorites[id][i]).user_id
                    != user_id
            &&& tables.wf() ==> forall|i: int|
                0 <= i < after.details(tables.posts[id]).favorited_by.len()
                    ==> (#[trigger] after.details(tables.posts[id]).favorited_by[i]).id != user_id
        }),
{
    let after = tables.apply(Query::DeleteFavorite { user_id, post_id: id }, created_at);
    let change = FavoriteFlowView {
        user_id,
        post_id,
        post_uuid: id,
        removing: true,
        stage: FavoriteStageView::PostCheck,
    };
    let checking = FavoriteFlowView { stage: FavoriteStageView::FavoriteCheck, ..change };
    let writing = FavoriteFlowView { stage: FavoriteStageView::Writing, ..change };
    let loading = FavoriteFlowView {
        stage: FavoriteStageView::Loading { flow: GetPostInfoView::Waiting { post_id: id } },
        ..change
    };
    let n = after.favorites[id].len();
    reading_a_post_gives_back_its_stored_details(id, after);
    change_follows_read(loading, GetPostInfoView::Waiting { post_id: id }, after, created_at, n + 4);
    assert(writing.step(tables.respond(writing.query())) == writing.load());
    assert(change_favorite(writing, tables, created_at, n + 5) == change_favorite(
        loading,
        after,
        created_at,
        n + 4,
    ));
    assert(change_favorite(checking, tables, created_at, n + 6) == change_favorite(
        writing,
        tables,
        created_at,
        n + 5,
    ));
    let kept = tables.favorites[id].filter(|favorite: Favorite| favorite.user_id != user_id);
    assert forall|i: int| 0 <= i < kept.len() implies (#[trigger] kept[i]).user_id != user_id by {
        tables.favorites[id].lemma_filter_pred(|favorite: Favorite| favorite.user_id != user_id, i);
    }
    if tables.wf() {
        let favorited_by = after.details(tables.posts[id]).favorited_by;
        assert forall|i: int| 0 <= i < favorited_by.len() implies (#[trigger] favorited_by[i]).id
            != user_id by {
            tables.favorites[id].lemma_filter_pred(|favorite: Favorite| favorite.user_id != user_id, i);
            assert(kept.contains(kept[i]));
            tables.favorites[id].lemma_filter_contains_rev(
                |favorite: Favorite| favorite.user_id != user_id,
                kept[i],
            );
            let j = choose|j: int| 0 <= j < tables.favorites[id].len() && tables.favorites[id][j] == kept[i];
            assert(tables.users.dom().contains(tables.favorites[id][j].user_id));
            assert(favorited_by[i] == tables.users[kept[i].user_id]);
        }
    }
}

/// Keeping the elements that all satisfy a predicate keeps the sequence.
proof fn keeping_every_element(s: Seq<Favorite>, pred: spec_fn(Favorite) -> bool)
    requires
        forall|i: int| 0 <= i < s.len() ==> pred(#[trigger] s[i]),
    ensures
        s.filter(pred) == s,
    decreases s.len(),
{
    if s.len() > 0 {
        let rest = s.drop_last();
        keeping_every_element(rest, pred);
        assert(rest.push(s.last()) =~= s);
        rest.lemma_filter_push(s.last(), pred);
    } else {
        assert(s.filter(pred) =~= s) by {
            s.lemma_filter_len(pred);
        }
    }
}

/// Favoriting a post twice is favoriting it once: after the first change
/// the favorite is stored, the second writes nothing and ends with the same
/// details as the first.
pub proof fn favoriting_twice_is_favoriting_once(
    user_id: String,
    post_id: String,
    id: u128,
    tables: Tables,
    first_at: i64,
    second_at: i64,
)
    requires
        uuid_parse(post_id@) == Some(id),
        tables.posts.dom().contains(id),
        tables.posts[id].id == id,
    ensures
        ({
            let once = after_favoriting(tables, user_id, id, first_at);
            let change = FavoriteFlowView {
                user_id,
                post_id,
                post_uuid: id,
                removing: false,
                stage: FavoriteStageView::PostCheck,
            };
            let writes: nat = if tables.has_favorite(user_id, id) { 0 } else { 1 };
            &&& once.has_favorite(user_id, id)
            &&& after_favoriting(once, user_id, id, second_at) == once
            &&& change_favorite(change, once, second_at, once.favorites[id].len() + 6)
                == change_favorite(change, tables, first_at, once.favorites[id].len() + 6 + writes)
        }),
{
    let once = after_favoriting(tables, user_id, id, first_at);
    favoriting_a_post_lists_the_user(user_id, post_id, id, tables, first_at);
    if !tables.has_favorite(user_id, id) {
        let last = once.favorites[id].len() - 1;
        assert(once.favorites[id][last].user_id == user_id);
    }
    favoriting_a_post_lists_the_user(user_id, post_id, id, once, second_at);
}

/// Favoriting a post and then withdrawing the favorite, when the user had
/// not favorited it before, leaves the tables as they were, and the
/// withdrawal ends with the details they held before.
pub proof fn withdrawing_a_new_favorite_restores_the_tables(
    user_id: String,
    post_id: String,
    id: u128,
    tables: Tables,
    first_at: i64,
    second_at: i64,
)
    requires
        uuid_parse(post_id@) == Some(id),
        tables.wf(),
        tables.posts.dom().contains(id),
        !tables.has_favorite(user_id, id),
    ensures
        ({
            let once = after_favoriting(tables, user_id, id, first_at);
            let withdraw = FavoriteFlowView {
                user_id,
                post_id,
                post_uuid: id,
                removing: true,
                stage: FavoriteStageView::PostCheck,
            };
            &&& once.apply(Query::DeleteFavorite { user_id, post_id: id }, second_at) == tables
            &&& change_favorite(withdraw, once, second_at, tables.favorites[id].len() + 7)
                == Some(Ok::<PostInfoView, crate::cruds::FavoriteErr>(tables.details(tables.posts[id])))
        }),
{
    let once = after_favoriting(tables, user_id, id, first_at);
    let undone = once.apply(Query::DeleteFavorite { user_id, post_id: id }, second_at);
    let stored = tables.favorites[id];
    let added = Favorite { user_id, post_id: id, created_at: first_at };
    let pred = |favorite: Favorite| favorite.user_id != user_id;
    assert forall|i: int| 0 <= i < stored.len() implies pred(#[trigger] stored[i]) by {
        if stored[i].user_id == user_id {
            assert(tables.has_favorite(user_id, id));
        }
    }
    keeping_every_element(stored, pred);
    stored.lemma_filter_push(added, pred);
    assert(once.favorites[id] == stored.push(added));
    assert(undone.favorites[id] == stored);
    assert(undone.favorites =~= tables.favorites);
    assert(undone == tables);
    withdrawing_a_favorite_drops_the_user(user_id, post_id, id, once, second_at);
}


/// Runs the creation of a post for at most `fuel` steps: the insertion is
/// answered with the `created` row, every read from the tables.
pub open spec fn create_post(creation: CreatePostView, tables: Tables, created: Post, fuel: nat) -> Option<
    Result<PostInfoView, CreatePostErr>,
>
    decreases fuel,
{
    if fuel == 0 {
        None
    } else {
        let query = creation.query();
        let answer = if query is InsertPost {
            AnswerView::Post(created)
        } else {
            tables.answer(query)
        };
        match creation.step(answer) {
            Outcome::Stop(result) => Some(result),
            Outcome::Continue(next) => create_post(next, tables, created, (fuel - 1) as nat),
        }
    }
}

proof fn creation_follows_read(read: GetPostInfoView, tables: Tables, created: Post, fuel: nat)
    ensures
        create_post(CreatePostView::Loading { flow: read }, tables, created, fuel) == match read_post(
            read,
            tables,
            fuel,
        ) {
            Some(Ok(info)) => Some(Ok::<PostInfoView, CreatePostErr>(info)),
            Some(Err(_)) => Some(Err(CreatePostErr::InternalServerError)),
            None => None,
        },
    decreases fuel,
{
    if fuel > 0 {
        if let Outcome::Continue(next) = read.step(tables.answer(read.query())) {
            creation_follows_read(next, tables, created, (fuel - 1) as nat);
        }
    }
}

/// Creating a post, when the database stores it as the row `created` and
/// answers every read from the tables, ends with the details the tables
/// hold for that row: its author, no favoriting users unless stored, and
/// its replies.
pub proof fn creating_a_post_gives_back_its_stored_details(
    author_id: String,
    content_md: String,
    content_html: String,
    reply_at: Option<u128>,
    tables: Tables,
    created: Post,
)
    requires
        tables.posts.dom().contains(created.id),
        tables.posts[created.id] == created,
    ensures
        create_post(
            CreatePostView::Inserting { author_id, content_md, content_html, reply_at },
            tables,
            created,
            tables.favorites[created.id].len() + 5,
        ) == Some(Ok::<PostInfoView, CreatePostErr>(tables.details(created))),
{
    let n = tables.favorites[created.id].len();
    reading_a_post_gives_back_its_stored_details(created.id, tables);
    creation_follows_read(GetPostInfoView::Waiting { post_id: created.id }, tables, created, n + 4);
}


/// An account that is not yet registered is registered as the identity
/// provider gives it back: under its id, with its id as its name and with
/// its email.
pub proof fn an_account_is_registered_as_the_provider_gives_it(token: String, account: FirebaseUser)
    ensures
        ({
            let rereading = FirebaseFlowView { token, stage: FirebaseStage::AccountReread };
            rereading.step(AnswerView::FirebaseUser(Some(account))) matches Outcome::Continue(next)
                && next.query() == (Query::InsertUser {
                id: account.local_id,
                name: account.local_id,
                email: account.email,
            })
        }),
{
}

/// The row that registers an account: its id as id and name, its email,
/// no description, stamped `stamp`.
pub open spec fn registration(account: FirebaseUser, stamp: i64) -> User {
    User {
        id: account.local_id,
        name: account.local_id,
        email: account.email,
        description: None,
        created_at: stamp,
        updated_at: stamp,
    }
}

/// Runs the authentication of a request for at most `fuel` steps: the
/// identity provider answers from `directory` (the account behind each
/// token, if any), the database from `users`, and a registration appends
/// its row (stamped `stamp`) to `users`. Gives the result and the users
/// after the run.
pub open spec fn authenticate(
    flow: FirebaseFlowView,
    directory: Map<String, Option<FirebaseUser>>,
    users: Seq<User>,
    stamp: i64,
    fuel: nat,
) -> Option<(CheckFirebaseResult, Seq<User>)>
    decreases fuel,
{
    if fuel == 0 {
        None
    } else {
        let (answer, after) = match flow.query() {
            Query::FirebaseLookup { token } => (AnswerView::FirebaseUser(directory[token]), users),
            Query::InsertUser { id, name, email } => {
                let row = User { id, name, email, description: None, created_at: stamp, updated_at: stamp };
                (AnswerView::User(row), users.push(row))
            },
            _ => (AnswerView::Users(users), users),
        };
        match flow.step(answer) {
            Outcome::Stop(result) => Some((result, after)),
            Outcome::Continue(next) => authenticate(next, directory, after, stamp, (fuel - 1) as nat),
        }
    }
}

proof fn authentication_accepts_registered_account(
    token: String,
    account: FirebaseUser,
    directory: Map<String, Option<FirebaseUser>>,
    users: Seq<User>,
    stamp: i64,
)
    requires
        directory[token] == Some(account),
        registered(users, account.local_id),
    ensures
        authenticate(
            FirebaseFlowView { token, stage: FirebaseStage::AccountLookup },
            directory,
            users,
            stamp,
            2,
        ) == Some((Ok::<bool, CheckFirebaseErr>(true), users)),
{
    let start = FirebaseFlowView { token, stage: FirebaseStage::AccountLookup };
    let searching = FirebaseFlowView {
        token,
        stage: FirebaseStage::UserSearch { local_id: account.local_id },
    };
    assert(start.step(AnswerView::FirebaseUser(directory[token])) == Outcome::<
        FirebaseFlowView,
        CheckFirebaseResult,
    >::Continue(searching));
    assert(searching.step(AnswerView::Users(users)) == Outcome::<
        FirebaseFlowView,
        CheckFirebaseResult,
    >::Stop(Ok(true)));
    assert(authenticate(searching, directory, users, stamp, 1) == Some(
        (Ok::<bool, CheckFirebaseErr>(true), users),
    ));
}

/// Authentication registers each account once: a token with no account is
/// refused; an account already registered is accepted without a write; an
/// account not yet registered is accepted and registered under its id, so
/// that authenticating it again is accepted without a write.
pub proof fn authentication_registers_each_account_once(
    token: String,
    directory: Map<String, Option<FirebaseUser>>,
    users: Seq<User>,
    stamp: i64,
)
    ensures
        ({
            let start = FirebaseFlowView { token, stage: FirebaseStage::AccountLookup };
            match directory[token] {
                None => authenticate(start, directory, users, stamp, 1) == Some(
                    (Err::<bool, CheckFirebaseErr>(CheckFirebaseErr::UserFirebaseNotFound), users),
                ),
                Some(account) => if registered(users, account.local_id) {
                    authenticate(start, directory, users, stamp, 2) == Some(
                        (Ok::<bool, CheckFirebaseErr>(true), users),
                    )
                } else {
                    let registered_users = users.push(registration(account, stamp));
                    &&& authenticate(start, directory, users, stamp, 4) == Some(
                        (Ok::<bool, CheckFirebaseErr>(true), registered_users),
                    )
                    &&& registered(registered_users, account.local_id)
                    &&& authenticate(start, directory, registered_users, stamp, 2) == Some(
                        (Ok::<bool, CheckFirebaseErr>(true), registered_users),
                    )
                },
            }
        }),
{
    let start = FirebaseFlowView { token, stage: FirebaseStage::AccountLookup };
    if let Some(account) = directory[token] {
        if registered(users, account.local_id) {
            authentication_accepts_registered_account(token, account, directory, users, stamp);
        } else {
            let registered_users = users.push(registration(account, stamp));
            let last = registered_users.len() - 1;
            assert(registered_users[last].id@ == account.local_id@);
            authentication_accepts_registered_account(
                token,
                account,
                directory,
                registered_users,
                stamp,
            );
            let searching = FirebaseFlowView {
                token,
                stage: FirebaseStage::UserSearch { local_id: account.local_id },
            };
            let rereading = FirebaseFlowView { token, stage: FirebaseStage::AccountReread };
            let registering = FirebaseFlowView {
                token,
                stage: FirebaseStage::Registering { account },
            };
            assert(authenticate(registering, directory, users, stamp, 1) == Some(
                (Ok::<bool, CheckFirebaseErr>(true), registered_users),
            ));
            assert(authenticate(rereading, directory, users, stamp, 2) == authenticate(
                registering,
                directory,
                users,
                stamp,
                1,
            ));
            assert(authenticate(searching, directory, users, stamp, 3) == authenticate(
                rereading,
                directory,
                users,
                stamp,
                2,
            ));
        }
    }
}


/// A text names a UUID only when it has 32, 36, 38 or 45 characters; the
/// case of its ASCII letters does not change which UUID it names; and the
/// simple and hyphenated texts of a UUID, in either case, name that UUID.
/// Since reading a post and changing a favorite begin with the UUID that
/// the post id names, they begin alike for every such text of one UUID.
pub proof fn post_ids_name_one_uuid_in_any_form(text: Seq<char>, id: u128)
    ensures
        names_uuid(ascii_lower(text), id) ==> text.len() == 32 || text.len() == 36 || text.len()
            == 38 || text.len() == 45,
        names_uuid(ascii_lower(ascii_upper(text)), id) == names_uuid(ascii_lower(text), id),
        names_uuid(ascii_lower(simple_text(id)), id),
        names_uuid(ascii_lower(hyphenated_text(id)), id),
        names_uuid(ascii_lower(ascii_upper(simple_text(id))), id),
        names_uuid(ascii_lower(ascii_upper(hyphenated_text(id))), id),
{
    assert(ascii_lower(text).len() == text.len());
    assert(ascii_lower(ascii_upper(text)) =~= ascii_lower(text));
    assert(ascii_lower(simple_text(id)) =~= simple_text(id));
    assert(ascii_lower(hyphenated_text(id)) =~= hyphenated_text(id));
    assert(ascii_lower(ascii_upper(simple_text(id))) =~= ascii_lower(simple_text(id)));
    assert(ascii_lower(ascii_upper(hyphenated_text(id))) =~= ascii_lower(hyphenated_text(id)));
}
} // verus!
