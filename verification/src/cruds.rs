//! Reading and writing posts, users and favorites.
//!
//! Every operation is a flow: it asks for one [`Query`] at a time, is fed the
//! [`Answer`] the database gave, and either asks for the next query or
//! finishes with its result. An answer that does not answer the pending
//! query leaves a flow where it was, asking the same query again.
use vstd::prelude::*;
use crate::models::{Favorite, Post, PostInfo, PostInfoView, User};
use crate::identifiers::{ascii_lower, names_uuid, parse_uuid, uuid_parse, uuid_to_string};

verus! {

broadcast use vstd::string::group_string_axioms;

/// Outcome of a lookup of one row: present, absent, or the query failed.
#[derive(Debug, PartialEq, Eq, Clone, Copy)]
pub enum Lookup {
    Found,
    Missing,
    Failed,
}

/// The account that the identity provider reports for a bearer token.
#[derive(Debug, Clone, PartialEq, Eq)]
pub struct FirebaseUser {
    pub local_id: String,
    pub email: String,
}

/// A request to the database (or, for `FirebaseLookup`, to the identity
/// provider) that a flow needs answered before it can go on.
#[derive(Debug, Clone, PartialEq, Eq)]
pub enum Query {
    /// All rows of `users`; answered with `Answer::Users`.
    ListUsers,
    /// Insert a user, then read the first row of `users`; answered with `Answer::User`.
    InsertUser { id: String, name: String, email: String },
    /// The account behind a bearer token; answered with `Answer::FirebaseUser`.
    FirebaseLookup { token: String },
    /// Top-level posts (no `reply_at`) in a window; answered with `Answer::Posts`.
    TopLevelPosts { limit: i64, offset: i64 },
    /// The post with this id; answered with `Answer::Post`.
    PostById { post_id: u128 },
    /// The user with this id; answered with `Answer::User`.
    UserById { user_id: String },
    /// The favorites of a post; answered with `Answer::Favorites`.
    FavoritesOfPost { post_id: u128 },
    /// The replies to a post; answered with `Answer::Posts`.
    RepliesTo { post_id: u128 },
    /// Insert a post (a reply when `reply_at` is set) and read it back; answered with `Answer::Post`.
    InsertPost {
        author_id: String,
        content_md: String,
        content_html: String,
        reply_at: Option<u128>,
    },
    /// Select the id of the post with this id; answered with `Answer::Lookup`.
    PostExists { post_id: u128 },
    /// Load the rows of the post with this id; answered with `Answer::Lookup`.
    PostRows { post_id: u128 },
    /// Select the favorite of this user for this post; answered with `Answer::Lookup`.
    FavoriteExists { user_id: String, post_id: u128 },
    /// Load the favorite rows of this user for this post; answered with `Answer::Lookup`.
    FavoriteRows { user_id: String, post_id: u128 },
    /// Insert a favorite; answered with `Answer::Written`.
    InsertFavorite { user_id: String, post_id: u128 },
    /// Delete the favorites of this user for this post; answered with `Answer::Written`.
    DeleteFavorite { user_id: String, post_id: u128 },
}

/// What came back for a [`Query`].
#[derive(Debug, PartialEq, Eq)]
pub enum Answer {
    Users(Vec<User>),
    User(User),
    FirebaseUser(Option<FirebaseUser>),
    Posts(Vec<Post>),
    Post(Post),
    Favorites(Vec<Favorite>),
    Lookup(Lookup),
    Written(bool),
}

/// The mathematical value of an [`Answer`]: lists as sequences.
pub enum AnswerView {
    Users(Seq<User>),
    User(User),
    FirebaseUser(Option<FirebaseUser>),
    Posts(Seq<Post>),
    Post(Post),
    Favorites(Seq<Favorite>),
    Lookup(Lookup),
    Written(bool),
}

impl View for Answer {
    type V = AnswerView;

    open spec fn view(&self) -> AnswerView {
        match self {
            Answer::Users(users) => AnswerView::Users(users@),
            Answer::User(user) => AnswerView::User(*user),
            Answer::FirebaseUser(account) => AnswerView::FirebaseUser(*account),
            Answer::Posts(posts) => AnswerView::Posts(posts@),
            Answer::Post(post) => AnswerView::Post(*post),
            Answer::Favorites(favorites) => AnswerView::Favorites(favorites@),
            Answer::Lookup(lookup) => AnswerView::Lookup(*lookup),
            Answer::Written(ok) => AnswerView::Written(*ok),
        }
    }
}

/// Where a flow stands after a step: it asks the next query, or it is done.
pub enum Progress<F, T> {
    Next(F, Query),
    Finished(T),
}

/// A step of a flow, on mathematical values: the next state, or the result.
pub enum Outcome<F, T> {
    Continue(F),
    Stop(T),
}

/// A result carrying a post's details, compared with its mathematical value.
pub open spec fn result_matches<E>(r: Result<PostInfo, E>, v: Result<PostInfoView, E>) -> bool {
    match (r, v) {
        (Ok(info), Ok(info_view)) => info@ == info_view,
        (Err(e), Err(e_view)) => e == e_view,
        _ => false,
    }
}

// ---------------------------------------------------------------------------
// Assembling the details of a post
// ---------------------------------------------------------------------------

/// What the assembly of a post's details is waiting for.
#[derive(Debug, PartialEq, Eq, Clone, Copy)]
pub enum InfoStage {
    Author,
    Favorites,
    FavoriteUsers,
    Replies,
}

/// Assembles a [`PostInfo`] for a post: its author, then its favorites, then
/// the user of each favorite in turn, then its replies.
pub struct PostInfoFlow {
    post: Post,
    author: Option<User>,
    favorites: Vec<Favorite>,
    favorited_by: Vec<User>,
    stage: InfoStage,
}

/// The state of a [`PostInfoFlow`].
pub struct PostInfoFlowView {
    pub post: Post,
    pub author: Option<User>,
    pub favorites: Seq<Favorite>,
    pub favorited_by: Seq<User>,
    pub stage: InfoStage,
}

impl PostInfoFlowView {
    /// States that the assembly can be in: the author is known once it was
    /// answered, and the users found so far are a prefix of the favorites.
    pub open spec fn wf(self) -> bool {
        &&& self.stage != InfoStage::Author ==> self.author is Some
        &&& (self.stage == InfoStage::Author || self.stage == InfoStage::Favorites) ==> (
        self.favorites.len() == 0 && self.favorited_by.len() == 0)
        &&& self.stage == InfoStage::FavoriteUsers ==> self.favorited_by.len()
            < self.favorites.len()
        &&& self.stage == InfoStage::Replies ==> self.favorited_by.len() == self.favorites.len()
    }

    /// The query this state waits on.
    pub open spec fn query(self) -> Query {
        match self.stage {
            InfoStage::Author => Query::UserById { user_id: self.post.user_id },
            InfoStage::Favorites => Query::FavoritesOfPost { post_id: self.post.id },
            InfoStage::FavoriteUsers => Query::UserById {
                user_id: self.favorites[self.favorited_by.len() as int].user_id,
            },
            InfoStage::Replies => Query::RepliesTo { post_id: self.post.id },
        }
    }

    /// The state in which the assembly for `post` begins.
    pub open spec fn start(post: Post) -> PostInfoFlowView {
        PostInfoFlowView {
            post,
            author: None,
            favorites: Seq::empty(),
            favorited_by: Seq::empty(),
            stage: InfoStage::Author,
        }
    }

    /// The details assembled once the replies are known.
    pub open spec fn finish(self, replies: Seq<Post>) -> PostInfoView {
        PostInfoView {
            base_post: self.post,
            author: self.author.unwrap(),
            favorited_by: self.favorited_by,
            favorite_count: self.favorited_by.len() as i64,
            replied_count: replies.len() as i64,
        }
    }

    /// One step of the assembly.
    pub open spec fn step(self, answer: AnswerView) -> Outcome<PostInfoFlowView, PostInfoView> {
        match (self.stage, answer) {
            (InfoStage::Author, AnswerView::User(author)) => Outcome::Continue(
                PostInfoFlowView { author: Some(author), stage: InfoStage::Favorites, ..self },
            ),
            (InfoStage::Favorites, AnswerView::Favorites(favorites)) => Outcome::Continue(
                PostInfoFlowView {
                    favorites,
                    stage: if favorites.len() == 0 {
                        InfoStage::Replies
                    } else {
                        InfoStage::FavoriteUsers
                    },
                    ..self
                },
            ),
            (InfoStage::FavoriteUsers, AnswerView::User(user)) => Outcome::Continue(
                PostInfoFlowView {
                    favorited_by: self.favorited_by.push(user),
                    stage: if self.favorited_by.len() + 1 == self.favorites.len() {
                        InfoStage::Replies
                    } else {
                        InfoStage::FavoriteUsers
                    },
                    ..self
                },
            ),
            (InfoStage::Replies, AnswerView::Posts(replies)) => Outcome::Stop(
                self.finish(replies),
            ),
            _ => Outcome::Continue(self),
        }
    }
}

impl View for PostInfoFlow {
    type V = PostInfoFlowView;

    closed spec fn view(&self) -> PostInfoFlowView {
        PostInfoFlowView {
            post: self.post,
            author: self.author,
            favorites: self.favorites@,
            favorited_by: self.favorited_by@,
            stage: self.stage,
        }
    }
}

/// A step of an exec flow agrees with a step on mathematical values.
pub open spec fn info_progressed(
    r: Progress<PostInfoFlow, PostInfo>,
    o: Outcome<PostInfoFlowView, PostInfoView>,
) -> bool {
    match (r, o) {
        (Progress::Next(flow, query), Outcome::Continue(v)) => flow@ == v && query == v.query(),
        (Progress::Finished(info), Outcome::Stop(v)) => info@ == v,
        _ => false,
    }
}

impl PostInfoFlow {
    #[verifier::type_invariant]
    spec fn well_formed(self) -> bool {
        self@.wf()
    }

    /// Begins assembling the details of `post`; the first query reads its author.
    pub fn start(post: Post) -> (started: (PostInfoFlow, Query))
        ensures
            started.0@ == PostInfoFlowView::start(post),
            started.1 == started.0@.query(),
    {
        let query = Query::UserById { user_id: post.user_id.clone() };
        let flow = PostInfoFlow {
            post,
            author: None,
            favorites: Vec::new(),
            favorited_by: Vec::new(),
            stage: InfoStage::Author,
        };
        (flow, query)
    }

    /// The query this assembly waits on.
    pub fn query(&self) -> (query: Query)
        ensures
            query == self@.query(),
    {
        proof {
            use_type_invariant(self);
        }
        match self.stage {
            InfoStage::Author => Query::UserById { user_id: self.post.user_id.clone() },
            InfoStage::Favorites => Query::FavoritesOfPost { post_id: self.post.id },
            InfoStage::FavoriteUsers => Query::UserById {
                user_id: self.favorites[self.favorited_by.len()].user_id.clone(),
            },
            InfoStage::Replies => Query::RepliesTo { post_id: self.post.id },
        }
    }

    /// Feeds the answer to the pending query.
    pub fn step(self, answer: Answer) -> (r: Progress<PostInfoFlow, PostInfo>)
        ensures
            info_progressed(r, self@.step(answer@)),
    {
        proof {
            use_type_invariant(&self);
        }
        let stage = self.stage;
        match (stage, answer) {
            (InfoStage::Author, Answer::User(author)) => {
                let query = Query::FavoritesOfPost { post_id: self.post.id };
                let flow = PostInfoFlow {
                    post: self.post,
                    author: Some(author),
                    favorites: self.favorites,
                    favorited_by: self.favorited_by,
                    stage: InfoStage::Favorites,
                };
                Progress::Next(flow, query)
            },
            (InfoStage::Favorites, Answer::Favorites(favorites)) => {
                let stage = if favorites.len() == 0 {
                    InfoStage::Replies
                } else {
                    InfoStage::FavoriteUsers
                };
                let flow = PostInfoFlow {
                    post: self.post,
                    author: self.author,
                    favorites,
                    favorited_by: self.favorited_by,
                    stage,
                };
                let query = flow.query();
                Progress::Next(flow, query)
            },
            (InfoStage::FavoriteUsers, Answer::User(user)) => {
                let mut favorited_by = self.favorited_by;
                favorited_by.push(user);
                let stage = if favorited_by.len() == self.favorites.len() {
                    InfoStage::Replies
                } else {
                    InfoStage::FavoriteUsers
                };
                let flow = PostInfoFlow {
                    post: self.post,
                    author: self.author,
                    favorites: self.favorites,
                    favorited_by,
                    stage,
                };
                let query = flow.query();
                Progress::Next(flow, query)
            },
            (InfoStage::Replies, Answer::Posts(replies)) => {
                let author = self.author.unwrap();
                let favorite_count = self.favorited_by.len() as i64;
                let replied_count = replies.len() as i64;
                Progress::Finished(
                    PostInfo {
                        base_post: self.post,
                        author,
                        favorited_by: self.favorited_by,
                        favorite_count,
                        replied_count,
                    },
                )
            },
            (_, _) => {
                let query = self.query();
                Progress::Next(self, query)
            },
        }
    }
}


// ---------------------------------------------------------------------------
// Users
// ---------------------------------------------------------------------------

/// Whether one of `users` (the rows of the `users` table) has the id `id`.
pub fn search_user_from_db(users: &Vec<User>, id: String) -> (found: bool)
    ensures
        found == exists|i: int| 0 <= i < users@.len() && (#[trigger] users@[i]).id@ == id@,
{
    let mut i: usize = 0;
    while i < users.len()
        invariant
            i <= users@.len(),
            forall|j: int| 0 <= j < i ==> (#[trigger] users@[j]).id@ != id@,
        decreases users@.len() - i,
    {
        if users[i].id == id {
            return true;
        }
        i = i + 1;
    }
    false
}

// ---------------------------------------------------------------------------
// Reading one post by its id
// ---------------------------------------------------------------------------

/// Why the details of a post could not be read.
#[derive(Debug, PartialEq, Eq, Clone, Copy)]
pub enum GetPostErr {
    InvalidParam,
    NotFound,
    InternalServerError,
}

/// Reads the details of the post with a given id: the post, then its details.
pub enum GetPostInfoFlow {
    Waiting { post_id: u128 },
    Assembling { flow: PostInfoFlow },
}

/// The state of a [`GetPostInfoFlow`].
pub enum GetPostInfoView {
    Waiting { post_id: u128 },
    Assembling { flow: PostInfoFlowView },
}

impl View for GetPostInfoFlow {
    type V = GetPostInfoView;

    open spec fn view(&self) -> GetPostInfoView {
        match self {
            GetPostInfoFlow::Waiting { post_id } => GetPostInfoView::Waiting { post_id: *post_id },
            GetPostInfoFlow::Assembling { flow } => GetPostInfoView::Assembling { flow: flow@ },
        }
    }
}

impl GetPostInfoView {
    /// The query this state waits on.
    pub open spec fn query(self) -> Query {
        match self {
            GetPostInfoView::Waiting { post_id } => Query::PostById { post_id },
            GetPostInfoView::Assembling { flow } => flow.query(),
        }
    }

    /// One step of the read.
    pub open spec fn step(self, answer: AnswerView) -> Outcome<
        GetPostInfoView,
        Result<PostInfoView, GetPostErr>,
    > {
        match self {
            GetPostInfoView::Waiting { post_id } => match answer {
                AnswerView::Post(post) => Outcome::Continue(
                    GetPostInfoView::Assembling { flow: PostInfoFlowView::start(post) },
                ),
                _ => Outcome::Continue(self),
            },
            GetPostInfoView::Assembling { flow } => match flow.step(answer) {
                Outcome::Continue(next) => Outcome::Continue(
                    GetPostInfoView::Assembling { flow: next },
                ),
                Outcome::Stop(info) => Outcome::Stop(Ok(info)),
            },
        }
    }
}

/// A step of a [`GetPostInfoFlow`] agrees with a step on mathematical values.
pub open spec fn get_info_progressed(
    r: Progress<GetPostInfoFlow, Result<PostInfo, GetPostErr>>,
    o: Outcome<GetPostInfoView, Result<PostInfoView, GetPostErr>>,
) -> bool {
    match (r, o) {
        (Progress::Next(flow, query), Outcome::Continue(v)) => flow@ == v && query == v.query(),
        (Progress::Finished(result), Outcome::Stop(v)) => result_matches(result, v),
        _ => false,
    }
}

/// How the read of a post's details begins, for the parsed id `parsed`:
/// refused when the id is not a UUID, otherwise by reading the post.
pub open spec fn get_info_started(
    r: Progress<GetPostInfoFlow, Result<PostInfo, GetPostErr>>,
    parsed: Option<u128>,
) -> bool {
    match parsed {
        None => r matches Progress::Finished(Err(e)) && e == GetPostErr::InvalidParam,
        Some(id) => r matches Progress::Next(flow, query) && flow@ == (GetPostInfoView::Waiting {
            post_id: id,
        }) && query == (Query::PostById { post_id: id }),
    }
}

/// Begins reading the details of the post whose id is the text `post_id`.
pub fn get_post_info_by_id(post_id: String) -> (r: Progress<
    GetPostInfoFlow,
    Result<PostInfo, GetPostErr>,
>)
    ensures
        get_info_started(r, uuid_parse(post_id@)),
        forall|id: u128| #[trigger] names_uuid(ascii_lower(post_id@), id) ==> get_info_started(
            r,
            Some(id),
        ),
        (forall|id: u128| !names_uuid(ascii_lower(post_id@), id)) ==> get_info_started(r, None),
{
    get_post_info_from_parsed(parse_uuid(post_id.as_str()))
}

/// Begins reading the details of a post, given what its id parsed to.
pub fn get_post_info_from_parsed(parsed: Option<u128>) -> (r: Progress<
    GetPostInfoFlow,
    Result<PostInfo, GetPostErr>,
>)
    ensures
        get_info_started(r, parsed),
{
    match parsed {
        None => Progress::Finished(Err(GetPostErr::InvalidParam)),
        Some(post_id) => Progress::Next(
            GetPostInfoFlow::Waiting { post_id },
            Query::PostById { post_id },
        ),
    }
}

impl GetPostInfoFlow {
    /// The query this read waits on.
    pub fn query(&self) -> (query: Query)
        ensures
            query == self@.query(),
    {
        match self {
            GetPostInfoFlow::Waiting { post_id } => Query::PostById { post_id: *post_id },
            GetPostInfoFlow::Assembling { flow } => flow.query(),
        }
    }

    /// Feeds the answer to the pending query.
    pub fn step(self, answer: Answer) -> (r: Progress<
        GetPostInfoFlow,
        Result<PostInfo, GetPostErr>,
    >)
        ensures
            get_info_progressed(r, self@.step(answer@)),
    {
        match self {
            GetPostInfoFlow::Waiting { post_id } => match answer {
                Answer::Post(post) => {
                    let (flow, query) = PostInfoFlow::start(post);
                    Progress::Next(GetPostInfoFlow::Assembling { flow }, query)
                },
                _ => Progress::Next(
                    GetPostInfoFlow::Waiting { post_id },
                    Query::PostById { post_id },
                ),
            },
            GetPostInfoFlow::Assembling { flow } => match flow.step(answer) {
                Progress::Next(next, query) => Progress::Next(
                    GetPostInfoFlow::Assembling { flow: next },
                    query,
                ),
                Progress::Finished(info) => Progress::Finished(Ok(info)),
            },
        }
    }
}


// ---------------------------------------------------------------------------
// Creating a post
// ---------------------------------------------------------------------------

/// Why a post could not be created.
#[derive(Debug, PartialEq, Eq, Clone, Copy)]
pub enum CreatePostErr {
    InvalidParam,
    InternalServerError,
}

impl CreatePostErr {
    /// The text that displays this error.
    pub fn to_string(&self) -> (text: String)
        ensures
            match self {
                CreatePostErr::InvalidParam => text@ == "Paramaters are invalid"@,
                CreatePostErr::InternalServerError => text@ == "InternalServerError"@,
            },
    {
        match self {
            CreatePostErr::InvalidParam => "Paramaters are invalid".to_string(),
            CreatePostErr::InternalServerError => "InternalServerError".to_string(),
        }
    }
}

/// Creates a post, then reads back its details by the text of its new id.
pub enum CreatePostFlow {
    Inserting {
        author_id: String,
        content_md: String,
        content_html: String,
        reply_at: Option<u128>,
    },
    Loading { flow: GetPostInfoFlow },
}

/// The state of a [`CreatePostFlow`].
pub enum CreatePostView {
    Inserting {
        author_id: String,
        content_md: String,
        content_html: String,
        reply_at: Option<u128>,
    },
    Loading { flow: GetPostInfoView },
}

impl View for CreatePostFlow {
    type V = CreatePostView;

    open spec fn view(&self) -> CreatePostView {
        match self {
            CreatePostFlow::Inserting { author_id, content_md, content_html, reply_at } =>
                CreatePostView::Inserting {
                author_id: *author_id,
                content_md: *content_md,
                content_html: *content_html,
                reply_at: *reply_at,
            },
            CreatePostFlow::Loading { flow } => CreatePostView::Loading { flow: flow@ },
        }
    }
}

impl CreatePostView {
    /// The query this state waits on.
    pub open spec fn query(self) -> Query {
        match self {
            CreatePostView::Inserting { author_id, content_md, content_html, reply_at } =>
                Query::InsertPost { author_id, content_md, content_html, reply_at },
            CreatePostView::Loading { flow } => flow.query(),
        }
    }

    /// One step of the creation. Once the post is stored, its details are
    /// read by the id that the database gave it.
    pub open spec fn step(self, answer: AnswerView) -> Outcome<
        CreatePostView,
        Result<PostInfoView, CreatePostErr>,
    > {
        match self {
            CreatePostView::Inserting { .. } => match answer {
                AnswerView::Post(post) => Outcome::Continue(
                    CreatePostView::Loading {
                        flow: GetPostInfoView::Waiting { post_id: post.id },
                    },
                ),
                _ => Outcome::Continue(self),
            },
            CreatePostView::Loading { flow } => match flow.step(answer) {
                Outcome::Continue(next) => Outcome::Continue(CreatePostView::Loading { flow: next }),
                Outcome::Stop(Ok(info)) => Outcome::Stop(Ok(info)),
                Outcome::Stop(Err(_)) => Outcome::Stop(Err(CreatePostErr::InternalServerError)),
            },
        }
    }
}

/// A step of a [`CreatePostFlow`] agrees with a step on mathematical values.
pub open spec fn create_progressed(
    r: Progress<CreatePostFlow, Result<PostInfo, CreatePostErr>>,
    o: Outcome<CreatePostView, Result<PostInfoView, CreatePostErr>>,
) -> bool {
    match (r, o) {
        (Progress::Next(flow, query), Outcome::Continue(v)) => flow@ == v && query == v.query(),
        (Progress::Finished(result), Outcome::Stop(v)) => result_matches(result, v),
        _ => false,
    }
}

/// Begins creating a post by `author_id`; it is a reply when `reply_to` names
/// the post it answers. The first query inserts the post.
pub fn create_new_post(
    author_id: &String,
    content_md: &String,
    content_html: &String,
    reply_to: &Option<u128>,
) -> (started: (CreatePostFlow, Query))
    ensures
        started.0@ == (CreatePostView::Inserting {
            author_id: *author_id,
            content_md: *content_md,
            content_html: *content_html,
            reply_at: *reply_to,
        }),
        started.1 == started.0@.query(),
        started.1 == (Query::InsertPost {
            author_id: *author_id,
            content_md: *content_md,
            content_html: *content_html,
            reply_at: *reply_to,
        }),
{
    let query = Query::InsertPost {
        author_id: author_id.clone(),
        content_md: content_md.clone(),
        content_html: content_html.clone(),
        reply_at: *reply_to,
    };
    let flow = CreatePostFlow::Inserting {
        author_id: author_id.clone(),
        content_md: content_md.clone(),
        content_html: content_html.clone(),
        reply_at: *reply_to,
    };
    (flow, query)
}

impl CreatePostFlow {
    /// The query this creation waits on.
    pub fn query(&self) -> (query: Query)
        ensures
            query == self@.query(),
    {
        match self {
            CreatePostFlow::Inserting { author_id, content_md, content_html, reply_at } =>
                Query::InsertPost {
                author_id: author_id.clone(),
                content_md: content_md.clone(),
                content_html: content_html.clone(),
                reply_at: *reply_at,
            },
            CreatePostFlow::Loading { flow } => flow.query(),
        }
    }

    /// Feeds the answer to the pending query.
    pub fn step(self, answer: Answer) -> (r: Progress<
        CreatePostFlow,
        Result<PostInfo, CreatePostErr>,
    >)
        ensures
            create_progressed(r, self@.step(answer@)),
    {
        match self {
            CreatePostFlow::Inserting { author_id, content_md, content_html, reply_at } => {
                match answer {
                    Answer::Post(post) => {
                        let post_id = uuid_to_string(post.id);
                        match get_post_info_by_id(post_id) {
                            Progress::Next(flow, query) => Progress::Next(
                                CreatePostFlow::Loading { flow },
                                query,
                            ),
                            Progress::Finished(Ok(info)) => Progress::Finished(Ok(info)),
                            Progress::Finished(Err(_)) => Progress::Finished(
                                Err(CreatePostErr::InternalServerError),
                            ),
                        }
                    },
                    _ => {
                        let flow = CreatePostFlow::Inserting {
                            author_id,
                            content_md,
                            content_html,
                            reply_at,
                        };
                        let query = flow.query();
                        Progress::Next(flow, query)
                    },
                }
            },
            CreatePostFlow::Loading { flow } => match flow.step(answer) {
                Progress::Next(next, query) => Progress::Next(
                    CreatePostFlow::Loading { flow: next },
                    query,
                ),
                Progress::Finished(Ok(info)) => Progress::Finished(Ok(info)),
                Progress::Finished(Err(_)) => Progress::Finished(
                    Err(CreatePostErr::InternalServerError),
                ),
            },
        }
    }
}

// ---------------------------------------------------------------------------
// Adding and removing favorites
// ---------------------------------------------------------------------------

/// Why a favorite could not be added or removed.
#[derive(Debug, PartialEq, Eq, Clone, Copy)]
pub enum FavoriteErr {
    InvalidParam,
    NotFound,
    InternalServerError,
}

/// What a favorite change is waiting for.
pub enum FavoriteStage {
    PostCheck,
    FavoriteCheck,
    Writing,
    Loading { flow: GetPostInfoFlow },
}

/// The state of a [`FavoriteStage`].
pub enum FavoriteStageView {
    PostCheck,
    FavoriteCheck,
    Writing,
    Loading { flow: GetPostInfoView },
}

/// Adds (or, when `removing`, removes) the favorite of a user for a post:
/// checks that the post exists, checks whether the favorite exists, writes
/// when that changes something, then reads back the post's details.
pub struct FavoriteFlow {
    user_id: String,
    post_id: String,
    post_uuid: u128,
    removing: bool,
    stage: FavoriteStage,
}

/// The state of a [`FavoriteFlow`].
pub struct FavoriteFlowView {
    pub user_id: String,
    pub post_id: String,
    pub post_uuid: u128,
    pub removing: bool,
    pub stage: FavoriteStageView,
}

impl View for FavoriteFlow {
    type V = FavoriteFlowView;

    closed spec fn view(&self) -> FavoriteFlowView {
        FavoriteFlowView {
            user_id: self.user_id,
            post_id: self.post_id,
            post_uuid: self.post_uuid,
            removing: self.removing,
            stage: match self.stage {
                FavoriteStage::PostCheck => FavoriteStageView::PostCheck,
                FavoriteStage::FavoriteCheck => FavoriteStageView::FavoriteCheck,
                FavoriteStage::Writing => FavoriteStageView::Writing,
                FavoriteStage::Loading { flow } => FavoriteStageView::Loading { flow: flow@ },
            },
        }
    }
}

/// Whether a favorite change must write, given whether the favorite exists:
/// an addition writes when it is missing, a removal when it is found.
pub open spec fn needs_write(removing: bool, lookup: Lookup) -> bool {
    if removing {
        lookup == Lookup::Found
    } else {
        lookup == Lookup::Missing
    }
}

impl FavoriteFlowView {
    /// The query this state waits on.
    pub open spec fn query(self) -> Query {
        match self.stage {
            FavoriteStageView::PostCheck => if self.removing {
                Query::PostRows { post_id: self.post_uuid }
            } else {
                Query::PostExists { post_id: self.post_uuid }
            },
            FavoriteStageView::FavoriteCheck => if self.removing {
                Query::FavoriteRows { user_id: self.user_id, post_id: self.post_uuid }
            } else {
                Query::FavoriteExists { user_id: self.user_id, post_id: self.post_uuid }
            },
            FavoriteStageView::Writing => if self.removing {
                Query::DeleteFavorite { user_id: self.user_id, post_id: self.post_uuid }
            } else {
                Query::InsertFavorite { user_id: self.user_id, post_id: self.post_uuid }
            },
            FavoriteStageView::Loading { flow } => flow.query(),
        }
    }

    /// Goes on to read the post's details by the text of its id.
    pub open spec fn load(self) -> Outcome<FavoriteFlowView, Result<PostInfoView, FavoriteErr>> {
        match uuid_parse(self.post_id@) {
            Some(id) => Outcome::Continue(
                FavoriteFlowView {
                    stage: FavoriteStageView::Loading {
                        flow: GetPostInfoView::Waiting { post_id: id },
                    },
                    ..self
                },
            ),
            None => Outcome::Stop(Err(FavoriteErr::InternalServerError)),
        }
    }

    /// One step of the change.
    pub open spec fn step(self, answer: AnswerView) -> Outcome<
        FavoriteFlowView,
        Result<PostInfoView, FavoriteErr>,
    > {
        match self.stage {
            FavoriteStageView::PostCheck => match answer {
                AnswerView::Lookup(Lookup::Found) => Outcome::Continue(
                    FavoriteFlowView { stage: FavoriteStageView::FavoriteCheck, ..self },
                ),
                AnswerView::Lookup(Lookup::Missing) => Outcome::Stop(Err(FavoriteErr::NotFound)),
                AnswerView::Lookup(Lookup::Failed) => Outcome::Stop(
                    Err(FavoriteErr::InternalServerError),
                ),
                _ => Outcome::Continue(self),
            },
            FavoriteStageView::FavoriteCheck => match answer {
                AnswerView::Lookup(Lookup::Failed) => Outcome::Stop(
                    Err(FavoriteErr::InternalServerError),
                ),
                AnswerView::Lookup(lookup) => if needs_write(self.removing, lookup) {
                    Outcome::Continue(FavoriteFlowView { stage: FavoriteStageView::Writing, ..self })
                } else {
                    self.load()
                },
                _ => Outcome::Continue(self),
            },
            FavoriteStageView::Writing => match answer {
                AnswerView::Written(true) => self.load(),
                AnswerView::Written(false) => Outcome::Stop(Err(FavoriteErr::InternalServerError)),
                _ => Outcome::Continue(self),
            },
            FavoriteStageView::Loading { flow } => match flow.step(answer) {
                Outcome::Continue(next) => Outcome::Continue(
                    FavoriteFlowView { stage: FavoriteStageView::Loading { flow: next }, ..self },
                ),
                Outcome::Stop(Ok(info)) => Outcome::Stop(Ok(info)),
                Outcome::Stop(Err(_)) => Outcome::Stop(Err(FavoriteErr::InternalServerError)),
            },
        }
    }
}

/// A step of a [`FavoriteFlow`] agrees with a step on mathematical values.
pub open spec fn favorite_progressed(
    r: Progress<FavoriteFlow, Result<PostInfo, FavoriteErr>>,
    o: Outcome<FavoriteFlowView, Result<PostInfoView, FavoriteErr>>,
) -> bool {
    match (r, o) {
        (Progress::Next(flow, query), Outcome::Continue(v)) => flow@ == v && query == v.query(),
        (Progress::Finished(result), Outcome::Stop(v)) => result_matches(result, v),
        _ => false,
    }
}

/// How a favorite change begins, for the parsed post id `parsed`: refused
/// when the id is not a UUID, otherwise by checking that the post exists.
pub open spec fn favorite_started(
    r: Progress<FavoriteFlow, Result<PostInfo, FavoriteErr>>,
    user_id: String,
    post_id: String,
    parsed: Option<u128>,
    removing: bool,
) -> bool {
    match parsed {
        None => r matches Progress::Finished(Err(e)) && e == FavoriteErr::InvalidParam,
        Some(id) => r matches Progress::Next(flow, query) && flow@ == (FavoriteFlowView {
            user_id,
            post_id,
            post_uuid: id,
            removing,
            stage: FavoriteStageView::PostCheck,
        }) && query == flow@.query(),
    }
}

/// Begins a favorite change, given what the post id parsed to.
pub fn favorite_from_parsed(
    user_id: String,
    post_id: String,
    parsed: Option<u128>,
    removing: bool,
) -> (r: Progress<FavoriteFlow, Result<PostInfo, FavoriteErr>>)
    ensures
        favorite_started(r, user_id, post_id, parsed, removing),
{
    match parsed {
        None => Progress::Finished(Err(FavoriteErr::InvalidParam)),
        Some(post_uuid) => {
            let flow = FavoriteFlow {
                user_id,
                post_id,
                post_uuid,
                removing,
                stage: FavoriteStage::PostCheck,
            };
            let query = flow.query();
            Progress::Next(flow, query)
        },
    }
}

/// Begins recording that `user_id` favorites the post whose id is the text
/// `post_id`.
pub fn add_favorite(user_id: String, post_id: String) -> (r: Progress<
    FavoriteFlow,
    Result<PostInfo, FavoriteErr>,
>)
    ensures
        favorite_started(r, user_id, post_id, uuid_parse(post_id@), false),
        forall|id: u128| #[trigger] names_uuid(ascii_lower(post_id@), id) ==> favorite_started(
            r,
            user_id,
            post_id,
            Some(id),
            false,
        ),
        (forall|id: u128| !names_uuid(ascii_lower(post_id@), id)) ==> favorite_started(
            r,
            user_id,
            post_id,
            None,
            false,
        ),
{
    let parsed = parse_uuid(post_id.as_str());
    favorite_from_parsed(user_id, post_id, parsed, false)
}

/// Begins withdrawing the favorite of `user_id` for the post whose id is the
/// text `post_id`.
pub fn remove_favorite(user_id: String, post_id: String) -> (r: Progress<
    FavoriteFlow,
    Result<PostInfo, FavoriteErr>,
>)
    ensures
        favorite_started(r, user_id, post_id, uuid_parse(post_id@), true),
        forall|id: u128| #[trigger] names_uuid(ascii_lower(post_id@), id) ==> favorite_started(
            r,
            user_id,
            post_id,
            Some(id),
            true,
        ),
        (forall|id: u128| !names_uuid(ascii_lower(post_id@), id)) ==> favorite_started(
            r,
            user_id,
            post_id,
            None,
            true,
        ),
{
    let parsed = parse_uuid(post_id.as_str());
    favorite_from_parsed(user_id, post_id, parsed, true)
}

impl FavoriteFlow {
    /// The query this change waits on.
    pub fn query(&self) -> (query: Query)
        ensures
            query == self@.query(),
    {
        match &self.stage {
            FavoriteStage::PostCheck => if self.removing {
                Query::PostRows { post_id: self.post_uuid }
            } else {
                Query::PostExists { post_id: self.post_uuid }
            },
            FavoriteStage::FavoriteCheck => if self.removing {
                Query::FavoriteRows { user_id: self.user_id.clone(), post_id: self.post_uuid }
            } else {
                Query::FavoriteExists { user_id: self.user_id.clone(), post_id: self.post_uuid }
            },
            FavoriteStage::Writing => if self.removing {
                Query::DeleteFavorite { user_id: self.user_id.clone(), post_id: self.post_uuid }
            } else {
                Query::InsertFavorite { user_id: self.user_id.clone(), post_id: self.post_uuid }
            },
            FavoriteStage::Loading { flow } => flow.query(),
        }
    }

    /// Goes on to read the post's details by the text of its id.
    fn load(self) -> (r: Progress<FavoriteFlow, Result<PostInfo, FavoriteErr>>)
        ensures
            favorite_progressed(r, self@.load()),
    {
        let FavoriteFlow { user_id, post_id, post_uuid, removing, stage } = self;
        match get_post_info_by_id(post_id.clone()) {
            Progress::Next(flow, query) => Progress::Next(
                FavoriteFlow {
                    user_id,
                    post_id,
                    post_uuid,
                    removing,
                    stage: FavoriteStage::Loading { flow },
                },
                query,
            ),
            Progress::Finished(Ok(info)) => Progress::Finished(Ok(info)),
            Progress::Finished(Err(_)) => Progress::Finished(Err(FavoriteErr::InternalServerError)),
        }
    }

    /// This change, at another stage.
    fn at(self, stage: FavoriteStage) -> (r: (FavoriteFlow, Query))
        ensures
            r.0@ == (FavoriteFlowView { stage: r.0@.stage, ..self@ }),
            r.0.stage == stage,
            r.1 == r.0@.query(),
    {
        let flow = FavoriteFlow {
            user_id: self.user_id,
            post_id: self.post_id,
            post_uuid: self.post_uuid,
            removing: self.removing,
            stage,
        };
        let query = flow.query();
        (flow, query)
    }

    /// Feeds the answer to the pending query.
    pub fn step(self, answer: Answer) -> (r: Progress<FavoriteFlow, Result<PostInfo, FavoriteErr>>)
        ensures
            favorite_progressed(r, self@.step(answer@)),
    {
        match self.stage {
            FavoriteStage::PostCheck => match answer {
                Answer::Lookup(Lookup::Found) => {
                    let (flow, query) = self.at(FavoriteStage::FavoriteCheck);
                    Progress::Next(flow, query)
                },
                Answer::Lookup(Lookup::Missing) => Progress::Finished(Err(FavoriteErr::NotFound)),
                Answer::Lookup(Lookup::Failed) => Progress::Finished(
                    Err(FavoriteErr::InternalServerError),
                ),
                _ => {
                    let (flow, query) = self.at(FavoriteStage::PostCheck);
                    Progress::Next(flow, query)
                },
            },
            FavoriteStage::FavoriteCheck => match answer {
                Answer::Lookup(Lookup::Failed) => Progress::Finished(
                    Err(FavoriteErr::InternalServerError),
                ),
                Answer::Lookup(lookup) => {
                    let write = if self.removing {
                        match lookup {
                            Lookup::Found => true,
                            _ => false,
                        }
                    } else {
                        match lookup {
                            Lookup::Missing => true,
                            _ => false,
                        }
                    };
                    if write {
                        let (flow, query) = self.at(FavoriteStage::Writing);
                        Progress::Next(flow, query)
                    } else {
                        self.load()
                    }
                },
                _ => {
                    let (flow, query) = self.at(FavoriteStage::FavoriteCheck);
                    Progress::Next(flow, query)
                },
            },
            FavoriteStage::Writing => match answer {
                Answer::Written(true) => self.load(),
                Answer::Written(false) => Progress::Finished(Err(FavoriteErr::InternalServerError)),
                _ => {
                    let (flow, query) = self.at(FavoriteStage::Writing);
                    Progress::Next(flow, query)
                },
            },
            FavoriteStage::Loading { flow } => match flow.step(answer) {
                Progress::Next(next, query) => Progress::Next(
                    FavoriteFlow {
                        user_id: self.user_id,
                        post_id: self.post_id,
                        post_uuid: self.post_uuid,
                        removing: self.removing,
                        stage: FavoriteStage::Loading { flow: next },
                    },
                    query,
                ),
                Progress::Finished(Ok(info)) => Progress::Finished(Ok(info)),
                Progress::Finished(Err(_)) => Progress::Finished(
                    Err(FavoriteErr::InternalServerError),
                ),
            },
        }
    }
}


// ---------------------------------------------------------------------------
// Listing posts
// ---------------------------------------------------------------------------

/// The page length asked for, 30 when none is given.
pub open spec fn page_length(length: Option<i32>) -> i32 {
    match length {
        Some(l) => l,
        None => 30,
    }
}

/// The page index asked for, 0 when none is given.
pub open spec fn page_index(pages: Option<i32>) -> i32 {
    match pages {
        Some(p) => p,
        None => 0,
    }
}

/// The details of each post of a list, as mathematical values.
pub open spec fn infos_view(infos: Seq<PostInfo>) -> Seq<PostInfoView> {
    infos.map_values(|info: PostInfo| info@)
}

/// What a post listing is waiting for.
pub enum ListStage {
    Listing,
    Assembling { flow: PostInfoFlow },
}

/// The state of a [`ListStage`].
pub enum ListStageView {
    Listing,
    Assembling { flow: PostInfoFlowView },
}

/// Lists a page of top-level posts, then assembles the details of each in
/// the order the posts were listed.
pub struct PostListFlow {
    limit: i64,
    offset: i64,
    remaining: Vec<Post>,
    infos: Vec<PostInfo>,
    stage: ListStage,
}

/// The state of a [`PostListFlow`]: the posts whose details are still to be
/// assembled, and the details assembled so far.
pub struct PostListView {
    pub limit: i64,
    pub offset: i64,
    pub remaining: Seq<Post>,
    pub infos: Seq<PostInfoView>,
    pub stage: ListStageView,
}

impl View for PostListFlow {
    type V = PostListView;

    closed spec fn view(&self) -> PostListView {
        PostListView {
            limit: self.limit,
            offset: self.offset,
            remaining: self.remaining@,
            infos: infos_view(self.infos@),
            stage: match self.stage {
                ListStage::Listing => ListStageView::Listing,
                ListStage::Assembling { flow } => ListStageView::Assembling { flow: flow@ },
            },
        }
    }
}

impl PostListView {
    /// The query this state waits on.
    pub open spec fn query(self) -> Query {
        match self.stage {
            ListStageView::Listing => Query::TopLevelPosts { limit: self.limit, offset: self.offset },
            ListStageView::Assembling { flow } => flow.query(),
        }
    }

    /// Goes on with the next listed post, or stops with `infos`.
    pub open spec fn next_post(self, remaining: Seq<Post>, infos: Seq<PostInfoView>) -> Outcome<
        PostListView,
        Seq<PostInfoView>,
    > {
        if remaining.len() == 0 {
            Outcome::Stop(infos)
        } else {
            Outcome::Continue(
                PostListView {
                    remaining: remaining.drop_first(),
                    infos,
                    stage: ListStageView::Assembling { flow: PostInfoFlowView::start(remaining[0]) },
                    ..self
                },
            )
        }
    }

    /// One step of the listing.
    pub open spec fn step(self, answer: AnswerView) -> Outcome<PostListView, Seq<PostInfoView>> {
        match self.stage {
            ListStageView::Listing => match answer {
                AnswerView::Posts(posts) => self.next_post(posts, self.infos),
                _ => Outcome::Continue(self),
            },
            ListStageView::Assembling { flow } => match flow.step(answer) {
                Outcome::Continue(next) => Outcome::Continue(
                    PostListView { stage: ListStageView::Assembling { flow: next }, ..self },
                ),
                Outcome::Stop(info) => self.next_post(self.remaining, self.infos.push(info)),
            },
        }
    }
}

/// A step of a [`PostListFlow`] agrees with a step on mathematical values.
pub open spec fn list_progressed(
    r: Progress<PostListFlow, Vec<PostInfo>>,
    o: Outcome<PostListView, Seq<PostInfoView>>,
) -> bool {
    match (r, o) {
        (Progress::Next(flow, query), Outcome::Continue(v)) => flow@ == v && query == v.query(),
        (Progress::Finished(infos), Outcome::Stop(v)) => infos_view(infos@) == v,
        _ => false,
    }
}

/// The state a listing of page `pages` (default 0), `length` (default 30)
/// posts per page, begins in: waiting for `length` posts after skipping
/// `pages * length`, with nothing assembled yet.
pub open spec fn listing_start(length: Option<i32>, pages: Option<i32>) -> PostListView {
    PostListView {
        limit: page_length(length) as i64,
        offset: (page_index(pages) * page_length(length)) as i64,
        remaining: Seq::empty(),
        infos: Seq::empty(),
        stage: ListStageView::Listing,
    }
}

/// Whether a query inserts, changes or deletes rows.
pub open spec fn writes_rows(query: Query) -> bool {
    ||| query is InsertUser
    ||| query is InsertPost
    ||| query is InsertFavorite
    ||| query is DeleteFavorite
}

/// Begins listing page `pages` (default 0) of top-level posts, `length`
/// (default 30) posts per page: the first query asks for `length` posts
/// after skipping `pages * length`.
pub fn get_posts(length: Option<i32>, pages: Option<i32>) -> (started: (PostListFlow, Query))
    requires
        i32::MIN <= page_index(pages) * page_length(length) <= i32::MAX,
    ensures
        started.0@ == listing_start(length, pages),
        length matches Some(l) ==> started.1->TopLevelPosts_limit == l as i64,
        length is None ==> started.1->TopLevelPosts_limit == 30,
        pages is None ==> started.1->TopLevelPosts_offset == 0,
        pages matches Some(p) ==> (length matches Some(l) ==> started.1->TopLevelPosts_offset
            == (p * l) as i64),
        pages matches Some(p) ==> (length is None ==> started.1->TopLevelPosts_offset == (p
            * 30) as i64),
        started.1 is TopLevelPosts,
        started.1 == started.0@.query(),
{
    let length = match length {
        Some(l) => l,
        None => 30,
    };
    let pages = match pages {
        Some(p) => p,
        None => 0,
    };
    let limit = length as i64;
    let offset = (pages * length) as i64;
    let flow = PostListFlow {
        limit,
        offset,
        remaining: Vec::new(),
        infos: Vec::new(),
        stage: ListStage::Listing,
    };
    proof {
        assert(infos_view(flow.infos@) =~= Seq::<PostInfoView>::empty());
    }
    (flow, Query::TopLevelPosts { limit, offset })
}

impl PostListFlow {
    /// The query this listing waits on.
    pub fn query(&self) -> (query: Query)
        ensures
            query == self@.query(),
    {
        match &self.stage {
            ListStage::Listing => Query::TopLevelPosts { limit: self.limit, offset: self.offset },
            ListStage::Assembling { flow } => flow.query(),
        }
    }

    /// Goes on with the next listed post, or finishes with the details.
    fn next_post(limit: i64, offset: i64, remaining: Vec<Post>, infos: Vec<PostInfo>) -> (r:
        Progress<PostListFlow, Vec<PostInfo>>)
        ensures
            list_progressed(
                r,
                (PostListView {
                    limit,
                    offset,
                    remaining: Seq::empty(),
                    infos: Seq::empty(),
                    stage: ListStageView::Listing,
                }).next_post(remaining@, infos_view(infos@)),
            ),
    {
        let mut remaining = remaining;
        if remaining.len() == 0 {
            Progress::Finished(infos)
        } else {
            let ghost listed = remaining@;
            let post = remaining.remove(0);
            proof {
                assert(remaining@ =~= listed.drop_first());
            }
            let (flow, query) = PostInfoFlow::start(post);
            Progress::Next(
                PostListFlow {
                    limit,
                    offset,
                    remaining,
                    infos,
                    stage: ListStage::Assembling { flow },
                },
                query,
            )
        }
    }

    /// Feeds the answer to the pending query.
    pub fn step(self, answer: Answer) -> (r: Progress<PostListFlow, Vec<PostInfo>>)
        ensures
            list_progressed(r, self@.step(answer@)),
    {
        let PostListFlow { limit, offset, remaining, infos, stage } = self;
        match stage {
            ListStage::Listing => match answer {
                Answer::Posts(posts) => PostListFlow::next_post(limit, offset, posts, infos),
                _ => Progress::Next(
                    PostListFlow { limit, offset, remaining, infos, stage: ListStage::Listing },
                    Query::TopLevelPosts { limit, offset },
                ),
            },
            ListStage::Assembling { flow } => match flow.step(answer) {
                Progress::Next(next, query) => Progress::Next(
                    PostListFlow {
                        limit,
                        offset,
                        remaining,
                        infos,
                        stage: ListStage::Assembling { flow: next },
                    },
                    query,
                ),
                Progress::Finished(info) => {
                    let mut infos = infos;
                    let ghost before = infos@;
                    infos.push(info);
                    proof {
                        assert(infos_view(infos@) =~= infos_view(before).push(info@));
                    }
                    PostListFlow::next_post(limit, offset, remaining, infos)
                },
            },
        }
    }
}

} // verus!
