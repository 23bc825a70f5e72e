//! Authentication of requests: the bearer token must belong to an account of
//! the identity provider, and that account is registered locally on first use.
use vstd::prelude::*;
use crate::cruds::{search_user_from_db, Answer, AnswerView, FirebaseUser, Outcome, Progress, Query};
use crate::models::User;

verus! {

broadcast use vstd::string::group_string_axioms;

/// Why a request could not be authenticated.
#[derive(Debug, PartialEq, Eq, Clone, Copy)]
pub enum CheckFirebaseErr {
    TokenDoeNotExist,
    UserFirebaseNotFound,
    UserDbNotFound,
    InternalDbError,
}

/// Result of authenticating a request.
pub type CheckFirebaseResult = Result<bool, CheckFirebaseErr>;

/// What the authentication of a request is waiting for.
pub enum FirebaseStage {
    /// The account behind the token.
    AccountLookup,
    /// The local users, to see whether the account is registered.
    UserSearch { local_id: String },
    /// The account behind the token, read again to register it.
    AccountReread,
    /// The registration of the account.
    Registering { account: FirebaseUser },
}

/// Authenticates a request that carries a bearer token.
pub struct FirebaseFlow {
    token: String,
    stage: FirebaseStage,
}

/// The state of a [`FirebaseFlow`].
pub struct FirebaseFlowView {
    pub token: String,
    pub stage: FirebaseStage,
}

impl View for FirebaseFlow {
    type V = FirebaseFlowView;

    closed spec fn view(&self) -> FirebaseFlowView {
        FirebaseFlowView { token: self.token, stage: self.stage }
    }
}

/// Whether one of `users` has the id `id`.
pub open spec fn registered(users: Seq<User>, id: String) -> bool {
    exists|i: int| 0 <= i < users.len() && (#[trigger] users[i]).id@ == id@
}

impl FirebaseFlowView {
    /// The query this state waits on.
    pub open spec fn query(self) -> Query {
        match self.stage {
            FirebaseStage::AccountLookup => Query::FirebaseLookup { token: self.token },
            FirebaseStage::UserSearch { .. } => Query::ListUsers,
            FirebaseStage::AccountReread => Query::FirebaseLookup { token: self.token },
            FirebaseStage::Registering { account } => Query::InsertUser {
                id: account.local_id,
                name: account.local_id,
                email: account.email,
            },
        }
    }

    /// One step of the authentication. An account unknown to the identity
    /// provider is refused; an account not yet in the local users is
    /// registered, with its id as its name.
    pub open spec fn step(self, answer: AnswerView) -> Outcome<FirebaseFlowView, CheckFirebaseResult> {
        match (self.stage, answer) {
            (FirebaseStage::AccountLookup, AnswerView::FirebaseUser(None)) => Outcome::Stop(
                Err(CheckFirebaseErr::UserFirebaseNotFound),
            ),
            (FirebaseStage::AccountLookup, AnswerView::FirebaseUser(Some(account))) =>
                Outcome::Continue(
                FirebaseFlowView {
                    stage: FirebaseStage::UserSearch { local_id: account.local_id },
                    ..self
                },
            ),
            (FirebaseStage::UserSearch { local_id }, AnswerView::Users(users)) => if registered(
                users,
                local_id,
            ) {
                Outcome::Stop(Ok(true))
            } else {
                Outcome::Continue(FirebaseFlowView { stage: FirebaseStage::AccountReread, ..self })
            },
            (FirebaseStage::AccountReread, AnswerView::FirebaseUser(None)) => Outcome::Stop(
                Err(CheckFirebaseErr::UserFirebaseNotFound),
            ),
            (FirebaseStage::AccountReread, AnswerView::FirebaseUser(Some(account))) =>
                Outcome::Continue(
                FirebaseFlowView { stage: FirebaseStage::Registering { account }, ..self },
            ),
            (FirebaseStage::Registering { .. }, AnswerView::User(_)) => Outcome::Stop(Ok(true)),
            _ => Outcome::Continue(self),
        }
    }
}


/// A step of a [`FirebaseFlow`] agrees with a step on mathematical values.
pub open spec fn firebase_progressed(
    r: Progress<FirebaseFlow, CheckFirebaseResult>,
    o: Outcome<FirebaseFlowView, CheckFirebaseResult>,
) -> bool {
    match (r, o) {
        (Progress::Next(flow, query), Outcome::Continue(v)) => flow@ == v && query == v.query(),
        (Progress::Finished(result), Outcome::Stop(v)) => result == v,
        _ => false,
    }
}

/// Begins authenticating a request whose `Authorization` header holds
/// `bearer`: a request without the header is refused, otherwise the first
/// query asks the identity provider for the account behind the token.
pub fn check_firebase(bearer: Option<String>) -> (r: Progress<FirebaseFlow, CheckFirebaseResult>)
    ensures
        match bearer {
            None => r matches Progress::Finished(result) && result == Err::<bool, CheckFirebaseErr>(
                CheckFirebaseErr::TokenDoeNotExist,
            ),
            Some(token) => r matches Progress::Next(flow, query) && flow@ == (FirebaseFlowView {
                token,
                stage: FirebaseStage::AccountLookup,
            }) && query == flow@.query(),
        },
{
    match bearer {
        None => Progress::Finished(Err(CheckFirebaseErr::TokenDoeNotExist)),
        Some(token) => {
            let query = Query::FirebaseLookup { token: token.clone() };
            Progress::Next(FirebaseFlow { token, stage: FirebaseStage::AccountLookup }, query)
        },
    }
}

impl FirebaseFlow {
    /// This authentication, at another stage.
    fn at(token: String, stage: FirebaseStage) -> (r: (FirebaseFlow, Query))
        ensures
            r.0@ == (FirebaseFlowView { token, stage }),
            r.1 == r.0@.query(),
    {
        let flow = FirebaseFlow { token, stage };
        let query = flow.query();
        (flow, query)
    }

    /// The query this authentication waits on.
    pub fn query(&self) -> (query: Query)
        ensures
            query == self@.query(),
    {
        match &self.stage {
            FirebaseStage::AccountLookup => Query::FirebaseLookup { token: self.token.clone() },
            FirebaseStage::UserSearch { .. } => Query::ListUsers,
            FirebaseStage::AccountReread => Query::FirebaseLookup { token: self.token.clone() },
            FirebaseStage::Registering { account } => Query::InsertUser {
                id: account.local_id.clone(),
                name: account.local_id.clone(),
                email: account.email.clone(),
            },
        }
    }

    /// Feeds the answer to the pending query.
    pub fn step(self, answer: Answer) -> (r: Progress<FirebaseFlow, CheckFirebaseResult>)
        ensures
            firebase_progressed(r, self@.step(answer@)),
    {
        let FirebaseFlow { token, stage } = self;
        match (stage, answer) {
            (FirebaseStage::AccountLookup, Answer::FirebaseUser(None)) => Progress::Finished(
                Err(CheckFirebaseErr::UserFirebaseNotFound),
            ),
            (FirebaseStage::AccountLookup, Answer::FirebaseUser(Some(account))) => {
                let (flow, query) = FirebaseFlow::at(
                    token,
                    FirebaseStage::UserSearch { local_id: account.local_id },
                );
                Progress::Next(flow, query)
            },
            (FirebaseStage::UserSearch { local_id }, Answer::Users(users)) => {
                if search_user_from_db(&users, local_id) {
                    Progress::Finished(Ok(true))
                } else {
                    let (flow, query) = FirebaseFlow::at(token, FirebaseStage::AccountReread);
                    Progress::Next(flow, query)
                }
            },
            (FirebaseStage::AccountReread, Answer::FirebaseUser(None)) => Progress::Finished(
                Err(CheckFirebaseErr::UserFirebaseNotFound),
            ),
            (FirebaseStage::AccountReread, Answer::FirebaseUser(Some(account))) => {
                let (flow, query) = FirebaseFlow::at(token, FirebaseStage::Registering { account });
                Progress::Next(flow, query)
            },
            (FirebaseStage::Registering { .. }, Answer::User(_)) => Progress::Finished(Ok(true)),
            (stage, _) => {
                let (flow, query) = FirebaseFlow::at(token, stage);
                Progress::Next(flow, query)
            },
        }
    }
}

/// What the authentication middleware does with a request, given the result
/// of authenticating it: pass it on, or answer it with an error.
#[derive(Debug, PartialEq, Eq)]
pub enum AuthDecision {
    Proceed,
    Reject { status: u16, message: String },
}

/// Decides what happens to an authenticated (or refused) request: a missing
/// or unknown token is answered 401, a failed registration 500; a request
/// whose user is not in the local database is passed on like an accepted one.
pub fn auth_decision(result: &CheckFirebaseResult) -> (decision: AuthDecision)
    ensures
        match result {
            Ok(_) => decision == AuthDecision::Proceed,
            Err(CheckFirebaseErr::UserDbNotFound) => decision == AuthDecision::Proceed,
            Err(CheckFirebaseErr::TokenDoeNotExist) => decision matches AuthDecision::Reject {
                status,
                message,
            } && status == 401 && message@ == "missing token header"@,
            Err(CheckFirebaseErr::UserFirebaseNotFound) => decision matches AuthDecision::Reject {
                status,
                message,
            } && status == 401 && message@ == "token does not exist on Firebase"@,
            Err(CheckFirebaseErr::InternalDbError) => decision matches AuthDecision::Reject {
                status,
                message,
            } && status == 500 && message@ == "register at local DB is failed"@,
        },
{
    match result {
        Ok(_) => AuthDecision::Proceed,
        Err(CheckFirebaseErr::UserDbNotFound) => AuthDecision::Proceed,
        Err(CheckFirebaseErr::TokenDoeNotExist) => AuthDecision::Reject {
            status: 401,
            message: "missing token header".to_string(),
        },
        Err(CheckFirebaseErr::UserFirebaseNotFound) => AuthDecision::Reject {
            status: 401,
            message: "token does not exist on Firebase".to_string(),
        },
        Err(CheckFirebaseErr::InternalDbError) => AuthDecision::Reject {
            status: 500,
            message: "register at local DB is failed".to_string(),
        },
    }
}

} // verus!
