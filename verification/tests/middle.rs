use mdsns_backend::cruds::{Answer, FirebaseUser, Lookup, Progress, Query};
use mdsns_backend::middle::{auth_decision, check_firebase, AuthDecision, CheckFirebaseErr};
use mdsns_backend::models::User;

fn user(id: &str) -> User {
    User {
        id: id.to_string(),
        name: id.to_string(),
        email: format!("{}@example.com", id),
        description: Some("hi".to_string()),
        created_at: 0,
        updated_at: 0,
    }
}

fn account(id: &str) -> FirebaseUser {
    FirebaseUser { local_id: id.to_string(), email: format!("{}@mail.example", id) }
}

fn next<F, T>(p: Progress<F, T>) -> (F, Query) {
    match p {
        Progress::Next(f, q) => (f, q),
        Progress::Finished(_) => panic!("the flow finished early"),
    }
}

fn finished<F, T>(p: Progress<F, T>) -> T {
    match p {
        Progress::Finished(t) => t,
        Progress::Next(_, q) => panic!("the flow still asks {:?}", q),
    }
}

#[test]
fn check_firebase_without_header_is_refused() {
    assert_eq!(finished(check_firebase(None)), Err(CheckFirebaseErr::TokenDoeNotExist));
}

#[test]
fn check_firebase_refuses_unknown_account() {
    let (flow, q) = next(check_firebase(Some("token-1".to_string())));
    assert_eq!(q, Query::FirebaseLookup { token: "token-1".to_string() });
    assert_eq!(
        finished(flow.step(Answer::FirebaseUser(None))),
        Err(CheckFirebaseErr::UserFirebaseNotFound)
    );
}

#[test]
fn check_firebase_accepts_registered_account() {
    let (flow, _) = next(check_firebase(Some("token-1".to_string())));
    let (flow, q) = next(flow.step(Answer::FirebaseUser(Some(account("uid-1")))));
    assert_eq!(q, Query::ListUsers);
    let outcome = finished(flow.step(Answer::Users(vec![user("uid-0"), user("uid-1")])));
    assert_eq!(outcome, Ok(true));
}

#[test]
fn check_firebase_registers_new_account_under_its_id() {
    let (flow, _) = next(check_firebase(Some("token-2".to_string())));
    let (flow, _) = next(flow.step(Answer::FirebaseUser(Some(account("uid-2")))));
    let (flow, q) = next(flow.step(Answer::Users(vec![user("uid-1")])));
    assert_eq!(q, Query::FirebaseLookup { token: "token-2".to_string() });
    let (flow, q) = next(flow.step(Answer::FirebaseUser(Some(account("uid-2")))));
    assert_eq!(
        q,
        Query::InsertUser {
            id: "uid-2".to_string(),
            name: "uid-2".to_string(),
            email: "uid-2@mail.example".to_string(),
        }
    );
    assert_eq!(flow.query(), q);
    assert_eq!(finished(flow.step(Answer::User(user("uid-1")))), Ok(true));
}

#[test]
fn check_firebase_refuses_account_gone_on_reread() {
    let (flow, _) = next(check_firebase(Some("t".to_string())));
    let (flow, _) = next(flow.step(Answer::FirebaseUser(Some(account("u")))));
    let (flow, _) = next(flow.step(Answer::Users(Vec::new())));
    assert_eq!(
        finished(flow.step(Answer::FirebaseUser(None))),
        Err(CheckFirebaseErr::UserFirebaseNotFound)
    );
}

#[test]
fn check_firebase_asks_again_on_unexpected_answer() {
    let (flow, q) = next(check_firebase(Some("t".to_string())));
    let (_, again) = next(flow.step(Answer::Lookup(Lookup::Found)));
    assert_eq!(again, q);
}

#[test]
fn auth_decision_passes_accepted_requests() {
    assert_eq!(auth_decision(&Ok(true)), AuthDecision::Proceed);
    assert_eq!(auth_decision(&Err(CheckFirebaseErr::UserDbNotFound)), AuthDecision::Proceed);
}

#[test]
fn auth_decision_rejects_refused_requests() {
    assert_eq!(
        auth_decision(&Err(CheckFirebaseErr::TokenDoeNotExist)),
        AuthDecision::Reject { status: 401, message: "missing token header".to_string() }
    );
    assert_eq!(
        auth_decision(&Err(CheckFirebaseErr::UserFirebaseNotFound)),
        AuthDecision::Reject { status: 401, message: "token does not exist on Firebase".to_string() }
    );
    assert_eq!(
        auth_decision(&Err(CheckFirebaseErr::InternalDbError)),
        AuthDecision::Reject { status: 500, message: "register at local DB is failed".to_string() }
    );
}
