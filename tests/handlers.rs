use auth_backend::handlers::{
    delete_registered_user, delete_response, fetch_whole_db, hello_greet, plan_update,
    register_user, update_response, update_user, DeleteResponse, UpdateResponse, UpdateStep,
};
use auth_backend::store::UserStore;
use auth_backend::user::{new_user, UpdatePassword, UserProfile};

fn profile(email: &str, password: &str) -> UserProfile {
    UserProfile { userid: 0, email: email.to_string(), password: password.to_string() }
}

fn triples(users: &[UserProfile]) -> Vec<(i32, String, String)> {
    let mut v: Vec<(i32, String, String)> =
        users.iter().map(|u| (u.userid, u.email.clone(), u.password.clone())).collect();
    v.sort();
    v
}

#[test]
fn greeting_is_fixed() {
    assert_eq!(hello_greet(), "Hello Bro");
}

#[test]
fn registered_user_is_listed_with_its_id() {
    let mut db = UserStore::new();
    let u = register_user(&mut db, profile("a@x.com", "p1")).unwrap();
    assert_eq!(u.email, "a@x.com");
    assert_eq!(u.password, "p1");
    let all = fetch_whole_db(&db);
    assert_eq!(all.len(), 1);
    assert_eq!(all[0].userid, u.userid);
    assert_eq!(all[0].email, "a@x.com");
    assert_eq!(all[0].password, "p1");
}

#[test]
fn registration_ignores_payload_id() {
    let mut db = UserStore::new();
    let mut p = profile("a@x.com", "p1");
    p.userid = 42;
    let u = register_user(&mut db, p).unwrap();
    assert_eq!(u.userid, 1);
    let v = register_user(&mut db, profile("b@x.com", "p2")).unwrap();
    assert_eq!(v.userid, 2);
}

#[test]
fn new_user_takes_email_and_password() {
    let n = new_user(UserProfile { userid: 7, email: "e".to_string(), password: "pw".to_string() });
    assert_eq!(n.email, "e");
    assert_eq!(n.password, "pw");
}

#[test]
fn update_then_list_shows_new_password() {
    let mut db = UserStore::new();
    let u = register_user(&mut db, profile("a@x.com", "p1")).unwrap();
    let r = update_user(&mut db, u.userid, UpdatePassword { password: Some("p2".to_string()) });
    match &r {
        UpdateResponse::Updated(v) => {
            assert_eq!(v.userid, u.userid);
            assert_eq!(v.email, "a@x.com");
            assert_eq!(v.password, "p2");
        }
        _ => panic!("expected an updated user"),
    }
    assert!(!r.is_error());
    assert_eq!(r.message(), "User password updated");
    let all = fetch_whole_db(&db);
    assert_eq!(triples(&all), vec![(u.userid, "a@x.com".to_string(), "p2".to_string())]);
}

#[test]
fn update_of_missing_id_is_not_found() {
    let mut db = UserStore::new();
    register_user(&mut db, profile("a@x.com", "p1")).unwrap();
    let r = update_user(&mut db, 999999, UpdatePassword { password: Some("p2".to_string()) });
    assert!(matches!(r, UpdateResponse::UserNotFound));
    assert!(r.is_error());
    assert_eq!(r.message(), "User not found");
    assert_eq!(fetch_whole_db(&db)[0].password, "p1");
}

#[test]
fn update_without_password_is_refused() {
    let mut db = UserStore::new();
    let u = register_user(&mut db, profile("a@x.com", "p1")).unwrap();
    let r = update_user(&mut db, u.userid, UpdatePassword { password: None });
    assert!(matches!(r, UpdateResponse::PasswordNotProvided));
    assert!(r.is_error());
    assert_eq!(r.message(), "Password not provided");
    assert_eq!(fetch_whole_db(&db)[0].password, "p1");
}

#[test]
fn update_to_empty_password_is_applied() {
    let mut db = UserStore::new();
    let u = register_user(&mut db, profile("a@x.com", "p1")).unwrap();
    let r = update_user(&mut db, u.userid, UpdatePassword { password: Some(String::new()) });
    assert!(matches!(r, UpdateResponse::Updated(_)));
    assert_eq!(fetch_whole_db(&db)[0].password, "");
}

#[test]
fn delete_twice() {
    let mut db = UserStore::new();
    let u = register_user(&mut db, profile("a@x.com", "p1")).unwrap();
    let first = delete_registered_user(&mut db, u.userid);
    assert_eq!(first, DeleteResponse::Deleted);
    assert!(!first.is_error());
    assert_eq!(first.message(), "User got deleted");
    let second = delete_registered_user(&mut db, u.userid);
    assert_eq!(second, DeleteResponse::UserNotFound);
    assert!(second.is_error());
    assert_eq!(second.message(), "User not found");
    assert!(fetch_whole_db(&db).is_empty());
}

#[test]
fn listing_after_registrations_and_one_delete() {
    let mut db = UserStore::new();
    let mut expected: Vec<(i32, String, String)> = Vec::new();
    let mut ids: Vec<i32> = Vec::new();
    for i in 0..5 {
        let email = format!("u{}@x.com", i);
        let pw = format!("pw{}", i);
        let u = register_user(&mut db, profile(&email, &pw)).unwrap();
        ids.push(u.userid);
        expected.push((u.userid, email, pw));
    }
    let r = update_user(&mut db, ids[3], UpdatePassword { password: Some("changed".to_string()) });
    assert!(matches!(r, UpdateResponse::Updated(_)));
    expected[3].2 = "changed".to_string();
    assert_eq!(delete_registered_user(&mut db, ids[1]), DeleteResponse::Deleted);
    expected.remove(1);
    expected.sort();
    let all = fetch_whole_db(&db);
    assert_eq!(all.len(), 4);
    assert_eq!(triples(&all), expected);
}

#[test]
fn ids_stay_unique_after_delete() {
    let mut db = UserStore::new();
    let a = register_user(&mut db, profile("a", "1")).unwrap();
    let b = register_user(&mut db, profile("b", "2")).unwrap();
    delete_registered_user(&mut db, b.userid);
    let c = register_user(&mut db, profile("c", "3")).unwrap();
    assert_ne!(c.userid, a.userid);
    assert_ne!(c.userid, b.userid);
}

#[test]
fn plan_without_password_responds_at_once() {
    match plan_update(5, UpdatePassword { password: None }) {
        UpdateStep::Respond(UpdateResponse::PasswordNotProvided) => {}
        _ => panic!("expected an immediate refusal"),
    }
}

#[test]
fn plan_with_password_runs_the_change() {
    match plan_update(5, UpdatePassword { password: Some("p".to_string()) }) {
        UpdateStep::Run(c) => {
            assert_eq!(c.userid, 5);
            assert_eq!(c.password, "p");
        }
        _ => panic!("expected a statement to run"),
    }
}

#[test]
fn update_response_from_row() {
    assert!(matches!(update_response(None), UpdateResponse::UserNotFound));
    match update_response(Some(UserProfile { userid: 3, email: "e".to_string(), password: "p".to_string() })) {
        UpdateResponse::Updated(u) => assert_eq!(u.userid, 3),
        _ => panic!("expected an updated user"),
    }
}

#[test]
fn delete_response_from_count() {
    assert_eq!(delete_response(0), DeleteResponse::UserNotFound);
    assert_eq!(delete_response(1), DeleteResponse::Deleted);
    assert_eq!(delete_response(u64::MAX), DeleteResponse::Deleted);
}

#[test]
fn empty_store_lists_nothing() {
    let db = UserStore::new();
    assert!(fetch_whole_db(&db).is_empty());
}
