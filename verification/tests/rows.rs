use user_directory::response::{list_users, FailureKind};
use user_directory::rows::{user_from_columns, users_from_rows};
use user_directory::user::User;

fn text(value: &str) -> Option<String> {
    Some(value.to_string())
}

fn alice_row() -> Vec<Option<String>> {
    vec![text("alice"), text("Alice A"), None, text("f"), text("1990-01-01"), text("hash1")]
}

fn bob_row() -> Vec<Option<String>> {
    vec![text("bob"), None, text("bob@x.com"), None, None, text("hash2")]
}

#[test]
fn row_becomes_record_column_by_column() {
    assert_eq!(
        user_from_columns(&alice_row()),
        Some(User {
            username: "alice".to_string(),
            name: text("Alice A"),
            email: None,
            gender: text("f"),
            dob: text("1990-01-01"),
            password: text("hash1"),
        })
    );
    assert_eq!(
        user_from_columns(&bob_row()),
        Some(User {
            username: "bob".to_string(),
            name: None,
            email: text("bob@x.com"),
            gender: None,
            dob: None,
            password: text("hash2"),
        })
    );
}

#[test]
fn row_without_username_is_refused() {
    assert_eq!(user_from_columns(&vec![None, text("n"), None, None, None, None]), None);
}

#[test]
fn row_of_wrong_width_is_refused() {
    assert_eq!(user_from_columns(&Vec::new()), None);
    assert_eq!(user_from_columns(&vec![text("u")]), None);
    assert_eq!(
        user_from_columns(&vec![text("u"), None, None, None, None]),
        None
    );
    assert_eq!(
        user_from_columns(&vec![text("u"), None, None, None, None, None, None]),
        None
    );
}

#[test]
fn empty_username_is_still_a_username() {
    let user = user_from_columns(&vec![text(""), None, None, None, None, None]).unwrap();
    assert_eq!(user.username, "");
    assert_eq!(user.name, None);
}

#[test]
fn rows_become_records_in_order() {
    let users = users_from_rows(&vec![alice_row(), bob_row()]).unwrap();
    assert_eq!(users.len(), 2);
    assert_eq!(users[0].username, "alice");
    assert_eq!(users[0].email, None);
    assert_eq!(users[1].username, "bob");
    assert_eq!(users[1].email, text("bob@x.com"));
    assert_eq!(users_from_rows(&Vec::new()), Ok(Vec::new()));
}

#[test]
fn one_bad_row_fails_the_whole_listing() {
    let bad = vec![None, None, None, None, None, None];
    for rows in [
        vec![bad.clone()],
        vec![bad.clone(), alice_row()],
        vec![alice_row(), bad.clone(), bob_row()],
        vec![alice_row(), bob_row(), vec![text("short")]],
    ] {
        let failure = users_from_rows(&rows).unwrap_err();
        assert_eq!(failure.kind, FailureKind::MalformedResult);
        assert_eq!(failure.detail, "row does not have the declared columns");
        let reply = list_users(Err(failure));
        assert_eq!(reply.response.status, 500);
        assert_eq!(reply.response.body, "Something went wrong");
        assert_eq!(
            reply.diagnostic,
            Some("Database error: row does not have the declared columns".to_string())
        );
    }
}

#[test]
fn rows_to_response_end_to_end() {
    let reply = list_users(users_from_rows(&vec![alice_row(), bob_row()]));
    assert_eq!(reply.response.status, 200);
    assert_eq!(
        reply.response.body,
        "[{\"username\":\"alice\",\"name\":\"Alice A\",\"email\":null,\"gender\":\"f\",\"dob\":\"1990-01-01\",\"password\":\"hash1\"},{\"username\":\"bob\",\"name\":null,\"email\":\"bob@x.com\",\"gender\":null,\"dob\":null,\"password\":\"hash2\"}]"
    );
}
