//! The user record and its mathematical value.

use vstd::prelude::*;

verus! {

/// One row of the users table. Only `username` is always present; every other
/// column may be null in storage, which is `None` here.
#[derive(Clone, Debug, PartialEq, Eq)]
pub struct User {
    pub username: String,
    pub name: Option<String>,
    pub email: Option<String>,
    pub gender: Option<String>,
    pub dob: Option<String>,
    pub password: Option<String>,
}

/// The value of a [`User`]: each column as a sequence of characters, a null
/// column as `None`.
pub struct UserView {
    pub username: Seq<char>,
    pub name: Option<Seq<char>>,
    pub email: Option<Seq<char>>,
    pub gender: Option<Seq<char>>,
    pub dob: Option<Seq<char>>,
    pub password: Option<Seq<char>>,
}

/// The value of a nullable column.
pub open spec fn text_of(column: Option<String>) -> Option<Seq<char>> {
    match column {
        Some(s) => Some(s@),
        None => None,
    }
}

impl View for User {
    type V = UserView;

    open spec fn view(&self) -> UserView {
        UserView {
            username: self.username@,
            name: text_of(self.name),
            email: text_of(self.email),
            gender: text_of(self.gender),
            dob: text_of(self.dob),
            password: text_of(self.password),
        }
    }
}

/// The one query that the service sends to storage: every record, with the
/// six columns in the declared order and no ordering clause.
pub open spec fn users_query_text() -> Seq<char> {
    "SELECT username, name, email, gender, dob, password from users;"@
}

/// The one query that the service sends to storage.
pub fn users_query() -> (sql: &'static str)
    ensures
        sql@ == users_query_text(),
{
    "SELECT username, name, email, gender, dob, password from users;"
}

/// The values of a list of records, in the same order.
pub open spec fn views(users: Seq<User>) -> Seq<UserView> {
    users.map_values(|u: User| u@)
}

} // verus!
