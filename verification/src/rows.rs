//! From the rows that storage returned to user records.
//!
//! A row arrives as its column values in the order of the query's select
//! list, a null column as `None`. A list of rows becomes a list of records as
//! a whole or not at all: one row of the wrong shape fails the listing.

use crate::json::{user_json, user_objects};
use crate::response::{Failure, FailureKind};
use crate::user::{text_of, views, User, UserView};
use vstd::prelude::*;
use vstd::string::StringExecFns;

verus! {

/// Whether a row has the declared shape: six columns, the first of them, the
/// username, not null.
pub open spec fn is_user_row(columns: Seq<Option<String>>) -> bool {
    columns.len() == 6 && columns[0] is Some
}

/// The record that a row of the declared shape holds.
pub open spec fn row_user(columns: Seq<Option<String>>) -> UserView
    recommends
        is_user_row(columns),
{
    UserView {
        username: columns[0].unwrap()@,
        name: text_of(columns[1]),
        email: text_of(columns[2]),
        gender: text_of(columns[3]),
        dob: text_of(columns[4]),
        password: text_of(columns[5]),
    }
}

/// The records that a list of rows holds, in the same order.
pub open spec fn rows_users(rows: Seq<Vec<Option<String>>>) -> Seq<UserView> {
    Seq::new(rows.len(), |i: int| row_user(rows[i]@))
}

/// Whether every row of the list has the declared shape.
pub open spec fn all_user_rows(rows: Seq<Vec<Option<String>>>) -> bool {
    forall|i: int| 0 <= i < rows.len() ==> is_user_row(#[trigger] rows[i]@)
}

/// The detail reported for a row of the wrong shape.
pub open spec fn malformed_row_text() -> Seq<char> {
    "row does not have the declared columns"@
}

/// A result of N rows holds N records, and so N objects in the array: none is
/// dropped, none is added.
pub proof fn lemma_one_record_per_row(rows: Seq<Vec<Option<String>>>)
    ensures
        rows_users(rows).len() == rows.len(),
        user_objects(rows_users(rows)).len() == rows.len(),
        forall|i: int|
            0 <= i < rows.len() ==> #[trigger] user_objects(rows_users(rows))[i] == user_json(
                row_user(rows[i]@),
            ),
{
}

fn copy_column(column: &Option<String>) -> (copy: Option<String>)
    ensures
        text_of(copy) == text_of(*column),
        copy is Some <==> *column is Some,
{
    match column {
        Some(text) => Some(text.clone()),
        None => None,
    }
}

/// The record of one row, if the row has the declared shape.
pub fn user_from_columns(columns: &Vec<Option<String>>) -> (user: Option<User>)
    ensures
        user is Some <==> is_user_row(columns@),
        user matches Some(u) ==> u@ == row_user(columns@),
{
    if columns.len() != 6 {
        return None;
    }
    match &columns[0] {
        Some(username) => Some(
            User {
                username: username.clone(),
                name: copy_column(&columns[1]),
                email: copy_column(&columns[2]),
                gender: copy_column(&columns[3]),
                dob: copy_column(&columns[4]),
                password: copy_column(&columns[5]),
            },
        ),
        None => None,
    }
}

/// The records of a whole query result, in the order of the rows.
///
/// Every row of the declared shape gives all the records. A single row of
/// another shape gives a malformed-result failure and no record at all.
pub fn users_from_rows(rows: &Vec<Vec<Option<String>>>) -> (outcome: Result<Vec<User>, Failure>)
    ensures
        outcome is Ok <==> all_user_rows(rows@),
        outcome matches Ok(users) ==> views(users@) == rows_users(rows@),
        outcome matches Err(failure) ==> failure.kind == FailureKind::MalformedResult
            && failure.detail@ == malformed_row_text(),
{
    let mut users: Vec<User> = Vec::new();
    let mut i: usize = 0;
    while i < rows.len()
        invariant
            i <= rows.len(),
            users.len() == i,
            forall|k: int| 0 <= k < i ==> is_user_row(#[trigger] rows@[k]@),
            forall|k: int| 0 <= k < i ==> (#[trigger] users@[k])@ == row_user(rows@[k]@),
        decreases rows.len() - i,
    {
        match user_from_columns(&rows[i]) {
            Some(user) => users.push(user),
            None => {
                return Err(
                    Failure {
                        kind: FailureKind::MalformedResult,
                        detail: String::from_str("row does not have the declared columns"),
                    },
                );
            },
        }
        i += 1;
    }
    proof {
        assert(views(users@) =~= rows_users(rows@));
    }
    Ok(users)
}

} // verus!
