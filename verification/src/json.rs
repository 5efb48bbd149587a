//! The JSON text of the response body.
//!
//! The body is compact JSON: no whitespace between tokens, members in the
//! declared column order, every member present, a null column as `null`.
//! String contents are escaped by `serde_json`; everything around them is
//! framed here.

use crate::user::{text_of, views, User, UserView};
use vstd::prelude::*;
use vstd::string::StringExecFns;

verus! {

/// What `serde_json` writes between the two quotation marks of the JSON string
/// for `s`: the characters of `s` with the escapes that JSON requires.
pub uninterp spec fn json_escaped(s: Seq<char>) -> Seq<char>;

/// The JSON string for `s`: its escaped characters between quotation marks.
pub open spec fn string_json(s: Seq<char>) -> Seq<char> {
    "\""@ + json_escaped(s) + "\""@
}

/// The JSON value of a nullable column: a string, or `null`.
pub open spec fn optional_json(column: Option<Seq<char>>) -> Seq<char> {
    match column {
        Some(s) => string_json(s),
        None => "null"@,
    }
}

/// The JSON object of one record: all six members, in the declared order.
pub open spec fn user_json(u: UserView) -> Seq<char> {
    "{\"username\":"@ + string_json(u.username)
        + ",\"name\":"@ + optional_json(u.name)
        + ",\"email\":"@ + optional_json(u.email)
        + ",\"gender\":"@ + optional_json(u.gender)
        + ",\"dob\":"@ + optional_json(u.dob)
        + ",\"password\":"@ + optional_json(u.password)
        + "}"@
}

/// The JSON objects of a list of records, one per record, in the same order.
pub open spec fn user_objects(users: Seq<UserView>) -> Seq<Seq<char>> {
    users.map_values(|u: UserView| user_json(u))
}

/// The items separated by single commas.
pub open spec fn comma_separated(items: Seq<Seq<char>>) -> Seq<char>
    decreases items.len(),
{
    if items.len() == 0 {
        Seq::empty()
    } else if items.len() == 1 {
        items[0]
    } else {
        comma_separated(items.drop_last()) + ","@ + items.last()
    }
}

/// The JSON array whose elements are the given JSON texts.
pub open spec fn array_json(items: Seq<Seq<char>>) -> Seq<char> {
    "["@ + comma_separated(items) + "]"@
}

/// The JSON array of a list of records.
pub open spec fn users_json(users: Seq<UserView>) -> Seq<char> {
    array_json(user_objects(users))
}

/// Calls `serde_json::to_string` on a string slice. Trusted: the result is a
/// quotation mark, the escaped characters of `s`, and a quotation mark.
/// Writing a string into memory has no failing path in `serde_json`, so the
/// error arm is never taken.
#[verifier::external_body]
fn quote(s: &str) -> (r: String)
    ensures
        r@ == "\""@ + json_escaped(s@) + "\""@,
{
    match serde_json::to_string(s) {
        Ok(text) => text,
        Err(_) => String::new(),
    }
}

/// Extending a comma-separated list by one item appends a comma and the item,
/// or the item alone when the list was empty.
pub proof fn lemma_comma_separated_take(items: Seq<Seq<char>>, n: int)
    requires
        0 <= n < items.len(),
    ensures
        comma_separated(items.take(n + 1)) == if n == 0 {
            items[n]
        } else {
            comma_separated(items.take(n)) + ","@ + items[n]
        },
{
    let longer = items.take(n + 1);
    assert(longer.last() == items[n]);
    assert(longer.drop_last() =~= items.take(n));
    assert(longer[0] == items[0]);
}

/// A list of N records has exactly N objects in its array, the i-th being the
/// object of the i-th record with all six members.
pub proof fn lemma_one_object_per_record(users: Seq<UserView>)
    ensures
        user_objects(users).len() == users.len(),
        forall|i: int| 0 <= i < users.len() ==> #[trigger] user_objects(users)[i] == user_json(users[i]),
{
}

/// The body for an empty table is the empty array.
pub proof fn lemma_empty_table_is_empty_array()
    ensures
        users_json(Seq::empty()) == "[]"@,
{
    reveal_strlit("[");
    reveal_strlit("]");
    reveal_strlit("[]");
    assert(user_objects(Seq::<UserView>::empty()) =~= Seq::empty());
    assert(users_json(Seq::empty()) =~= "[]"@);
}

/// Whatever the records hold, the body opens and closes as an array and each
/// object opens and closes as an object.
pub proof fn lemma_array_of_objects(users: Seq<UserView>)
    ensures
        users_json(users).len() >= 2,
        users_json(users).first() == '[',
        users_json(users).last() == ']',
        forall|i: int|
            0 <= i < users.len() ==> (#[trigger] user_objects(users)[i]).first() == '{'
                && user_objects(users)[i].last() == '}',
{
    reveal_strlit("[");
    reveal_strlit("]");
    reveal_strlit("{\"username\":");
    reveal_strlit("}");
}

/// A null column and a present column never have the same JSON value: `null`
/// is not a string, not even the empty one.
pub proof fn lemma_null_is_not_a_string(s: Seq<char>)
    ensures
        optional_json(None) != optional_json(Some(s)),
        optional_json(None) == "null"@,
{
    reveal_strlit("null");
    reveal_strlit("\"");
    assert(optional_json(Some(s))[0] == '"');
    assert(optional_json(None)[0] == 'n');
}

/// The JSON value of a nullable column.
pub fn render_optional(column: &Option<String>) -> (r: String)
    ensures
        r@ == optional_json(text_of(*column)),
        (r@ == "null"@) <==> (*column is None),
{
    match column {
        Some(s) => {
            proof {
                lemma_null_is_not_a_string(s@);
            }
            quote(s.as_str())
        },
        None => String::from_str("null"),
    }
}

/// The JSON object of one record.
pub fn render_user(user: &User) -> (r: String)
    ensures
        r@ == user_json(user@),
{
    let mut out = String::from_str("{\"username\":");
    out.append(quote(user.username.as_str()).as_str());
    out.append(",\"name\":");
    out.append(render_optional(&user.name).as_str());
    out.append(",\"email\":");
    out.append(render_optional(&user.email).as_str());
    out.append(",\"gender\":");
    out.append(render_optional(&user.gender).as_str());
    out.append(",\"dob\":");
    out.append(render_optional(&user.dob).as_str());
    out.append(",\"password\":");
    out.append(render_optional(&user.password).as_str());
    out.append("}");
    out
}

/// The JSON array of a list of records, in the order given.
pub fn render_users(users: &Vec<User>) -> (r: String)
    ensures
        r@ == users_json(views(users@)),
{
    let ghost objects = user_objects(views(users@));
    let mut out = String::from_str("[");
    let mut i: usize = 0;
    while i < users.len()
        invariant
            i <= users.len(),
            objects == user_objects(views(users@)),
            out@ == "["@ + comma_separated(objects.take(i as int)),
        decreases users.len() - i,
    {
        if i > 0 {
            out.append(",");
        }
        let object = render_user(&users[i]);
        out.append(object.as_str());
        proof {
            lemma_comma_separated_take(objects, i as int);
            assert(objects[i as int] == user_json(users@[i as int]@));
            assert(out@ =~= "["@ + comma_separated(objects.take(i as int + 1)));
        }
        i += 1;
    }
    proof {
        assert(objects.take(i as int) =~= objects);
    }
    out.append("]");
    out
}

} // verus!
