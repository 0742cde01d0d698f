use vstd::prelude::*;
use vstd::string::StringExecFns;
use crate::json::json_array;
use crate::json::render_subscriptions;
use crate::store::SubscriptionTable;
use crate::store::fresh_subscription;
use crate::store::remove_email;

verus! {

/// A status code paired with a body: the whole of what a handler decides.
/// `json` says whether the body is served as application/json.
pub struct Response {
    pub status: u16,
    pub body: String,
    pub json: bool,
}

/// The greeting: status 200 with `Hello {name}!`, where the name falls
/// back to `World` when the path supplies none. Never fails and touches
/// no storage.
pub fn greet(name: Option<&str>) -> (r: Response)
    ensures
        r.status == 200,
        !r.json,
        r.body@ == "Hello "@ + (match name {
            Some(n) => n@,
            None => "World"@,
        }) + "!"@,
{
    let mut body = String::from_str("Hello ");
    match name {
        Some(n) => body.append(n),
        None => body.append("World"),
    }
    body.append("!");
    Response { status: 200, body, json: false }
}

/// With no name supplied the greeting body is exactly `Hello World!`.
pub proof fn lemma_default_greeting()
    ensures
        "Hello "@ + "World"@ + "!"@ == "Hello World!"@,
{
    reveal_strlit("Hello ");
    reveal_strlit("World");
    reveal_strlit("!");
    reveal_strlit("Hello World!");
    assert("Hello "@ + "World"@ + "!"@ =~= "Hello World!"@);
}

/// The liveness probe: status 200 with an empty body, unconditionally —
/// it takes no state, so every call returns the same response.
pub fn health_check() -> (r: Response)
    ensures
        r.status == 200,
        r.body@ == Seq::<char>::empty(),
        !r.json,
{
    Response { status: 200, body: String::new(), json: false }
}

/// The response of a storage write (an insert or a delete): status 200
/// when the statement executed, 500 when storage failed, the body empty
/// either way.
pub fn write_outcome(ok: bool) -> (r: Response)
    ensures
        r.status == (if ok {
            200u16
        } else {
            500u16
        }),
        r.body@ == Seq::<char>::empty(),
        !r.json,
{
    Response { status: if ok { 200 } else { 500 }, body: String::new(), json: false }
}

/// Subscribing appends exactly one row, with the given email and name, a
/// freshly drawn identifier and the current time; every earlier row keeps
/// its place, and the response is 200 with an empty body.
pub fn handle_subscribe(table: &mut SubscriptionTable, email: String, name: String) -> (r:
    Response)
    ensures
        r.status == 200,
        r.body@ == Seq::<char>::empty(),
        !r.json,
        final(table)@.len() == old(table)@.len() + 1,
        final(table)@.drop_last() == old(table)@,
        final(table)@.last().email == email@,
        final(table)@.last().name == name@,
{
    let s = fresh_subscription(email, name);
    table.insert(s);
    proof {
        assert(table@.drop_last() =~= old(table)@);
    }
    write_outcome(true)
}

/// Listing serializes every row, in storage order, as a JSON array, with
/// status 200; the table is read, never changed.
pub fn handle_list(table: &SubscriptionTable) -> (r: Response)
    ensures
        r.status == 200,
        r.json,
        r.body@ == json_array(table@),
{
    let body = render_subscriptions(table.rows());
    Response { status: 200, body, json: true }
}

/// Deleting removes every row whose email matches exactly — none is not
/// an error — and answers 200 with an empty body.
pub fn handle_delete(table: &mut SubscriptionTable, email: &str) -> (r: Response)
    ensures
        r.status == 200,
        r.body@ == Seq::<char>::empty(),
        !r.json,
        final(table)@ == remove_email(old(table)@, email@),
{
    table.delete_by_email(email);
    write_outcome(true)
}

} // verus!
