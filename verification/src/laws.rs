use vstd::prelude::*;
use crate::store::SubscriptionData;
use crate::store::has_email;
use crate::store::keeps_email;
use crate::store::remove_email;
use crate::store::with_email;

verus! {

/// A filter that keeps none of the rows keeps nothing.
proof fn lemma_filter_none(rows: Seq<SubscriptionData>, pred: spec_fn(SubscriptionData) -> bool)
    requires
        forall|i: int| 0 <= i < rows.len() ==> !pred(rows[i]),
    ensures
        rows.filter(pred) == Seq::<SubscriptionData>::empty(),
    decreases rows.len(),
{
    reveal(Seq::filter);
    if rows.len() > 0 {
        lemma_filter_none(rows.drop_last(), pred);
    } else {
        assert(rows.filter(pred) =~= Seq::<SubscriptionData>::empty());
    }
}

/// A filter that keeps every row keeps them all, unchanged and in order.
proof fn lemma_filter_all(rows: Seq<SubscriptionData>, pred: spec_fn(SubscriptionData) -> bool)
    requires
        forall|i: int| 0 <= i < rows.len() ==> pred(rows[i]),
    ensures
        rows.filter(pred) == rows,
    decreases rows.len(),
{
    reveal(Seq::filter);
    if rows.len() > 0 {
        lemma_filter_all(rows.drop_last(), pred);
        assert(rows.drop_last().push(rows.last()) =~= rows);
    }
}

/// Round trip of subscribe and list: into rows that hold no row with the
/// new row's email, subscribing adds exactly one listed row with that
/// email, and it carries the new row's name and identifier; where the new
/// identifier differs from every existing one, no earlier row carries it.
pub proof fn lemma_subscribe_round_trip(rows: Seq<SubscriptionData>, sub: SubscriptionData)
    requires
        forall|i: int| 0 <= i < rows.len() ==> rows[i].email != sub.email,
    ensures
        with_email(rows.push(sub), sub.email) == seq![sub],
        (forall|i: int| 0 <= i < rows.len() ==> rows[i].id != sub.id) ==> (forall|i: int|
            0 <= i < rows.push(sub).len() && rows.push(sub)[i].id == sub.id ==> i == rows.len()),
{
    assert(rows.push(sub) =~= rows + seq![sub]);
    Seq::filter_distributes_over_add(rows, seq![sub], has_email(sub.email));
    lemma_filter_none(rows, has_email(sub.email));
    lemma_filter_all(seq![sub], has_email(sub.email));
    assert(with_email(rows.push(sub), sub.email) =~= seq![sub]);
}

/// Delete then list: after a delete of an email, no listed row carries
/// that email.
pub proof fn lemma_delete_then_list(rows: Seq<SubscriptionData>, email: Seq<char>)
    ensures
        forall|i: int|
            0 <= i < remove_email(rows, email).len() ==> (#[trigger] remove_email(rows, email)[i]).email
                != email,
{
    assert forall|i: int|
        0 <= i < remove_email(rows, email).len() implies (#[trigger] remove_email(rows, email)[i]).email
        != email by {
        rows.lemma_filter_pred(keeps_email(email), i);
    }
}

/// Deleting an email that no row carries is not an error in substance
/// either: it leaves the rows exactly as they were.
pub proof fn lemma_delete_absent(rows: Seq<SubscriptionData>, email: Seq<char>)
    requires
        forall|i: int| 0 <= i < rows.len() ==> rows[i].email != email,
    ensures
        remove_email(rows, email) == rows,
{
    lemma_filter_all(rows, keeps_email(email));
}

/// Duplicate emails: two subscriptions with one email make two listed
/// rows, and one delete of that email removes both and nothing else.
pub proof fn lemma_duplicate_emails(
    rows: Seq<SubscriptionData>,
    a: SubscriptionData,
    b: SubscriptionData,
)
    requires
        a.email == b.email,
        forall|i: int| 0 <= i < rows.len() ==> rows[i].email != a.email,
    ensures
        rows.push(a).push(b).len() == rows.len() + 2,
        with_email(rows.push(a).push(b), a.email) == seq![a, b],
        remove_email(rows.push(a).push(b), a.email) == rows,
{
    let after = rows.push(a).push(b);
    assert(after =~= rows + seq![a, b]);
    Seq::filter_distributes_over_add(rows, seq![a, b], has_email(a.email));
    Seq::filter_distributes_over_add(rows, seq![a, b], keeps_email(a.email));
    lemma_filter_none(rows, has_email(a.email));
    lemma_filter_all(seq![a, b], has_email(a.email));
    lemma_filter_all(rows, keeps_email(a.email));
    lemma_filter_none(seq![a, b], keeps_email(a.email));
    assert(with_email(after, a.email) =~= seq![a, b]);
    assert(remove_email(after, a.email) =~= rows);
}

/// A subscribe never moves or removes a row: every row listed before it is
/// listed after it, in its place, with the new row at the end — so any
/// number of subscribes with distinct emails all stay listed.
pub proof fn lemma_insert_keeps_rows(rows: Seq<SubscriptionData>, sub: SubscriptionData)
    ensures
        forall|i: int| 0 <= i < rows.len() ==> rows.push(sub)[i] == rows[i],
        rows.push(sub)[rows.len() as int] == sub,
{
}

} // verus!
