use vstd::prelude::*;
use crate::ids::fresh_id;
use crate::text::str_eq;
use crate::time::now_micros;

verus! {

/// One persisted signup. The identifier is held as its 128-bit value and
/// the insertion time as microseconds since the Unix epoch.
pub struct Subscription {
    pub id: u128,
    pub email: String,
    pub name: String,
    pub subscribed_at: i64,
}

/// The mathematical image of one row.
pub ghost struct SubscriptionData {
    pub id: u128,
    pub email: Seq<char>,
    pub name: Seq<char>,
    pub subscribed_at: i64,
}

impl View for Subscription {
    type V = SubscriptionData;

    open spec fn view(&self) -> SubscriptionData {
        SubscriptionData {
            id: self.id,
            email: self.email@,
            name: self.name@,
            subscribed_at: self.subscribed_at,
        }
    }
}

impl Subscription {
    /// An identical copy of the row.
    pub fn duplicate(&self) -> (s: Subscription)
        ensures
            s@ == self@,
    {
        Subscription {
            id: self.id,
            email: self.email.clone(),
            name: self.name.clone(),
            subscribed_at: self.subscribed_at,
        }
    }
}

/// The rows of a table as mathematical values, in storage order.
pub open spec fn rows_view(rows: Seq<Subscription>) -> Seq<SubscriptionData> {
    rows.map_values(|s: Subscription| s@)
}

/// Holds of a row a delete of the given email leaves in place.
pub open spec fn keeps_email(email: Seq<char>) -> spec_fn(SubscriptionData) -> bool {
    |r: SubscriptionData| r.email != email
}

/// Holds of a row whose email matches the given one exactly.
pub open spec fn has_email(email: Seq<char>) -> spec_fn(SubscriptionData) -> bool {
    |r: SubscriptionData| r.email == email
}

/// The rows left once every row whose email matches exactly is deleted.
pub open spec fn remove_email(rows: Seq<SubscriptionData>, email: Seq<char>) -> Seq<
    SubscriptionData,
> {
    rows.filter(keeps_email(email))
}

/// The rows whose email matches exactly, in storage order.
pub open spec fn with_email(rows: Seq<SubscriptionData>, email: Seq<char>) -> Seq<
    SubscriptionData,
> {
    rows.filter(has_email(email))
}

/// A fresh row for the given email and name: a newly drawn identifier and
/// the current clock reading.
pub fn fresh_subscription(email: String, name: String) -> (s: Subscription)
    ensures
        s@.email == email@,
        s@.name == name@,
{
    let id = fresh_id();
    let subscribed_at = now_micros();
    Subscription { id, email, name, subscribed_at }
}

/// The subscriptions table: rows in insertion order, with no uniqueness
/// constraint on any column.
pub struct SubscriptionTable {
    rows: Vec<Subscription>,
}

impl View for SubscriptionTable {
    type V = Seq<SubscriptionData>;

    closed spec fn view(&self) -> Seq<SubscriptionData> {
        rows_view(self.rows@)
    }
}

impl SubscriptionTable {
    /// An empty table.
    pub fn new() -> (t: Self)
        ensures
            t@ == Seq::<SubscriptionData>::empty(),
    {
        let t = SubscriptionTable { rows: Vec::new() };
        proof {
            assert(t@ =~= Seq::<SubscriptionData>::empty());
        }
        t
    }

    /// How many rows the table holds.
    pub fn len(&self) -> (n: usize)
        ensures
            n == self@.len(),
    {
        self.rows.len()
    }

    /// Appends one row; every earlier row keeps its place.
    pub fn insert(&mut self, s: Subscription)
        ensures
            final(self)@ == old(self)@.push(s@),
    {
        let ghost before = self.rows@;
        self.rows.push(s);
        proof {
            assert(rows_view(self.rows@) =~= rows_view(before).push(self.rows@.last()@));
        }
    }

    /// Deletes every row whose email matches exactly; the rest keep their
    /// order and multiplicity.
    #[verifier::loop_isolation(false)]
    pub fn delete_by_email(&mut self, email: &str)
        ensures
            final(self)@ == remove_email(old(self)@, email@),
    {
        broadcast use vstd::seq_lib::group_seq_properties;

        let ghost pred = keeps_email(email@);
        let mut kept: Vec<Subscription> = Vec::new();
        let n = self.rows.len();
        let mut i: usize = 0;
        while i < n
            invariant
                i <= n,
                n == self.rows@.len(),
                self.rows@ == old(self).rows@,
                rows_view(kept@) == rows_view(self.rows@.take(i as int)).filter(pred),
            decreases n - i,
        {
            let ghost taken = rows_view(self.rows@.take(i as int));
            let ghost kept_before = kept@;
            let row = &self.rows[i];
            let ghost elem = self.rows@[i as int]@;
            if !str_eq(row.email.as_str(), email) {
                kept.push(row.duplicate());
                proof {
                    assert(rows_view(kept@) =~= rows_view(kept_before).push(elem));
                }
            }
            proof {
                assert(rows_view(self.rows@.take(i + 1)) =~= taken.push(elem));
                taken.lemma_filter_push(elem, pred);
            }
            i += 1;
        }
        self.rows = kept;
        proof {
            assert(old(self).rows@.take(n as int) =~= old(self).rows@);
        }
    }

    /// The rows, in storage order.
    pub fn rows(&self) -> (r: &Vec<Subscription>)
        ensures
            rows_view(r@) == self@,
    {
        &self.rows
    }
}

} // verus!
