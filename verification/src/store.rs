//! Transactional persistence of subscriber records and confirmation
//! tokens. The store is the single source of truth for the subscription
//! lifecycle: rows enter it only through a transaction that is committed
//! as a whole, statuses move only from pending to confirmed, and rows are
//! never deleted.

use crate::domain::subscriber_email::SubscriberEmail;
use crate::domain::subscriber_name::SubscriberName;
use vstd::prelude::*;

verus! {

/// The two legal statuses of a subscriber; the only legal transition is
/// `PendingConfirmation` to `Confirmed`.
#[derive(Clone, Copy, Debug, PartialEq, Eq, Structural)]
pub enum SubscriberStatus {
    PendingConfirmation,
    Confirmed,
}

/// Mathematical model of one subscriber row.
#[verifier::ext_equal]
pub struct SubscriberRow {
    pub id: u64,
    pub email: Seq<char>,
    pub name: Seq<char>,
    pub subscribed_at: u64,
    pub status: SubscriberStatus,
}

/// Mathematical model of one confirmation-token row.
#[verifier::ext_equal]
pub struct TokenRow {
    pub token: Seq<char>,
    pub subscriber_id: u64,
}

/// One persisted subscriber.
pub struct SubscriberRecord {
    pub id: u64,
    pub email: SubscriberEmail,
    pub name: SubscriberName,
    pub subscribed_at: u64,
    pub status: SubscriberStatus,
}

impl View for SubscriberRecord {
    type V = SubscriberRow;

    open spec fn view(&self) -> SubscriberRow {
        SubscriberRow {
            id: self.id,
            email: self.email@,
            name: self.name@,
            subscribed_at: self.subscribed_at,
            status: self.status,
        }
    }
}

/// One persisted confirmation token.
pub struct TokenRecord {
    pub subscription_token: String,
    pub subscriber_id: u64,
}

impl View for TokenRecord {
    type V = TokenRow;

    open spec fn view(&self) -> TokenRow {
        TokenRow { token: self.subscription_token@, subscriber_id: self.subscriber_id }
    }
}

/// No two rows share an id.
pub open spec fn ids_unique(s: Seq<SubscriberRow>) -> bool {
    forall|i: int, j: int| 0 <= i < j < s.len() ==> s[i].id != s[j].id
}

/// Every row's id lies below the bound.
pub open spec fn ids_below(s: Seq<SubscriberRow>, bound: u64) -> bool {
    forall|i: int| 0 <= i < s.len() ==> s[i].id < bound
}

/// The row with its status forced to `Confirmed`; everything else kept.
pub open spec fn confirm_row(r: SubscriberRow) -> SubscriberRow {
    SubscriberRow { status: SubscriberStatus::Confirmed, ..r }
}

/// Every row owned by `id` confirmed, every other row untouched.
pub open spec fn spec_mark_confirmed(s: Seq<SubscriberRow>, id: u64) -> Seq<SubscriberRow> {
    s.map_values(
        |r: SubscriberRow|
            if r.id == id {
                confirm_row(r)
            } else {
                r
            },
    )
}

/// The subscriber id owning the first token row that matches `t`, if any.
pub open spec fn spec_find_token(toks: Seq<TokenRow>, t: Seq<char>) -> Option<u64>
    decreases toks.len(),
{
    if toks.len() == 0 {
        None
    } else if toks.first().token == t {
        Some(toks.first().subscriber_id)
    } else {
        spec_find_token(toks.drop_first(), t)
    }
}

/// The stored emails of the confirmed rows, in store order.
pub open spec fn confirmed_emails(s: Seq<SubscriberRow>) -> Seq<Seq<char>>
    decreases s.len(),
{
    if s.len() == 0 {
        Seq::empty()
    } else if s.last().status == SubscriberStatus::Confirmed {
        confirmed_emails(s.drop_last()).push(s.last().email)
    } else {
        confirmed_emails(s.drop_last())
    }
}

/// Freshness of assigned ids: in a store whose ids lie below the id
/// counter, the counter's value collides with no existing row, so every
/// insert creates a genuinely new subscriber.
pub proof fn lemma_next_id_is_fresh(s: Seq<SubscriberRow>, bound: u64)
    requires
        ids_below(s, bound),
    ensures
        forall|i: int| 0 <= i < s.len() ==> (#[trigger] s[i]).id != bound,
{
}

/// The first subscriber row carrying the id, if any; with a well-formed
/// store it is the only one.
pub open spec fn spec_find_subscriber(s: Seq<SubscriberRow>, id: u64) -> Option<SubscriberRow>
    decreases s.len(),
{
    if s.len() == 0 {
        None
    } else if s.first().id == id {
        Some(s.first())
    } else {
        spec_find_subscriber(s.drop_first(), id)
    }
}

/// The subscribers table and the confirmation-token table, with the id
/// counter the next insert will use.
pub struct SubscriptionStore {
    subscribers: Vec<SubscriberRecord>,
    tokens: Vec<TokenRecord>,
    next_id: u64,
}

/// Rows staged by an open transaction; nothing in it is visible in the
/// store until [`SubscriptionStore::commit`]. Dropping the transaction
/// without committing is a rollback: the store is left untouched.
pub struct StoreTransaction {
    staged_subscribers: Vec<SubscriberRecord>,
    staged_tokens: Vec<TokenRecord>,
    base_next_id: u64,
    next_id: u64,
}

impl StoreTransaction {
    /// The subscriber rows this transaction would add.
    pub closed spec fn staged_subscribers(&self) -> Seq<SubscriberRow> {
        self.staged_subscribers@.map_values(|r: SubscriberRecord| r@)
    }

    /// The token rows this transaction would add.
    pub closed spec fn staged_tokens(&self) -> Seq<TokenRow> {
        self.staged_tokens@.map_values(|r: TokenRecord| r@)
    }

    /// The store's id counter when the transaction began.
    pub closed spec fn base_next_id(&self) -> u64 {
        self.base_next_id
    }

    /// The id the transaction's next insert will use.
    pub closed spec fn next_id(&self) -> u64 {
        self.next_id
    }

    /// Staged rows carry distinct, fresh ids drawn from the window the
    /// transaction has consumed so far.
    pub open spec fn wf(&self) -> bool {
        &&& self.base_next_id() <= self.next_id()
        &&& ids_unique(self.staged_subscribers())
        &&& forall|i: int|
            0 <= i < self.staged_subscribers().len() ==> self.base_next_id() <= (
            #[trigger] self.staged_subscribers()[i]).id && self.staged_subscribers()[i].id
                < self.next_id()
    }

    /// Stage one subscriber row, in state `PendingConfirmation`, under a
    /// fresh id.
    pub fn insert_pending_subscriber(
        &mut self,
        email: SubscriberEmail,
        name: SubscriberName,
        now: u64,
    ) -> (id: u64)
        requires
            old(self).wf(),
            old(self).next_id() < u64::MAX,
        ensures
            final(self).wf(),
            id == old(self).next_id(),
            final(self).next_id() == old(self).next_id() + 1,
            final(self).base_next_id() == old(self).base_next_id(),
            final(self).staged_subscribers() == old(self).staged_subscribers().push(
                SubscriberRow {
                    id: id,
                    email: email@,
                    name: name@,
                    subscribed_at: now,
                    status: SubscriberStatus::PendingConfirmation,
                },
            ),
            final(self).staged_tokens() == old(self).staged_tokens(),
    {
        let id = self.next_id;
        let record = SubscriberRecord {
            id,
            email,
            name,
            subscribed_at: now,
            status: SubscriberStatus::PendingConfirmation,
        };
        self.staged_subscribers.push(record);
        self.next_id = self.next_id + 1;
        proof {
            assert(self.staged_subscribers() =~= old(self).staged_subscribers().push(
                SubscriberRow {
                    id: id,
                    email: email@,
                    name: name@,
                    subscribed_at: now,
                    status: SubscriberStatus::PendingConfirmation,
                },
            ));
            assert(self.staged_tokens() =~= old(self).staged_tokens());
        }
        id
    }

    /// Stage one token row against a subscriber id, in the same
    /// transaction as the subscriber it authorizes.
    pub fn store_token(&mut self, subscriber_id: u64, token: String)
        ensures
            final(self).staged_tokens() == old(self).staged_tokens().push(
                TokenRow { token: token@, subscriber_id: subscriber_id },
            ),
            final(self).staged_subscribers() == old(self).staged_subscribers(),
            final(self).next_id() == old(self).next_id(),
            final(self).base_next_id() == old(self).base_next_id(),
            old(self).wf() ==> final(self).wf(),
    {
        let ghost t = token@;
        self.staged_tokens.push(TokenRecord { subscription_token: token, subscriber_id });
        proof {
            assert(self.staged_tokens() =~= old(self).staged_tokens().push(
                TokenRow { token: t, subscriber_id: subscriber_id },
            ));
            assert(self.staged_subscribers() =~= old(self).staged_subscribers());
        }
    }
}

impl SubscriptionStore {
    /// The subscriber rows, in insertion order.
    pub closed spec fn subscribers(&self) -> Seq<SubscriberRow> {
        self.subscribers@.map_values(|r: SubscriberRecord| r@)
    }

    /// The token rows, in insertion order.
    pub closed spec fn tokens(&self) -> Seq<TokenRow> {
        self.tokens@.map_values(|r: TokenRecord| r@)
    }

    /// The id the next committed insert will assign.
    pub closed spec fn next_id(&self) -> u64 {
        self.next_id
    }

    /// Ids are distinct and below the id counter, so a fresh id never
    /// collides with an existing row.
    pub open spec fn wf(&self) -> bool {
        &&& ids_unique(self.subscribers())
        &&& ids_below(self.subscribers(), self.next_id())
    }

    /// An empty store.
    pub fn new() -> (s: SubscriptionStore)
        ensures
            s.wf(),
            s.subscribers() == Seq::<SubscriberRow>::empty(),
            s.tokens() == Seq::<TokenRow>::empty(),
            s.next_id() == 0,
    {
        let s = SubscriptionStore { subscribers: Vec::new(), tokens: Vec::new(), next_id: 0 };
        proof {
            assert(s.subscribers() =~= Seq::<SubscriberRow>::empty());
            assert(s.tokens() =~= Seq::<TokenRow>::empty());
        }
        s
    }

    /// Open a transaction. Staged writes become visible only on commit;
    /// dropping the transaction instead discards them all.
    pub fn begin(&self) -> (tx: StoreTransaction)
        ensures
            tx.wf(),
            tx.staged_subscribers() == Seq::<SubscriberRow>::empty(),
            tx.staged_tokens() == Seq::<TokenRow>::empty(),
            tx.base_next_id() == self.next_id(),
            tx.next_id() == self.next_id(),
    {
        let tx = StoreTransaction {
            staged_subscribers: Vec::new(),
            staged_tokens: Vec::new(),
            base_next_id: self.next_id,
            next_id: self.next_id,
        };
        proof {
            assert(tx.staged_subscribers() =~= Seq::<SubscriberRow>::empty());
            assert(tx.staged_tokens() =~= Seq::<TokenRow>::empty());
        }
        tx
    }

    /// Make every row staged by the transaction durable, atomically: the
    /// store gains exactly the staged rows, in order, and nothing else.
    pub fn commit(&mut self, tx: StoreTransaction)
        requires
            old(self).wf(),
            tx.wf(),
            tx.base_next_id() == old(self).next_id(),
        ensures
            final(self).wf(),
            final(self).subscribers() == old(self).subscribers() + tx.staged_subscribers(),
            final(self).tokens() == old(self).tokens() + tx.staged_tokens(),
            final(self).next_id() == tx.next_id(),
    {
        let ghost staged_subs = tx.staged_subscribers();
        let ghost staged_toks = tx.staged_tokens();
        let ghost tx_base = tx.base_next_id();
        let mut tx = tx;
        self.subscribers.append(&mut tx.staged_subscribers);
        self.tokens.append(&mut tx.staged_tokens);
        self.next_id = tx.next_id;
        proof {
            assert(self.subscribers() =~= old(self).subscribers() + staged_subs);
            assert(self.tokens() =~= old(self).tokens() + staged_toks);
            let all = self.subscribers();
            let n = old(self).subscribers().len() as int;
            assert forall|i: int, j: int| 0 <= i < j < all.len() implies all[i].id != all[j].id by {
                if j < n {
                    assert(old(self).subscribers()[i].id != old(self).subscribers()[j].id);
                } else if i >= n {
                    assert(staged_subs[i - n].id != staged_subs[j - n].id);
                } else {
                    assert(old(self).subscribers()[i].id < tx_base);
                    assert(staged_subs[j - n].id >= tx_base);
                }
            }
        }
    }

    /// Abandon a transaction: every staged row is discarded and the
    /// store is left exactly as it was, with no partial write visible
    /// to any reader.
    pub fn rollback(&mut self, tx: StoreTransaction)
        ensures
            final(self).subscribers() == old(self).subscribers(),
            final(self).tokens() == old(self).tokens(),
            final(self).next_id() == old(self).next_id(),
            old(self).wf() ==> final(self).wf(),
    {
        let _ = tx;
    }

    /// The subscriber id owning the supplied token, if the token was ever
    /// issued; absence is a normal outcome, not an error.
    pub fn find_subscriber_by_token(&self, token: &String) -> (r: Option<u64>)
        ensures
            r == spec_find_token(self.tokens(), token@),
    {
        let n = self.tokens.len();
        proof {
            assert(self.tokens().skip(0) =~= self.tokens());
        }
        let mut i: usize = 0;
        while i < n
            invariant
                n == self.tokens@.len(),
                i <= n,
                spec_find_token(self.tokens(), token@) == spec_find_token(
                    self.tokens().skip(i as int),
                    token@,
                ),
            decreases n - i,
        {
            proof {
                assert(self.tokens().skip(i as int)[0] == self.tokens()[i as int]);
                assert(self.tokens()[i as int] == self.tokens@[i as int]@);
            }
            if self.tokens[i].subscription_token == *token {
                proof {
                    let sk = self.tokens().skip(i as int);
                    assert(sk.first().token == token@);
                    assert(spec_find_token(sk, token@) == Some(sk.first().subscriber_id));
                }
                return Some(self.tokens[i].subscriber_id);
            }
            proof {
                let sk = self.tokens().skip(i as int);
                assert(sk.first().token != token@);
                assert(spec_find_token(sk, token@) == spec_find_token(sk.drop_first(), token@));
                assert(sk.drop_first() =~= self.tokens().skip(i as int + 1));
            }
            i += 1;
        }
        proof {
            assert(self.tokens().skip(n as int) =~= Seq::<TokenRow>::empty());
        }
        None
    }

    /// Confirm the subscriber with this id. Idempotent: an
    /// already-confirmed subscriber is left exactly as it is, and an
    /// unknown id changes nothing.
    pub fn mark_confirmed(&mut self, subscriber_id: u64)
        ensures
            final(self).subscribers() == spec_mark_confirmed(old(self).subscribers(), subscriber_id),
            final(self).tokens() == old(self).tokens(),
            final(self).next_id() == old(self).next_id(),
            old(self).wf() ==> final(self).wf(),
    {
        let ghost orig = old(self).subscribers();
        let n = self.subscribers.len();
        let mut i: usize = 0;
        while i < n
            invariant
                n == self.subscribers@.len(),
                i <= n,
                self.subscribers().len() == orig.len(),
                forall|j: int|
                    0 <= j < i ==> #[trigger] self.subscribers()[j] == (if orig[j].id
                        == subscriber_id {
                        confirm_row(orig[j])
                    } else {
                        orig[j]
                    }),
                forall|j: int| i <= j < n ==> #[trigger] self.subscribers()[j] == orig[j],
                self.tokens() == old(self).tokens(),
                self.next_id == old(self).next_id(),
            decreases n - i,
        {
            let ghost pre_vec = self.subscribers@;
            let ghost pre = self.subscribers();
            let hit = self.subscribers[i].id == subscriber_id;
            if hit {
                self.subscribers[i].status = SubscriberStatus::Confirmed;
            }
            proof {
                let cur = self.subscribers();
                assert forall|j: int| 0 <= j < n && j != i implies cur[j] == pre[j] by {
                    assert(cur[j] == self.subscribers@[j]@);
                    assert(pre[j] == pre_vec[j]@);
                    assert(self.subscribers@[j] == pre_vec[j]);
                }
                assert(cur[i as int] == self.subscribers@[i as int]@);
                assert(pre[i as int] == pre_vec[i as int]@);
                if hit {
                    assert(cur[i as int] =~= confirm_row(orig[i as int]));
                } else {
                    assert(cur[i as int] == pre[i as int]);
                }
            }
            i += 1;
        }
        proof {
            assert(self.subscribers() =~= spec_mark_confirmed(orig, subscriber_id));
        }
    }

    /// How many subscriber rows the store holds.
    pub fn subscriber_count(&self) -> (n: usize)
        ensures
            n == self.subscribers().len(),
    {
        self.subscribers.len()
    }

    /// The stored email, name, status and timestamp of the subscriber
    /// with this id, or nothing when no row carries it.
    pub fn get_subscriber(&self, subscriber_id: u64) -> (r: Option<
        (String, String, SubscriberStatus, u64),
    >)
        ensures
            r is Some <==> spec_find_subscriber(self.subscribers(), subscriber_id) is Some,
            r matches Some(fields) ==> {
                let row = spec_find_subscriber(self.subscribers(), subscriber_id).unwrap();
                &&& fields.0@ == row.email
                &&& fields.1@ == row.name
                &&& fields.2 == row.status
                &&& fields.3 == row.subscribed_at
            },
    {
        let n = self.subscribers.len();
        proof {
            assert(self.subscribers().skip(0) =~= self.subscribers());
        }
        let mut i: usize = 0;
        while i < n
            invariant
                n == self.subscribers@.len(),
                i <= n,
                spec_find_subscriber(self.subscribers(), subscriber_id) == spec_find_subscriber(
                    self.subscribers().skip(i as int),
                    subscriber_id,
                ),
            decreases n - i,
        {
            proof {
                assert(self.subscribers().skip(i as int)[0] == self.subscribers()[i as int]);
                assert(self.subscribers()[i as int] == self.subscribers@[i as int]@);
            }
            if self.subscribers[i].id == subscriber_id {
                let record = &self.subscribers[i];
                let fields = (
                    record.email.as_string(),
                    record.name.as_string(),
                    record.status,
                    record.subscribed_at,
                );
                proof {
                    let sk = self.subscribers().skip(i as int);
                    assert(spec_find_subscriber(sk, subscriber_id) == Some(sk.first()));
                }
                return Some(fields);
            }
            proof {
                let sk = self.subscribers().skip(i as int);
                assert(sk.first().id != subscriber_id);
                assert(spec_find_subscriber(sk, subscriber_id) == spec_find_subscriber(
                    sk.drop_first(),
                    subscriber_id,
                ));
                assert(sk.drop_first() =~= self.subscribers().skip(i as int + 1));
            }
            i += 1;
        }
        proof {
            assert(self.subscribers().skip(n as int) =~= Seq::<SubscriberRow>::empty());
        }
        None
    }

    /// The raw stored emails of every confirmed subscriber, in store
    /// order. The caller re-validates them; the store does not.
    pub fn list_confirmed_subscribers(&self) -> (emails: Vec<String>)
        ensures
            emails@.map_values(|e: String| e@) == confirmed_emails(self.subscribers()),
    {
        let n = self.subscribers.len();
        let mut emails: Vec<String> = Vec::new();
        proof {
            assert(emails@.map_values(|e: String| e@) =~= confirmed_emails(
                self.subscribers().take(0),
            ));
        }
        let mut i: usize = 0;
        while i < n
            invariant
                n == self.subscribers@.len(),
                i <= n,
                emails@.map_values(|e: String| e@) == confirmed_emails(
                    self.subscribers().take(i as int),
                ),
            decreases n - i,
        {
            proof {
                assert(self.subscribers().take(i as int + 1).drop_last() =~= self.subscribers()
                    .take(i as int));
                assert(self.subscribers().take(i as int + 1).last() == self.subscribers()[i as int]);
            }
            if matches!(self.subscribers[i].status, SubscriberStatus::Confirmed) {
                let e = self.subscribers[i].email.as_string();
                emails.push(e);
                proof {
                    assert(emails@.map_values(|e: String| e@) =~= confirmed_emails(
                        self.subscribers().take(i as int + 1),
                    ));
                }
            }
            i += 1;
        }
        proof {
            assert(self.subscribers().take(n as int) =~= self.subscribers());
        }
        emails
    }
}

} // verus!
