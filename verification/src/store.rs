//! The subscriber store: rows of the `subscriptions` and
//! `subscription_tokens` tables, a mathematical model of both, and the two
//! transitions of the confirmation workflow — inserting a pending subscriber
//! together with its token, and redeeming a token.

use crate::domain::{SubscriberEmail, SubscriberName};
use crate::strutil::str_eq;
use vstd::prelude::*;
use vstd::string::StringExecFns;

verus! {

/// The two states a subscription can be in.
#[derive(Clone, Copy, PartialEq, Eq, Structural, Debug)]
pub enum SubscriptionStatus {
    PendingConfirmation,
    Confirmed,
}

/// A row of the `subscriptions` table.
pub struct SubscriberRow {
    pub id: u128,
    pub email: String,
    pub name: String,
    pub subscribed_at: i64,
    pub status: SubscriptionStatus,
}

/// A row of the `subscription_tokens` table.
pub struct TokenRow {
    pub token: String,
    pub subscriber_id: u128,
}

/// The mathematical value of a subscriber row.
#[verifier::ext_equal]
pub struct SubscriberRowModel {
    pub id: u128,
    pub email: Seq<char>,
    pub name: Seq<char>,
    pub subscribed_at: i64,
    pub status: SubscriptionStatus,
}

/// The mathematical value of a token row.
#[verifier::ext_equal]
pub struct TokenRowModel {
    pub token: Seq<char>,
    pub subscriber_id: u128,
}

/// The mathematical value of the whole store.
#[verifier::ext_equal]
pub struct StoreModel {
    pub subscribers: Seq<SubscriberRowModel>,
    pub tokens: Seq<TokenRowModel>,
}

impl View for SubscriberRow {
    type V = SubscriberRowModel;

    open spec fn view(&self) -> SubscriberRowModel {
        SubscriberRowModel {
            id: self.id,
            email: self.email@,
            name: self.name@,
            subscribed_at: self.subscribed_at,
            status: self.status,
        }
    }
}

impl View for TokenRow {
    type V = TokenRowModel;

    open spec fn view(&self) -> TokenRowModel {
        TokenRowModel { token: self.token@, subscriber_id: self.subscriber_id }
    }
}

/// The in-memory store both tables live in.
pub struct SubscriberStore {
    pub subscribers: Vec<SubscriberRow>,
    pub tokens: Vec<TokenRow>,
}

impl View for SubscriberStore {
    type V = StoreModel;

    open spec fn view(&self) -> StoreModel {
        StoreModel {
            subscribers: Seq::new(self.subscribers@.len(), |i: int| self.subscribers@[i]@),
            tokens: Seq::new(self.tokens@.len(), |i: int| self.tokens@[i]@),
        }
    }
}

/// Some subscriber row carries the id `id`.
pub open spec fn has_subscriber(m: StoreModel, id: u128) -> bool {
    exists|j: int| 0 <= j < m.subscribers.len() && (#[trigger] m.subscribers[j].id) == id
}

/// Every token row points at some subscriber row: the two are only ever
/// created together.
pub open spec fn store_wf(m: StoreModel) -> bool {
    forall|i: int|
        0 <= i < m.tokens.len() ==> has_subscriber(m, #[trigger] m.tokens[i].subscriber_id)
}

/// The store after atomically inserting a pending subscriber and its token.
pub open spec fn spec_insert(m: StoreModel, row: SubscriberRowModel, tok: TokenRowModel) -> StoreModel {
    StoreModel { subscribers: m.subscribers.push(row), tokens: m.tokens.push(tok) }
}

/// The subscriber id the first row holding `t` points at, if any.
pub open spec fn spec_token_lookup(tokens: Seq<TokenRowModel>, t: Seq<char>) -> Option<u128>
    decreases tokens.len(),
{
    if tokens.len() == 0 {
        None
    } else if tokens.first().token == t {
        Some(tokens.first().subscriber_id)
    } else {
        spec_token_lookup(tokens.drop_first(), t)
    }
}

/// `r`, with its status set to confirmed when its id is `id`.
pub open spec fn spec_confirm_row(r: SubscriberRowModel, id: u128) -> SubscriberRowModel {
    if r.id == id {
        SubscriberRowModel {
            id: r.id,
            email: r.email,
            name: r.name,
            subscribed_at: r.subscribed_at,
            status: SubscriptionStatus::Confirmed,
        }
    } else {
        r
    }
}

/// All subscriber rows, with those of id `id` confirmed.
pub open spec fn spec_confirm_all(
    subs: Seq<SubscriberRowModel>,
    id: u128,
) -> Seq<SubscriberRowModel> {
    Seq::new(subs.len(), |i: int| spec_confirm_row(subs[i], id))
}

/// The store after redeeming token `t`: when the token resolves, the
/// subscriber it points at is confirmed; otherwise nothing changes.
pub open spec fn spec_redeem(m: StoreModel, t: Seq<char>) -> StoreModel {
    match spec_token_lookup(m.tokens, t) {
        Some(id) => StoreModel { subscribers: spec_confirm_all(m.subscribers, id), tokens: m.tokens },
        None => m,
    }
}

/// If no row before `i` holds `t`, the lookup is decided by the rows from `i` on.
proof fn lemma_token_lookup_skip(tokens: Seq<TokenRowModel>, t: Seq<char>, i: int)
    requires
        0 <= i <= tokens.len(),
        forall|j: int| 0 <= j < i ==> tokens[j].token != t,
    ensures
        spec_token_lookup(tokens, t) == spec_token_lookup(tokens.skip(i), t),
    decreases i,
{
    if i > 0 {
        assert(tokens.len() > 0);
        assert(tokens.first().token != t);
        lemma_token_lookup_skip(tokens.drop_first(), t, i - 1);
        assert(tokens.drop_first().skip(i - 1) =~= tokens.skip(i));
    } else {
        assert(tokens.skip(0) =~= tokens);
    }
}

/// Inserting a subscriber row together with a token row that points at it
/// keeps every token row pointing at some subscriber row.
pub proof fn lemma_insert_preserves_wf(m: StoreModel, row: SubscriberRowModel, tok: TokenRowModel)
    requires
        store_wf(m),
        tok.subscriber_id == row.id,
    ensures
        store_wf(spec_insert(m, row, tok)),
{
    let m2 = spec_insert(m, row, tok);
    assert forall|i: int| 0 <= i < m2.tokens.len() implies has_subscriber(
        m2,
        #[trigger] m2.tokens[i].subscriber_id,
    ) by {
        if i < m.tokens.len() {
            assert(m2.tokens[i] == m.tokens[i]);
            assert(has_subscriber(m, m.tokens[i].subscriber_id));
            let j = choose|j: int|
                0 <= j < m.subscribers.len() && (#[trigger] m.subscribers[j].id)
                    == m.tokens[i].subscriber_id;
            assert(m2.subscribers[j] == m.subscribers[j]);
            assert(m2.subscribers[j].id == m2.tokens[i].subscriber_id);
        } else {
            let j = m.subscribers.len() as int;
            assert(m2.subscribers[j] == row);
            assert(m2.tokens[i] == tok);
            assert(m2.subscribers[j].id == m2.tokens[i].subscriber_id);
        }
    }
}

/// Redeeming a token changes no row's id and removes no row, so every token
/// row keeps pointing at some subscriber row.
pub proof fn lemma_redeem_preserves_wf(m: StoreModel, t: Seq<char>)
    requires
        store_wf(m),
    ensures
        store_wf(spec_redeem(m, t)),
{
    let m2 = spec_redeem(m, t);
    assert(m2.tokens == m.tokens);
    assert forall|i: int| 0 <= i < m2.tokens.len() implies has_subscriber(
        m2,
        #[trigger] m2.tokens[i].subscriber_id,
    ) by {
        assert(m.tokens[i].subscriber_id == m2.tokens[i].subscriber_id);
        assert(has_subscriber(m, m.tokens[i].subscriber_id));
        let j = choose|j: int|
            0 <= j < m.subscribers.len() && (#[trigger] m.subscribers[j].id)
                == m.tokens[i].subscriber_id;
        assert(m2.subscribers.len() == m.subscribers.len());
        assert(m2.subscribers[j].id == m2.tokens[i].subscriber_id);
    }
}

/// The emails of the confirmed subscriber rows, in store order.
pub open spec fn spec_confirmed_emails(subs: Seq<SubscriberRowModel>) -> Seq<Seq<char>>
    decreases subs.len(),
{
    if subs.len() == 0 {
        Seq::empty()
    } else {
        let rest = spec_confirmed_emails(subs.drop_last());
        if subs.last().status is Confirmed {
            rest.push(subs.last().email)
        } else {
            rest
        }
    }
}

/// Redeeming the same token twice is the same as redeeming it once: the
/// second redemption finds the subscriber already confirmed and changes
/// nothing, and it still succeeds for exactly the tokens that exist.
pub proof fn lemma_redeem_idempotent(m: StoreModel, t: Seq<char>)
    ensures
        spec_redeem(spec_redeem(m, t), t) == spec_redeem(m, t),
        spec_token_lookup(spec_redeem(m, t).tokens, t) == spec_token_lookup(m.tokens, t),
{
    let m2 = spec_redeem(m, t);
    match spec_token_lookup(m.tokens, t) {
        None => {
            assert(m2 == m);
        },
        Some(id) => {
            assert(m2.tokens == m.tokens);
            let m3 = spec_redeem(m2, t);
            assert(m3.subscribers =~~= m2.subscribers);
            assert(m3 =~~= m2);
        },
    }
}

/// Redemption never reverts a confirmation, and touches no other field of
/// any subscriber row: statuses move only from pending to confirmed.
pub proof fn lemma_redeem_monotonic(m: StoreModel, t: Seq<char>)
    ensures
        spec_redeem(m, t).subscribers.len() == m.subscribers.len(),
        spec_redeem(m, t).tokens == m.tokens,
        forall|j: int|
            0 <= j < m.subscribers.len() ==> {
                let r0 = m.subscribers[j];
                let r1 = #[trigger] spec_redeem(m, t).subscribers[j];
                &&& r1.id == r0.id
                &&& r1.email == r0.email
                &&& r1.name == r0.name
                &&& r1.subscribed_at == r0.subscribed_at
                &&& (r0.status is Confirmed ==> r1.status is Confirmed)
            },
{
}

/// Atomically inserting a pending subscriber and then redeeming its (fresh)
/// token confirms exactly that subscriber, keeping its email and name.
pub proof fn lemma_insert_then_redeem(m: StoreModel, row: SubscriberRowModel, tok: TokenRowModel)
    requires
        tok.subscriber_id == row.id,
        forall|i: int| 0 <= i < m.tokens.len() ==> (#[trigger] m.tokens[i].token) != tok.token,
    ensures
        spec_token_lookup(spec_insert(m, row, tok).tokens, tok.token) == Some(row.id),
        ({
            let confirmed = spec_redeem(spec_insert(m, row, tok), tok.token).subscribers[m.subscribers.len() as int];
            &&& confirmed.id == row.id
            &&& confirmed.email == row.email
            &&& confirmed.name == row.name
            &&& confirmed.status is Confirmed
        }),
{
    let m2 = spec_insert(m, row, tok);
    lemma_token_lookup_skip(m2.tokens, tok.token, m.tokens.len() as int);
    assert(m2.tokens.skip(m.tokens.len() as int) =~= seq![tok]);
    assert(spec_token_lookup(seq![tok], tok.token) == Some(row.id));
    assert(m2.subscribers[m.subscribers.len() as int] == row);
}

impl SubscriberStore {
    /// An empty store.
    pub fn new() -> (r: SubscriberStore)
        ensures
            r@.subscribers =~= Seq::<SubscriberRowModel>::empty(),
            r@.tokens =~= Seq::<TokenRowModel>::empty(),
            store_wf(r@),
    {
        let r = SubscriberStore { subscribers: Vec::new(), tokens: Vec::new() };
        proof {
            assert(r@.subscribers =~= Seq::<SubscriberRowModel>::empty());
            assert(r@.tokens =~= Seq::<TokenRowModel>::empty());
        }
        r
    }

    /// Insert a new pending subscriber and its confirmation token, as one
    /// atomic unit of work: both rows appear, or (had this failed) neither.
    pub fn insert_pending(
        &mut self,
        id: u128,
        email: &SubscriberEmail,
        name: &SubscriberName,
        subscribed_at: i64,
        token: &str,
    )
        ensures
            final(self)@ == spec_insert(
                old(self)@,
                SubscriberRowModel {
                    id,
                    email: email@,
                    name: name@,
                    subscribed_at,
                    status: SubscriptionStatus::PendingConfirmation,
                },
                TokenRowModel { token: token@, subscriber_id: id },
            ),
            store_wf(old(self)@) ==> store_wf(final(self)@),
    {
        let row = SubscriberRow {
            id,
            email: email.as_string(),
            name: name.as_string(),
            subscribed_at,
            status: SubscriptionStatus::PendingConfirmation,
        };
        self.subscribers.push(row);
        self.tokens.push(TokenRow { token: String::from_str(token), subscriber_id: id });
        proof {
            let m = spec_insert(
                old(self)@,
                SubscriberRowModel {
                    id,
                    email: email@,
                    name: name@,
                    subscribed_at,
                    status: SubscriptionStatus::PendingConfirmation,
                },
                TokenRowModel { token: token@, subscriber_id: id },
            );
            assert(self@.subscribers =~~= m.subscribers);
            assert(self@.tokens =~~= m.tokens);
            assert(self@ =~~= m);
            if store_wf(old(self)@) {
                lemma_insert_preserves_wf(
                    old(self)@,
                    SubscriberRowModel {
                        id,
                        email: email@,
                        name: name@,
                        subscribed_at,
                        status: SubscriptionStatus::PendingConfirmation,
                    },
                    TokenRowModel { token: token@, subscriber_id: id },
                );
            }
        }
    }

    /// Resolve a confirmation token to the subscriber id of the first row
    /// holding it, without touching the store.
    pub fn lookup_token(&self, token: &str) -> (r: Option<u128>)
        ensures
            r == spec_token_lookup(self@.tokens, token@),
    {
        let n = self.tokens.len();
        let mut i: usize = 0;
        while i < n
            invariant
                n == self.tokens@.len(),
                i <= n,
                forall|j: int| 0 <= j < i ==> self@.tokens[j].token != token@,
            decreases n - i,
        {
            if str_eq(self.tokens[i].token.as_str(), token) {
                proof {
                    lemma_token_lookup_skip(self@.tokens, token@, i as int);
                    assert(self@.tokens.skip(i as int).first() == self@.tokens[i as int]);
                }
                return Some(self.tokens[i].subscriber_id);
            }
            i += 1;
        }
        proof {
            lemma_token_lookup_skip(self@.tokens, token@, n as int);
            assert(self@.tokens.skip(n as int).len() == 0);
        }
        None
    }

    /// Redeem a confirmation token: resolve it to a subscriber id and mark
    /// that subscriber confirmed. Returns the id the token resolved to.
    pub fn redeem_token(&mut self, token: &str) -> (r: Option<u128>)
        ensures
            r == spec_token_lookup(old(self)@.tokens, token@),
            final(self)@ == spec_redeem(old(self)@, token@),
            store_wf(old(self)@) ==> store_wf(final(self)@),
    {
        let found = self.lookup_token(token);

        match found {
            None => {
                proof {
                    assert(self@ =~~= spec_redeem(old(self)@, token@));
                    if store_wf(old(self)@) {
                        lemma_redeem_preserves_wf(old(self)@, token@);
                    }
                }
                None
            },
            Some(id) => {
                let m = self.subscribers.len();
                let mut k: usize = 0;
                while k < m
                    invariant
                        m == self.subscribers@.len(),
                        k <= m,
                        self.tokens == old(self).tokens,
                        self.subscribers@.len() == old(self).subscribers@.len(),
                        forall|j: int|
                            0 <= j < k ==> self.subscribers@[j]@ == spec_confirm_row(
                                old(self).subscribers@[j]@,
                                id,
                            ),
                        forall|j: int|
                            k <= j < m ==> self.subscribers@[j] == old(self).subscribers@[j],
                    decreases m - k,
                {
                    if self.subscribers[k].id == id {
                        self.subscribers[k].status = SubscriptionStatus::Confirmed;
                    }
                    k += 1;
                }
                proof {
                    assert(spec_token_lookup(old(self)@.tokens, token@) == Some(id));
                    assert(self@.subscribers =~~= spec_confirm_all(old(self)@.subscribers, id));
                    assert(self@.tokens =~~= old(self)@.tokens);
                    assert(self@ =~~= spec_redeem(old(self)@, token@));
                    if store_wf(old(self)@) {
                        lemma_redeem_preserves_wf(old(self)@, token@);
                    }
                }
                Some(id)
            },
        }
    }

    /// The emails of all confirmed subscribers, in store order.
    pub fn confirmed_emails(&self) -> (r: Vec<String>)
        ensures
            r.deep_view() == spec_confirmed_emails(self@.subscribers),
    {
        let mut out: Vec<String> = Vec::new();
        let n = self.subscribers.len();
        let mut i: usize = 0;
        while i < n
            invariant
                n == self.subscribers@.len(),
                i <= n,
                out.deep_view() == spec_confirmed_emails(self@.subscribers.take(i as int)),
            decreases n - i,
        {
            proof {
                assert(self@.subscribers.take(i + 1).drop_last() =~= self@.subscribers.take(
                    i as int,
                ));
                assert(self@.subscribers.take(i + 1).last() == self@.subscribers[i as int]);
            }
            let ghost pre = out.deep_view();
            if self.subscribers[i].status == SubscriptionStatus::Confirmed {
                out.push(self.subscribers[i].email.clone());
                proof {
                    assert(out.deep_view() =~= pre.push(self@.subscribers[i as int].email));
                }
            }
            i += 1;
        }
        proof {
            assert(self@.subscribers.take(n as int) =~= self@.subscribers);
        }
        out
    }

    /// The number of subscriber rows.
    pub fn subscriber_count(&self) -> (r: usize)
        ensures
            r == self@.subscribers.len(),
    {
        self.subscribers.len()
    }

    /// The number of token rows.
    pub fn token_count(&self) -> (r: usize)
        ensures
            r == self@.tokens.len(),
    {
        self.tokens.len()
    }
}

} // verus!
