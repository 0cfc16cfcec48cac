//! The confirm workflow: resolve a confirmation token to its subscriber
//! and promote that subscriber to `Confirmed`. An unknown token is a
//! normal outcome, indistinguishable from one that was never issued; a
//! repeated confirmation succeeds and changes nothing.

use crate::store::{
    spec_find_token, spec_mark_confirmed, SubscriberRow, SubscriberStatus, SubscriptionStore,
    TokenRow,
};
use vstd::prelude::*;

verus! {

/// The query parameters of a confirmation request.
pub struct Parameters {
    subscription_token: String,
}

impl View for Parameters {
    type V = Seq<char>;

    closed spec fn view(&self) -> Seq<char> {
        self.subscription_token@
    }
}

impl Parameters {
    /// Wrap a raw token string as received in the confirmation link.
    pub fn new(subscription_token: String) -> (p: Parameters)
        ensures
            p@ == subscription_token@,
    {
        Parameters { subscription_token }
    }
}

/// How a confirmation request ended.
#[derive(Clone, Copy, Debug, PartialEq, Eq, Structural)]
pub enum ConfirmOutcome {
    /// The token was found and its subscriber is now confirmed.
    Confirmed,
    /// The token was never issued; nothing changed.
    UnknownToken,
}

impl ConfirmOutcome {
    /// The HTTP status the outcome maps to: 200 on success, 401 for an
    /// unknown token.
    pub fn status_code(&self) -> (c: u16)
        ensures
            *self == ConfirmOutcome::Confirmed ==> c == 200,
            *self == ConfirmOutcome::UnknownToken ==> c == 401,
    {
        match self {
            ConfirmOutcome::Confirmed => 200,
            ConfirmOutcome::UnknownToken => 401,
        }
    }
}

/// The confirm workflow. An unknown token leaves the store untouched;
/// a known one confirms exactly the subscriber that owns it and touches
/// nothing else. Re-confirming an already confirmed subscriber succeeds
/// identically.
pub fn confirm(store: &mut SubscriptionStore, parameters: &Parameters) -> (r: ConfirmOutcome)
    ensures
        old(store).wf() ==> final(store).wf(),
        spec_find_token(old(store).tokens(), parameters@) is None ==> {
            &&& r == ConfirmOutcome::UnknownToken
            &&& final(store).subscribers() == old(store).subscribers()
        },
        spec_find_token(old(store).tokens(), parameters@) matches Some(id) ==> {
            &&& r == ConfirmOutcome::Confirmed
            &&& final(store).subscribers() == spec_mark_confirmed(old(store).subscribers(), id)
        },
        final(store).tokens() == old(store).tokens(),
        final(store).next_id() == old(store).next_id(),
{
    match store.find_subscriber_by_token(&parameters.subscription_token) {
        None => ConfirmOutcome::UnknownToken,
        Some(subscriber_id) => {
            store.mark_confirmed(subscriber_id);
            ConfirmOutcome::Confirmed
        },
    }
}

/// A token that was never issued resolves to no subscriber, however many
/// token rows for other tokens the store holds.
pub proof fn lemma_unissued_token_unknown(toks: Seq<TokenRow>, t: Seq<char>)
    requires
        forall|i: int| 0 <= i < toks.len() ==> (#[trigger] toks[i]).token != t,
    ensures
        spec_find_token(toks, t) is None,
    decreases toks.len(),
{
    if toks.len() > 0 {
        assert(toks[0].token != t);
        assert(forall|i: int|
            0 <= i < toks.drop_first().len() ==> (#[trigger] toks.drop_first()[i]).token != t);
        lemma_unissued_token_unknown(toks.drop_first(), t);
    }
}

/// A token that resolves was issued: some token row holds exactly this
/// token and the resolved subscriber id.
pub proof fn lemma_found_token_was_issued(toks: Seq<TokenRow>, t: Seq<char>, id: u64)
    requires
        spec_find_token(toks, t) == Some(id),
    ensures
        exists|i: int| 0 <= i < toks.len() && toks[i].token == t && (#[trigger] toks[i]).subscriber_id == id,
    decreases toks.len(),
{
    if toks.first().token == t {
        assert(toks[0].token == t && toks[0].subscriber_id == id);
    } else {
        lemma_found_token_was_issued(toks.drop_first(), t, id);
        let j = choose|j: int|
            0 <= j < toks.drop_first().len() && toks.drop_first()[j].token == t && (
            #[trigger] toks.drop_first()[j]).subscriber_id == id;
        assert(toks[j + 1].token == t && toks[j + 1].subscriber_id == id);
    }
}

/// Confirming is idempotent: confirming the same subscriber a second
/// time leaves every row exactly as the first confirmation left it.
pub proof fn lemma_mark_confirmed_idempotent(s: Seq<SubscriberRow>, id: u64)
    ensures
        spec_mark_confirmed(spec_mark_confirmed(s, id), id) == spec_mark_confirmed(s, id),
{
    let once = spec_mark_confirmed(s, id);
    let twice = spec_mark_confirmed(once, id);
    assert forall|i: int| 0 <= i < s.len() implies #[trigger] twice[i] == once[i] by {
        assert(once[i] == if s[i].id == id {
            crate::store::confirm_row(s[i])
        } else {
            s[i]
        });
    }
    assert(twice =~= once);
}

/// The confirmed status is monotonic: a confirmation never reverts any
/// row that is already confirmed, whatever id it targets.
pub proof fn lemma_mark_confirmed_monotonic(s: Seq<SubscriberRow>, id: u64, i: int)
    requires
        0 <= i < s.len(),
        s[i].status == SubscriberStatus::Confirmed,
    ensures
        spec_mark_confirmed(s, id)[i].status == SubscriberStatus::Confirmed,
{
}

} // verus!
