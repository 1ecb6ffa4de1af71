//! What the operators' HTTP handlers compute: the URLs of decisions, the
//! decisions they forward, and the invitations they issue and list.

use vstd::prelude::*;
use crate::btc_api::{decision_path, decision_path_text, signed_text};
use crate::types::{ConfirmationData, InviteRec, InviteResp, SignatureData};
use crate::withdrawal::{
    WithdrawalRequestDecision, WithdrawalRequestDecisionInfo, WithdrawalRequestDecisionType,
};
use vstd::std_specs::convert::FromSpec;

verus! {

/// The URL on which decisions of the given kind are taken under `domain`.
pub fn decision_url(domain: &String, kind: WithdrawalRequestDecisionType) -> (r: String)
    ensures
        r@ == domain@ + decision_path_text(kind),
{
    let mut url = domain.clone();
    url.append(decision_path(kind));
    url
}

/// The decision an operator takes: on the request `confirmation_data`,
/// signed with `signature_data`, sent to the decision URL under `domain`,
/// with `msg` the text of the request that was signed.
pub fn operator_decision(
    confirmation_data: ConfirmationData,
    signature_data: SignatureData,
    kind: WithdrawalRequestDecisionType,
    domain: &String,
    msg: String,
) -> (r: WithdrawalRequestDecisionInfo)
    ensures
        r.url@ == domain@ + decision_path_text(kind),
        r == WithdrawalRequestDecisionInfo::from_spec(
            (confirmation_data, signature_data, kind, r.url, msg),
        ),
{
    let url = decision_url(domain, kind);
    WithdrawalRequestDecisionInfo::from((confirmation_data, signature_data, kind, url, msg))
}

/// Whether an invitation with the given number has been issued.
pub open spec fn taken(invites: Seq<InviteRec>, invite: u128) -> bool {
    exists|i: int| 0 <= i < invites.len() && (#[trigger] invites[i]).invite == invite
}

/// The record and the answer for an invitation with number `invite` and
/// label `label` issued by the operator whose signature came with the
/// request: the operator is recorded by its public key.
pub fn issue_invite(invite: u128, signature_data: &SignatureData, label: String) -> (r: (
    InviteRec,
    InviteResp,
))
    ensures
        r.0.invite == invite,
        r.0.invitor == signature_data.public_key,
        r.0.label == label,
        r.1.invite == invite,
        r.1.label == label,
{
    let rec = InviteRec { invite, invitor: signature_data.public_key.clone(), label: label.clone() };
    (rec, InviteResp { invite, label })
}

/// The invitations among `invites` that the operator with key `invitor`
/// issued, in order, as shown to that operator.
pub open spec fn owned_invites(invites: Seq<InviteRec>, invitor: Seq<char>) -> Seq<InviteResp>
    decreases invites.len(),
{
    if invites.len() == 0 {
        seq![]
    } else {
        let before = owned_invites(invites.drop_last(), invitor);
        let rec = invites.last();
        if rec.invitor@ == invitor {
            before.push(InviteResp { invite: rec.invite, label: rec.label })
        } else {
            before
        }
    }
}

/// Whether no two invitations share a number.
pub open spec fn distinct_numbers(invites: Seq<InviteRec>) -> bool {
    forall|i: int, j: int|
        0 <= i < j < invites.len() ==> (#[trigger] invites[i]).invite != (
        #[trigger] invites[j]).invite
}

/// The invitations issued so far, found by their numbers: no number occurs
/// twice.
pub struct InviteBook {
    records: Vec<InviteRec>,
}

impl View for InviteBook {
    type V = Seq<InviteRec>;

    closed spec fn view(&self) -> Seq<InviteRec> {
        self.records@
    }
}

impl InviteBook {
    #[verifier::type_invariant]
    spec fn numbers_distinct(self) -> bool {
        distinct_numbers(self.records@)
    }

    /// A book with no invitations.
    pub fn new() -> (b: InviteBook)
        ensures
            b@ == Seq::<InviteRec>::empty(),
    {
        InviteBook { records: Vec::new() }
    }

    /// Whether an invitation with the given number has been issued.
    pub fn is_taken(&self, invite: u128) -> (r: bool)
        ensures
            r == taken(self@, invite),
            distinct_numbers(self@),
    {
        proof {
            use_type_invariant(self);
        }
        let mut i: usize = 0;
        while i < self.records.len()
            invariant
                i <= self.records.len(),
                distinct_numbers(self.records@),
                forall|j: int| 0 <= j < i ==> (#[trigger] self.records@[j]).invite != invite,
            decreases self.records.len() - i,
        {
            if self.records[i].invite == invite {
                return true;
            }
            i = i + 1;
        }
        false
    }

    /// Records an invitation, unless its number is taken; tells whether it
    /// was recorded.
    pub fn insert(&mut self, rec: InviteRec) -> (ok: bool)
        ensures
            ok == !taken(old(self)@, rec.invite),
            ok ==> final(self)@ == old(self)@.push(rec),
            !ok ==> final(self)@ == old(self)@,
            distinct_numbers(final(self)@),
    {
        proof {
            use_type_invariant(&*self);
        }
        if self.is_taken(rec.invite) {
            return false;
        }
        proof {
            lemma_fresh_invite_keeps_numbers_distinct(self.records@, rec);
        }
        let mut records: Vec<InviteRec> = Vec::new();
        std::mem::swap(&mut records, &mut self.records);
        records.push(rec);
        self.records = records;
        true
    }

    /// The invitations the operator with key `invitor` has issued.
    pub fn invites_of(&self, invitor: &String) -> (r: Vec<InviteResp>)
        ensures
            r@ == owned_invites(self@, invitor@),
    {
        let invites = &self.records;
        let mut r: Vec<InviteResp> = Vec::new();
        let mut i: usize = 0;
        while i < invites.len()
            invariant
                i <= invites.len(),
                r@ == owned_invites(invites@.subrange(0, i as int), invitor@),
            decreases invites.len() - i,
        {
            assert(invites@.subrange(0, i + 1).drop_last() == invites@.subrange(0, i as int));
            let rec = &invites[i];
            if rec.invitor.eq(invitor) {
                r.push(InviteResp { invite: rec.invite, label: rec.label.clone() });
            }
            i = i + 1;
        }
        assert(invites@.subrange(0, invites.len() as int) == invites@);
        r
    }
}

/// What is stored of an operator's decision is enough to check the
/// operator's signature again: its URL, a colon and its message make up
/// exactly the text the hot wallet checks signatures of, and the signature,
/// nonce and key are the operator's.
pub proof fn lemma_stored_decision_rechecks_signature(
    confirmation_data: ConfirmationData,
    signature_data: SignatureData,
    kind: WithdrawalRequestDecisionType,
    domain: Seq<char>,
    url: String,
    msg: String,
)
    requires
        url@ == domain + decision_path_text(kind),
    ensures
        ({
            let info = WithdrawalRequestDecisionInfo::from_spec(
                (confirmation_data, signature_data, kind, url, msg),
            );
            let stored = WithdrawalRequestDecision::from_spec(info);
            &&& stored.url@ + ":"@ + stored.msg@ == signed_text(domain, kind, msg@)
            &&& stored.signature == signature_data.signature
            &&& stored.nonce == signature_data.nonce
            &&& stored.public_key == signature_data.public_key
            &&& info.request_id == confirmation_data.id
            &&& info.user_id == confirmation_data.user
            &&& info.currency == confirmation_data.address.currency_of()
            &&& info.decision_type == kind
        }),
{
}

/// An invitation issued by an operator is listed to that operator, after
/// the ones it had before, and to no other operator.
pub proof fn lemma_issued_invite_is_listed(
    invites: Seq<InviteRec>,
    rec: InviteRec,
    invitor: Seq<char>,
)
    ensures
        rec.invitor@ == invitor ==> owned_invites(invites.push(rec), invitor) == owned_invites(
            invites,
            invitor,
        ).push(InviteResp { invite: rec.invite, label: rec.label }),
        rec.invitor@ != invitor ==> owned_invites(invites.push(rec), invitor) == owned_invites(
            invites,
            invitor,
        ),
{
    assert(invites.push(rec).drop_last() == invites);
}

/// Whether `resp` shows an invitation among `invites` issued by `invitor`.
pub open spec fn issued_by(invites: Seq<InviteRec>, invitor: Seq<char>, resp: InviteResp) -> bool {
    exists|i: int|
        0 <= i < invites.len() && (#[trigger] invites[i]).invitor@ == invitor && invites[i].invite
            == resp.invite && invites[i].label == resp.label
}

/// An operator is shown only invitations that it issued itself.
pub proof fn lemma_listed_invites_are_own(invites: Seq<InviteRec>, invitor: Seq<char>)
    ensures
        forall|j: int|
            0 <= j < owned_invites(invites, invitor).len() ==> issued_by(
                invites,
                invitor,
                #[trigger] owned_invites(invites, invitor)[j],
            ),
    decreases invites.len(),
{
    if invites.len() > 0 {
        let before = invites.drop_last();
        lemma_listed_invites_are_own(before, invitor);
        let owned = owned_invites(invites, invitor);
        assert forall|j: int| 0 <= j < owned.len() implies issued_by(
            invites,
            invitor,
            #[trigger] owned[j],
        ) by {
            if j < owned_invites(before, invitor).len() {
                assert(issued_by(before, invitor, owned_invites(before, invitor)[j]));
                let i = choose|i: int|
                    0 <= i < before.len() && (#[trigger] before[i]).invitor@ == invitor
                        && before[i].invite == owned[j].invite && before[i].label == owned[j].label;
                assert(invites[i] == before[i]);
            } else {
                let k = invites.len() - 1;
                assert(invites[k] == invites.last());
            }
        }
    }
}

/// Issuing an invitation whose number is not taken keeps the numbers of
/// all invitations distinct.
pub proof fn lemma_fresh_invite_keeps_numbers_distinct(invites: Seq<InviteRec>, rec: InviteRec)
    requires
        distinct_numbers(invites),
        !taken(invites, rec.invite),
    ensures
        distinct_numbers(invites.push(rec)),
{
    assert forall|i: int, j: int| 0 <= i < j < invites.push(rec).len() implies (#[trigger] invites.push(rec)[i]).invite != (
    #[trigger] invites.push(rec)[j]).invite by {
        if j == invites.len() {
            assert(invites.push(rec)[i] == invites[i]);
        } else {
            assert(invites.push(rec)[i] == invites[i]);
            assert(invites.push(rec)[j] == invites[j]);
        }
    }
}

/// Which invitation numbers are taken: none in an empty book; after one
/// more invitation, the numbers taken before and that invitation's.
pub proof fn lemma_taken_step(invites: Seq<InviteRec>, rec: InviteRec, invite: u128)
    ensures
        !taken(Seq::<InviteRec>::empty(), invite),
        taken(invites.push(rec), invite) <==> (taken(invites, invite) || rec.invite == invite),
{
    if taken(invites.push(rec), invite) {
        let i = choose|i: int|
            0 <= i < invites.push(rec).len() && (#[trigger] invites.push(rec)[i]).invite == invite;
        if i < invites.len() {
            assert(invites.push(rec)[i] == invites[i]);
        }
    }
    if taken(invites, invite) {
        let i = choose|i: int| 0 <= i < invites.len() && (#[trigger] invites[i]).invite == invite;
        assert(invites.push(rec)[i] == invites[i]);
    }
    if rec.invite == invite {
        assert(invites.push(rec)[invites.len() as int] == rec);
    }
}

/// An operator with no invitations in the book is shown none.
pub proof fn lemma_no_invites_listed(invitor: Seq<char>)
    ensures
        owned_invites(Seq::<InviteRec>::empty(), invitor) == Seq::<InviteResp>::empty(),
{
}

/// Distinct numbers mean that two invitations with the same number are the
/// same entry.
pub proof fn lemma_distinct_numbers_spelled_out(invites: Seq<InviteRec>)
    ensures
        distinct_numbers(invites) <==> (forall|i: int, j: int|
            0 <= i < invites.len() && 0 <= j < invites.len() && (#[trigger] invites[i]).invite == (
            #[trigger] invites[j]).invite ==> i == j),
{
    if distinct_numbers(invites) {
        assert forall|i: int, j: int|
            0 <= i < invites.len() && 0 <= j < invites.len() && (#[trigger] invites[i]).invite == (
            #[trigger] invites[j]).invite implies i == j by {
            if i < j {
                assert(invites[i].invite != invites[j].invite);
            } else if j < i {
                assert(invites[j].invite != invites[i].invite);
            }
        }
    }
}

} // verus!
