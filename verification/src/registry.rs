//! The offer registry.
//!
//! The registry mints one uniquely identified record per offer and owns the
//! authoritative copy of every record it minted. A record's lifecycle is
//! monotonic: it starts pending and is resolved at most once, either
//! accepted or refused, by a caller who holds a customer badge and presents
//! the offer's own token as proof of possession. Expiry is a guard, not a
//! state: a pending offer past its expiry threshold stays pending in
//! storage, but can no longer be resolved. Each resolution appends one
//! notification event carrying a snapshot of the resolved record.

use vstd::prelude::*;

use crate::badges::Badge;
use crate::badges::BadgeError;
use crate::badges::BadgeIssuer;
use crate::badges::BadgeIssuerView;
use crate::badges::BadgeView;
use crate::badges::Role;
use crate::badges::bootstrap_badge;
use crate::badges::issuer_wf;
use crate::badges::may_issue;
use crate::badges::role_index;
use crate::badges::with_issued;

verus! {

/// How a registry call fails. Every failure leaves the registry unchanged:
/// a call's effects land whole or not at all.
#[derive(Clone, Copy, PartialEq, Eq, Structural, Debug)]
pub enum OfferError {
    /// The presented capability does not authorize the operation, or the
    /// presented token does not belong to this registry.
    Unauthorized,
    /// The offer was already accepted or refused; terminal states are
    /// immutable.
    AlreadyResolved,
    /// The current time is past the offer's expiry threshold.
    Expired,
    /// The operation is declared but intentionally not implemented.
    Unimplemented,
}

/// An offer's lifecycle position together with its resolution marker: the
/// marker exists exactly when the offer was resolved, so at most one of the
/// two markers can ever be set, and only from the pending state.
#[derive(Clone, Copy, PartialEq, Eq, Structural, Debug)]
pub enum Resolution {
    /// Not yet accepted or refused.
    Pending,
    /// Accepted at ledger time `at`. Terminal.
    Accepted { at: u64 },
    /// Refused at ledger time `at`. Terminal.
    Refused { at: u64 },
}

/// One offer's authoritative record. The identifier, content hash, expiry
/// threshold, amount and creation marker are immutable after minting; only
/// the resolution moves, and only once.
#[verifier::ext_equal]
pub struct OfferRecord {
    /// Unique within the registry, allocated in minting order from 1 and
    /// never reused.
    pub id: u64,
    /// Opaque reference to the offered content.
    pub content_hash: String,
    /// The last ledger time at which the offer may still be resolved: the
    /// threshold itself is still valid.
    pub expiry_threshold: u64,
    /// The offered amount; exact, non-negative.
    pub amount: u128,
    /// Ledger time at minting.
    pub created_at: u64,
    /// Lifecycle state plus resolution marker.
    pub resolution: Resolution,
}

/// The acceptance marker of the data model: zero until the offer is
/// accepted, then the acceptance time.
pub open spec fn acceptance_marker(r: OfferRecord) -> u64 {
    match r.resolution {
        Resolution::Accepted { at } => at,
        _ => 0,
    }
}

/// The refusal marker of the data model: zero until the offer is refused,
/// then the refusal time.
pub open spec fn refusal_marker(r: OfferRecord) -> u64 {
    match r.resolution {
        Resolution::Refused { at } => at,
        _ => 0,
    }
}

/// Which of the two notifications a resolution emitted.
#[derive(Clone, Copy, PartialEq, Eq, Structural, Debug)]
pub enum EventKind {
    Accepted,
    Refused,
}

/// A resolution notification: a snapshot of the record as resolved, plus
/// the resolution time. Fire-and-forget; observers read, nobody answers.
#[verifier::ext_equal]
pub struct OfferEvent {
    pub kind: EventKind,
    pub snapshot: OfferRecord,
    pub resolved_at: u64,
}

/// Mathematical content of an [`OfferToken`].
pub struct OfferTokenView {
    pub registry: u64,
    pub id: u64,
}

/// The minted token standing for one offer. Possession of it is the
/// capability to resolve that offer. Not `Clone`: there is exactly one.
pub struct OfferToken {
    registry: u64,
    id: u64,
}

impl View for OfferToken {
    type V = OfferTokenView;

    closed spec fn view(&self) -> OfferTokenView {
        OfferTokenView { registry: self.registry, id: self.id }
    }
}

impl OfferToken {
    /// The identifier of the offer this token stands for.
    pub fn id(&self) -> (r: u64)
        ensures
            r == self@.id,
    {
        self.id
    }
}

/// Mathematical content of a [`Registry`].
#[verifier::ext_equal]
pub struct RegistryView {
    pub id: u64,
    pub offers: Seq<OfferRecord>,
    pub events: Seq<OfferEvent>,
    pub issuer: BadgeIssuerView,
}

/// Record `i` of the registry carries identifier `i + 1`: identifiers are
/// allocated in minting order and never reused, and the issuer is the
/// registry's own.
pub open spec fn registry_wf(v: RegistryView) -> bool {
    &&& forall|i: int| 0 <= i < v.offers.len() ==> (#[trigger] v.offers[i]).id == i + 1
    &&& issuer_wf(v.issuer)
    &&& v.issuer.registry == v.id
}

/// Whether `proof` authorizes minting an offer: manager, admin or owner
/// authority of this registry.
pub open spec fn may_send(proof: BadgeView, registry: u64) -> bool {
    &&& proof.registry == registry
    &&& (proof.role is Manager || proof.role is Admin || proof.role is Owner)
}

/// Whether `proof` is customer authority of this registry, as accept and
/// refuse demand.
pub open spec fn may_resolve(proof: BadgeView, registry: u64) -> bool {
    proof.registry == registry && proof.role is Customer
}

/// Whether `token` names an offer this registry minted.
pub open spec fn holds_offer(token: OfferTokenView, v: RegistryView) -> bool {
    token.registry == v.id && 1 <= token.id <= v.offers.len()
}

/// The record a valid token names.
pub open spec fn offer_of(v: RegistryView, token: OfferTokenView) -> OfferRecord {
    v.offers[token.id - 1]
}

/// Whether a record may still be resolved at ledger time `now`: it is
/// pending and the time is not past the expiry threshold (the threshold
/// itself is still valid). Accept and refuse apply this guard identically.
pub open spec fn resolvable(r: OfferRecord, now: u64) -> bool {
    r.resolution is Pending && now <= r.expiry_threshold
}

/// The record after acceptance at time `now`: only the resolution moves.
pub open spec fn accepted(r: OfferRecord, now: u64) -> OfferRecord {
    OfferRecord { resolution: Resolution::Accepted { at: now }, ..r }
}

/// The record after refusal at time `now`: only the resolution moves.
pub open spec fn refused(r: OfferRecord, now: u64) -> OfferRecord {
    OfferRecord { resolution: Resolution::Refused { at: now }, ..r }
}

/// The record resolved at time `now` in the direction `kind` names.
pub open spec fn resolved(r: OfferRecord, now: u64, kind: EventKind) -> OfferRecord {
    match kind {
        EventKind::Accepted => accepted(r, now),
        EventKind::Refused => refused(r, now),
    }
}

/// The offer registry component.
pub struct Registry {
    id: u64,
    offers: Vec<OfferRecord>,
    events: Vec<OfferEvent>,
    issuer: BadgeIssuer,
}

impl View for Registry {
    type V = RegistryView;

    closed spec fn view(&self) -> RegistryView {
        RegistryView {
            id: self.id,
            offers: self.offers@,
            events: self.events@,
            issuer: self.issuer@,
        }
    }
}

impl Registry {
    /// Bootstraps a registry under the identifier the host ledger
    /// allocated for it, returning the component together with the owner
    /// and admin capabilities that gate everything else.
    pub fn instantiate(id: u64) -> (r: (Registry, Badge, Badge))
        ensures
            registry_wf(r.0@),
            r.0@ == (RegistryView {
                id,
                offers: Seq::<OfferRecord>::empty(),
                events: Seq::<OfferEvent>::empty(),
                issuer: BadgeIssuerView {
                    registry: id,
                    manager_keys: Seq::<u64>::empty(),
                    customer_keys: Seq::<u64>::empty(),
                },
            }),
            r.1@ == (BadgeView {
                registry: id,
                role: Role::Owner,
                key: 1,
                display_name: Seq::<char>::empty(),
            }),
            r.2@ == (BadgeView {
                registry: id,
                role: Role::Admin,
                key: 1,
                display_name: Seq::<char>::empty(),
            }),
    {
        let registry = Registry {
            id,
            offers: Vec::new(),
            events: Vec::new(),
            issuer: BadgeIssuer::new(id),
        };
        let owner = bootstrap_badge(id, Role::Owner, String::new());
        let admin = bootstrap_badge(id, Role::Admin, String::new());
        (registry, owner, admin)
    }

    /// Mints one offer record in state pending and returns its token.
    ///
    /// Requires manager, admin or owner authority. Each call mints an
    /// independent record, even for an identical content hash. Handing the
    /// token on to `recipient_hint` is the caller's business, not enforced
    /// here.
    pub fn send_offer(
        &mut self,
        proof: &Badge,
        content_hash: String,
        expiry_threshold: u64,
        amount: u128,
        recipient_hint: u64,
        now: u64,
    ) -> (r: Result<OfferToken, OfferError>)
        requires
            registry_wf(old(self)@),
            old(self)@.offers.len() < u64::MAX,
        ensures
            registry_wf(final(self)@),
            r is Ok <==> may_send(proof@, old(self)@.id),
            r is Err ==> final(self)@ == old(self)@ && r->Err_0 == OfferError::Unauthorized,
            r is Ok ==> {
                &&& r->Ok_0@ == (OfferTokenView {
                    registry: old(self)@.id,
                    id: (old(self)@.offers.len() + 1) as u64,
                })
                &&& final(self)@ == (RegistryView {
                    offers: old(self)@.offers.push(
                        OfferRecord {
                            id: (old(self)@.offers.len() + 1) as u64,
                            content_hash,
                            expiry_threshold,
                            amount,
                            created_at: now,
                            resolution: Resolution::Pending,
                        },
                    ),
                    ..old(self)@
                })
            },
    {
        let role = proof.role();
        let authorized = role == Role::Manager || role == Role::Admin || role == Role::Owner;
        if proof.registry() != self.id || !authorized {
            return Err(OfferError::Unauthorized);
        }
        let _ = recipient_hint;
        let id = self.offers.len() as u64 + 1;
        let record = OfferRecord {
            id,
            content_hash,
            expiry_threshold,
            amount,
            created_at: now,
            resolution: Resolution::Pending,
        };
        self.offers.push(record);
        proof {
            assert forall|i: int| 0 <= i < self@.offers.len() implies (#[trigger] self@
                .offers[i]).id == i + 1 by {
                if i < old(self)@.offers.len() {
                    assert(old(self)@.offers[i].id == i + 1);
                }
            }
            assert(self@ =~= (RegistryView {
                offers: old(self)@.offers.push(
                    OfferRecord {
                        id: (old(self)@.offers.len() + 1) as u64,
                        content_hash,
                        expiry_threshold,
                        amount,
                        created_at: now,
                        resolution: Resolution::Pending,
                    },
                ),
                ..old(self)@
            }));
        }
        Ok(OfferToken { registry: self.id, id })
    }

    /// The shared transition behind accept and refuse: same authority,
    /// same guards in the same order; only the terminal direction and the
    /// emitted notification differ. The single authorized mutation touches
    /// the resolution field alone, never the whole record.
    fn resolve_offer(
        &mut self,
        proof: &Badge,
        offer: &OfferToken,
        now: u64,
        kind: EventKind,
    ) -> (r: Result<(), OfferError>)
        requires
            registry_wf(old(self)@),
        ensures
            registry_wf(final(self)@),
            r is Ok <==> {
                &&& may_resolve(proof@, old(self)@.id)
                &&& holds_offer(offer@, old(self)@)
                &&& resolvable(offer_of(old(self)@, offer@), now)
            },
            r is Err ==> final(self)@ == old(self)@,
            !(may_resolve(proof@, old(self)@.id) && holds_offer(offer@, old(self)@)) ==> r
                == Err::<(), OfferError>(OfferError::Unauthorized),
            may_resolve(proof@, old(self)@.id) && holds_offer(offer@, old(self)@) && !(offer_of(
                old(self)@,
                offer@,
            ).resolution is Pending) ==> r == Err::<(), OfferError>(OfferError::AlreadyResolved),
            may_resolve(proof@, old(self)@.id) && holds_offer(offer@, old(self)@) && offer_of(
                old(self)@,
                offer@,
            ).resolution is Pending && now > offer_of(old(self)@, offer@).expiry_threshold ==> r
                == Err::<(), OfferError>(OfferError::Expired),
            r is Ok ==> final(self)@ == (RegistryView {
                offers: old(self)@.offers.update(
                    offer@.id - 1,
                    resolved(offer_of(old(self)@, offer@), now, kind),
                ),
                events: old(self)@.events.push(
                    OfferEvent {
                        kind,
                        snapshot: resolved(offer_of(old(self)@, offer@), now, kind),
                        resolved_at: now,
                    },
                ),
                ..old(self)@
            }),
    {
        if proof.registry() != self.id || proof.role() != Role::Customer {
            return Err(OfferError::Unauthorized);
        }
        let oid = offer.id;
        if offer.registry != self.id || oid < 1 || oid > self.offers.len() as u64 {
            return Err(OfferError::Unauthorized);
        }
        let idx = (oid - 1) as usize;
        match self.offers[idx].resolution {
            Resolution::Pending => {},
            _ => {
                return Err(OfferError::AlreadyResolved);
            },
        }
        if now > self.offers[idx].expiry_threshold {
            return Err(OfferError::Expired);
        }
        self.offers[idx].resolution = match kind {
            EventKind::Accepted => Resolution::Accepted { at: now },
            EventKind::Refused => Resolution::Refused { at: now },
        };
        let snapshot = OfferRecord {
            id: self.offers[idx].id,
            content_hash: self.offers[idx].content_hash.clone(),
            expiry_threshold: self.offers[idx].expiry_threshold,
            amount: self.offers[idx].amount,
            created_at: self.offers[idx].created_at,
            resolution: self.offers[idx].resolution,
        };
        proof {
            assert(self@.offers[oid - 1] =~= resolved(offer_of(old(self)@, offer@), now, kind));
        }
        self.events.push(OfferEvent { kind, snapshot, resolved_at: now });
        proof {
            assert forall|i: int| 0 <= i < self@.offers.len() implies (#[trigger] self@
                .offers[i]).id == i + 1 by {
                assert(old(self)@.offers[i].id == i + 1);
            }
            assert(self@ =~= (RegistryView {
                offers: old(self)@.offers.update(
                    offer@.id - 1,
                    resolved(offer_of(old(self)@, offer@), now, kind),
                ),
                events: old(self)@.events.push(
                    OfferEvent {
                        kind,
                        snapshot: resolved(offer_of(old(self)@, offer@), now, kind),
                        resolved_at: now,
                    },
                ),
                ..old(self)@
            }));
        }
        Ok(())
    }

    /// Accepts the offer named by `offer`, at ledger time `now`.
    ///
    /// Requires customer authority plus the offer's own token: proof of
    /// exclusive possession of the specific asset being resolved. The
    /// record must still be pending, and `now` must not be past the expiry
    /// threshold. On success only the resolution field of the record
    /// moves, and one `Accepted` event is appended; any failure leaves the
    /// registry exactly as it was.
    pub fn accept_offer(&mut self, proof: &Badge, offer: &OfferToken, now: u64) -> (r: Result<
        (),
        OfferError,
    >)
        requires
            registry_wf(old(self)@),
        ensures
            registry_wf(final(self)@),
            r is Ok <==> {
                &&& may_resolve(proof@, old(self)@.id)
                &&& holds_offer(offer@, old(self)@)
                &&& resolvable(offer_of(old(self)@, offer@), now)
            },
            r is Err ==> final(self)@ == old(self)@,
            !(may_resolve(proof@, old(self)@.id) && holds_offer(offer@, old(self)@)) ==> r
                == Err::<(), OfferError>(OfferError::Unauthorized),
            may_resolve(proof@, old(self)@.id) && holds_offer(offer@, old(self)@) && !(offer_of(
                old(self)@,
                offer@,
            ).resolution is Pending) ==> r == Err::<(), OfferError>(OfferError::AlreadyResolved),
            may_resolve(proof@, old(self)@.id) && holds_offer(offer@, old(self)@) && offer_of(
                old(self)@,
                offer@,
            ).resolution is Pending && now > offer_of(old(self)@, offer@).expiry_threshold ==> r
                == Err::<(), OfferError>(OfferError::Expired),
            r is Ok ==> final(self)@ == (RegistryView {
                offers: old(self)@.offers.update(
                    offer@.id - 1,
                    accepted(offer_of(old(self)@, offer@), now),
                ),
                events: old(self)@.events.push(
                    OfferEvent {
                        kind: EventKind::Accepted,
                        snapshot: accepted(offer_of(old(self)@, offer@), now),
                        resolved_at: now,
                    },
                ),
                ..old(self)@
            }),
    {
        self.resolve_offer(proof, offer, now, EventKind::Accepted)
    }

    /// Refuses the offer named by `offer`, at ledger time `now`.
    ///
    /// Symmetric to acceptance: same authority, same guards in the same
    /// order, but the record moves to refused and a `Refused` event is
    /// appended.
    pub fn refuse_offer(&mut self, proof: &Badge, offer: &OfferToken, now: u64) -> (r: Result<
        (),
        OfferError,
    >)
        requires
            registry_wf(old(self)@),
        ensures
            registry_wf(final(self)@),
            r is Ok <==> {
                &&& may_resolve(proof@, old(self)@.id)
                &&& holds_offer(offer@, old(self)@)
                &&& resolvable(offer_of(old(self)@, offer@), now)
            },
            r is Err ==> final(self)@ == old(self)@,
            !(may_resolve(proof@, old(self)@.id) && holds_offer(offer@, old(self)@)) ==> r
                == Err::<(), OfferError>(OfferError::Unauthorized),
            may_resolve(proof@, old(self)@.id) && holds_offer(offer@, old(self)@) && !(offer_of(
                old(self)@,
                offer@,
            ).resolution is Pending) ==> r == Err::<(), OfferError>(OfferError::AlreadyResolved),
            may_resolve(proof@, old(self)@.id) && holds_offer(offer@, old(self)@) && offer_of(
                old(self)@,
                offer@,
            ).resolution is Pending && now > offer_of(old(self)@, offer@).expiry_threshold ==> r
                == Err::<(), OfferError>(OfferError::Expired),
            r is Ok ==> final(self)@ == (RegistryView {
                offers: old(self)@.offers.update(
                    offer@.id - 1,
                    refused(offer_of(old(self)@, offer@), now),
                ),
                events: old(self)@.events.push(
                    OfferEvent {
                        kind: EventKind::Refused,
                        snapshot: refused(offer_of(old(self)@, offer@), now),
                        resolved_at: now,
                    },
                ),
                ..old(self)@
            }),
    {
        self.resolve_offer(proof, offer, now, EventKind::Refused)
    }

    /// The recall-and-invalidate path the design leaves open: declared,
    /// intentionally unimplemented, and it always fails without touching
    /// anything.
    pub fn cancel_offer(&mut self, offer_id: u64) -> (r: Result<(), OfferError>)
        requires
            registry_wf(old(self)@),
        ensures
            registry_wf(final(self)@),
            final(self)@ == old(self)@,
            r == Err::<(), OfferError>(OfferError::Unimplemented),
    {
        let _ = offer_id;
        Err(OfferError::Unimplemented)
    }

    /// Issues a role badge through the registry's issuer. Managers are
    /// issued under admin or owner authority, customers under admin,
    /// manager or owner authority.
    pub fn issue(&mut self, proof: &Badge, role: Role, display_name: String) -> (r: Result<
        Badge,
        OfferError,
    >)
        requires
            registry_wf(old(self)@),
            role_index(old(self)@.issuer, role).len() < u64::MAX,
        ensures
            registry_wf(final(self)@),
            final(self)@.id == old(self)@.id,
            final(self)@.offers == old(self)@.offers,
            final(self)@.events == old(self)@.events,
            r is Ok <==> may_issue(proof@, old(self)@.id, role),
            r is Ok ==> final(self)@.issuer == with_issued(old(self)@.issuer, role),
            r is Ok ==> r->Ok_0@ == (BadgeView {
                registry: old(self)@.id,
                role,
                key: (role_index(old(self)@.issuer, role).len() + 1) as u64,
                display_name: display_name@,
            }),
            r is Err ==> final(self)@ == old(self)@ && r->Err_0 == OfferError::Unauthorized,
    {
        match self.issuer.issue(proof, role, display_name) {
            Ok(badge) => Ok(badge),
            Err(BadgeError::Unauthorized) => Err(OfferError::Unauthorized),
        }
    }

    /// The number of offers minted so far.
    pub fn offer_count(&self) -> (r: usize)
        ensures
            r == self@.offers.len(),
    {
        self.offers.len()
    }

    /// The record of the offer with identifier `offer_id`, if this
    /// registry minted it.
    pub fn get_offer(&self, offer_id: u64) -> (r: Option<&OfferRecord>)
        ensures
            1 <= offer_id <= self@.offers.len() ==> r == Some(&self@.offers[offer_id - 1]),
            !(1 <= offer_id <= self@.offers.len()) ==> r is None,
    {
        if offer_id >= 1 && offer_id <= self.offers.len() as u64 {
            Some(&self.offers[(offer_id - 1) as usize])
        } else {
            None
        }
    }

    /// The resolution notifications emitted so far, in order.
    pub fn events(&self) -> (r: &Vec<OfferEvent>)
        ensures
            r@ == self@.events,
    {
        &self.events
    }
}

/// Once an offer is resolved it is final: whatever the time, neither
/// accept nor refuse can apply to it again, and a rejected call leaves the
/// record unchanged by the resolution functions' contracts.
pub proof fn law_resolved_offers_reject(r: OfferRecord, now: u64)
    requires
        !(r.resolution is Pending),
    ensures
        !resolvable(r, now),
{
}

/// Resolving a pending offer yields a record in the matching terminal
/// state, with the matching marker set to the resolution time, on which no
/// later resolution can apply.
pub proof fn law_resolution_is_terminal(r: OfferRecord, now: u64, later: u64)
    requires
        resolvable(r, now),
    ensures
        accepted(r, now).resolution == (Resolution::Accepted { at: now }),
        refused(r, now).resolution == (Resolution::Refused { at: now }),
        acceptance_marker(accepted(r, now)) == now,
        refusal_marker(refused(r, now)) == now,
        !resolvable(accepted(r, now), later),
        !resolvable(refused(r, now), later),
{
}

/// Past the expiry threshold, accept and refuse both reject, whatever the
/// stored state of the record.
pub proof fn law_expired_offers_reject(r: OfferRecord, now: u64)
    requires
        now > r.expiry_threshold,
    ensures
        !resolvable(r, now),
{
}

/// At most one of the two resolution markers is ever set: an offer cannot
/// carry both an acceptance and a refusal.
pub proof fn law_at_most_one_marker(r: OfferRecord)
    ensures
        acceptance_marker(r) == 0 || refusal_marker(r) == 0,
{
}

} // verus!
