//! The role/badge issuer.
//!
//! A badge is a uniquely-owned capability token: possession of it, not the
//! holder's identity, is what authorizes a gated operation. Each issued
//! badge of a role carries an integer key equal to the count issued for
//! that role so far plus one, so keys per role are strictly increasing and
//! never reused; the per-role index of issued keys is appended to in the
//! same atomic step that allocates the key.

use vstd::prelude::*;

verus! {

/// The authority level a badge confers.
#[derive(Clone, Copy, PartialEq, Eq, Structural, Debug)]
pub enum Role {
    Owner,
    Admin,
    Manager,
    Customer,
}

/// The issuer's only failure: the presented capability does not authorize
/// issuing the requested role.
#[derive(Clone, Copy, PartialEq, Eq, Structural, Debug)]
pub enum BadgeError {
    Unauthorized,
}

/// Mathematical content of a [`Badge`].
pub struct BadgeView {
    pub registry: u64,
    pub role: Role,
    pub key: u64,
    pub display_name: Seq<char>,
}

/// A capability token. Not `Clone`: whoever holds the value holds the
/// authority, and it cannot be duplicated.
pub struct Badge {
    registry: u64,
    role: Role,
    key: u64,
    display_name: String,
}

impl View for Badge {
    type V = BadgeView;

    closed spec fn view(&self) -> BadgeView {
        BadgeView {
            registry: self.registry,
            role: self.role,
            key: self.key,
            display_name: self.display_name@,
        }
    }
}

impl Badge {
    /// The registry this badge belongs to.
    pub fn registry(&self) -> (r: u64)
        ensures
            r == self@.registry,
    {
        self.registry
    }

    /// The role this badge confers.
    pub fn role(&self) -> (r: Role)
        ensures
            r == self@.role,
    {
        self.role
    }

    /// The badge's integer key, allocated in issuance order within its role.
    pub fn key(&self) -> (r: u64)
        ensures
            r == self@.key,
    {
        self.key
    }

    /// The display name given at issuance.
    pub fn display_name(&self) -> (r: &String)
        ensures
            r@ == self@.display_name,
    {
        &self.display_name
    }
}

/// Mints a capability that exists before any issuance: the owner and admin
/// badges handed out when a registry is bootstrapped. Used by the
/// registry's instantiation alone.
pub(crate) fn bootstrap_badge(registry: u64, role: Role, display_name: String) -> (r: Badge)
    ensures
        r@ == (BadgeView { registry, role, key: 1, display_name: display_name@ }),
{
    Badge { registry, role, key: 1, display_name }
}

/// Mathematical content of a [`BadgeIssuer`].
pub struct BadgeIssuerView {
    pub registry: u64,
    pub manager_keys: Seq<u64>,
    pub customer_keys: Seq<u64>,
}

/// The keys issued so far for a role, in issuance order. Only manager and
/// customer badges are issued after bootstrap.
pub open spec fn role_index(v: BadgeIssuerView, role: Role) -> Seq<u64> {
    match role {
        Role::Manager => v.manager_keys,
        Role::Customer => v.customer_keys,
        _ => Seq::<u64>::empty(),
    }
}

/// Whether `proof` authorizes issuing a badge of `role` for the registry
/// identified by `registry`: managers are issued under admin or owner
/// authority, customers under admin, manager or owner authority. No other
/// role can be issued.
pub open spec fn may_issue(proof: BadgeView, registry: u64, role: Role) -> bool {
    &&& proof.registry == registry
    &&& match role {
        Role::Manager => proof.role is Admin || proof.role is Owner,
        Role::Customer => proof.role is Admin || proof.role is Manager || proof.role is Owner,
        _ => false,
    }
}

/// The issuer's state after allocating one key of `role`.
pub open spec fn with_issued(v: BadgeIssuerView, role: Role) -> BadgeIssuerView {
    match role {
        Role::Manager => BadgeIssuerView {
            manager_keys: v.manager_keys.push((v.manager_keys.len() + 1) as u64),
            ..v
        },
        Role::Customer => BadgeIssuerView {
            customer_keys: v.customer_keys.push((v.customer_keys.len() + 1) as u64),
            ..v
        },
        _ => v,
    }
}

/// Each role's index records exactly the keys `1, 2, ...` in order: the
/// key appended by an issuance is always the current count plus one.
pub open spec fn issuer_wf(v: BadgeIssuerView) -> bool {
    &&& forall|i: int| 0 <= i < v.manager_keys.len() ==> #[trigger] v.manager_keys[i] == i + 1
    &&& forall|i: int| 0 <= i < v.customer_keys.len() ==> #[trigger] v.customer_keys[i] == i + 1
}

/// The leaf component that mints role badges for one registry.
pub struct BadgeIssuer {
    registry: u64,
    manager_keys: Vec<u64>,
    customer_keys: Vec<u64>,
}

impl View for BadgeIssuer {
    type V = BadgeIssuerView;

    closed spec fn view(&self) -> BadgeIssuerView {
        BadgeIssuerView {
            registry: self.registry,
            manager_keys: self.manager_keys@,
            customer_keys: self.customer_keys@,
        }
    }
}

impl BadgeIssuer {
    /// An issuer for the given registry with nothing issued yet.
    pub fn new(registry: u64) -> (r: BadgeIssuer)
        ensures
            r@ == (BadgeIssuerView {
                registry,
                manager_keys: Seq::<u64>::empty(),
                customer_keys: Seq::<u64>::empty(),
            }),
            issuer_wf(r@),
    {
        BadgeIssuer { registry, manager_keys: Vec::new(), customer_keys: Vec::new() }
    }

    /// Issues one badge of `role` under the authority of `proof`.
    ///
    /// On success the badge's key is the count issued for that role plus
    /// one, and the role's index is appended in the same step, so a failed
    /// or unauthorized attempt allocates nothing and keys are never reused.
    pub fn issue(&mut self, proof: &Badge, role: Role, display_name: String) -> (r: Result<
        Badge,
        BadgeError,
    >)
        requires
            issuer_wf(old(self)@),
            role_index(old(self)@, role).len() < u64::MAX,
        ensures
            issuer_wf(final(self)@),
            final(self)@.registry == old(self)@.registry,
            r is Ok <==> may_issue(proof@, old(self)@.registry, role),
            r is Ok ==> final(self)@ == with_issued(old(self)@, role),
            r is Ok ==> r->Ok_0@ == (BadgeView {
                registry: old(self)@.registry,
                role,
                key: (role_index(old(self)@, role).len() + 1) as u64,
                display_name: display_name@,
            }),
            r is Err ==> final(self)@ == old(self)@ && r->Err_0 == BadgeError::Unauthorized,
    {
        let authorized = match role {
            Role::Manager => proof.role() == Role::Admin || proof.role() == Role::Owner,
            Role::Customer => proof.role() == Role::Admin || proof.role() == Role::Manager
                || proof.role() == Role::Owner,
            _ => false,
        };
        if proof.registry() != self.registry || !authorized {
            return Err(BadgeError::Unauthorized);
        }
        if role == Role::Manager {
            let key = self.manager_keys.len() as u64 + 1;
            self.manager_keys.push(key);
            proof {
                assert(self@.manager_keys == old(self)@.manager_keys.push(key));
                assert(self@.customer_keys == old(self)@.customer_keys);
                assert forall|i: int| 0 <= i < self@.manager_keys.len() implies #[trigger] self@
                    .manager_keys[i] == i + 1 by {
                    if i < old(self)@.manager_keys.len() {
                        assert(old(self)@.manager_keys[i] == i + 1);
                    }
                }
                assert(issuer_wf(self@));
            }
            Ok(Badge { registry: self.registry, role, key, display_name })
        } else {
            let key = self.customer_keys.len() as u64 + 1;
            self.customer_keys.push(key);
            proof {
                assert(self@.customer_keys == old(self)@.customer_keys.push(key));
                assert(self@.manager_keys == old(self)@.manager_keys);
                assert forall|i: int| 0 <= i < self@.customer_keys.len() implies #[trigger] self@
                    .customer_keys[i] == i + 1 by {
                    if i < old(self)@.customer_keys.len() {
                        assert(old(self)@.customer_keys[i] == i + 1);
                    }
                }
                assert(issuer_wf(self@));
            }
            Ok(Badge { registry: self.registry, role, key, display_name })
        }
    }
}

/// Badge keys are strictly increasing in issuance order within a role, so
/// no key is ever repeated; and since an unauthorized attempt leaves the
/// index unchanged, this holds across failed attempts too.
pub proof fn law_badge_keys_strictly_increase(v: BadgeIssuerView, role: Role, i: int, j: int)
    requires
        issuer_wf(v),
        0 <= i < j < role_index(v, role).len(),
    ensures
        role_index(v, role)[i] < role_index(v, role)[j],
{
}

} // verus!
