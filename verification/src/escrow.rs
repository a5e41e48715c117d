//! The escrow settlement engine.
//!
//! A component holds a deposited non-fungible asset in trust against a
//! requested payment. Anyone may settle by paying at least the requested
//! amount of the requested resource: exactly that amount moves into the
//! proceeds vault, and the depositor's asset plus the change leave with the
//! payer. Settlement is one-shot and irreversible; it is gated by an
//! explicit open/settled state, so a second exchange cannot drain an
//! already-settled escrow. The escrow token minted at instantiation is the
//! bearer capability for the two closing moves: withdrawing the proceeds
//! once settled, or cancelling and reclaiming the deposit while unsettled.
//! Either move consumes (burns) the token, so it can happen once.

use vstd::prelude::*;

use crate::assets::Bucket;
use crate::assets::BucketView;
use crate::assets::NonFungibleBucket;
use crate::assets::NonFungibleBucketView;
use crate::assets::NonFungibleVault;
use crate::assets::Vault;

verus! {

/// Data carried by the escrow token: what the escrow asks for and what it
/// offers. Immutable once minted.
#[derive(Clone, Copy, PartialEq, Eq, Structural, Debug)]
pub struct EscrowData {
    /// The resource a payment must be made in.
    pub requested_resource: u64,
    /// The exact amount the escrow collects; non-negative, no rounding.
    pub requested_amount: u128,
    /// The resource of the deposited asset, recorded at creation.
    pub offered_resource: u64,
}

/// How an escrow call fails. Every failure leaves the escrow unchanged and
/// hands every asset the caller sent straight back.
#[derive(Clone, Copy, PartialEq, Eq, Structural, Debug)]
pub enum EscrowError {
    /// The escrow is no longer open: it was settled or closed, so no
    /// further exchange applies.
    NotOpen,
    /// The payment's resource differs from the requested resource.
    WrongResource,
    /// The payment amount is below the requested amount.
    InsufficientAmount,
    /// The escrow was settled; it cannot be cancelled any more.
    AlreadySettled,
}

/// Where an escrow stands in its lifecycle.
#[derive(Clone, Copy, PartialEq, Eq, Structural, Debug)]
pub enum EscrowState {
    /// Deposit in the vault, no proceeds: awaiting settlement or
    /// cancellation.
    Open,
    /// Settled: the deposit left with the payer, the proceeds await
    /// withdrawal.
    Settled,
    /// Terminal: the token was burned by a withdrawal or a cancellation
    /// and both vaults are empty.
    Closed,
}

/// Mathematical content of an [`EscrowToken`].
pub struct EscrowTokenView {
    pub resource: u64,
    pub data: EscrowData,
}

/// The token minted when an escrow is instantiated: bearer capability for
/// withdrawing or cancelling. Not `Clone`; consumed exactly once.
pub struct EscrowToken {
    resource: u64,
    data: EscrowData,
}

impl View for EscrowToken {
    type V = EscrowTokenView;

    closed spec fn view(&self) -> EscrowTokenView {
        EscrowTokenView { resource: self.resource, data: self.data }
    }
}

impl EscrowToken {
    /// The resource address of the token itself.
    pub fn resource_address(&self) -> (r: u64)
        ensures
            r == self@.resource,
    {
        self.resource
    }

    /// The escrow terms recorded on the token.
    pub fn data(&self) -> (r: EscrowData)
        ensures
            r == self@.data,
    {
        self.data
    }
}

/// Mathematical content of an escrow component.
#[verifier::ext_equal]
pub struct EscrowView {
    pub requested_resource: u64,
    pub requested_amount: u128,
    /// The deposit vault's resource, as denormalized onto the token.
    pub offered_resource: u64,
    /// The non-fungible units still in the deposit vault.
    pub deposit_ids: Seq<u64>,
    /// The amount at rest in the proceeds vault.
    pub proceeds: u128,
    /// The resource address of the escrow token.
    pub nft_resource: u64,
    pub state: EscrowState,
}

/// The vault-fill invariant: open means deposit present and no proceeds,
/// settled means exactly the requested amount collected and the deposit
/// gone, closed means both vaults empty. Deposit present and proceeds
/// present exclude each other from the first settlement on.
pub open spec fn escrow_wf(v: EscrowView) -> bool {
    match v.state {
        EscrowState::Open => v.proceeds == 0 && v.deposit_ids.len() > 0,
        EscrowState::Settled => v.proceeds == v.requested_amount && v.deposit_ids.len() == 0,
        EscrowState::Closed => v.proceeds == 0 && v.deposit_ids.len() == 0,
    }
}

/// Whether a payment settles the escrow: it is still open, the payment is
/// in the requested resource, and it tenders at least the requested
/// amount. Comparisons are exact; no tolerance.
pub open spec fn exchange_allowed(v: EscrowView, payment: BucketView) -> bool {
    &&& v.state is Open
    &&& payment.resource == v.requested_resource
    &&& payment.amount >= v.requested_amount
}

/// The escrow after a settlement: the deposit left, exactly the requested
/// amount arrived.
pub open spec fn settled(v: EscrowView) -> EscrowView {
    EscrowView {
        state: EscrowState::Settled,
        proceeds: v.requested_amount,
        deposit_ids: Seq::<u64>::empty(),
        ..v
    }
}

/// Whether the escrow may still be cancelled: nothing was collected yet.
pub open spec fn cancel_allowed(v: EscrowView) -> bool {
    v.proceeds == 0
}

/// The escrow after a cancellation: the deposit went back, the token is
/// burned, the component is terminal.
pub open spec fn cancelled(v: EscrowView) -> EscrowView {
    EscrowView { state: EscrowState::Closed, deposit_ids: Seq::<u64>::empty(), ..v }
}

/// The escrow after a settled withdrawal: the proceeds left, the token is
/// burned, the component is terminal.
pub open spec fn withdrawn(v: EscrowView) -> EscrowView {
    EscrowView { state: EscrowState::Closed, proceeds: 0, ..v }
}

/// The escrow settlement component.
pub struct Fcgsales {
    escrow_vault: NonFungibleVault,
    completed_sale: Vault,
    requested_resource: u64,
    requested_amount: u128,
    nft_resource: u64,
    state: EscrowState,
}

impl View for Fcgsales {
    type V = EscrowView;

    closed spec fn view(&self) -> EscrowView {
        EscrowView {
            requested_resource: self.requested_resource,
            requested_amount: self.requested_amount,
            offered_resource: self.escrow_vault@.resource,
            deposit_ids: self.escrow_vault@.ids,
            proceeds: self.completed_sale@.amount,
            nft_resource: self.nft_resource,
            state: self.state,
        }
    }
}

impl Fcgsales {
    /// The vault-fill invariant, plus: the proceeds vault is keyed to the
    /// requested resource, and the deposited units are distinct.
    pub closed spec fn wf(self) -> bool {
        &&& escrow_wf(self@)
        &&& self.completed_sale@.resource == self.requested_resource
        &&& self.escrow_vault@.ids.no_duplicates()
    }

    /// Creates a ready-to-use escrow holding the offered asset, together
    /// with the token that represents it.
    ///
    /// `escrow_nft_resource` is the address the host ledger allocated for
    /// the token's resource; the caller of the bootstrap supplies it. The
    /// deposit must actually contain the offered asset: at least one
    /// distinct unit.
    pub fn instantiate(
        requested_resource: u64,
        requested_amount: u128,
        offered_resource: NonFungibleBucket,
        escrow_nft_resource: u64,
    ) -> (r: (Fcgsales, EscrowToken))
        requires
            offered_resource@.ids.len() > 0,
            offered_resource@.ids.no_duplicates(),
        ensures
            r.0.wf(),
            r.0@ == (EscrowView {
                requested_resource,
                requested_amount,
                offered_resource: offered_resource@.resource,
                deposit_ids: offered_resource@.ids,
                proceeds: 0,
                nft_resource: escrow_nft_resource,
                state: EscrowState::Open,
            }),
            r.1@ == (EscrowTokenView {
                resource: escrow_nft_resource,
                data: EscrowData {
                    requested_resource,
                    requested_amount,
                    offered_resource: offered_resource@.resource,
                },
            }),
    {
        let token = EscrowToken {
            resource: escrow_nft_resource,
            data: EscrowData {
                requested_resource,
                requested_amount,
                offered_resource: offered_resource.resource_address(),
            },
        };
        let component = Fcgsales {
            escrow_vault: NonFungibleVault::with_bucket(offered_resource),
            completed_sale: Vault::new(requested_resource),
            requested_resource,
            requested_amount,
            nft_resource: escrow_nft_resource,
            state: EscrowState::Open,
        };
        (component, token)
    }

    /// Exchanges the deposited asset for a payment.
    ///
    /// Publicly callable by design: settlement is adversarial-open, any
    /// payer may complete it. The payment must be in the requested
    /// resource and tender at least the requested amount; exactly the
    /// requested amount moves into the proceeds vault, and the caller
    /// receives the whole deposited asset plus the rest of the tendered
    /// payment as change. Only an open escrow can settle: after a
    /// settlement the transition is spent, and a second exchange fails
    /// rather than drain the emptied deposit vault. On failure the
    /// payment comes straight back, untouched.
    pub fn exchange(&mut self, bucket_of_resource: Bucket) -> (r: Result<
        (NonFungibleBucket, Bucket),
        (Bucket, EscrowError),
    >)
        requires
            old(self).wf(),
        ensures
            final(self).wf(),
            final(self)@.nft_resource == old(self)@.nft_resource,
            r is Ok <==> exchange_allowed(old(self)@, bucket_of_resource@),
            r is Ok ==> {
                &&& final(self)@ == settled(old(self)@)
                &&& r->Ok_0.0@ == (NonFungibleBucketView {
                    resource: old(self)@.offered_resource,
                    ids: old(self)@.deposit_ids,
                })
                &&& r->Ok_0.1@ == (BucketView {
                    resource: bucket_of_resource@.resource,
                    amount: (bucket_of_resource@.amount - old(self)@.requested_amount) as u128,
                })
            },
            r is Err ==> final(self)@ == old(self)@ && r->Err_0.0 == bucket_of_resource,
            r is Err ==> r->Err_0.1 == if !(old(self)@.state is Open) {
                EscrowError::NotOpen
            } else if bucket_of_resource@.resource != old(self)@.requested_resource {
                EscrowError::WrongResource
            } else {
                EscrowError::InsufficientAmount
            },
    {
        if !(self.state == EscrowState::Open) {
            return Err((bucket_of_resource, EscrowError::NotOpen));
        }
        if bucket_of_resource.resource_address() != self.requested_resource {
            return Err((bucket_of_resource, EscrowError::WrongResource));
        }
        if bucket_of_resource.amount() < self.requested_amount {
            return Err((bucket_of_resource, EscrowError::InsufficientAmount));
        }
        let mut payment = bucket_of_resource;
        let exact = payment.take(self.requested_amount);
        self.completed_sale.put(exact);
        let offered = self.escrow_vault.take_all();
        self.state = EscrowState::Settled;
        proof {
            assert(self@ =~= settled(old(self)@));
        }
        Ok((offered, payment))
    }

    /// Withdraws the collected payment in exchange for the escrow token.
    ///
    /// Bearer-token authority: whoever presents the token may redeem it.
    /// If the escrow was settled, the token is burned and all proceeds
    /// come out; if not, nothing moves and the same token comes back, so
    /// the holder may retry later or cancel. No time-based expiry.
    pub fn withdraw_resource(&mut self, escrow_nft: EscrowToken) -> (r: (
        Option<Bucket>,
        Option<EscrowToken>,
    ))
        requires
            old(self).wf(),
            escrow_nft@.resource == old(self)@.nft_resource,
        ensures
            final(self).wf(),
            old(self)@.proceeds > 0 ==> {
                &&& r.0 is Some
                &&& r.0->Some_0@ == (BucketView {
                    resource: old(self)@.requested_resource,
                    amount: old(self)@.proceeds,
                })
                &&& r.1 is None
                &&& final(self)@ == withdrawn(old(self)@)
            },
            old(self)@.proceeds == 0 ==> r.0 is None && r.1 == Some(escrow_nft) && final(self)@
                == old(self)@,
    {
        if self.completed_sale.is_empty() {
            (None, Some(escrow_nft))
        } else {
            let proceeds = self.completed_sale.take_all();
            self.state = EscrowState::Closed;
            proof {
                assert(self@ =~= withdrawn(old(self)@));
            }
            (Some(proceeds), None)
        }
    }

    /// Cancels an unsettled escrow in exchange for the escrow token.
    ///
    /// Bearer-token authority, like withdrawal. If anything was already
    /// collected the escrow is settled and cannot be cancelled: the call
    /// fails, the proceeds vault stays intact and the token goes back to
    /// its holder unburned. Otherwise the token is burned and the whole
    /// deposit returns to the caller.
    pub fn cancel_escrow(&mut self, escrow_nft: EscrowToken) -> (r: Result<
        NonFungibleBucket,
        (EscrowToken, EscrowError),
    >)
        requires
            old(self).wf(),
            escrow_nft@.resource == old(self)@.nft_resource,
        ensures
            final(self).wf(),
            r is Ok <==> cancel_allowed(old(self)@),
            !cancel_allowed(old(self)@) ==> r == Err::<NonFungibleBucket, _>(
                (escrow_nft, EscrowError::AlreadySettled),
            ) && final(self)@ == old(self)@,
            cancel_allowed(old(self)@) ==> {
                &&& r is Ok
                &&& r->Ok_0@ == (NonFungibleBucketView {
                    resource: old(self)@.offered_resource,
                    ids: old(self)@.deposit_ids,
                })
                &&& final(self)@ == cancelled(old(self)@)
            },
    {
        if !self.completed_sale.is_empty() {
            return Err((escrow_nft, EscrowError::AlreadySettled));
        }
        let deposit = self.escrow_vault.take_all();
        self.state = EscrowState::Closed;
        proof {
            assert(self@ =~= cancelled(old(self)@));
        }
        Ok(deposit)
    }

    /// Checks that a resource passed in for interacting with the component
    /// is the expected one.
    pub fn assert_resource(res_addr: u64, expect_res_addr: u64) -> (r: Result<(), EscrowError>)
        ensures
            r is Ok <==> res_addr == expect_res_addr,
            r is Err ==> r->Err_0 == EscrowError::WrongResource,
    {
        if res_addr == expect_res_addr {
            Ok(())
        } else {
            Err(EscrowError::WrongResource)
        }
    }

    /// The amount at rest in the proceeds vault.
    pub fn proceeds_amount(&self) -> (r: u128)
        ensures
            r == self@.proceeds,
    {
        self.completed_sale.amount()
    }

    /// Whether the deposit vault is empty.
    pub fn deposit_is_empty(&self) -> (r: bool)
        ensures
            r == (self@.deposit_ids.len() == 0),
    {
        self.escrow_vault.is_empty()
    }

    /// Where the escrow stands in its lifecycle.
    pub fn state(&self) -> (r: EscrowState)
        ensures
            r == self@.state,
    {
        self.state
    }
}

/// Settlement is one-shot: a successful exchange leaves the deposit vault
/// empty and the escrow settled, and no second exchange can apply to the
/// settled escrow, so proceeds are never allocated twice.
pub proof fn law_exchange_settles_once(v: EscrowView, first: BucketView, second: BucketView)
    requires
        escrow_wf(v),
        exchange_allowed(v, first),
    ensures
        settled(v).deposit_ids.len() == 0,
        !exchange_allowed(settled(v), second),
{
}

/// In every reachable escrow state at most one of the two vaults is
/// filled: a deposit still present and proceeds already collected exclude
/// each other.
pub proof fn law_vaults_mutually_exclusive(v: EscrowView)
    requires
        escrow_wf(v),
    ensures
        v.deposit_ids.len() == 0 || v.proceeds == 0,
{
}

/// Before any settlement the proceeds vault is empty, so a withdrawal from
/// an open escrow returns the caller's token untouched and no proceeds, by
/// the withdrawal contract's unsettled branch.
pub proof fn law_withdraw_before_settlement(v: EscrowView)
    requires
        escrow_wf(v),
        v.state is Open,
    ensures
        v.proceeds == 0,
{
}

/// A settled escrow whose requested amount is positive holds proceeds, so
/// a cancellation after a successful exchange fails, leaving the proceeds
/// vault intact and the token with its holder, by the cancellation
/// contract's settled branch.
pub proof fn law_settled_escrow_not_cancellable(v: EscrowView, payment: BucketView)
    requires
        escrow_wf(v),
        exchange_allowed(v, payment),
        v.requested_amount > 0,
    ensures
        !cancel_allowed(settled(v)),
{
}

} // verus!
