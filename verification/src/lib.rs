//! A verified model of a two-party offer / escrow workflow on a ledger that
//! provides uniquely-owned asset containers and capability-based authority.
//!
//! Three components share one design pattern: mint a uniquely identified
//! token, gate every irreversible transition on possession of that token,
//! and keep each record's lifecycle monotonic.
//!
//! - [`assets`] models the ledger's asset containers: fungible and
//!   non-fungible buckets (values in flight) and vaults (values at rest).
//! - [`badges`] is the role/badge issuer: capability tokens with strictly
//!   increasing integer keys per role.
//! - [`registry`] is the offer registry: one record per offer, resolved at
//!   most once (accepted or refused), guarded by an expiry threshold.
//! - [`escrow`] is the escrow settlement engine: a deposited asset held in
//!   trust against a requested payment, settled or cancelled exactly once.

mod assets;
mod badges;
mod escrow;
mod registry;

pub use assets::Bucket;
pub use assets::BucketView;
pub use assets::NonFungibleBucket;
pub use assets::NonFungibleBucketView;
pub use assets::NonFungibleVault;
pub use assets::NonFungibleVaultView;
pub use assets::Vault;
pub use assets::VaultView;
pub use badges::Badge;
pub use badges::BadgeError;
pub use badges::BadgeIssuer;
pub use badges::BadgeIssuerView;
pub use badges::BadgeView;
pub use badges::Role;
pub use badges::issuer_wf;
pub use badges::law_badge_keys_strictly_increase;
pub use badges::may_issue;
pub use badges::role_index;
pub use badges::with_issued;
pub use escrow::EscrowData;
pub use escrow::EscrowError;
pub use escrow::EscrowState;
pub use escrow::EscrowToken;
pub use escrow::EscrowTokenView;
pub use escrow::EscrowView;
pub use escrow::Fcgsales;
pub use escrow::cancel_allowed;
pub use escrow::cancelled;
pub use escrow::escrow_wf;
pub use escrow::exchange_allowed;
pub use escrow::law_exchange_settles_once;
pub use escrow::law_settled_escrow_not_cancellable;
pub use escrow::law_vaults_mutually_exclusive;
pub use escrow::law_withdraw_before_settlement;
pub use escrow::settled;
pub use escrow::withdrawn;
pub use registry::EventKind;
pub use registry::OfferError;
pub use registry::OfferEvent;
pub use registry::OfferRecord;
pub use registry::OfferToken;
pub use registry::OfferTokenView;
pub use registry::Registry;
pub use registry::RegistryView;
pub use registry::Resolution;
pub use registry::acceptance_marker;
pub use registry::accepted;
pub use registry::holds_offer;
pub use registry::law_at_most_one_marker;
pub use registry::law_expired_offers_reject;
pub use registry::law_resolution_is_terminal;
pub use registry::law_resolved_offers_reject;
pub use registry::may_resolve;
pub use registry::may_send;
pub use registry::offer_of;
pub use registry::refusal_marker;
pub use registry::refused;
pub use registry::registry_wf;
pub use registry::resolvable;
pub use registry::resolved;
