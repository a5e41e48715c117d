//! Models of the ledger's asset containers.
//!
//! A resource type is identified by a plain address (`u64`); a fungible
//! quantity is an exact non-negative amount (`u128`, no rounding); a
//! non-fungible holding is a sequence of distinct local identifiers.
//! Buckets are values in flight between components; vaults are values at
//! rest, owned by exactly one component. None of these types is `Clone`:
//! a holding moves, it is never duplicated.

use vstd::prelude::*;

verus! {

/// Mathematical content of a [`Bucket`].
pub struct BucketView {
    pub resource: u64,
    pub amount: u128,
}

/// A transient container holding an exact amount of one fungible resource.
pub struct Bucket {
    resource: u64,
    amount: u128,
}

impl View for Bucket {
    type V = BucketView;

    closed spec fn view(&self) -> BucketView {
        BucketView { resource: self.resource, amount: self.amount }
    }
}

impl Bucket {
    /// Mints a bucket; stands for the host ledger handing a fungible
    /// holding to a call.
    pub fn new(resource: u64, amount: u128) -> (r: Bucket)
        ensures
            r@ == (BucketView { resource, amount }),
    {
        Bucket { resource, amount }
    }

    /// The address of the resource this bucket holds.
    pub fn resource_address(&self) -> (r: u64)
        ensures
            r == self@.resource,
    {
        self.resource
    }

    /// The amount held.
    pub fn amount(&self) -> (r: u128)
        ensures
            r == self@.amount,
    {
        self.amount
    }

    /// Splits `take_amount` out of this bucket, leaving the rest behind.
    pub fn take(&mut self, take_amount: u128) -> (r: Bucket)
        requires
            take_amount <= old(self)@.amount,
        ensures
            r@ == (BucketView { resource: old(self)@.resource, amount: take_amount }),
            final(self)@ == (BucketView {
                resource: old(self)@.resource,
                amount: (old(self)@.amount - take_amount) as u128,
            }),
    {
        self.amount = self.amount - take_amount;
        Bucket { resource: self.resource, amount: take_amount }
    }
}

/// Mathematical content of a [`NonFungibleBucket`].
pub struct NonFungibleBucketView {
    pub resource: u64,
    pub ids: Seq<u64>,
}

/// A transient container holding distinct non-fungible units of one resource.
pub struct NonFungibleBucket {
    resource: u64,
    ids: Vec<u64>,
}

impl View for NonFungibleBucket {
    type V = NonFungibleBucketView;

    closed spec fn view(&self) -> NonFungibleBucketView {
        NonFungibleBucketView { resource: self.resource, ids: self.ids@ }
    }
}

impl NonFungibleBucket {
    /// Mints a non-fungible bucket; stands for the host ledger handing a
    /// non-fungible holding to a call. The local identifiers must be
    /// distinct: each names one unique unit.
    pub fn new(resource: u64, ids: Vec<u64>) -> (r: NonFungibleBucket)
        requires
            ids@.no_duplicates(),
        ensures
            r@ == (NonFungibleBucketView { resource, ids: ids@ }),
    {
        NonFungibleBucket { resource, ids }
    }

    /// The address of the resource this bucket holds units of.
    pub fn resource_address(&self) -> (r: u64)
        ensures
            r == self@.resource,
    {
        self.resource
    }

    /// How many units the bucket holds.
    pub fn len(&self) -> (r: usize)
        ensures
            r == self@.ids.len(),
    {
        self.ids.len()
    }

    /// The local identifier of the unit at position `i`.
    pub fn id_at(&self, i: usize) -> (r: u64)
        requires
            i < self@.ids.len(),
        ensures
            r == self@.ids[i as int],
    {
        self.ids[i]
    }
}

/// Mathematical content of a [`Vault`].
pub struct VaultView {
    pub resource: u64,
    pub amount: u128,
}

/// A resting container for one fungible resource, owned by one component.
pub struct Vault {
    resource: u64,
    amount: u128,
}

impl View for Vault {
    type V = VaultView;

    closed spec fn view(&self) -> VaultView {
        VaultView { resource: self.resource, amount: self.amount }
    }
}

impl Vault {
    /// An empty vault for the given resource.
    pub fn new(resource: u64) -> (r: Vault)
        ensures
            r@ == (VaultView { resource, amount: 0 }),
    {
        Vault { resource, amount: 0 }
    }

    /// The amount at rest in the vault.
    pub fn amount(&self) -> (r: u128)
        ensures
            r == self@.amount,
    {
        self.amount
    }

    /// Whether the vault holds nothing.
    pub fn is_empty(&self) -> (r: bool)
        ensures
            r == (self@.amount == 0),
    {
        self.amount == 0
    }

    /// Deposits a whole bucket of the vault's own resource.
    pub fn put(&mut self, bucket: Bucket)
        requires
            bucket@.resource == old(self)@.resource,
            old(self)@.amount + bucket@.amount <= u128::MAX,
        ensures
            final(self)@ == (VaultView {
                resource: old(self)@.resource,
                amount: (old(self)@.amount + bucket@.amount) as u128,
            }),
    {
        self.amount = self.amount + bucket.amount();
    }

    /// Empties the vault into a fresh bucket.
    pub fn take_all(&mut self) -> (r: Bucket)
        ensures
            r@ == (BucketView { resource: old(self)@.resource, amount: old(self)@.amount }),
            final(self)@ == (VaultView { resource: old(self)@.resource, amount: 0 }),
    {
        let out = Bucket { resource: self.resource, amount: self.amount };
        self.amount = 0;
        out
    }
}

/// Mathematical content of a [`NonFungibleVault`].
pub struct NonFungibleVaultView {
    pub resource: u64,
    pub ids: Seq<u64>,
}

/// A resting container for non-fungible units of one resource.
pub struct NonFungibleVault {
    resource: u64,
    ids: Vec<u64>,
}

impl View for NonFungibleVault {
    type V = NonFungibleVaultView;

    closed spec fn view(&self) -> NonFungibleVaultView {
        NonFungibleVaultView { resource: self.resource, ids: self.ids@ }
    }
}

impl NonFungibleVault {
    /// A vault seeded with the whole contents of a non-fungible bucket.
    pub fn with_bucket(bucket: NonFungibleBucket) -> (r: NonFungibleVault)
        ensures
            r@ == (NonFungibleVaultView { resource: bucket@.resource, ids: bucket@.ids }),
    {
        NonFungibleVault { resource: bucket.resource, ids: bucket.ids }
    }

    /// Whether the vault holds no units.
    pub fn is_empty(&self) -> (r: bool)
        ensures
            r == (self@.ids.len() == 0),
    {
        self.ids.len() == 0
    }

    /// Empties the vault into a fresh bucket holding every unit.
    pub fn take_all(&mut self) -> (r: NonFungibleBucket)
        ensures
            r@ == (NonFungibleBucketView { resource: old(self)@.resource, ids: old(self)@.ids }),
            final(self)@ == (NonFungibleVaultView {
                resource: old(self)@.resource,
                ids: Seq::<u64>::empty(),
            }),
    {
        let mut taken: Vec<u64> = Vec::new();
        core::mem::swap(&mut taken, &mut self.ids);
        NonFungibleBucket { resource: self.resource, ids: taken }
    }
}

} // verus!
