//! The identity and deposit registry: device records and their lifecycle,
//! the per-owner device index, the manufacturer allow-list, and the
//! reservation of a fixed deposit while a registration is active.
//!
//! The deposit model mirrors the external reservable-currency collaborator:
//! each account has a spendable (`free`) and a reserved amount; registering
//! moves the deposit from free to reserved, revoking moves it back.

use vstd::prelude::*;

use crate::base::Origin;
use crate::base::appended;
use crate::base::bytes_eq;
use crate::base::clone_bytes;
use crate::kv::KvMap;

verus! {

/// A registered device may hold at most this many entries in its owner's
/// device index.
pub const MAX_DEVICES_PER_OWNER: u32 = 100;

/// Registry parameters.
#[derive(Clone, Copy, PartialEq, Eq, Structural, Debug)]
pub struct Config {
    /// Amount reserved from the caller's spendable balance per registration.
    pub registration_deposit: u128,
    /// Longest accepted metadata string.
    pub max_metadata_length: u32,
}

/// Lifecycle state of a device record.
#[derive(Clone, Copy, PartialEq, Eq, Structural, Debug)]
pub enum DeviceStatus {
    Pending,
    Active,
    Suspended,
    Revoked,
}

/// A device record.
pub struct Device {
    pub owner: u64,
    pub pubkey: Vec<u8>,
    pub manufacturer: Vec<u8>,
    pub metadata_uri: Vec<u8>,
    pub status: DeviceStatus,
    pub registered_at: u64,
    pub last_telemetry: u64,
}

/// Registry failures.
#[derive(Clone, Copy, PartialEq, Eq, Structural, Debug)]
pub enum Error {
    /// The operation needs a different kind of caller.
    BadOrigin,
    DeviceAlreadyExists,
    DeviceNotFound,
    NotDeviceOwner,
    ManufacturerNotWhitelisted,
    MetadataTooLong,
    InvalidPublicKey,
    InsufficientBalance,
    /// The owner's device index is full.
    CapacityExceeded,
}

/// Registry events; each successful operation appends exactly one.
#[derive(PartialEq, Eq, Debug)]
pub enum Event {
    DeviceRegistered { device_id: Vec<u8>, owner: u64 },
    DeviceStatusChanged { device_id: Vec<u8>, status: DeviceStatus },
    DeviceRevoked { device_id: Vec<u8> },
    ManufacturerWhitelisted { manufacturer: Vec<u8> },
    MetadataUpdated { device_id: Vec<u8> },
}

/// The registry state.
pub struct Pallet {
    pub config: Config,
    pub devices: KvMap<Vec<u8>, Device>,
    pub owner_index: KvMap<u64, Vec<Vec<u8>>>,
    pub whitelist: KvMap<Vec<u8>, bool>,
    pub free: KvMap<u64, u128>,
    pub reserved: KvMap<u64, u128>,
    pub events: Vec<Event>,
}

impl Pallet {
    pub open spec fn wf(self) -> bool {
        &&& self.devices.wf()
        &&& self.owner_index.wf()
        &&& self.whitelist.wf()
        &&& self.free.wf()
        &&& self.reserved.wf()
    }

    /// The device record stored under identity key `id`, if any.
    pub open spec fn device_of(self, id: Seq<u8>) -> Option<Device> {
        self.devices.val_of(id)
    }

    pub open spec fn has_device(self, id: Seq<u8>) -> bool {
        self.devices.has(id)
    }

    /// Whether `m` is an allow-listed manufacturer.
    pub open spec fn whitelisted(self, m: Seq<u8>) -> bool {
        self.whitelist.val_of(m) == Some(true)
    }

    /// The identity keys recorded in `who`'s device index.
    pub open spec fn owner_ids(self, who: u64) -> Seq<Vec<u8>> {
        match self.owner_index.val_of(who) {
            Some(v) => v@,
            None => Seq::empty(),
        }
    }

    /// The spendable balance of `a` in the deposit currency.
    pub open spec fn free_of(self, a: u64) -> u128 {
        match self.free.val_of(a) {
            Some(v) => v,
            None => 0,
        }
    }

    /// The reserved balance of `a` in the deposit currency.
    pub open spec fn reserved_of(self, a: u64) -> u128 {
        match self.reserved.val_of(a) {
            Some(v) => v,
            None => 0,
        }
    }

    /// The error `register_device` reports, if any, in check order.
    pub open spec fn register_err(
        self,
        origin: Origin,
        device_id: Seq<u8>,
        pubkey: Seq<u8>,
        manufacturer: Seq<u8>,
        metadata_uri: Seq<u8>,
    ) -> Option<Error> {
        match origin {
            Origin::Root => Some(Error::BadOrigin),
            Origin::Signed(who) => if self.has_device(device_id) {
                Some(Error::DeviceAlreadyExists)
            } else if !self.whitelisted(manufacturer) {
                Some(Error::ManufacturerNotWhitelisted)
            } else if metadata_uri.len() > self.config.max_metadata_length {
                Some(Error::MetadataTooLong)
            } else if pubkey.len() != 32 {
                Some(Error::InvalidPublicKey)
            } else if self.free_of(who) < self.config.registration_deposit || self.reserved_of(who)
                + self.config.registration_deposit > u128::MAX {
                Some(Error::InsufficientBalance)
            } else if self.owner_ids(who).len() >= MAX_DEVICES_PER_OWNER {
                Some(Error::CapacityExceeded)
            } else {
                None
            },
        }
    }

    pub fn new(config: Config) -> (r: Pallet)
        ensures
            r.wf(),
            r.config == config,
            forall|id: Seq<u8>| !r.has_device(id),
            forall|m: Seq<u8>| !r.whitelisted(m),
            forall|a: u64| r.free_of(a) == 0 && r.reserved_of(a) == 0,
            forall|a: u64| r.owner_ids(a) == Seq::<Vec<u8>>::empty(),
            r.events@ == Seq::<Event>::empty(),
    {
        let r = Pallet {
            config,
            devices: KvMap::new(),
            owner_index: KvMap::new(),
            whitelist: KvMap::new(),
            free: KvMap::new(),
            reserved: KvMap::new(),
            events: Vec::new(),
        };
        proof {
            assert(r.events@ =~= Seq::<Event>::empty());
        }
        r
    }

    /// Endows `who` with a spendable deposit-currency balance; this models
    /// the genesis configuration of the external currency.
    pub fn set_free_balance(&mut self, who: u64, amount: u128)
        requires
            old(self).wf(),
        ensures
            final(self).wf(),
            final(self).free_of(who) == amount,
            forall|a: u64| a != who ==> #[trigger] final(self).free_of(a) == old(self).free_of(a),
            final(self).devices == old(self).devices,
            final(self).owner_index == old(self).owner_index,
            final(self).whitelist == old(self).whitelist,
            final(self).reserved == old(self).reserved,
            final(self).events == old(self).events,
            final(self).config == old(self).config,
    {
        self.free.set(who, amount);
    }

    pub fn free_balance_of(&self, a: u64) -> (r: u128)
        requires
            self.wf(),
        ensures
            r == self.free_of(a),
    {
        match self.free.get(&a) {
            Some(v) => *v,
            None => 0,
        }
    }

    pub fn reserved_balance_of(&self, a: u64) -> (r: u128)
        requires
            self.wf(),
        ensures
            r == self.reserved_of(a),
    {
        match self.reserved.get(&a) {
            Some(v) => *v,
            None => 0,
        }
    }

    pub fn device(&self, id: &Vec<u8>) -> (r: Option<&Device>)
        requires
            self.wf(),
        ensures
            (match r {
                Some(d) => self.device_of(id@) == Some(*d),
                None => !self.has_device(id@),
            }),
    {
        self.devices.get(id)
    }

    pub fn is_whitelisted(&self, m: &Vec<u8>) -> (r: bool)
        requires
            self.wf(),
        ensures
            r == self.whitelisted(m@),
    {
        match self.whitelist.get(m) {
            Some(b) => *b,
            None => false,
        }
    }

    pub fn device_count_of(&self, who: u64) -> (r: usize)
        requires
            self.wf(),
        ensures
            r == self.owner_ids(who).len(),
    {
        match self.owner_index.get(&who) {
            Some(v) => v.len(),
            None => 0,
        }
    }

    /// Registers a new device for the signed caller: reserves the deposit,
    /// stores the record with status `Pending`, and appends the identity key
    /// to the caller's device index.
    pub fn register_device(
        &mut self,
        origin: Origin,
        device_id: Vec<u8>,
        pubkey: Vec<u8>,
        manufacturer: Vec<u8>,
        metadata_uri: Vec<u8>,
        now: u64,
    ) -> (r: Result<(), Error>)
        requires
            old(self).wf(),
        ensures
            final(self).wf(),
            (match r {
                Ok(_) => {
                    &&& old(self).register_err(
                        origin,
                        device_id@,
                        pubkey@,
                        manufacturer@,
                        metadata_uri@,
                    ) is None
                    &&& origin matches Origin::Signed(who) && register_post(
                        *old(self),
                        *final(self),
                        who,
                        device_id@,
                        pubkey@,
                        manufacturer@,
                        metadata_uri@,
                        now,
                    )
                },
                Err(e) => {
                    &&& *final(self) == *old(self)
                    &&& old(self).register_err(
                        origin,
                        device_id@,
                        pubkey@,
                        manufacturer@,
                        metadata_uri@,
                    ) == Some(e)
                },
            }),
    {
        let who = match origin {
            Origin::Signed(w) => w,
            Origin::Root => {
                return Err(Error::BadOrigin);
            }
        };
        if self.devices.contains(&device_id) {
            return Err(Error::DeviceAlreadyExists);
        }
        if !self.is_whitelisted(&manufacturer) {
            return Err(Error::ManufacturerNotWhitelisted);
        }
        if metadata_uri.len() > self.config.max_metadata_length as usize {
            return Err(Error::MetadataTooLong);
        }
        if pubkey.len() != 32 {
            return Err(Error::InvalidPublicKey);
        }
        let dep = self.config.registration_deposit;
        let f = self.free_balance_of(who);
        if f < dep {
            return Err(Error::InsufficientBalance);
        }
        let rsv = self.reserved_balance_of(who);
        let rsv2 = match rsv.checked_add(dep) {
            Some(x) => x,
            None => {
                return Err(Error::InsufficientBalance);
            }
        };
        if self.device_count_of(who) >= MAX_DEVICES_PER_OWNER as usize {
            return Err(Error::CapacityExceeded);
        }
        // all checks passed: commit
        self.free.set(who, f - dep);
        self.reserved.set(who, rsv2);
        let key = clone_bytes(&device_id);
        let index_entry = clone_bytes(&device_id);
        let record = Device {
            owner: who,
            pubkey,
            manufacturer,
            metadata_uri,
            status: DeviceStatus::Pending,
            registered_at: now,
            last_telemetry: now,
        };
        self.devices.set(key, record);
        let mut ids: Vec<Vec<u8>> = match self.owner_index.remove_take(&who) {
            Some(kv) => kv.1,
            None => Vec::new(),
        };
        ids.push(index_entry);
        self.owner_index.set(who, ids);
        self.events.push(Event::DeviceRegistered { device_id, owner: who });
        Ok(())
    }

    /// Overwrites the status of a device owned by the signed caller.
    pub fn update_device_status(
        &mut self,
        origin: Origin,
        device_id: Vec<u8>,
        status: DeviceStatus,
    ) -> (r: Result<(), Error>)
        requires
            old(self).wf(),
        ensures
            final(self).wf(),
            (match r {
                Ok(_) => origin matches Origin::Signed(who) && {
                    &&& old(self).device_of(device_id@) matches Some(d) && d.owner == who
                        && final(self).device_of(device_id@) == (Some(
                        Device { status, ..d },
                    ))
                    &&& forall|id2: Seq<u8>|
                        id2 != device_id@ ==> #[trigger] final(self).device_of(id2) == old(
                            self,
                        ).device_of(id2)
                    &&& final(self).owner_index == old(self).owner_index
                    &&& final(self).whitelist == old(self).whitelist
                    &&& final(self).free == old(self).free
                    &&& final(self).reserved == old(self).reserved
                    &&& final(self).config == old(self).config
                    &&& appended(old(self).events@, final(self).events@)
                    &&& (final(self).events@.last() matches Event::DeviceStatusChanged {
                        device_id: d2,
                        status: s2,
                    } && d2@ == device_id@ && s2 == status)
                },
                Err(e) => {
                    &&& *final(self) == *old(self)
                    &&& (match origin {
                        Origin::Root => e == Error::BadOrigin,
                        Origin::Signed(who) => (match old(self).device_of(device_id@) {
                            None => e == Error::DeviceNotFound,
                            Some(d) => e == Error::NotDeviceOwner && d.owner != who,
                        }),
                    })
                },
            }),
    {
        let who = match origin {
            Origin::Signed(w) => w,
            Origin::Root => {
                return Err(Error::BadOrigin);
            }
        };
        let owner = match self.devices.get(&device_id) {
            Some(d) => d.owner,
            None => {
                return Err(Error::DeviceNotFound);
            }
        };
        if owner != who {
            return Err(Error::NotDeviceOwner);
        }
        let (key, mut record) = match self.devices.remove_take(&device_id) {
            Some(kv) => kv,
            None => {
                return Err(Error::DeviceNotFound);
            }
        };
        record.status = status;
        self.devices.set(key, record);
        self.events.push(Event::DeviceStatusChanged { device_id, status });
        Ok(())
    }

    /// Removes a device owned by the signed caller, drops its identity key
    /// from the caller's device index, and releases its deposit back to the
    /// caller's spendable balance.
    pub fn revoke_device(&mut self, origin: Origin, device_id: Vec<u8>) -> (r: Result<(), Error>)
        requires
            old(self).wf(),
        ensures
            final(self).wf(),
            (match r {
                Ok(_) => origin matches Origin::Signed(who) && {
                    &&& old(self).device_of(device_id@) matches Some(d) && d.owner == who
                    &&& revoke_post(*old(self), *final(self), who, device_id@)
                },
                Err(e) => {
                    &&& *final(self) == *old(self)
                    &&& (match origin {
                        Origin::Root => e == Error::BadOrigin,
                        Origin::Signed(who) => (match old(self).device_of(device_id@) {
                            None => e == Error::DeviceNotFound,
                            Some(d) => e == Error::NotDeviceOwner && d.owner != who,
                        }),
                    })
                },
            }),
    {
        let who = match origin {
            Origin::Signed(w) => w,
            Origin::Root => {
                return Err(Error::BadOrigin);
            }
        };
        let owner = match self.devices.get(&device_id) {
            Some(d) => d.owner,
            None => {
                return Err(Error::DeviceNotFound);
            }
        };
        if owner != who {
            return Err(Error::NotDeviceOwner);
        }
        let _removed = self.devices.remove_take(&device_id);
        match self.owner_index.remove_take(&who) {
            Some((owner_key, ids)) => {
                let ghost orig = ids@;
                let mut rest = ids;
                let mut kept: Vec<Vec<u8>> = Vec::new();
                proof {
                    assert(rest@ =~= orig.subrange(0, orig.len() as int));
                    assert(kept@ =~= ids_without(orig.subrange(0, 0), device_id@));
                }
                while rest.len() > 0
                    invariant
                        rest@.len() <= orig.len(),
                        rest@ == orig.subrange(
                            orig.len() - rest@.len(),
                            orig.len() as int,
                        ),
                        kept@ == ids_without(
                            orig.subrange(0, orig.len() - rest@.len()),
                            device_id@,
                        ),
                    decreases rest@.len(),
                {
                    let ghost done = orig.len() - rest@.len();
                    let entry = rest.remove(0);
                    proof {
                        assert(entry == orig[done as int]);
                        assert(rest@ =~= orig.subrange(done + 1, orig.len() as int));
                    }
                    let keep = !bytes_eq(&entry, &device_id);
                    if keep {
                        kept.push(entry);
                    }
                    proof {
                        let sub = orig.subrange(0, done + 1);
                        assert(sub.drop_last() =~= orig.subrange(0, done as int));
                        assert(sub.last() == orig[done as int]);
                    }
                }
                proof {
                    assert(orig.subrange(0, orig.len() as int) =~= orig);
                }
                self.owner_index.set(owner_key, kept);
            }
            None => {
                proof {
                    assert(ids_without(old(self).owner_ids(who), device_id@) =~= Seq::<
                        Vec<u8>,
                    >::empty());
                }
            }
        }
        let dep = self.config.registration_deposit;
        let rsv = self.reserved_balance_of(who);
        let actual = if dep <= rsv {
            dep
        } else {
            rsv
        };
        self.reserved.set(who, rsv - actual);
        let f = self.free_balance_of(who);
        self.free.set(who, f.saturating_add(actual));
        self.events.push(Event::DeviceRevoked { device_id });
        Ok(())
    }

    /// Privileged: idempotently marks a manufacturer as allow-listed.
    pub fn whitelist_manufacturer(&mut self, origin: Origin, manufacturer: Vec<u8>) -> (r: Result<
        (),
        Error,
    >)
        requires
            old(self).wf(),
        ensures
            final(self).wf(),
            (match r {
                Ok(_) => {
                    &&& origin == Origin::Root
                    &&& final(self).whitelisted(manufacturer@)
                    &&& forall|m2: Seq<u8>|
                        m2 != manufacturer@ ==> #[trigger] final(self).whitelist.val_of(m2) == old(
                            self,
                        ).whitelist.val_of(m2)
                    &&& final(self).devices == old(self).devices
                    &&& final(self).owner_index == old(self).owner_index
                    &&& final(self).free == old(self).free
                    &&& final(self).reserved == old(self).reserved
                    &&& final(self).config == old(self).config
                    &&& appended(old(self).events@, final(self).events@)
                    &&& (final(self).events@.last() matches Event::ManufacturerWhitelisted {
                        manufacturer: m,
                    } && m@ == manufacturer@)
                },
                Err(e) => *final(self) == *old(self) && e == Error::BadOrigin && origin
                    != Origin::Root,
            }),
    {
        match origin {
            Origin::Root => {}
            Origin::Signed(_) => {
                return Err(Error::BadOrigin);
            }
        }
        let key = clone_bytes(&manufacturer);
        self.whitelist.set(key, true);
        self.events.push(Event::ManufacturerWhitelisted { manufacturer });
        Ok(())
    }

    /// Records that verified telemetry arrived for `device_id` at height
    /// `now`; silently does nothing when the device is unknown. Invoked by
    /// the oracle validator as part of its atomic submission.
    pub fn touch_telemetry(&mut self, device_id: &Vec<u8>, now: u64)
        requires
            old(self).wf(),
        ensures
            final(self).wf(),
            (match old(self).device_of(device_id@) {
                Some(d) => {
                    &&& final(self).device_of(device_id@) == (Some(
                        Device { last_telemetry: now, ..d },
                    ))
                    &&& forall|id2: Seq<u8>|
                        id2 != device_id@ ==> #[trigger] final(self).device_of(id2) == old(
                            self,
                        ).device_of(id2)
                    &&& final(self).owner_index == old(self).owner_index
                    &&& final(self).whitelist == old(self).whitelist
                    &&& final(self).free == old(self).free
                    &&& final(self).reserved == old(self).reserved
                    &&& final(self).events == old(self).events
                    &&& final(self).config == old(self).config
                },
                None => *final(self) == *old(self),
            }),
    {
        match self.devices.remove_take(device_id) {
            Some((key, mut record)) => {
                record.last_telemetry = now;
                self.devices.set(key, record);
            }
            None => {}
        }
    }
}

/// `s` without every entry whose byte view is `id`; order otherwise kept.
pub open spec fn ids_without(s: Seq<Vec<u8>>, id: Seq<u8>) -> Seq<Vec<u8>>
    decreases s.len(),
{
    if s.len() == 0 {
        Seq::empty()
    } else {
        let rest = ids_without(s.drop_last(), id);
        if s.last()@ == id {
            rest
        } else {
            rest.push(s.last())
        }
    }
}

/// State relation of a successful registration by `who`.
pub open spec fn register_post(
    pre: Pallet,
    post: Pallet,
    who: u64,
    id: Seq<u8>,
    pubkey: Seq<u8>,
    manufacturer: Seq<u8>,
    metadata_uri: Seq<u8>,
    now: u64,
) -> bool {
    &&& post.config == pre.config
    &&& post.device_of(id) matches Some(d) && d.owner == who && d.pubkey@ == pubkey
        && d.manufacturer@ == manufacturer && d.metadata_uri@ == metadata_uri && d.status
        == DeviceStatus::Pending && d.registered_at == now && d.last_telemetry == now
    &&& forall|id2: Seq<u8>| id2 != id ==> #[trigger] post.device_of(id2) == pre.device_of(id2)
    &&& appended(pre.owner_ids(who), post.owner_ids(who))
    &&& post.owner_ids(who).last()@ == id
    &&& forall|a: u64| a != who ==> #[trigger] post.owner_ids(a) == pre.owner_ids(a)
    &&& post.whitelist == pre.whitelist
    &&& post.free_of(who) == pre.free_of(who) - pre.config.registration_deposit
    &&& post.reserved_of(who) == pre.reserved_of(who) + pre.config.registration_deposit
    &&& forall|a: u64|
        a != who ==> #[trigger] post.free_of(a) == pre.free_of(a) && #[trigger] post.reserved_of(a)
            == pre.reserved_of(a)
    &&& appended(pre.events@, post.events@)
    &&& (post.events@.last() matches Event::DeviceRegistered { device_id: d2, owner } && d2@ == id
        && owner == who)
}

/// State relation of a successful revocation by `who`: the record is gone,
/// its identity key leaves the owner's device index, and the deposit (as
/// far as it is still reserved) returns to the caller's spendable balance.
pub open spec fn revoke_post(pre: Pallet, post: Pallet, who: u64, id: Seq<u8>) -> bool {
    let dep = pre.config.registration_deposit;
    let actual: u128 = if dep <= pre.reserved_of(who) {
        dep
    } else {
        pre.reserved_of(who)
    };
    &&& post.config == pre.config
    &&& !post.has_device(id)
    &&& forall|id2: Seq<u8>| id2 != id ==> #[trigger] post.device_of(id2) == pre.device_of(id2)
    &&& post.owner_ids(who) == ids_without(pre.owner_ids(who), id)
    &&& forall|a: u64| a != who ==> #[trigger] post.owner_ids(a) == pre.owner_ids(a)
    &&& post.whitelist == pre.whitelist
    &&& post.reserved_of(who) == pre.reserved_of(who) - actual
    &&& post.free_of(who) == (if pre.free_of(who) + actual <= u128::MAX {
        pre.free_of(who) + actual
    } else {
        u128::MAX as int
    })
    &&& forall|a: u64|
        a != who ==> #[trigger] post.free_of(a) == pre.free_of(a) && #[trigger] post.reserved_of(a)
            == pre.reserved_of(a)
    &&& appended(pre.events@, post.events@)
    &&& (post.events@.last() matches Event::DeviceRevoked { device_id: d2 } && d2@ == id)
}

/// Deposit symmetry: a successful registration followed by a successful
/// revocation of the same device by the same caller restores the caller's
/// spendable and reserved deposit-currency balances exactly.
pub proof fn lemma_deposit_symmetry(
    s0: Pallet,
    s1: Pallet,
    s2: Pallet,
    who: u64,
    id: Seq<u8>,
    pubkey: Seq<u8>,
    manufacturer: Seq<u8>,
    metadata_uri: Seq<u8>,
    now: u64,
)
    requires
        s0.register_err(Origin::Signed(who), id, pubkey, manufacturer, metadata_uri) is None,
        register_post(s0, s1, who, id, pubkey, manufacturer, metadata_uri, now),
        revoke_post(s1, s2, who, id),
    ensures
        s2.free_of(who) == s0.free_of(who),
        s2.reserved_of(who) == s0.reserved_of(who),
{
    let dep = s0.config.registration_deposit;
    assert(s1.reserved_of(who) == s0.reserved_of(who) + dep);
    assert(s1.free_of(who) == s0.free_of(who) - dep);
    assert(s1.config.registration_deposit == dep);
    assert(dep <= s1.reserved_of(who));
    assert(s1.free_of(who) + dep <= u128::MAX);
}

} // verus!
