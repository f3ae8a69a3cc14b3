//! The tenant registry: the tenants by identifier, and the names and API
//! keys that are taken.

use std::collections::HashMap;
use vstd::prelude::*;
use vstd::std_specs::hash::*;
use vstd::std_specs::iter::IteratorSpec;
use vstd::string::*;
use crate::control_plane::errors::{ControlPlaneError, ControlPlaneResult};
use crate::control_plane::metering::UsageTracker;
use crate::control_plane::tenant::{
    Tenant,
    TenantConfig,
    TenantListItem,
    TenantStatus,
    UpdateTenantRequest,
};
use crate::ids::{uuid_text, uuid_to_string};
use crate::text::{char_count, chars_of, contains_seq, contains_text, owned, same_text};

verus! {

broadcast use vstd::std_specs::hash::group_hash_axioms;

/// Whether a character may stand in a tenant's name: a lower-case letter, a
/// digit or a hyphen.
pub open spec fn is_name_char(c: char) -> bool {
    ('a' <= c <= 'z') || ('0' <= c <= '9') || c == '-'
}

/// Why a tenant's name is refused, if it is: its length in bytes is not
/// between 3 and 63, it does not start with a lower-case letter, it holds a
/// character that may not stand in a name, it ends with a hyphen, or it
/// holds two hyphens in a row, looked at in this order.
pub open spec fn name_fault(name: Seq<char>) -> Option<Seq<char>> {
    let bytes = vstd::utf8::encode_utf8(name).len();
    if bytes < 3 || bytes > 63 {
        Some("Name must be 3-63 characters"@)
    } else if name.len() == 0 || !('a' <= name[0] <= 'z') {
        Some("Name must start with a lowercase letter"@)
    } else if exists|i: int| 0 <= i < name.len() && !is_name_char(#[trigger] name[i]) {
        Some("Name must contain only lowercase letters, numbers, and hyphens"@)
    } else if name.last() == '-' {
        Some("Name must not end with a hyphen"@)
    } else if contains_seq(name, "--"@) {
        Some("Name must not contain consecutive hyphens"@)
    } else {
        None
    }
}

/// An entry of an index from texts to tenants.
#[derive(Debug, Clone, PartialEq, Eq)]
pub struct IndexEntry {
    pub key: String,
    pub tenant_id: u128,
}

/// The tenant that an index gives for a key: that of the first entry with
/// the key.
pub open spec fn indexed(index: Seq<IndexEntry>, key: Seq<char>) -> Option<u128>
    decreases index.len(),
{
    if index.len() == 0 {
        None
    } else if index[0].key@ == key {
        Some(index[0].tenant_id)
    } else {
        indexed(index.drop_first(), key)
    }
}

/// The index without the entries of a key.
pub open spec fn unindexed(index: Seq<IndexEntry>, key: Seq<char>) -> Seq<IndexEntry> {
    index.filter(|e: IndexEntry| e.key@ != key)
}

fn lookup(index: &Vec<IndexEntry>, key: &str) -> (r: Option<u128>)
    ensures
        r == indexed(index@, key@),
{
    let mut i: usize = 0;
    assert(index@.skip(0) =~= index@);
    while i < index.len()
        invariant
            i <= index@.len(),
            indexed(index@, key@) == indexed(index@.skip(i as int), key@),
        decreases index@.len() - i,
    {
        proof {
            let rest = index@.skip(i as int);
            assert(rest[0] == index@[i as int]);
            assert(rest.drop_first() =~= index@.skip(i + 1));
        }
        if same_text(index[i].key.as_str(), key) {
            return Some(index[i].tenant_id);
        }
        i = i + 1;
    }
    None
}

fn unindex(index: &mut Vec<IndexEntry>, key: &str)
    ensures
        final(index)@ == unindexed(old(index)@, key@),
{
    let mut kept: Vec<IndexEntry> = Vec::new();
    let mut i: usize = 0;
    proof {
        assert(index@.take(0) =~= Seq::<IndexEntry>::empty());
        reveal(Seq::filter);
    }
    while i < index.len()
        invariant
            i <= index@.len(),
            index@ == old(index)@,
            kept@ == unindexed(index@.take(i as int), key@),
        decreases index@.len() - i,
    {
        proof {
            let next = index@.take(i + 1);
            assert(next.drop_last() =~= index@.take(i as int));
            assert(next.last() == index@[i as int]);
            reveal(Seq::filter);
        }
        if !same_text(index[i].key.as_str(), key) {
            kept.push(IndexEntry { key: index[i].key.clone(), tenant_id: index[i].tenant_id });
        }
        i = i + 1;
    }
    assert(index@.take(index@.len() as int) =~= index@);
    *index = kept;
}

fn copy_tenant(tenant: &Tenant) -> (r: Tenant)
    ensures
        r == *tenant,
{
    Tenant {
        tenant_id: tenant.tenant_id,
        name: tenant.name.clone(),
        plan: tenant.plan,
        region: tenant.region.clone(),
        isolation: tenant.isolation,
        status: tenant.status,
        database_url: tenant.database_url.clone(),
        api_key: tenant.api_key.clone(),
        config: match &tenant.config {
            Some(c) => Some(
                TenantConfig {
                    database_url: c.database_url.clone(),
                    port: c.port,
                    data_dir: match &c.data_dir {
                        Some(d) => Some(d.clone()),
                        None => None,
                    },
                    process_id: c.process_id,
                },
            ),
            None => None,
        },
        created_at_ms: tenant.created_at_ms,
        updated_at_ms: tenant.updated_at_ms,
        deleted_at_ms: tenant.deleted_at_ms,
    }
}

/// The error that a tenant is not known.
pub open spec fn is_not_found<T>(r: ControlPlaneResult<T>, shown: Seq<char>) -> bool {
    r is Err && r->Err_0 is TenantNotFound && r->Err_0->TenantNotFound_tenant_id@ == shown
}

/// In-memory tenant registry.
#[derive(Debug)]
pub struct TenantRegistry {
    tenants: HashMap<u128, Tenant>,
    names: Vec<IndexEntry>,
    api_keys: Vec<IndexEntry>,
    usage_tracker: UsageTracker,
}

impl TenantRegistry {
    /// The tenants by identifier, deleted ones among them.
    pub closed spec fn tenants(&self) -> Map<u128, Tenant> {
        self.tenants@
    }

    /// The names that are taken, each with its tenant.
    pub closed spec fn names(&self) -> Seq<IndexEntry> {
        self.names@
    }

    /// The API keys that are valid, each with its tenant.
    pub closed spec fn api_keys(&self) -> Seq<IndexEntry> {
        self.api_keys@
    }

    /// The usage tracker.
    pub closed spec fn tracker(&self) -> UsageTracker {
        self.usage_tracker
    }

    /// Names, keys and tracker are the same in both registries.
    pub open spec fn same_indexes(&self, other: &Self) -> bool {
        self.names() == other.names() && self.api_keys() == other.api_keys() && self.tracker()
            == other.tracker()
    }

    /// Create a new registry.
    pub fn new() -> (r: Self)
        ensures
            r.tenants() == Map::<u128, Tenant>::empty(),
            r.names() == Seq::<IndexEntry>::empty(),
            r.api_keys() == Seq::<IndexEntry>::empty(),
    {
        TenantRegistry {
            tenants: HashMap::new(),
            names: Vec::new(),
            api_keys: Vec::new(),
            usage_tracker: UsageTracker::new(),
        }
    }

    /// Create with the usage tracker given.
    pub fn with_usage_tracker(usage_tracker: UsageTracker) -> (r: Self)
        ensures
            r.tenants() == Map::<u128, Tenant>::empty(),
            r.names() == Seq::<IndexEntry>::empty(),
            r.api_keys() == Seq::<IndexEntry>::empty(),
            r.tracker() == usage_tracker,
    {
        TenantRegistry {
            tenants: HashMap::new(),
            names: Vec::new(),
            api_keys: Vec::new(),
            usage_tracker,
        }
    }

    /// Get the usage tracker.
    pub fn usage_tracker(&self) -> (r: &UsageTracker)
        ensures
            *r == self.tracker(),
    {
        &self.usage_tracker
    }

    /// The usage tracker, to record usage.
    pub fn usage_tracker_mut(&mut self) -> (r: &mut UsageTracker)
        ensures
            *r == old(self).tracker(),
            final(self).tracker() == *final(r),
            final(self).tenants() == old(self).tenants(),
            final(self).names() == old(self).names(),
            final(self).api_keys() == old(self).api_keys(),
    {
        &mut self.usage_tracker
    }

    /// Validate a tenant's name.
    pub fn validate_name(name: &str) -> (r: ControlPlaneResult<()>)
        ensures
            match name_fault(name@) {
                None => r is Ok,
                Some(reason) => r is Err && r->Err_0 is InvalidTenantName
                    && r->Err_0->InvalidTenantName_name@ == name@
                    && r->Err_0->InvalidTenantName_reason@ == reason,
            },
    {
        let bytes = name.as_bytes().len();
        if bytes < 3 || bytes > 63 {
            return Err(
                ControlPlaneError::InvalidTenantName {
                    name: owned(name),
                    reason: owned("Name must be 3-63 characters"),
                },
            );
        }
        let chars = chars_of(name);
        if chars.len() == 0 || !(chars[0] >= 'a' && chars[0] <= 'z') {
            return Err(
                ControlPlaneError::InvalidTenantName {
                    name: owned(name),
                    reason: owned("Name must start with a lowercase letter"),
                },
            );
        }
        let mut i: usize = 0;
        while i < chars.len()
            invariant
                i <= chars@.len(),
                chars@ == name@,
                3 <= bytes <= 63,
                bytes == vstd::utf8::encode_utf8(name@).len(),
                chars@.len() > 0,
                'a' <= chars@[0] <= 'z',
                forall|k: int| 0 <= k < i ==> is_name_char(#[trigger] chars@[k]),
            decreases chars@.len() - i,
        {
            let c = chars[i];
            if !((c >= 'a' && c <= 'z') || (c >= '0' && c <= '9') || c == '-') {
                assert(!is_name_char(name@[i as int]));
                return Err(
                    ControlPlaneError::InvalidTenantName {
                        name: owned(name),
                        reason: owned(
                            "Name must contain only lowercase letters, numbers, and hyphens",
                        ),
                    },
                );
            }
            i = i + 1;
        }
        if chars[chars.len() - 1] == '-' {
            return Err(
                ControlPlaneError::InvalidTenantName {
                    name: owned(name),
                    reason: owned("Name must not end with a hyphen"),
                },
            );
        }
        if contains_text(name, "--") {
            return Err(
                ControlPlaneError::InvalidTenantName {
                    name: owned(name),
                    reason: owned("Name must not contain consecutive hyphens"),
                },
            );
        }
        Ok(())
    }

    /// Check if a name is available.
    pub fn is_name_available(&self, name: &str) -> (r: bool)
        ensures
            r == indexed(self.names(), name@) is None,
    {
        lookup(&self.names, name).is_none()
    }

    /// Insert a new tenant: its name has to be valid and not taken.
    pub fn insert(&mut self, tenant: Tenant) -> (r: ControlPlaneResult<()>)
        ensures
            final(self).tracker() == old(self).tracker(),
            match name_fault(tenant.name@) {
                Some(reason) => r is Err && r->Err_0 is InvalidTenantName
                    && r->Err_0->InvalidTenantName_name@ == tenant.name@
                    && r->Err_0->InvalidTenantName_reason@ == reason && *final(self) == *old(self),
                None => if indexed(old(self).names(), tenant.name@) is Some {
                    r is Err && r->Err_0 is TenantNameExists && r->Err_0->TenantNameExists_name@
                        == tenant.name@ && *final(self) == *old(self)
                } else {
                    &&& r is Ok
                    &&& final(self).tenants() == old(self).tenants().insert(
                        tenant.tenant_id,
                        tenant,
                    )
                    &&& final(self).names() == old(self).names().push(
                        IndexEntry { key: tenant.name, tenant_id: tenant.tenant_id },
                    )
                    &&& final(self).api_keys() == old(self).api_keys().push(
                        IndexEntry { key: tenant.api_key, tenant_id: tenant.tenant_id },
                    )
                },
            },
    {
        match TenantRegistry::validate_name(tenant.name.as_str()) {
            Err(e) => {
                return Err(e);
            },
            Ok(_) => {},
        }
        if lookup(&self.names, tenant.name.as_str()).is_some() {
            return Err(ControlPlaneError::TenantNameExists { name: tenant.name.clone() });
        }
        self.names.push(IndexEntry { key: tenant.name.clone(), tenant_id: tenant.tenant_id });
        self.api_keys.push(
            IndexEntry { key: tenant.api_key.clone(), tenant_id: tenant.tenant_id },
        );
        self.tenants.insert(tenant.tenant_id, tenant);
        Ok(())
    }

    /// Get a tenant by its identifier.
    pub fn get(&self, tenant_id: u128) -> (r: ControlPlaneResult<Tenant>)
        ensures
            self.tenants().dom().contains(tenant_id) ==> r == Ok::<Tenant, ControlPlaneError>(
                self.tenants()[tenant_id],
            ),
            !self.tenants().dom().contains(tenant_id) ==> is_not_found(r, uuid_text(tenant_id)),
    {
        match self.tenants.get(&tenant_id) {
            Some(tenant) => Ok(copy_tenant(tenant)),
            None => Err(ControlPlaneError::TenantNotFound { tenant_id: uuid_to_string(tenant_id) }),
        }
    }

    /// Get a tenant by its name.
    pub fn get_by_name(&self, name: &str) -> (r: ControlPlaneResult<Tenant>)
        ensures
            match indexed(self.names(), name@) {
                None => is_not_found(r, name@),
                Some(id) => if self.tenants().dom().contains(id) {
                    r == Ok::<Tenant, ControlPlaneError>(self.tenants()[id])
                } else {
                    is_not_found(r, uuid_text(id))
                },
            },
    {
        match lookup(&self.names, name) {
            Some(id) => self.get(id),
            None => Err(ControlPlaneError::TenantNotFound { tenant_id: owned(name) }),
        }
    }

    /// Get a tenant by its API key.
    pub fn get_by_api_key(&self, api_key: &str) -> (r: ControlPlaneResult<Tenant>)
        ensures
            match indexed(self.api_keys(), api_key@) {
                None => is_not_found(r, "invalid api key"@),
                Some(id) => if self.tenants().dom().contains(id) {
                    r == Ok::<Tenant, ControlPlaneError>(self.tenants()[id])
                } else {
                    is_not_found(r, uuid_text(id))
                },
            },
    {
        match lookup(&self.api_keys, api_key) {
            Some(id) => self.get(id),
            None => Err(ControlPlaneError::TenantNotFound { tenant_id: owned("invalid api key") }),
        }
    }

    /// List all tenants that are not deleted, each once and with its usage
    /// in the month given as the current one.
    pub fn list(&self, month: &str) -> (r: Vec<TenantListItem>)
        ensures
            r@.len() == live_ids(self.tenants()).len(),
            forall|i: int|
                0 <= i < r@.len() ==> is_listed(
                    #[trigger] r@[i],
                    self.tenants(),
                    self.tracker(),
                    month@,
                ),
            forall|id: u128| #[trigger]
                live_ids(self.tenants()).contains(id) ==> is_shown(
                    r@,
                    self.tenants()[id],
                    self.tracker(),
                    month@,
                ),
    {
        let mut out: Vec<TenantListItem> = Vec::new();
        let keys = self.tenants.keys();
        let ghost all = keys.remaining();
        let ghost mut seen: Set<u128> = Set::empty();
        assert(all.unref().to_set() == self.tenants@.dom());
        for key in it: keys
            invariant
                it.seq() == all,
                all.unref().to_set() == self.tenants@.dom(),
                all.no_duplicates(),
                seen.finite(),
                out@.len() == seen.len(),
                forall|id: u128| #[trigger]
                    seen.contains(id) <==> live_ids(self.tenants@).contains(id) && exists|k: int|
                        0 <= k < it.index() && *#[trigger] all[k] == id,
                forall|i: int|
                    0 <= i < out@.len() ==> is_listed(
                        #[trigger] out@[i],
                        self.tenants@,
                        self.usage_tracker,
                        month@,
                    ),
                forall|id: u128| #[trigger]
                    seen.contains(id) ==> is_shown(
                        out@,
                        self.tenants@[id],
                        self.usage_tracker,
                        month@,
                    ),
        {
            proof {
                assert(all.unref()[it.index()] == *key);
                assert(all.unref().to_set().contains(*key));
            }
            let ghost before = out@;
            let ghost seen_before = seen;
            let ghost at = it.index();
            match self.tenants.get(key) {
                Some(tenant) => {
                    if !tenant.is_deleted() {
                        let usage = self.usage_tracker.get_current_usage(tenant.tenant_id, month);
                        let item = TenantListItem {
                            tenant_id: tenant.tenant_id,
                            name: tenant.name.clone(),
                            plan: tenant.plan,
                            status: tenant.status,
                            created_at_ms: tenant.created_at_ms,
                            storage_used: usage.storage_bytes,
                            api_requests_month: usage.api_requests,
                        };
                        out.push(item);
                        proof {
                            assert(is_item_of(
                                item,
                                self.tenants@[*key],
                                self.usage_tracker,
                                month@,
                            ));
                            assert(!seen.contains(*key)) by {
                                if seen.contains(*key) {
                                    let k = choose|k: int|
                                        0 <= k < at && *#[trigger] all[k] == *key;
                                    assert(all[k] == all[at]);
                                }
                            }
                            seen = seen.insert(*key);
                            assert(out@[before.len() as int] == item);
                            assert forall|id: u128| #[trigger]
                                seen.contains(id) implies is_shown(
                                out@,
                                self.tenants@[id],
                                self.usage_tracker,
                                month@,
                            ) by {
                                if id == *key {
                                    assert(is_item_of(
                                        out@[before.len() as int],
                                        self.tenants@[id],
                                        self.usage_tracker,
                                        month@,
                                    ));
                                } else {
                                    let i = choose|i: int|
                                        0 <= i < before.len() && is_item_of(
                                            #[trigger] before[i],
                                            self.tenants@[id],
                                            self.usage_tracker,
                                            month@,
                                        );
                                    assert(out@[i] == before[i]);
                                }
                            }
                            assert forall|i: int| 0 <= i < out@.len() implies is_listed(
                                #[trigger] out@[i],
                                self.tenants@,
                                self.usage_tracker,
                                month@,
                            ) by {
                                if i < before.len() {
                                    assert(out@[i] == before[i]);
                                }
                            }
                        }
                    }
                },
                None => {},
            }
            proof {
                assert forall|id: u128| #[trigger]
                    seen.contains(id) <==> live_ids(self.tenants@).contains(id) && exists|k: int|
                        0 <= k < at + 1 && *#[trigger] all[k] == id by {
                    if seen.contains(id) {
                        if id == *key {
                            assert(*all[at] == id);
                        } else {
                            assert(seen_before.contains(id));
                            let k = choose|k: int| 0 <= k < at && *#[trigger] all[k] == id;
                            assert(*all[k] == id);
                        }
                    }
                    if live_ids(self.tenants@).contains(id) && exists|k: int|
                        0 <= k < at + 1 && *#[trigger] all[k] == id {
                        let k = choose|k: int| 0 <= k < at + 1 && *#[trigger] all[k] == id;
                        if k < at {
                            assert(seen_before.contains(id));
                        }
                    }
                }
            }
        }
        proof {
            assert(seen =~= live_ids(self.tenants@)) by {
                assert forall|id: u128| live_ids(self.tenants@).contains(id) implies seen.contains(
                    id,
                ) by {
                    assert(all.unref().to_set().contains(id));
                    let k = choose|k: int| 0 <= k < all.unref().len() && all.unref()[k] == id;
                    assert(*all[k] == id);
                }
            }
        }
        out
    }

    fn change(&mut self, tenant_id: u128, tenant: Tenant)
        requires
            old(self).tenants().dom().contains(tenant_id),
        ensures
            final(self).same_indexes(old(self)),
            final(self).tenants() == old(self).tenants().insert(tenant_id, tenant),
    {
        self.tenants.insert(tenant_id, tenant);
    }

    /// Update a tenant's plan and status at the time given.
    pub fn update(&mut self, tenant_id: u128, update: UpdateTenantRequest, now_ms: i64) -> (r:
        ControlPlaneResult<Tenant>)
        ensures
            final(self).same_indexes(old(self)),
            !old(self).tenants().dom().contains(tenant_id) ==> is_not_found(
                r,
                uuid_text(tenant_id),
            ) && final(self).tenants() == old(self).tenants(),
            old(self).tenants().dom().contains(tenant_id) ==> {
                &&& r is Ok
                &&& r->Ok_0 == (Tenant {
                    plan: match update.plan {
                        Some(p) => p,
                        None => old(self).tenants()[tenant_id].plan,
                    },
                    status: match update.status {
                        Some(s) => s,
                        None => old(self).tenants()[tenant_id].status,
                    },
                    updated_at_ms: now_ms,
                    ..old(self).tenants()[tenant_id]
                })
                &&& final(self).tenants() == old(self).tenants().insert(tenant_id, r->Ok_0)
            },
    {
        let mut tenant = match self.tenants.get(&tenant_id) {
            Some(t) => copy_tenant(t),
            None => {
                return Err(
                    ControlPlaneError::TenantNotFound { tenant_id: uuid_to_string(tenant_id) },
                );
            },
        };
        match update.plan {
            Some(plan) => {
                tenant.plan = plan;
            },
            None => {},
        }
        match update.status {
            Some(status) => {
                tenant.status = status;
            },
            None => {},
        }
        tenant.updated_at_ms = now_ms;
        let copy = copy_tenant(&tenant);
        self.change(tenant_id, tenant);
        Ok(copy)
    }

    /// Delete a tenant: it is marked as deleted, and its name and its API
    /// key become free.
    pub fn delete(&mut self, tenant_id: u128, now_ms: i64) -> (r: ControlPlaneResult<()>)
        ensures
            final(self).tracker() == old(self).tracker(),
            !old(self).tenants().dom().contains(tenant_id) ==> is_not_found(
                r,
                uuid_text(tenant_id),
            ) && *final(self) == *old(self),
            old(self).tenants().dom().contains(tenant_id) ==> {
                &&& r is Ok
                &&& final(self).tenants() == old(self).tenants().insert(
                    tenant_id,
                    Tenant {
                        status: TenantStatus::Deleted,
                        deleted_at_ms: Some(now_ms),
                        updated_at_ms: now_ms,
                        ..old(self).tenants()[tenant_id]
                    },
                )
                &&& final(self).names() == unindexed(
                    old(self).names(),
                    old(self).tenants()[tenant_id].name@,
                )
                &&& final(self).api_keys() == unindexed(
                    old(self).api_keys(),
                    old(self).tenants()[tenant_id].api_key@,
                )
            },
    {
        let mut tenant = match self.tenants.get(&tenant_id) {
            Some(t) => copy_tenant(t),
            None => {
                return Err(
                    ControlPlaneError::TenantNotFound { tenant_id: uuid_to_string(tenant_id) },
                );
            },
        };
        tenant.mark_deleted(now_ms);
        unindex(&mut self.names, tenant.name.as_str());
        unindex(&mut self.api_keys, tenant.api_key.as_str());
        self.tenants.insert(tenant_id, tenant);
        Ok(())
    }

    /// Activate a tenant.
    pub fn activate(&mut self, tenant_id: u128, now_ms: i64) -> (r: ControlPlaneResult<()>)
        ensures
            final(self).same_indexes(old(self)),
            !old(self).tenants().dom().contains(tenant_id) ==> is_not_found(
                r,
                uuid_text(tenant_id),
            ) && final(self).tenants() == old(self).tenants(),
            old(self).tenants().dom().contains(tenant_id) ==> r is Ok && final(self).tenants()
                == old(self).tenants().insert(
                tenant_id,
                Tenant {
                    status: TenantStatus::Active,
                    updated_at_ms: now_ms,
                    ..old(self).tenants()[tenant_id]
                },
            ),
    {
        let mut tenant = match self.tenants.get(&tenant_id) {
            Some(t) => copy_tenant(t),
            None => {
                return Err(
                    ControlPlaneError::TenantNotFound { tenant_id: uuid_to_string(tenant_id) },
                );
            },
        };
        tenant.activate(now_ms);
        self.change(tenant_id, tenant);
        Ok(())
    }

    /// Suspend a tenant.
    pub fn suspend(&mut self, tenant_id: u128, now_ms: i64) -> (r: ControlPlaneResult<()>)
        ensures
            final(self).same_indexes(old(self)),
            !old(self).tenants().dom().contains(tenant_id) ==> is_not_found(
                r,
                uuid_text(tenant_id),
            ) && final(self).tenants() == old(self).tenants(),
            old(self).tenants().dom().contains(tenant_id) ==> r is Ok && final(self).tenants()
                == old(self).tenants().insert(
                tenant_id,
                Tenant {
                    status: TenantStatus::Suspended,
                    updated_at_ms: now_ms,
                    ..old(self).tenants()[tenant_id]
                },
            ),
    {
        let mut tenant = match self.tenants.get(&tenant_id) {
            Some(t) => copy_tenant(t),
            None => {
                return Err(
                    ControlPlaneError::TenantNotFound { tenant_id: uuid_to_string(tenant_id) },
                );
            },
        };
        tenant.suspend(now_ms);
        self.change(tenant_id, tenant);
        Ok(())
    }

    /// Update a tenant's configuration.
    pub fn set_config(&mut self, tenant_id: u128, config: TenantConfig, now_ms: i64) -> (r:
        ControlPlaneResult<()>)
        ensures
            final(self).same_indexes(old(self)),
            !old(self).tenants().dom().contains(tenant_id) ==> is_not_found(
                r,
                uuid_text(tenant_id),
            ) && final(self).tenants() == old(self).tenants(),
            old(self).tenants().dom().contains(tenant_id) ==> r is Ok && final(self).tenants()
                == old(self).tenants().insert(
                tenant_id,
                Tenant {
                    database_url: config.database_url,
                    config: Some(config),
                    updated_at_ms: now_ms,
                    ..old(self).tenants()[tenant_id]
                },
            ),
    {
        let mut tenant = match self.tenants.get(&tenant_id) {
            Some(t) => copy_tenant(t),
            None => {
                return Err(
                    ControlPlaneError::TenantNotFound { tenant_id: uuid_to_string(tenant_id) },
                );
            },
        };
        tenant.set_config(config, now_ms);
        self.change(tenant_id, tenant);
        Ok(())
    }

    /// Count total tenants, deleted ones among them.
    pub fn count(&self) -> (r: usize)
        ensures
            r == self.tenants().dom().len(),
    {
        self.tenants.len()
    }

    /// Count active tenants.
    pub fn count_active(&self) -> (r: usize)
        ensures
            r == active_ids(self.tenants()).len(),
    {
        let mut n: usize = 0;
        let total = self.tenants.len();
        let keys = self.tenants.keys();
        let ghost all = keys.remaining();
        let ghost mut seen: Set<u128> = Set::empty();
        assert(all.unref().to_set() == self.tenants@.dom());
        for key in it: keys
            invariant
                it.seq() == all,
                all.unref().to_set() == self.tenants@.dom(),
                all.no_duplicates(),
                all.len() == total,
                seen.finite(),
                n == seen.len(),
                n <= it.index(),
                forall|id: u128| #[trigger]
                    seen.contains(id) <==> active_ids(self.tenants@).contains(id) && exists|k: int|
                        0 <= k < it.index() && *#[trigger] all[k] == id,
        {
            proof {
                assert(all.unref()[it.index()] == *key);
                assert(all.unref().to_set().contains(*key));
            }
            let ghost seen_before = seen;
            let ghost at = it.index();
            match self.tenants.get(key) {
                Some(tenant) => {
                    if tenant.is_active() {
                        n = n + 1;
                        proof {
                            assert(!seen.contains(*key)) by {
                                if seen.contains(*key) {
                                    let k = choose|k: int|
                                        0 <= k < at && *#[trigger] all[k] == *key;
                                    assert(all[k] == all[at]);
                                }
                            }
                            seen = seen.insert(*key);
                        }
                    }
                },
                None => {},
            }
            proof {
                assert forall|id: u128| #[trigger]
                    seen.contains(id) <==> active_ids(self.tenants@).contains(id) && exists|k: int|
                        0 <= k < at + 1 && *#[trigger] all[k] == id by {
                    if seen.contains(id) {
                        if id == *key {
                            assert(*all[at] == id);
                        } else {
                            assert(seen_before.contains(id));
                            let k = choose|k: int| 0 <= k < at && *#[trigger] all[k] == id;
                            assert(*all[k] == id);
                        }
                    }
                    if active_ids(self.tenants@).contains(id) && exists|k: int|
                        0 <= k < at + 1 && *#[trigger] all[k] == id {
                        let k = choose|k: int| 0 <= k < at + 1 && *#[trigger] all[k] == id;
                        if k < at {
                            assert(seen_before.contains(id));
                        }
                    }
                }
            }
        }
        proof {
            assert(seen =~= active_ids(self.tenants@)) by {
                assert forall|id: u128| active_ids(self.tenants@).contains(id) implies seen.contains(
                    id,
                ) by {
                    assert(all.unref().to_set().contains(id));
                    let k = choose|k: int| 0 <= k < all.unref().len() && all.unref()[k] == id;
                    assert(*all[k] == id);
                }
            }
        }
        n
    }
}

/// The identifiers of the tenants that are not deleted.
pub open spec fn live_ids(tenants: Map<u128, Tenant>) -> Set<u128> {
    tenants.dom().filter(
        |id: u128|
            !(tenants[id].status == TenantStatus::Deleted || tenants[id].deleted_at_ms is Some),
    )
}

/// The identifiers of the tenants that are active.
pub open spec fn active_ids(tenants: Map<u128, Tenant>) -> Set<u128> {
    tenants.dom().filter(|id: u128| tenants[id].status == TenantStatus::Active)
}

/// Whether a list shows a tenant.
pub open spec fn is_shown(
    items: Seq<TenantListItem>,
    tenant: Tenant,
    tracker: UsageTracker,
    month: Seq<char>,
) -> bool {
    exists|i: int| 0 <= i < items.len() && is_item_of(#[trigger] items[i], tenant, tracker, month)
}

/// Whether a list item shows a tenant that is not deleted, with its usage in
/// a month.
pub open spec fn is_item_of(
    item: TenantListItem,
    tenant: Tenant,
    tracker: UsageTracker,
    month: Seq<char>,
) -> bool {
    &&& item.tenant_id == tenant.tenant_id
    &&& item.name == tenant.name
    &&& item.plan == tenant.plan
    &&& item.status == tenant.status
    &&& item.created_at_ms == tenant.created_at_ms
    &&& !(tenant.status == TenantStatus::Deleted || tenant.deleted_at_ms is Some)
    &&& exists|m: String|
        m@ == month && item.storage_used == (#[trigger] tracker.usage(
            tenant.tenant_id,
            m,
        )).storage_bytes && item.api_requests_month == tracker.usage(
            tenant.tenant_id,
            m,
        ).api_requests
}

/// Whether a list item shows one of the tenants of a registry.
pub open spec fn is_listed(
    item: TenantListItem,
    tenants: Map<u128, Tenant>,
    tracker: UsageTracker,
    month: Seq<char>,
) -> bool {
    exists|id: u128|
        tenants.dom().contains(id) && is_item_of(item, #[trigger] tenants[id], tracker, month)
}

impl Default for TenantRegistry {
    fn default() -> (r: Self)
        ensures
            r.tenants() == Map::<u128, Tenant>::empty(),
    {
        TenantRegistry::new()
    }
}

} // verus!
