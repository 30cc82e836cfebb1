//! Resolution of the machine and installation identities, and the plan for a
//! fingerprint request.
//!
//! The persistent store is not touched here. A request is answered from what
//! the store holds under its two keys; the answer names the fingerprint and
//! the identifiers that must be set and saved before the fingerprint may be
//! handed out.
use crate::fingerprint::{compute_fingerprint_hash, fingerprint_hash};
use vstd::prelude::*;

verus! {

/// Where a machine identity came from.
#[derive(PartialEq, Eq, Structural, Clone, Copy, Debug)]
pub enum MachineIdSource {
    OsProvided,
    PersistedFallback,
}

/// The machine identity used for fingerprinting.
pub struct MachineIdentity {
    pub source: MachineIdSource,
    pub value: String,
}

/// What the persistent store holds under its two identity keys.
pub struct StoredIdentities {
    pub machine_id_fallback: Option<String>,
    pub install_uuid: Option<String>,
}

/// The answer to a fingerprint request: the fingerprint, and the identifiers
/// newly created for it, which must be persisted (the machine identifier
/// first) before the fingerprint is used.
pub struct FingerprintPlan {
    pub fingerprint: String,
    pub new_machine_id_fallback: Option<String>,
    pub new_install_uuid: Option<String>,
}

pub struct StoreView {
    pub machine_id_fallback: Option<Seq<char>>,
    pub install_uuid: Option<Seq<char>>,
}

pub struct PlanView {
    pub fingerprint: Seq<char>,
    pub new_machine_id_fallback: Option<Seq<char>>,
    pub new_install_uuid: Option<Seq<char>>,
}

pub open spec fn opt_string_view(o: Option<String>) -> Option<Seq<char>> {
    match o {
        Some(s) => Some(s@),
        None => None,
    }
}

impl View for StoredIdentities {
    type V = StoreView;

    open spec fn view(&self) -> StoreView {
        StoreView {
            machine_id_fallback: opt_string_view(self.machine_id_fallback),
            install_uuid: opt_string_view(self.install_uuid),
        }
    }
}

impl View for FingerprintPlan {
    type V = PlanView;

    open spec fn view(&self) -> PlanView {
        PlanView {
            fingerprint: self.fingerprint@,
            new_machine_id_fallback: opt_string_view(self.new_machine_id_fallback),
            new_install_uuid: opt_string_view(self.new_install_uuid),
        }
    }
}

/// The stored value when there is one, else the one created now.
pub open spec fn stored_or_created(stored: Option<Seq<char>>, created: Option<Seq<char>>) -> Seq<char> {
    match stored {
        Some(s) => s,
        None => match created {
            Some(c) => c,
            None => Seq::empty(),
        },
    }
}

/// A correct answer to a request, whatever identifiers were created: with an
/// OS machine identity the store is neither read nor written and no
/// installation identifier is used; without one, each identifier is the stored
/// one, or a new one exactly when none is stored.
pub open spec fn is_plan_for(
    os_machine_id: Option<Seq<char>>,
    store: StoreView,
    hostname: Seq<char>,
    os: Seq<char>,
    arch: Seq<char>,
    plan: PlanView,
) -> bool {
    match os_machine_id {
        Some(m) => {
            &&& plan.new_machine_id_fallback is None
            &&& plan.new_install_uuid is None
            &&& plan.fingerprint == fingerprint_hash(m, None, hostname, os, arch)
        },
        None => {
            &&& (store.machine_id_fallback is Some <==> plan.new_machine_id_fallback is None)
            &&& (store.install_uuid is Some <==> plan.new_install_uuid is None)
            &&& plan.fingerprint == fingerprint_hash(
                stored_or_created(store.machine_id_fallback, plan.new_machine_id_fallback),
                Some(stored_or_created(store.install_uuid, plan.new_install_uuid)),
                hostname,
                os,
                arch,
            )
        },
    }
}

/// The store once the plan's new identifiers have been persisted.
pub open spec fn apply_plan(store: StoreView, plan: PlanView) -> StoreView {
    StoreView {
        machine_id_fallback: match plan.new_machine_id_fallback {
            Some(v) => Some(v),
            None => store.machine_id_fallback,
        },
        install_uuid: match plan.new_install_uuid {
            Some(v) => Some(v),
            None => store.install_uuid,
        },
    }
}

/// Relies on `uuid::Uuid::new_v4` and its `Display`: a random UUID in its
/// hyphenated form, 36 characters.
#[verifier::external_body]
fn new_identifier() -> (r: String)
    ensures
        r@.len() == 36,
{
    uuid::Uuid::new_v4().to_string()
}

/// The stored value when there is one, else `fresh`.
pub fn get_or_create(stored: &Option<String>, fresh: String) -> (r: String)
    ensures
        r@ == stored_or_created(opt_string_view(*stored), Some(fresh@)),
{
    match stored {
        Some(s) => s.clone(),
        None => fresh,
    }
}

/// The machine identity: the OS one when there is one, else the stored
/// fallback, else `fresh`.
pub fn get_machine_id_with_fallback(
    os_machine_id: Option<String>,
    stored_fallback: &Option<String>,
    fresh: String,
) -> (r: MachineIdentity)
    ensures
        match os_machine_id {
            Some(m) => r.source == MachineIdSource::OsProvided && r.value@ == m@,
            None => r.source == MachineIdSource::PersistedFallback && r.value@ == stored_or_created(
                opt_string_view(*stored_fallback),
                Some(fresh@),
            ),
        },
{
    match os_machine_id {
        Some(m) => MachineIdentity { source: MachineIdSource::OsProvided, value: m },
        None => MachineIdentity {
            source: MachineIdSource::PersistedFallback,
            value: get_or_create(stored_fallback, fresh),
        },
    }
}

/// The installation identifier: the stored one, else `fresh`.
pub fn get_or_create_install_uuid(stored: &Option<String>, fresh: String) -> (r: String)
    ensures
        r@ == stored_or_created(opt_string_view(*stored), Some(fresh@)),
{
    get_or_create(stored, fresh)
}

/// Answers a fingerprint request, with `fresh_machine_id` and
/// `fresh_install_uuid` as the identifiers to create where the store lacks
/// them.
pub fn plan_device_fingerprint(
    os_machine_id: Option<String>,
    store: &StoredIdentities,
    hostname: &str,
    os: &str,
    arch: &str,
    fresh_machine_id: String,
    fresh_install_uuid: String,
) -> (r: FingerprintPlan)
    ensures
        is_plan_for(opt_string_view(os_machine_id), store@, hostname@, os@, arch@, r@),
        r@.new_machine_id_fallback == (if os_machine_id is None && store.machine_id_fallback is None {
            Some(fresh_machine_id@)
        } else {
            None::<Seq<char>>
        }),
        r@.new_install_uuid == (if os_machine_id is None && store.install_uuid is None {
            Some(fresh_install_uuid@)
        } else {
            None::<Seq<char>>
        }),
{
    match os_machine_id {
        Some(m) => FingerprintPlan {
            fingerprint: compute_fingerprint_hash(m.as_str(), None, hostname, os, arch),
            new_machine_id_fallback: None,
            new_install_uuid: None,
        },
        None => {
            let new_machine_id_fallback = match &store.machine_id_fallback {
                Some(_) => None,
                None => Some(fresh_machine_id.clone()),
            };
            let new_install_uuid = match &store.install_uuid {
                Some(_) => None,
                None => Some(fresh_install_uuid.clone()),
            };
            let machine = get_machine_id_with_fallback(None, &store.machine_id_fallback, fresh_machine_id);
            let install = get_or_create_install_uuid(&store.install_uuid, fresh_install_uuid);
            let fingerprint = compute_fingerprint_hash(
                machine.value.as_str(),
                Some(install.as_str()),
                hostname,
                os,
                arch,
            );
            FingerprintPlan { fingerprint, new_machine_id_fallback, new_install_uuid }
        },
    }
}

/// Answers a fingerprint request, creating a random identifier for each one
/// that the store lacks and that the request needs.
pub fn device_fingerprint(
    os_machine_id: Option<String>,
    store: &StoredIdentities,
    hostname: &str,
    os: &str,
    arch: &str,
) -> (r: FingerprintPlan)
    ensures
        is_plan_for(opt_string_view(os_machine_id), store@, hostname@, os@, arch@, r@),
        r@.new_machine_id_fallback matches Some(v) ==> v.len() == 36,
        r@.new_install_uuid matches Some(v) ==> v.len() == 36,
{
    let needs_ids = os_machine_id.is_none();
    let fresh_machine_id = if needs_ids && store.machine_id_fallback.is_none() {
        new_identifier()
    } else {
        String::new()
    };
    let fresh_install_uuid = if needs_ids && store.install_uuid.is_none() {
        new_identifier()
    } else {
        String::new()
    };
    plan_device_fingerprint(os_machine_id, store, hostname, os, arch, fresh_machine_id, fresh_install_uuid)
}

impl StoredIdentities {
    /// A store that holds neither identifier.
    pub fn empty() -> (r: StoredIdentities)
        ensures
            r@.machine_id_fallback is None,
            r@.install_uuid is None,
    {
        StoredIdentities { machine_id_fallback: None, install_uuid: None }
    }

    /// Records the plan's new identifiers, as persisting them does.
    pub fn record(&mut self, plan: &FingerprintPlan)
        ensures
            final(self)@ == apply_plan(old(self)@, plan@),
    {
        match &plan.new_machine_id_fallback {
            Some(v) => self.machine_id_fallback = Some(v.clone()),
            None => {},
        }
        match &plan.new_install_uuid {
            Some(v) => self.install_uuid = Some(v.clone()),
            None => {},
        }
    }
}

/// With an OS machine identity, the fingerprint is the same whatever the store
/// holds, and nothing is written: it survives a reinstall, which empties the
/// store.
pub proof fn lemma_reinstall_stable(
    os_machine_id: Seq<char>,
    store1: StoreView,
    store2: StoreView,
    hostname: Seq<char>,
    os: Seq<char>,
    arch: Seq<char>,
    plan1: PlanView,
    plan2: PlanView,
)
    requires
        is_plan_for(Some(os_machine_id), store1, hostname, os, arch, plan1),
        is_plan_for(Some(os_machine_id), store2, hostname, os, arch, plan2),
    ensures
        plan1.fingerprint == plan2.fingerprint,
        plan1.fingerprint == fingerprint_hash(os_machine_id, None, hostname, os, arch),
        apply_plan(store1, plan1) == store1,
        apply_plan(store2, plan2) == store2,
{
}

/// Once one request's identifiers are persisted, every later request uses
/// them: it creates nothing, writes nothing and gets the same fingerprint.
/// So of two first requests run one after the other against an empty store,
/// only the first creates identifiers.
pub proof fn lemma_persisted_identity_wins(
    os_machine_id: Option<Seq<char>>,
    store: StoreView,
    hostname: Seq<char>,
    os: Seq<char>,
    arch: Seq<char>,
    first: PlanView,
    later: PlanView,
)
    requires
        is_plan_for(os_machine_id, store, hostname, os, arch, first),
        is_plan_for(os_machine_id, apply_plan(store, first), hostname, os, arch, later),
    ensures
        later.new_machine_id_fallback is None,
        later.new_install_uuid is None,
        later.fingerprint == first.fingerprint,
        apply_plan(apply_plan(store, first), later) == apply_plan(store, first),
{
}

/// A store that holds both identifiers decides the fingerprint of every
/// request without an OS machine identity: whichever identifiers were
/// persisted last are the only ones that later requests reference.
pub proof fn lemma_stored_identity_used(
    machine_id_fallback: Seq<char>,
    install_uuid: Seq<char>,
    hostname: Seq<char>,
    os: Seq<char>,
    arch: Seq<char>,
    plan: PlanView,
)
    requires
        is_plan_for(
            None,
            StoreView { machine_id_fallback: Some(machine_id_fallback), install_uuid: Some(install_uuid) },
            hostname,
            os,
            arch,
            plan,
        ),
    ensures
        plan.new_machine_id_fallback is None,
        plan.new_install_uuid is None,
        plan.fingerprint == fingerprint_hash(machine_id_fallback, Some(install_uuid), hostname, os, arch),
{
}

} // verus!
