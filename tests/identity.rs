use device_fingerprint::{
    choose_display_name, compute_fingerprint_hash, device_fingerprint,
    get_machine_id_with_fallback, get_or_create_install_uuid, plan_device_fingerprint,
    MachineIdSource, StoredIdentities, DEFAULT_DISPLAY_NAME, INSTALL_UUID_KEY,
    MACHINE_ID_FALLBACK_KEY,
};

fn s(v: &str) -> String {
    v.to_string()
}

#[test]
fn store_keys() {
    assert_eq!(INSTALL_UUID_KEY, "install_uuid");
    assert_eq!(MACHINE_ID_FALLBACK_KEY, "machine_id_fallback");
}

#[test]
fn os_machine_id_is_preferred() {
    let r = get_machine_id_with_fallback(Some(s("os-id")), &Some(s("stored")), s("fresh"));
    assert_eq!(r.source, MachineIdSource::OsProvided);
    assert_eq!(r.value, "os-id");
}

#[test]
fn stored_fallback_is_reused() {
    let r = get_machine_id_with_fallback(None, &Some(s("stored")), s("fresh"));
    assert_eq!(r.source, MachineIdSource::PersistedFallback);
    assert_eq!(r.value, "stored");
}

#[test]
fn fallback_is_created_when_absent() {
    let r = get_machine_id_with_fallback(None, &None, s("fresh"));
    assert_eq!(r.source, MachineIdSource::PersistedFallback);
    assert_eq!(r.value, "fresh");
}

#[test]
fn install_uuid_get_or_create() {
    assert_eq!(get_or_create_install_uuid(&Some(s("u1")), s("u2")), "u1");
    assert_eq!(get_or_create_install_uuid(&None, s("u2")), "u2");
}

#[test]
fn plan_with_os_machine_id_ignores_store() {
    let empty = StoredIdentities::empty();
    let full = StoredIdentities {
        machine_id_fallback: Some(s("fb")),
        install_uuid: Some(s("iu")),
    };
    let p1 = plan_device_fingerprint(Some(s("mid")), &empty, "pc1", "windows", "x86_64", s("a"), s("b"));
    let p2 = plan_device_fingerprint(Some(s("mid")), &full, "pc1", "windows", "x86_64", s("c"), s("d"));
    assert_eq!(p1.fingerprint, p2.fingerprint);
    assert_eq!(p1.fingerprint, compute_fingerprint_hash("mid", None, "pc1", "windows", "x86_64"));
    assert!(p1.new_machine_id_fallback.is_none() && p1.new_install_uuid.is_none());
    assert!(p2.new_machine_id_fallback.is_none() && p2.new_install_uuid.is_none());
}

#[test]
fn plan_on_empty_store_creates_both() {
    let empty = StoredIdentities::empty();
    let p = plan_device_fingerprint(None, &empty, "pc1", "windows", "x86_64", s("mid"), s("iuid"));
    assert_eq!(p.new_machine_id_fallback, Some(s("mid")));
    assert_eq!(p.new_install_uuid, Some(s("iuid")));
    assert_eq!(
        p.fingerprint,
        "552765c53deace2296156011ee6db85ce7792c7688189eaf23b33b254a27a718"
    );
}

#[test]
fn plan_creates_only_missing_install_uuid() {
    let store = StoredIdentities {
        machine_id_fallback: Some(s("mid")),
        install_uuid: None,
    };
    let p = plan_device_fingerprint(None, &store, "pc1", "windows", "x86_64", s("x"), s("iuid"));
    assert_eq!(p.new_machine_id_fallback, None);
    assert_eq!(p.new_install_uuid, Some(s("iuid")));
    assert_eq!(
        p.fingerprint,
        compute_fingerprint_hash("mid", Some("iuid"), "pc1", "windows", "x86_64")
    );
}

#[test]
fn serialized_first_calls_share_one_identity() {
    let mut store = StoredIdentities::empty();
    let first = plan_device_fingerprint(None, &store, "pc1", "windows", "x86_64", s("m1"), s("i1"));
    store.record(&first);
    let second = plan_device_fingerprint(None, &store, "pc1", "windows", "x86_64", s("m2"), s("i2"));
    assert!(second.new_machine_id_fallback.is_none() && second.new_install_uuid.is_none());
    assert_eq!(first.fingerprint, second.fingerprint);
    assert_eq!(store.machine_id_fallback, Some(s("m1")));
    assert_eq!(store.install_uuid, Some(s("i1")));
}

#[test]
fn racing_first_calls_leave_one_winner() {
    let mut store = StoredIdentities::empty();
    let a = plan_device_fingerprint(None, &store, "pc1", "windows", "x86_64", s("m1"), s("i1"));
    let b = plan_device_fingerprint(None, &store, "pc1", "windows", "x86_64", s("m2"), s("i2"));
    store.record(&a);
    store.record(&b);
    assert_eq!(store.machine_id_fallback, Some(s("m2")));
    assert_eq!(store.install_uuid, Some(s("i2")));
    for fresh in ["m3", "m4"] {
        let later = plan_device_fingerprint(None, &store, "pc1", "windows", "x86_64", s(fresh), s(fresh));
        assert_eq!(later.fingerprint, b.fingerprint);
        assert!(later.new_machine_id_fallback.is_none() && later.new_install_uuid.is_none());
    }
}

#[test]
fn random_identifiers_are_uuids_and_persist() {
    let mut store = StoredIdentities::empty();
    let first = device_fingerprint(None, &store, "pc1", "linux", "x86_64");
    let m = first.new_machine_id_fallback.clone().expect("machine id created");
    let i = first.new_install_uuid.clone().expect("install uuid created");
    assert_eq!(m.len(), 36);
    assert_eq!(i.len(), 36);
    assert_ne!(m, i);
    assert_eq!(first.fingerprint, compute_fingerprint_hash(&m, Some(&i), "pc1", "linux", "x86_64"));
    store.record(&first);
    let second = device_fingerprint(None, &store, "pc1", "linux", "x86_64");
    assert_eq!(second.fingerprint, first.fingerprint);
    assert!(second.new_machine_id_fallback.is_none() && second.new_install_uuid.is_none());
}

#[test]
fn random_path_skipped_with_os_machine_id() {
    let store = StoredIdentities::empty();
    let p = device_fingerprint(Some(s("mid")), &store, "pc1", "windows", "x86_64");
    assert!(p.new_machine_id_fallback.is_none() && p.new_install_uuid.is_none());
    assert_eq!(p.fingerprint, "713fb6bd260328bd1e0e777c8b63ad5472549d9e9e1dbe950be07098f717b851");
}

#[test]
fn display_name_prefers_hostname() {
    assert_eq!(choose_display_name(Some(s("pc1")), Some(s("OTHER"))), "pc1");
    assert_eq!(choose_display_name(Some(s(" pc1 ")), None), " pc1 ");
}

#[test]
fn display_name_falls_back_to_computer_name() {
    assert_eq!(choose_display_name(Some(s("  ")), Some(s("  WORK-PC \n"))), "WORK-PC");
    assert_eq!(choose_display_name(None, Some(s("WORK-PC"))), "WORK-PC");
}

#[test]
fn display_name_default() {
    assert_eq!(choose_display_name(None, None), "Desktop");
    assert_eq!(choose_display_name(Some(s("")), Some(s(" \t"))), DEFAULT_DISPLAY_NAME);
}
