use kunai_config::config::{Config, Error, Output, DEFAULT_MAX_BUFFERED_EVENTS};
use kunai_config::events::{Event, EventType, EVENT_TYPE_COUNT};
use kunai_config::fingerprint::fingerprint;
use kunai_config::identity::{derive_host_uuid, host_uuid_from_trimmed};
use kunai_config::projection::{task_max_eps, BpfConfig, Filter};

const MACHINE_ID: &str = "4c4c4544004a3310805a2ec04f384d32\n";

fn version(u: u128) -> u128 {
    (u >> 76) & 0xf
}

#[test]
fn test_machine_uuid() {
    let uuid = derive_host_uuid(Some(MACHINE_ID));
    assert!(uuid.is_some());
    println!("machine uuid: {:x}", uuid.unwrap())
}

#[test]
fn event_toggles() {
    let mut e = Event::new(false);
    assert!(!e.is_enabled());
    e.enable();
    assert!(e.is_enabled());
    e.disable();
    assert!(!e.is_enabled());
}

#[test]
fn default_holds_exactly_configurable_types() {
    let c = Config::default();
    for t in EventType::variants() {
        assert_eq!(c.events.contains_key(&t.id()), t.is_configurable(), "{}", t.name());
    }
    assert_eq!(c.events.len(), 24);
    assert!(!c.events.contains_key(&EventType::Unknown.id()));
    assert!(!c.events.contains_key(&EventType::Correlation.id()));
}

#[test]
fn default_disables_high_volume_types() {
    let c = Config::default();
    for (id, e) in c.events.iter() {
        let t = EventType::from_id(*id).unwrap();
        let high_volume = matches!(t, EventType::Read | EventType::Write | EventType::WriteClose);
        assert_eq!(e.is_enabled(), !high_volume, "{}", t.name());
    }
    assert!(!c.events[&EventType::Read.id()].is_enabled());
    assert!(!c.events[&EventType::Write.id()].is_enabled());
    assert!(!c.events[&EventType::WriteClose.id()].is_enabled());
    assert!(c.events[&EventType::Execve.id()].is_enabled());
}

#[test]
fn default_values() {
    let c = Config::default();
    assert_eq!(c.host_uuid, None);
    assert_eq!(c.max_buffered_events, DEFAULT_MAX_BUFFERED_EVENTS);
    assert_eq!(c.max_eps_fs, Some(2048));
    assert_eq!(c.workers, None);
    assert_eq!(c.send_data_min_len, None);
    assert!(!c.harden);
    assert!(!c.force_load);
    assert_eq!(c.output.path, "/dev/stdout");
    assert!(c.scanner.show_positive_file_scan);
    assert_eq!(c.scanner.min_severity, 0);
    let h = Config::default_hardened();
    assert!(h.harden);
    assert_eq!(h.events.len(), c.events.len());
}

#[test]
fn bulk_toggles_are_idempotent() {
    let mut once = Config::default();
    once.enable_all();
    let mut twice = Config::default();
    twice.enable_all();
    twice.enable_all();
    assert!(once.events.values().all(|e| e.is_enabled()));
    assert_eq!(once.events, twice.events);

    once.disable_all();
    twice.disable_all();
    twice.disable_all();
    assert!(once.events.values().all(|e| !e.is_enabled()));
    assert_eq!(once.events, twice.events);
    assert_eq!(once.events.len(), 24);
}

#[test]
fn set_event_rejects_unconfigurable_type() {
    let mut c = Config::default();
    assert!(c.set_event(EventType::Read, true).is_ok());
    assert!(c.events[&EventType::Read.id()].is_enabled());
    match c.set_event(EventType::Unknown, true) {
        Err(Error::InvalidEvent(name)) => assert_eq!(name, "unknown"),
        other => panic!("unexpected {:?}", other),
    }
    assert!(!c.events.contains_key(&EventType::Unknown.id()));
}

#[test]
fn filter_matches_settings() {
    let mut c = Config::default();
    c.events.remove(&EventType::Execve.id());
    let f = Filter::from_config(&c);
    assert!(!f.is_enabled(EventType::Execve.id()));
    assert!(!f.is_enabled(EventType::Read.id()));
    assert!(!f.is_enabled(EventType::Unknown.id()));
    assert!(f.is_enabled(EventType::Connect.id()));
    assert!(!f.is_enabled(EVENT_TYPE_COUNT + 5));
    for t in EventType::variants() {
        let expected = c.events.get(&t.id()).map(|e| e.is_enabled()).unwrap_or(false);
        assert_eq!(f.is_enabled(t.id()), expected);
    }
    let none = Filter::all_disabled();
    assert!(!none.is_enabled(EventType::Connect.id()));
}

#[test]
fn rate_limit_derivation() {
    let c = Config::default();
    let b = BpfConfig::from_config(&c, 42);
    assert_eq!(b.loader, 42);
    assert_eq!(b.glob_max_eps_fs, Some(2048));
    assert_eq!(b.task_max_eps_fs, Some(1365));
    assert_eq!(b.send_data_min_len, 256);

    let mut u = Config::default();
    u.max_eps_fs = None;
    u.send_data_min_len = Some(10);
    let b = BpfConfig::from_config(&u, 1);
    assert_eq!(b.glob_max_eps_fs, None);
    assert_eq!(b.task_max_eps_fs, None);
    assert_eq!(b.send_data_min_len, 10);

    assert_eq!(task_max_eps(0), 0);
    assert_eq!(task_max_eps(1), 0);
    assert_eq!(task_max_eps(2), 1);
    assert_eq!(task_max_eps(u64::MAX), ((u64::MAX as u128) * 2 / 3) as u64);
}

#[test]
fn builders() {
    let o = Output { path: "/var/log/kunai.json".into(), rotate_size: Some(10), max_size: Some(100), buffered: true };
    let c = Config::default().output(o.clone()).harden(true);
    let d = Config::default().harden(true).output(o);
    assert_eq!(c.output.path, d.output.path);
    assert_eq!(c.harden, d.harden);
    let s = c.stdout_output();
    assert_eq!(s.output.path, "stdout");
    assert_eq!(s.output.max_size, None);
    assert!(!s.output.buffered);
    assert!(s.harden);
}

#[test]
fn host_identity_is_deterministic_and_cached() {
    let a = derive_host_uuid(Some(MACHINE_ID)).unwrap();
    let b = derive_host_uuid(Some("4c4c4544004a3310805a2ec04f384d32")).unwrap();
    assert_eq!(a, b);
    assert_eq!(version(a), 5);
    assert_ne!(derive_host_uuid(Some("other")), Some(a));

    let mut c1 = Config::default();
    let mut c2 = Config::default();
    assert_eq!(c1.host_uuid(Some(MACHINE_ID)), Some(a));
    assert_eq!(c1.host_uuid, Some(a));
    assert_eq!(c1.host_uuid(Some("changed")), Some(a));
    assert_eq!(c1.host_uuid(None), Some(a));
    assert_eq!(c2.host_uuid(Some(MACHINE_ID)), Some(a));
}

#[test]
fn host_identity_missing_or_empty() {
    assert_eq!(derive_host_uuid(None), None);
    assert_eq!(derive_host_uuid(Some("")), None);
    assert_eq!(derive_host_uuid(Some(" \n\t")), None);
    assert_eq!(host_uuid_from_trimmed(""), None);
    let mut c = Config::default();
    assert_eq!(c.host_uuid(Some("\n")), None);
    assert_eq!(c.host_uuid, None);
    assert_eq!(c.host_uuid(None), None);
    assert_eq!(c.host_uuid, None);
}

#[test]
fn generate_host_uuid_always_gives_a_value() {
    let c = Config::default().generate_host_uuid(None);
    assert!(c.host_uuid.is_some());
    assert_eq!(version(c.host_uuid.unwrap()), 4);
    let d = Config::default().generate_host_uuid(Some(MACHINE_ID));
    assert_eq!(d.host_uuid, derive_host_uuid(Some(MACHINE_ID)));
}

#[test]
fn fingerprint_values() {
    assert_eq!(fingerprint(""), "e3b0c44298fc1c149afbf4c8996fb92427ae41e4649b934ca495991b7852b855");
    assert_eq!(fingerprint("abc"), "ba7816bf8f01cfea414140de5dae2223b00361a396177a9cb410ff61f20015ad");
    assert_eq!(fingerprint("events:\n  read:\n    enable: true\n"), fingerprint("events:\n  read:\n    enable: true\n"));
    assert_ne!(fingerprint("events:\n  read:\n    enable: true\n"), fingerprint("events:\n  read:\n    enable: false\n"));
}

#[test]
fn event_map_order_does_not_matter() {
    let mut a = Config::default();
    a.events.clear();
    let mut b = a.clone();
    a.set_event(EventType::Read, true).unwrap();
    a.set_event(EventType::Connect, false).unwrap();
    b.set_event(EventType::Connect, false).unwrap();
    b.set_event(EventType::Read, true).unwrap();
    assert_eq!(a.events, b.events);
    let ka: Vec<u32> = a.events.keys().copied().collect();
    let kb: Vec<u32> = b.events.keys().copied().collect();
    assert_eq!(ka, kb);
}

#[test]
fn catalog_ids_round_trip() {
    let v = EventType::variants();
    assert_eq!(v.len() as u32, EVENT_TYPE_COUNT);
    for (i, t) in v.iter().enumerate() {
        assert_eq!(t.id(), i as u32);
        assert_eq!(EventType::from_id(i as u32), Some(*t));
    }
    assert_eq!(EventType::from_id(EVENT_TYPE_COUNT), None);
    assert_eq!(EventType::WriteClose.name(), "write_close");
}
