use vstd::prelude::*;

use std::collections::BTreeMap;

use vstd::std_specs::btree::spec_keys_iter;
use vstd::std_specs::iter::IteratorSpec;

use crate::events::{default_enabled_id, is_configurable_id, Event, EventType, EVENT_TYPE_COUNT};

verus! {

broadcast use vstd::laws_cmp::group_laws_cmp, vstd::std_specs::btree::group_btree_axioms;

pub const DEFAULT_SEND_DATA_MIN_LEN: u64 = 256;

pub const DEFAULT_MAX_BUFFERED_EVENTS: u16 = 1024;

/// Errors raised while building a configuration.
#[derive(Debug)]
pub enum Error {
    InvalidOutput(String),
    InvalidEvent(String),
}

/// Where events are written. Sizes are in bytes.
#[derive(Clone, Debug)]
pub struct Output {
    pub path: String,
    pub rotate_size: Option<u64>,
    pub max_size: Option<u64>,
    pub buffered: bool,
}

/// Scanner policy: rule, IOC and yara files, and how results are reported.
#[derive(Clone, Debug)]
pub struct Scanner {
    pub rules: Vec<String>,
    pub iocs: Vec<String>,
    pub yara: Vec<String>,
    pub min_severity: u8,
    pub show_positive_file_scan: bool,
}

/// Agent configuration. The events map is keyed by event type identifier.
#[derive(Clone, Debug)]
pub struct Config {
    pub host_uuid: Option<u128>,
    pub max_buffered_events: u16,
    pub max_eps_fs: Option<u64>,
    pub workers: Option<usize>,
    pub send_data_min_len: Option<u64>,
    pub harden: bool,
    pub force_load: bool,
    pub output: Output,
    pub scanner: Scanner,
    pub events: BTreeMap<u32, Event>,
}

/// The enabled state of each type present in an events map.
pub open spec fn enabled_of(m: Map<u32, Event>) -> Map<u32, bool> {
    m.map_values(|e: Event| e@)
}

/// The map with every present type set to `v`.
pub open spec fn set_all(m: Map<u32, bool>, v: bool) -> Map<u32, bool> {
    m.map_values(|b: bool| v)
}

/// The state a default configuration gives to each configurable type.
pub open spec fn default_events() -> Map<u32, bool> {
    Map::new(|k: u32| is_configurable_id(k), |k: u32| default_enabled_id(k))
}

/// The standard output target `path`, unbuffered and without size limits.
pub open spec fn is_plain_output(o: Output, path: Seq<char>) -> bool {
    &&& o.path@ == path
    &&& o.rotate_size is None
    &&& o.max_size is None
    &&& !o.buffered
}

proof fn lemma_push_contains(s: Seq<u32>, x: u32)
    ensures
        forall|k: u32| #[trigger] s.push(x).contains(k) <==> (s.contains(k) || k == x),
{
    assert forall|k: u32| #[trigger] s.push(x).contains(k) <==> (s.contains(k) || k == x) by {
        if s.push(x).contains(k) {
            let j = choose|j: int| 0 <= j < s.len() + 1 && s.push(x)[j] == k;
            if j < s.len() {
                assert(s[j] == k);
            }
        }
        if s.contains(k) {
            let j = choose|j: int| 0 <= j < s.len() && s[j] == k;
            assert(s.push(x)[j] == k);
        }
        if k == x {
            assert(s.push(x)[s.len() as int] == k);
        }
    }
}

/// The identifiers present in an events map.
fn event_ids(m: &BTreeMap<u32, Event>) -> (r: Vec<u32>)
    ensures
        forall|k: u32| m@.contains_key(k) <==> r@.contains(k),
{
    let mut ks: Vec<u32> = Vec::new();
    for k in it: m.keys()
        invariant
            ks@.len() == it.index(),
            it.seq() == spec_keys_iter(m).remaining(),
            forall|j: int| 0 <= j < ks@.len() ==> ks@[j] == *it.seq()[j],
    {
        ks.push(*k);
    }
    proof {
        let keys = spec_keys_iter(m).remaining();
        assert(ks@.len() == keys.len());
        assert(ks@ =~= keys.unref());
        assert(keys.unref().to_set() == m@.dom());
        assert forall|k: u32| m@.contains_key(k) <==> ks@.contains(k) by {
            assert(keys.unref().to_set().contains(k) <==> keys.unref().contains(k));
        }
    }
    ks
}

impl Config {
    /// Per-type enabled state.
    pub open spec fn enabled(&self) -> Map<u32, bool> {
        enabled_of(self.events@)
    }

    /// Every type present in the events map is configurable.
    pub open spec fn wf(&self) -> bool {
        forall|k: u32| #[trigger] self.events@.contains_key(k) ==> is_configurable_id(k)
    }

    /// All fields but `harden`, `output`, `host_uuid` and `events` agree.
    pub open spec fn same_limits(&self, o: &Config) -> bool {
        &&& self.max_buffered_events == o.max_buffered_events
        &&& self.max_eps_fs == o.max_eps_fs
        &&& self.workers == o.workers
        &&& self.send_data_min_len == o.send_data_min_len
        &&& self.force_load == o.force_load
        &&& self.scanner == o.scanner
    }

    /// Everything but `harden` holds its default value.
    pub open spec fn has_default_settings(&self) -> bool {
        &&& self.wf()
        &&& self.enabled() == default_events()
        &&& self.host_uuid is None
        &&& self.max_buffered_events == DEFAULT_MAX_BUFFERED_EVENTS
        &&& self.max_eps_fs == Some(2048u64)
        &&& self.workers is None
        &&& self.send_data_min_len is None
        &&& !self.force_load
        &&& self.scanner.rules@.len() == 0
        &&& self.scanner.iocs@.len() == 0
        &&& self.scanner.yara@.len() == 0
        &&& self.scanner.min_severity == 0
        &&& self.scanner.show_positive_file_scan
        &&& is_plain_output(self.output, "/dev/stdout"@)
    }

    /// Default configuration: every configurable type present, all enabled but
    /// the high-volume read, write and write-close types.
    pub fn new_default() -> (r: Config)
        ensures
            r.has_default_settings(),
            !r.harden,
            forall|k: u32| #[trigger] r.events@.contains_key(k) <==> is_configurable_id(k),
            forall|k: u32| #[trigger]
                r.events@.contains_key(k) ==> r.events@[k]@ == default_enabled_id(k),
    {
        let mut events: BTreeMap<u32, Event> = BTreeMap::new();
        let mut i: u32 = 0;
        while i < EVENT_TYPE_COUNT
            invariant
                i <= EVENT_TYPE_COUNT,
                forall|k: u32| #[trigger]
                    events@.contains_key(k) <==> (k < i && is_configurable_id(k)),
                forall|k: u32| #[trigger]
                    events@.contains_key(k) ==> events@[k]@ == default_enabled_id(k),
            decreases EVENT_TYPE_COUNT - i,
        {
            if let Some(t) = EventType::from_id(i) {
                // the high-volume file operations are off by default
                let en = !matches!(t, EventType::Read | EventType::Write | EventType::WriteClose);
                if t.is_configurable() {
                    events.insert(i, Event::new(en));
                }
            }
            i = i + 1;
        }
        let r = Config {
            host_uuid: None,
            max_buffered_events: DEFAULT_MAX_BUFFERED_EVENTS,
            max_eps_fs: Some(DEFAULT_MAX_BUFFERED_EVENTS as u64 * 2),
            workers: None,
            send_data_min_len: None,
            harden: false,
            force_load: false,
            scanner: Scanner {
                rules: Vec::new(),
                iocs: Vec::new(),
                yara: Vec::new(),
                min_severity: 0,
                show_positive_file_scan: true,
            },
            output: Output {
                path: "/dev/stdout".to_owned(),
                max_size: None,
                rotate_size: None,
                buffered: false,
            },
            events,
        };
        assert(r.enabled() =~= default_events());
        r
    }

    /// Default configuration with hardening on.
    pub fn default_hardened() -> (r: Config)
        ensures
            r.has_default_settings(),
            r.harden,
    {
        let mut c = Config::new_default();
        c.harden = true;
        c
    }

    pub fn harden(self, value: bool) -> (r: Config)
        ensures
            r == (Config { harden: value, ..self }),
    {
        let mut c = self;
        c.harden = value;
        c
    }

    pub fn output(self, o: Output) -> (r: Config)
        ensures
            r == (Config { output: o, ..self }),
    {
        let mut c = self;
        c.output = o;
        c
    }

    /// Sends output to the standard output stream.
    pub fn stdout_output(self) -> (r: Config)
        ensures
            is_plain_output(r.output, "stdout"@),
            r == (Config { output: r.output, ..self }),
    {
        let mut c = self;
        c.output = Output {
            path: "stdout".to_owned(),
            max_size: None,
            rotate_size: None,
            buffered: false,
        };
        c
    }

    /// Sets every type present in the events map to `val`.
    fn set_every_event(&mut self, val: bool)
        ensures
            final(self).enabled() == set_all(old(self).enabled(), val),
            old(self).wf() ==> final(self).wf(),
            final(self).harden == old(self).harden,
            final(self).output == old(self).output,
            final(self).host_uuid == old(self).host_uuid,
            final(self).same_limits(old(self)),
    {
        let ghost start = *self;
        let ids = event_ids(&self.events);
        let mut i: usize = 0;
        while i < ids.len()
            invariant
                i <= ids@.len(),
                forall|k: u32| start.events@.contains_key(k) <==> ids@.contains(k),
                self.events@.dom() == start.events@.dom(),
                forall|k: u32| #[trigger]
                    self.events@.contains_key(k) ==> self.events@[k]@ == if ids@.subrange(
                        0,
                        i as int,
                    ).contains(k) {
                        val
                    } else {
                        start.events@[k]@
                    },
                self.harden == start.harden,
                self.output == start.output,
                self.host_uuid == start.host_uuid,
                self.same_limits(&start),
            decreases ids@.len() - i,
        {
            let ghost before = self.events@;
            self.events.insert(ids[i], Event::new(val));
            proof {
                assert(ids@.contains(ids@[i as int]));
                assert(before.contains_key(ids@[i as int]));
                let done = ids@.subrange(0, i as int);
                assert(ids@.subrange(0, i + 1) =~= done.push(ids@[i as int]));
                lemma_push_contains(done, ids@[i as int]);
                assert(self.events@.dom() =~= before.dom());
            }
            i = i + 1;
        }
        proof {
            assert(ids@.subrange(0, ids@.len() as int) =~= ids@);
        }
        assert(self.events@.dom() =~= start.events@.dom());
        assert(self.enabled() =~= set_all(start.enabled(), val));
    }

    /// Enables every type present in the events map.
    pub fn enable_all(&mut self)
        ensures
            final(self).enabled() == set_all(old(self).enabled(), true),
            old(self).wf() ==> final(self).wf(),
            final(self).harden == old(self).harden,
            final(self).output == old(self).output,
            final(self).host_uuid == old(self).host_uuid,
            final(self).same_limits(old(self)),
    {
        self.set_every_event(true)
    }

    /// Disables every type present in the events map.
    pub fn disable_all(&mut self)
        ensures
            final(self).enabled() == set_all(old(self).enabled(), false),
            old(self).wf() ==> final(self).wf(),
            final(self).harden == old(self).harden,
            final(self).output == old(self).output,
            final(self).host_uuid == old(self).host_uuid,
            final(self).same_limits(old(self)),
    {
        self.set_every_event(false)
    }

    /// Sets whether events of type `ty` are collected. Fails with
    /// `InvalidEvent`, leaving the configuration as it was, when the type is
    /// not configurable.
    pub fn set_event(&mut self, ty: EventType, enable: bool) -> (r: Result<(), Error>)
        ensures
            old(self).wf() ==> final(self).wf(),
            r is Ok <==> is_configurable_id(ty.spec_id()),
            r is Err ==> r->Err_0 is InvalidEvent
                && r->Err_0->InvalidEvent_0@ == ty.spec_name() && *final(self) == *old(self),
            r is Ok ==> final(self).enabled() == old(self).enabled().insert(ty.spec_id(), enable),
            final(self).harden == old(self).harden,
            final(self).output == old(self).output,
            final(self).host_uuid == old(self).host_uuid,
            final(self).same_limits(old(self)),
    {
        if !ty.is_configurable() {
            return Err(Error::InvalidEvent(ty.name().to_owned()));
        }
        let ghost start = *self;
        self.events.insert(ty.id(), Event::new(enable));
        assert(self.enabled() =~= start.enabled().insert(ty.spec_id(), enable));
        Ok(())
    }
}

impl Default for Config {
    fn default() -> (r: Config)
        ensures
            r.has_default_settings(),
            !r.harden,
    {
        Config::new_default()
    }
}


/// Setting the hardening flag and the output target commute.
pub proof fn lemma_harden_output_commute(c: Config, value: bool, o: Output)
    ensures
        (Config { output: o, ..(Config { harden: value, ..c }) }) == (Config {
            harden: value,
            ..(Config { output: o, ..c })
        }),
{
}

/// Enabling, or disabling, everything twice is the same as doing it once.
pub proof fn lemma_bulk_toggle_idempotent(c: Config, v: bool)
    ensures
        set_all(set_all(c.enabled(), v), v) == set_all(c.enabled(), v),
{
    assert(set_all(set_all(c.enabled(), v), v) =~= set_all(c.enabled(), v));
}

/// The settings of a map do not depend on the order in which distinct types
/// were inserted, so neither does anything computed from them.
pub proof fn lemma_insertion_order_irrelevant(m: Map<u32, Event>, k1: u32, e1: Event, k2: u32, e2: Event)
    requires
        k1 != k2,
    ensures
        m.insert(k1, e1).insert(k2, e2) == m.insert(k2, e2).insert(k1, e1),
        enabled_of(m.insert(k1, e1).insert(k2, e2)) == enabled_of(m.insert(k2, e2).insert(k1, e1)),
{
    assert(m.insert(k1, e1).insert(k2, e2) =~= m.insert(k2, e2).insert(k1, e1));
}

} // verus!
