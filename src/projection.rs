use vstd::prelude::*;

use crate::config::{Config, DEFAULT_SEND_DATA_MIN_LEN};
use crate::events::EVENT_TYPE_COUNT;

verus! {

broadcast use vstd::laws_cmp::group_laws_cmp, vstd::std_specs::btree::group_btree_axioms;

/// Set of event types the monitoring engine collects, one flag per type
/// identifier.
#[derive(Clone, Debug)]
pub struct Filter {
    enabled: Vec<bool>,
}

impl View for Filter {
    type V = Seq<bool>;

    closed spec fn view(&self) -> Seq<bool> {
        self.enabled@
    }
}

/// Whether type `id` is present and enabled in a per-type state map.
pub open spec fn enabled_in(m: Map<u32, bool>, id: u32) -> bool {
    m.contains_key(id) && m[id]
}

/// Per-task ceiling derived from the global one: two thirds, rounded down.
pub open spec fn task_ceiling(global: u64) -> int {
    (global as int * 2) / 3
}

impl Filter {
    /// A filter with every type disabled.
    pub fn all_disabled() -> (r: Filter)
        ensures
            r@.len() == EVENT_TYPE_COUNT,
            forall|i: int| 0 <= i < r@.len() ==> !#[trigger] r@[i],
    {
        let mut enabled: Vec<bool> = Vec::new();
        let mut i: u32 = 0;
        while i < EVENT_TYPE_COUNT
            invariant
                i <= EVENT_TYPE_COUNT,
                enabled@.len() == i,
                forall|j: int| 0 <= j < enabled@.len() ==> !#[trigger] enabled@[j],
            decreases EVENT_TYPE_COUNT - i,
        {
            enabled.push(false);
            i = i + 1;
        }
        Filter { enabled }
    }

    /// Enables type `id`.
    pub fn enable(&mut self, id: u32)
        requires
            id < old(self)@.len(),
        ensures
            final(self)@ == old(self)@.update(id as int, true),
    {
        self.enabled.set(id as usize, true);
    }

    /// Whether type `id` is enabled; types outside the catalog never are.
    pub fn is_enabled(&self, id: u32) -> (r: bool)
        ensures
            r == (id < self@.len() && self@[id as int]),
    {
        if (id as usize) < self.enabled.len() {
            self.enabled[id as usize]
        } else {
            false
        }
    }

    /// The filter of a configuration: a type is enabled exactly when its
    /// setting is present and enabled.
    pub fn from_config(c: &Config) -> (r: Filter)
        ensures
            r@.len() == EVENT_TYPE_COUNT,
            forall|i: int| 0 <= i < r@.len() ==> #[trigger] r@[i] == enabled_in(c.enabled(), i as u32),
    {
        let mut f = Filter::all_disabled();
        let mut i: u32 = 0;
        while i < EVENT_TYPE_COUNT
            invariant
                i <= EVENT_TYPE_COUNT,
                f@.len() == EVENT_TYPE_COUNT,
                forall|j: int| 0 <= j < f@.len() ==> #[trigger] f@[j] == (j < i && enabled_in(c.enabled(), j as u32)),
            decreases EVENT_TYPE_COUNT - i,
        {
            match c.events.get(&i) {
                Some(e) => {
                    if e.is_enabled() {
                        f.enable(i);
                    }
                },
                None => {},
            }
            i = i + 1;
        }
        f
    }
}

/// Two thirds of `global`, rounded down, computed without overflow.
pub fn task_max_eps(global: u64) -> (r: u64)
    ensures
        r == task_ceiling(global),
{
    let q = global / 3;
    let m = global % 3;
    let r = q * 2 + (m * 2) / 3;
    assert(r == task_ceiling(global)) by (nonlinear_arith)
        requires q == global / 3, m == global % 3, r == q * 2 + (m * 2) / 3;
    r
}

/// Runtime contract handed to the monitoring engine.
#[derive(Clone, Debug)]
pub struct BpfConfig {
    pub loader: u32,
    pub filter: Filter,
    pub glob_max_eps_fs: Option<u64>,
    pub task_max_eps_fs: Option<u64>,
    pub send_data_min_len: u64,
}

impl BpfConfig {
    /// Runtime contract of a configuration, for the loading process `loader`.
    pub fn from_config(c: &Config, loader: u32) -> (r: BpfConfig)
        ensures
            r.loader == loader,
            r.filter@.len() == EVENT_TYPE_COUNT,
            forall|i: int| 0 <= i < r.filter@.len() ==> #[trigger] r.filter@[i] == enabled_in(c.enabled(), i as u32),
            r.glob_max_eps_fs == c.max_eps_fs,
            match c.max_eps_fs {
                Some(g) => r.task_max_eps_fs == Some(task_ceiling(g) as u64),
                None => r.task_max_eps_fs is None,
            },
            r.send_data_min_len == match c.send_data_min_len {
                Some(n) => n,
                None => DEFAULT_SEND_DATA_MIN_LEN,
            },
    {
        BpfConfig {
            loader,
            filter: Filter::from_config(c),
            glob_max_eps_fs: c.max_eps_fs,
            task_max_eps_fs: match c.max_eps_fs {
                Some(g) => Some(task_max_eps(g)),
                None => None,
            },
            send_data_min_len: match c.send_data_min_len {
                Some(n) => n,
                None => DEFAULT_SEND_DATA_MIN_LEN,
            },
        }
    }
}

} // verus!
