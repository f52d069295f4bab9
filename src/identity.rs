use vstd::prelude::*;

use crate::config::Config;

verus! {

/// What `str::trim_end` makes of a string.
pub uninterp spec fn trim_end_of(s: Seq<char>) -> Seq<char>;

/// The version 5 UUID, as a big-endian integer, that the OID namespace and
/// the UTF-8 bytes of `name` give.
pub uninterp spec fn oid_uuid_v5_of(name: Seq<char>) -> u128;

/// The version field of a UUID held as a big-endian integer.
pub open spec fn uuid_version(u: u128) -> u128 {
    (u >> 76u128) & 0xfu128
}

/// Relies on `str::trim_end`: the input with trailing whitespace removed, a
/// prefix of it.
#[verifier::external_body]
fn trim_end(s: &str) -> (r: &str)
    ensures
        r@ == trim_end_of(s@),
        r@.len() <= s@.len(),
        r@ == s@.subrange(0, r@.len() as int),
{
    s.trim_end()
}

/// Relies on `uuid::Uuid::new_v5` with `Uuid::NAMESPACE_OID`: a name-based
/// UUID of the name's bytes, with version 5.
#[verifier::external_body]
fn oid_uuid_v5(name: &str) -> (r: u128)
    ensures
        r == oid_uuid_v5_of(name@),
        uuid_version(r) == 5,
{
    uuid::Uuid::new_v5(&uuid::Uuid::NAMESPACE_OID, name.as_bytes()).as_u128()
}

/// Relies on `uuid::Uuid::new_v4`: a random UUID with version 4.
#[verifier::external_body]
fn random_uuid_v4() -> (r: u128)
    ensures
        uuid_version(r) == 4,
{
    uuid::Uuid::new_v4().as_u128()
}

/// Host identifier derived from the content of the machine identity file,
/// `None` when the file could not be read.
pub open spec fn derived_host_uuid(machine_id: Option<Seq<char>>) -> Option<u128> {
    match machine_id {
        Some(s) => host_uuid_of_trimmed(trim_end_of(s)),
        None => None,
    }
}

/// An empty identity names no host; any other gives its name-based UUID.
pub open spec fn host_uuid_of_trimmed(t: Seq<char>) -> Option<u128> {
    if t.len() == 0 {
        None
    } else {
        Some(oid_uuid_v5_of(t))
    }
}

/// What `Config::host_uuid` returns: the cached identifier first, else the
/// derived one.
pub open spec fn resolved_host_uuid(cached: Option<u128>, machine_id: Option<Seq<char>>) -> Option<u128> {
    match cached {
        Some(u) => Some(u),
        None => derived_host_uuid(machine_id),
    }
}

pub open spec fn opt_view(s: Option<&str>) -> Option<Seq<char>> {
    match s {
        Some(t) => Some(t@),
        None => None,
    }
}

/// Host identifier for an already trimmed machine identity.
pub fn host_uuid_from_trimmed(trimmed: &str) -> (r: Option<u128>)
    ensures
        r == host_uuid_of_trimmed(trimmed@),
{
    if trimmed.is_empty() {
        None
    } else {
        Some(oid_uuid_v5(trimmed))
    }
}

/// Host identifier from the machine identity file's content (`None` when it
/// could not be read). Never touches any configuration.
pub fn derive_host_uuid(machine_id: Option<&str>) -> (r: Option<u128>)
    ensures
        r == derived_host_uuid(opt_view(machine_id)),
{
    match machine_id {
        Some(s) => host_uuid_from_trimmed(trim_end(s)),
        None => None,
    }
}

impl Config {
    /// The host identifier: the cached one if any, else the one derived from
    /// `machine_id`, which is then cached. When neither exists, returns
    /// `None` and leaves the cache empty.
    pub fn host_uuid(&mut self, machine_id: Option<&str>) -> (r: Option<u128>)
        ensures
            r == resolved_host_uuid(old(self).host_uuid, opt_view(machine_id)),
            *final(self) == (Config { host_uuid: r, ..*old(self) }),
    {
        if self.host_uuid.is_none() {
            self.host_uuid = derive_host_uuid(machine_id);
        }
        self.host_uuid
    }

    /// Sets the host identifier to the one derived from `machine_id`, or to a
    /// random version 4 UUID when none can be derived.
    pub fn generate_host_uuid(self, machine_id: Option<&str>) -> (r: Config)
        ensures
            r.host_uuid is Some,
            derived_host_uuid(opt_view(machine_id)) is Some ==> r.host_uuid == derived_host_uuid(
                opt_view(machine_id),
            ),
            derived_host_uuid(opt_view(machine_id)) is None ==> uuid_version(r.host_uuid->0) == 4,
            r == (Config { host_uuid: r.host_uuid, ..self }),
    {
        let mut c = self;
        c.host_uuid = match derive_host_uuid(machine_id) {
            Some(u) => Some(u),
            None => Some(random_uuid_v4()),
        };
        c
    }
}

/// Once an identifier is resolved it is cached, so every later call returns
/// it, whatever the machine identity then reads.
pub proof fn lemma_host_uuid_stable(cached: Option<u128>, first: Option<Seq<char>>, later: Option<Seq<char>>)
    requires
        resolved_host_uuid(cached, first) is Some,
    ensures
        resolved_host_uuid(resolved_host_uuid(cached, first), later) == resolved_host_uuid(cached, first),
{
}

/// Two configurations without a cached identifier resolve the same machine
/// identity to the same identifier; an empty or missing identity resolves to
/// none.
pub proof fn lemma_host_uuid_deterministic(machine_id: Option<Seq<char>>)
    ensures
        resolved_host_uuid(None, machine_id) == derived_host_uuid(machine_id),
        machine_id is None ==> resolved_host_uuid(None, machine_id) is None,
        machine_id is Some && trim_end_of(machine_id->0).len() == 0 ==> resolved_host_uuid(None, machine_id) is None,
{
}

} // verus!
