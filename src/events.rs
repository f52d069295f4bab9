use vstd::prelude::*;

verus! {

/// Number of event types in the catalog; their identifiers are `0..EVENT_TYPE_COUNT`.
pub const EVENT_TYPE_COUNT: u32 = 29;

/// An event type identifier may be enabled or disabled individually.
pub open spec fn is_configurable_id(id: u32) -> bool {
    1 <= id && id <= 24
}

/// Whether a configurable type is collected by default: all are, except the
/// high-volume read, write and write-close operations.
pub open spec fn default_enabled_id(id: u32) -> bool {
    id != 17 && id != 19 && id != 21
}

/// The catalog of event types the monitoring engine knows about.
#[derive(Clone, Copy, Debug, PartialEq, Eq, Structural)]
pub enum EventType {
    Unknown,
    Execve,
    ExecveScript,
    Exit,
    ExitGroup,
    Clone,
    Prctl,
    Kill,
    PtraceAttach,
    MmapExec,
    MprotectExec,
    InitModule,
    BpfProgLoad,
    BpfSocketFilter,
    Connect,
    DnsQuery,
    SendData,
    Read,
    ReadConfig,
    Write,
    WriteConfig,
    WriteClose,
    FileRename,
    FileUnlink,
    FileScan,
    Error,
    SyscoreResume,
    Correlation,
    CacheHash,
}

impl EventType {
    pub open spec fn spec_id(&self) -> u32 {
        match self {
            EventType::Unknown => 0,
            EventType::Execve => 1,
            EventType::ExecveScript => 2,
            EventType::Exit => 3,
            EventType::ExitGroup => 4,
            EventType::Clone => 5,
            EventType::Prctl => 6,
            EventType::Kill => 7,
            EventType::PtraceAttach => 8,
            EventType::MmapExec => 9,
            EventType::MprotectExec => 10,
            EventType::InitModule => 11,
            EventType::BpfProgLoad => 12,
            EventType::BpfSocketFilter => 13,
            EventType::Connect => 14,
            EventType::DnsQuery => 15,
            EventType::SendData => 16,
            EventType::Read => 17,
            EventType::ReadConfig => 18,
            EventType::Write => 19,
            EventType::WriteConfig => 20,
            EventType::WriteClose => 21,
            EventType::FileRename => 22,
            EventType::FileUnlink => 23,
            EventType::FileScan => 24,
            EventType::Error => 25,
            EventType::SyscoreResume => 26,
            EventType::Correlation => 27,
            EventType::CacheHash => 28,
        }
    }

    /// Identifier of the type in the catalog.
    #[verifier::when_used_as_spec(spec_id)]
    pub fn id(&self) -> (r: u32)
        ensures
            r == self.spec_id(),
            r < EVENT_TYPE_COUNT,
    {
        match self {
            EventType::Unknown => 0,
            EventType::Execve => 1,
            EventType::ExecveScript => 2,
            EventType::Exit => 3,
            EventType::ExitGroup => 4,
            EventType::Clone => 5,
            EventType::Prctl => 6,
            EventType::Kill => 7,
            EventType::PtraceAttach => 8,
            EventType::MmapExec => 9,
            EventType::MprotectExec => 10,
            EventType::InitModule => 11,
            EventType::BpfProgLoad => 12,
            EventType::BpfSocketFilter => 13,
            EventType::Connect => 14,
            EventType::DnsQuery => 15,
            EventType::SendData => 16,
            EventType::Read => 17,
            EventType::ReadConfig => 18,
            EventType::Write => 19,
            EventType::WriteConfig => 20,
            EventType::WriteClose => 21,
            EventType::FileRename => 22,
            EventType::FileUnlink => 23,
            EventType::FileScan => 24,
            EventType::Error => 25,
            EventType::SyscoreResume => 26,
            EventType::Correlation => 27,
            EventType::CacheHash => 28,
        }
    }

    /// The type with the given identifier, if the catalog has one.
    pub fn from_id(id: u32) -> (r: Option<EventType>)
        ensures
            match r {
                Some(t) => t.spec_id() == id,
                None => id >= EVENT_TYPE_COUNT,
            },
    {
        match id {
            0 => Some(EventType::Unknown),
            1 => Some(EventType::Execve),
            2 => Some(EventType::ExecveScript),
            3 => Some(EventType::Exit),
            4 => Some(EventType::ExitGroup),
            5 => Some(EventType::Clone),
            6 => Some(EventType::Prctl),
            7 => Some(EventType::Kill),
            8 => Some(EventType::PtraceAttach),
            9 => Some(EventType::MmapExec),
            10 => Some(EventType::MprotectExec),
            11 => Some(EventType::InitModule),
            12 => Some(EventType::BpfProgLoad),
            13 => Some(EventType::BpfSocketFilter),
            14 => Some(EventType::Connect),
            15 => Some(EventType::DnsQuery),
            16 => Some(EventType::SendData),
            17 => Some(EventType::Read),
            18 => Some(EventType::ReadConfig),
            19 => Some(EventType::Write),
            20 => Some(EventType::WriteConfig),
            21 => Some(EventType::WriteClose),
            22 => Some(EventType::FileRename),
            23 => Some(EventType::FileUnlink),
            24 => Some(EventType::FileScan),
            25 => Some(EventType::Error),
            26 => Some(EventType::SyscoreResume),
            27 => Some(EventType::Correlation),
            28 => Some(EventType::CacheHash),
            _ => None,
        }
    }

    /// Name of the type as it appears in configuration files.
    pub open spec fn spec_name(&self) -> Seq<char> {
        match self {
            EventType::Unknown => "unknown"@,
            EventType::Execve => "execve"@,
            EventType::ExecveScript => "execve_script"@,
            EventType::Exit => "exit"@,
            EventType::ExitGroup => "exit_group"@,
            EventType::Clone => "clone"@,
            EventType::Prctl => "prctl"@,
            EventType::Kill => "kill"@,
            EventType::PtraceAttach => "ptrace_attach"@,
            EventType::MmapExec => "mmap_exec"@,
            EventType::MprotectExec => "mprotect_exec"@,
            EventType::InitModule => "init_module"@,
            EventType::BpfProgLoad => "bpf_prog_load"@,
            EventType::BpfSocketFilter => "bpf_socket_filter"@,
            EventType::Connect => "connect"@,
            EventType::DnsQuery => "dns_query"@,
            EventType::SendData => "send_data"@,
            EventType::Read => "read"@,
            EventType::ReadConfig => "read_config"@,
            EventType::Write => "write"@,
            EventType::WriteConfig => "write_config"@,
            EventType::WriteClose => "write_close"@,
            EventType::FileRename => "file_rename"@,
            EventType::FileUnlink => "file_unlink"@,
            EventType::FileScan => "file_scan"@,
            EventType::Error => "error"@,
            EventType::SyscoreResume => "syscore_resume"@,
            EventType::Correlation => "correlation"@,
            EventType::CacheHash => "cache_hash"@,
        }
    }

    /// Name of the type as it appears in configuration files.
    pub fn name(&self) -> (r: &'static str)
        ensures
            r@ == self.spec_name(),
    {
        match self {
            EventType::Unknown => "unknown",
            EventType::Execve => "execve",
            EventType::ExecveScript => "execve_script",
            EventType::Exit => "exit",
            EventType::ExitGroup => "exit_group",
            EventType::Clone => "clone",
            EventType::Prctl => "prctl",
            EventType::Kill => "kill",
            EventType::PtraceAttach => "ptrace_attach",
            EventType::MmapExec => "mmap_exec",
            EventType::MprotectExec => "mprotect_exec",
            EventType::InitModule => "init_module",
            EventType::BpfProgLoad => "bpf_prog_load",
            EventType::BpfSocketFilter => "bpf_socket_filter",
            EventType::Connect => "connect",
            EventType::DnsQuery => "dns_query",
            EventType::SendData => "send_data",
            EventType::Read => "read",
            EventType::ReadConfig => "read_config",
            EventType::Write => "write",
            EventType::WriteConfig => "write_config",
            EventType::WriteClose => "write_close",
            EventType::FileRename => "file_rename",
            EventType::FileUnlink => "file_unlink",
            EventType::FileScan => "file_scan",
            EventType::Error => "error",
            EventType::SyscoreResume => "syscore_resume",
            EventType::Correlation => "correlation",
            EventType::CacheHash => "cache_hash",
        }
    }

    /// Whether the type can be enabled or disabled by configuration.
    pub fn is_configurable(&self) -> (r: bool)
        ensures
            r == is_configurable_id(self.spec_id()),
    {
        let id = self.id();
        1 <= id && id <= 24
    }

    /// Every type of the catalog, in identifier order.
    pub fn variants() -> (r: Vec<EventType>)
        ensures
            r@.len() == EVENT_TYPE_COUNT,
            forall|i: int| 0 <= i < r@.len() ==> #[trigger] r@[i].spec_id() == i,
    {
        let mut v: Vec<EventType> = Vec::new();
        let mut i: u32 = 0;
        while i < EVENT_TYPE_COUNT
            invariant
                i <= EVENT_TYPE_COUNT,
                v@.len() == i,
                forall|j: int| 0 <= j < v@.len() ==> #[trigger] v@[j].spec_id() == j,
            decreases EVENT_TYPE_COUNT - i,
        {
            match EventType::from_id(i) {
                Some(t) => v.push(t),
                None => {},
            }
            i = i + 1;
        }
        v
    }
}

/// Per-type setting: whether events of that type are collected.
#[derive(Clone, Copy, Debug, PartialEq, Eq, Structural)]
pub struct Event {
    enable: bool,
}

impl View for Event {
    type V = bool;

    closed spec fn view(&self) -> bool {
        self.enable
    }
}

impl Event {
    /// A setting with the given state.
    pub fn new(enable: bool) -> (r: Event)
        ensures
            r@ == enable,
    {
        Event { enable }
    }

    pub fn disable(&mut self)
        ensures
            final(self)@ == false,
    {
        self.enable = false
    }

    pub fn enable(&mut self)
        ensures
            final(self)@ == true,
    {
        self.enable = true
    }

    pub fn is_enabled(&self) -> (r: bool)
        ensures
            r == self@,
    {
        self.enable
    }

    /// Two settings in the same state are the same setting.
    pub proof fn lemma_view_eq(a: Event, b: Event)
        ensures
            a@ == b@ <==> a == b,
    {
    }
}

} // verus!
