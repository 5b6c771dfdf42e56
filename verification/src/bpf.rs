//! Layout shared with the in-kernel tracer: buffer sizes and the path filter
//! entry written into the tracer's `paths_map`.

use vstd::bytes::{
    spec_u32_from_le_bytes, spec_u64_from_le_bytes, u32_from_le_bytes, u64_from_le_bytes,
};
use vstd::array::axiom_spec_array_fill_for_copy_type;
use vstd::prelude::*;
use vstd::slice::slice_subrange;
use vstd::string::StringSliceAdditionalSpecFns;

verus! {

/// Capacity of every path buffer shared with the tracer.
pub const PATH_MAX: usize = 4096;

/// Capacity of the command-name buffer of a process record.
pub const TASK_COMM_LEN: usize = 16;

/// Number of ancestors a process record can carry.
pub const LINEAGE_MAX: usize = 2;

/// Capacity of the argument buffer of a process record.
pub const ARGS_MAX: usize = 4096;

/// Size in bytes of one ancestor: its user id, then its executable path.
pub const LINEAGE_SIZE: usize = 4 + PATH_MAX;

/// Size in bytes of a process record.
pub const PROCESS_SIZE: usize = TASK_COMM_LEN + ARGS_MAX + 2 * PATH_MAX + 16 + LINEAGE_MAX
    * LINEAGE_SIZE + 4;

/// Size in bytes of a file-open record: the fields one after another, with
/// no padding between or after them.
pub const EVENT_SIZE: usize = 8 + PROCESS_SIZE + 1 + 2 * PATH_MAX;

/// Name of the ring buffer map the tracer writes records to.
pub const RINGBUF_MAP: &'static str = "rb";

/// Name of the array map that holds the path filters.
pub const PATHS_MAP: &'static str = "paths_map";

/// Name of the read-only global that tells the tracer how many filters are set.
pub const PATHS_LEN_GLOBAL: &'static str = "paths_len";

/// Name of the tracer program.
pub const TRACER_PROGRAM: &'static str = "trace_file_open";

/// Name of the security hook the tracer attaches to.
pub const TRACER_HOOK: &'static str = "file_open";

/// One entry of the tracer's path filter table: a fixed buffer and the number
/// of leading bytes of it that are in use.
#[allow(non_camel_case_types)]
#[derive(Clone, Copy, Debug, PartialEq, Eq)]
pub struct path_cfg_t {
    pub path: [u8; PATH_MAX],
    pub len: u16,
}

impl View for path_cfg_t {
    type V = Seq<u8>;

    /// The bytes of the path the entry holds.
    open spec fn view(&self) -> Seq<u8> {
        self.path@.take(self.len as int)
    }
}

impl path_cfg_t {
    /// The length fits the buffer and everything past it is zero.
    pub open spec fn wf(&self) -> bool {
        &&& self.len <= PATH_MAX
        &&& forall|i: int| self.len <= i < PATH_MAX ==> self.path@[i] == 0u8
    }

    /// The empty filter.
    pub fn new() -> (r: Self)
        ensures
            r.wf(),
            r.len == 0,
            r@ == Seq::<u8>::empty(),
    {
        let path = [0u8; PATH_MAX];
        proof {
            axiom_spec_array_fill_for_copy_type::<u8, PATH_MAX>(0u8);
        }
        path_cfg_t { path, len: 0 }
    }

    /// Replaces the held path by `path`, zero-padding the rest of the buffer.
    pub fn set(&mut self, path: &str)
        requires
            path.spec_bytes().len() <= PATH_MAX,
        ensures
            final(self).wf(),
            final(self).len == path.spec_bytes().len(),
            final(self)@ == path.spec_bytes(),
    {
        let bytes = path.as_bytes();
        let len = bytes.len();
        let mut buf = [0u8; PATH_MAX];
        proof {
            axiom_spec_array_fill_for_copy_type::<u8, PATH_MAX>(0u8);
        }
        let mut i: usize = 0;
        while i < len
            invariant
                i <= len,
                len == bytes@.len(),
                len <= PATH_MAX,
                forall|j: int| 0 <= j < i ==> buf@[j] == bytes@[j],
                forall|j: int| i <= j < PATH_MAX ==> buf@[j] == 0u8,
            decreases len - i,
        {
            buf[i] = bytes[i];
            i += 1;
        }
        self.path = buf;
        self.len = len as u16;
        assert(self@ =~= path.spec_bytes());
    }
}

/// One ancestor of the process that opened the file.
#[allow(non_camel_case_types)]
#[derive(Clone, Copy, Debug, PartialEq, Eq)]
pub struct lineage_t {
    pub uid: u32,
    pub exe_path: [u8; PATH_MAX],
}

/// The process that opened the file.
#[allow(non_camel_case_types)]
#[derive(Clone, Copy, Debug, PartialEq, Eq)]
pub struct process_t {
    pub comm: [u8; TASK_COMM_LEN],
    pub args: [u8; ARGS_MAX],
    pub exe_path: [u8; PATH_MAX],
    pub cpu_cgroup: [u8; PATH_MAX],
    pub uid: u32,
    pub gid: u32,
    pub login_uid: u32,
    pub pid: u32,
    pub lineage: [lineage_t; LINEAGE_MAX],
    pub lineage_len: u32,
}

/// A file-open record as the tracer lays it out.
#[allow(non_camel_case_types)]
#[derive(Clone, Copy, Debug, PartialEq, Eq)]
pub struct event_t {
    pub timestamp: u64,
    pub process: process_t,
    pub is_external_mount: i8,
    pub filename: [u8; PATH_MAX],
    pub host_file: [u8; PATH_MAX],
}

/// The signed value of a byte read as two's complement.
pub open spec fn signed_byte(b: u8) -> i8 {
    if b < 128 {
        b as i8
    } else {
        (b - 256) as i8
    }
}

/// The ancestor laid out at offset `at` of `b`.
pub open spec fn lineage_at(b: Seq<u8>, at: int, l: lineage_t) -> bool {
    &&& l.uid == spec_u32_from_le_bytes(b.subrange(at, at + 4))
    &&& l.exe_path@ == b.subrange(at + 4, at + 4 + PATH_MAX)
}

/// The process record laid out at offset `at` of `b`.
pub open spec fn process_at(b: Seq<u8>, at: int, p: process_t) -> bool {
    &&& p.comm@ == b.subrange(at, at + 16)
    &&& p.args@ == b.subrange(at + 16, at + 4112)
    &&& p.exe_path@ == b.subrange(at + 4112, at + 8208)
    &&& p.cpu_cgroup@ == b.subrange(at + 8208, at + 12304)
    &&& p.uid == spec_u32_from_le_bytes(b.subrange(at + 12304, at + 12308))
    &&& p.gid == spec_u32_from_le_bytes(b.subrange(at + 12308, at + 12312))
    &&& p.login_uid == spec_u32_from_le_bytes(b.subrange(at + 12312, at + 12316))
    &&& p.pid == spec_u32_from_le_bytes(b.subrange(at + 12316, at + 12320))
    &&& lineage_at(b, at + 12320, p.lineage@[0])
    &&& lineage_at(b, at + 16420, p.lineage@[1])
    &&& p.lineage_len == spec_u32_from_le_bytes(b.subrange(at + 20520, at + 20524))
}

/// `e` is the record that the bytes `b` lay out: integers little-endian, the
/// fields in declaration order.
pub open spec fn event_layout(b: Seq<u8>, e: event_t) -> bool {
    &&& b.len() == EVENT_SIZE
    &&& e.timestamp == spec_u64_from_le_bytes(b.subrange(0, 8))
    &&& process_at(b, 8, e.process)
    &&& e.is_external_mount == signed_byte(b[20532])
    &&& e.filename@ == b.subrange(20533, 24629)
    &&& e.host_file@ == b.subrange(24629, 28725)
}

/// The `N` bytes of `b` from offset `at`.
fn array_at<const N: usize>(b: &[u8], at: usize) -> (r: [u8; N])
    requires
        at + N <= b@.len(),
    ensures
        r@ == b@.subrange(at as int, at + N),
{
    let total = b.len();
    let mut out = [0u8; N];
    let mut i: usize = 0;
    while i < N
        invariant
            i <= N,
            at + N <= b@.len(),
            total == b@.len(),
            forall|j: int| 0 <= j < i ==> out@[j] == b@[at + j],
        decreases N - i,
    {
        out[i] = b[at + i];
        i += 1;
    }
    assert(out@ =~= b@.subrange(at as int, at + N));
    out
}

/// The little-endian `u32` at offset `at` of `b`.
fn u32_at(b: &[u8], at: usize) -> (r: u32)
    requires
        at + 4 <= b@.len(),
    ensures
        r == spec_u32_from_le_bytes(b@.subrange(at as int, at + 4)),
{
    let total = b.len();
    u32_from_le_bytes(slice_subrange(b, at, at + 4))
}

impl lineage_t {
    /// Reads the ancestor laid out at offset `at` of `b`.
    fn read(b: &[u8], at: usize) -> (r: Self)
        requires
            at + LINEAGE_SIZE <= b@.len(),
        ensures
            lineage_at(b@, at as int, r),
    {
        let total = b.len();
        lineage_t { uid: u32_at(b, at), exe_path: array_at::<PATH_MAX>(b, at + 4) }
    }
}

impl process_t {
    /// Reads the process record laid out at offset `at` of `b`.
    fn read(b: &[u8], at: usize) -> (r: Self)
        requires
            at + PROCESS_SIZE <= b@.len(),
        ensures
            process_at(b@, at as int, r),
    {
        let total = b.len();
        process_t {
            comm: array_at::<TASK_COMM_LEN>(b, at),
            args: array_at::<ARGS_MAX>(b, at + 16),
            exe_path: array_at::<PATH_MAX>(b, at + 4112),
            cpu_cgroup: array_at::<PATH_MAX>(b, at + 8208),
            uid: u32_at(b, at + 12304),
            gid: u32_at(b, at + 12308),
            login_uid: u32_at(b, at + 12312),
            pid: u32_at(b, at + 12316),
            lineage: [lineage_t::read(b, at + 12320), lineage_t::read(b, at + 16420)],
            lineage_len: u32_at(b, at + 20520),
        }
    }
}

impl event_t {
    /// Reads a record from the bytes the tracer wrote. Bytes of any other
    /// length than `EVENT_SIZE` are refused.
    pub fn from_bytes(b: &[u8]) -> (r: Option<Self>)
        ensures
            r is Some <==> b@.len() == EVENT_SIZE,
            r matches Some(e) ==> event_layout(b@, e),
    {
        if b.len() != EVENT_SIZE {
            return None;
        }
        let flag = b[20532];
        let is_external_mount: i8 = if flag < 128 {
            flag as i8
        } else {
            (flag as i16 - 256) as i8
        };
        Some(
            event_t {
                timestamp: u64_from_le_bytes(slice_subrange(b, 0, 8)),
                process: process_t::read(b, 8),
                is_external_mount,
                filename: array_at::<PATH_MAX>(b, 20533),
                host_file: array_at::<PATH_MAX>(b, 24629),
            },
        )
    }
}

impl Default for path_cfg_t {
    fn default() -> (r: Self)
        ensures
            r.wf(),
            r.len == 0,
            r@ == Seq::<u8>::empty(),
    {
        Self::new()
    }
}

} // verus!
