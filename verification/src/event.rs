//! File-open events: the validated form of the records the tracer emits.

use vstd::prelude::*;
use vstd::slice::slice_subrange;
use vstd::utf8::{decode_utf8, decode_utf8_encode_utf8, encode_utf8, valid_utf8};
use crate::bpf::{event_t, lineage_t, process_t, LINEAGE_MAX};
use crate::text::{first_index, lemma_first_index_is, utf8_to_string};

verus! {

/// One ancestor of the process that opened the file.
#[derive(Debug, PartialEq, Eq)]
pub struct Lineage {
    pub uid: u32,
    pub exe_path: String,
}

/// The process that opened the file.
#[derive(Debug, PartialEq, Eq)]
pub struct Process {
    pub comm: String,
    pub args: String,
    pub exe_path: String,
    pub cpu_cgroup: String,
    pub uid: u32,
    pub gid: u32,
    pub login_uid: u32,
    pub pid: u32,
    /// The ancestors, nearest first; at most `LINEAGE_MAX` of them.
    pub lineage: Vec<Lineage>,
}

/// A file-open event.
#[derive(Debug, PartialEq, Eq)]
pub struct Event {
    /// Nanoseconds since boot.
    pub timestamp: u64,
    pub process: Process,
    pub is_external_mount: i8,
    pub filename: String,
    pub host_file: String,
}

/// What a `Lineage` holds.
pub struct LineageView {
    pub uid: u32,
    pub exe_path: Seq<char>,
}

/// What a `Process` holds.
pub struct ProcessView {
    pub comm: Seq<char>,
    pub args: Seq<char>,
    pub exe_path: Seq<char>,
    pub cpu_cgroup: Seq<char>,
    pub uid: u32,
    pub gid: u32,
    pub login_uid: u32,
    pub pid: u32,
    pub lineage: Seq<LineageView>,
}

/// What an `Event` holds.
pub struct EventView {
    pub timestamp: u64,
    pub process: ProcessView,
    pub is_external_mount: i8,
    pub filename: Seq<char>,
    pub host_file: Seq<char>,
}

impl View for Lineage {
    type V = LineageView;

    open spec fn view(&self) -> LineageView {
        LineageView { uid: self.uid, exe_path: self.exe_path@ }
    }
}

impl View for Process {
    type V = ProcessView;

    open spec fn view(&self) -> ProcessView {
        ProcessView {
            comm: self.comm@,
            args: self.args@,
            exe_path: self.exe_path@,
            cpu_cgroup: self.cpu_cgroup@,
            uid: self.uid,
            gid: self.gid,
            login_uid: self.login_uid,
            pid: self.pid,
            lineage: Seq::new(self.lineage@.len(), |i: int| self.lineage@[i]@),
        }
    }
}

impl View for Event {
    type V = EventView;

    open spec fn view(&self) -> EventView {
        EventView {
            timestamp: self.timestamp,
            process: self.process@,
            is_external_mount: self.is_external_mount,
            filename: self.filename@,
            host_file: self.host_file@,
        }
    }
}

impl Clone for Lineage {
    fn clone(&self) -> (r: Self)
        ensures
            r == *self,
    {
        Lineage { uid: self.uid, exe_path: self.exe_path.clone() }
    }
}

/// Why a record was rejected.
#[derive(Debug, Clone, Copy, PartialEq, Eq, Structural)]
pub enum DecodeError {
    /// The record claims more ancestors than it has room for.
    LineageTooLong,
    /// A text field is not UTF-8.
    InvalidUtf8,
}

/// The bytes of the C string in `buf`: those before the first zero byte, or
/// the whole buffer when it holds none.
pub open spec fn c_str(buf: Seq<u8>) -> Seq<u8> {
    buf.take(first_index(buf, 0u8))
}

/// The text of the C string in `buf`.
pub open spec fn c_text(buf: Seq<u8>) -> Seq<char> {
    decode_utf8(c_str(buf))
}

/// The ancestor that `l` decodes to.
pub open spec fn lineage_decoded(l: lineage_t) -> LineageView {
    LineageView { uid: l.uid, exe_path: c_text(l.exe_path@) }
}

/// Every text field of `p` that is in use holds UTF-8.
pub open spec fn process_text_valid(p: process_t) -> bool {
    &&& valid_utf8(c_str(p.comm@))
    &&& valid_utf8(c_str(p.args@))
    &&& valid_utf8(c_str(p.exe_path@))
    &&& valid_utf8(c_str(p.cpu_cgroup@))
    &&& forall|i: int|
        0 <= i < p.lineage_len && i < LINEAGE_MAX ==> valid_utf8(
            c_str((#[trigger] p.lineage@[i]).exe_path@),
        )
}

/// The record can be decoded: its ancestor count fits, and every text field
/// in use holds UTF-8.
pub open spec fn decodable(raw: event_t) -> bool {
    &&& raw.process.lineage_len <= LINEAGE_MAX
    &&& process_text_valid(raw.process)
    &&& valid_utf8(c_str(raw.filename@))
    &&& valid_utf8(c_str(raw.host_file@))
}

/// The process that `p` decodes to.
pub open spec fn process_decoded(p: process_t) -> ProcessView {
    ProcessView {
        comm: c_text(p.comm@),
        args: c_text(p.args@),
        exe_path: c_text(p.exe_path@),
        cpu_cgroup: c_text(p.cpu_cgroup@),
        uid: p.uid,
        gid: p.gid,
        login_uid: p.login_uid,
        pid: p.pid,
        lineage: Seq::new(p.lineage_len as nat, |i: int| lineage_decoded(p.lineage@[i])),
    }
}

/// The event that `raw` decodes to.
pub open spec fn decoded(raw: event_t) -> EventView {
    EventView {
        timestamp: raw.timestamp,
        process: process_decoded(raw.process),
        is_external_mount: raw.is_external_mount,
        filename: c_text(raw.filename@),
        host_file: c_text(raw.host_file@),
    }
}

/// Decodes the C string in `buf`.
pub fn c_string(buf: &[u8]) -> (r: Option<String>)
    ensures
        r is Some <==> valid_utf8(c_str(buf@)),
        r matches Some(s) ==> s@ == c_text(buf@),
{
    let mut end: usize = 0;
    while end < buf.len() && buf[end] != 0
        invariant
            end <= buf@.len(),
            forall|j: int| 0 <= j < end ==> buf@[j] != 0u8,
        decreases buf@.len() - end,
    {
        end += 1;
    }
    proof {
        lemma_first_index_is(buf@, 0u8, end as int);
    }
    utf8_to_string(slice_subrange(buf, 0, end))
}

impl Lineage {
    /// Decodes one ancestor.
    pub fn try_from(raw: &lineage_t) -> (r: Option<Lineage>)
        ensures
            r is Some <==> valid_utf8(c_str(raw.exe_path@)),
            r matches Some(l) ==> l@ == lineage_decoded(*raw),
    {
        match c_string(raw.exe_path.as_slice()) {
            Some(exe_path) => Some(Lineage { uid: raw.uid, exe_path }),
            None => None,
        }
    }
}

impl Process {
    /// Decodes a process record.
    pub fn try_from(raw: &process_t) -> (r: Result<Process, DecodeError>)
        ensures
            r is Ok <==> raw.lineage_len <= LINEAGE_MAX && process_text_valid(*raw),
            r matches Ok(p) ==> p@ == process_decoded(*raw),
            r matches Err(e) ==> (e == DecodeError::LineageTooLong <==> raw.lineage_len
                > LINEAGE_MAX),
    {
        if raw.lineage_len as usize > LINEAGE_MAX {
            return Err(DecodeError::LineageTooLong);
        }
        let count = raw.lineage_len as usize;
        let mut lineage: Vec<Lineage> = Vec::new();
        let mut i: usize = 0;
        while i < count
            invariant
                i <= count,
                count == raw.lineage_len,
                count <= LINEAGE_MAX,
                lineage@.len() == i,
                forall|j: int|
                    0 <= j < i ==> valid_utf8(c_str((#[trigger] raw.lineage@[j]).exe_path@)),
                forall|j: int|
                    0 <= j < i ==> (#[trigger] lineage@[j])@ == lineage_decoded(raw.lineage@[j]),
            decreases count - i,
        {
            match Lineage::try_from(&raw.lineage[i]) {
                Some(l) => {
                    lineage.push(l);
                },
                None => {
                    return Err(DecodeError::InvalidUtf8);
                },
            }
            i += 1;
        }
        let comm = c_string(raw.comm.as_slice());
        let args = c_string(raw.args.as_slice());
        let exe_path = c_string(raw.exe_path.as_slice());
        let cpu_cgroup = c_string(raw.cpu_cgroup.as_slice());
        match (comm, args, exe_path, cpu_cgroup) {
            (Some(comm), Some(args), Some(exe_path), Some(cpu_cgroup)) => {
                let p = Process {
                    comm,
                    args,
                    exe_path,
                    cpu_cgroup,
                    uid: raw.uid,
                    gid: raw.gid,
                    login_uid: raw.login_uid,
                    pid: raw.pid,
                    lineage,
                };
                assert(p@.lineage =~= process_decoded(*raw).lineage);
                Ok(p)
            },
            _ => Err(DecodeError::InvalidUtf8),
        }
    }
}

impl Event {
    /// Decodes a record. Each text field is the C string in its buffer, which
    /// must hold UTF-8; the numbers are taken over as they are; the ancestors
    /// are the first `lineage_len` entries of the record.
    pub fn try_from(raw: &event_t) -> (r: Result<Event, DecodeError>)
        ensures
            r is Ok <==> decodable(*raw),
            r matches Ok(ev) ==> ev@ == decoded(*raw),
            r matches Err(e) ==> (e == DecodeError::LineageTooLong <==> raw.process.lineage_len
                > LINEAGE_MAX),
    {
        let process = match Process::try_from(&raw.process) {
            Ok(p) => p,
            Err(e) => {
                return Err(e);
            },
        };
        let filename = c_string(raw.filename.as_slice());
        let host_file = c_string(raw.host_file.as_slice());
        match (filename, host_file) {
            (Some(filename), Some(host_file)) => Ok(
                Event {
                    timestamp: raw.timestamp,
                    process,
                    is_external_mount: raw.is_external_mount,
                    filename,
                    host_file,
                },
            ),
            _ => Err(DecodeError::InvalidUtf8),
        }
    }

    /// Decodes the bytes of a record as the tracer wrote them. `None` when
    /// the bytes do not have the size of a record.
    pub fn from_record(bytes: &[u8]) -> (r: Option<Result<Event, DecodeError>>)
        ensures
            r is Some <==> bytes@.len() == crate::bpf::EVENT_SIZE,
            r matches Some(d) ==> exists|raw: event_t|
                {
                    &&& #[trigger] crate::bpf::event_layout(bytes@, raw)
                    &&& d is Ok <==> decodable(raw)
                    &&& d matches Ok(ev) ==> ev@ == decoded(raw)
                },
    {
        match event_t::from_bytes(bytes) {
            Some(raw) => Some(Event::try_from(&raw)),
            None => None,
        }
    }
}

/// Decoding keeps every text field byte for byte: the UTF-8 encoding of the
/// decoded text is the C string of the buffer it came from.
pub proof fn lemma_text_preserved(buf: Seq<u8>)
    requires
        valid_utf8(c_str(buf)),
    ensures
        encode_utf8(c_text(buf)) == c_str(buf),
{
    decode_utf8_encode_utf8(c_str(buf));
}

/// A record whose text fields hold UTF-8 decodes to an event with the same
/// numbers and, byte for byte, the same texts up to each terminator.
pub proof fn lemma_decode_preserves(raw: event_t)
    requires
        decodable(raw),
    ensures
        decoded(raw).timestamp == raw.timestamp,
        decoded(raw).is_external_mount == raw.is_external_mount,
        decoded(raw).process.uid == raw.process.uid,
        decoded(raw).process.gid == raw.process.gid,
        decoded(raw).process.login_uid == raw.process.login_uid,
        decoded(raw).process.pid == raw.process.pid,
        decoded(raw).process.lineage.len() == raw.process.lineage_len,
        encode_utf8(decoded(raw).filename) == c_str(raw.filename@),
        encode_utf8(decoded(raw).host_file) == c_str(raw.host_file@),
        encode_utf8(decoded(raw).process.comm) == c_str(raw.process.comm@),
        encode_utf8(decoded(raw).process.args) == c_str(raw.process.args@),
        encode_utf8(decoded(raw).process.exe_path) == c_str(raw.process.exe_path@),
        encode_utf8(decoded(raw).process.cpu_cgroup) == c_str(raw.process.cpu_cgroup@),
        forall|i: int|
            0 <= i < raw.process.lineage_len ==> {
                &&& (#[trigger] decoded(raw).process.lineage[i]).uid == raw.process.lineage@[i].uid
                &&& encode_utf8(decoded(raw).process.lineage[i].exe_path) == c_str(
                    raw.process.lineage@[i].exe_path@,
                )
            },
{
    lemma_text_preserved(raw.filename@);
    lemma_text_preserved(raw.host_file@);
    lemma_text_preserved(raw.process.comm@);
    lemma_text_preserved(raw.process.args@);
    lemma_text_preserved(raw.process.exe_path@);
    lemma_text_preserved(raw.process.cpu_cgroup@);
    assert forall|i: int| 0 <= i < raw.process.lineage_len implies {
        &&& (#[trigger] decoded(raw).process.lineage[i]).uid == raw.process.lineage@[i].uid
        &&& encode_utf8(decoded(raw).process.lineage[i].exe_path) == c_str(
            raw.process.lineage@[i].exe_path@,
        )
    } by {
        assert(valid_utf8(c_str(raw.process.lineage@[i].exe_path@)));
        lemma_text_preserved(raw.process.lineage@[i].exe_path@);
    }
}

} // verus!
