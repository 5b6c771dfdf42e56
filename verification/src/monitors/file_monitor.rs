//! The file-open collector: which hosts it runs on, and what it has the host
//! program into the tracer.

use vstd::prelude::*;
use vstd::string::StringSliceAdditionalSpecFns;
use vstd::utf8::encode_utf8;
use crate::bpf::{event_layout, event_t, path_cfg_t, EVENT_SIZE, LINEAGE_MAX, PATH_MAX};
use crate::config::{ConfigError, MAX_PATHS};
use crate::event::{decodable, decoded, DecodeError, Event};
use crate::monitor::{HostProbe, Monitor, MonitorEvent, StartPlan};

verus! {

/// Configuration of the file-open collector.
#[derive(Debug, PartialEq, Eq)]
pub struct FileMonitorConfig {
    /// The paths to watch.
    pub paths: Vec<String>,
}

impl Clone for FileMonitorConfig {
    fn clone(&self) -> (r: Self)
        ensures
            r.paths@ == self.paths@,
    {
        FileMonitorConfig { paths: self.paths.clone() }
    }
}

/// The file-open collector.
pub struct FileMonitor {
    config: FileMonitorConfig,
    running: bool,
}

/// The position of the first path that is too long for a filter, or
/// `paths.len()` when every path fits.
pub open spec fn first_long(paths: Seq<String>) -> int
    decreases paths.len(),
{
    if paths.len() == 0 || encode_utf8(paths[0]@).len() > PATH_MAX {
        0
    } else {
        1 + first_long(paths.drop_first())
    }
}

/// What keeps the tracer from being programmed with `paths`, if anything:
/// too many paths, or else the first path that is too long.
pub open spec fn paths_error(paths: Seq<String>) -> Option<ConfigError> {
    if paths.len() > MAX_PATHS {
        Some(ConfigError::TooManyPaths)
    } else if 0 <= first_long(paths) < paths.len() {
        Some(ConfigError::PathTooLong(first_long(paths) as usize))
    } else {
        None
    }
}

/// `filters` is the filter table for `paths`: entry by entry the path's
/// bytes, its length, and zeros after it.
pub open spec fn filters_for(paths: Seq<String>, filters: Seq<path_cfg_t>) -> bool {
    &&& filters.len() == paths.len()
    &&& forall|i: int|
        0 <= i < paths.len() ==> (#[trigger] filters[i]).wf() && filters[i]@ == encode_utf8(
            paths[i]@,
        )
}

/// A position that behaves like the first overlong path is `first_long`.
proof fn lemma_first_long_is(paths: Seq<String>, k: int)
    requires
        0 <= k <= paths.len(),
        forall|j: int| 0 <= j < k ==> encode_utf8(paths[j]@).len() <= PATH_MAX,
        k < paths.len() ==> encode_utf8(paths[k]@).len() > PATH_MAX,
    ensures
        first_long(paths) == k,
    decreases paths.len(),
{
    if paths.len() == 0 || encode_utf8(paths[0]@).len() > PATH_MAX {
    } else {
        let t = paths.drop_first();
        assert forall|j: int| 0 <= j < k - 1 implies encode_utf8(t[j]@).len() <= PATH_MAX by {
            assert(t[j] == paths[j + 1]);
        }
        lemma_first_long_is(t, k - 1);
    }
}

/// Builds the filter table for `paths`.
pub fn build_filters(paths: &Vec<String>) -> (r: Result<Vec<path_cfg_t>, ConfigError>)
    ensures
        match paths_error(paths@) {
            Some(e) => r == Err::<Vec<path_cfg_t>, ConfigError>(e),
            None => r matches Ok(filters) && filters_for(paths@, filters@),
        },
{
    if paths.len() > MAX_PATHS {
        return Err(ConfigError::TooManyPaths);
    }
    let mut filters: Vec<path_cfg_t> = Vec::new();
    let mut i: usize = 0;
    while i < paths.len()
        invariant
            i <= paths@.len(),
            paths@.len() <= MAX_PATHS,
            filters@.len() == i,
            forall|j: int| 0 <= j < i ==> encode_utf8(paths@[j]@).len() <= PATH_MAX,
            forall|j: int|
                0 <= j < i ==> (#[trigger] filters@[j]).wf() && filters@[j]@ == encode_utf8(
                    paths@[j]@,
                ),
        decreases paths@.len() - i,
    {
        let path = paths[i].as_str();
        if path.as_bytes().len() > PATH_MAX {
            proof {
                lemma_first_long_is(paths@, i as int);
            }
            return Err(ConfigError::PathTooLong(i));
        }
        let mut filter = path_cfg_t::new();
        filter.set(path);
        filters.push(filter);
        i += 1;
    }
    proof {
        lemma_first_long_is(paths@, paths@.len() as int);
    }
    Ok(filters)
}

/// What becomes of a record taken from the ring buffer.
#[derive(Debug, PartialEq, Eq)]
pub enum RecordOutcome {
    /// The record is an event: put it on the event bus.
    Emit(MonitorEvent),
    /// The record does not have the size of one: pass it over.
    BadSize,
    /// The record cannot be decoded: pass it over.
    Undecodable(DecodeError),
}

/// Whether draining goes on after an event was put on the event bus.
#[derive(Debug, Clone, Copy, PartialEq, Eq, Structural)]
pub enum DrainAction {
    /// Take the next record; when none is left, clear readiness and yield.
    Continue,
    /// The sink is gone: end the task.
    Stop,
}

/// Decides what becomes of a record taken from the ring buffer. A record
/// that cannot be decoded is passed over, and draining goes on; the outcome
/// says why it could not: more ancestors than a record has room for, or else
/// text that is not UTF-8.
pub fn on_record(record: &[u8]) -> (r: RecordOutcome)
    ensures
        r is BadSize <==> record@.len() != EVENT_SIZE,
        record@.len() == EVENT_SIZE ==> exists|raw: event_t|
            {
                &&& #[trigger] event_layout(record@, raw)
                &&& r is Emit <==> decodable(raw)
                &&& r matches RecordOutcome::Emit(MonitorEvent::FileActivity(ev)) ==> ev@
                    == decoded(raw)
                &&& (r is Emit ==> (r matches RecordOutcome::Emit(MonitorEvent::FileActivity(_))))
                &&& (r is Undecodable <==> !decodable(raw))
                &&& r matches RecordOutcome::Undecodable(e) ==> (e == DecodeError::LineageTooLong
                    <==> raw.process.lineage_len > LINEAGE_MAX)
            },
{
    match event_t::from_bytes(record) {
        None => RecordOutcome::BadSize,
        Some(raw) => match Event::try_from(&raw) {
            Ok(ev) => RecordOutcome::Emit(MonitorEvent::FileActivity(ev)),
            Err(e) => RecordOutcome::Undecodable(e),
        },
    }
}

/// Decides whether draining goes on after an event was handed to the event
/// bus: it does as long as the sink takes events.
pub fn after_emit(delivered: bool) -> (r: DrainAction)
    ensures
        r == if delivered {
            DrainAction::Continue
        } else {
            DrainAction::Stop
        },
{
    if delivered {
        DrainAction::Continue
    } else {
        DrainAction::Stop
    }
}

impl FileMonitor {
    /// A collector for `config`, not running.
    pub fn new(config: FileMonitorConfig) -> (r: Self)
        ensures
            r.config() == config,
            !r.running(),
    {
        Self { config, running: false }
    }

    /// The configuration the collector was made with.
    pub closed spec fn config(&self) -> FileMonitorConfig {
        self.config
    }

    /// The paths the collector watches.
    pub fn paths(&self) -> (r: &Vec<String>)
        ensures
            *r == self.config().paths,
    {
        &self.config.paths
    }
}

impl Monitor for FileMonitor {
    open spec fn spec_name(&self) -> Seq<char> {
        "file_monitor"@
    }

    open spec fn spec_description(&self) -> Seq<char> {
        "Monitors file access patterns using eBPF LSM hooks"@
    }

    closed spec fn running(&self) -> bool {
        self.running
    }

    /// Root, something to watch, and kernel type information.
    open spec fn capable(&self, host: HostProbe) -> bool {
        host.euid == 0 && self.config().paths@.len() > 0 && host.btf_available
    }

    open spec fn same_settings(&self, other: &Self) -> bool {
        self.config() == other.config()
    }

    open spec fn startable(&self) -> bool {
        paths_error(self.config().paths@) is None
    }

    /// The plan of a stopped collector is the tracer with the filter table of
    /// its paths; it fails on more paths than the table holds and on a path
    /// longer than a filter.
    open spec fn plans(&self, r: Result<StartPlan, ConfigError>) -> bool {
        if self.running() {
            r matches Ok(StartPlan::Nothing)
        } else {
            match paths_error(self.config().paths@) {
                Some(e) => r == Err::<StartPlan, ConfigError>(e),
                None => r matches Ok(StartPlan::Tracer { paths_len, filters }) && paths_len
                    == self.config().paths@.len() && filters_for(
                    self.config().paths@,
                    filters@,
                ),
            }
        }
    }

    fn name(&self) -> (r: &'static str) {
        "file_monitor"
    }

    fn description(&self) -> (r: &'static str) {
        "Monitors file access patterns using eBPF LSM hooks"
    }

    fn can_run(&self, host: &HostProbe) -> (r: bool) {
        host.euid == 0 && self.config.paths.len() > 0 && host.btf_available
    }

    fn start(&self) -> (r: Result<StartPlan, ConfigError>) {
        if self.running {
            return Ok(StartPlan::Nothing);
        }
        match build_filters(&self.config.paths) {
            Ok(filters) => Ok(
                StartPlan::Tracer { paths_len: self.config.paths.len() as u32, filters },
            ),
            Err(e) => Err(e),
        }
    }

    fn mark_started(&mut self)
        ensures
            final(self).config() == old(self).config(),
    {
        self.running = true;
    }

    fn stop(&mut self)
        ensures
            final(self).config() == old(self).config(),
    {
        self.running = false;
    }

    fn is_running(&self) -> (r: bool) {
        self.running
    }
}

} // verus!
