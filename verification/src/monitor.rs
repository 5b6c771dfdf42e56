//! The collector contract, the events collectors produce, and the registry
//! that starts and stops them.

use vstd::prelude::*;
use crate::bpf::path_cfg_t;
use crate::config::ConfigError;
use crate::event::Event;
use crate::monitors::file_monitor::FileMonitor;
use crate::monitors::package_monitor::PackageMonitor;
use crate::report::PackageReport;
use crate::text::str_eq;

verus! {

/// Capacity of the event bus between the collectors and the sink.
pub const EVENT_BUS_CAPACITY: usize = 1024;

/// What a collector produces.
#[derive(Debug, PartialEq, Eq)]
pub enum MonitorEvent {
    /// A file was opened.
    FileActivity(Event),
    /// The package inventory was taken.
    PackageUpdate(PackageReport),
}

/// What was found out about the host, for the collectors to judge whether
/// they can run on it.
#[derive(Debug, Clone, Copy, PartialEq, Eq, Structural)]
pub struct HostProbe {
    /// The effective user id of the process.
    pub euid: u32,
    /// The kernel's type information can be loaded.
    pub btf_available: bool,
    /// The package tool is on the search path.
    pub rpm_found: bool,
    /// The package database directory exists.
    pub rpmdb_exists: bool,
    /// A host-guest socket can be made.
    pub vsock_available: bool,
}

/// How the package collector ships its reports.
#[derive(Debug, PartialEq, Eq)]
pub enum Transport {
    /// Over the host-guest transport.
    Vsock,
    /// By RPC to this URL.
    Grpc(String),
    /// Not at all: the report only goes onto the event bus.
    LocalOnly,
}

/// What the host has to set up for a collector that starts.
#[derive(Debug, PartialEq, Eq)]
pub enum StartPlan {
    /// Nothing: the collector is running already.
    Nothing,
    /// Load the tracer with `paths_len` as its filter count, write `filters`
    /// into its filter table from entry 0 on, attach it and drain its ring
    /// buffer.
    Tracer { paths_len: u32, filters: Vec<path_cfg_t> },
    /// Run `command` now and then every `interval` seconds, and ship each
    /// inventory by `transport`.
    Scanner { command: Vec<String>, interval: u64, transport: Transport },
}

/// The lifecycle contract of a collector.
pub trait Monitor: Sized {
    /// The collector's name.
    spec fn spec_name(&self) -> Seq<char>;

    /// What the collector does, in words.
    spec fn spec_description(&self) -> Seq<char>;

    /// The collector is running.
    spec fn running(&self) -> bool;

    /// The collector can run on a host that was probed as `host`.
    spec fn capable(&self, host: HostProbe) -> bool;

    /// The collector's configuration allows it to start.
    spec fn startable(&self) -> bool;

    /// `r` is what the collector answers when it is asked to start.
    spec fn plans(&self, r: Result<StartPlan, ConfigError>) -> bool;

    /// The collector is of the same kind as `other` and has the same
    /// configuration; the two differ at most in whether they run.
    spec fn same_settings(&self, other: &Self) -> bool;

    /// A stable identifier of the collector.
    fn name(&self) -> (r: &'static str)
        ensures
            r@ == self.spec_name(),
    ;

    /// What the collector does, for people.
    fn description(&self) -> (r: &'static str)
        ensures
            r@ == self.spec_description(),
    ;

    /// Whether the collector can run on the probed host.
    fn can_run(&self, host: &HostProbe) -> (r: bool)
        ensures
            r == self.capable(*host),
    ;

    /// Starts the collector as far as that is decided here: says what the
    /// host has to set up for it, or why it cannot start. A running collector
    /// needs nothing. The collector counts as running once `mark_started`
    /// records that the host carried the plan out.
    fn start(&self) -> (r: Result<StartPlan, ConfigError>)
        ensures
            self.plans(r),
            r is Ok <==> self.running() || self.startable(),
            self.running() ==> r matches Ok(StartPlan::Nothing),
            !self.running() ==> !(r matches Ok(StartPlan::Nothing)),
    ;

    /// Records that the host set up what the start plan asked for.
    fn mark_started(&mut self)
        ensures
            final(self).running(),
            final(self).same_settings(old(self)),
            final(self).spec_name() == old(self).spec_name(),
            final(self).startable() == old(self).startable(),
            forall|h: HostProbe| final(self).capable(h) == old(self).capable(h),
    ;

    /// Marks the collector as not running. Stopping a stopped collector
    /// changes nothing.
    fn stop(&mut self)
        ensures
            !final(self).running(),
            final(self).same_settings(old(self)),
            final(self).spec_name() == old(self).spec_name(),
            final(self).startable() == old(self).startable(),
            forall|h: HostProbe| final(self).capable(h) == old(self).capable(h),
            !old(self).running() ==> *final(self) == *old(self),
    ;

    /// Whether the collector is running.
    fn is_running(&self) -> (r: bool)
        ensures
            r == self.running(),
    ;
}

/// Any of the collectors.
pub enum AnyMonitor {
    File(FileMonitor),
    Package(PackageMonitor),
}

impl Monitor for AnyMonitor {
    open spec fn spec_name(&self) -> Seq<char> {
        match self {
            AnyMonitor::File(m) => m.spec_name(),
            AnyMonitor::Package(m) => m.spec_name(),
        }
    }

    open spec fn spec_description(&self) -> Seq<char> {
        match self {
            AnyMonitor::File(m) => m.spec_description(),
            AnyMonitor::Package(m) => m.spec_description(),
        }
    }

    open spec fn running(&self) -> bool {
        match self {
            AnyMonitor::File(m) => m.running(),
            AnyMonitor::Package(m) => m.running(),
        }
    }

    open spec fn capable(&self, host: HostProbe) -> bool {
        match self {
            AnyMonitor::File(m) => m.capable(host),
            AnyMonitor::Package(m) => m.capable(host),
        }
    }

    open spec fn startable(&self) -> bool {
        match self {
            AnyMonitor::File(m) => m.startable(),
            AnyMonitor::Package(m) => m.startable(),
        }
    }

    open spec fn plans(&self, r: Result<StartPlan, ConfigError>) -> bool {
        match self {
            AnyMonitor::File(m) => m.plans(r),
            AnyMonitor::Package(m) => m.plans(r),
        }
    }

    open spec fn same_settings(&self, other: &Self) -> bool {
        match (*self, *other) {
            (AnyMonitor::File(a), AnyMonitor::File(b)) => a.same_settings(&b),
            (AnyMonitor::Package(a), AnyMonitor::Package(b)) => a.same_settings(&b),
            _ => false,
        }
    }

    fn name(&self) -> (r: &'static str) {
        match self {
            AnyMonitor::File(m) => m.name(),
            AnyMonitor::Package(m) => m.name(),
        }
    }

    fn description(&self) -> (r: &'static str) {
        match self {
            AnyMonitor::File(m) => m.description(),
            AnyMonitor::Package(m) => m.description(),
        }
    }

    fn can_run(&self, host: &HostProbe) -> (r: bool) {
        match self {
            AnyMonitor::File(m) => m.can_run(host),
            AnyMonitor::Package(m) => m.can_run(host),
        }
    }

    fn start(&self) -> (r: Result<StartPlan, ConfigError>) {
        match self {
            AnyMonitor::File(m) => m.start(),
            AnyMonitor::Package(m) => m.start(),
        }
    }

    fn mark_started(&mut self) {
        match self {
            AnyMonitor::File(m) => m.mark_started(),
            AnyMonitor::Package(m) => m.mark_started(),
        }
    }

    fn stop(&mut self) {
        match self {
            AnyMonitor::File(m) => m.stop(),
            AnyMonitor::Package(m) => m.stop(),
        }
    }

    fn is_running(&self) -> (r: bool) {
        match self {
            AnyMonitor::File(m) => m.is_running(),
            AnyMonitor::Package(m) => m.is_running(),
        }
    }
}

/// The names of `monitors`, in order.
pub open spec fn names_of(monitors: Seq<AnyMonitor>) -> Seq<Seq<char>> {
    Seq::new(monitors.len(), |i: int| monitors[i].spec_name())
}

/// The collectors of an agent, in the order they were registered. No two
/// have the same name.
pub struct MonitorRegistry {
    monitors: Vec<AnyMonitor>,
}

impl View for MonitorRegistry {
    type V = Seq<AnyMonitor>;

    closed spec fn view(&self) -> Seq<AnyMonitor> {
        self.monitors@
    }
}

impl MonitorRegistry {
    /// No two collectors have the same name.
    pub open spec fn wf(&self) -> bool {
        names_of(self@).no_duplicates()
    }

    /// A collector named `name` is registered.
    pub open spec fn has(&self, name: Seq<char>) -> bool {
        names_of(self@).contains(name)
    }

    /// An empty registry.
    pub fn new() -> (r: Self)
        ensures
            r@ == Seq::<AnyMonitor>::empty(),
            r.wf(),
    {
        Self { monitors: Vec::new() }
    }

    /// The position of the collector named `name`, if one is registered.
    fn position(&self, name: &str) -> (r: Option<usize>)
        ensures
            match r {
                Some(i) => i < self@.len() && self@[i as int].spec_name() == name@,
                None => !self.has(name@),
            },
    {
        let mut i: usize = 0;
        while i < self.monitors.len()
            invariant
                i <= self.monitors@.len(),
                forall|j: int| 0 <= j < i ==> self.monitors@[j].spec_name() != name@,
            decreases self.monitors@.len() - i,
        {
            if str_eq(self.monitors[i].name(), name) {
                return Some(i);
            }
            i += 1;
        }
        assert(!self.has(name@)) by {
            if self.has(name@) {
                let j = choose|j: int| 0 <= j < names_of(self@).len() && names_of(self@)[j] == name@;
                assert(self.monitors@[j].spec_name() == name@);
            }
        }
        None
    }

    /// Adds a collector, unless one of its name is registered already.
    /// Returns whether it was added.
    pub fn register(&mut self, monitor: AnyMonitor) -> (added: bool)
        requires
            old(self).wf(),
        ensures
            final(self).wf(),
            added == !old(self).has(monitor.spec_name()),
            added ==> final(self)@ == old(self)@.push(monitor),
            !added ==> final(self)@ == old(self)@,
    {
        match self.position(monitor.name()) {
            Some(i) => {
                assert(names_of(self@)[i as int] == monitor.spec_name());
                false
            },
            None => {
                let ghost before = names_of(self@);
                let ghost name = monitor.spec_name();
                self.monitors.push(monitor);
                proof {
                    let after = names_of(self@);
                    assert(after == before.push(name));
                    assert forall|i: int, j: int|
                        0 <= i < after.len() && 0 <= j < after.len() && i != j implies after[i]
                        != after[j] by {
                        if i < before.len() && j < before.len() {
                            assert(before[i] != before[j]);
                        } else if i < before.len() {
                            assert(before.contains(before[i]));
                        } else {
                            assert(before.contains(before[j]));
                        }
                    }
                }
                true
            },
        }
    }

    /// The registered collectors, in registration order.
    pub fn monitors(&self) -> (r: &Vec<AnyMonitor>)
        ensures
            r@ == self@,
    {
        &self.monitors
    }

    /// The collector named `name`, if one is registered.
    pub fn get_monitor(&self, name: &str) -> (r: Option<&AnyMonitor>)
        ensures
            r is Some <==> self.has(name@),
            r matches Some(m) ==> m.spec_name() == name@ && self@.contains(*m),
    {
        match self.position(name) {
            Some(i) => {
                assert(names_of(self@)[i as int] == name@);
                Some(&self.monitors[i])
            },
            None => None,
        }
    }

    /// The collector named `name`, if one is registered, to be changed in
    /// place. The registry stays well-formed as long as the collector keeps
    /// its name.
    pub fn get_monitor_mut(&mut self, name: &str) -> (r: Option<&mut AnyMonitor>)
        ensures
            r is Some <==> old(self).has(name@),
            r is None ==> final(self)@ == old(self)@,
            r matches Some(m) ==> m.spec_name() == name@ && exists|i: int|
                0 <= i < old(self)@.len() && *m == #[trigger] old(self)@[i] && final(self)@
                    == old(self)@.update(i, *final(m)),
    {
        match self.position(name) {
            Some(i) => {
                assert(names_of(self@)[i as int] == name@);
                Some(&mut self.monitors[i])
            },
            None => None,
        }
    }

    /// The names of the registered collectors, in registration order.
    pub fn list_monitors(&self) -> (r: Vec<&'static str>)
        ensures
            r@.len() == self@.len(),
            forall|i: int| 0 <= i < r@.len() ==> (#[trigger] r@[i])@ == self@[i].spec_name(),
    {
        let mut out: Vec<&'static str> = Vec::new();
        let mut i: usize = 0;
        while i < self.monitors.len()
            invariant
                i <= self.monitors@.len(),
                out@.len() == i,
                forall|j: int| 0 <= j < i ==> (#[trigger] out@[j])@ == self.monitors@[j].spec_name(),
            decreases self.monitors@.len() - i,
        {
            out.push(self.monitors[i].name());
            i += 1;
        }
        out
    }

    /// The number of registered collectors.
    pub fn len(&self) -> (r: usize)
        ensures
            r == self@.len(),
    {
        self.monitors.len()
    }
}

impl Default for MonitorRegistry {
    fn default() -> (r: Self)
        ensures
            r@ == Seq::<AnyMonitor>::empty(),
    {
        Self::new()
    }
}

/// Where a run of the registry stands.
#[derive(Debug, Clone, Copy, PartialEq, Eq, Structural)]
pub enum RunPhase {
    /// Nothing was started yet.
    Idle,
    /// The host is setting up the collector at this position.
    Starting(usize),
    /// The collectors run and the sink drains the event bus.
    Serving,
    /// The host is tearing down the collector at this position.
    Stopping(usize),
    /// The run is over.
    Finished,
}

/// What the host reports to a run.
#[derive(Debug, Clone, Copy, PartialEq, Eq, Structural)]
pub enum RunEvent {
    /// The run is to begin.
    Begin,
    /// The start plan was carried out, or it failed.
    Started(bool),
    /// The process was interrupted.
    Shutdown,
    /// The collector was torn down, or tearing it down failed.
    Stopped(bool),
}

/// What a run asks of the host.
#[derive(Debug, PartialEq, Eq)]
pub enum RunAction {
    /// Carry out `plan` for the collector at `index` and report how it went.
    Start { index: usize, plan: StartPlan },
    /// Run the sink on the event bus until the process is interrupted.
    Serve,
    /// Tear down the collector at this position and report how it went.
    Stop(usize),
    /// Leave, with success.
    Exit,
    /// Nothing: the event does not belong to the phase the run is in.
    Ignored,
}

/// A run of the registry as far as its decisions go: the phase, which
/// collectors are running, and which are ready to be started, that is able to
/// run on the host and allowed to start by their configuration.
#[verifier::ext_equal]
pub struct RunView {
    pub phase: RunPhase,
    pub running: Seq<bool>,
    pub ready: Seq<bool>,
}

impl RunView {
    /// The bookkeeping agrees with the phase.
    pub open spec fn wf(self) -> bool {
        &&& self.running.len() == self.ready.len()
        &&& self.running.len() <= usize::MAX
        &&& match self.phase {
            RunPhase::Starting(i) => i < self.running.len() && self.ready[i as int]
                && !self.running[i as int],
            RunPhase::Stopping(i) => i < self.running.len() && self.running[i as int]
                && forall|j: int| 0 <= j < i ==> !self.running[j],
            _ => true,
        }
    }

    /// The first position at or after `from` of a collector that is ready
    /// and not running, or the number of collectors when there is none.
    pub open spec fn next_start(self, from: int) -> int
        decreases self.running.len() - from,
    {
        if from < 0 || from >= self.running.len() {
            self.running.len() as int
        } else if self.ready[from] && !self.running[from] {
            from
        } else {
            self.next_start(from + 1)
        }
    }

    /// The first position at or after `from` of a running collector, or the
    /// number of collectors when there is none.
    pub open spec fn next_stop(self, from: int) -> int
        decreases self.running.len() - from,
    {
        if from < 0 || from >= self.running.len() {
            self.running.len() as int
        } else if self.running[from] {
            from
        } else {
            self.next_stop(from + 1)
        }
    }

    /// The run once the collectors before `from` are dealt with at start:
    /// the next one that is ready is started; when none is left the run
    /// serves if anything is running, and is over if nothing is.
    pub open spec fn settle_start(self, from: int) -> RunView {
        let i = self.next_start(from);
        RunView {
            phase: if i < self.running.len() {
                RunPhase::Starting(i as usize)
            } else if self.next_stop(0) < self.running.len() {
                RunPhase::Serving
            } else {
                RunPhase::Finished
            },
            ..self
        }
    }

    /// The run once the collectors before `from` are dealt with at shutdown:
    /// the next one that is running is stopped; when none is left the run is
    /// over.
    pub open spec fn settle_stop(self, from: int) -> RunView {
        let i = self.next_stop(from);
        RunView {
            phase: if i < self.running.len() {
                RunPhase::Stopping(i as usize)
            } else {
                RunPhase::Finished
            },
            ..self
        }
    }

    /// The event belongs to the phase the run is in.
    pub open spec fn applies(self, e: RunEvent) -> bool {
        match (self.phase, e) {
            (RunPhase::Idle, RunEvent::Begin) => true,
            (RunPhase::Starting(_), RunEvent::Started(_)) => true,
            (RunPhase::Serving, RunEvent::Shutdown) => true,
            (RunPhase::Stopping(_), RunEvent::Stopped(_)) => true,
            _ => false,
        }
    }

    /// The run after `e`. A collector whose start succeeded is running; one
    /// whose start failed is not, and the run goes on with the next. A
    /// collector that was to be stopped is not running, however stopping it
    /// went. An event that does not belong to the phase changes nothing.
    pub open spec fn step(self, e: RunEvent) -> RunView {
        match (self.phase, e) {
            (RunPhase::Idle, RunEvent::Begin) => self.settle_start(0),
            (RunPhase::Starting(i), RunEvent::Started(ok)) => (RunView {
                running: self.running.update(i as int, ok),
                ..self
            }).settle_start(i + 1),
            (RunPhase::Serving, RunEvent::Shutdown) => self.settle_stop(0),
            (RunPhase::Stopping(i), RunEvent::Stopped(_)) => (RunView {
                running: self.running.update(i as int, false),
                ..self
            }).settle_stop(i + 1),
            _ => self,
        }
    }

    /// The run after the host answered every start it was asked for, where
    /// `ok[i]` says how the start of the collector at `i` goes; at most
    /// `fuel` starts are answered.
    pub open spec fn run_starts(self, ok: Seq<bool>, fuel: nat) -> RunView
        decreases fuel,
    {
        if fuel == 0 {
            self
        } else {
            match self.phase {
                RunPhase::Starting(i) => self.step(RunEvent::Started(ok[i as int])).run_starts(
                    ok,
                    (fuel - 1) as nat,
                ),
                _ => self,
            }
        }
    }

    /// The run after the host answered every stop it was asked for, where
    /// `ok[i]` says how stopping the collector at `i` goes; at most `fuel`
    /// stops are answered.
    pub open spec fn run_stops(self, ok: Seq<bool>, fuel: nat) -> RunView
        decreases fuel,
    {
        if fuel == 0 {
            self
        } else {
            match self.phase {
                RunPhase::Stopping(i) => self.step(RunEvent::Stopped(ok[i as int])).run_stops(
                    ok,
                    (fuel - 1) as nat,
                ),
                _ => self,
            }
        }
    }
}

/// `next_start` finds the first collector at or after `from` that is ready
/// and not running.
pub proof fn lemma_next_start(v: RunView, from: int)
    requires
        v.running.len() == v.ready.len(),
        0 <= from <= v.running.len(),
    ensures
        from <= v.next_start(from) <= v.running.len(),
        v.next_start(from) < v.running.len() ==> v.ready[v.next_start(from)]
            && !v.running[v.next_start(from)],
        forall|j: int| from <= j < v.next_start(from) ==> !(v.ready[j] && !v.running[j]),
    decreases v.running.len() - from,
{
    if from < v.running.len() && !(v.ready[from] && !v.running[from]) {
        lemma_next_start(v, from + 1);
    }
}

/// `next_stop` finds the first running collector at or after `from`.
pub proof fn lemma_next_stop(v: RunView, from: int)
    requires
        0 <= from <= v.running.len(),
    ensures
        from <= v.next_stop(from) <= v.running.len(),
        v.next_stop(from) < v.running.len() ==> v.running[v.next_stop(from)],
        forall|j: int| from <= j < v.next_stop(from) ==> !v.running[j],
    decreases v.running.len() - from,
{
    if from < v.running.len() && !v.running[from] {
        lemma_next_stop(v, from + 1);
    }
}

/// Every step keeps the bookkeeping in order.
pub proof fn lemma_step_wf(v: RunView, e: RunEvent)
    requires
        v.wf(),
    ensures
        v.step(e).wf(),
        v.step(e).ready == v.ready,
        v.step(e).running.len() == v.running.len(),
{
    match (v.phase, e) {
        (RunPhase::Idle, RunEvent::Begin) => {
            lemma_next_start(v, 0);
        },
        (RunPhase::Starting(i), RunEvent::Started(ok)) => {
            let w = RunView { running: v.running.update(i as int, ok), ..v };
            lemma_next_start(w, i + 1);
        },
        (RunPhase::Serving, RunEvent::Shutdown) => {
            lemma_next_stop(v, 0);
        },
        (RunPhase::Stopping(i), RunEvent::Stopped(_)) => {
            let w = RunView { running: v.running.update(i as int, false), ..v };
            lemma_next_stop(w, i + 1);
        },
        _ => {},
    }
}

/// The collectors that run once every start is answered: those that ran
/// before, and those that were ready and whose start succeeded.
pub open spec fn started(v0: RunView, ok: Seq<bool>, v: RunView, upto: int) -> bool {
    &&& v.ready == v0.ready
    &&& v.running.len() == v0.running.len()
    &&& forall|j: int|
        #![trigger v.running[j]]
        0 <= j < upto ==> v.running[j] == (v0.running[j] || (v0.ready[j] && ok[j]))
    &&& forall|j: int|
        #![trigger v.running[j]]
        upto <= j < v.running.len() ==> v.running[j] == v0.running[j]
}

proof fn lemma_settle_start(v0: RunView, ok: Seq<bool>, w: RunView, from: int)
    requires
        v0.wf(),
        0 <= from <= w.running.len(),
        started(v0, ok, w, from),
    ensures
        w.settle_start(from).wf(),
        w.settle_start(from).phase matches RunPhase::Starting(i) ==> from <= i && started(
            v0,
            ok,
            w.settle_start(from),
            i as int,
        ),
        !(w.settle_start(from).phase is Starting) ==> started(
            v0,
            ok,
            w.settle_start(from),
            w.running.len() as int,
        ) && (w.settle_start(from).phase == RunPhase::Serving || w.settle_start(from).phase
            == RunPhase::Finished) && (w.settle_start(from).phase == RunPhase::Serving
            <==> exists|j: int| 0 <= j < w.running.len() && w.running[j]),
{
    lemma_next_start(w, from);
    lemma_next_stop(w, 0);
    let s = w.settle_start(from);
    let i = w.next_start(from);
    let n = w.next_stop(0);
    assert(s.running == w.running && s.ready == w.ready);
    assert forall|j: int| 0 <= j < i implies s.running[j] == (v0.running[j] || (v0.ready[j]
        && ok[j])) by {
        if j >= from {
            assert(!(w.ready[j] && !w.running[j]));
        }
    }
    if n < w.running.len() {
        assert(w.running[n]);
    }
}

proof fn lemma_run_starts(v0: RunView, ok: Seq<bool>, v: RunView, fuel: nat)
    requires
        v0.wf(),
        v.wf(),
        ok.len() == v0.running.len(),
        v.phase matches RunPhase::Starting(i) ==> started(v0, ok, v, i as int) && fuel
            >= v.running.len() - i,
        !(v.phase is Starting) ==> started(v0, ok, v, v.running.len() as int) && (v.phase
            == RunPhase::Serving || v.phase == RunPhase::Finished) && (v.phase
            == RunPhase::Serving <==> exists|j: int| 0 <= j < v.running.len() && v.running[j]),
    ensures
        ({
            let end = v.run_starts(ok, fuel);
            &&& started(v0, ok, end, end.running.len() as int)
            &&& (end.phase == RunPhase::Serving || end.phase == RunPhase::Finished)
            &&& (end.phase == RunPhase::Serving <==> exists|j: int|
                0 <= j < end.running.len() && end.running[j])
        }),
    decreases fuel,
{
    match v.phase {
        RunPhase::Starting(i) => {
            let w = RunView { running: v.running.update(i as int, ok[i as int]), ..v };
            assert(!v.running[i as int] && v.ready[i as int]);
            assert(v0.running[i as int] == v.running[i as int]);
            assert forall|j: int| 0 <= j < i + 1 implies w.running[j] == (v0.running[j] || (
            v0.ready[j] && ok[j])) by {
                if j < i {
                    assert(w.running[j] == v.running[j]);
                }
            }
            assert forall|j: int| i + 1 <= j < w.running.len() implies w.running[j]
                == v0.running[j] by {
                assert(w.running[j] == v.running[j]);
            }
            assert(started(v0, ok, w, i + 1));
            lemma_settle_start(v0, ok, w, i + 1);
            lemma_run_starts(v0, ok, w.settle_start(i + 1), (fuel - 1) as nat);
        },
        _ => {},
    }
}

/// Starting: when a run begins and every start it asks for is answered,
/// the collectors that run are those that ran before and those that were
/// ready and whose start succeeded; the run serves if any collector runs,
/// and is over otherwise. So with every start succeeding, every collector
/// that is ready runs when the start phase ends.
pub proof fn lemma_start_all(v0: RunView, ok: Seq<bool>)
    requires
        v0.wf(),
        v0.phase == RunPhase::Idle,
        ok.len() == v0.running.len(),
    ensures
        ({
            let end = v0.step(RunEvent::Begin).run_starts(ok, v0.running.len());
            &&& end.ready == v0.ready
            &&& end.running.len() == v0.running.len()
            &&& forall|j: int|
                #![trigger end.running[j]]
                0 <= j < v0.running.len() ==> end.running[j] == (v0.running[j] || (v0.ready[j]
                    && ok[j]))
            &&& (end.phase == RunPhase::Serving || end.phase == RunPhase::Finished)
            &&& (end.phase == RunPhase::Serving <==> exists|j: int|
                0 <= j < end.running.len() && end.running[j])
        }),
{
    lemma_settle_start(v0, ok, v0, 0);
    lemma_run_starts(v0, ok, v0.settle_start(0), v0.running.len());
}

proof fn lemma_run_stops(v: RunView, ok: Seq<bool>, fuel: nat)
    requires
        v.wf(),
        v.phase matches RunPhase::Stopping(i) ==> fuel >= v.running.len() - i,
        !(v.phase is Stopping) ==> v.phase == RunPhase::Finished && forall|j: int|
            0 <= j < v.running.len() ==> !v.running[j],
    ensures
        ({
            let end = v.run_stops(ok, fuel);
            &&& end.phase == RunPhase::Finished
            &&& end.running.len() == v.running.len()
            &&& end.ready == v.ready
            &&& forall|j: int| 0 <= j < end.running.len() ==> !end.running[j]
        }),
    decreases fuel,
{
    match v.phase {
        RunPhase::Stopping(i) => {
            let w = RunView { running: v.running.update(i as int, false), ..v };
            lemma_next_stop(w, i + 1);
            lemma_run_stops(w.settle_stop(i + 1), ok, (fuel - 1) as nat);
        },
        _ => {},
    }
}

/// Stopping: when a serving run is interrupted and every stop it asks for
/// is answered, however the stops go, the run is over and no collector is
/// running.
pub proof fn lemma_stop_all(v0: RunView, ok: Seq<bool>)
    requires
        v0.wf(),
        v0.phase == RunPhase::Serving,
    ensures
        ({
            let end = v0.step(RunEvent::Shutdown).run_stops(ok, v0.running.len());
            &&& end.phase == RunPhase::Finished
            &&& end.running.len() == v0.running.len()
            &&& forall|j: int| 0 <= j < end.running.len() ==> !end.running[j]
        }),
{
    lemma_next_stop(v0, 0);
    lemma_run_stops(v0.settle_stop(0), ok, v0.running.len());
}

/// The run that `monitors` are in on the host `host`, in phase `phase`.
pub open spec fn run_view(monitors: Seq<AnyMonitor>, host: HostProbe, phase: RunPhase) -> RunView {
    RunView {
        phase,
        running: Seq::new(monitors.len(), |i: int| monitors[i].running()),
        ready: Seq::new(
            monitors.len(),
            |i: int| monitors[i].capable(host) && monitors[i].startable(),
        ),
    }
}

/// `a` is what a run asks of the host after an event that belonged to its
/// phase brought it to `phase`.
pub open spec fn asks(monitors: Seq<AnyMonitor>, phase: RunPhase, a: RunAction) -> bool {
    match phase {
        RunPhase::Idle => false,
        RunPhase::Starting(i) => a matches RunAction::Start { index, plan } && index == i
            && !(plan is Nothing) && monitors[i as int].plans(Ok(plan)),
        RunPhase::Serving => a is Serve,
        RunPhase::Stopping(i) => a == RunAction::Stop(i),
        RunPhase::Finished => a is Exit,
    }
}

/// The collectors `after` are the collectors `before`, each as it was but
/// for whether it runs.
pub open spec fn same_collectors(before: Seq<AnyMonitor>, after: Seq<AnyMonitor>) -> bool {
    &&& after.len() == before.len()
    &&& forall|j: int|
        #![trigger after[j]]
        0 <= j < after.len() ==> after[j].same_settings(&before[j]) && (after[j].running()
            == before[j].running() ==> after[j] == before[j])
}

/// One run of a registry: its collectors are started one by one, the sink
/// serves until the process is interrupted, and the collectors are stopped
/// one by one. The run is told what the host did and says what to do next.
pub struct Runner {
    registry: MonitorRegistry,
    host: HostProbe,
    phase: RunPhase,
}

impl View for Runner {
    type V = RunView;

    closed spec fn view(&self) -> RunView {
        run_view(self.registry@, self.host, self.phase)
    }
}

impl Runner {
    /// The collectors of the run.
    pub closed spec fn monitors(&self) -> Seq<AnyMonitor> {
        self.registry@
    }

    /// What was found out about the host.
    pub closed spec fn host(&self) -> HostProbe {
        self.host
    }

    /// The view of a run is made of its collectors, its host and its phase.
    pub proof fn lemma_view(&self)
        ensures
            self@ == run_view(self.monitors(), self.host(), self@.phase),
    {
    }

    /// A run of `registry` on a host probed as `host`, not begun yet.
    pub fn new(registry: MonitorRegistry, host: HostProbe) -> (r: Self)
        ensures
            r.monitors() == registry@,
            r.host() == host,
            r@.phase == RunPhase::Idle,
            r@.wf(),
    {
        let n = registry.monitors.len();
        Runner { registry, host, phase: RunPhase::Idle }
    }

    /// The phase the run is in.
    pub fn phase(&self) -> (r: RunPhase)
        ensures
            r == self@.phase,
    {
        self.phase
    }

    /// The registry of the run.
    pub fn registry(&self) -> (r: &MonitorRegistry)
        ensures
            r@ == self.monitors(),
    {
        &self.registry
    }

    /// Ends the run and hands back its registry.
    pub fn into_registry(self) -> (r: MonitorRegistry)
        ensures
            r@ == self.monitors(),
    {
        self.registry
    }

    /// The first position at or after `from` of a running collector.
    fn find_running(&self, from: usize) -> (r: usize)
        requires
            from <= self.monitors().len(),
        ensures
            r == self@.next_stop(from as int),
            from <= r <= self.monitors().len(),
    {
        let mut i = from;
        while i < self.registry.monitors.len()
            invariant
                from <= i <= self.registry@.len(),
                self@.next_stop(from as int) == self@.next_stop(i as int),
            decreases self.registry@.len() - i,
        {
            if self.registry.monitors[i].is_running() {
                return i;
            }
            i += 1;
        }
        i
    }

    /// Goes on with the start phase from position `from`.
    fn settle_start(&mut self, from: usize) -> (a: RunAction)
        requires
            from <= old(self).monitors().len(),
        ensures
            final(self)@ == old(self)@.settle_start(from as int),
            final(self).monitors() == old(self).monitors(),
            final(self).host() == old(self).host(),
            asks(final(self).monitors(), final(self)@.phase, a),
    {
        let ghost before = self@;
        let mut i = from;
        while i < self.registry.monitors.len()
            invariant
                from <= i <= self.registry@.len(),
                *self == *old(self),
                before == old(self)@,
                before.next_start(from as int) == before.next_start(i as int),
            decreases self.registry@.len() - i,
        {
            let m = &self.registry.monitors[i];
            if !m.is_running() && m.can_run(&self.host) {
                match m.start() {
                    Ok(plan) => {
                        self.phase = RunPhase::Starting(i);
                        assert(self@ =~= before.settle_start(from as int));
                        return RunAction::Start { index: i, plan };
                    },
                    Err(_) => {},
                }
            }
            i += 1;
        }
        let first = self.find_running(0);
        if first < self.registry.monitors.len() {
            self.phase = RunPhase::Serving;
            assert(self@ =~= before.settle_start(from as int));
            RunAction::Serve
        } else {
            self.phase = RunPhase::Finished;
            assert(self@ =~= before.settle_start(from as int));
            RunAction::Exit
        }
    }

    /// Goes on with the shutdown from position `from`.
    fn settle_stop(&mut self, from: usize) -> (a: RunAction)
        requires
            from <= old(self).monitors().len(),
        ensures
            final(self)@ == old(self)@.settle_stop(from as int),
            final(self).monitors() == old(self).monitors(),
            final(self).host() == old(self).host(),
            asks(final(self).monitors(), final(self)@.phase, a),
    {
        let ghost before = self@;
        let next = self.find_running(from);
        if next < self.registry.monitors.len() {
            self.phase = RunPhase::Stopping(next);
            assert(self@ =~= before.settle_stop(from as int));
            RunAction::Stop(next)
        } else {
            self.phase = RunPhase::Finished;
            assert(self@ =~= before.settle_stop(from as int));
            RunAction::Exit
        }
    }

    /// Takes in what the host reports and says what to do next.
    ///
    /// At `Begin` the collectors are gone through in registration order.
    /// One that runs already, cannot run on the host, or has no valid start
    /// plan is passed over; for the others the host is asked, one at a time,
    /// to carry out the start plan. When all are dealt with, the run serves
    /// if any collector is running and is over if none is. At `Shutdown` the
    /// running collectors are stopped in registration order, and the run is
    /// over when none is left.
    pub fn step(&mut self, event: RunEvent) -> (a: RunAction)
        requires
            old(self)@.wf(),
        ensures
            final(self)@ == old(self)@.step(event),
            final(self)@.wf(),
            final(self).host() == old(self).host(),
            same_collectors(old(self).monitors(), final(self).monitors()),
            names_of(final(self).monitors()) == names_of(old(self).monitors()),
            if old(self)@.applies(event) {
                asks(final(self).monitors(), final(self)@.phase, a)
            } else {
                a is Ignored && final(self).monitors() == old(self).monitors()
            },
    {
        proof {
            lemma_step_wf(self@, event);
        }
        let ghost before = self@;
        let ghost names = names_of(self.registry@);
        match (self.phase, event) {
            (RunPhase::Idle, RunEvent::Begin) => self.settle_start(0),
            (RunPhase::Starting(i), RunEvent::Started(ok)) => {
                if ok {
                    self.registry.monitors[i].mark_started();
                }
                assert(names_of(self.registry@) =~= names);
                assert(self@.ready =~= before.ready);
                assert(self@.running =~= before.running.update(i as int, ok));
                assert(self@ =~= (RunView { running: before.running.update(i as int, ok), ..before }));
                self.settle_start(i + 1)
            },
            (RunPhase::Serving, RunEvent::Shutdown) => self.settle_stop(0),
            (RunPhase::Stopping(i), RunEvent::Stopped(_)) => {
                self.registry.monitors[i].stop();
                assert(names_of(self.registry@) =~= names);
                assert(self@.ready =~= before.ready);
                assert(self@.running =~= before.running.update(i as int, false));
                assert(self@ =~= (RunView {
                    running: before.running.update(i as int, false),
                    ..before
                }));
                self.settle_stop(i + 1)
            },
            _ => RunAction::Ignored,
        }
    }
}

/// What the sink does with an event.
#[derive(Debug, PartialEq, Eq)]
pub enum SinkAction {
    /// Send the file event to the sensor.
    Send(Event),
    /// Print the file event: no client is configured.
    Print(Event),
    /// Log that an inventory of this many packages was taken.
    Summarize(usize),
}

/// Decides what the sink does with `event`: a file event goes to the sensor
/// when a client was configured at start, and is printed otherwise; of an
/// inventory only the number of packages is logged, since the collector
/// ships it itself.
pub fn sink_action(event: MonitorEvent, has_client: bool) -> (a: SinkAction)
    ensures
        match event {
            MonitorEvent::FileActivity(e) => if has_client {
                a == SinkAction::Send(e)
            } else {
                a == SinkAction::Print(e)
            },
            MonitorEvent::PackageUpdate(r) => a == SinkAction::Summarize(
                r.components@.len() as usize,
            ),
        },
{
    match event {
        MonitorEvent::FileActivity(e) => if has_client {
            SinkAction::Send(e)
        } else {
            SinkAction::Print(e)
        },
        MonitorEvent::PackageUpdate(r) => SinkAction::Summarize(r.component_count()),
    }
}

} // verus!
