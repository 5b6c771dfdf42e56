//! The virtual machines a host knows of: what is taken from the objects that
//! describe them, and the table that tracks them by key.

use vstd::prelude::*;
use crate::json::read_vm_object;
use crate::text::{
    chars_of, chars_to_string, first_index, join_with, lemma_first_index, lemma_first_index_is,
    parse_u32, parse_u32_chars, str_eq,
};

verus! {

/// Capacity of the queue on which discovered machines are announced.
pub const VM_QUEUE: usize = 100;

/// Annotation that carries a machine's context id.
pub const CID_ANNOTATION: &'static str = "vsock.stackrox.io/cid";

/// A virtual machine.
#[derive(Debug, PartialEq, Eq)]
pub struct VirtualMachine {
    pub name: String,
    pub namespace: String,
    pub uid: String,
    /// The machine's context id on the host-guest transport, where known.
    pub cid: Option<u32>,
}

impl Clone for VirtualMachine {
    fn clone(&self) -> (r: Self)
        ensures
            r == *self,
    {
        VirtualMachine {
            name: self.name.clone(),
            namespace: self.namespace.clone(),
            uid: self.uid.clone(),
            cid: self.cid,
        }
    }
}

/// What the watcher reads of the object that describes a machine.
#[derive(Debug, PartialEq, Eq)]
pub struct VmObject {
    /// The object has metadata.
    pub has_metadata: bool,
    /// The name in the metadata, where it is a string.
    pub name: Option<String>,
    /// The namespace in the metadata, where it is a string.
    pub namespace: Option<String>,
    /// The uid in the metadata, where it is a string.
    pub uid: Option<String>,
    /// The value of `CID_ANNOTATION`, where the metadata has annotations
    /// and the value is a string.
    pub cid_annotation: Option<String>,
    /// The context id of the machine's socket device, where the
    /// specification has one and it is an unsigned number.
    pub context_id: Option<u64>,
}

/// Why an object describes no machine.
#[derive(Debug, Clone, Copy, PartialEq, Eq, Structural)]
pub enum WatchError {
    MissingMetadata,
    MissingName,
    MissingNamespace,
    MissingUid,
}

/// What kind of change an event reports.
#[derive(Debug, Clone, Copy, PartialEq, Eq, Structural)]
pub enum EventKind {
    /// `ADDED` or `MODIFIED`.
    Upsert,
    /// `DELETED`.
    Delete,
    /// Anything else.
    Unknown,
}

/// The kind of the event type `t`.
pub open spec fn spec_kind(t: Seq<char>) -> EventKind {
    if t == "ADDED"@ || t == "MODIFIED"@ {
        EventKind::Upsert
    } else if t == "DELETED"@ {
        EventKind::Delete
    } else {
        EventKind::Unknown
    }
}

/// The first thing an object lacks of a machine, if any: metadata, name,
/// namespace, uid, in this order.
pub open spec fn parse_error(obj: VmObject) -> Option<WatchError> {
    if !obj.has_metadata {
        Some(WatchError::MissingMetadata)
    } else if obj.name is None {
        Some(WatchError::MissingName)
    } else if obj.namespace is None {
        Some(WatchError::MissingNamespace)
    } else if obj.uid is None {
        Some(WatchError::MissingUid)
    } else {
        None
    }
}

/// The context id of the machine that `obj` describes: the annotation where
/// it writes a `u32`, else the low 32 bits of the device's context id.
pub open spec fn spec_cid(obj: VmObject) -> Option<u32> {
    if obj.cid_annotation is Some && parse_u32(obj.cid_annotation->0@) is Some {
        parse_u32(obj.cid_annotation->0@)
    } else {
        match obj.context_id {
            Some(c) => Some((c % 0x1_0000_0000) as u32),
            None => None,
        }
    }
}

/// The key a machine is tracked by: `<namespace>/<name>`.
pub open spec fn vm_key(namespace: Seq<char>, name: Seq<char>) -> Seq<char> {
    namespace + seq!['/'] + name
}

/// The key that a deletion of `obj` names, if it names one.
pub open spec fn delete_key(obj: VmObject) -> Option<Seq<char>> {
    if obj.has_metadata && obj.name is Some && obj.namespace is Some {
        Some(vm_key(obj.namespace->0@, obj.name->0@))
    } else {
        None
    }
}

/// `after` and `r` are the table and the answer once the change of type
/// `event_type` described by `obj` is applied to the table `before`.
pub open spec fn applied(
    before: Map<Seq<char>, VirtualMachine>,
    event_type: Seq<char>,
    obj: VmObject,
    after: Map<Seq<char>, VirtualMachine>,
    r: Result<Option<VirtualMachine>, WatchError>,
) -> bool {
    match spec_kind(event_type) {
        EventKind::Upsert => match parse_error(obj) {
            Some(e) => r == Err::<Option<VirtualMachine>, WatchError>(e) && after == before,
            None => r matches Ok(Some(vm)) && vm.name@ == obj.name->0@ && vm.namespace@
                == obj.namespace->0@ && vm.uid@ == obj.uid->0@ && vm.cid == spec_cid(obj)
                && after == before.insert(vm_key(vm.namespace@, vm.name@), vm),
        },
        EventKind::Delete => r == Ok::<Option<VirtualMachine>, WatchError>(None) && after == (
        match delete_key(obj) {
            Some(k) => before.remove(k),
            None => before,
        }),
        EventKind::Unknown => r == Ok::<Option<VirtualMachine>, WatchError>(None) && after
            == before,
    }
}

/// The texts of `keys`.
pub open spec fn key_views(keys: Seq<String>) -> Seq<Seq<char>> {
    Seq::new(keys.len(), |i: int| keys[i]@)
}

/// The table that tracks `vms` under `keys`, position by position.
pub open spec fn table(keys: Seq<String>, vms: Seq<VirtualMachine>) -> Map<
    Seq<char>,
    VirtualMachine,
> {
    Map::new(
        |k: Seq<char>| 0 <= first_index(key_views(keys), k) < keys.len(),
        |k: Seq<char>| vms[first_index(key_views(keys), k)],
    )
}

/// Works out the kind of an event from its type.
pub fn event_kind(event_type: &str) -> (r: EventKind)
    ensures
        r == spec_kind(event_type@),
{
    if str_eq(event_type, "ADDED") || str_eq(event_type, "MODIFIED") {
        EventKind::Upsert
    } else if str_eq(event_type, "DELETED") {
        EventKind::Delete
    } else {
        EventKind::Unknown
    }
}

/// Works out the key `<namespace>/<name>`.
pub fn make_key(namespace: &str, name: &str) -> (r: String)
    ensures
        r@ == vm_key(namespace@, name@),
{
    let ns = chars_of(namespace);
    let n = chars_of(name);
    let key = join_with(ns.as_slice(), '/', n.as_slice());
    chars_to_string(key.as_slice())
}

/// Finds a machine's context id in the object that describes it.
pub fn extract_vsock_cid(obj: &VmObject) -> (r: Option<u32>)
    ensures
        r == spec_cid(*obj),
{
    match &obj.cid_annotation {
        Some(text) => {
            let chars = chars_of(text.as_str());
            match parse_u32_chars(chars.as_slice()) {
                Some(cid) => {
                    return Some(cid);
                },
                None => {},
            }
        },
        None => {},
    }
    match obj.context_id {
        Some(c) => Some((c % 0x1_0000_0000) as u32),
        None => None,
    }
}

/// Reads the machine that `obj` describes.
pub fn parse_vm_object(obj: &VmObject) -> (r: Result<VirtualMachine, WatchError>)
    ensures
        match parse_error(*obj) {
            Some(e) => r == Err::<VirtualMachine, WatchError>(e),
            None => r matches Ok(vm) && vm.name@ == obj.name->0@ && vm.namespace@
                == obj.namespace->0@ && vm.uid@ == obj.uid->0@ && vm.cid == spec_cid(*obj),
        },
{
    if !obj.has_metadata {
        return Err(WatchError::MissingMetadata);
    }
    let name = match &obj.name {
        Some(n) => n.clone(),
        None => {
            return Err(WatchError::MissingName);
        },
    };
    let namespace = match &obj.namespace {
        Some(n) => n.clone(),
        None => {
            return Err(WatchError::MissingNamespace);
        },
    };
    let uid = match &obj.uid {
        Some(u) => u.clone(),
        None => {
            return Err(WatchError::MissingUid);
        },
    };
    Ok(VirtualMachine { name, namespace, uid, cid: extract_vsock_cid(obj) })
}

/// A key that is not in `keys` comes first at the end once it is added, and
/// the other keys stay where they were.
proof fn lemma_index_push(keys: Seq<Seq<char>>, key: Seq<char>, k: Seq<char>)
    ensures
        first_index(keys.push(key), k) == if first_index(keys, k) < keys.len() {
            first_index(keys, k)
        } else if key == k {
            keys.len() as int
        } else {
            keys.len() as int + 1
        },
{
    lemma_first_index(keys, k);
    let i = first_index(keys, k);
    let after = keys.push(key);
    if i < keys.len() {
        assert forall|j: int| 0 <= j < i implies after[j] != k by {
            assert(after[j] == keys[j]);
        }
        assert(after[i] == keys[i]);
        lemma_first_index_is(after, k, i);
    } else if key == k {
        assert forall|j: int| 0 <= j < keys.len() implies after[j] != k by {
            assert(after[j] == keys[j]);
        }
        lemma_first_index_is(after, k, keys.len() as int);
    } else {
        assert forall|j: int| 0 <= j < after.len() implies after[j] != k by {
            if j < keys.len() {
                assert(after[j] == keys[j]);
            }
        }
        lemma_first_index_is(after, k, after.len() as int);
    }
}

/// Where the keys are once the one at `i` is taken out: the key itself is
/// gone, those before it stay, those after it move up by one.
proof fn lemma_index_remove(keys: Seq<Seq<char>>, i: int, k: Seq<char>)
    requires
        keys.no_duplicates(),
        0 <= i < keys.len(),
    ensures
        first_index(keys.remove(i), k) == if k == keys[i] {
            keys.len() - 1
        } else if first_index(keys, k) < i {
            first_index(keys, k)
        } else {
            first_index(keys, k) - 1
        },
{
    lemma_first_index(keys, k);
    let f = first_index(keys, k);
    let after = keys.remove(i);
    if k == keys[i] {
        assert forall|j: int| 0 <= j < after.len() implies after[j] != k by {
            if j < i {
                assert(after[j] == keys[j]);
            } else {
                assert(after[j] == keys[j + 1]);
            }
        }
        lemma_first_index_is(after, k, after.len() as int);
    } else if f < i {
        assert forall|j: int| 0 <= j < f implies after[j] != k by {
            assert(after[j] == keys[j]);
        }
        assert(after[f] == keys[f]);
        lemma_first_index_is(after, k, f);
    } else {
        assert(f != i);
        assert forall|j: int| 0 <= j < f - 1 implies after[j] != k by {
            if j < i {
                assert(after[j] == keys[j]);
            } else {
                assert(after[j] == keys[j + 1]);
            }
        }
        if f < keys.len() {
            assert(after[f - 1] == keys[f]);
        }
        lemma_first_index_is(after, k, f - 1);
    }
}

/// The machines a watcher knows of, by key.
pub struct VmWatcher {
    keys: Vec<String>,
    vms: Vec<VirtualMachine>,
}

impl View for VmWatcher {
    type V = Map<Seq<char>, VirtualMachine>;

    closed spec fn view(&self) -> Map<Seq<char>, VirtualMachine> {
        table(self.keys@, self.vms@)
    }
}

impl VmWatcher {
    /// Every machine has its key, and no key occurs twice.
    pub closed spec fn wf(&self) -> bool {
        &&& self.keys@.len() == self.vms@.len()
        &&& key_views(self.keys@).no_duplicates()
    }

    /// The number of machines tracked.
    pub closed spec fn count(&self) -> nat {
        self.keys@.len()
    }

    /// The machines in the order they were first seen.
    pub closed spec fn listed(&self) -> Seq<VirtualMachine> {
        self.vms@
    }

    /// The keys of the machines, in the order they were first seen.
    pub closed spec fn listed_keys(&self) -> Seq<Seq<char>> {
        key_views(self.keys@)
    }

    /// The machines listed are those of the table: the keys listed are the
    /// keys of the table, each once, and each machine is listed where its
    /// key is.
    pub proof fn lemma_listed(&self)
        requires
            self.wf(),
        ensures
            self.listed().len() == self.count(),
            self.listed_keys().len() == self.count(),
            self.listed_keys().no_duplicates(),
            forall|k: Seq<char>| self@.dom().contains(k) <==> self.listed_keys().contains(k),
            forall|i: int|
                0 <= i < self.count() ==> self@[#[trigger] self.listed_keys()[i]]
                    == self.listed()[i],
    {
        let keys = key_views(self.keys@);
        assert forall|k: Seq<char>| self@.dom().contains(k) <==> keys.contains(k) by {
            lemma_first_index(keys, k);
            if keys.contains(k) {
                let j = choose|j: int| 0 <= j < keys.len() && keys[j] == k;
                assert(keys[j] == k);
            }
        }
        assert forall|i: int| 0 <= i < self.count() implies self@[#[trigger] keys[i]]
            == self.listed()[i] by {
            lemma_first_index(keys, keys[i]);
            let f = first_index(keys, keys[i]);
            if f != i {
                assert(keys[f] == keys[i]);
            }
        }
    }

    /// A watcher that knows of no machine.
    pub fn new() -> (r: Self)
        ensures
            r.wf(),
            r@ == Map::<Seq<char>, VirtualMachine>::empty(),
            r.count() == 0,
    {
        let r = VmWatcher { keys: Vec::new(), vms: Vec::new() };
        assert(r@ =~= Map::<Seq<char>, VirtualMachine>::empty());
        r
    }

    /// The position of `key`, or the number of machines when it is not there.
    fn position(&self, key: &str) -> (r: usize)
        ensures
            r == first_index(key_views(self.keys@), key@),
            r <= self.keys@.len(),
    {
        let mut i: usize = 0;
        while i < self.keys.len()
            invariant
                i <= self.keys@.len(),
                forall|j: int| 0 <= j < i ==> key_views(self.keys@)[j] != key@,
            decreases self.keys@.len() - i,
        {
            if str_eq(self.keys[i].as_str(), key) {
                proof {
                    assert(key_views(self.keys@)[i as int] == key@);
                    lemma_first_index_is(key_views(self.keys@), key@, i as int);
                }
                return i;
            }
            i += 1;
        }
        proof {
            lemma_first_index_is(key_views(self.keys@), key@, i as int);
        }
        i
    }

    /// Tracks `vm` under `key`, in place of what was tracked under it.
    fn insert(&mut self, key: String, vm: VirtualMachine)
        requires
            old(self).wf(),
        ensures
            final(self).wf(),
            final(self)@ == old(self)@.insert(key@, vm),
    {
        let ghost before = key_views(self.keys@);
        let ghost old_vms = self.vms@;
        let i = self.position(key.as_str());
        if i < self.keys.len() {
            self.vms[i] = vm;
            proof {
                lemma_first_index(before, key@);
                assert forall|k: Seq<char>| #[trigger]
                    self@.dom().contains(k) <==> old(self)@.insert(key@, vm).dom().contains(
                        k,
                    ) by {
                    lemma_first_index(before, k);
                }
                assert forall|k: Seq<char>| #[trigger] self@.dom().contains(k) implies self@[k]
                    == old(self)@.insert(key@, vm)[k] by {
                    lemma_first_index(before, k);
                    if k != key@ {
                        let f = first_index(before, k);
                        assert(before[f] == k);
                        assert(f != i);
                    }
                }
                assert(self@ =~= old(self)@.insert(key@, vm));
            }
        } else {
            let ghost key_text = key@;
            self.keys.push(key);
            self.vms.push(vm);
            proof {
                let after = key_views(self.keys@);
                assert(after =~= before.push(key_text));
                assert forall|a: int, b: int|
                    0 <= a < after.len() && 0 <= b < after.len() && a != b implies after[a]
                    != after[b] by {
                    lemma_first_index(before, key_text);
                    if a < before.len() && b < before.len() {
                        assert(before[a] != before[b]);
                    }
                }
                assert forall|k: Seq<char>| #[trigger]
                    self@.dom().contains(k) <==> old(self)@.insert(key_text, vm).dom().contains(
                        k,
                    ) by {
                    lemma_index_push(before, key_text, k);
                }
                assert forall|k: Seq<char>| #[trigger] self@.dom().contains(k) implies self@[k]
                    == old(self)@.insert(key_text, vm)[k] by {
                    lemma_index_push(before, key_text, k);
                }
                assert(self@ =~= old(self)@.insert(key_text, vm));
            }
        }
    }

    /// Forgets what is tracked under `key`.
    fn remove(&mut self, key: &str)
        requires
            old(self).wf(),
        ensures
            final(self).wf(),
            final(self)@ == old(self)@.remove(key@),
    {
        let ghost before = key_views(self.keys@);
        let i = self.position(key);
        proof {
            lemma_first_index(before, key@);
        }
        if i < self.keys.len() {
            self.keys.remove(i);
            self.vms.remove(i);
            proof {
                let after = key_views(self.keys@);
                assert(after =~= before.remove(i as int));
                assert forall|a: int, b: int|
                    0 <= a < after.len() && 0 <= b < after.len() && a != b implies after[a]
                    != after[b] by {
                    let a0 = if a < i {
                        a
                    } else {
                        a + 1
                    };
                    let b0 = if b < i {
                        b
                    } else {
                        b + 1
                    };
                    assert(after[a] == before[a0] && after[b] == before[b0]);
                }
                assert forall|k: Seq<char>| #[trigger]
                    self@.dom().contains(k) <==> old(self)@.remove(key@).dom().contains(k) by {
                    lemma_index_remove(before, i as int, k);
                    lemma_first_index(before, k);
                }
                assert forall|k: Seq<char>| #[trigger] self@.dom().contains(k) implies self@[k]
                    == old(self)@.remove(key@)[k] by {
                    lemma_index_remove(before, i as int, k);
                    lemma_first_index(before, k);
                }
                assert(self@ =~= old(self)@.remove(key@));
            }
        } else {
            assert(self@ =~= old(self)@.remove(key@));
        }
    }

    /// Takes in one change, described by a JSON document: what `apply_event`
    /// does with what `read_vm_object` reads of the document.
    pub fn handle_vm_event(&mut self, event_type: &str, vm_data: &serde_json::Value) -> (r:
        Result<Option<VirtualMachine>, WatchError>)
        requires
            old(self).wf(),
        ensures
            final(self).wf(),
            exists|obj: VmObject| #[trigger]
                crate::json::reads(*vm_data, obj) && applied(
                    old(self)@,
                    event_type@,
                    obj,
                    final(self)@,
                    r,
                ),
    {
        let obj = read_vm_object(vm_data);
        self.apply_event(event_type, &obj)
    }

    /// Takes in one change. An upsert of an object that describes a machine
    /// tracks the machine under its key and hands it back to be announced;
    /// an upsert of any other object is an error and changes nothing. A
    /// deletion forgets the machine that the object names, if it names one.
    /// Events of other kinds change nothing.
    pub fn apply_event(&mut self, event_type: &str, obj: &VmObject) -> (r: Result<
        Option<VirtualMachine>,
        WatchError,
    >)
        requires
            old(self).wf(),
        ensures
            final(self).wf(),
            applied(old(self)@, event_type@, *obj, final(self)@, r),
    {
        match event_kind(event_type) {
            EventKind::Upsert => {
                let vm = match parse_vm_object(obj) {
                    Ok(vm) => vm,
                    Err(e) => {
                        return Err(e);
                    },
                };
                let key = make_key(vm.namespace.as_str(), vm.name.as_str());
                let kept = vm.clone();
                self.insert(key, kept);
                Ok(Some(vm))
            },
            EventKind::Delete => {
                if obj.has_metadata {
                    match (&obj.name, &obj.namespace) {
                        (Some(name), Some(namespace)) => {
                            let key = make_key(namespace.as_str(), name.as_str());
                            self.remove(key.as_str());
                        },
                        _ => {},
                    }
                }
                Ok(None)
            },
            EventKind::Unknown => Ok(None),
        }
    }

    /// The machine tracked under `key`, if there is one.
    pub fn get_vm(&self, key: &str) -> (r: Option<&VirtualMachine>)
        requires
            self.wf(),
        ensures
            r is Some <==> self@.dom().contains(key@),
            r matches Some(vm) ==> *vm == self@[key@],
    {
        let i = self.position(key);
        if i < self.keys.len() {
            Some(&self.vms[i])
        } else {
            None
        }
    }

    /// The machines tracked, in the order they were first seen.
    pub fn get_all_vms(&self) -> (r: Vec<&VirtualMachine>)
        requires
            self.wf(),
        ensures
            r@.len() == self.listed().len(),
            forall|i: int| 0 <= i < r@.len() ==> *(#[trigger] r@[i]) == self.listed()[i],
    {
        let mut out: Vec<&VirtualMachine> = Vec::new();
        let mut i: usize = 0;
        while i < self.vms.len()
            invariant
                i <= self.vms@.len(),
                out@.len() == i,
                forall|j: int| 0 <= j < i ==> *(#[trigger] out@[j]) == self.vms@[j],
            decreases self.vms@.len() - i,
        {
            out.push(&self.vms[i]);
            i += 1;
        }
        out
    }

    /// The number of machines tracked.
    pub fn vm_count(&self) -> (r: usize)
        ensures
            r == self.count(),
    {
        self.keys.len()
    }
}

} // verus!
