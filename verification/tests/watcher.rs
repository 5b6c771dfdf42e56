use fact::json::{
    read_vm_object, CID_POINTER, CONTEXT_ID_POINTER, METADATA_POINTER, NAMESPACE_POINTER,
    NAME_POINTER, UID_POINTER,
};
use fact::vm_watcher::{
    event_kind, extract_vsock_cid, make_key, parse_vm_object, EventKind, VirtualMachine, VmObject,
    VmWatcher, WatchError, CID_ANNOTATION, VM_QUEUE,
};
use serde_json::Value;

fn json(text: &str) -> Value {
    serde_json::from_str(text).unwrap()
}

fn object(name: &str, namespace: &str) -> VmObject {
    VmObject {
        has_metadata: true,
        name: Some(name.to_string()),
        namespace: Some(namespace.to_string()),
        uid: Some(format!("uid-{}", name)),
        cid_annotation: None,
        context_id: None,
    }
}

fn machine(name: &str, namespace: &str, cid: Option<u32>) -> VirtualMachine {
    VirtualMachine {
        name: name.to_string(),
        namespace: namespace.to_string(),
        uid: format!("uid-{}", name),
        cid,
    }
}

#[test]
fn document_fields_are_read_by_pointer() {
    assert_eq!(METADATA_POINTER, "/metadata");
    assert_eq!(NAME_POINTER, "/metadata/name");
    assert_eq!(NAMESPACE_POINTER, "/metadata/namespace");
    assert_eq!(UID_POINTER, "/metadata/uid");
    assert_eq!(CID_POINTER, "/metadata/annotations/vsock.stackrox.io~1cid");
    assert_eq!(CONTEXT_ID_POINTER, "/spec/template/spec/domain/devices/vsock/contextId");
    assert_eq!(CID_ANNOTATION, "vsock.stackrox.io/cid");
    let v = json(
        r#"{
            "metadata": {
                "name": "vm-a",
                "namespace": "prod",
                "uid": "1234",
                "annotations": { "vsock.stackrox.io/cid": "17", "other": "x" }
            },
            "spec": { "template": { "spec": { "domain": { "devices": { "vsock": { "contextId": 99 } } } } } }
        }"#,
    );
    assert_eq!(
        read_vm_object(&v),
        VmObject {
            has_metadata: true,
            name: Some("vm-a".to_string()),
            namespace: Some("prod".to_string()),
            uid: Some("1234".to_string()),
            cid_annotation: Some("17".to_string()),
            context_id: Some(99),
        }
    );
}

#[test]
fn document_fields_of_another_type_are_not_read() {
    let v = json(
        r#"{
            "metadata": { "name": 5, "namespace": null, "uid": ["x"], "annotations": ["vsock.stackrox.io/cid"] },
            "spec": { "template": { "spec": { "domain": { "devices": { "vsock": { "contextId": -1 } } } } } }
        }"#,
    );
    assert_eq!(
        read_vm_object(&v),
        VmObject { has_metadata: true, name: None, namespace: None, uid: None, cid_annotation: None, context_id: None }
    );
    let v = json(r#"{ "metadata": { "annotations": { "vsock.stackrox.io/cid": 17 } }, "spec": { "template": { "spec": { "domain": { "devices": { "vsock": { "contextId": "99" } } } } } } }"#);
    let obj = read_vm_object(&v);
    assert_eq!(obj.cid_annotation, None);
    assert_eq!(obj.context_id, None);
    let v = json(r#"{ "spec": { "template": { "spec": { "domain": { "devices": { "vsock": { "contextId": 1.5 } } } } } } }"#);
    assert_eq!(read_vm_object(&v).context_id, None);
}

#[test]
fn documents_without_metadata_are_read_as_such() {
    for text in ["{}", "[]", "null", "\"metadata\"", "7", r#"{"Metadata": {"name": "x"}}"#, r#"["metadata"]"#] {
        let obj = read_vm_object(&json(text));
        assert_eq!(
            obj,
            VmObject { has_metadata: false, name: None, namespace: None, uid: None, cid_annotation: None, context_id: None },
            "for {}",
            text
        );
    }
    let obj = read_vm_object(&json(r#"{"metadata": null}"#));
    assert!(obj.has_metadata);
    assert_eq!(obj.name, None);
}

#[test]
fn machine_needs_metadata_name_namespace_and_uid() {
    let mut obj = object("a", "ns");
    assert_eq!(parse_vm_object(&obj), Ok(machine("a", "ns", None)));
    obj.uid = None;
    assert_eq!(parse_vm_object(&obj), Err(WatchError::MissingUid));
    obj.namespace = None;
    assert_eq!(parse_vm_object(&obj), Err(WatchError::MissingNamespace));
    obj.name = None;
    assert_eq!(parse_vm_object(&obj), Err(WatchError::MissingName));
    obj.has_metadata = false;
    assert_eq!(parse_vm_object(&obj), Err(WatchError::MissingMetadata));
    let mut obj = object("a", "ns");
    obj.has_metadata = false;
    assert_eq!(parse_vm_object(&obj), Err(WatchError::MissingMetadata));
}

#[test]
fn context_id_comes_from_the_annotation_or_else_from_the_device() {
    let mut obj = object("a", "ns");
    assert_eq!(extract_vsock_cid(&obj), None);
    obj.context_id = Some(99);
    assert_eq!(extract_vsock_cid(&obj), Some(99));
    obj.cid_annotation = Some("17".to_string());
    assert_eq!(extract_vsock_cid(&obj), Some(17));
    obj.cid_annotation = Some("seventeen".to_string());
    assert_eq!(extract_vsock_cid(&obj), Some(99));
    obj.cid_annotation = Some("4294967296".to_string());
    assert_eq!(extract_vsock_cid(&obj), Some(99));
    obj.cid_annotation = Some("+3".to_string());
    assert_eq!(extract_vsock_cid(&obj), Some(3));
    obj.cid_annotation = Some("".to_string());
    obj.context_id = None;
    assert_eq!(extract_vsock_cid(&obj), None);
    assert_eq!(parse_vm_object(&obj).unwrap().cid, None);
}

#[test]
fn device_context_id_keeps_its_low_32_bits() {
    let mut obj = object("a", "ns");
    obj.context_id = Some(0x1_0000_0005);
    assert_eq!(extract_vsock_cid(&obj), Some(5));
    obj.context_id = Some(u64::MAX);
    assert_eq!(extract_vsock_cid(&obj), Some(u32::MAX));
    obj.context_id = Some(0xFFFF_FFFF);
    assert_eq!(extract_vsock_cid(&obj), Some(0xFFFF_FFFF));
    obj.context_id = Some(0x1_0000_0000);
    assert_eq!(extract_vsock_cid(&obj), Some(0));
}

#[test]
fn event_types_and_keys() {
    assert_eq!(event_kind("ADDED"), EventKind::Upsert);
    assert_eq!(event_kind("MODIFIED"), EventKind::Upsert);
    assert_eq!(event_kind("DELETED"), EventKind::Delete);
    assert_eq!(event_kind("added"), EventKind::Unknown);
    assert_eq!(event_kind("BOOKMARK"), EventKind::Unknown);
    assert_eq!(event_kind(""), EventKind::Unknown);
    assert_eq!(make_key("prod", "vm-a"), "prod/vm-a");
    assert_eq!(make_key("", ""), "/");
    assert_eq!(VM_QUEUE, 100);
}

#[test]
fn watcher_tracks_machines_by_key() {
    let mut w = VmWatcher::new();
    assert_eq!(w.vm_count(), 0);
    assert!(w.get_all_vms().is_empty());
    assert_eq!(w.get_vm("ns/a"), None);

    assert_eq!(w.apply_event("ADDED", &object("a", "ns")), Ok(Some(machine("a", "ns", None))));
    assert_eq!(w.apply_event("ADDED", &object("b", "ns")), Ok(Some(machine("b", "ns", None))));
    assert_eq!(w.apply_event("ADDED", &object("a", "other")), Ok(Some(machine("a", "other", None))));
    assert_eq!(w.vm_count(), 3);
    assert_eq!(w.get_vm("ns/a"), Some(&machine("a", "ns", None)));
    assert_eq!(w.get_vm("ns/b"), Some(&machine("b", "ns", None)));
    assert_eq!(w.get_vm("other/a"), Some(&machine("a", "other", None)));
    assert_eq!(w.get_vm("a"), None);
    assert_eq!(w.get_vm("ns/c"), None);
    assert_eq!(w.get_all_vms(), vec![&machine("a", "ns", None), &machine("b", "ns", None), &machine("a", "other", None)]);
}

#[test]
fn watcher_replaces_a_machine_that_is_modified() {
    let mut w = VmWatcher::new();
    w.apply_event("ADDED", &object("a", "ns")).unwrap();
    w.apply_event("ADDED", &object("b", "ns")).unwrap();
    let mut changed = object("a", "ns");
    changed.context_id = Some(7);
    assert_eq!(w.apply_event("MODIFIED", &changed), Ok(Some(machine("a", "ns", Some(7)))));
    assert_eq!(w.vm_count(), 2);
    assert_eq!(w.get_vm("ns/a"), Some(&machine("a", "ns", Some(7))));
    assert_eq!(w.get_vm("ns/b"), Some(&machine("b", "ns", None)));
}

#[test]
fn watcher_forgets_a_machine_that_is_deleted() {
    let mut w = VmWatcher::new();
    w.apply_event("ADDED", &object("a", "ns")).unwrap();
    w.apply_event("ADDED", &object("b", "ns")).unwrap();
    w.apply_event("ADDED", &object("c", "ns")).unwrap();
    let mut gone = object("b", "ns");
    gone.uid = None;
    assert_eq!(w.apply_event("DELETED", &gone), Ok(None));
    assert_eq!(w.vm_count(), 2);
    assert_eq!(w.get_vm("ns/b"), None);
    assert_eq!(w.get_vm("ns/a"), Some(&machine("a", "ns", None)));
    assert_eq!(w.get_vm("ns/c"), Some(&machine("c", "ns", None)));
    assert_eq!(w.apply_event("DELETED", &gone), Ok(None));
    assert_eq!(w.vm_count(), 2);
    assert_eq!(w.apply_event("DELETED", &object("zzz", "ns")), Ok(None));
    assert_eq!(w.vm_count(), 2);
}

#[test]
fn watcher_is_not_changed_by_what_it_cannot_use() {
    let mut w = VmWatcher::new();
    w.apply_event("ADDED", &object("a", "ns")).unwrap();
    let mut nameless = object("a", "ns");
    nameless.name = None;
    assert_eq!(w.apply_event("ADDED", &nameless), Err(WatchError::MissingName));
    assert_eq!(w.apply_event("DELETED", &nameless), Ok(None));
    let mut bare = object("a", "ns");
    bare.has_metadata = false;
    assert_eq!(w.apply_event("MODIFIED", &bare), Err(WatchError::MissingMetadata));
    assert_eq!(w.apply_event("DELETED", &bare), Ok(None));
    assert_eq!(w.apply_event("BOOKMARK", &object("b", "ns")), Ok(None));
    assert_eq!(w.vm_count(), 1);
    assert_eq!(w.get_vm("ns/a"), Some(&machine("a", "ns", None)));
}

#[test]
fn watcher_takes_changes_as_documents() {
    let mut w = VmWatcher::new();
    let added = json(
        r#"{ "metadata": { "name": "vm-a", "namespace": "prod", "uid": "1234",
             "annotations": { "vsock.stackrox.io/cid": "17" } } }"#,
    );
    let expected = VirtualMachine {
        name: "vm-a".to_string(),
        namespace: "prod".to_string(),
        uid: "1234".to_string(),
        cid: Some(17),
    };
    assert_eq!(w.handle_vm_event("ADDED", &added), Ok(Some(expected.clone())));
    assert_eq!(w.get_vm("prod/vm-a"), Some(&expected));
    assert_eq!(w.handle_vm_event("ADDED", &json(r#"{"metadata": {"name": "x"}}"#)), Err(WatchError::MissingNamespace));
    assert_eq!(w.handle_vm_event("ADDED", &json("{}")), Err(WatchError::MissingMetadata));
    assert_eq!(w.handle_vm_event("UNKNOWN", &added), Ok(None));
    assert_eq!(w.vm_count(), 1);
    assert_eq!(w.handle_vm_event("DELETED", &json(r#"{"metadata": {"name": "vm-a", "namespace": "prod"}}"#)), Ok(None));
    assert_eq!(w.vm_count(), 0);
    assert_eq!(expected.clone(), expected);
}
