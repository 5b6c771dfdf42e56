use fact::bpf::{
    event_t, path_cfg_t, ARGS_MAX, EVENT_SIZE, LINEAGE_MAX, LINEAGE_SIZE, PATH_MAX, PROCESS_SIZE,
    TASK_COMM_LEN,
};

fn put(record: &mut Vec<u8>, at: usize, bytes: &[u8]) {
    record[at..at + bytes.len()].copy_from_slice(bytes);
}

#[test]
fn layout_constants_have_the_sizes_of_the_tracer() {
    assert_eq!(PATH_MAX, 4096);
    assert_eq!(TASK_COMM_LEN, 16);
    assert_eq!(LINEAGE_MAX, 2);
    assert_eq!(ARGS_MAX, 4096);
    assert_eq!(LINEAGE_SIZE, 4100);
    assert_eq!(PROCESS_SIZE, 20524);
    assert_eq!(EVENT_SIZE, 28725);
}

#[test]
fn new_path_filter_is_empty_and_zeroed() {
    let f = path_cfg_t::new();
    assert_eq!(f.len, 0);
    assert!(f.path.iter().all(|b| *b == 0));
    let d = path_cfg_t::default();
    assert_eq!(d, f);
}

#[test]
fn path_filter_holds_the_path_and_its_length() {
    let mut f = path_cfg_t::new();
    f.set("/etc/passwd");
    assert_eq!(f.len, 11);
    assert_eq!(&f.path[..11], b"/etc/passwd");
    assert!(f.path[11..].iter().all(|b| *b == 0));
}

#[test]
fn path_filter_is_zero_padded_when_a_shorter_path_replaces_a_longer_one() {
    let mut f = path_cfg_t::new();
    f.set("/var/lib/containers");
    f.set("/etc");
    assert_eq!(f.len, 4);
    assert_eq!(&f.path[..4], b"/etc");
    assert!(f.path[4..].iter().all(|b| *b == 0));
}

#[test]
fn path_filter_takes_a_path_that_fills_the_buffer() {
    let path = "a".repeat(PATH_MAX);
    let mut f = path_cfg_t::new();
    f.set(&path);
    assert_eq!(f.len as usize, PATH_MAX);
    assert!(f.path.iter().all(|b| *b == b'a'));
}

#[test]
fn path_filter_counts_bytes_not_characters() {
    let mut f = path_cfg_t::new();
    f.set("/tmp/é");
    assert_eq!(f.len, 7);
    assert_eq!(&f.path[..7], "/tmp/é".as_bytes());
}

#[test]
fn record_of_another_size_is_refused() {
    assert!(event_t::from_bytes(&[]).is_none());
    assert!(event_t::from_bytes(&vec![0u8; EVENT_SIZE - 1]).is_none());
    assert!(event_t::from_bytes(&vec![0u8; EVENT_SIZE + 1]).is_none());
    assert!(event_t::from_bytes(&vec![0u8; EVENT_SIZE + 3]).is_none());
    assert!(event_t::from_bytes(&vec![0u8; EVENT_SIZE]).is_some());
}

#[test]
fn record_fields_are_read_at_their_offsets() {
    let mut record = vec![0u8; EVENT_SIZE];
    put(&mut record, 0, &0x0102_0304_0506_0708u64.to_le_bytes());
    put(&mut record, 8, b"sh");
    put(&mut record, 8 + 16, b"-c true");
    put(&mut record, 8 + 4112, b"/bin/sh");
    put(&mut record, 8 + 8208, b"/kubepods/pod1");
    put(&mut record, 8 + 12304, &1000u32.to_le_bytes());
    put(&mut record, 8 + 12308, &1001u32.to_le_bytes());
    put(&mut record, 8 + 12312, &1002u32.to_le_bytes());
    put(&mut record, 8 + 12316, &42u32.to_le_bytes());
    put(&mut record, 8 + 12320, &7u32.to_le_bytes());
    put(&mut record, 8 + 12324, b"/sbin/init");
    put(&mut record, 8 + 16420, &8u32.to_le_bytes());
    put(&mut record, 8 + 16424, b"/usr/bin/containerd");
    put(&mut record, 8 + 20520, &2u32.to_le_bytes());
    record[20532] = 0xFF;
    put(&mut record, 20533, b"/etc/passwd");
    put(&mut record, 24629, b"/host/etc/passwd");

    let raw = event_t::from_bytes(&record).unwrap();
    assert_eq!(raw.timestamp, 0x0102_0304_0506_0708);
    assert_eq!(&raw.process.comm[..3], b"sh\0");
    assert_eq!(&raw.process.args[..8], b"-c true\0");
    assert_eq!(&raw.process.exe_path[..8], b"/bin/sh\0");
    assert_eq!(&raw.process.cpu_cgroup[..15], b"/kubepods/pod1\0");
    assert_eq!(raw.process.uid, 1000);
    assert_eq!(raw.process.gid, 1001);
    assert_eq!(raw.process.login_uid, 1002);
    assert_eq!(raw.process.pid, 42);
    assert_eq!(raw.process.lineage[0].uid, 7);
    assert_eq!(&raw.process.lineage[0].exe_path[..11], b"/sbin/init\0");
    assert_eq!(raw.process.lineage[1].uid, 8);
    assert_eq!(&raw.process.lineage[1].exe_path[..20], b"/usr/bin/containerd\0");
    assert_eq!(raw.process.lineage_len, 2);
    assert_eq!(raw.is_external_mount, -1);
    assert_eq!(&raw.filename[..12], b"/etc/passwd\0");
    assert_eq!(&raw.host_file[..17], b"/host/etc/passwd\0");
}

#[test]
fn mount_flag_is_read_as_a_signed_byte() {
    let mut record = vec![0u8; EVENT_SIZE];
    record[20532] = 1;
    assert_eq!(event_t::from_bytes(&record).unwrap().is_external_mount, 1);
    record[20532] = 127;
    assert_eq!(event_t::from_bytes(&record).unwrap().is_external_mount, 127);
    record[20532] = 128;
    assert_eq!(event_t::from_bytes(&record).unwrap().is_external_mount, -128);
}
