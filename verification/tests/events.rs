use fact::bpf::{event_t, lineage_t, process_t, EVENT_SIZE, PATH_MAX};
use fact::event::{c_string, DecodeError, Event, Lineage, Process};

fn buf<const N: usize>(text: &[u8]) -> [u8; N] {
    let mut b = [0u8; N];
    b[..text.len()].copy_from_slice(text);
    b
}

fn ancestor(uid: u32, exe: &[u8]) -> lineage_t {
    lineage_t { uid, exe_path: buf(exe) }
}

fn sample() -> event_t {
    event_t {
        timestamp: 1,
        process: process_t {
            comm: buf(b"sh"),
            args: buf(b"sh -c true"),
            exe_path: buf(b"/bin/sh"),
            cpu_cgroup: buf(b"/kubepods/pod1"),
            uid: 1000,
            gid: 1001,
            login_uid: 1002,
            pid: 42,
            lineage: [ancestor(0, b"/sbin/init"), ancestor(0, b"")],
            lineage_len: 1,
        },
        is_external_mount: 0,
        filename: buf(b"/etc/passwd"),
        host_file: buf(b"/host/etc/passwd"),
    }
}

#[test]
fn file_event_decode() {
    let ev = Event::try_from(&sample()).unwrap();
    assert_eq!(ev.timestamp, 1);
    assert_eq!(ev.process.pid, 42);
    assert_eq!(ev.process.comm, "sh");
    assert_eq!(ev.process.exe_path, "/bin/sh");
    assert_eq!(ev.filename, "/etc/passwd");
    assert_eq!(ev.process.lineage.len(), 1);
    assert_eq!(ev.process.lineage[0].uid, 0);
    assert_eq!(ev.process.lineage[0].exe_path, "/sbin/init");
}

#[test]
fn decoding_keeps_every_number_and_text() {
    let mut raw = sample();
    raw.timestamp = u64::MAX;
    raw.is_external_mount = -1;
    raw.process.lineage = [ancestor(5, b"/usr/bin/runc"), ancestor(6, b"/usr/bin/containerd")];
    raw.process.lineage_len = 2;
    let ev = Event::try_from(&raw).unwrap();
    assert_eq!(
        ev,
        Event {
            timestamp: u64::MAX,
            process: Process {
                comm: "sh".to_string(),
                args: "sh -c true".to_string(),
                exe_path: "/bin/sh".to_string(),
                cpu_cgroup: "/kubepods/pod1".to_string(),
                uid: 1000,
                gid: 1001,
                login_uid: 1002,
                pid: 42,
                lineage: vec![
                    Lineage { uid: 5, exe_path: "/usr/bin/runc".to_string() },
                    Lineage { uid: 6, exe_path: "/usr/bin/containerd".to_string() },
                ],
            },
            is_external_mount: -1,
            filename: "/etc/passwd".to_string(),
            host_file: "/host/etc/passwd".to_string(),
        }
    );
}

#[test]
fn text_stops_at_the_first_zero_byte() {
    let mut raw = sample();
    raw.filename = buf(b"/etc/passwd\0/etc/shadow");
    let ev = Event::try_from(&raw).unwrap();
    assert_eq!(ev.filename, "/etc/passwd");
}

#[test]
fn text_without_a_zero_byte_fills_the_buffer() {
    let mut raw = sample();
    raw.process.comm = *b"0123456789abcdef";
    raw.filename = [b'x'; PATH_MAX];
    let ev = Event::try_from(&raw).unwrap();
    assert_eq!(ev.process.comm, "0123456789abcdef");
    assert_eq!(ev.filename.len(), PATH_MAX);
    assert!(ev.filename.bytes().all(|b| b == b'x'));
}

#[test]
fn empty_buffers_decode_to_empty_texts() {
    let mut raw = sample();
    raw.process.args = buf(b"");
    raw.host_file = buf(b"");
    raw.process.lineage_len = 0;
    let ev = Event::try_from(&raw).unwrap();
    assert_eq!(ev.process.args, "");
    assert_eq!(ev.host_file, "");
    assert!(ev.process.lineage.is_empty());
}

#[test]
fn multibyte_text_is_kept_byte_for_byte() {
    let mut raw = sample();
    raw.filename = buf("/tmp/héllo/日本".as_bytes());
    let ev = Event::try_from(&raw).unwrap();
    assert_eq!(ev.filename, "/tmp/héllo/日本");
    assert_eq!(ev.filename.as_bytes(), "/tmp/héllo/日本".as_bytes());
}

#[test]
fn text_that_is_not_utf8_is_rejected() {
    let mut raw = sample();
    raw.filename = buf(&[b'/', 0xFF, 0xFE]);
    assert_eq!(Event::try_from(&raw), Err(DecodeError::InvalidUtf8));

    let mut raw = sample();
    raw.process.comm = buf(&[0xC3]);
    assert_eq!(Event::try_from(&raw), Err(DecodeError::InvalidUtf8));

    let mut raw = sample();
    raw.process.lineage[0] = ancestor(0, &[0x80]);
    assert_eq!(Event::try_from(&raw), Err(DecodeError::InvalidUtf8));

    let mut raw = sample();
    raw.host_file = buf(&[0xE2, 0x82]);
    assert_eq!(Event::try_from(&raw), Err(DecodeError::InvalidUtf8));
}

#[test]
fn bytes_after_the_terminator_need_not_be_utf8() {
    let mut raw = sample();
    raw.filename = buf(&[b'/', b'a', 0, 0xFF, 0xFF]);
    assert_eq!(Event::try_from(&raw).unwrap().filename, "/a");
}

#[test]
fn ancestors_not_in_use_are_not_looked_at() {
    let mut raw = sample();
    raw.process.lineage[1] = ancestor(9, &[0xFF]);
    raw.process.lineage_len = 1;
    let ev = Event::try_from(&raw).unwrap();
    assert_eq!(ev.process.lineage.len(), 1);
}

#[test]
fn too_many_ancestors_are_rejected() {
    let mut raw = sample();
    raw.process.lineage_len = 3;
    assert_eq!(Event::try_from(&raw), Err(DecodeError::LineageTooLong));
    raw.process.lineage_len = u32::MAX;
    assert_eq!(Event::try_from(&raw), Err(DecodeError::LineageTooLong));
}

#[test]
fn c_string_reads_up_to_the_terminator() {
    assert_eq!(c_string(b"abc\0def"), Some("abc".to_string()));
    assert_eq!(c_string(b"abc"), Some("abc".to_string()));
    assert_eq!(c_string(b""), Some(String::new()));
    assert_eq!(c_string(b"\0"), Some(String::new()));
    assert_eq!(c_string(&[0xFF, 0]), None);
}

#[test]
fn record_bytes_decode_to_an_event() {
    let mut record = vec![0u8; EVENT_SIZE];
    record[0] = 1;
    record[8..10].copy_from_slice(b"sh");
    record[8 + 12316..8 + 12320].copy_from_slice(&42u32.to_le_bytes());
    record[20533..20544].copy_from_slice(b"/etc/passwd");
    let ev = Event::from_record(&record).unwrap().unwrap();
    assert_eq!(ev.timestamp, 1);
    assert_eq!(ev.process.pid, 42);
    assert_eq!(ev.process.comm, "sh");
    assert_eq!(ev.filename, "/etc/passwd");
    assert!(ev.process.lineage.is_empty());

    assert_eq!(Event::from_record(&record[1..]), None);
    record[20533] = 0xFF;
    assert_eq!(Event::from_record(&record), Some(Err(DecodeError::InvalidUtf8)));
}
