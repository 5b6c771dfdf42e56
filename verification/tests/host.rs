use fact::host_info::{
    arch_from, create_distribution, host_path, hostname_from, lookup_value, system_cpe,
    HOSTNAME_FILE, HOST_MOUNT_VAR, KERNEL_HOSTNAME_FILE, NO_HOSTNAME, OS_RELEASE_FILE,
    SYSTEM_CPE_FILE,
};
use fact::report::Distribution;

const OS_RELEASE: &str = "NAME=\"Fedora Linux\"\n\
VERSION=\"39 (Server Edition)\"\n\
ID=fedora\n\
VERSION_ID=39\n\
VERSION_CODENAME=\"\"\n\
PRETTY_NAME=\"Fedora Linux 39 (Server Edition)\"\n\
CPE_NAME=\"cpe:/o:fedoraproject:fedora:39\"\n\
HOME_URL=\"https://fedoraproject.org/\"\n";

fn lines(text: &str) -> Vec<Vec<char>> {
    text.lines().map(|l| l.chars().collect()).collect()
}

fn text(v: Option<Vec<char>>) -> Option<String> {
    v.map(|c| c.into_iter().collect())
}

#[test]
fn host_files_are_named_under_the_mount() {
    assert_eq!(HOST_MOUNT_VAR, "FACT_HOST_MOUNT");
    assert_eq!(host_path("", HOSTNAME_FILE), "/etc/hostname");
    assert_eq!(host_path("/host", HOSTNAME_FILE), "/host/etc/hostname");
    assert_eq!(host_path("/host", KERNEL_HOSTNAME_FILE), "/host/proc/sys/kernel/hostname");
    assert_eq!(host_path("/host", OS_RELEASE_FILE), "/host/etc/os-release");
    assert_eq!(host_path("/host", SYSTEM_CPE_FILE), "/host/etc/system-release-cpe");
}

#[test]
fn hostname_is_the_first_file_that_is_there() {
    assert_eq!(hostname_from(&vec![Some("node-1\n".to_string()), Some("other\n".to_string())]), "node-1");
    assert_eq!(hostname_from(&vec![None, Some("  node-2 \n".to_string())]), "node-2");
    assert_eq!(hostname_from(&vec![Some("".to_string()), Some("node-3".to_string())]), "");
}

#[test]
fn hostname_falls_back_when_no_file_is_there() {
    assert_eq!(hostname_from(&vec![None, None]), "no-hostname");
    assert_eq!(hostname_from(&vec![]), NO_HOSTNAME);
}

#[test]
fn hostname_is_trimmed_of_all_white_space() {
    assert_eq!(hostname_from(&vec![Some("\t\u{a0}node\u{3000}\r\n".to_string())]), "node");
    assert_eq!(hostname_from(&vec![Some("a b".to_string())]), "a b");
    assert_eq!(hostname_from(&vec![Some(" \n ".to_string())]), "");
    assert_eq!(hostname_from(&vec![Some("\u{200b}x".to_string())]), "\u{200b}x");
}

#[test]
fn platform_identifier_is_the_trimmed_file() {
    assert_eq!(system_cpe(&Some("cpe:/o:redhat:enterprise_linux:9\n".to_string())), "cpe:/o:redhat:enterprise_linux:9");
    assert_eq!(system_cpe(&None), "");
}

#[test]
fn architecture_is_the_trimmed_output_of_the_query() {
    assert_eq!(arch_from(&Some(b"x86_64\n".to_vec())), "x86_64");
    assert_eq!(arch_from(&Some(b"aarch64".to_vec())), "aarch64");
    assert_eq!(arch_from(&Some(vec![0xFF, b'\n'])), "unknown");
    assert_eq!(arch_from(&None), "unknown");
    assert_eq!(arch_from(&Some(vec![])), "");
}

#[test]
fn release_file_describes_the_distribution() {
    let d = create_distribution(&Some(OS_RELEASE.to_string()), "x86_64");
    assert_eq!(
        d,
        Distribution {
            id: "fedora-39".to_string(),
            did: "fedora".to_string(),
            name: "Fedora Linux".to_string(),
            version: "39".to_string(),
            version_code_name: "".to_string(),
            version_id: "39".to_string(),
            arch: "x86_64".to_string(),
            cpe: "cpe:/o:fedoraproject:fedora:39".to_string(),
            pretty_name: "Fedora Linux 39 (Server Edition)".to_string(),
        }
    );
    assert_eq!(d.clone(), d);
}

#[test]
fn a_missing_release_file_gives_the_fallbacks() {
    let d = create_distribution(&None, "unknown");
    assert_eq!(
        d,
        Distribution {
            id: "unknown-unknown".to_string(),
            did: "unknown".to_string(),
            name: "Unknown".to_string(),
            version: "unknown".to_string(),
            version_code_name: "".to_string(),
            version_id: "unknown".to_string(),
            arch: "unknown".to_string(),
            cpe: "".to_string(),
            pretty_name: "Unknown".to_string(),
        }
    );
    assert_eq!(create_distribution(&Some(String::new()), "s390x").arch, "s390x");
}

#[test]
fn the_last_line_with_a_key_wins() {
    let ls = lines("ID=first\nNAME=x\nID=second\n");
    assert_eq!(text(lookup_value(&ls, "ID")), Some("second".to_string()));
    assert_eq!(text(lookup_value(&ls, "NAME")), Some("x".to_string()));
    assert_eq!(text(lookup_value(&ls, "VERSION_ID")), None);
}

#[test]
fn values_lose_the_quotes_around_them_only() {
    let ls = lines("A=\"quoted\"\nB=\"\"\"many\"\"\nC=in\"side\nD=\nE=\"\nF=a=b\n=novalue\nnoequals\n G=x\n");
    assert_eq!(text(lookup_value(&ls, "A")), Some("quoted".to_string()));
    assert_eq!(text(lookup_value(&ls, "B")), Some("many".to_string()));
    assert_eq!(text(lookup_value(&ls, "C")), Some("in\"side".to_string()));
    assert_eq!(text(lookup_value(&ls, "D")), Some("".to_string()));
    assert_eq!(text(lookup_value(&ls, "E")), Some("".to_string()));
    assert_eq!(text(lookup_value(&ls, "F")), Some("a=b".to_string()));
    assert_eq!(text(lookup_value(&ls, "")), Some("novalue".to_string()));
    assert_eq!(text(lookup_value(&ls, "noequals")), None);
    assert_eq!(text(lookup_value(&ls, "G")), None);
    assert_eq!(text(lookup_value(&ls, " G")), Some("x".to_string()));
}
