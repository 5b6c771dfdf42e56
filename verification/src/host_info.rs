//! What the agent reports about the host it runs on: its name, its
//! distribution and its platform identifier, each worked out from the files
//! the host keeps them in.

use vstd::prelude::*;
use vstd::utf8::{decode_utf8, valid_utf8};
use crate::report::Distribution;
use crate::text::{
    chars_eq, chars_of, chars_to_string, copy_range, find_from, first_index, join_with,
    lemma_first_index, lines, split_lines, trim, trim_chars, trim_matches, trim_matches_chars,
    utf8_to_string, views,
};

verus! {

/// Environment variable that names the directory the host's root is mounted at.
pub const HOST_MOUNT_VAR: &'static str = "FACT_HOST_MOUNT";

/// First file asked for the host's name.
pub const HOSTNAME_FILE: &'static str = "/etc/hostname";

/// Second file asked for the host's name.
pub const KERNEL_HOSTNAME_FILE: &'static str = "/proc/sys/kernel/hostname";

/// File that describes the distribution.
pub const OS_RELEASE_FILE: &'static str = "/etc/os-release";

/// File that holds the platform identifier.
pub const SYSTEM_CPE_FILE: &'static str = "/etc/system-release-cpe";

/// The name of a host that has none.
pub const NO_HOSTNAME: &'static str = "no-hostname";

/// The path of `file` on a host whose root is mounted at `mount`.
pub fn host_path(mount: &str, file: &str) -> (r: String)
    ensures
        r@ == mount@ + file@,
{
    let mut out = chars_of(mount);
    let tail = chars_of(file);
    crate::text::extend_from(&mut out, tail.as_slice());
    chars_to_string(out.as_slice())
}

/// The host's name: the trimmed content of the first file that is there,
/// or `NO_HOSTNAME` when none is.
pub open spec fn spec_hostname(files: Seq<Option<String>>) -> Seq<char>
    decreases files.len(),
{
    if files.len() == 0 {
        NO_HOSTNAME@
    } else {
        match files[0] {
            Some(content) => trim(content@),
            None => spec_hostname(files.drop_first()),
        }
    }
}

/// Works out the host's name from what was read of the files that may hold
/// it, in the order they are asked, `None` standing for a file that is not
/// there.
pub fn hostname_from(files: &Vec<Option<String>>) -> (r: String)
    ensures
        r@ == spec_hostname(files@),
{
    let mut i: usize = 0;
    assert(files@.skip(0) == files@);
    while i < files.len()
        invariant
            i <= files@.len(),
            spec_hostname(files@) == spec_hostname(files@.skip(i as int)),
        decreases files@.len() - i,
    {
        assert(files@.skip(i as int)[0] == files@[i as int]);
        assert(files@.skip(i as int).drop_first() == files@.skip(i + 1));
        match &files[i] {
            Some(content) => {
                let chars = chars_of(content.as_str());
                let trimmed = trim_chars(chars.as_slice());
                return chars_to_string(trimmed.as_slice());
            },
            None => {},
        }
        i += 1;
    }
    NO_HOSTNAME.to_owned()
}

/// The platform identifier: the trimmed content of its file, or nothing
/// when the file is not there.
pub fn system_cpe(content: &Option<String>) -> (r: String)
    ensures
        match *content {
            Some(c) => r@ == trim(c@),
            None => r@ == Seq::<char>::empty(),
        },
{
    match content {
        Some(c) => {
            let chars = chars_of(c.as_str());
            let trimmed = trim_chars(chars.as_slice());
            chars_to_string(trimmed.as_slice())
        },
        None => String::new(),
    }
}

/// The machine architecture that the output of the platform query names:
/// the trimmed output, or `unknown` when the query failed or its output is
/// no text.
pub open spec fn spec_arch(output: Option<Vec<u8>>) -> Seq<char> {
    match output {
        Some(bytes) => if valid_utf8(bytes@) {
            trim(decode_utf8(bytes@))
        } else {
            "unknown"@
        },
        None => "unknown"@,
    }
}

/// Works out the machine architecture from the outcome of the platform
/// query, `None` standing for a query that could not be run.
pub fn arch_from(output: &Option<Vec<u8>>) -> (r: String)
    ensures
        r@ == spec_arch(*output),
{
    match output {
        Some(bytes) => match utf8_to_string(bytes.as_slice()) {
            Some(text) => {
                let chars = chars_of(text.as_str());
                let trimmed = trim_chars(chars.as_slice());
                chars_to_string(trimmed.as_slice())
            },
            None => "unknown".to_owned(),
        },
        None => "unknown".to_owned(),
    }
}

/// The key of a line of the form `KEY=value`, if the line has that form.
pub open spec fn entry_key(line: Seq<char>) -> Option<Seq<char>> {
    let i = first_index(line, '=');
    if 0 <= i < line.len() {
        Some(line.take(i))
    } else {
        None
    }
}

/// The value of a line of the form `KEY=value`: what follows the first `=`,
/// without the quotes around it.
pub open spec fn entry_value(line: Seq<char>) -> Seq<char> {
    trim_matches(line.skip(first_index(line, '=') + 1), '"')
}

/// The value that `ls` give `key`: that of the last line with this key.
pub open spec fn lookup(ls: Seq<Seq<char>>, key: Seq<char>) -> Option<Seq<char>>
    decreases ls.len(),
{
    if ls.len() == 0 {
        None
    } else if entry_key(ls.last()) == Some(key) {
        Some(entry_value(ls.last()))
    } else {
        lookup(ls.drop_last(), key)
    }
}

/// The value that `ls` give `key`, or `default` when they give none.
pub open spec fn lookup_or(ls: Seq<Seq<char>>, key: Seq<char>, default: Seq<char>) -> Seq<char> {
    match lookup(ls, key) {
        Some(v) => v,
        None => default,
    }
}

/// Looks `key` up in the lines of a file of `KEY=value` lines.
pub fn lookup_value(ls: &Vec<Vec<char>>, key: &str) -> (r: Option<Vec<char>>)
    ensures
        match lookup(views(ls@), key@) {
            Some(v) => r matches Some(got) && got@ == v,
            None => r is None,
        },
{
    let key_chars = chars_of(key);
    let ghost all = views(ls@);
    let mut i: usize = ls.len();
    assert(all.take(i as int) == all);
    while i > 0
        invariant
            i <= ls@.len(),
            all == views(ls@),
            key_chars@ == key@,
            lookup(all, key@) == lookup(all.take(i as int), key@),
        decreases i,
    {
        let line = ls[i - 1].as_slice();
        let ghost head = all.take(i as int);
        assert(head.last() == line@);
        assert(head.drop_last() == all.take(i - 1));
        let k = find_from(line, 0, '=');
        assert(line@.skip(0) == line@);
        proof {
            lemma_first_index(line@, '=');
        }
        if k < line.len() {
            let name = copy_range(line, 0, k);
            assert(name@ == line@.take(k as int));
            if chars_eq(name.as_slice(), key_chars.as_slice()) {
                let rest = copy_range(line, k + 1, line.len());
                assert(rest@ == line@.skip(k + 1));
                return Some(trim_matches_chars(rest.as_slice(), '"'));
            }
        }
        i -= 1;
    }
    None
}

/// What a `Distribution` holds.
pub struct DistributionView {
    pub id: Seq<char>,
    pub did: Seq<char>,
    pub name: Seq<char>,
    pub version: Seq<char>,
    pub version_code_name: Seq<char>,
    pub version_id: Seq<char>,
    pub arch: Seq<char>,
    pub cpe: Seq<char>,
    pub pretty_name: Seq<char>,
}

impl View for Distribution {
    type V = DistributionView;

    open spec fn view(&self) -> DistributionView {
        DistributionView {
            id: self.id@,
            did: self.did@,
            name: self.name@,
            version: self.version@,
            version_code_name: self.version_code_name@,
            version_id: self.version_id@,
            arch: self.arch@,
            cpe: self.cpe@,
            pretty_name: self.pretty_name@,
        }
    }
}

/// The distribution that the lines `ls` of the release file describe, on a
/// machine of architecture `arch`. What the file does not say is `unknown`,
/// `Unknown` for the two names, or left empty.
pub open spec fn distribution_of(ls: Seq<Seq<char>>, arch: Seq<char>) -> DistributionView {
    let did = lookup_or(ls, "ID"@, "unknown"@);
    let version = lookup_or(ls, "VERSION_ID"@, "unknown"@);
    DistributionView {
        id: did + seq!['-'] + version,
        did,
        name: lookup_or(ls, "NAME"@, "Unknown"@),
        version,
        version_code_name: lookup_or(ls, "VERSION_CODENAME"@, Seq::empty()),
        version_id: version,
        arch,
        cpe: lookup_or(ls, "CPE_NAME"@, Seq::empty()),
        pretty_name: lookup_or(ls, "PRETTY_NAME"@, "Unknown"@),
    }
}

/// The lines of the release file, or none when the file is not there.
pub open spec fn release_lines(content: Option<String>) -> Seq<Seq<char>> {
    match content {
        Some(c) => lines(c@),
        None => Seq::empty(),
    }
}

/// Looks `key` up and falls back to `default`.
fn lookup_text(ls: &Vec<Vec<char>>, key: &str, default: &str) -> (r: Vec<char>)
    ensures
        r@ == lookup_or(views(ls@), key@, default@),
{
    match lookup_value(ls, key) {
        Some(v) => v,
        None => chars_of(default),
    }
}

/// Describes the distribution from what was read of the release file,
/// `None` standing for a file that is not there, and the machine
/// architecture.
pub fn create_distribution(content: &Option<String>, arch: &str) -> (r: Distribution)
    ensures
        r@ == distribution_of(release_lines(*content), arch@),
{
    let ls: Vec<Vec<char>> = match content {
        Some(c) => {
            let chars = chars_of(c.as_str());
            split_lines(chars.as_slice())
        },
        None => Vec::new(),
    };
    assert(views(ls@) =~= release_lines(*content));
    let did = lookup_text(&ls, "ID", "unknown");
    let version = lookup_text(&ls, "VERSION_ID", "unknown");
    let id = join_with(did.as_slice(), '-', version.as_slice());
    let name = lookup_text(&ls, "NAME", "Unknown");
    let code_name = lookup_text(&ls, "VERSION_CODENAME", "");
    let cpe = lookup_text(&ls, "CPE_NAME", "");
    let pretty_name = lookup_text(&ls, "PRETTY_NAME", "Unknown");
    proof {
        reveal_strlit("");
        assert(""@ =~= Seq::<char>::empty());
    }
    Distribution {
        id: chars_to_string(id.as_slice()),
        did: chars_to_string(did.as_slice()),
        name: chars_to_string(name.as_slice()),
        version: chars_to_string(version.as_slice()),
        version_code_name: chars_to_string(code_name.as_slice()),
        version_id: chars_to_string(version.as_slice()),
        arch: arch.to_owned(),
        cpe: chars_to_string(cpe.as_slice()),
        pretty_name: chars_to_string(pretty_name.as_slice()),
    }
}

} // verus!
