//! The package inventory: records parsed from the package tool's output and
//! the report that carries them.

use vstd::prelude::*;
use vstd::utf8::{decode_utf8, valid_utf8};
use crate::text::{
    chars_of, chars_to_string, free_of, join_with, lemma_lines_first, lemma_split_first,
    lemma_split_whole, lines, split, split_chars, split_lines, strip_cr, utf8_to_string,
};

verus! {

/// One installed package.
#[derive(Debug, PartialEq, Eq)]
pub struct PackageRecord {
    pub name: String,
    /// `<version>-<release>`.
    pub version: String,
    pub architecture: String,
}

/// What a `PackageRecord` holds, as character sequences.
pub struct PackageRecordView {
    pub name: Seq<char>,
    pub version: Seq<char>,
    pub architecture: Seq<char>,
}

impl View for PackageRecord {
    type V = PackageRecordView;

    open spec fn view(&self) -> PackageRecordView {
        PackageRecordView {
            name: self.name@,
            version: self.version@,
            architecture: self.architecture@,
        }
    }
}

impl Clone for PackageRecord {
    fn clone(&self) -> (r: Self)
        ensures
            r == *self,
    {
        PackageRecord {
            name: self.name.clone(),
            version: self.version.clone(),
            architecture: self.architecture.clone(),
        }
    }
}

impl PackageRecordView {
    /// Name and version are not empty.
    pub open spec fn wf(self) -> bool {
        self.name.len() > 0 && self.version.len() > 0
    }
}

/// The distribution a host runs.
#[derive(Debug, PartialEq, Eq)]
pub struct Distribution {
    /// `<did>-<version_id>`.
    pub id: String,
    /// The distribution's identifier, such as `rhel`.
    pub did: String,
    pub name: String,
    pub version: String,
    pub version_code_name: String,
    pub version_id: String,
    pub arch: String,
    pub cpe: String,
    pub pretty_name: String,
}

impl Clone for Distribution {
    fn clone(&self) -> (r: Self)
        ensures
            r == *self,
    {
        Distribution {
            id: self.id.clone(),
            did: self.did.clone(),
            name: self.name.clone(),
            version: self.version.clone(),
            version_code_name: self.version_code_name.clone(),
            version_id: self.version_id.clone(),
            arch: self.arch.clone(),
            cpe: self.cpe.clone(),
            pretty_name: self.pretty_name.clone(),
        }
    }
}

/// The inventory of one host.
#[derive(Debug, PartialEq, Eq)]
pub struct PackageReport {
    /// The host's identifier.
    pub id: String,
    /// The installed packages, in the order the tool listed them.
    pub components: Vec<PackageRecord>,
    /// The distribution, where it is reported.
    pub distribution: Option<Distribution>,
}

impl PackageReport {
    /// The report of `components` for the host `id`, without a distribution.
    pub fn new(id: &str, components: Vec<PackageRecord>) -> (r: Self)
        ensures
            r.id@ == id@,
            r.components == components,
            r.distribution is None,
    {
        PackageReport { id: id.to_owned(), components, distribution: None }
    }

    /// The number of packages reported.
    pub fn component_count(&self) -> (r: usize)
        ensures
            r == self.components@.len(),
    {
        self.components.len()
    }
}

/// Why the package tool's output could not be read.
#[derive(Debug, Clone, Copy, PartialEq, Eq, Structural)]
pub enum ScanError {
    /// The tool could not be run.
    CommandFailed,
    /// The output is not UTF-8.
    NotUtf8,
}

/// The views of the records of `v`.
pub open spec fn record_views(v: Seq<PackageRecord>) -> Seq<PackageRecordView> {
    Seq::new(v.len(), |i: int| v[i]@)
}

/// The record a line of tool output stands for: four fields separated by `|`,
/// the first of them not empty. Any other line stands for none.
pub open spec fn record_of_line(line: Seq<char>) -> Option<PackageRecordView> {
    let f = split(line, '|');
    if f.len() == 4 && f[0].len() > 0 {
        Some(
            PackageRecordView {
                name: f[0],
                version: f[1] + seq!['-'] + f[2],
                architecture: f[3],
            },
        )
    } else {
        None
    }
}

/// The records of the lines of `ls` that stand for one, in order.
pub open spec fn records_of_lines(ls: Seq<Seq<char>>) -> Seq<PackageRecordView>
    decreases ls.len(),
{
    if ls.len() == 0 {
        Seq::empty()
    } else {
        let head = match record_of_line(ls[0]) {
            Some(r) => seq![r],
            None => Seq::empty(),
        };
        head + records_of_lines(ls.drop_first())
    }
}

/// The inventory that the tool output `text` describes.
pub open spec fn parse_packages(text: Seq<char>) -> Seq<PackageRecordView> {
    records_of_lines(lines(text))
}

/// The view of an optional record.
pub open spec fn option_view(r: Option<PackageRecord>) -> Option<PackageRecordView> {
    match r {
        Some(rec) => Some(rec@),
        None => None,
    }
}

impl PackageRecord {
    /// Parses one line of tool output.
    pub fn parse_line(line: &[char]) -> (r: Option<PackageRecord>)
        ensures
            option_view(r) == record_of_line(line@),
            r matches Some(rec) ==> rec@.wf(),
    {
        let fields = split_chars(line, '|');
        assert(crate::text::views(fields@).len() == fields@.len());
        if fields.len() != 4 || fields[0].len() == 0 {
            assert(crate::text::views(fields@)[0] == fields@[0]@);
            return None;
        }
        let version = join_with(fields[1].as_slice(), '-', fields[2].as_slice());
        let ghost f = crate::text::views(fields@);
        assert(f[0] == fields@[0]@ && f[1] == fields@[1]@ && f[2] == fields@[2]@ && f[3]
            == fields@[3]@);
        Some(
            PackageRecord {
                name: chars_to_string(fields[0].as_slice()),
                version: chars_to_string(version.as_slice()),
                architecture: chars_to_string(fields[3].as_slice()),
            },
        )
    }

    /// Parses one line of tool output given as text.
    pub fn parse(line: &str) -> (r: Option<PackageRecord>)
        ensures
            option_view(r) == record_of_line(line@),
    {
        let chars = chars_of(line);
        PackageRecord::parse_line(chars.as_slice())
    }
}

/// Parses the tool output `text`: one record for each line that stands for
/// one, in the order of the lines.
pub fn parse_package_text(text: &str) -> (r: Vec<PackageRecord>)
    ensures
        record_views(r@) == parse_packages(text@),
        forall|i: int| 0 <= i < r@.len() ==> (#[trigger] r@[i])@.wf(),
{
    let chars = chars_of(text);
    let ls = split_lines(chars.as_slice());
    let ghost all = crate::text::views(ls@);
    let mut out: Vec<PackageRecord> = Vec::new();
    let mut i: usize = 0;
    assert(all.skip(0) == all);
    assert(record_views(out@) + records_of_lines(all) == records_of_lines(all));
    while i < ls.len()
        invariant
            i <= ls@.len(),
            all == crate::text::views(ls@),
            records_of_lines(all) == record_views(out@) + records_of_lines(all.skip(i as int)),
            forall|j: int| 0 <= j < out@.len() ==> (#[trigger] out@[j])@.wf(),
        decreases ls@.len() - i,
    {
        let ghost rest = all.skip(i as int);
        let ghost before = record_views(out@);
        assert(rest[0] == ls@[i as int]@);
        assert(rest.drop_first() == all.skip(i + 1));
        match PackageRecord::parse_line(ls[i].as_slice()) {
            Some(rec) => {
                let ghost v = rec@;
                out.push(rec);
                assert(record_views(out@) == before.push(v));
                assert(before + (seq![v] + records_of_lines(rest.drop_first())) == before.push(v)
                    + records_of_lines(rest.drop_first()));
            },
            None => {
                assert(before + (Seq::<PackageRecordView>::empty() + records_of_lines(
                    rest.drop_first(),
                )) == before + records_of_lines(rest.drop_first()));
            },
        }
        i += 1;
    }
    assert(all.skip(i as int) == Seq::<Seq<char>>::empty());
    assert(record_views(out@) + Seq::<PackageRecordView>::empty() == record_views(out@));
    out
}

/// Parses the raw output of the package tool. Output that is not UTF-8 is an
/// error; within UTF-8 output, lines that stand for no record are passed over.
pub fn parse_package_output(stdout: &[u8]) -> (r: Result<Vec<PackageRecord>, ScanError>)
    ensures
        !valid_utf8(stdout@) <==> r == Err::<Vec<PackageRecord>, ScanError>(ScanError::NotUtf8),
        valid_utf8(stdout@) <==> r is Ok,
        r matches Ok(v) ==> record_views(v@) == parse_packages(decode_utf8(stdout@)),
{
    match utf8_to_string(stdout) {
        Some(text) => Ok(parse_package_text(text.as_str())),
        None => Err(ScanError::NotUtf8),
    }
}

/// The four fields of one row of tool output.
pub struct Row {
    pub name: Seq<char>,
    pub version: Seq<char>,
    pub release: Seq<char>,
    pub arch: Seq<char>,
}

impl Row {
    /// The fields fit on a line between separators: none holds `|` or a line
    /// feed, the name is not empty, and the architecture does not end in a
    /// carriage return.
    pub open spec fn wf(self) -> bool {
        &&& free_of(self.name, '|') && free_of(self.name, '\n')
        &&& free_of(self.version, '|') && free_of(self.version, '\n')
        &&& free_of(self.release, '|') && free_of(self.release, '\n')
        &&& free_of(self.arch, '|') && free_of(self.arch, '\n')
        &&& self.name.len() > 0
        &&& !(self.arch.len() > 0 && self.arch.last() == '\r')
    }

    /// The row as the tool writes it, without the line feed.
    pub open spec fn line(self) -> Seq<char> {
        self.name + seq!['|'] + self.version + seq!['|'] + self.release + seq!['|'] + self.arch
    }

    /// The record that the row describes.
    pub open spec fn record(self) -> PackageRecordView {
        PackageRecordView {
            name: self.name,
            version: self.version + seq!['-'] + self.release,
            architecture: self.arch,
        }
    }
}

/// The tool output made of `rows`: each row's line, ended by a line feed.
pub open spec fn rows_text(rows: Seq<Row>) -> Seq<char>
    decreases rows.len(),
{
    if rows.len() == 0 {
        Seq::empty()
    } else {
        rows[0].line() + seq!['\n'] + rows_text(rows.drop_first())
    }
}

/// The line of a well-formed row stands for the row's record.
pub proof fn lemma_row_line(row: Row)
    requires
        row.wf(),
    ensures
        record_of_line(row.line()) == Some(row.record()),
        free_of(row.line(), '\n'),
        strip_cr(row.line()) == row.line(),
{
    let tail3 = row.arch;
    let tail2 = row.release + seq!['|'] + tail3;
    let tail1 = row.version + seq!['|'] + tail2;
    lemma_split_whole(tail3, '|');
    lemma_split_first(row.release, '|', tail3);
    lemma_split_first(row.version, '|', tail2);
    lemma_split_first(row.name, '|', tail1);
    assert(row.line() == row.name + seq!['|'] + tail1);
    let f = split(row.line(), '|');
    assert(f == seq![row.name, row.version, row.release, row.arch]);
}

/// Tool output in which every line has the shape `N|V|R|A` parses into one
/// record for each line, in the order of the lines, with name `N`, version
/// `V-R` and architecture `A`.
pub proof fn lemma_rows_parse(rows: Seq<Row>)
    requires
        forall|i: int| 0 <= i < rows.len() ==> (#[trigger] rows[i]).wf(),
    ensures
        parse_packages(rows_text(rows)) == Seq::new(rows.len(), |i: int| rows[i].record()),
    decreases rows.len(),
{
    let want = Seq::new(rows.len(), |i: int| rows[i].record());
    if rows.len() == 0 {
        assert(parse_packages(rows_text(rows)) == want);
    } else {
        let rest = rows.drop_first();
        assert forall|i: int| 0 <= i < rest.len() implies (#[trigger] rest[i]).wf() by {
            assert(rest[i] == rows[i + 1]);
        }
        lemma_rows_parse(rest);
        lemma_row_line(rows[0]);
        lemma_lines_first(rows[0].line(), rows_text(rest));
        let ls = lines(rows_text(rows));
        assert(ls == seq![rows[0].line()] + lines(rows_text(rest)));
        assert(ls.drop_first() == lines(rows_text(rest)));
        let got_rest = Seq::new(rest.len(), |i: int| rest[i].record());
        assert(seq![rows[0].record()] + got_rest == want);
    }
}

} // verus!
