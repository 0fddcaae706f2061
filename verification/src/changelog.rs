//! The structured changelog and its rendering against the running version.

use vstd::prelude::*;
use vstd::string::StringExecFns;

use crate::text::spec_lines;
use crate::text::split_lines;
use crate::version::version_chars;
use crate::version::version_lt;
use crate::version::Version;

verus! {

/// One changelog entry: the version it belongs to and its multi-line change
/// text.
pub struct ChangelogEntry {
    pub version: Version,
    pub changes: String,
}

/// The mathematical value of a changelog entry.
pub struct EntryModel {
    pub version: Version,
    pub changes: Seq<char>,
}

impl View for ChangelogEntry {
    type V = EntryModel;

    open spec fn view(&self) -> EntryModel {
        EntryModel { version: self.version, changes: self.changes@ }
    }
}

/// A changelog: entries in document order, not necessarily sorted.
pub struct Log {
    pub entries: Vec<ChangelogEntry>,
}

impl View for Log {
    type V = Seq<EntryModel>;

    open spec fn view(&self) -> Seq<EntryModel> {
        self.entries@.map_values(|e: ChangelogEntry| e@)
    }
}

/// Being strictly newer than `current`, as a closure.
pub open spec fn newer_fn(current: Version) -> spec_fn(EntryModel) -> bool {
    |e: EntryModel| version_lt(current, e.version)
}

/// The entries of `entries` whose version strictly exceeds `current`, in
/// their original order.
pub open spec fn newer_entries(entries: Seq<EntryModel>, current: Version) -> Seq<EntryModel> {
    entries.filter(newer_fn(current))
}

/// The reported set is exact: every entry the report keeps is strictly
/// newer than the running version, every strictly newer entry is kept, and
/// nothing is added.  Order is preserved by construction, since
/// [`newer_entries`] filters the input sequence in place.
pub proof fn lemma_newer_entries_exact(entries: Seq<EntryModel>, current: Version)
    ensures
        forall|i: int|
            0 <= i < newer_entries(entries, current).len() ==> version_lt(
                current,
                #[trigger] newer_entries(entries, current)[i].version,
            ),
        forall|i: int|
            0 <= i < entries.len() && version_lt(current, (#[trigger] entries[i]).version)
                ==> newer_entries(entries, current).contains(entries[i]),
        newer_entries(entries, current).len() <= entries.len(),
{
    let pred = newer_fn(current);
    entries.lemma_filter_len(pred);
    assert forall|i: int| 0 <= i < newer_entries(entries, current).len() implies version_lt(
        current,
        newer_entries(entries, current)[i].version,
    ) by {
        entries.lemma_filter_pred(pred, i);
    }
    assert forall|i: int|
        0 <= i < entries.len() && version_lt(current, entries[i].version) implies newer_entries(
        entries,
        current,
    ).contains(entries[i]) by {
        entries.lemma_filter_contains(pred, i);
    }
}

/// Four spaces: the indentation of a change line in the report.
pub open spec fn indent() -> Seq<char> {
    seq![' ', ' ', ' ', ' ']
}

/// Prefixing a line with the indentation, as a closure.
pub open spec fn indent_line_fn() -> spec_fn(Seq<char>) -> Seq<char> {
    |l: Seq<char>| indent() + l
}

/// The lines printed for one qualifying entry: a blank line, the version
/// header, then each line of the change text indented by four spaces.
pub open spec fn entry_lines(e: EntryModel) -> Seq<Seq<char>> {
    seq![Seq::<char>::empty(), version_chars(e.version) + seq![':']] + spec_lines(
        e.changes,
    ).map_values(indent_line_fn())
}

/// [`entry_lines`] as a closure, the shape `flat_map` takes.
pub open spec fn entry_lines_fn() -> spec_fn(EntryModel) -> Seq<Seq<char>> {
    |e: EntryModel| entry_lines(e)
}

/// The header of the report, naming the running version.
pub open spec fn header_chars(current: Version) -> Seq<char> {
    "Changelog when upgrading from "@ + version_chars(current) + seq![':']
}

/// The full report: the header, then the lines of every entry newer than
/// `current`, in document order.
pub open spec fn report_lines(entries: Seq<EntryModel>, current: Version) -> Seq<Seq<char>> {
    seq![header_chars(current)] + newer_entries(entries, current).flat_map(entry_lines_fn())
}

/// The report block of a single entry.
#[verifier::loop_isolation(false)]
fn entry_block(e: &ChangelogEntry) -> (r: Vec<String>)
    ensures
        r.deep_view() == entry_lines(e@),
{
    let mut r: Vec<String> = Vec::new();
    r.push(String::new());
    let mut header = e.version.render();
    header.append(":");
    proof {
        reveal_strlit(":");
        assert(header@ =~= version_chars(e.version) + seq![':']);
    }
    r.push(header);
    let body = split_lines(e.changes.as_str());
    let ghost body_lines = spec_lines(e.changes@);
    let mut j: usize = 0;
    while j < body.len()
        invariant
            j <= body.len(),
            body.deep_view() == body_lines,
            r.deep_view() =~= entry_lines(e@).take(2 + j),
        decreases body.len() - j,
    {
        let mut line = String::from_str("    ");
        line.append(body[j].as_str());
        proof {
            reveal_strlit("    ");
            assert("    "@ =~= indent());
            assert(body.deep_view().len() == body@.len());
            assert(j < body_lines.len());
            assert(body.deep_view()[j as int] == body@[j as int]@);
            assert(body@[j as int]@ == body_lines[j as int]);
            assert(line@ == indent() + body_lines[j as int]);
            let ghost el = entry_lines(e@);
            let ghost mapped = spec_lines(e@.changes).map_values(indent_line_fn());
            assert(e@.changes == e.changes@);
            assert(mapped[j as int] == indent_line_fn()(body_lines[j as int]));
            assert(mapped[j as int] == indent() + body_lines[j as int]);
            assert(el[2 + j] == mapped[j as int]);
        }
        r.push(line);
        proof {
            assert(r.deep_view() =~= entry_lines(e@).take(2 + j + 1));
        }
        j = j + 1;
    }
    proof {
        assert(entry_lines(e@).take(2 + body.len()) =~= entry_lines(e@));
    }
    r
}

/// Render the report for `log` against the running version `current`: the
/// header line, then, for each entry strictly newer than `current` and in
/// document order, a blank line, the entry's version header, and its change
/// text indented line by line.  Entries at or below `current` contribute
/// nothing.
#[verifier::loop_isolation(false)]
pub fn changelog_report(log: &Log, current: &Version) -> (r: Vec<String>)
    ensures
        r.deep_view() == report_lines(log@, *current),
{
    let ghost pred = newer_fn(*current);
    let mut r: Vec<String> = Vec::new();
    let mut header = String::from_str("Changelog when upgrading from ");
    let v = current.render();
    header.append(v.as_str());
    header.append(":");
    proof {
        reveal_strlit(":");
        assert(header@ =~= header_chars(*current));
        assert(newer_entries(log@.take(0), *current) =~= Seq::<EntryModel>::empty());
        reveal(Seq::filter);
    }
    r.push(header);
    let n = log.entries.len();
    let mut i: usize = 0;
    while i < n
        invariant
            i <= n == log.entries.len(),
            pred == newer_fn(*current),
            r.deep_view() =~= seq![header_chars(*current)] + newer_entries(
                log@.take(i as int),
                *current,
            ).flat_map(entry_lines_fn()),
        decreases n - i,
    {
        let e = &log.entries[i];
        let ghost prefix = log@.take(i as int);
        proof {
            assert(log@.take(i + 1) =~= prefix.push(e@));
            assert(prefix.push(e@).drop_last() =~= prefix);
            reveal(Seq::filter);
            assert(newer_entries(log@.take(i + 1), *current) == if pred(e@) {
                newer_entries(prefix, *current).push(e@)
            } else {
                newer_entries(prefix, *current)
            });
        }
        if current.lt(&e.version) {
            let mut block = entry_block(e);
            let ghost old_r = r.deep_view();
            let ghost old_block = block.deep_view();
            r.append(&mut block);
            proof {
                assert(r.deep_view() =~= old_r + old_block);
                newer_entries(prefix, *current).lemma_flat_map_push(entry_lines_fn(), e@);
            }
        }
        i = i + 1;
    }
    proof {
        assert(log@.take(n as int) =~= log@);
    }
    r
}

} // verus!
