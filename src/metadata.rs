//! Rendering of label and annotation mappings as `key=value` lines.
use vstd::prelude::*;
use crate::sorted_map::{SortedMap, keys_sorted, lemma_sorted_entries_unique};
use crate::text::{join_lines, key_less, newline_count, line_count, lemma_newline_count_concat, lemma_newline_count_single};

verus! {

/// Labels or annotations: string keys to string values, in key order.
pub type Metadata = SortedMap<String>;

/// The sentinel shown for an absent or empty value.
pub open spec fn none_text() -> Seq<char> {
    seq!['<', 'n', 'o', 'n', 'e', '>']
}

/// The line `key=value`.
pub open spec fn entry_line(key: Seq<char>, value: Seq<char>) -> Seq<char> {
    key + seq!['='] + value
}

/// One `key=value` line per entry, in entry order.
pub open spec fn entry_lines(m: Seq<(Seq<char>, Seq<char>)>) -> Seq<Seq<char>> {
    m.map_values(|e: (Seq<char>, Seq<char>)| entry_line(e.0, e.1))
}

/// The text of a metadata cell: `<none>` when empty, else the entry lines
/// joined by line breaks.
pub open spec fn metadata_text(m: Seq<(Seq<char>, Seq<char>)>) -> Seq<char> {
    if m.len() == 0 {
        none_text()
    } else {
        join_lines(entry_lines(m))
    }
}

/// `s` followed by a line break when `sep` holds, then `line`.
pub fn append_line(s: &mut String, sep: bool, line: &str)
    ensures
        final(s)@ == if sep { old(s)@ + seq!['\n'] + line@ } else { old(s)@ + line@ },
{
    if sep {
        s.append("\n");
        proof {
            reveal_strlit("\n");
        }
    }
    s.append(line);
}

/// Appends `key=value` to `s`.
fn append_entry(s: &mut String, key: &str, value: &str)
    ensures
        final(s)@ == old(s)@ + entry_line(key@, value@),
{
    s.append(key);
    s.append("=");
    proof {
        reveal_strlit("=");
    }
    s.append(value);
    assert(final(s)@ =~= old(s)@ + entry_line(key@, value@));
}

/// The `<none>` sentinel as a string.
pub fn none_string() -> (r: String)
    ensures
        r@ == none_text(),
{
    proof {
        reveal_strlit("<none>");
    }
    String::from_str("<none>")
}

proof fn lemma_join_lines_step(lines: Seq<Seq<char>>, i: int)
    requires
        0 <= i < lines.len(),
    ensures
        join_lines(lines.take(i + 1)) == if i == 0 {
            lines[0]
        } else {
            join_lines(lines.take(i)) + seq!['\n'] + lines[i]
        },
{
    assert(lines.take(i + 1).drop_last() =~= lines.take(i));
}

/// Formats a metadata mapping: `<none>` when empty, else one `key=value`
/// line per entry in key order, with no trailing line break.
pub fn format_metadata(map: &Metadata) -> (r: String)
    ensures
        r@ == metadata_text(map@),
        map.wf(),
{
    let entries = map.entries();
    if map.is_empty() {
        return none_string();
    }
    let ghost lines = entry_lines(map@);
    let mut acc = String::new();
    for i in 0..entries.len()
        invariant
            entries@.map_values(|e: (String, String)| (e.0@, e.1@)) == map@,
            lines == entry_lines(map@),
            i > 0 ==> acc@ == join_lines(lines.take(i as int)),
            i == 0 ==> acc@ == Seq::<char>::empty(),
    {
        let ghost before = acc@;
        if i > 0 {
            acc.append("\n");
            proof {
                reveal_strlit("\n");
            }
        }
        append_entry(&mut acc, entries[i].0.as_str(), entries[i].1.as_str());
        proof {
            lemma_join_lines_step(lines, i as int);
            assert(map@[i as int] == (entries@[i as int].0@, entries@[i as int].1@));
            if i == 0 {
                assert(acc@ =~= lines[0]);
            } else {
                assert(acc@ =~= before + seq!['\n'] + lines[i as int]);
            }
        }
    }
    assert(lines.take(entries.len() as int) =~= lines);
    acc
}

/// Formatting depends on the mapping alone: two maps that hold the same
/// entries, however and in whatever order they were built, hold them in the
/// same order and so format to the same text.
pub proof fn lemma_format_independent_of_construction(a: Metadata, b: Metadata)
    requires
        a.wf(),
        b.wf(),
        a.contents() == b.contents(),
    ensures
        a@ == b@,
        metadata_text(a@) == metadata_text(b@),
{
    lemma_sorted_entries_unique(a@, b@);
}

proof fn lemma_join_newlines(lines: Seq<Seq<char>>)
    requires
        lines.len() > 0,
        forall|i: int| 0 <= i < lines.len() ==> newline_count(#[trigger] lines[i]) == 0,
    ensures
        newline_count(join_lines(lines)) + 1 == lines.len(),
    decreases lines.len(),
{
    if lines.len() > 1 {
        let init = lines.drop_last();
        lemma_join_newlines(init);
        lemma_newline_count_concat(join_lines(init), seq!['\n']);
        lemma_newline_count_concat(join_lines(init) + seq!['\n'], lines.last());
        lemma_newline_count_single('\n');
    }
}

/// A non-empty mapping whose keys and values hold no line break formats to
/// exactly one line per entry: line `i` is `key=value` of the `i`-th entry,
/// and the keys of successive lines increase strictly.
pub proof fn lemma_format_one_line_per_entry(m: Metadata)
    requires
        m.wf(),
        m@.len() > 0,
        forall|i: int| 0 <= i < m@.len() ==> newline_count(#[trigger] m@[i].0) == 0 && newline_count(m@[i].1) == 0,
    ensures
        metadata_text(m@) == join_lines(entry_lines(m@)),
        line_count(metadata_text(m@)) == m@.len(),
        forall|i: int| 0 <= i < m@.len() ==> #[trigger] entry_lines(m@)[i] == entry_line(m@[i].0, m@[i].1),
        forall|i: int, j: int| 0 <= i < j < m@.len() ==> key_less(#[trigger] m@[i].0, #[trigger] m@[j].0),
{
    let lines = entry_lines(m@);
    assert forall|i: int| 0 <= i < lines.len() implies newline_count(#[trigger] lines[i]) == 0 by {
        lemma_newline_count_concat(m@[i].0, seq!['=']);
        lemma_newline_count_concat(m@[i].0 + seq!['='], m@[i].1);
        lemma_newline_count_single('=');
    }
    lemma_join_newlines(lines);
    assert(keys_sorted(m@));
}

} // verus!
