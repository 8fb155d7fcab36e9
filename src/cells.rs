//! The CONTAINERS and ENV VARS cells of a pod row, kept line for line in step.
use vstd::prelude::*;
use crate::filter::{EnvVarsFilter, filter_selects};
use crate::metadata::{format_metadata, metadata_text, none_string, none_text, append_line};
use crate::resources::ContainerEnvVars;
use crate::text::{join_lines, newline_count, line_count, count_newlines, lemma_newline_count_concat,
    lemma_newline_count_single};

verus! {

/// `n` line breaks.
pub open spec fn newlines(n: nat) -> Seq<char> {
    Seq::new(n, |i: int| '\n')
}

/// A container's environment as one cell entry.
pub open spec fn env_part(env: Seq<(Seq<char>, Seq<char>)>) -> Seq<char> {
    metadata_text(env)
}

/// A container's name, followed by one blank line for each line that its
/// environment entry takes beyond the first.
pub open spec fn container_part(name: Seq<char>, env: Seq<(Seq<char>, Seq<char>)>) -> Seq<char> {
    name + newlines(newline_count(env_part(env)))
}

/// The containers whose name the filter selects, in their order.
pub open spec fn selected_containers(
    cs: Seq<(Seq<char>, Seq<(Seq<char>, Seq<char>)>)>,
    pattern: Seq<char>,
    invert: bool,
) -> Seq<(Seq<char>, Seq<(Seq<char>, Seq<char>)>)>
    decreases cs.len(),
{
    if cs.len() == 0 {
        Seq::empty()
    } else {
        let init = selected_containers(cs.drop_last(), pattern, invert);
        if filter_selects(pattern, invert, cs.last().0) {
            init.push(cs.last())
        } else {
            init
        }
    }
}

pub open spec fn container_parts(sel: Seq<(Seq<char>, Seq<(Seq<char>, Seq<char>)>)>) -> Seq<Seq<char>> {
    sel.map_values(|c: (Seq<char>, Seq<(Seq<char>, Seq<char>)>)| container_part(c.0, c.1))
}

pub open spec fn env_parts(sel: Seq<(Seq<char>, Seq<(Seq<char>, Seq<char>)>)>) -> Seq<Seq<char>> {
    sel.map_values(|c: (Seq<char>, Seq<(Seq<char>, Seq<char>)>)| env_part(c.1))
}

/// The CONTAINERS and ENV VARS cells: one entry per selected container,
/// joined by line breaks; both `<none>` when no container is selected.
pub open spec fn container_cells(
    cs: Seq<(Seq<char>, Seq<(Seq<char>, Seq<char>)>)>,
    pattern: Seq<char>,
    invert: bool,
) -> (Seq<char>, Seq<char>) {
    let sel = selected_containers(cs, pattern, invert);
    if sel.len() == 0 {
        (none_text(), none_text())
    } else {
        (join_lines(container_parts(sel)), join_lines(env_parts(sel)))
    }
}

proof fn lemma_join_push(s: Seq<Seq<char>>, x: Seq<char>)
    ensures
        join_lines(s.push(x)) == if s.len() == 0 { x } else { join_lines(s) + seq!['\n'] + x },
{
    assert(s.push(x).drop_last() =~= s);
}

/// `name` followed by `n` line breaks.
fn pad_name(name: &str, n: usize) -> (r: String)
    ensures
        r@ == name@ + newlines(n as nat),
{
    let mut r = String::from_str(name);
    for i in 0..n
        invariant
            r@ == name@ + newlines(i as nat),
    {
        r.append("\n");
        proof {
            reveal_strlit("\n");
            assert(r@ =~= name@ + newlines((i + 1) as nat));
        }
    }
    r
}

/// Builds the CONTAINERS and ENV VARS cells of a pod for the containers that
/// `filter` selects by name. Each selected container gives its name in the
/// first and its `name=value` lines (or `<none>`) in the second; the name is
/// padded with blank lines so that the two cells stay line for line in step.
pub fn format_container_and_env_vars(container_env_vars: &ContainerEnvVars, filter: &EnvVarsFilter) -> (r: (String, String))
    ensures
        (r.0@, r.1@) == container_cells(container_env_vars@, filter.pattern_view(), filter.inverted()),
{
    let ghost cs = container_env_vars@;
    let ghost pattern = filter.pattern_view();
    let ghost invert = filter.inverted();
    let entries = container_env_vars.entries();
    let mut containers = String::new();
    let mut env_vars = String::new();
    let mut any = false;
    for i in 0..entries.len()
        invariant
            entries@.map_values(|e: (String, crate::metadata::Metadata)| (e.0@, e.1@)) == cs,
            pattern == filter.pattern_view(),
            invert == filter.inverted(),
            any == (selected_containers(cs.take(i as int), pattern, invert).len() > 0),
            any ==> containers@ == join_lines(container_parts(selected_containers(cs.take(i as int), pattern, invert))),
            any ==> env_vars@ == join_lines(env_parts(selected_containers(cs.take(i as int), pattern, invert))),
            !any ==> containers@ == Seq::<char>::empty() && env_vars@ == Seq::<char>::empty(),
    {
        let ghost prev = selected_containers(cs.take(i as int), pattern, invert);
        proof {
            assert(cs.take(i + 1).drop_last() =~= cs.take(i as int));
            assert(cs[i as int] == (entries@[i as int].0@, entries@[i as int].1@));
        }
        let name = entries[i].0.as_str();
        if filter.matches(name) {
            let text = format_metadata(&entries[i].1);
            let pad = count_newlines(text.as_str());
            let part = pad_name(name, pad);
            append_line(&mut containers, any, part.as_str());
            append_line(&mut env_vars, any, text.as_str());
            proof {
                let c = cs[i as int];
                let sel = prev.push(c);
                assert(selected_containers(cs.take(i + 1), pattern, invert) == sel);
                assert(container_parts(sel) =~= container_parts(prev).push(container_part(c.0, c.1)));
                assert(env_parts(sel) =~= env_parts(prev).push(env_part(c.1)));
                lemma_join_push(container_parts(prev), container_part(c.0, c.1));
                lemma_join_push(env_parts(prev), env_part(c.1));
                if !any {
                    assert(containers@ =~= container_part(c.0, c.1));
                    assert(env_vars@ =~= env_part(c.1));
                }
            }
            any = true;
        }
    }
    assert(cs.take(entries.len() as int) =~= cs);
    if !any {
        return (none_string(), none_string());
    }
    (containers, env_vars)
}

proof fn lemma_newlines_count(n: nat)
    ensures
        newline_count(newlines(n)) == n,
    decreases n,
{
    if n > 0 {
        lemma_newlines_count((n - 1) as nat);
        assert(newlines(n).drop_last() =~= newlines((n - 1) as nat));
    }
}

proof fn lemma_join_same_counts(a: Seq<Seq<char>>, b: Seq<Seq<char>>)
    requires
        a.len() == b.len(),
        forall|i: int| 0 <= i < a.len() ==> newline_count(#[trigger] a[i]) == newline_count(b[i]),
    ensures
        newline_count(join_lines(a)) == newline_count(join_lines(b)),
    decreases a.len(),
{
    if a.len() > 1 {
        lemma_join_same_counts(a.drop_last(), b.drop_last());
        lemma_newline_count_concat(join_lines(a.drop_last()), seq!['\n']);
        lemma_newline_count_concat(join_lines(a.drop_last()) + seq!['\n'], a.last());
        lemma_newline_count_concat(join_lines(b.drop_last()), seq!['\n']);
        lemma_newline_count_concat(join_lines(b.drop_last()) + seq!['\n'], b.last());
    }
}

/// The two cells of a pod row always take the same number of lines, for
/// every filter, provided no container name itself holds a line break.
pub proof fn lemma_container_cells_aligned(
    cs: Seq<(Seq<char>, Seq<(Seq<char>, Seq<char>)>)>,
    pattern: Seq<char>,
    invert: bool,
)
    requires
        forall|i: int| 0 <= i < cs.len() ==> newline_count(#[trigger] cs[i].0) == 0,
    ensures
        line_count(container_cells(cs, pattern, invert).0) == line_count(container_cells(cs, pattern, invert).1),
{
    let sel = selected_containers(cs, pattern, invert);
    lemma_selected_from(cs, pattern, invert);
    let a = container_parts(sel);
    let b = env_parts(sel);
    assert forall|i: int| 0 <= i < a.len() implies newline_count(#[trigger] a[i]) == newline_count(b[i]) by {
        let c = sel[i];
        lemma_newline_count_concat(c.0, newlines(newline_count(env_part(c.1))));
        lemma_newlines_count(newline_count(env_part(c.1)));
    }
    lemma_join_same_counts(a, b);
}

/// Every selected container is one of the containers.
proof fn lemma_selected_from(
    cs: Seq<(Seq<char>, Seq<(Seq<char>, Seq<char>)>)>,
    pattern: Seq<char>,
    invert: bool,
)
    ensures
        forall|i: int| 0 <= i < selected_containers(cs, pattern, invert).len() ==>
            exists|j: int| 0 <= j < cs.len() && #[trigger] selected_containers(cs, pattern, invert)[i] == cs[j],
    decreases cs.len(),
{
    if cs.len() > 0 {
        lemma_selected_from(cs.drop_last(), pattern, invert);
        let sel = selected_containers(cs, pattern, invert);
        let init = selected_containers(cs.drop_last(), pattern, invert);
        assert forall|i: int| 0 <= i < sel.len() implies exists|j: int| 0 <= j < cs.len() && #[trigger] sel[i] == cs[j] by {
            if i < init.len() {
                let j = choose|j: int| 0 <= j < cs.drop_last().len() && init[i] == cs.drop_last()[j];
                assert(sel[i] == cs[j]);
            } else {
                assert(sel[i] == cs[cs.len() - 1]);
            }
        }
    }
}

} // verus!
