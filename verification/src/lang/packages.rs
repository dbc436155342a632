//! Reading the package lists that the package managers print.

use crate::text::{
    begins_with, blank, chars_of, find_from, find_text, is_blank, keep_some, lemma_keep_some_step,
    lines_of, occurs_at, run_end, scan_run, split_lines, text_between, texts, CharClass,
};
use vstd::prelude::*;

verus! {

/// The package that a line of a frozen requirements list names: nothing
/// for a blank line or a comment, else what stands before the first `==`
/// (the whole line where there is none).
pub open spec fn frozen_name(line: Seq<char>) -> Option<Seq<char>> {
    if is_blank(line) || occurs_at(line, seq!['#'], 0) {
        None
    } else {
        Some(line.take(find_from(line, seq!['=', '='], 0)))
    }
}

/// The packages of a frozen requirements list, one line each.
pub open spec fn frozen_names(stdout: Seq<char>) -> Seq<Seq<char>> {
    keep_some(lines_of(stdout).map_values(|line: Seq<char>| frozen_name(line)))
}

/// The package that a line of a dependency tree names: nothing for a blank
/// line, else the first word up to its first `@`.
pub open spec fn tree_name(line: Seq<char>) -> Option<Seq<char>> {
    if is_blank(line) {
        None
    } else {
        let from = run_end(line, CharClass::Space, 0);
        let to = run_end(line, CharClass::Word, from);
        let word = line.subrange(from, to);
        Some(word.take(run_end(word, CharClass::Until('@'), 0)))
    }
}

/// The lines of a dependency tree that name dependencies: all but the
/// first, which names the project itself.
pub open spec fn tree_lines(stdout: Seq<char>) -> Seq<Seq<char>> {
    let lines = lines_of(stdout);
    if lines.len() > 0 {
        lines.drop_first()
    } else {
        lines
    }
}

/// The direct dependencies in a dependency tree printed one level deep and
/// without prefixes.
pub open spec fn tree_names(stdout: Seq<char>) -> Seq<Seq<char>> {
    keep_some(tree_lines(stdout).map_values(|line: Seq<char>| tree_name(line)))
}

/// Reads one line of a frozen requirements list.
pub fn parse_frozen_line(line: &str) -> (name: Option<String>)
    ensures
        match name {
            Some(n) => frozen_name(line@) == Some(n@),
            None => frozen_name(line@) is None,
        },
{
    let cs = chars_of(line);
    let hash: Vec<char> = vec!['#'];
    let pin: Vec<char> = vec!['=', '='];
    assert(hash@ =~= seq!['#']);
    assert(pin@ =~= seq!['=', '=']);
    if blank(&cs) || begins_with(&cs, &hash) {
        return None;
    }
    let at = find_text(&cs, &pin, 0);
    let name = text_between(line, 0, at);
    assert(line@.subrange(0, at as int) =~= line@.take(at as int));
    Some(name)
}

/// Reads one line of a dependency tree.
pub fn parse_tree_line(line: &str) -> (name: Option<String>)
    ensures
        match name {
            Some(n) => tree_name(line@) == Some(n@),
            None => tree_name(line@) is None,
        },
{
    let cs = chars_of(line);
    if blank(&cs) {
        return None;
    }
    let from = scan_run(&cs, CharClass::Space, 0);
    let to = scan_run(&cs, CharClass::Word, from);
    let mut end: usize = from;
    let ghost word = line@.subrange(from as int, to as int);
    while end < to && cs[end] != '@'
        invariant
            cs@ == line@,
            from <= end <= to <= cs.len(),
            word == line@.subrange(from as int, to as int),
            run_end(word, CharClass::Until('@'), 0) == run_end(
                word,
                CharClass::Until('@'),
                end - from,
            ),
        decreases to - end,
    {
        assert(word[end - from] == cs@[end as int]);
        end = end + 1;
    }
    proof {
        if end < to {
            assert(word[end - from] == cs@[end as int]);
        }
        assert(run_end(word, CharClass::Until('@'), 0) == end - from);
        assert(word.take(end - from) =~= line@.subrange(from as int, end as int));
    }
    Some(text_between(line, from, end))
}

/// Reads a frozen requirements list.
pub fn parse_frozen_list(stdout: &str) -> (names: Vec<String>)
    ensures
        texts(names@) == frozen_names(stdout@),
{
    let lines = split_lines(stdout);
    let mut names: Vec<String> = Vec::new();
    let ghost parsed = lines_of(stdout@).map_values(|line: Seq<char>| frozen_name(line));
    let mut i: usize = 0;
    assert(parsed.take(0) =~= Seq::empty());
    assert(texts(names@) =~= keep_some(parsed.take(0)));
    while i < lines.len()
        invariant
            i <= lines.len(),
            texts(lines@) == lines_of(stdout@),
            parsed == lines_of(stdout@).map_values(|line: Seq<char>| frozen_name(line)),
            texts(names@) == keep_some(parsed.take(i as int)),
        decreases lines.len() - i,
    {
        proof {
            assert(texts(lines@)[i as int] == lines@[i as int]@);
            lemma_keep_some_step(parsed, i as int);
        }
        let ghost before = names@;
        match parse_frozen_line(lines[i].as_str()) {
            Some(name) => {
                names.push(name);
                assert(texts(names@) =~= texts(before).push(name@));
            },
            None => {},
        }
        i = i + 1;
    }
    assert(parsed.take(i as int) =~= parsed);
    names
}

/// Reads a dependency tree printed one level deep and without prefixes.
pub fn parse_tree_list(stdout: &str) -> (names: Vec<String>)
    ensures
        texts(names@) == tree_names(stdout@),
{
    let lines = split_lines(stdout);
    let mut names: Vec<String> = Vec::new();
    let ghost parsed = tree_lines(stdout@).map_values(|line: Seq<char>| tree_name(line));
    if lines.len() == 0 {
        assert(texts(lines@).len() == 0);
        assert(parsed =~= Seq::empty());
        assert(texts(names@) =~= keep_some(parsed));
        return names;
    }
    let mut i: usize = 1;
    assert(texts(lines@).len() == lines.len());
    assert(parsed.take(0) =~= Seq::empty());
    assert(texts(names@) =~= keep_some(parsed.take(0)));
    while i < lines.len()
        invariant
            1 <= i <= lines.len(),
            texts(lines@) == lines_of(stdout@),
            parsed == tree_lines(stdout@).map_values(|line: Seq<char>| tree_name(line)),
            parsed.len() == lines.len() - 1,
            texts(names@) == keep_some(parsed.take(i - 1)),
        decreases lines.len() - i,
    {
        proof {
            assert(texts(lines@)[i as int] == lines@[i as int]@);
            assert(tree_lines(stdout@)[i - 1] == lines_of(stdout@)[i as int]);
            lemma_keep_some_step(parsed, i - 1);
        }
        let ghost before = names@;
        match parse_tree_line(lines[i].as_str()) {
            Some(name) => {
                names.push(name);
                assert(texts(names@) =~= texts(before).push(name@));
            },
            None => {},
        }
        i = i + 1;
    }
    assert(parsed.take(i - 1) =~= parsed);
    names
}

} // verus!
