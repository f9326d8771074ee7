//! Reading the dependency tree's text into records.
//!
//! The tree is printed one entry per line: a drawing prefix, the name, the
//! version behind the letter `v` and, for some entries, the origin in round
//! brackets. The first line is the project itself.

use crate::dep::{DepKrate, DepView};
use crate::text::{
    chars_of, lemma_run_len_bound, run_len, scan_backward, scan_forward, string_of, strip_both,
    strip_front, CharClass,
};
use vstd::prelude::*;

verus! {

/// The tokens of a line: its maximal runs of characters that are no
/// whitespace, from left to right.
pub open spec fn tokens(s: Seq<char>) -> Seq<Seq<char>>
    decreases s.len(),
    via tokens_decreases
{
    let rest = strip_front(s, CharClass::Space);
    let n = run_len(rest, CharClass::Word);
    if n == 0 {
        Seq::empty()
    } else {
        seq![rest.take(n as int)] + tokens(rest.skip(n as int))
    }
}

#[via_fn]
proof fn tokens_decreases(s: Seq<char>) {
    lemma_run_len_bound(s, CharClass::Space);
    lemma_run_len_bound(strip_front(s, CharClass::Space), CharClass::Word);
}

/// The lines of a text: the pieces between its line feeds.
pub open spec fn split_lines(s: Seq<char>) -> Seq<Seq<char>>
    decreases s.len(),
    via split_lines_decreases
{
    let n = run_len(s, CharClass::LineBody);
    if n == s.len() {
        seq![s]
    } else {
        seq![s.take(n as int)] + split_lines(s.skip(n as int + 1))
    }
}

#[via_fn]
proof fn split_lines_decreases(s: Seq<char>) {
    lemma_run_len_bound(s, CharClass::LineBody);
}

/// The record that one line of the tree stands for, if it stands for one.
///
/// The second token is the name. The third, without the `v`s in front of
/// it, is the version. A fourth, without the brackets around it, is the
/// origin. A line with fewer than three tokens, or with nothing left of
/// the version, stands for no record.
pub open spec fn parse_line_spec(line: Seq<char>) -> Option<DepView> {
    let t = tokens(line);
    if t.len() < 3 {
        None
    } else {
        let version = strip_front(t[2], CharClass::VersionMark);
        if version.len() == 0 {
            None
        } else {
            Some(
                DepView {
                    name: t[1],
                    version,
                    from: if t.len() >= 4 {
                        Some(strip_both(t[3], CharClass::Bracket))
                    } else {
                        None
                    },
                },
            )
        }
    }
}

/// The records of a sequence of lines, in the order of the lines.
pub open spec fn parse_lines(lines: Seq<Seq<char>>) -> Seq<DepView>
    decreases lines.len(),
{
    if lines.len() == 0 {
        Seq::empty()
    } else {
        let rest = parse_lines(lines.skip(1));
        match parse_line_spec(lines[0]) {
            Some(record) => seq![record] + rest,
            None => rest,
        }
    }
}

/// The records that the tree's output lists: those of all its lines but the
/// first.
pub open spec fn listed(output: Seq<char>) -> Seq<DepView> {
    parse_lines(split_lines(output).skip(1))
}

/// The views of a vector of records.
pub open spec fn dep_views(deps: Seq<DepKrate>) -> Seq<DepView> {
    Seq::new(deps.len(), |i: int| deps[i]@)
}

/// Finds the first token of `chars[from..to]`: where it starts and where it
/// ends. The two are equal when there is none.
fn next_token(chars: &Vec<char>, from: usize, to: usize) -> (span: (usize, usize))
    requires
        from <= to <= chars.len(),
    ensures
        from <= span.0 <= span.1 <= to,
        span.0 == span.1 ==> tokens(chars@.subrange(from as int, to as int)).len() == 0,
        span.0 < span.1 ==> tokens(chars@.subrange(from as int, to as int)) == seq![
            chars@.subrange(span.0 as int, span.1 as int),
        ] + tokens(chars@.subrange(span.1 as int, to as int)),
{
    let start = scan_forward(chars, from, to, CharClass::Space);
    let end = scan_forward(chars, start, to, CharClass::Word);
    proof {
        let s = chars@.subrange(from as int, to as int);
        let rest = strip_front(s, CharClass::Space);
        assert(rest =~= chars@.subrange(start as int, to as int));
        let n = run_len(rest, CharClass::Word);
        assert(n == end - start);
        assert(rest.take(n as int) =~= chars@.subrange(start as int, end as int));
        assert(rest.skip(n as int) =~= chars@.subrange(end as int, to as int));
    }
    (start, end)
}

/// Reads `chars[from..to]` as one line of the tree.
fn parse_span(chars: &Vec<char>, from: usize, to: usize) -> (record: Option<DepKrate>)
    requires
        from <= to <= chars.len(),
    ensures
        record is Some <==> parse_line_spec(chars@.subrange(from as int, to as int)) is Some,
        record is Some ==> record.unwrap()@ == parse_line_spec(
            chars@.subrange(from as int, to as int),
        ).unwrap(),
        record is Some ==> record.unwrap()@.well_formed(),
{
    let ghost t = tokens(chars@.subrange(from as int, to as int));
    let (s0, e0) = next_token(chars, from, to);
    if s0 == e0 {
        return None;
    }
    let (s1, e1) = next_token(chars, e0, to);
    if s1 == e1 {
        assert(t.len() == 1);
        return None;
    }
    let (s2, e2) = next_token(chars, e1, to);
    if s2 == e2 {
        assert(t.len() == 2);
        return None;
    }
    let (s3, e3) = next_token(chars, e2, to);
    proof {
        let tail = tokens(chars@.subrange(e2 as int, to as int));
        assert(t.len() == 3 + tail.len());
        assert(t[1] == chars@.subrange(s1 as int, e1 as int));
        assert(t[2] == chars@.subrange(s2 as int, e2 as int));
        if s3 < e3 {
            assert(t[3] == chars@.subrange(s3 as int, e3 as int));
        }
    }
    let v = scan_forward(chars, s2, e2, CharClass::VersionMark);
    assert(chars@.subrange(v as int, e2 as int) =~= strip_front(
        chars@.subrange(s2 as int, e2 as int),
        CharClass::VersionMark,
    ));
    if v == e2 {
        return None;
    }
    let origin = if s3 < e3 {
        let a = scan_forward(chars, s3, e3, CharClass::Bracket);
        let b = scan_backward(chars, a, e3, CharClass::Bracket);
        proof {
            let token = chars@.subrange(s3 as int, e3 as int);
            let rest = strip_front(token, CharClass::Bracket);
            assert(rest =~= chars@.subrange(a as int, e3 as int));
            assert(chars@.subrange(a as int, b as int) =~= strip_both(token, CharClass::Bracket));
        }
        Some(string_of(chars, a, b))
    } else {
        None
    };
    DepKrate::new(string_of(chars, s1, e1), string_of(chars, v, e2), origin)
}

/// Reads one line of the tree. `None` for a line that stands for no
/// record.
pub fn parse_line(line: &str) -> (record: Option<DepKrate>)
    ensures
        record is Some <==> parse_line_spec(line@) is Some,
        record is Some ==> record.unwrap()@ == parse_line_spec(line@).unwrap(),
        record is Some ==> record.unwrap()@.well_formed(),
{
    let chars = chars_of(line);
    assert(chars@.subrange(0, chars@.len() as int) =~= line@);
    parse_span(&chars, 0, chars.len())
}

/// Unfolds [`parse_lines`] by one line.
proof fn lemma_parse_lines_step(first: Seq<char>, more: Seq<Seq<char>>)
    ensures
        parse_lines(seq![first] + more) == match parse_line_spec(first) {
            Some(record) => seq![record] + parse_lines(more),
            None => parse_lines(more),
        },
{
    let lines = seq![first] + more;
    assert(lines.skip(1) =~= more);
    assert(lines[0] == first);
}

/// Reads the output of the dependency tree, asked for direct dependencies
/// only, into records.
///
/// The first line, which names the project itself, is left out. Every
/// other line gives one record or none, and the records keep the order of
/// their lines.
pub fn get_deps(output: &str) -> (deps: Vec<DepKrate>)
    ensures
        dep_views(deps@) == listed(output@),
        forall|i: int| 0 <= i < deps.len() ==> (#[trigger] deps[i])@.well_formed(),
{
    let chars = chars_of(output);
    let len = chars.len();
    let mut deps: Vec<DepKrate> = Vec::new();
    let mut pos = scan_forward(&chars, 0, len, CharClass::LineBody);
    proof {
        assert(chars@.subrange(0, len as int) =~= chars@);
        lemma_run_len_bound(chars@, CharClass::LineBody);
        assert(parse_lines(Seq::<Seq<char>>::empty()) =~= Seq::<DepView>::empty());
        if pos < len {
            assert(split_lines(chars@).skip(1) =~= split_lines(chars@.skip(pos + 1)));
        } else {
            assert(split_lines(chars@).skip(1) =~= Seq::<Seq<char>>::empty());
        }
        assert(dep_views(deps@) =~= Seq::<DepView>::empty());
    }
    while pos < len
        invariant
            len == chars.len(),
            chars@ == output@,
            pos <= len,
            listed(output@) == dep_views(deps@) + (if pos < len {
                parse_lines(split_lines(chars@.skip(pos + 1)))
            } else {
                Seq::<DepView>::empty()
            }),
            forall|i: int| 0 <= i < deps.len() ==> (#[trigger] deps[i])@.well_formed(),
        decreases len - pos,
    {
        let begin = pos + 1;
        let end = scan_forward(&chars, begin, len, CharClass::LineBody);
        let record = parse_span(&chars, begin, end);
        proof {
            let rest = chars@.skip(begin as int);
            assert(rest =~= chars@.subrange(begin as int, len as int));
            lemma_run_len_bound(rest, CharClass::LineBody);
            let line = chars@.subrange(begin as int, end as int);
            assert(rest.take(end - begin) =~= line);
            let more = if end < len {
                split_lines(chars@.skip(end + 1))
            } else {
                Seq::<Seq<char>>::empty()
            };
            if end < len {
                assert(rest.skip(end - begin + 1) =~= chars@.skip(end + 1));
                assert(split_lines(rest) == seq![line] + more);
            } else {
                assert(rest =~= line);
                assert(split_lines(rest) =~= seq![line] + more);
            }
            lemma_parse_lines_step(line, more);
            assert(parse_lines(Seq::<Seq<char>>::empty()) =~= Seq::<DepView>::empty());
        }
        let ghost before = deps@;
        if let Some(dep) = record {
            deps.push(dep);
            assert(dep_views(deps@) =~= dep_views(before) + seq![dep@]);
        }
        pos = end;
        assert(listed(output@) =~= dep_views(deps@) + (if pos < len {
            parse_lines(split_lines(chars@.skip(pos + 1)))
        } else {
            Seq::<DepView>::empty()
        }));
    }
    deps
}

} // verus!
