//! Character-level helpers shared by the parsers and the renderer.

use vstd::prelude::*;
use vstd::std_specs::iter::IteratorSpec;

verus! {

/// `String::push` of the standard library appends one character to the end
/// of the string and leaves the characters before it as they were.
pub assume_specification[ String::push ](s: &mut String, c: char)
    ensures
        final(s)@ == old(s)@.push(c),
;

/// The characters of `s`, in order.
pub fn chars_of(s: &str) -> (out: Vec<char>)
    ensures
        out@ == s@,
{
    let mut out: Vec<char> = Vec::new();
    let mut it = s.chars();
    for c in iter: it
        invariant
            iter.seq() == s@,
            out@ == iter.seq().take(iter.index()),
    {
        out.push(c);
    }
    out
}

/// The string made of `chars[from..to]`.
pub fn string_of(chars: &Vec<char>, from: usize, to: usize) -> (out: String)
    requires
        from <= to <= chars.len(),
    ensures
        out@ == chars@.subrange(from as int, to as int),
{
    let mut out = String::new();
    let mut i: usize = from;
    while i < to
        invariant
            from <= i <= to <= chars.len(),
            out@ == chars@.subrange(from as int, i as int),
        decreases to - i,
    {
        out.push(chars[i]);
        i += 1;
        assert(chars@.subrange(from as int, i as int) == chars@.subrange(from as int, i - 1).push(
            chars@[i - 1],
        ));
    }
    out
}

/// Whether `c` separates tokens: the code points with the Unicode property
/// `White_Space`.
pub open spec fn is_space(c: char) -> bool {
    ||| c == ' '
    ||| ('\u{9}' <= c && c <= '\u{d}')
    ||| c == '\u{85}'
    ||| c == '\u{a0}'
    ||| c == '\u{1680}'
    ||| ('\u{2000}' <= c && c <= '\u{200a}')
    ||| c == '\u{2028}'
    ||| c == '\u{2029}'
    ||| c == '\u{202f}'
    ||| c == '\u{205f}'
    ||| c == '\u{3000}'
}

/// A set of characters that a scan runs over.
#[derive(Clone, Copy, Debug, PartialEq, Eq, Structural)]
pub enum CharClass {
    /// Token separators.
    Space,
    /// Everything that is no separator.
    Word,
    /// The letter that precedes a version number.
    VersionMark,
    /// The round brackets that enclose an origin.
    Bracket,
    /// Everything but the line feed.
    LineBody,
}

impl CharClass {
    /// Whether `c` belongs to the class.
    pub open spec fn has(self, c: char) -> bool {
        match self {
            CharClass::Space => is_space(c),
            CharClass::Word => !is_space(c),
            CharClass::VersionMark => c == 'v',
            CharClass::Bracket => c == '(' || c == ')',
            CharClass::LineBody => c != '\n',
        }
    }

    /// Executable form of [`CharClass::has`].
    pub fn contains(self, c: char) -> (b: bool)
        ensures
            b == self.has(c),
    {
        match self {
            CharClass::Space => space_char(c),
            CharClass::Word => !space_char(c),
            CharClass::VersionMark => c == 'v',
            CharClass::Bracket => c == '(' || c == ')',
            CharClass::LineBody => c != '\n',
        }
    }
}

/// Executable form of [`is_space`].
pub fn space_char(c: char) -> (b: bool)
    ensures
        b == is_space(c),
{
    c == ' ' || ('\u{9}' <= c && c <= '\u{d}') || c == '\u{85}' || c == '\u{a0}' || c
        == '\u{1680}' || ('\u{2000}' <= c && c <= '\u{200a}') || c == '\u{2028}' || c
        == '\u{2029}' || c == '\u{202f}' || c == '\u{205f}' || c == '\u{3000}'
}

/// Length of the longest prefix of `s` whose characters all belong to `class`.
pub open spec fn run_len(s: Seq<char>, class: CharClass) -> nat
    decreases s.len(),
{
    if s.len() > 0 && class.has(s[0]) {
        1 + run_len(s.skip(1), class)
    } else {
        0
    }
}

/// Length of the longest suffix of `s` whose characters all belong to `class`.
pub open spec fn back_run_len(s: Seq<char>, class: CharClass) -> nat
    decreases s.len(),
{
    if s.len() > 0 && class.has(s.last()) {
        1 + back_run_len(s.drop_last(), class)
    } else {
        0
    }
}

/// `s` without its leading characters of `class`.
pub open spec fn strip_front(s: Seq<char>, class: CharClass) -> Seq<char> {
    s.skip(run_len(s, class) as int)
}

/// `s` without its leading and its trailing characters of `class`.
pub open spec fn strip_both(s: Seq<char>, class: CharClass) -> Seq<char> {
    let rest = strip_front(s, class);
    rest.take(rest.len() - back_run_len(rest, class))
}

/// A run is pinned down by its length: `n` characters of the class, then the
/// end of the sequence or a character outside the class.
pub proof fn lemma_run_len(s: Seq<char>, class: CharClass, n: nat)
    requires
        n <= s.len(),
        forall|j: int| 0 <= j < n ==> class.has(#[trigger] s[j]),
        n == s.len() || !class.has(s[n as int]),
    ensures
        run_len(s, class) == n,
    decreases n,
{
    if n > 0 {
        let rest = s.skip(1);
        assert forall|j: int| 0 <= j < n - 1 implies class.has(#[trigger] rest[j]) by {
            assert(rest[j] == s[j + 1]);
        }
        lemma_run_len(rest, class, (n - 1) as nat);
    }
}

/// The mirror image of [`lemma_run_len`] for suffixes.
pub proof fn lemma_back_run_len(s: Seq<char>, class: CharClass, n: nat)
    requires
        n <= s.len(),
        forall|j: int| s.len() - n <= j < s.len() ==> class.has(#[trigger] s[j]),
        n == s.len() || !class.has(s[s.len() - n - 1]),
    ensures
        back_run_len(s, class) == n,
    decreases n,
{
    if n > 0 {
        let rest = s.drop_last();
        assert forall|j: int| rest.len() - (n - 1) <= j < rest.len() implies class.has(
            #[trigger] rest[j],
        ) by {
            assert(rest[j] == s[j]);
        }
        lemma_back_run_len(rest, class, (n - 1) as nat);
    }
}

/// A run is never longer than the sequence, and every character in it
/// belongs to the class.
pub proof fn lemma_run_len_bound(s: Seq<char>, class: CharClass)
    ensures
        run_len(s, class) <= s.len(),
        forall|j: int| 0 <= j < run_len(s, class) ==> class.has(#[trigger] s[j]),
        run_len(s, class) < s.len() ==> !class.has(s[run_len(s, class) as int]),
    decreases s.len(),
{
    if s.len() > 0 && class.has(s[0]) {
        let rest = s.skip(1);
        lemma_run_len_bound(rest, class);
        assert forall|j: int| 0 <= j < run_len(s, class) implies class.has(#[trigger] s[j]) by {
            if j > 0 {
                assert(s[j] == rest[j - 1]);
            }
        }
        if run_len(s, class) < s.len() {
            assert(s[run_len(s, class) as int] == rest[run_len(rest, class) as int]);
        }
    }
}

/// Scans `chars[from..to]` from the front and returns where the run of
/// `class` that starts at `from` ends.
pub fn scan_forward(chars: &Vec<char>, from: usize, to: usize, class: CharClass) -> (end: usize)
    requires
        from <= to <= chars.len(),
    ensures
        from <= end <= to,
        end - from == run_len(chars@.subrange(from as int, to as int), class),
{
    let mut end: usize = from;
    while end < to && class.contains(chars[end])
        invariant
            from <= end <= to <= chars.len(),
            forall|j: int| from <= j < end ==> class.has(#[trigger] chars@[j]),
        decreases to - end,
    {
        end += 1;
    }
    proof {
        let part = chars@.subrange(from as int, to as int);
        assert forall|j: int| 0 <= j < end - from implies class.has(#[trigger] part[j]) by {
            assert(part[j] == chars@[from + j]);
        }
        lemma_run_len(part, class, (end - from) as nat);
    }
    end
}

/// Scans `chars[from..to]` from the back and returns where the run of
/// `class` that ends at `to` starts.
pub fn scan_backward(chars: &Vec<char>, from: usize, to: usize, class: CharClass) -> (start: usize)
    requires
        from <= to <= chars.len(),
    ensures
        from <= start <= to,
        to - start == back_run_len(chars@.subrange(from as int, to as int), class),
{
    let mut start: usize = to;
    while start > from && class.contains(chars[start - 1])
        invariant
            from <= start <= to <= chars.len(),
            forall|j: int| start <= j < to ==> class.has(#[trigger] chars@[j]),
        decreases start - from,
    {
        start -= 1;
    }
    proof {
        let part = chars@.subrange(from as int, to as int);
        assert forall|j: int| part.len() - (to - start) <= j < part.len() implies class.has(
            #[trigger] part[j],
        ) by {
            assert(part[j] == chars@[from + j]);
        }
        lemma_back_run_len(part, class, (to - start) as nat);
    }
    start
}

/// Whether the `limit + 1` characters of `body` from `start` on are all the
/// digit zero.
pub open spec fn zero_window(body: Seq<char>, start: int, limit: nat) -> bool {
    &&& 0 <= start
    &&& start + limit < body.len()
    &&& forall|i: int| start <= i <= start + limit ==> body[i] == '0'
}

/// Whether `body` holds more than `limit` zero digits in a row.
pub open spec fn has_zero_run(body: Seq<char>, limit: nat) -> bool {
    exists|start: int| zero_window(body, start, limit)
}

/// Whether `body` holds more than `limit` zero digits in a row.
pub fn zero_run_longer_than(body: &str, limit: usize) -> (found: bool)
    ensures
        found == has_zero_run(body@, limit as nat),
{
    let mut run: usize = 0;
    let mut it = body.chars();
    for c in iter: it
        invariant
            iter.seq() == body@,
            run <= limit,
            run <= iter.index(),
            forall|i: int| iter.index() - run <= i < iter.index() ==> body@[i] == '0',
            iter.index() - run > 0 ==> body@[iter.index() - run - 1] != '0',
            !has_zero_run(body@.take(iter.index()), limit as nat),
    {
        let ghost at = iter.index();
        if c == '0' {
            if run == limit {
                proof {
                    assert(zero_window(body@, at - limit, limit as nat));
                }
                return true;
            }
            run += 1;
        } else {
            run = 0;
        }
        proof {
            let before = body@.take(at);
            let upto = body@.take(at + 1);
            if has_zero_run(upto, limit as nat) {
                let start = choose|start: int| zero_window(upto, start, limit as nat);
                if start + limit < at {
                    assert forall|i: int| start <= i <= start + limit implies before[i] == '0' by {
                        assert(before[i] == upto[i]);
                    }
                    assert(zero_window(before, start, limit as nat));
                } else {
                    assert(upto[at] == '0');
                    assert(upto[at - run] == '0');
                }
            }
        }
    }
    assert(body@.take(body@.len() as int) =~= body@);
    false
}

} // verus!
