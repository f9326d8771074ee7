//! The table of classified dependencies, as lines of text.
//!
//! Columns are padded with spaces to a fixed width and parted by one
//! space. A text that is wider than its column is kept whole.

use crate::classify::{texts, Krate, KrateView};
use crate::status::KrateStatus;
use crate::upgrade::krate_views;
use vstd::prelude::*;
use vstd::string::{StrSliceExecFns, StringExecFns};

verus! {

/// `count` spaces.
pub open spec fn spaces(count: nat) -> Seq<char> {
    Seq::new(count, |i: int| ' ')
}

/// `text` filled up with spaces on the right to `width` characters.
pub open spec fn padded(text: Seq<char>, width: nat) -> Seq<char> {
    if text.len() < width {
        text + spaces((width - text.len()) as nat)
    } else {
        text
    }
}

/// A row of the three columns name, declared version and latest version.
pub open spec fn short_row(name: Seq<char>, version: Seq<char>, latest: Seq<char>) -> Seq<char> {
    padded(name, 18) + " "@ + padded(version, 14) + " "@ + padded(latest, 14)
}

/// A row of the four columns name, declared version, latest version and
/// status.
pub open spec fn full_row(
    name: Seq<char>,
    version: Seq<char>,
    latest: Seq<char>,
    status: Seq<char>,
) -> Seq<char> {
    short_row(name, version, latest) + " "@ + padded(status, 8)
}

/// The heading of the table.
pub open spec fn heading(outdated_only: bool) -> Seq<char> {
    if outdated_only {
        short_row("Name"@, "Dep"@, "Latest"@)
    } else {
        full_row("Name"@, "Dep"@, "Latest"@, "Status"@)
    }
}

/// The rows of a listing. With `outdated_only`, only the outdated
/// dependencies have a row, of three columns; without it every
/// dependency has one, of four columns, the last with the status mark.
pub open spec fn rows(krates: Seq<KrateView>, outdated_only: bool) -> Seq<Seq<char>>
    decreases krates.len(),
{
    if krates.len() == 0 {
        Seq::empty()
    } else {
        let before = rows(krates.drop_last(), outdated_only);
        let k = krates.last();
        if !outdated_only {
            before.push(full_row(k.dep.name, k.dep.version, k.latest, k.status.symbol_text()))
        } else if k.status == KrateStatus::Outdated {
            before.push(short_row(k.dep.name, k.dep.version, k.latest))
        } else {
            before
        }
    }
}

/// The whole table: the heading, then the rows.
pub open spec fn table(krates: Seq<KrateView>, outdated_only: bool) -> Seq<Seq<char>> {
    seq![heading(outdated_only)] + rows(krates, outdated_only)
}

/// Appends `text` to `line`, filled up to `width` characters.
fn push_padded(line: &mut String, text: &str, width: usize)
    ensures
        final(line)@ == old(line)@ + padded(text@, width as nat),
{
    line.append(text);
    let mut n = text.unicode_len();
    assert(text@ + spaces(0) =~= text@);
    while n < width
        invariant
            text@.len() <= n,
            n == text@.len() || n <= width,
            line@ == old(line)@ + (text@ + spaces((n - text@.len()) as nat)),
        decreases width - n,
    {
        line.push(' ');
        assert((text@ + spaces((n - text@.len()) as nat)).push(' ') =~= text@ + spaces(
            (n + 1 - text@.len()) as nat,
        ));
        n += 1;
    }
}

/// One row of the table: the first three columns and, where `mark` is
/// given, the status column.
fn row(name: &str, version: &str, latest: &str, mark: Option<&str>) -> (line: String)
    ensures
        line@ == match mark {
            Some(m) => full_row(name@, version@, latest@, m@),
            None => short_row(name@, version@, latest@),
        },
{
    let mut line = String::new();
    push_padded(&mut line, name, 18);
    line.append(" ");
    push_padded(&mut line, version, 14);
    line.append(" ");
    push_padded(&mut line, latest, 14);
    assert(line@ =~= short_row(name@, version@, latest@));
    if let Some(m) = mark {
        line.append(" ");
        push_padded(&mut line, m, 8);
    }
    line
}

/// Renders the listing as the lines of a table, the heading first.
///
/// With `outdated_only` the table has the three columns name, declared
/// version and latest version, and a row for each outdated dependency.
/// Without it there is a fourth column with the status mark, and a row
/// for every dependency.
pub fn print_krates(krates: &[Krate], outdated_only: bool) -> (lines: Vec<String>)
    ensures
        texts(lines@) == table(krate_views(krates@), outdated_only),
{
    let mut lines: Vec<String> = Vec::new();
    if outdated_only {
        lines.push(row("Name", "Dep", "Latest", None));
    } else {
        lines.push(row("Name", "Dep", "Latest", Some("Status")));
    }
    assert(krate_views(krates@).take(0) =~= Seq::<KrateView>::empty());
    assert(texts(lines@) =~= seq![heading(outdated_only)] + rows(
        krate_views(krates@).take(0),
        outdated_only,
    ));
    let mut i: usize = 0;
    while i < krates.len()
        invariant
            i <= krates.len(),
            texts(lines@) == seq![heading(outdated_only)] + rows(
                krate_views(krates@).take(i as int),
                outdated_only,
            ),
        decreases krates.len() - i,
    {
        let k = &krates[i];
        proof {
            let upto = krate_views(krates@).take(i + 1);
            assert(upto.drop_last() =~= krate_views(krates@).take(i as int));
            assert(upto.last() == k@);
        }
        let ghost before = lines@;
        if outdated_only {
            if k.status == KrateStatus::Outdated {
                let line = row(k.name(), k.version(), k.latest.as_str(), None);
                lines.push(line);
                assert(texts(lines@) =~= texts(before).push(line@));
            }
        } else {
            let line = row(k.name(), k.version(), k.latest.as_str(), Some(k.status.symbol()));
            lines.push(line);
            assert(texts(lines@) =~= texts(before).push(line@));
        }
        assert(texts(lines@) =~= seq![heading(outdated_only)] + rows(
            krate_views(krates@).take(i + 1),
            outdated_only,
        ));
        i += 1;
    }
    assert(krate_views(krates@).take(krates@.len() as int) =~= krate_views(krates@));
    lines
}

} // verus!
