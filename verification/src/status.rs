//! The four outcomes of classifying a dependency.

use vstd::prelude::*;

verus! {

/// How a dependency stands against the registry.
#[derive(Debug, Clone, Copy, PartialEq, Eq, Structural)]
pub enum KrateStatus {
    /// The registry could not be asked, or its answer could not be read.
    Unknown,
    /// The registry offers a higher version than the declared one.
    Outdated,
    /// The declared version is the registry's latest, or ahead of it.
    UpToDate,
    /// The dependency is excluded by name or by its local origin.
    Ignored,
}

/// The lower-case form of an ASCII capital; every other character is kept.
pub open spec fn lower_char(c: char) -> char {
    if 'A' <= c && c <= 'Z' {
        ((c as u32) + 32) as char
    } else {
        c
    }
}

/// `s` with each ASCII capital replaced by its lower-case form.
pub open spec fn lower_text(s: Seq<char>) -> Seq<char> {
    Seq::new(s.len(), |i: int| lower_char(s[i]))
}

impl KrateStatus {
    /// The one-character mark shown in the status column.
    pub open spec fn symbol_text(self) -> Seq<char> {
        match self {
            KrateStatus::Unknown => seq!['?'],
            KrateStatus::Outdated => seq!['\u{2717}'],
            KrateStatus::UpToDate => seq!['\u{2713}'],
            KrateStatus::Ignored => seq!['.'],
        }
    }

    /// The name of the status.
    pub open spec fn label_text(self) -> Seq<char> {
        match self {
            KrateStatus::Unknown => "Unknown"@,
            KrateStatus::Outdated => "Outdated"@,
            KrateStatus::UpToDate => "UpToDate"@,
            KrateStatus::Ignored => "Ignored"@,
        }
    }

    /// What stands in place of a latest version when none was compared: the
    /// name of the status in lower case.
    pub open spec fn placeholder_text(self) -> Seq<char> {
        lower_text(self.label_text())
    }

    /// The mark of the status: `?`, a cross, a tick or a dot.
    #[inline]
    pub fn symbol(&self) -> (mark: &'static str)
        ensures
            mark@ == self.symbol_text(),
    {
        proof {
            reveal_strlit("?");
            reveal_strlit("\u{2717}");
            reveal_strlit("\u{2713}");
            reveal_strlit(".");
        }
        let mark = match self {
            KrateStatus::Unknown => "?",
            KrateStatus::Outdated => "\u{2717}",
            KrateStatus::UpToDate => "\u{2713}",
            KrateStatus::Ignored => ".",
        };
        assert(mark@ =~= self.symbol_text());
        mark
    }

    /// The name of the status.
    pub fn label(&self) -> (name: &'static str)
        ensures
            name@ == self.label_text(),
    {
        match self {
            KrateStatus::Unknown => "Unknown",
            KrateStatus::Outdated => "Outdated",
            KrateStatus::UpToDate => "UpToDate",
            KrateStatus::Ignored => "Ignored",
        }
    }

    /// The name of the status in lower case.
    pub fn placeholder(&self) -> (name: &'static str)
        ensures
            name@ == self.placeholder_text(),
    {
        proof {
            reveal_strlit("Unknown");
            reveal_strlit("Outdated");
            reveal_strlit("UpToDate");
            reveal_strlit("Ignored");
            reveal_strlit("unknown");
            reveal_strlit("outdated");
            reveal_strlit("uptodate");
            reveal_strlit("ignored");
        }
        let name = match self {
            KrateStatus::Unknown => "unknown",
            KrateStatus::Outdated => "outdated",
            KrateStatus::UpToDate => "uptodate",
            KrateStatus::Ignored => "ignored",
        };
        assert(name@ =~= self.placeholder_text());
        name
    }
}

impl Default for KrateStatus {
    fn default() -> (status: KrateStatus)
        ensures
            status == KrateStatus::Unknown,
    {
        KrateStatus::Unknown
    }
}

} // verus!
