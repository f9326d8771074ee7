//! Comparing two version strings by semantic-version precedence.

use crate::status::KrateStatus;
use semver::Version;
use std::cmp::Ordering;
use vstd::prelude::*;

verus! {

/// How one version stands to another.
#[derive(Debug, Clone, Copy, PartialEq, Eq, Structural)]
pub enum Precedence {
    /// The first is the lower one.
    Less,
    /// Neither is lower.
    Equal,
    /// The first is the higher one.
    Greater,
}

/// The error of the `semver` crate's parser.
#[verifier::external_type_specification]
#[verifier::external_body]
pub struct ExSemverError(semver::Error);

/// Whether `semver::Version::parse` accepts `text` as a semantic version.
pub uninterp spec fn semver_accepts(text: Seq<char>) -> bool;

/// How the version that `semver::Version::parse` reads from `left` stands
/// to the one it reads from `right`, in the total order of
/// `semver::Version`.
pub uninterp spec fn semver_order(left: Seq<char>, right: Seq<char>) -> Precedence;

/// Parses both texts with `semver::Version::parse` and compares the two
/// versions with the `Ord::cmp` of `semver::Version`.
///
/// Trusted: the call succeeds exactly when the parser accepts both texts,
/// it then returns the order of the two versions, and both the acceptance
/// and the order depend on the two texts alone. When the parser rejects
/// one of them, its error for the first rejected text comes back.
#[verifier::external_body]
fn compare_versions(left: &str, right: &str) -> (outcome: Result<Precedence, semver::Error>)
    ensures
        outcome is Ok <==> (semver_accepts(left@) && semver_accepts(right@)),
        outcome is Ok ==> outcome.unwrap() == semver_order(left@, right@),
{
    let l = Version::parse(left)?;
    let r = Version::parse(right)?;
    Ok(
        match l.cmp(&r) {
            Ordering::Less => Precedence::Less,
            Ordering::Equal => Precedence::Equal,
            Ordering::Greater => Precedence::Greater,
        },
    )
}

/// The status that follows from how the latest version stands to the
/// declared one.
pub open spec fn status_of(order: Precedence) -> KrateStatus {
    match order {
        Precedence::Greater => KrateStatus::Outdated,
        Precedence::Equal => KrateStatus::UpToDate,
        Precedence::Less => KrateStatus::UpToDate,
    }
}

/// The status of a dependency whose latest version stands to its declared
/// one as `order` says: outdated when the latest is higher, up to date
/// when it is equal or lower.
pub fn status_for(order: Precedence) -> (status: KrateStatus)
    ensures
        status == status_of(order),
        status == KrateStatus::Outdated <==> order == Precedence::Greater,
        status == KrateStatus::UpToDate <==> order != Precedence::Greater,
{
    match order {
        Precedence::Equal => KrateStatus::UpToDate,
        Precedence::Less => KrateStatus::UpToDate,
        Precedence::Greater => KrateStatus::Outdated,
    }
}

/// The status that comparing `latest` with `declared` gives, when both are
/// semantic versions.
pub open spec fn compared(latest: Seq<char>, declared: Seq<char>) -> Option<KrateStatus> {
    if semver_accepts(latest) && semver_accepts(declared) {
        Some(status_of(semver_order(latest, declared)))
    } else {
        None
    }
}

/// Compares the latest version with the declared one. `None` when one of
/// the two is no semantic version.
pub fn compare(latest: &str, declared: &str) -> (status: Option<KrateStatus>)
    ensures
        status == compared(latest@, declared@),
{
    match compare_versions(latest, declared) {
        Ok(order) => Some(status_for(order)),
        Err(_) => None,
    }
}

} // verus!
