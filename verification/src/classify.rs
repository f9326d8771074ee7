//! Deciding the status of each dependency.
//!
//! A dependency that is excluded is ignored and the registry is not
//! consulted for it. One whose lookup failed is unknown. Every other one
//! is outdated or up to date, by how the registry's latest version stands
//! to the declared one.

use crate::dep::{option_text, DepKrate, DepView};
use crate::registry::{answer_view, looked_up, RegistryError};
use crate::status::KrateStatus;
use crate::versions::{compare, compared, semver_accepts, semver_order, Precedence};
use vstd::prelude::*;
use vstd::string::StringExecFns;

verus! {

/// The mathematical content of a [`Krate`].
pub struct KrateView {
    /// The record that was classified.
    pub dep: DepView,
    /// The registry's latest version, or the placeholder of the status.
    pub latest: Seq<char>,
    /// The outcome.
    pub status: KrateStatus,
}

/// A dependency with its latest version and its status.
#[derive(Debug)]
pub struct Krate {
    pub dep: DepKrate,
    pub latest: String,
    pub status: KrateStatus,
}

impl View for Krate {
    type V = KrateView;

    open spec fn view(&self) -> KrateView {
        KrateView { dep: self.dep@, latest: self.latest@, status: self.status }
    }
}

impl Clone for Krate {
    fn clone(&self) -> (copy: Krate)
        ensures
            copy@ == self@,
    {
        Krate { dep: self.dep.clone(), latest: self.latest.clone(), status: self.status }
    }
}

impl Krate {
    /// The dependency's name.
    #[inline]
    pub fn name(&self) -> (name: &str)
        ensures
            name@ == self@.dep.name,
    {
        self.dep.name()
    }

    /// The declared version.
    #[inline]
    pub fn version(&self) -> (version: &str)
        ensures
            version@ == self@.dep.version,
    {
        self.dep.version()
    }

    /// Whether the dependency comes from the local file system.
    #[inline]
    pub fn is_local(&self) -> (local: bool)
        ensures
            local == self@.dep.is_local(),
    {
        self.dep.is_local()
    }
}

/// The texts of a sequence of strings.
pub open spec fn texts(names: Seq<String>) -> Seq<Seq<char>> {
    Seq::new(names.len(), |i: int| names[i]@)
}

/// Whether a dependency is left out: its name is excluded, or local
/// origins are excluded and it has one.
pub open spec fn is_ignored(dep: DepView, ignored: Seq<Seq<char>>, ignore_local: bool) -> bool {
    ignored.contains(dep.name) || (ignore_local && dep.is_local())
}

/// The classification of one record, given the outcome of its lookup.
///
/// `None` where the record is not ignored, the lookup gave a version, and
/// that version or the declared one is no semantic version.
pub open spec fn classified(
    dep: DepView,
    answer: Result<Seq<char>, RegistryError>,
    ignored: Seq<Seq<char>>,
    ignore_local: bool,
) -> Option<KrateView> {
    if is_ignored(dep, ignored, ignore_local) {
        Some(
            KrateView {
                dep,
                latest: KrateStatus::Ignored.placeholder_text(),
                status: KrateStatus::Ignored,
            },
        )
    } else {
        match answer {
            Err(_) => Some(
                KrateView {
                    dep,
                    latest: KrateStatus::Unknown.placeholder_text(),
                    status: KrateStatus::Unknown,
                },
            ),
            Ok(latest) => match compared(latest, dep.version) {
                Some(status) => Some(KrateView { dep, latest, status }),
                None => None,
            },
        }
    }
}

/// Whether `name` is one of `names`.
pub fn contains_name(names: &[String], name: &str) -> (found: bool)
    ensures
        found == texts(names@).contains(name@),
{
    let wanted = String::from_str(name);
    let mut i: usize = 0;
    while i < names.len()
        invariant
            i <= names.len(),
            wanted@ == name@,
            forall|j: int| 0 <= j < i ==> (#[trigger] names@[j])@ != name@,
        decreases names.len() - i,
    {
        if names[i] == wanted {
            assert(texts(names@)[i as int] == name@);
            return true;
        }
        i += 1;
    }
    assert forall|j: int| 0 <= j < texts(names@).len() implies texts(names@)[j] != name@ by {
        assert(texts(names@)[j] == names@[j]@);
    }
    false
}

impl DepKrate {
    /// Whether the dependency is left out of lookup and upgrade.
    pub fn is_ignored(&self, ignored: &[String], ignore_local: bool) -> (out: bool)
        ensures
            out == is_ignored(self@, texts(ignored@), ignore_local),
    {
        contains_name(ignored, self.name()) || (ignore_local && self.is_local())
    }
}

/// Classifies one record, given the outcome of its lookup. The outcome is
/// not looked at for a record that is ignored.
///
/// `None` when a version that has to be compared is no semantic version.
pub fn classify(
    dep: &DepKrate,
    answer: Result<String, RegistryError>,
    ignored: &[String],
    ignore_local: bool,
) -> (krate: Option<Krate>)
    ensures
        krate is Some <==> classified(
            dep@,
            answer_view(answer),
            texts(ignored@),
            ignore_local,
        ) is Some,
        krate is Some ==> krate.unwrap()@ == classified(
            dep@,
            answer_view(answer),
            texts(ignored@),
            ignore_local,
        ).unwrap(),
{
    if dep.is_ignored(ignored, ignore_local) {
        let s = KrateStatus::Ignored;
        Some(Krate { dep: dep.clone(), latest: String::from_str(s.placeholder()), status: s })
    } else {
        match answer {
            Ok(v) => match compare(v.as_str(), dep.version()) {
                Some(status) => Some(Krate { dep: dep.clone(), latest: v, status }),
                None => None,
            },
            Err(_) => {
                let s = KrateStatus::Unknown;
                Some(
                    Krate { dep: dep.clone(), latest: String::from_str(s.placeholder()), status: s },
                )
            },
        }
    }
}

/// The mathematical content of a [`Fetched`].
pub struct FetchedView {
    /// The record.
    pub dep: DepView,
    /// What the request for it brought.
    pub body: Option<Seq<char>>,
}

/// A record together with what the request to the registry brought for
/// it: the body of the answer, or `None` when the request failed or was
/// not made.
#[derive(Debug)]
pub struct Fetched {
    pub dep: DepKrate,
    pub body: Option<String>,
}

impl View for Fetched {
    type V = FetchedView;

    open spec fn view(&self) -> FetchedView {
        FetchedView { dep: self.dep@, body: option_text(self.body) }
    }
}

/// The classification of a record from what was fetched for it.
pub open spec fn classified_fetched(
    fetched: FetchedView,
    ignored: Seq<Seq<char>>,
    ignore_local: bool,
) -> Option<KrateView> {
    classified(fetched.dep, looked_up(fetched.body), ignored, ignore_local)
}

/// The position of a record whose versions cannot be compared: the
/// registry's latest version or the declared one is no semantic version.
#[derive(Debug, Clone, Copy, PartialEq, Eq, Structural)]
pub struct VersionError {
    pub position: usize,
}

/// Classifies one record from what was fetched for it. `None` when a
/// version that has to be compared is no semantic version.
pub fn classify_fetched(fetched: &Fetched, ignored: &[String], ignore_local: bool) -> (krate:
    Option<Krate>)
    ensures
        krate is Some <==> classified_fetched(fetched@, texts(ignored@), ignore_local) is Some,
        krate is Some ==> krate.unwrap()@ == classified_fetched(
            fetched@,
            texts(ignored@),
            ignore_local,
        ).unwrap(),
{
    let response = match &fetched.body {
        Some(body) => Some(body.as_str()),
        None => None,
    };
    let answer = fetched.dep.get_latest_version(response);
    classify(&fetched.dep, answer, ignored, ignore_local)
}

/// Classifies every record, in the order given.
///
/// Fails at the first record whose versions cannot be compared, and says
/// where it stands. A failed lookup is no failure: it makes the record
/// unknown.
pub fn get_all_krates(fetched: &Vec<Fetched>, ignored: &[String], ignore_local: bool) -> (result:
    Result<Vec<Krate>, VersionError>)
    ensures
        result is Ok <==> forall|i: int|
            0 <= i < fetched.len() ==> classified_fetched(
                #[trigger] fetched[i]@,
                texts(ignored@),
                ignore_local,
            ) is Some,
        result is Ok ==> result.unwrap().len() == fetched.len(),
        result is Ok ==> forall|i: int|
            0 <= i < fetched.len() ==> (#[trigger] result.unwrap()[i])@ == classified_fetched(
                fetched[i]@,
                texts(ignored@),
                ignore_local,
            ).unwrap(),
        result is Err ==> result.unwrap_err().position < fetched.len(),
        result is Err ==> classified_fetched(
            fetched[result.unwrap_err().position as int]@,
            texts(ignored@),
            ignore_local,
        ) is None,
        result is Err ==> forall|i: int|
            0 <= i < result.unwrap_err().position ==> classified_fetched(
                #[trigger] fetched[i]@,
                texts(ignored@),
                ignore_local,
            ) is Some,
{
    let mut result: Vec<Krate> = Vec::new();
    let mut i: usize = 0;
    while i < fetched.len()
        invariant
            i <= fetched.len(),
            result.len() == i,
            forall|j: int|
                0 <= j < i ==> classified_fetched(
                    #[trigger] fetched[j]@,
                    texts(ignored@),
                    ignore_local,
                ) is Some,
            forall|j: int|
                0 <= j < i ==> (#[trigger] result[j])@ == classified_fetched(
                    fetched[j]@,
                    texts(ignored@),
                    ignore_local,
                ).unwrap(),
        decreases fetched.len() - i,
    {
        match classify_fetched(&fetched[i], ignored, ignore_local) {
            Some(krate) => {
                result.push(krate);
            },
            None => {
                return Err(VersionError { position: i });
            },
        }
        i += 1;
    }
    Ok(result)
}

/// Classification is total on well-formed versions, and its four outcomes
/// exclude one another: a record whose declared version is a semantic
/// version, and whose latest version is one wherever the two are compared,
/// gets exactly the status that its exclusion, its lookup and the order of
/// the two versions call for.
pub proof fn lemma_classification_total(
    dep: DepView,
    answer: Result<Seq<char>, RegistryError>,
    ignored: Seq<Seq<char>>,
    ignore_local: bool,
)
    requires
        semver_accepts(dep.version),
        answer is Ok && !is_ignored(dep, ignored, ignore_local) ==> semver_accepts(answer.unwrap()),
    ensures
        classified(dep, answer, ignored, ignore_local) is Some,
        ({
            let krate = classified(dep, answer, ignored, ignore_local).unwrap();
            let out = is_ignored(dep, ignored, ignore_local);
            &&& krate.dep == dep
            &&& krate.status == KrateStatus::Ignored <==> out
            &&& krate.status == KrateStatus::Unknown <==> !out && answer is Err
            &&& krate.status == KrateStatus::Outdated <==> !out && answer is Ok && semver_order(
                answer.unwrap(),
                dep.version,
            ) == Precedence::Greater
            &&& krate.status == KrateStatus::UpToDate <==> !out && answer is Ok && semver_order(
                answer.unwrap(),
                dep.version,
            ) != Precedence::Greater
        }),
{
}

/// Classifying again what was found up to date, with the same exclusions
/// and the same answer of the registry, finds it up to date again: the
/// outcome is the same in every part.
pub proof fn lemma_reclassify_up_to_date(
    dep: DepView,
    answer: Result<Seq<char>, RegistryError>,
    ignored: Seq<Seq<char>>,
    ignore_local: bool,
)
    requires
        classified(dep, answer, ignored, ignore_local) is Some,
        classified(dep, answer, ignored, ignore_local).unwrap().status == KrateStatus::UpToDate,
    ensures
        classified(
            classified(dep, answer, ignored, ignore_local).unwrap().dep,
            answer,
            ignored,
            ignore_local,
        ) == classified(dep, answer, ignored, ignore_local),
{
}

/// The same for a whole listing: where every record was found up to date,
/// classifying the records of the outcome against the same answers finds
/// every one up to date.
pub proof fn lemma_reclassify_all_up_to_date(
    fetched: Seq<FetchedView>,
    ignored: Seq<Seq<char>>,
    ignore_local: bool,
)
    requires
        forall|i: int|
            0 <= i < fetched.len() ==> {
                &&& classified_fetched(#[trigger] fetched[i], ignored, ignore_local) is Some
                &&& classified_fetched(fetched[i], ignored, ignore_local).unwrap().status
                    == KrateStatus::UpToDate
            },
    ensures
        forall|i: int|
            0 <= i < fetched.len() ==> {
                let first = classified_fetched(#[trigger] fetched[i], ignored, ignore_local).unwrap();
                let again = classified_fetched(
                    FetchedView { dep: first.dep, body: fetched[i].body },
                    ignored,
                    ignore_local,
                );
                again == Some(first) && again.unwrap().status == KrateStatus::UpToDate
            },
{
}

/// Exclusion by name comes first: an excluded record is ignored whatever
/// the registry answered, whatever its versions are, and whether or not
/// local origins are excluded.
pub proof fn lemma_excluded_name_is_ignored(
    dep: DepView,
    answer: Result<Seq<char>, RegistryError>,
    ignored: Seq<Seq<char>>,
    ignore_local: bool,
)
    requires
        ignored.contains(dep.name),
    ensures
        classified(dep, answer, ignored, ignore_local) == Some(
            KrateView {
                dep,
                latest: KrateStatus::Ignored.placeholder_text(),
                status: KrateStatus::Ignored,
            },
        ),
{
}

/// A record of local origin is ignored while local origins are excluded.
/// While they are not, and its name is not excluded, its origin plays no
/// part: a failed lookup makes it unknown, and otherwise its status is the
/// one that comparing the two versions gives.
pub proof fn lemma_local_origin(
    dep: DepView,
    answer: Result<Seq<char>, RegistryError>,
    ignored: Seq<Seq<char>>,
)
    requires
        dep.is_local(),
    ensures
        classified(dep, answer, ignored, true) is Some,
        classified(dep, answer, ignored, true).unwrap().status == KrateStatus::Ignored,
        !ignored.contains(dep.name) && answer is Err ==> classified(dep, answer, ignored, false)
            is Some && classified(dep, answer, ignored, false).unwrap().status
            == KrateStatus::Unknown,
        !ignored.contains(dep.name) && answer is Ok ==> (classified(dep, answer, ignored, false)
            is Some <==> compared(answer.unwrap(), dep.version) is Some),
        !ignored.contains(dep.name) && answer is Ok && compared(answer.unwrap(), dep.version)
            is Some ==> classified(dep, answer, ignored, false).unwrap() == (KrateView {
            dep,
            latest: answer.unwrap(),
            status: compared(answer.unwrap(), dep.version).unwrap(),
        }),
{
}

} // verus!
