//! Planning the upgrade of outdated dependencies.
//!
//! The plan lists, in listing order, one step for each dependency that is
//! outdated and not left out. Running the steps is the caller's part.

use crate::classify::{contains_name, texts, Krate, KrateView};
use crate::status::KrateStatus;
use vstd::prelude::*;
use vstd::string::StringExecFns;

verus! {

/// Why a dependency is not upgraded.
#[derive(Debug, Clone, Copy, PartialEq, Eq, Structural)]
pub enum UpgradeError {
    /// The dependency is up to date already.
    AlreadyUpToDate,
}

/// The mathematical content of an [`UpgradeStep`].
pub struct StepView {
    /// The dependency to pin.
    pub name: Seq<char>,
    /// The version it is declared with.
    pub from: Seq<char>,
    /// The version to pin it to.
    pub to: Seq<char>,
}

/// One upgrade: a dependency, its declared version and the version to pin
/// it to.
#[derive(Debug)]
pub struct UpgradeStep {
    pub name: String,
    pub from: String,
    pub to: String,
}

impl View for UpgradeStep {
    type V = StepView;

    open spec fn view(&self) -> StepView {
        StepView { name: self.name@, from: self.from@, to: self.to@ }
    }
}

impl StepView {
    /// The package and the exact version, as the package manager takes
    /// them: the name, an `@` and the version.
    pub open spec fn pin(self) -> Seq<char> {
        self.name + "@"@ + self.to
    }

    /// The line that announces the step.
    pub open spec fn announcement(self) -> Seq<char> {
        "Upgrading "@ + self.name + " from "@ + self.from + " to "@ + self.to + " ..."@
    }

    /// The words of the package manager's command that pins the version.
    pub open spec fn command(self) -> Seq<Seq<char>> {
        seq!["cargo"@, "add"@, self.pin()]
    }
}

impl UpgradeStep {
    /// The package and the exact version, as the package manager takes
    /// them.
    pub fn pin(&self) -> (pin: String)
        ensures
            pin@ == self@.pin(),
    {
        let mut pin = self.name.clone();
        pin.append("@");
        pin.append(self.to.as_str());
        pin
    }

    /// The line that announces the step.
    pub fn announcement(&self) -> (line: String)
        ensures
            line@ == self@.announcement(),
    {
        let mut line = String::from_str("Upgrading ");
        line.append(self.name.as_str());
        line.append(" from ");
        line.append(self.from.as_str());
        line.append(" to ");
        line.append(self.to.as_str());
        line.append(" ...");
        line
    }

    /// The words of the command that carries the step out: the package
    /// manager, its `add` and the pin.
    pub fn command(&self) -> (words: Vec<String>)
        ensures
            texts(words@) == self@.command(),
    {
        let mut words: Vec<String> = Vec::new();
        words.push(String::from_str("cargo"));
        words.push(String::from_str("add"));
        words.push(self.pin());
        assert(texts(words@) =~= self@.command());
        words
    }
}

/// The step that upgrades a classified dependency to its latest version.
pub open spec fn step_of(krate: KrateView) -> StepView {
    StepView { name: krate.dep.name, from: krate.dep.version, to: krate.latest }
}

/// Whether a classified dependency is to be upgraded: it is outdated, its
/// name is not excluded, and it is not a local one while those are left
/// out.
pub open spec fn wants_upgrade(krate: KrateView, ignored: Seq<Seq<char>>, ignore_local: bool) -> bool {
    &&& !ignored.contains(krate.dep.name)
    &&& krate.status == KrateStatus::Outdated
    &&& !(ignore_local && krate.dep.is_local())
}

/// The steps for a listing: one for each dependency that is to be
/// upgraded, in listing order.
pub open spec fn plan(krates: Seq<KrateView>, ignored: Seq<Seq<char>>, ignore_local: bool) -> Seq<
    StepView,
>
    decreases krates.len(),
{
    if krates.len() == 0 {
        Seq::empty()
    } else {
        let before = plan(krates.drop_last(), ignored, ignore_local);
        if wants_upgrade(krates.last(), ignored, ignore_local) {
            before.push(step_of(krates.last()))
        } else {
            before
        }
    }
}

/// The views of a sequence of classified dependencies.
pub open spec fn krate_views(krates: Seq<Krate>) -> Seq<KrateView> {
    Seq::new(krates.len(), |i: int| krates[i]@)
}

/// The views of a sequence of steps.
pub open spec fn step_views(steps: Seq<UpgradeStep>) -> Seq<StepView> {
    Seq::new(steps.len(), |i: int| steps[i]@)
}

impl Krate {
    /// The step that pins this dependency to its latest version. A
    /// dependency that is up to date has none.
    pub fn upgrade(&self) -> (step: Result<UpgradeStep, UpgradeError>)
        ensures
            step is Err <==> self.status == KrateStatus::UpToDate,
            step is Err ==> step.unwrap_err() == UpgradeError::AlreadyUpToDate,
            step is Ok ==> step.unwrap()@ == step_of(self@),
    {
        if self.status == KrateStatus::UpToDate {
            return Err(UpgradeError::AlreadyUpToDate);
        }
        Ok(
            UpgradeStep {
                name: String::from_str(self.name()),
                from: String::from_str(self.version()),
                to: self.latest.clone(),
            },
        )
    }
}

/// Plans the upgrade of a listing.
///
/// Dependencies that are excluded by name, not outdated, or local while
/// local ones are left out, are passed over. Each other one gets a step,
/// in listing order. Since only outdated dependencies get one, planning
/// never fails.
pub fn upgrade_krates(krates: &[Krate], ignored: &[String], ignore_local: bool) -> (steps: Result<
    Vec<UpgradeStep>,
    UpgradeError,
>)
    ensures
        steps is Ok,
        step_views(steps.unwrap()@) == plan(krate_views(krates@), texts(ignored@), ignore_local),
{
    let mut steps: Vec<UpgradeStep> = Vec::new();
    let mut i: usize = 0;
    assert(krate_views(krates@).take(0) =~= Seq::<KrateView>::empty());
    assert(step_views(steps@) =~= Seq::<StepView>::empty());
    while i < krates.len()
        invariant
            i <= krates.len(),
            step_views(steps@) == plan(
                krate_views(krates@).take(i as int),
                texts(ignored@),
                ignore_local,
            ),
        decreases krates.len() - i,
    {
        let k = &krates[i];
        proof {
            let upto = krate_views(krates@).take(i + 1);
            assert(upto.drop_last() =~= krate_views(krates@).take(i as int));
            assert(upto.last() == k@);
        }
        let ghost before = steps@;
        if !contains_name(ignored, k.name()) && k.status == KrateStatus::Outdated && !(ignore_local
            && k.is_local()) {
            match k.upgrade() {
                Ok(step) => {
                    steps.push(step);
                    assert(step_views(steps@) =~= step_views(before).push(step_of(k@)));
                },
                Err(e) => {
                    return Err(e);
                },
            }
        }
        i += 1;
    }
    assert(krate_views(krates@).take(krates@.len() as int) =~= krate_views(krates@));
    Ok(steps)
}

} // verus!
