//! The installation run of configure-holochain, as a state machine.
//!
//! The run goes through the configured happs in order (core happs, then
//! self-hosted happs). A happ that is already enabled only gets its UI
//! installed. Any other happ gets its membrane proofs, is installed and
//! enabled, then gets its UI. An installation refused with
//! `AppAlreadyInstalled` is answered by enabling the app; one refused with
//! `CellAlreadyExists` for a core happ (core-app, holofuel, servicelogger) is
//! answered by installing again on top of the cells that an earlier version
//! left; once that succeeds, the happ gets its UI and the run goes on. After
//! the last happ, every enabled app that is neither configured nor hosted is
//! uninstalled.
//!
//! The caller performs each action and reports its outcome to `advance`.
use vstd::prelude::*;
use crate::app_policy::{app_is_kept, app_kept, listed_in};
use crate::cells::{existing_cells, existing_cells_spec, role_cell_views, AppInfo, RoleCellId, RoleCellIdView};
use crate::text::{contains_seq, str_contains, str_eq};

verus! {

broadcast use vstd::string::group_string_axioms;

/// Where the run stands: which action it waits for.
#[derive(Clone, Copy, Debug, PartialEq, Eq, Structural)]
pub enum InstallStage {
    AwaitMemProofs(usize),
    AwaitInstall(usize),
    AwaitActivate(usize),
    AwaitInstalledApps(usize),
    AwaitReinstall(usize),
    AwaitUi(usize),
    AwaitUninstall(usize),
    Finished,
}

/// The next thing to do. Happs are named by their position in the happ list,
/// enabled apps by their position in the list of enabled apps.
pub enum InstallAction {
    /// Download (if needed) and unpack the happ's UI.
    InstallUi { happ: usize },
    /// Build the membrane proofs for the happ.
    PrepareMemProofs { happ: usize },
    /// Install and enable the happ with the membrane proofs built for it,
    /// reusing the given cells (role name and cell id).
    InstallAndActivate { happ: usize, existing_cells: Vec<RoleCellId> },
    /// Enable the happ, which is already installed.
    Activate { happ: usize },
    /// List all installed apps.
    ListInstalledApps,
    /// Uninstall the enabled app.
    Uninstall { app: usize },
    /// The run succeeded.
    Done,
    /// The run failed with this error.
    Failed(String),
}

#[verifier::ext_equal]
pub enum InstallActionView {
    InstallUi { happ: int },
    PrepareMemProofs { happ: int },
    InstallAndActivate { happ: int, existing_cells: Seq<RoleCellIdView> },
    Activate { happ: int },
    ListInstalledApps,
    Uninstall { app: int },
    Done,
    Failed(Seq<char>),
}

impl View for InstallAction {
    type V = InstallActionView;

    open spec fn view(&self) -> InstallActionView {
        match self {
            InstallAction::InstallUi { happ } => InstallActionView::InstallUi { happ: *happ as int },
            InstallAction::PrepareMemProofs { happ } => InstallActionView::PrepareMemProofs { happ: *happ as int },
            InstallAction::InstallAndActivate { happ, existing_cells } => InstallActionView::InstallAndActivate {
                happ: *happ as int,
                existing_cells: role_cell_views(existing_cells@),
            },
            InstallAction::Activate { happ } => InstallActionView::Activate { happ: *happ as int },
            InstallAction::ListInstalledApps => InstallActionView::ListInstalledApps,
            InstallAction::Uninstall { app } => InstallActionView::Uninstall { app: *app as int },
            InstallAction::Done => InstallActionView::Done,
            InstallAction::Failed(m) => InstallActionView::Failed(m@),
        }
    }
}

/// How the last action went.
pub enum ActionOutcome {
    Succeeded,
    Failed(String),
    /// The answer to `ListInstalledApps`.
    AppsListed(Vec<AppInfo>),
}

/// The state of an installation run.
pub struct InstallPlan {
    happ_ids: Vec<String>,
    active_apps: Vec<String>,
    stage: InstallStage,
}

/// The happ belongs to the core apps whose installed app id carries a version:
/// core-app, holofuel or servicelogger.
pub open spec fn is_versioned_core_happ(id: Seq<char>) -> bool {
    contains_seq(id, "core-app"@) || contains_seq(id, "holofuel"@) || contains_seq(id, "servicelogger"@)
}

/// The part of the installed app id by which the earlier version of a core happ is found.
pub open spec fn core_family(id: Seq<char>) -> Seq<char> {
    if contains_seq(id, "core-app"@) {
        "core-app"@
    } else if contains_seq(id, "holofuel"@) {
        "holofuel"@
    } else {
        "servicelogger"@
    }
}

/// The first position at or after `j` of an enabled app that is not kept
/// (`active.len()` when there is none).
pub open spec fn first_unkept(active: Seq<String>, happ_ids: Seq<String>, j: int) -> int
    decreases active.len() - j,
{
    if j < 0 || j >= active.len() {
        active.len() as int
    } else if !app_is_kept(active[j]@, happ_ids) {
        j
    } else {
        first_unkept(active, happ_ids, j + 1)
    }
}

/// Clean-up from the enabled app at position `j` on.
pub open spec fn cleanup_from(happ_ids: Seq<String>, active: Seq<String>, j: int) -> (InstallStage, InstallActionView) {
    let k = first_unkept(active, happ_ids, j);
    if k < active.len() {
        (InstallStage::AwaitUninstall(k as usize), InstallActionView::Uninstall { app: k })
    } else {
        (InstallStage::Finished, InstallActionView::Done)
    }
}

/// The run from the happ at position `i` on.
pub open spec fn happ_from(happ_ids: Seq<String>, active: Seq<String>, i: int) -> (InstallStage, InstallActionView) {
    if 0 <= i < happ_ids.len() {
        if listed_in(happ_ids[i]@, active) {
            (InstallStage::AwaitUi(i as usize), InstallActionView::InstallUi { happ: i })
        } else {
            (InstallStage::AwaitMemProofs(i as usize), InstallActionView::PrepareMemProofs { happ: i })
        }
    } else {
        cleanup_from(happ_ids, active, 0)
    }
}

/// The outcome is one that the stage can receive: a listing answers
/// `ListInstalledApps` and nothing else.
pub open spec fn outcome_fits(stage: InstallStage, outcome: ActionOutcome) -> bool {
    &&& stage != InstallStage::Finished
    &&& match stage {
        InstallStage::AwaitInstalledApps(_) => !(outcome is Succeeded),
        _ => !(outcome is AppsListed),
    }
}

/// The stage and action that follow an outcome.
pub open spec fn next_step(
    happ_ids: Seq<String>,
    active: Seq<String>,
    stage: InstallStage,
    outcome: ActionOutcome,
) -> (InstallStage, InstallActionView) {
    match outcome {
        ActionOutcome::Failed(m) => match stage {
            InstallStage::AwaitInstall(i) => if contains_seq(m@, "AppAlreadyInstalled"@) {
                (InstallStage::AwaitActivate(i), InstallActionView::Activate { happ: i as int })
            } else if contains_seq(m@, "CellAlreadyExists"@) && is_versioned_core_happ(happ_ids[i as int]@) {
                (InstallStage::AwaitInstalledApps(i), InstallActionView::ListInstalledApps)
            } else {
                (InstallStage::Finished, InstallActionView::Failed(m@))
            },
            _ => (InstallStage::Finished, InstallActionView::Failed(m@)),
        },
        _ => match stage {
            InstallStage::AwaitMemProofs(i) => (
                InstallStage::AwaitInstall(i),
                InstallActionView::InstallAndActivate { happ: i as int, existing_cells: Seq::empty() },
            ),
            InstallStage::AwaitInstall(i) => (InstallStage::AwaitUi(i), InstallActionView::InstallUi { happ: i as int }),
            InstallStage::AwaitActivate(i) => (InstallStage::AwaitUi(i), InstallActionView::InstallUi { happ: i as int }),
            InstallStage::AwaitInstalledApps(i) => match outcome {
                ActionOutcome::AppsListed(apps) => (
                    InstallStage::AwaitReinstall(i),
                    InstallActionView::InstallAndActivate {
                        happ: i as int,
                        existing_cells: existing_cells_spec(apps@, core_family(happ_ids[i as int]@)),
                    },
                ),
                _ => (InstallStage::Finished, InstallActionView::Done),
            },
            InstallStage::AwaitReinstall(i) => (InstallStage::AwaitUi(i), InstallActionView::InstallUi { happ: i as int }),
            InstallStage::AwaitUi(i) => happ_from(happ_ids, active, i + 1),
            InstallStage::AwaitUninstall(k) => cleanup_from(happ_ids, active, k + 1),
            InstallStage::Finished => (InstallStage::Finished, InstallActionView::Done),
        },
    }
}

/// The positions that a stage holds are in range, and the stages that install
/// a happ only ever hold a happ that was not enabled.
pub open spec fn stage_wf(happ_ids: Seq<String>, active: Seq<String>, stage: InstallStage) -> bool {
    &&& happ_ids.len() <= usize::MAX
    &&& active.len() <= usize::MAX
    &&& match stage {
        InstallStage::AwaitMemProofs(i) | InstallStage::AwaitInstall(i) | InstallStage::AwaitActivate(i)
        | InstallStage::AwaitInstalledApps(i) | InstallStage::AwaitReinstall(i) =>
            i < happ_ids.len() && !listed_in(happ_ids[i as int]@, active),
        InstallStage::AwaitUi(i) => i < happ_ids.len(),
        InstallStage::AwaitUninstall(k) => k < active.len() && !app_is_kept(active[k as int]@, happ_ids),
        InstallStage::Finished => true,
    }
}

proof fn lemma_first_unkept(active: Seq<String>, happ_ids: Seq<String>, j: int)
    requires
        0 <= j,
    ensures
        j <= first_unkept(active, happ_ids, j) <= active.len() || (j > active.len() && first_unkept(active, happ_ids, j) == active.len()),
        first_unkept(active, happ_ids, j) < active.len() ==> !app_is_kept(active[first_unkept(active, happ_ids, j)]@, happ_ids),
        forall|q: int| j <= q < first_unkept(active, happ_ids, j) ==> app_is_kept(#[trigger] active[q]@, happ_ids),
    decreases active.len() - j,
{
    if j < active.len() && app_is_kept(active[j]@, happ_ids) {
        lemma_first_unkept(active, happ_ids, j + 1);
    }
}

impl InstallPlan {
    pub closed spec fn happ_ids(&self) -> Seq<String> {
        self.happ_ids@
    }

    pub closed spec fn active_apps(&self) -> Seq<String> {
        self.active_apps@
    }

    pub closed spec fn stage(&self) -> InstallStage {
        self.stage
    }

    /// The plan is internally consistent.
    pub closed spec fn wf(&self) -> bool {
        stage_wf(self.happ_ids@, self.active_apps@, self.stage)
    }

    /// Starts a run over `happ_ids` (in installation order) given the apps that
    /// are enabled now; returns the run and its first action.
    pub fn new(happ_ids: Vec<String>, active_apps: Vec<String>) -> (r: (InstallPlan, InstallAction))
        ensures
            r.0.wf(),
            r.0.happ_ids() == happ_ids@,
            r.0.active_apps() == active_apps@,
            (r.0.stage(), r.1@) == happ_from(happ_ids@, active_apps@, 0),
    {
        proof {
            // the lengths of the lists fit a usize
            assert(happ_ids@.len() == happ_ids.len() && active_apps@.len() == active_apps.len());
        }
        let mut plan = InstallPlan { happ_ids, active_apps, stage: InstallStage::Finished };
        let action = plan.start_happ(0);
        (plan, action)
    }

    /// The stage the run is in.
    pub fn current_stage(&self) -> (r: InstallStage)
        ensures
            r == self.stage(),
    {
        self.stage
    }

    /// Whether the run waits for the list of installed apps.
    pub fn awaits_listing(&self) -> (r: bool)
        ensures
            r == (self.stage() is AwaitInstalledApps),
    {
        matches!(self.stage, InstallStage::AwaitInstalledApps(_))
    }

    /// Whether `outcome` is one the run can take now.
    pub fn accepts(&self, outcome: &ActionOutcome) -> (r: bool)
        ensures
            r == outcome_fits(self.stage(), *outcome),
    {
        match self.stage {
            InstallStage::Finished => false,
            InstallStage::AwaitInstalledApps(_) => !matches!(outcome, ActionOutcome::Succeeded),
            _ => !matches!(outcome, ActionOutcome::AppsListed(_)),
        }
    }

    /// Takes the outcome of the last action; returns the next action.
    pub fn advance(&mut self, outcome: ActionOutcome) -> (action: InstallAction)
        requires
            old(self).wf(),
            outcome_fits(old(self).stage(), outcome),
        ensures
            final(self).wf(),
            final(self).happ_ids() == old(self).happ_ids(),
            final(self).active_apps() == old(self).active_apps(),
            (final(self).stage(), action@) == next_step(old(self).happ_ids(), old(self).active_apps(), old(self).stage(), outcome),
    {
        match outcome {
            ActionOutcome::Failed(m) => match self.stage {
                InstallStage::AwaitInstall(i) => {
                    assert(i < self.happ_ids@.len());
                    if str_contains(m.as_str(), "AppAlreadyInstalled") {
                        assert(contains_seq(m@, "AppAlreadyInstalled"@));
                        self.stage = InstallStage::AwaitActivate(i);
                        InstallAction::Activate { happ: i }
                    } else if str_contains(m.as_str(), "CellAlreadyExists") && self.is_core_happ(i) {
                        self.stage = InstallStage::AwaitInstalledApps(i);
                        InstallAction::ListInstalledApps
                    } else {
                        self.stage = InstallStage::Finished;
                        InstallAction::Failed(m)
                    }
                },
                _ => {
                    self.stage = InstallStage::Finished;
                    InstallAction::Failed(m)
                },
            },
            ActionOutcome::AppsListed(apps) => match self.stage {
                InstallStage::AwaitInstalledApps(i) => {
                    let family = self.family_of(i);
                    let cells = existing_cells(&apps, family);
                    self.stage = InstallStage::AwaitReinstall(i);
                    InstallAction::InstallAndActivate { happ: i, existing_cells: cells }
                },
                _ => {
                    self.stage = InstallStage::Finished;
                    InstallAction::Done
                },
            },
            ActionOutcome::Succeeded => match self.stage {
                InstallStage::AwaitMemProofs(i) => {
                    self.stage = InstallStage::AwaitInstall(i);
                    InstallAction::InstallAndActivate { happ: i, existing_cells: Vec::new() }
                },
                InstallStage::AwaitInstall(i) | InstallStage::AwaitActivate(i) | InstallStage::AwaitReinstall(i) => {
                    self.stage = InstallStage::AwaitUi(i);
                    InstallAction::InstallUi { happ: i }
                },
                InstallStage::AwaitUi(i) => self.start_happ(i + 1),
                InstallStage::AwaitUninstall(k) => self.cleanup(k + 1),
                _ => {
                    self.stage = InstallStage::Finished;
                    InstallAction::Done
                },
            },
        }
    }

    /// Whether happ `i` is one of the versioned core happs.
    fn is_core_happ(&self, i: usize) -> (r: bool)
        requires
            i < self.happ_ids@.len(),
        ensures
            r == is_versioned_core_happ(self.happ_ids@[i as int]@),
    {
        let id = self.happ_ids[i].as_str();
        str_contains(id, "core-app") || str_contains(id, "holofuel") || str_contains(id, "servicelogger")
    }

    /// The id fragment by which the earlier version of happ `i` is found.
    fn family_of(&self, i: usize) -> (r: &'static str)
        requires
            i < self.happ_ids@.len(),
        ensures
            r@ == core_family(self.happ_ids@[i as int]@),
    {
        let id = self.happ_ids[i].as_str();
        if str_contains(id, "core-app") {
            "core-app"
        } else if str_contains(id, "holofuel") {
            "holofuel"
        } else {
            "servicelogger"
        }
    }

    /// Moves to happ `i` (or to the clean-up after the last happ).
    fn start_happ(&mut self, i: usize) -> (action: InstallAction)
        ensures
            final(self).wf(),
            final(self).happ_ids() == old(self).happ_ids(),
            final(self).active_apps() == old(self).active_apps(),
            (final(self).stage(), action@) == happ_from(old(self).happ_ids(), old(self).active_apps(), i as int),
    {
        proof {
            // the length of the list fits a usize
            assert(self.active_apps@.len() == self.active_apps.len());
        }
        if i < self.happ_ids.len() {
            if self.is_active(i) {
                self.stage = InstallStage::AwaitUi(i);
                InstallAction::InstallUi { happ: i }
            } else {
                self.stage = InstallStage::AwaitMemProofs(i);
                InstallAction::PrepareMemProofs { happ: i }
            }
        } else {
            self.cleanup(0)
        }
    }

    /// Whether happ `i` is among the enabled apps.
    fn is_active(&self, i: usize) -> (r: bool)
        requires
            i < self.happ_ids@.len(),
        ensures
            r == listed_in(self.happ_ids@[i as int]@, self.active_apps@),
    {
        let id = self.happ_ids[i].as_str();
        let mut k: usize = 0;
        while k < self.active_apps.len()
            invariant
                k <= self.active_apps.len(),
                id@ == self.happ_ids@[i as int]@,
                forall|q: int| 0 <= q < k ==> self.active_apps@[q]@ != id@,
            decreases self.active_apps.len() - k,
        {
            if str_eq(self.active_apps[k].as_str(), id) {
                return true;
            }
            k = k + 1;
        }
        false
    }

    /// Moves to the clean-up from enabled app `j` on.
    fn cleanup(&mut self, j: usize) -> (action: InstallAction)
        ensures
            final(self).wf(),
            final(self).happ_ids() == old(self).happ_ids(),
            final(self).active_apps() == old(self).active_apps(),
            (final(self).stage(), action@) == cleanup_from(old(self).happ_ids(), old(self).active_apps(), j as int),
    {
        proof {
            lemma_first_unkept(self.active_apps@, self.happ_ids@, j as int);
        }
        proof {
            // the lengths of the lists fit a usize
            assert(self.happ_ids@.len() == self.happ_ids.len() && self.active_apps@.len() == self.active_apps.len());
        }
        let mut k = j;
        while k < self.active_apps.len()
            invariant
                j <= k,
                self.happ_ids@ == old(self).happ_ids@,
                self.active_apps@ == old(self).active_apps@,
                self.happ_ids@.len() <= usize::MAX,
                self.active_apps@.len() <= usize::MAX,
                first_unkept(self.active_apps@, self.happ_ids@, j as int) == first_unkept(self.active_apps@, self.happ_ids@, k as int),
            decreases self.active_apps.len() - k,
        {
            if !app_kept(self.active_apps[k].as_str(), &self.happ_ids) {
                self.stage = InstallStage::AwaitUninstall(k);
                proof {
                    lemma_first_unkept(self.active_apps@, self.happ_ids@, j as int);
                }
                return InstallAction::Uninstall { app: k };
            }
            k = k + 1;
        }
        self.stage = InstallStage::Finished;
        InstallAction::Done
    }
}

/// Law: the clean-up never uninstalls an app that the configuration lists or
/// that is a hosted happ; whatever the outcome, an `Uninstall` action names an
/// enabled app that is not kept.
pub proof fn uninstall_only_unkept_apps(
    happ_ids: Seq<String>,
    active: Seq<String>,
    stage: InstallStage,
    outcome: ActionOutcome,
)
    requires
        stage_wf(happ_ids, active, stage),
        outcome_fits(stage, outcome),
    ensures
        next_step(happ_ids, active, stage, outcome).1 matches InstallActionView::Uninstall { app }
            ==> 0 <= app < active.len() && !app_is_kept(active[app]@, happ_ids),
{
    every_step_keeps_the_plan_consistent(happ_ids, active, stage, outcome);
}

/// Law: after the listing of installed apps, a core happ whose installation
/// met `CellAlreadyExists` is installed again with the cells of the earlier
/// version found by a fragment of its own id: `core-app` when the id contains
/// it, else `holofuel` when it contains that, else `servicelogger`.
pub proof fn reinstall_reuses_cells_of_its_own_family(
    happ_ids: Seq<String>,
    active: Seq<String>,
    i: usize,
    apps: Vec<AppInfo>,
)
    requires
        i < happ_ids.len(),
    ensures
        ({
            let id = happ_ids[i as int]@;
            let next = next_step(happ_ids, active, InstallStage::AwaitInstalledApps(i), ActionOutcome::AppsListed(apps));
            &&& next.0 == InstallStage::AwaitReinstall(i)
            &&& contains_seq(id, "core-app"@) ==> next.1 == (InstallActionView::InstallAndActivate {
                happ: i as int,
                existing_cells: existing_cells_spec(apps@, "core-app"@),
            })
            &&& !contains_seq(id, "core-app"@) && contains_seq(id, "holofuel"@) ==> next.1
                == (InstallActionView::InstallAndActivate { happ: i as int, existing_cells: existing_cells_spec(apps@, "holofuel"@) })
            &&& !contains_seq(id, "core-app"@) && !contains_seq(id, "holofuel"@) && contains_seq(id, "servicelogger"@) ==> next.1
                == (InstallActionView::InstallAndActivate {
                happ: i as int,
                existing_cells: existing_cells_spec(apps@, "servicelogger"@),
            })
        }),
{
}

/// Law: the run keeps its bookkeeping consistent: from a consistent stage,
/// every outcome leads to a consistent stage.
pub proof fn every_step_keeps_the_plan_consistent(
    happ_ids: Seq<String>,
    active: Seq<String>,
    stage: InstallStage,
    outcome: ActionOutcome,
)
    requires
        stage_wf(happ_ids, active, stage),
        outcome_fits(stage, outcome),
    ensures
        stage_wf(happ_ids, active, next_step(happ_ids, active, stage, outcome).0),
        next_step(happ_ids, active, stage, outcome).1 matches InstallActionView::Uninstall { app }
            ==> 0 <= app < active.len() && !app_is_kept(active[app]@, happ_ids),
{
    match stage {
        InstallStage::AwaitUi(i) => {
            lemma_first_unkept(active, happ_ids, 0);
        },
        InstallStage::AwaitUninstall(k) => {
            lemma_first_unkept(active, happ_ids, k + 1);
        },
        _ => {},
    }
}

/// Law: no action of the run installs, enables or builds membrane proofs for a
/// happ that was already enabled when the run started.
pub proof fn enabled_happs_are_not_reinstalled(
    happ_ids: Seq<String>,
    active: Seq<String>,
    stage: InstallStage,
    outcome: ActionOutcome,
)
    requires
        stage_wf(happ_ids, active, stage),
        outcome_fits(stage, outcome),
    ensures
        match next_step(happ_ids, active, stage, outcome).1 {
            InstallActionView::PrepareMemProofs { happ } => 0 <= happ < happ_ids.len() && !listed_in(happ_ids[happ]@, active),
            InstallActionView::InstallAndActivate { happ, .. } => 0 <= happ < happ_ids.len() && !listed_in(happ_ids[happ]@, active),
            InstallActionView::Activate { happ } => 0 <= happ < happ_ids.len() && !listed_in(happ_ids[happ]@, active),
            _ => true,
        },
{
    every_step_keeps_the_plan_consistent(happ_ids, active, stage, outcome);
}

/// Law: a failure is never dropped: after a failed action the run either
/// answers it (enabling an app that is already installed, or reusing the cells
/// of an earlier version of a core happ) or ends with that same error.
pub proof fn failures_are_answered_or_reported(
    happ_ids: Seq<String>,
    active: Seq<String>,
    stage: InstallStage,
    message: String,
)
    requires
        stage_wf(happ_ids, active, stage),
        stage != InstallStage::Finished,
    ensures
        ({
            let (next, action) = next_step(happ_ids, active, stage, ActionOutcome::Failed(message));
            ||| action == InstallActionView::Failed(message@) && next == InstallStage::Finished
            ||| stage is AwaitInstall && action is Activate && contains_seq(message@, "AppAlreadyInstalled"@)
            ||| stage is AwaitInstall && action is ListInstalledApps && contains_seq(message@, "CellAlreadyExists"@)
        }),
{
}

/// Law: the run reports success only once every enabled app from the clean-up
/// position on is kept.
pub proof fn done_only_when_clean(happ_ids: Seq<String>, active: Seq<String>, j: int)
    requires
        0 <= j,
        cleanup_from(happ_ids, active, j).1 is Done,
    ensures
        forall|q: int| j <= q < active.len() ==> app_is_kept(#[trigger] active[q]@, happ_ids),
{
    lemma_first_unkept(active, happ_ids, j);
}

/// The actions that a run takes for happ `i` when each of them succeeds: the
/// UI alone for an enabled happ; else membrane proofs, installation and UI.
pub open spec fn happ_actions(happ_ids: Seq<String>, active: Seq<String>, i: int) -> Seq<InstallActionView> {
    if listed_in(happ_ids[i]@, active) {
        seq![InstallActionView::InstallUi { happ: i }]
    } else {
        seq![
            InstallActionView::PrepareMemProofs { happ: i },
            InstallActionView::InstallAndActivate { happ: i, existing_cells: Seq::empty() },
            InstallActionView::InstallUi { happ: i },
        ]
    }
}

/// The actions for the happs from position `i` on, happ after happ.
pub open spec fn install_actions_from(happ_ids: Seq<String>, active: Seq<String>, i: int) -> Seq<InstallActionView>
    decreases happ_ids.len() - i,
{
    if i < 0 || i >= happ_ids.len() {
        Seq::empty()
    } else {
        happ_actions(happ_ids, active, i) + install_actions_from(happ_ids, active, i + 1)
    }
}

/// The uninstallations of the enabled apps from position `j` on that are not kept.
pub open spec fn cleanup_actions_from(happ_ids: Seq<String>, active: Seq<String>, j: int) -> Seq<InstallActionView>
    decreases active.len() - j,
{
    if j < 0 || j >= active.len() {
        Seq::empty()
    } else if app_is_kept(active[j]@, happ_ids) {
        cleanup_actions_from(happ_ids, active, j + 1)
    } else {
        seq![InstallActionView::Uninstall { app: j }] + cleanup_actions_from(happ_ids, active, j + 1)
    }
}

/// The whole run when every action succeeds.
pub open spec fn successful_run(happ_ids: Seq<String>, active: Seq<String>) -> Seq<InstallActionView> {
    install_actions_from(happ_ids, active, 0) + cleanup_actions_from(happ_ids, active, 0)
        + seq![InstallActionView::Done]
}

/// The actions of a run from `(stage, action)` on when each action succeeds,
/// up to `steps` further actions (it stops at `Done` or a failure).
pub open spec fn trace_of_successes(
    happ_ids: Seq<String>,
    active: Seq<String>,
    stage: InstallStage,
    action: InstallActionView,
    steps: nat,
) -> Seq<InstallActionView>
    decreases steps,
{
    if steps == 0 || action is Done || action is Failed {
        seq![action]
    } else {
        let (next, next_action) = next_step(happ_ids, active, stage, ActionOutcome::Succeeded);
        seq![action] + trace_of_successes(happ_ids, active, next, next_action, (steps - 1) as nat)
    }
}

proof fn lemma_cleanup_skips_kept(happ_ids: Seq<String>, active: Seq<String>, j: int)
    requires
        0 <= j,
    ensures
        first_unkept(active, happ_ids, j) <= active.len() ==> cleanup_actions_from(happ_ids, active, j)
            == cleanup_actions_from(happ_ids, active, first_unkept(active, happ_ids, j)),
    decreases active.len() - j,
{
    if j < active.len() && app_is_kept(active[j]@, happ_ids) {
        lemma_cleanup_skips_kept(happ_ids, active, j + 1);
    }
}

proof fn lemma_cleanup_trace(happ_ids: Seq<String>, active: Seq<String>, j: int, steps: nat)
    requires
        0 <= j,
        active.len() <= usize::MAX,
        steps >= cleanup_actions_from(happ_ids, active, j).len(),
    ensures
        ({
            let (stage, action) = cleanup_from(happ_ids, active, j);
            trace_of_successes(happ_ids, active, stage, action, steps)
                == cleanup_actions_from(happ_ids, active, j) + seq![InstallActionView::Done]
        }),
    decreases active.len() - j,
{
    lemma_first_unkept(active, happ_ids, j);
    lemma_cleanup_skips_kept(happ_ids, active, j);
    let k = first_unkept(active, happ_ids, j);
    if k < active.len() {
        assert(cleanup_actions_from(happ_ids, active, k)
            == seq![InstallActionView::Uninstall { app: k }] + cleanup_actions_from(happ_ids, active, k + 1));
        lemma_cleanup_trace(happ_ids, active, k + 1, (steps - 1) as nat);
        let rest = cleanup_actions_from(happ_ids, active, k + 1);
        assert(seq![InstallActionView::Uninstall { app: k }] + (rest + seq![InstallActionView::Done])
            =~= (seq![InstallActionView::Uninstall { app: k }] + rest) + seq![InstallActionView::Done]);
    } else {
        if j < active.len() {
            assert(cleanup_actions_from(happ_ids, active, active.len() as int) =~= Seq::<InstallActionView>::empty());
        } else {
            assert(cleanup_actions_from(happ_ids, active, j) =~= Seq::<InstallActionView>::empty());
        }
        assert(Seq::<InstallActionView>::empty() + seq![InstallActionView::Done] =~= seq![InstallActionView::Done]);
    }
}

proof fn lemma_install_trace(happ_ids: Seq<String>, active: Seq<String>, i: int, steps: nat)
    requires
        0 <= i,
        happ_ids.len() <= usize::MAX,
        active.len() <= usize::MAX,
        steps >= install_actions_from(happ_ids, active, i).len() + cleanup_actions_from(happ_ids, active, 0).len(),
    ensures
        ({
            let (stage, action) = happ_from(happ_ids, active, i);
            trace_of_successes(happ_ids, active, stage, action, steps)
                == install_actions_from(happ_ids, active, i) + cleanup_actions_from(happ_ids, active, 0)
                + seq![InstallActionView::Done]
        }),
    decreases happ_ids.len() - i,
{
    let cleanup = cleanup_actions_from(happ_ids, active, 0);
    let done = seq![InstallActionView::Done];
    if i >= happ_ids.len() {
        lemma_cleanup_trace(happ_ids, active, 0, steps);
        assert(install_actions_from(happ_ids, active, i) =~= Seq::<InstallActionView>::empty());
        assert(Seq::<InstallActionView>::empty() + cleanup + done =~= cleanup + done);
    } else {
        let rest = install_actions_from(happ_ids, active, i + 1);
        let mine = happ_actions(happ_ids, active, i);
        assert(install_actions_from(happ_ids, active, i) == mine + rest);
        if listed_in(happ_ids[i]@, active) {
            lemma_install_trace(happ_ids, active, i + 1, (steps - 1) as nat);
            assert(mine + rest + cleanup + done =~= seq![mine[0]] + (rest + cleanup + done));
        } else {
            lemma_install_trace(happ_ids, active, i + 1, (steps - 3) as nat);
            let after = trace_of_successes(happ_ids, active, InstallStage::AwaitUi(i as usize),
                InstallActionView::InstallUi { happ: i }, (steps - 2) as nat);
            assert(after == seq![InstallActionView::InstallUi { happ: i }] + (rest + cleanup + done));
            let middle = trace_of_successes(happ_ids, active, InstallStage::AwaitInstall(i as usize),
                InstallActionView::InstallAndActivate { happ: i, existing_cells: Seq::empty() }, (steps - 1) as nat);
            assert(middle == seq![InstallActionView::InstallAndActivate { happ: i, existing_cells: Seq::empty() }] + after);
            assert(mine + rest + cleanup + done =~= seq![mine[0]] + middle);
        }
    }
}

/// Law: when every action succeeds, a run installs (membrane proofs, then
/// installation, then UI) each configured happ that is not enabled yet, in
/// order, installs only the UI of each configured happ that is, then
/// uninstalls, in order, every enabled app that is neither configured nor
/// hosted, and ends with success.
pub proof fn successful_run_installs_then_cleans_up(happ_ids: Seq<String>, active: Seq<String>, steps: nat)
    requires
        happ_ids.len() <= usize::MAX,
        active.len() <= usize::MAX,
        steps >= successful_run(happ_ids, active).len(),
    ensures
        ({
            let (stage, action) = happ_from(happ_ids, active, 0);
            trace_of_successes(happ_ids, active, stage, action, steps) == successful_run(happ_ids, active)
        }),
{
    lemma_install_trace(happ_ids, active, 0, steps);
}

} // verus!
