//! Restoring an app's chains from the chain head coordinator, as a state
//! machine.
//!
//! The run first asks for the app (a failed question ends the run; a missing
//! app has no cells), restores every cell of the app from the coordinator and
//! adds up the records restored. A run that restored nothing and has no hash
//! to start from has failed. Otherwise it dumps the state of every cell of the
//! app, restores once more each cell that turns out empty (a failure there is
//! let pass), and ends by asking for the app once more: the run succeeded when
//! the app is still there.
//!
//! The caller performs each action and reports its outcome to `advance`.
use vstd::prelude::*;
use crate::admin::AdminResponse;
use crate::cells::{all_cell_ids, all_cell_ids_of, id_views, AppInfo, CellId, CellIdView};
use crate::chc::{authored_records_of, dump_readable, dump_shows_empty, dumped_cell_is_empty, state_dump_summary, AuthoredRecords};

verus! {

broadcast use vstd::string::group_string_axioms;

/// What the app interface answered when asked for the app.
pub enum AppInfoAnswer {
    Found(AppInfo),
    Missing,
    Failed(String),
}

/// How the last action went.
pub enum RestoreOutcome {
    /// The answer to `GetAppInfo`.
    AppInfo(AppInfoAnswer),
    /// A cell was restored with this many records.
    Restored(usize),
    /// Restoring a cell failed.
    RestoreFailed,
    /// The answer to `DumpState` (`None` when the request failed).
    Dumped(Option<AdminResponse>),
}

/// Why a restoration failed.
#[derive(Debug, PartialEq, Eq)]
pub enum RestoreError {
    /// Asking for the app before the restoration failed, with this message.
    OutOfSyncCheckFailed(String),
    /// Nothing was restored and there was no hash to start from.
    SyncFailed { total: usize },
    /// The app was gone after the restoration.
    AppMissing,
    /// Asking for the app after the restoration failed, with this message.
    AppInfoFailed(String),
}

/// The next thing to do.
pub enum RestoreAction {
    GetAppInfo,
    /// Restore this cell's chain from the coordinator.
    Restore { cell: CellId },
    /// Dump this cell's state.
    DumpState { cell: CellId },
    Done,
    Failed(RestoreError),
}

#[verifier::ext_equal]
pub enum RestoreActionView {
    GetAppInfo,
    Restore { cell: CellIdView },
    DumpState { cell: CellIdView },
    Done,
    Failed(RestoreError),
}

impl View for RestoreAction {
    type V = RestoreActionView;

    open spec fn view(&self) -> RestoreActionView {
        match self {
            RestoreAction::GetAppInfo => RestoreActionView::GetAppInfo,
            RestoreAction::Restore { cell } => RestoreActionView::Restore { cell: cell@ },
            RestoreAction::DumpState { cell } => RestoreActionView::DumpState { cell: cell@ },
            RestoreAction::Done => RestoreActionView::Done,
            RestoreAction::Failed(e) => RestoreActionView::Failed(*e),
        }
    }
}

/// Where the run stands.
#[derive(Clone, Copy, Debug, PartialEq, Eq, Structural)]
pub enum RestoreStage {
    AwaitFirstAppInfo,
    AwaitRestore(usize),
    AwaitSecondAppInfo,
    AwaitDump(usize),
    AwaitEmptyRestore(usize),
    AwaitFinalAppInfo,
    Finished,
}

/// The state of a run: whether a hash to start from was given, the cells of
/// the current pass, the records restored so far, the cells found empty, and
/// the stage.
#[verifier::ext_equal]
pub struct RestoreState {
    pub has_since_hash: bool,
    pub cells: Seq<CellIdView>,
    pub total: int,
    pub empties: Seq<CellIdView>,
    pub stage: RestoreStage,
}

/// The restoration pass from cell `k` on; after the last cell, the check of
/// whether anything was restored.
pub open spec fn restore_from(s: RestoreState, k: int) -> (RestoreState, RestoreActionView) {
    if 0 <= k < s.cells.len() {
        (RestoreState { stage: RestoreStage::AwaitRestore(k as usize), ..s }, RestoreActionView::Restore { cell: s.cells[k] })
    } else if s.total == 0 && !s.has_since_hash {
        (RestoreState { stage: RestoreStage::Finished, ..s }, RestoreActionView::Failed(RestoreError::SyncFailed { total: 0 }))
    } else {
        (RestoreState { stage: RestoreStage::AwaitSecondAppInfo, ..s }, RestoreActionView::GetAppInfo)
    }
}

/// The restoration of the empty cells from position `j` on; then the final
/// question for the app.
pub open spec fn empty_restore_from(s: RestoreState, j: int) -> (RestoreState, RestoreActionView) {
    if 0 <= j < s.empties.len() {
        (RestoreState { stage: RestoreStage::AwaitEmptyRestore(j as usize), ..s }, RestoreActionView::Restore { cell: s.empties[j] })
    } else {
        (RestoreState { stage: RestoreStage::AwaitFinalAppInfo, ..s }, RestoreActionView::GetAppInfo)
    }
}

/// The dumps from cell `k` on; then the restoration of the empty cells.
pub open spec fn dump_from(s: RestoreState, k: int) -> (RestoreState, RestoreActionView) {
    if 0 <= k < s.cells.len() {
        (RestoreState { stage: RestoreStage::AwaitDump(k as usize), ..s }, RestoreActionView::DumpState { cell: s.cells[k] })
    } else {
        empty_restore_from(s, 0)
    }
}

/// The outcome is one that the stage can take, and one on which the run does
/// not give up: a failed first restoration, an unreadable state dump, a failed
/// second question for the app, or a total beyond `usize` are left out.
pub open spec fn restore_outcome_fits(s: RestoreState, outcome: RestoreOutcome) -> bool {
    match s.stage {
        RestoreStage::AwaitFirstAppInfo => outcome is AppInfo,
        RestoreStage::AwaitRestore(_) => outcome matches RestoreOutcome::Restored(n) && s.total + n <= usize::MAX,
        RestoreStage::AwaitSecondAppInfo => outcome matches RestoreOutcome::AppInfo(a) && !(a is Failed),
        RestoreStage::AwaitDump(_) => outcome matches RestoreOutcome::Dumped(d)
            && (d matches Some(AdminResponse::StateDumped(t)) ==> dump_readable(t@)),
        RestoreStage::AwaitEmptyRestore(_) => outcome is Restored || outcome is RestoreFailed,
        RestoreStage::AwaitFinalAppInfo => outcome is AppInfo,
        RestoreStage::Finished => false,
    }
}

/// The cells of an app, from the answer to the question for it (none when it is missing).
pub open spec fn answer_cells(a: AppInfoAnswer) -> Seq<CellIdView> {
    match a {
        AppInfoAnswer::Found(info) => all_cell_ids_of(info.cell_info.roles@),
        _ => Seq::empty(),
    }
}

/// The state and action that follow an outcome.
pub open spec fn restore_next(s: RestoreState, outcome: RestoreOutcome) -> (RestoreState, RestoreActionView) {
    match s.stage {
        RestoreStage::AwaitFirstAppInfo => match outcome {
            RestoreOutcome::AppInfo(AppInfoAnswer::Failed(m)) =>
                (RestoreState { stage: RestoreStage::Finished, ..s }, RestoreActionView::Failed(RestoreError::OutOfSyncCheckFailed(m))),
            RestoreOutcome::AppInfo(a) => restore_from(RestoreState { cells: answer_cells(a), total: 0, ..s }, 0),
            _ => (s, RestoreActionView::GetAppInfo),
        },
        RestoreStage::AwaitRestore(k) => match outcome {
            RestoreOutcome::Restored(n) => restore_from(RestoreState { total: s.total + n, ..s }, k + 1),
            _ => (s, RestoreActionView::GetAppInfo),
        },
        RestoreStage::AwaitSecondAppInfo => match outcome {
            RestoreOutcome::AppInfo(a) => dump_from(RestoreState { cells: answer_cells(a), empties: Seq::empty(), ..s }, 0),
            _ => (s, RestoreActionView::GetAppInfo),
        },
        RestoreStage::AwaitDump(k) => match outcome {
            RestoreOutcome::Dumped(d) => if dump_shows_empty(d) {
                dump_from(RestoreState { empties: s.empties.push(s.cells[k as int]), ..s }, k + 1)
            } else {
                dump_from(s, k + 1)
            },
            _ => (s, RestoreActionView::GetAppInfo),
        },
        RestoreStage::AwaitEmptyRestore(j) => empty_restore_from(s, j + 1),
        RestoreStage::AwaitFinalAppInfo => match outcome {
            RestoreOutcome::AppInfo(AppInfoAnswer::Found(_)) => (RestoreState { stage: RestoreStage::Finished, ..s }, RestoreActionView::Done),
            RestoreOutcome::AppInfo(AppInfoAnswer::Missing) =>
                (RestoreState { stage: RestoreStage::Finished, ..s }, RestoreActionView::Failed(RestoreError::AppMissing)),
            RestoreOutcome::AppInfo(AppInfoAnswer::Failed(m)) =>
                (RestoreState { stage: RestoreStage::Finished, ..s }, RestoreActionView::Failed(RestoreError::AppInfoFailed(m))),
            _ => (s, RestoreActionView::GetAppInfo),
        },
        RestoreStage::Finished => (s, RestoreActionView::Done),
    }
}

/// The positions that a stage holds are in range, and the total fits a `usize`.
pub open spec fn restore_state_wf(s: RestoreState) -> bool {
    &&& 0 <= s.total <= usize::MAX
    &&& s.cells.len() <= usize::MAX
    &&& s.empties.len() <= usize::MAX
    &&& match s.stage {
        RestoreStage::AwaitRestore(k) | RestoreStage::AwaitDump(k) => k < s.cells.len(),
        RestoreStage::AwaitEmptyRestore(j) => j < s.empties.len(),
        _ => true,
    }
}

/// Law: the first pass restores every cell of the app once, in order, and adds
/// up what each restoration brought: after cell `k` comes cell `k + 1`.
pub proof fn every_cell_is_restored_in_turn(s: RestoreState, k: usize, n: usize)
    requires
        restore_state_wf(s),
        s.stage == RestoreStage::AwaitRestore(k),
        k + 1 < s.cells.len(),
        s.total + n <= usize::MAX,
    ensures
        ({
            let (t, a) = restore_next(s, RestoreOutcome::Restored(n));
            &&& t.total == s.total + n
            &&& t.cells == s.cells
            &&& t.stage == RestoreStage::AwaitRestore((k + 1) as usize)
            &&& a == (RestoreActionView::Restore { cell: s.cells[k + 1] })
        }),
{
}

/// Law: the dumps go through every cell of the app in order, and a cell joins
/// the cells found empty, at the end, exactly when its dump counts it empty.
pub proof fn every_cell_is_dumped_in_turn(s: RestoreState, k: usize, answer: Option<AdminResponse>)
    requires
        restore_state_wf(s),
        s.stage == RestoreStage::AwaitDump(k),
        restore_outcome_fits(s, RestoreOutcome::Dumped(answer)),
    ensures
        ({
            let (t, a) = restore_next(s, RestoreOutcome::Dumped(answer));
            &&& t.cells == s.cells
            &&& t.empties == (if dump_shows_empty(answer) { s.empties.push(s.cells[k as int]) } else { s.empties })
            &&& k + 1 < s.cells.len() ==> t.stage == RestoreStage::AwaitDump((k + 1) as usize)
                && a == (RestoreActionView::DumpState { cell: s.cells[k + 1] })
        }),
{
}

/// Law: an empty state dump counts its cell empty and one that reports
/// authored records does not; a failed dump request does not count the cell,
/// and any other answer does.
pub proof fn dumps_judge_cells_by_authored_records(cell_state: String, answer: AdminResponse)
    ensures
        dump_readable(cell_state@) ==> (dump_shows_empty(Some(AdminResponse::StateDumped(cell_state)))
            <==> !(authored_records_of(state_dump_summary(cell_state@)->Some_0) matches AuthoredRecords::Count(n) && n > 0)),
        !dump_shows_empty(None),
        !(answer is StateDumped) ==> dump_shows_empty(Some(answer)),
{
}

/// In the second pass a failed restoration of an empty cell is let pass: the
/// run goes on exactly as after a successful one, whatever it restored.
pub proof fn empty_restore_failure_is_let_pass(s: RestoreState, n: usize)
    requires
        s.stage is AwaitEmptyRestore,
    ensures
        restore_next(s, RestoreOutcome::Restored(n)) == restore_next(s, RestoreOutcome::RestoreFailed),
{
}

/// When the last cell of the first pass is restored and the whole pass
/// restored nothing, a run without a hash to start from fails with a total of
/// zero; with a hash it goes on to ask for the app.
pub proof fn nothing_restored_decides_by_hash(s: RestoreState, n: usize)
    requires
        restore_state_wf(s),
        s.stage matches RestoreStage::AwaitRestore(k) && k + 1 == s.cells.len(),
        s.total + n == 0,
    ensures
        restore_next(s, RestoreOutcome::Restored(n)).1 == (if s.has_since_hash {
            RestoreActionView::GetAppInfo
        } else {
            RestoreActionView::Failed(RestoreError::SyncFailed { total: 0 })
        }),
{
}

/// Law: in the second pass every cell found empty is restored once more, in
/// order: after the restoration of empty cell `j` (whether it succeeded or
/// failed) comes the restoration of empty cell `j + 1`, and after the last
/// one the final question for the app. The cells found empty do not change.
pub proof fn every_empty_cell_is_restored_in_turn(s: RestoreState, j: usize, outcome: RestoreOutcome)
    requires
        restore_state_wf(s),
        s.stage == RestoreStage::AwaitEmptyRestore(j),
        restore_outcome_fits(s, outcome),
    ensures
        ({
            let (t, a) = restore_next(s, outcome);
            &&& t.empties == s.empties
            &&& j + 1 < s.empties.len() ==> t.stage == RestoreStage::AwaitEmptyRestore((j + 1) as usize)
                && a == (RestoreActionView::Restore { cell: s.empties[j + 1] })
            &&& j + 1 >= s.empties.len() ==> t.stage == RestoreStage::AwaitFinalAppInfo
                && a == RestoreActionView::GetAppInfo
        }),
{
}

/// Law: after the last state dump the second pass starts with the first cell
/// found empty, or, when none was, goes straight to the final question for
/// the app.
pub proof fn empty_cells_are_restored_after_the_dumps(s: RestoreState, k: usize, outcome: RestoreOutcome)
    requires
        restore_state_wf(s),
        s.stage == RestoreStage::AwaitDump(k),
        k + 1 == s.cells.len(),
        restore_outcome_fits(s, outcome),
    ensures
        ({
            let (t, a) = restore_next(s, outcome);
            &&& t.empties.len() > 0 ==> t.stage == RestoreStage::AwaitEmptyRestore(0)
                && a == (RestoreActionView::Restore { cell: t.empties[0] })
            &&& t.empties.len() == 0 ==> t.stage == RestoreStage::AwaitFinalAppInfo
                && a == RestoreActionView::GetAppInfo
        }),
{
}

/// A restoration run.
pub struct RestorePlan {
    has_since_hash: bool,
    cells: Vec<CellId>,
    total: usize,
    empties: Vec<CellId>,
    stage: RestoreStage,
}

impl RestorePlan {
    /// The state of the run.
    pub closed spec fn state(&self) -> RestoreState {
        RestoreState {
            has_since_hash: self.has_since_hash,
            cells: id_views(self.cells@),
            total: self.total as int,
            empties: id_views(self.empties@),
            stage: self.stage,
        }
    }

    /// Starts a run (with or without a hash to start from); its first action
    /// asks for the app.
    pub fn new(has_since_hash: bool) -> (r: (RestorePlan, RestoreAction))
        ensures
            r.0.state() == (RestoreState {
                has_since_hash,
                cells: Seq::empty(),
                total: 0,
                empties: Seq::empty(),
                stage: RestoreStage::AwaitFirstAppInfo,
            }),
            restore_state_wf(r.0.state()),
            r.1@ == RestoreActionView::GetAppInfo,
    {
        let plan = RestorePlan {
            has_since_hash,
            cells: Vec::new(),
            total: 0,
            empties: Vec::new(),
            stage: RestoreStage::AwaitFirstAppInfo,
        };
        assert(plan.state().cells =~= Seq::<CellIdView>::empty());
        assert(plan.state().empties =~= Seq::<CellIdView>::empty());
        (plan, RestoreAction::GetAppInfo)
    }

    /// The records restored so far in the first pass.
    pub fn total(&self) -> (r: usize)
        ensures
            r == self.state().total,
    {
        self.total
    }

    /// Whether `outcome` is one the run can take now.
    pub fn accepts(&self, outcome: &RestoreOutcome) -> (r: bool)
        ensures
            r == restore_outcome_fits(self.state(), *outcome),
    {
        match self.stage {
            RestoreStage::AwaitFirstAppInfo | RestoreStage::AwaitFinalAppInfo => matches!(outcome, RestoreOutcome::AppInfo(_)),
            RestoreStage::AwaitRestore(_) => match outcome {
                RestoreOutcome::Restored(n) => *n <= usize::MAX - self.total,
                _ => false,
            },
            RestoreStage::AwaitSecondAppInfo => matches!(outcome, RestoreOutcome::AppInfo(AppInfoAnswer::Found(_)))
                || matches!(outcome, RestoreOutcome::AppInfo(AppInfoAnswer::Missing)),
            RestoreStage::AwaitDump(_) => match outcome {
                RestoreOutcome::Dumped(d) => match crate::chc::checked_dumped_cell_is_empty(d) {
                    Some(_) => true,
                    None => false,
                },
                _ => false,
            },
            RestoreStage::AwaitEmptyRestore(_) => matches!(outcome, RestoreOutcome::Restored(_))
                || matches!(outcome, RestoreOutcome::RestoreFailed),
            RestoreStage::Finished => false,
        }
    }

    fn go_restore(&mut self, k: usize) -> (action: RestoreAction)
        requires
            0 <= old(self).state().total <= usize::MAX,
        ensures
            (final(self).state(), action@) == restore_from(old(self).state(), k as int),
            restore_state_wf(final(self).state()),
    {
        proof {
            // the lengths of the vectors fit a usize
            assert(self.cells@.len() == self.cells.len() && self.empties@.len() == self.empties.len());
        }
        if k < self.cells.len() {
            self.stage = RestoreStage::AwaitRestore(k);
            RestoreAction::Restore { cell: self.cells[k].duplicate() }
        } else if self.total == 0 && !self.has_since_hash {
            self.stage = RestoreStage::Finished;
            RestoreAction::Failed(RestoreError::SyncFailed { total: 0 })
        } else {
            self.stage = RestoreStage::AwaitSecondAppInfo;
            RestoreAction::GetAppInfo
        }
    }

    fn go_empty_restore(&mut self, j: usize) -> (action: RestoreAction)
        requires
            0 <= old(self).state().total <= usize::MAX,
        ensures
            (final(self).state(), action@) == empty_restore_from(old(self).state(), j as int),
            restore_state_wf(final(self).state()),
    {
        proof {
            // the lengths of the vectors fit a usize
            assert(self.cells@.len() == self.cells.len() && self.empties@.len() == self.empties.len());
        }
        if j < self.empties.len() {
            self.stage = RestoreStage::AwaitEmptyRestore(j);
            RestoreAction::Restore { cell: self.empties[j].duplicate() }
        } else {
            self.stage = RestoreStage::AwaitFinalAppInfo;
            RestoreAction::GetAppInfo
        }
    }

    fn go_dump(&mut self, k: usize) -> (action: RestoreAction)
        requires
            0 <= old(self).state().total <= usize::MAX,
        ensures
            (final(self).state(), action@) == dump_from(old(self).state(), k as int),
            restore_state_wf(final(self).state()),
    {
        proof {
            // the lengths of the vectors fit a usize
            assert(self.cells@.len() == self.cells.len() && self.empties@.len() == self.empties.len());
        }
        if k < self.cells.len() {
            self.stage = RestoreStage::AwaitDump(k);
            RestoreAction::DumpState { cell: self.cells[k].duplicate() }
        } else {
            self.go_empty_restore(0)
        }
    }

    fn take_cells(&mut self, answer: &AppInfoAnswer)
        ensures
            final(self).state() == (RestoreState { cells: answer_cells(*answer), ..old(self).state() }),
    {
        match answer {
            AppInfoAnswer::Found(info) => {
                self.cells = all_cell_ids(info);
            },
            _ => {
                self.cells = Vec::new();
                assert(id_views(self.cells@) =~= Seq::<CellIdView>::empty());
            },
        }
        assert(self.state() =~= RestoreState { cells: answer_cells(*answer), ..old(self).state() });
    }

    /// Takes the outcome of the last action; returns the next action.
    pub fn advance(&mut self, outcome: RestoreOutcome) -> (action: RestoreAction)
        requires
            restore_state_wf(old(self).state()),
            restore_outcome_fits(old(self).state(), outcome),
        ensures
            restore_state_wf(final(self).state()),
            (final(self).state(), action@) == restore_next(old(self).state(), outcome),
    {
        match self.stage {
            RestoreStage::AwaitFirstAppInfo => match outcome {
                RestoreOutcome::AppInfo(AppInfoAnswer::Failed(m)) => {
                    self.stage = RestoreStage::Finished;
                    RestoreAction::Failed(RestoreError::OutOfSyncCheckFailed(m))
                },
                RestoreOutcome::AppInfo(a) => {
                    self.take_cells(&a);
                    self.total = 0;
                    self.go_restore(0)
                },
                _ => RestoreAction::GetAppInfo,
            },
            RestoreStage::AwaitRestore(k) => match outcome {
                RestoreOutcome::Restored(n) => {
                    self.total = self.total + n;
                    self.go_restore(k + 1)
                },
                _ => RestoreAction::GetAppInfo,
            },
            RestoreStage::AwaitSecondAppInfo => match outcome {
                RestoreOutcome::AppInfo(a) => {
                    self.take_cells(&a);
                    self.empties = Vec::new();
                    assert(id_views(self.empties@) =~= Seq::<CellIdView>::empty());
                    self.go_dump(0)
                },
                _ => RestoreAction::GetAppInfo,
            },
            RestoreStage::AwaitDump(k) => match outcome {
                RestoreOutcome::Dumped(d) => {
                    if dumped_cell_is_empty(&d) {
                        let c = self.cells[k].duplicate();
                        let ghost before = id_views(self.empties@);
                        self.empties.push(c);
                        assert(id_views(self.empties@) =~= before.push(id_views(self.cells@)[k as int]));
                    }
                    self.go_dump(k + 1)
                },
                _ => RestoreAction::GetAppInfo,
            },
            RestoreStage::AwaitEmptyRestore(j) => self.go_empty_restore(j + 1),
            RestoreStage::AwaitFinalAppInfo => match outcome {
                RestoreOutcome::AppInfo(AppInfoAnswer::Found(_)) => {
                    self.stage = RestoreStage::Finished;
                    RestoreAction::Done
                },
                RestoreOutcome::AppInfo(AppInfoAnswer::Missing) => {
                    self.stage = RestoreStage::Finished;
                    RestoreAction::Failed(RestoreError::AppMissing)
                },
                RestoreOutcome::AppInfo(AppInfoAnswer::Failed(m)) => {
                    self.stage = RestoreStage::Finished;
                    RestoreAction::Failed(RestoreError::AppInfoFailed(m))
                },
                _ => RestoreAction::GetAppInfo,
            },
            RestoreStage::Finished => RestoreAction::Done,
        }
    }
}

} // verus!
