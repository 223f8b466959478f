//! The submodule synchronization sequence. Submodules are taken one at a
//! time, in enumeration order, each through link repair, initialization and a
//! forced update; any failure is fatal to the whole run. The decisions live
//! here; the caller performs each action and reports back.

use vstd::prelude::*;
use vstd::string::*;

verus! {

/// Where a submodule stands in its synchronization.
#[derive(Clone, Copy, Debug, PartialEq, Eq, Structural)]
pub enum Stage {
    Declared,
    LinkRepaired,
    Initialized,
    Synchronized,
}

/// The next thing to do, for the submodule at the given enumeration index.
#[derive(Clone, Copy, Debug, PartialEq, Eq, Structural)]
pub enum Action {
    RepairLink(usize),
    Initialize(usize),
    Update(usize),
    Finished,
    /// A step failed: the run is over and nothing more is to be done.
    Aborted,
}

/// A synchronization run over `count` submodules: those before `index` are
/// synchronized, the one at `index` is at `stage`, the rest are untouched.
/// Once a step has failed the run is `aborted` for good.
#[derive(Clone, Copy, Debug)]
pub struct SyncRun {
    pub count: usize,
    pub index: usize,
    pub stage: Stage,
    pub aborted: bool,
}

/// The checkout policy used to update a submodule: local changes inside a
/// submodule are never preserved.
#[derive(Clone, Copy, Debug, PartialEq, Eq, Structural)]
pub struct CheckoutPolicy {
    /// Overwrite local modifications.
    pub force: bool,
    /// Prefer the incoming version over any local divergence.
    pub use_theirs: bool,
    /// Recreate files that were deleted locally.
    pub recreate_missing: bool,
    /// Update the index while checking out.
    pub update_index: bool,
    /// Reload the index and attributes from disk first.
    pub refresh: bool,
    /// Fetch from the remote when the target commit is not present locally.
    pub allow_fetch: bool,
}

/// The policy every submodule update uses.
pub fn checkout_policy() -> (r: CheckoutPolicy)
    ensures
        r.force && r.use_theirs && r.recreate_missing,
        r.update_index && r.refresh && r.allow_fetch,
{
    CheckoutPolicy {
        force: true,
        use_theirs: true,
        recreate_missing: true,
        update_index: true,
        refresh: true,
        allow_fetch: true,
    }
}

impl SyncRun {
    /// The run's bookkeeping is consistent: a run that has passed every
    /// submodule holds no submodule in progress.
    pub open spec fn wf(self) -> bool {
        &&& self.index <= self.count
        &&& self.stage != Stage::Synchronized
        &&& self.index == self.count ==> self.stage == Stage::Declared
    }

    /// Where submodule `i` stands.
    pub open spec fn stage_of(self, i: int) -> Stage {
        if i < self.index {
            Stage::Synchronized
        } else if i == self.index {
            self.stage
        } else {
            Stage::Declared
        }
    }

    /// The action the run asks for.
    pub open spec fn action(self) -> Action {
        if self.aborted {
            Action::Aborted
        } else if self.index >= self.count {
            Action::Finished
        } else {
            match self.stage {
                Stage::Declared => Action::RepairLink(self.index),
                Stage::LinkRepaired => Action::Initialize(self.index),
                _ => Action::Update(self.index),
            }
        }
    }

    /// The run once the current action has succeeded.
    pub open spec fn advanced(self) -> SyncRun {
        match self.stage {
            Stage::Declared => SyncRun { stage: Stage::LinkRepaired, ..self },
            Stage::LinkRepaired => SyncRun { stage: Stage::Initialized, ..self },
            _ => SyncRun { index: (self.index + 1) as usize, stage: Stage::Declared, ..self },
        }
    }

    /// The number of actions still to perform.
    pub open spec fn remaining(self) -> nat {
        let done: int = match self.stage {
            Stage::Declared => 0,
            Stage::LinkRepaired => 1,
            _ => 2,
        };
        (3 * (self.count - self.index) - done) as nat
    }

    /// A run over `count` submodules, none started.
    pub fn new(count: usize) -> (r: SyncRun)
        ensures
            r.wf(),
            r.count == count,
            !r.aborted,
            forall|i: int| 0 <= i < count ==> r.stage_of(i) == Stage::Declared,
    {
        SyncRun { count, index: 0, stage: Stage::Declared, aborted: false }
    }

    /// What to do next.
    pub fn next_action(&self) -> (r: Action)
        requires
            self.wf(),
        ensures
            r == self.action(),
    {
        if self.aborted {
            Action::Aborted
        } else if self.index >= self.count {
            Action::Finished
        } else {
            match self.stage {
                Stage::Declared => Action::RepairLink(self.index),
                Stage::LinkRepaired => Action::Initialize(self.index),
                _ => Action::Update(self.index),
            }
        }
    }

    /// Records the outcome of the current action. A success moves the run on;
    /// a failure aborts it and is handed back, since no failure at this layer
    /// is retried or skipped.
    pub fn record(&mut self, outcome: Result<(), SyncError>) -> (r: Result<(), SyncError>)
        requires
            old(self).wf(),
            !old(self).aborted,
            old(self).index < old(self).count,
        ensures
            final(self).wf(),
            r == outcome,
            outcome is Ok ==> *final(self) == old(self).advanced(),
            outcome is Ok ==> final(self).remaining() + 1 == old(self).remaining(),
            outcome is Err ==> final(self).aborted && final(self).action() == Action::Aborted,
    {
        if outcome.is_ok() {
            match self.stage {
                Stage::Declared => {
                    self.stage = Stage::LinkRepaired;
                },
                Stage::LinkRepaired => {
                    self.stage = Stage::Initialized;
                },
                _ => {
                    self.index = self.index + 1;
                    self.stage = Stage::Declared;
                },
            }
        } else {
            self.aborted = true;
        }
        outcome
    }
}

/// Each success moves exactly the current submodule one stage on, in the
/// order link repair, initialization, update; no other submodule changes.
pub proof fn lemma_one_submodule_advances(run: SyncRun)
    requires
        run.wf(),
        run.index < run.count,
    ensures
        forall|i: int| i != run.index ==> run.advanced().stage_of(i) == run.stage_of(i),
        run.stage == Stage::Declared ==> run.advanced().stage_of(run.index as int)
            == Stage::LinkRepaired,
        run.stage == Stage::LinkRepaired ==> run.advanced().stage_of(run.index as int)
            == Stage::Initialized,
        run.stage == Stage::Initialized ==> run.advanced().stage_of(run.index as int)
            == Stage::Synchronized,
{
}

/// An aborted run never finishes: it reports no success for any run in
/// which a step failed.
pub proof fn lemma_failure_is_fatal(run: SyncRun)
    requires
        run.aborted,
    ensures
        run.action() == Action::Aborted,
        run.action() != Action::Finished,
{
}

/// A run that asks for nothing more has synchronized every submodule.
pub proof fn lemma_finished_means_synchronized(run: SyncRun)
    requires
        run.wf(),
        run.action() == Action::Finished,
    ensures
        forall|i: int| 0 <= i < run.count ==> run.stage_of(i) == Stage::Synchronized,
{
}

/// Why a synchronization run stopped. Every one of these is fatal: a
/// partially synchronized dependency tree is not safe to build against.
#[derive(Debug)]
pub enum SyncError {
    OpenRepository { detail: String },
    ListSubmodules { detail: String },
    ReadConfig { detail: String },
    CreateDir { path: String, detail: String },
    WriteGitlink { path: String, detail: String },
    Initialize { name: String, detail: String },
    Update { name: String, detail: String },
}

/// The text of an error: the operation, the path or submodule it concerns,
/// and the underlying cause.
pub open spec fn error_text(e: SyncError) -> Seq<char> {
    match e {
        SyncError::OpenRepository { detail } => "failed to open git repo: "@ + detail@,
        SyncError::ListSubmodules { detail } => "failed to find submodules: "@ + detail@,
        SyncError::ReadConfig { detail } => "failed to read the repository configuration: "@
            + detail@,
        SyncError::CreateDir { path, detail } => "failed to create submodule dir "@ + path@
            + ": "@ + detail@,
        SyncError::WriteGitlink { path, detail } => "failed to write .git file "@ + path@
            + ": "@ + detail@,
        SyncError::Initialize { name, detail } => "failed to initialize submodule "@ + name@
            + ": "@ + detail@,
        SyncError::Update { name, detail } => "failed to update submodule "@ + name@ + ": "@
            + detail@,
    }
}

fn joined(prefix: &str, subject: &str, detail: &str) -> (r: String)
    ensures
        r@ == prefix@ + subject@ + ": "@ + detail@,
{
    let mut s = String::from_str(prefix);
    s.append(subject);
    s.append(": ");
    s.append(detail);
    s
}

impl SyncError {
    /// The error as a message for the user.
    pub fn message(&self) -> (r: String)
        ensures
            r@ == error_text(*self),
    {
        match self {
            SyncError::OpenRepository { detail } => {
                let mut s = String::from_str("failed to open git repo: ");
                s.append(detail.as_str());
                s
            },
            SyncError::ListSubmodules { detail } => {
                let mut s = String::from_str("failed to find submodules: ");
                s.append(detail.as_str());
                s
            },
            SyncError::ReadConfig { detail } => {
                let mut s = String::from_str("failed to read the repository configuration: ");
                s.append(detail.as_str());
                s
            },
            SyncError::CreateDir { path, detail } => joined(
                "failed to create submodule dir ",
                path.as_str(),
                detail.as_str(),
            ),
            SyncError::WriteGitlink { path, detail } => joined(
                "failed to write .git file ",
                path.as_str(),
                detail.as_str(),
            ),
            SyncError::Initialize { name, detail } => joined(
                "failed to initialize submodule ",
                name.as_str(),
                detail.as_str(),
            ),
            SyncError::Update { name, detail } => joined(
                "failed to update submodule ",
                name.as_str(),
                detail.as_str(),
            ),
        }
    }
}

} // verus!
