//! Making and removing worktrees.
//!
//! Each of the three things that can be done is a state with an action to
//! perform and a step that takes what came of it.
use crate::context::Context;
use crate::text::path_text;
use crate::text::same_text;
use crate::text::text_of_path;
use crate::version::is_digit;
use vstd::prelude::*;

verus! {

/// The last second that a date can be given to.
pub const LAST_SECOND: i64 = 8_210_266_876_799;

/// The text of a moment in UTC in a format, where the moment is given in
/// seconds since the epoch: what formatting a `chrono::DateTime` gives.
pub uninterp spec fn utc_text(seconds: int, format: Seq<char>) -> Seq<char>;

/// Day, month, year, hour and minute, with an underscore between each two. All
/// are made of digits, two of them but for the year; a year that has more than
/// four bears a sign.
pub open spec fn is_minute_stamp(text: Seq<char>) -> bool {
    let n = text.len();
    &&& n >= 16
    &&& is_digit(text[0]) && is_digit(text[1]) && text[2] == '_'
    &&& is_digit(text[3]) && is_digit(text[4]) && text[5] == '_'
    &&& forall|i: int|
        6 <= i < n - 6 ==> is_digit(#[trigger] text[i]) || text[i] == '+' || text[i] == '-'
    &&& text[n - 6] == '_' && is_digit(text[n - 5]) && is_digit(text[n - 4])
    &&& text[n - 3] == '_' && is_digit(text[n - 2]) && is_digit(text[n - 1])
}

/// Calls `chrono::Utc::now` and takes its seconds since the epoch. It does not
/// give a moment before the epoch, nor one that has no date.
#[verifier::external_body]
fn now_seconds() -> (seconds: i64)
    ensures
        0 <= seconds <= LAST_SECOND,
{
    chrono::Utc::now().timestamp()
}

/// Calls `format` of a `chrono::DateTime` in UTC, which depends on the moment
/// and the format alone: in this format it gives a minute stamp.
#[verifier::external_body]
fn format_utc(seconds: i64, format: &str) -> (text: String)
    requires
        0 <= seconds <= LAST_SECOND,
        format@ == "%d_%m_%Y_%H_%M"@,
    ensures
        text@ == utc_text(seconds as int, format@),
        is_minute_stamp(text@),
{
    chrono::DateTime::from_timestamp(seconds, 0).unwrap().format(format).to_string()
}

/// The minute of a moment, as a worktree is called that was given no other name.
pub fn minute_stamp(seconds: i64) -> (text: String)
    requires
        0 <= seconds <= LAST_SECOND,
    ensures
        text@ == utc_text(seconds as int, "%d_%m_%Y_%H_%M"@),
        is_minute_stamp(text@),
{
    format_utc(seconds, "%d_%m_%Y_%H_%M")
}

/// How far the making of a worktree has come.
#[derive(Debug, Clone, Copy, PartialEq, Eq, Structural)]
pub enum TempPhase {
    /// The worktrees of the repository have to be listed.
    Listing,
    /// The worktree that has the name already has to be found.
    Finding,
    /// The worktree has to be created.
    Creating,
    /// The worktree is there.
    Created,
    /// A step failed.
    Failed(Context),
}

/// The making of a temporary worktree. `S` is the type of its texts.
#[derive(Debug)]
pub struct TempWorktree<S> {
    /// The name of the worktree.
    pub name: S,
    /// The path that it will be at.
    pub path: S,
    /// How far it has come.
    pub phase: TempPhase,
}

/// What has to be done to make a worktree. `S` is the type of its texts.
#[derive(Debug, PartialEq, Eq)]
pub enum TempAction<S> {
    /// List the worktrees of the repository.
    ListWorktrees,
    /// Find the worktree of this name.
    FindWorktree(S),
    /// Create a worktree.
    CreateWorktree { name: S, path: S },
    /// Nothing: it is over.
    Stop,
}

/// What came of an action.
#[derive(Debug)]
pub enum TempEvent {
    /// It failed.
    Failed,
    /// It was done.
    Done,
    /// The names of the worktrees, each `None` if it is not UTF-8.
    Listed(Vec<Option<String>>),
}

impl View for TempWorktree<String> {
    type V = TempWorktree<Seq<char>>;

    open spec fn view(&self) -> TempWorktree<Seq<char>> {
        TempWorktree { name: self.name@, path: self.path@, phase: self.phase }
    }
}

impl View for TempAction<String> {
    type V = TempAction<Seq<char>>;

    open spec fn view(&self) -> TempAction<Seq<char>> {
        match *self {
            TempAction::ListWorktrees => TempAction::ListWorktrees,
            TempAction::FindWorktree(name) => TempAction::FindWorktree(name@),
            TempAction::CreateWorktree { name, path } => TempAction::CreateWorktree {
                name: name@,
                path: path@,
            },
            TempAction::Stop => TempAction::Stop,
        }
    }
}

/// Whether a name is among those that were listed.
pub open spec fn is_among(names: Seq<Option<String>>, name: Seq<char>) -> bool {
    exists|i: int| 0 <= i < names.len() && #[trigger] names[i] is Some && names[i]->Some_0@ == name
}

fn among(names: &Vec<Option<String>>, name: &str) -> (found: bool)
    ensures
        found == is_among(names@, name@),
{
    let mut i: usize = 0;
    while i < names.len()
        invariant
            i <= names.len(),
            forall|j: int|
                0 <= j < i ==> !(#[trigger] names@[j] is Some && names@[j]->Some_0@ == name@),
        decreases names.len() - i,
    {
        if let Some(listed) = &names[i] {
            if same_text(listed.as_str(), name) {
                return true;
            }
        }
        i = i + 1;
    }
    false
}

impl TempWorktree<Seq<char>> {
    /// What has to be done next.
    pub open spec fn action(self) -> TempAction<Seq<char>> {
        match self.phase {
            TempPhase::Listing => TempAction::ListWorktrees,
            TempPhase::Finding => TempAction::FindWorktree(self.name),
            TempPhase::Creating => TempAction::CreateWorktree { name: self.name, path: self.path },
            _ => TempAction::Stop,
        }
    }

    /// Whether the event answers the action.
    pub open spec fn accepts(self, event: TempEvent) -> bool {
        match self.phase {
            TempPhase::Listing => event is Failed || event is Listed,
            TempPhase::Finding => event is Failed || event is Done,
            TempPhase::Creating => event is Failed || event is Done,
            _ => false,
        }
    }

    /// The state after an event. A worktree that has the name already is found
    /// first, and then the new one is created all the same.
    pub open spec fn next(self, event: TempEvent) -> TempWorktree<Seq<char>> {
        let phase = match self.phase {
            TempPhase::Listing => match event {
                TempEvent::Listed(names) => if is_among(names@, self.name) {
                    TempPhase::Finding
                } else {
                    TempPhase::Creating
                },
                _ => TempPhase::Failed(Context::GetWorktrees),
            },
            TempPhase::Finding => if event is Done {
                TempPhase::Creating
            } else {
                TempPhase::Failed(Context::FindWorktree)
            },
            TempPhase::Creating => if event is Done {
                TempPhase::Created
            } else {
                TempPhase::Failed(Context::CreateWorktree)
            },
            over => over,
        };
        TempWorktree { phase, ..self }
    }
}

/// A path in the directory for temporary files.
pub open spec fn temp_path(suffix: Seq<char>) -> Seq<char> {
    "/tmp/"@ + suffix
}

/// Begins to make a worktree called `name` in the directory for temporary
/// files, at a path that is called `suffix`.
pub fn temp_worktree_at(suffix: &str, name: &str) -> (worktree: TempWorktree<String>)
    ensures
        worktree@ == (TempWorktree {
            name: name@,
            path: temp_path(suffix@),
            phase: TempPhase::Listing,
        }),
{
    let mut path: String = "/tmp/".to_owned();
    path.append(suffix);
    TempWorktree { name: name.to_owned(), path, phase: TempPhase::Listing }
}

/// Begins to make a worktree called `name` in the directory for temporary
/// files. Where no path is given in that directory, it is called by the minute.
pub fn temp_worktree(path: Option<&str>, name: &str) -> (worktree: TempWorktree<String>)
    ensures
        worktree@.name == name@,
        worktree@.phase == TempPhase::Listing,
        path matches Some(path) ==> worktree@.path == temp_path(path@),
        path is None ==> exists|seconds: int|
            0 <= seconds <= LAST_SECOND && is_minute_stamp(
                #[trigger] utc_text(seconds, "%d_%m_%Y_%H_%M"@),
            ) && worktree@.path == temp_path(utc_text(seconds, "%d_%m_%Y_%H_%M"@)),
{
    match path {
        Some(path) => temp_worktree_at(path, name),
        None => {
            let stamp: String = minute_stamp(now_seconds());
            temp_worktree_at(stamp.as_str(), name)
        },
    }
}

impl TempWorktree<String> {
    /// What has to be done next.
    pub fn action(&self) -> (action: TempAction<String>)
        ensures
            action@ == self@.action(),
    {
        match self.phase {
            TempPhase::Listing => TempAction::ListWorktrees,
            TempPhase::Finding => TempAction::FindWorktree(self.name.clone()),
            TempPhase::Creating => TempAction::CreateWorktree {
                name: self.name.clone(),
                path: self.path.clone(),
            },
            _ => TempAction::Stop,
        }
    }

    /// The state after an event.
    pub fn step(self, event: TempEvent) -> (next: TempWorktree<String>)
        requires
            self@.accepts(event),
        ensures
            next@ == self@.next(event),
    {
        let phase: TempPhase = match (self.phase, event) {
            (TempPhase::Listing, TempEvent::Listed(names)) => if among(&names, self.name.as_str()) {
                TempPhase::Finding
            } else {
                TempPhase::Creating
            },
            (TempPhase::Listing, _) => TempPhase::Failed(Context::GetWorktrees),
            (TempPhase::Finding, TempEvent::Done) => TempPhase::Creating,
            (TempPhase::Finding, _) => TempPhase::Failed(Context::FindWorktree),
            (TempPhase::Creating, TempEvent::Done) => TempPhase::Created,
            (TempPhase::Creating, _) => TempPhase::Failed(Context::CreateWorktree),
            (phase, _) => phase,
        };
        TempWorktree { name: self.name, path: self.path, phase }
    }
}

/// A worktree that is called by the minute lies directly in the directory for
/// temporary files: no part of its name reads as another directory.
pub proof fn minute_stamp_is_one_name(text: Seq<char>, i: int)
    requires
        is_minute_stamp(text),
        0 <= i < text.len(),
    ensures
        text[i] != '/',
        text[i] != '.',
{
    if 6 <= i < text.len() - 6 {
        assert(is_digit(text[i]) || text[i] == '+' || text[i] == '-');
    }
}

/// However the making of a worktree goes, its name and its path stay, and the
/// only worktree that is created is the one that was asked for.
pub proof fn temp_worktree_is_the_one_asked_for(worktree: TempWorktree<Seq<char>>, event: TempEvent)
    ensures
        worktree.next(event).name == worktree.name,
        worktree.next(event).path == worktree.path,
        worktree.action() matches TempAction::CreateWorktree { name, path } ==> name
            == worktree.name && path == worktree.path,
        worktree.accepts(event) && worktree.next(event).phase is Created ==> worktree.action()
            == (TempAction::CreateWorktree { name: worktree.name, path: worktree.path }),
{
}

/// How far the removal of a worktree has come.
#[derive(Debug, Clone, Copy, PartialEq, Eq, Structural)]
pub enum TeardownPhase {
    /// The repository in the worktree has to be opened.
    Opening,
    /// Its head has to be detached, so that no branch is in use.
    Detaching,
    /// The branch of the worktree has to be deleted.
    DeletingBranch,
    /// The worktree has to be pruned.
    Pruning,
    /// It is over.
    Over,
}

/// The removal of a worktree that is no longer needed. `S` is the type of its texts.
#[derive(Debug)]
pub struct Teardown<S> {
    /// The branch that was made for the worktree.
    pub branch: S,
    /// How far the removal has come.
    pub phase: TeardownPhase,
}

/// What has to be done to remove a worktree. `S` is the type of its texts.
#[derive(Debug, PartialEq, Eq)]
pub enum TeardownAction<S> {
    /// Open the repository in the worktree.
    OpenRepo,
    /// Detach its head at the commit that it is at.
    DetachHead,
    /// Delete the local branch of this name.
    DeleteBranch(S),
    /// Prune the worktree together with its files, though it is valid.
    Prune,
    /// Nothing: it is over.
    Stop,
}

impl View for Teardown<String> {
    type V = Teardown<Seq<char>>;

    open spec fn view(&self) -> Teardown<Seq<char>> {
        Teardown { branch: self.branch@, phase: self.phase }
    }
}

impl View for TeardownAction<String> {
    type V = TeardownAction<Seq<char>>;

    open spec fn view(&self) -> TeardownAction<Seq<char>> {
        match *self {
            TeardownAction::OpenRepo => TeardownAction::OpenRepo,
            TeardownAction::DetachHead => TeardownAction::DetachHead,
            TeardownAction::DeleteBranch(branch) => TeardownAction::DeleteBranch(branch@),
            TeardownAction::Prune => TeardownAction::Prune,
            TeardownAction::Stop => TeardownAction::Stop,
        }
    }
}

impl Teardown<Seq<char>> {
    /// What has to be done next.
    pub open spec fn action(self) -> TeardownAction<Seq<char>> {
        match self.phase {
            TeardownPhase::Opening => TeardownAction::OpenRepo,
            TeardownPhase::Detaching => TeardownAction::DetachHead,
            TeardownPhase::DeletingBranch => TeardownAction::DeleteBranch(self.branch),
            TeardownPhase::Pruning => TeardownAction::Prune,
            TeardownPhase::Over => TeardownAction::Stop,
        }
    }

    /// The removal after an action that was `done` or failed. Only a repository
    /// that does not open ends it; what fails later is passed over.
    pub open spec fn next(self, done: bool) -> Teardown<Seq<char>> {
        let phase = match self.phase {
            TeardownPhase::Opening => if done {
                TeardownPhase::Detaching
            } else {
                TeardownPhase::Over
            },
            TeardownPhase::Detaching => TeardownPhase::DeletingBranch,
            TeardownPhase::DeletingBranch => TeardownPhase::Pruning,
            TeardownPhase::Pruning => TeardownPhase::Over,
            TeardownPhase::Over => TeardownPhase::Over,
        };
        Teardown { phase, ..self }
    }
}

impl Teardown<String> {
    /// Begins to remove the worktree called `name`, which is `None` if it is not UTF-8.
    pub fn new(name: Option<String>) -> (teardown: Teardown<String>)
        ensures
            teardown@ == (Teardown { branch: path_text(name), phase: TeardownPhase::Opening }),
    {
        Teardown { branch: text_of_path(name), phase: TeardownPhase::Opening }
    }

    /// What has to be done next.
    pub fn action(&self) -> (action: TeardownAction<String>)
        ensures
            action@ == self@.action(),
    {
        match self.phase {
            TeardownPhase::Opening => TeardownAction::OpenRepo,
            TeardownPhase::Detaching => TeardownAction::DetachHead,
            TeardownPhase::DeletingBranch => TeardownAction::DeleteBranch(self.branch.clone()),
            TeardownPhase::Pruning => TeardownAction::Prune,
            TeardownPhase::Over => TeardownAction::Stop,
        }
    }

    /// The removal after an action that was `done` or failed.
    pub fn step(self, done: bool) -> (next: Teardown<String>)
        ensures
            next@ == self@.next(done),
    {
        let phase: TeardownPhase = match self.phase {
            TeardownPhase::Opening => if done {
                TeardownPhase::Detaching
            } else {
                TeardownPhase::Over
            },
            TeardownPhase::Detaching => TeardownPhase::DeletingBranch,
            TeardownPhase::DeletingBranch => TeardownPhase::Pruning,
            TeardownPhase::Pruning => TeardownPhase::Over,
            TeardownPhase::Over => TeardownPhase::Over,
        };
        Teardown { branch: self.branch, phase }
    }
}

/// A worktree whose repository opens is pruned, after its branch has been dealt
/// with, whatever fails on the way; one whose repository does not open is left
/// as it is.
pub proof fn opened_worktree_is_pruned(
    teardown: Teardown<Seq<char>>,
    detached: bool,
    deleted: bool,
    pruned: bool,
)
    requires
        teardown.phase is Opening,
    ensures
        ({
            let opened = teardown.next(true);
            &&& opened.action() is DetachHead
            &&& opened.next(detached).action() == TeardownAction::DeleteBranch(teardown.branch)
            &&& opened.next(detached).next(deleted).action() is Prune
            &&& opened.next(detached).next(deleted).next(pruned).action() is Stop
        }),
        teardown.next(false).action() is Stop,
{
}

/// How far the deletion of what is left of an earlier worktree has come.
#[derive(Debug, Clone, Copy, PartialEq, Eq, Structural)]
pub enum Deletion {
    /// The path has to be opened.
    Opening,
    /// What is there has to be inspected.
    Inspecting,
    /// The directory that is there has to be removed, with all that is in it.
    RemovingDir,
    /// The file that is there has to be removed.
    RemovingFile,
    /// There is nothing at the path any more.
    Deleted,
    /// A step failed. Its error is passed on, with the context if there is one.
    Failed(Option<Context>),
}

/// What came of a step of a deletion.
#[derive(Debug, Clone, Copy, PartialEq, Eq, Structural)]
pub enum DeletionEvent {
    /// There is nothing at the path.
    NotFound,
    /// The step failed for another reason.
    Failed,
    /// The step was done.
    Done,
    /// What is at the path is a directory, or is something else.
    Inspected { is_dir: bool },
}

impl Deletion {
    /// Whether the event answers the step.
    pub open spec fn accepts(self, event: DeletionEvent) -> bool {
        match self {
            Deletion::Opening => !(event is Inspected),
            Deletion::Inspecting => event is Inspected || event is Failed,
            Deletion::RemovingDir => event is Done || event is Failed,
            Deletion::RemovingFile => event is Done || event is Failed,
            Deletion::Deleted => false,
            Deletion::Failed(_) => false,
        }
    }

    /// The deletion after an event.
    pub open spec fn next(self, event: DeletionEvent) -> Deletion {
        match (self, event) {
            (Deletion::Opening, DeletionEvent::NotFound) => Deletion::Deleted,
            (Deletion::Opening, DeletionEvent::Done) => Deletion::Inspecting,
            (Deletion::Opening, _) => Deletion::Failed(None),
            (Deletion::Inspecting, DeletionEvent::Inspected { is_dir }) => if is_dir {
                Deletion::RemovingDir
            } else {
                Deletion::RemovingFile
            },
            (Deletion::Inspecting, _) => Deletion::Failed(None),
            (Deletion::RemovingDir, DeletionEvent::Done) => Deletion::Deleted,
            (Deletion::RemovingDir, _) => Deletion::Failed(Some(Context::DeletePackageDir)),
            (Deletion::RemovingFile, DeletionEvent::Done) => Deletion::Deleted,
            (Deletion::RemovingFile, _) => Deletion::Failed(Some(Context::DeletePackageFile)),
            (over, _) => over,
        }
    }

    /// The deletion after an event.
    pub fn step(self, event: DeletionEvent) -> (next: Deletion)
        requires
            self.accepts(event),
        ensures
            next == self.next(event),
    {
        match (self, event) {
            (Deletion::Opening, DeletionEvent::NotFound) => Deletion::Deleted,
            (Deletion::Opening, DeletionEvent::Done) => Deletion::Inspecting,
            (Deletion::Opening, _) => Deletion::Failed(None),
            (Deletion::Inspecting, DeletionEvent::Inspected { is_dir }) => if is_dir {
                Deletion::RemovingDir
            } else {
                Deletion::RemovingFile
            },
            (Deletion::Inspecting, _) => Deletion::Failed(None),
            (Deletion::RemovingDir, DeletionEvent::Done) => Deletion::Deleted,
            (Deletion::RemovingDir, _) => Deletion::Failed(Some(Context::DeletePackageDir)),
            (Deletion::RemovingFile, DeletionEvent::Done) => Deletion::Deleted,
            (Deletion::RemovingFile, _) => Deletion::Failed(Some(Context::DeletePackageFile)),
            (over, _) => over,
        }
    }
}

/// Begins to delete what is left of an earlier worktree.
pub fn delete_existing_worktree() -> (deletion: Deletion)
    ensures
        deletion == Deletion::Opening,
{
    Deletion::Opening
}

/// Something is removed only after it was seen to be there, as a directory only
/// if it is one; and a deletion succeeds only when nothing was there or what was
/// there has been removed.
pub proof fn deletion_removes_what_is_there(deletion: Deletion, event: DeletionEvent)
    requires
        deletion.accepts(event),
    ensures
        deletion.next(event) is RemovingDir <==> deletion is Inspecting && event
            == (DeletionEvent::Inspected { is_dir: true }),
        deletion.next(event) is RemovingFile <==> deletion is Inspecting && event
            == (DeletionEvent::Inspected { is_dir: false }),
        deletion.next(event) is Deleted <==> {
            ||| deletion is Opening && event is NotFound
            ||| deletion is RemovingDir && event is Done
            ||| deletion is RemovingFile && event is Done
        },
        deletion.next(event) is Failed <==> event is Failed,
{
}

/// A worktree that is asked for is made as soon as the worktrees are listed,
/// unless one of those that have a readable name bears exactly its name: that
/// one is found first.
pub proof fn worktree_of_the_same_name_is_found_first(
    worktree: TempWorktree<Seq<char>>,
    names: Vec<Option<String>>,
)
    requires
        worktree.phase is Listing,
    ensures
        worktree.action() is ListWorktrees,
        (exists|k: int|
            0 <= k < names@.len() && (#[trigger] names@[k]) is Some && names@[k]->Some_0@
                == worktree.name) ==> worktree.next(TempEvent::Listed(names)).action()
            == TempAction::FindWorktree(worktree.name),
        (forall|k: int|
            0 <= k < names@.len() && (#[trigger] names@[k]) is Some ==> names@[k]->Some_0@
                != worktree.name) ==> worktree.next(TempEvent::Listed(names)).action() == (
        TempAction::CreateWorktree { name: worktree.name, path: worktree.path }),
{
}

/// What is said of each step that fails while a worktree is made, and what
/// comes after each that is done.
pub proof fn making_a_worktree_goes_step_by_step(worktree: TempWorktree<Seq<char>>)
    ensures
        worktree.action() is ListWorktrees ==> worktree.next(TempEvent::Failed).phase
            == TempPhase::Failed(Context::GetWorktrees),
        worktree.action() is FindWorktree ==> worktree.next(TempEvent::Failed).phase
            == TempPhase::Failed(Context::FindWorktree) && worktree.next(TempEvent::Done).action()
            == (TempAction::CreateWorktree { name: worktree.name, path: worktree.path }),
        worktree.action() is CreateWorktree ==> worktree.next(TempEvent::Failed).phase
            == TempPhase::Failed(Context::CreateWorktree) && worktree.next(
            TempEvent::Done,
        ).phase is Created,
        worktree.action() is Stop <==> worktree.phase is Created || worktree.phase is Failed,
{
}

/// The answers that the making of a worktree takes.
pub proof fn making_a_worktree_takes_its_answers(
    worktree: TempWorktree<Seq<char>>,
    event: TempEvent,
)
    ensures
        worktree.action() is ListWorktrees ==> (worktree.accepts(event) <==> event is Listed
            || event is Failed),
        worktree.action() is FindWorktree || worktree.action() is CreateWorktree ==> (
        worktree.accepts(event) <==> event is Done || event is Failed),
        worktree.action() is Stop ==> !worktree.accepts(event),
{
}

/// What is said of a deletion that fails, and which answers it takes.
pub proof fn failed_deletion_is_told_by_its_step(event: DeletionEvent)
    ensures
        Deletion::Opening.next(DeletionEvent::Failed) == Deletion::Failed(None),
        Deletion::Inspecting.next(DeletionEvent::Failed) == Deletion::Failed(None),
        Deletion::RemovingDir.next(DeletionEvent::Failed) == Deletion::Failed(
            Some(Context::DeletePackageDir),
        ),
        Deletion::RemovingFile.next(DeletionEvent::Failed) == Deletion::Failed(
            Some(Context::DeletePackageFile),
        ),
        Deletion::Opening.next(DeletionEvent::Done) is Inspecting,
        Deletion::Opening.accepts(event) <==> event is NotFound || event is Done || event is Failed,
        Deletion::Inspecting.accepts(event) <==> event is Inspected || event is Failed,
        Deletion::RemovingDir.accepts(event) <==> event is Done || event is Failed,
        Deletion::RemovingFile.accepts(event) <==> event is Done || event is Failed,
        !Deletion::Deleted.accepts(event),
{
}

/// The removal of a worktree begins with its repository.
pub proof fn removal_begins_with_the_repository(teardown: Teardown<Seq<char>>, done: bool)
    ensures
        teardown.phase is Opening ==> teardown.action() is OpenRepo,
        teardown.next(done).branch == teardown.branch,
        teardown.action() is Stop ==> teardown.next(done).action() is Stop,
{
}

/// What is done for worktrees is seen with the texts that it has.
pub proof fn worktree_actions_are_seen_as_they_are(a: String, b: String)
    ensures
        TempAction::FindWorktree(a)@ == TempAction::FindWorktree(a@),
        (TempAction::CreateWorktree { name: a, path: b })@ == (TempAction::CreateWorktree {
            name: a@,
            path: b@,
        }),
        TempAction::<String>::ListWorktrees@ is ListWorktrees,
        TempAction::<String>::Stop@ is Stop,
        TeardownAction::DeleteBranch(a)@ == TeardownAction::DeleteBranch(a@),
        TeardownAction::<String>::OpenRepo@ is OpenRepo,
        TeardownAction::<String>::DetachHead@ is DetachHead,
        TeardownAction::<String>::Prune@ is Prune,
        TeardownAction::<String>::Stop@ is Stop,
{
}

/// A worktree that is being made or removed is seen with its own texts.
pub proof fn worktrees_are_seen_as_they_are(worktree: TempWorktree<String>, teardown: Teardown<String>)
    ensures
        worktree@.name == worktree.name@ && worktree@.path == worktree.path@,
        worktree@.phase == worktree.phase,
        teardown@.branch == teardown.branch@ && teardown@.phase == teardown.phase,
{
}

/// A path in the directory for temporary files begins with that directory and
/// goes on with the whole suffix, and different suffixes give different paths.
pub proof fn temp_path_has_the_whole_suffix(suffix: Seq<char>, other: Seq<char>)
    ensures
        temp_path(suffix).len() == suffix.len() + 5,
        temp_path(suffix).take(5) == seq!['/', 't', 'm', 'p', '/'],
        temp_path(suffix).skip(5) == suffix,
        temp_path(suffix) == temp_path(other) ==> suffix == other,
{
    reveal_strlit("/tmp/");
    assert(temp_path(suffix).take(5) =~= seq!['/', 't', 'm', 'p', '/']);
    assert(temp_path(suffix).skip(5) =~= suffix);
    assert(temp_path(other).skip(5) =~= other);
}

} // verus!
