//! The single capture slot: which user holds it, for what kind of task, and
//! the handle of the process that serves it. A slot holds at most one task
//! by construction; starting and stopping are its only writers.
use vstd::prelude::*;
use crate::text::{is_blank, trimmed, trim_text, same_text};

verus! {

/// What the capture process was started for.
#[derive(Clone, Copy, Debug, PartialEq, Eq, Structural)]
pub enum TaskKind {
    Record,
    Stream,
}

/// The task kind named by a mode text: `record` or `stream`.
pub open spec fn kind_named(mode: Seq<char>) -> Option<TaskKind> {
    if mode == seq!['r', 'e', 'c', 'o', 'r', 'd'] {
        Some(TaskKind::Record)
    } else if mode == seq!['s', 't', 'r', 'e', 'a', 'm'] {
        Some(TaskKind::Stream)
    } else {
        None
    }
}

impl TaskKind {
    /// The kind named by `mode` (`record` or `stream`), if any.
    pub fn from_label(mode: &str) -> (r: Option<TaskKind>)
        ensures
            r == kind_named(mode@),
    {
        proof {
            reveal_strlit("record");
            reveal_strlit("stream");
            assert("record"@ =~= seq!['r', 'e', 'c', 'o', 'r', 'd']);
            assert("stream"@ =~= seq!['s', 't', 'r', 'e', 'a', 'm']);
        }
        if same_text(mode, "record") {
            Some(TaskKind::Record)
        } else if same_text(mode, "stream") {
            Some(TaskKind::Stream)
        } else {
            None
        }
    }

    /// The mode text of this kind.
    pub fn label(&self) -> (r: &'static str)
        ensures
            kind_named(r@) == Some(*self),
    {
        proof {
            reveal_strlit("record");
            reveal_strlit("stream");
            assert("record"@ =~= seq!['r', 'e', 'c', 'o', 'r', 'd']);
            assert("stream"@ =~= seq!['s', 't', 'r', 'e', 'a', 'm']);
        }
        match self {
            TaskKind::Record => "record",
            TaskKind::Stream => "stream",
        }
    }
}

/// Why a configured capture binary cannot be used.
#[derive(Clone, Debug, PartialEq, Eq)]
pub enum CliProblem {
    /// The configured path is blank.
    NotConfigured,
    /// The path could not be inspected; the text says why.
    Unreadable(String),
    /// The path names something other than a regular file.
    NotAFile,
    /// The file has no execute permission bit set.
    NotExecutable,
}

/// What inspecting the (trimmed) capture binary path found.
#[derive(Clone, Debug, PartialEq, Eq)]
pub enum CliProbe {
    /// Its metadata could not be read; the text says why.
    Missing(String),
    /// Its metadata: whether it is a regular file and, where the platform
    /// has them, its permission bits.
    Found { is_file: bool, mode_bits: Option<u32> },
}

/// Any execute bit (owner, group or other) set in `bits`.
pub open spec fn has_execute_bit(bits: u32) -> bool {
    bits & 0o111u32 != 0
}

/// The verdict on a capture binary path, given what inspecting it found.
pub open spec fn cli_verdict(cli_path: Seq<char>, probe: CliProbe) -> Result<(), CliProblem> {
    if is_blank(cli_path) {
        Err(CliProblem::NotConfigured)
    } else {
        match probe {
            CliProbe::Missing(why) => Err(CliProblem::Unreadable(why)),
            CliProbe::Found { is_file, mode_bits } => if !is_file {
                Err(CliProblem::NotAFile)
            } else {
                match mode_bits {
                    Some(bits) => if has_execute_bit(bits) {
                        Ok(())
                    } else {
                        Err(CliProblem::NotExecutable)
                    },
                    None => Ok(()),
                }
            },
        }
    }
}

/// The path to inspect for a configured capture binary: the configured text
/// trimmed, or nothing when it is blank.
pub fn cli_target(cli_path: &str) -> (r: Option<&str>)
    ensures
        r is None <==> is_blank(cli_path@),
        r matches Some(p) ==> p@ == trimmed(cli_path@),
{
    let p = trim_text(cli_path);
    if p.unicode_len() == 0 {
        None
    } else {
        Some(p)
    }
}

/// Checks a configured capture binary: it must be configured, exist, be a
/// regular file and carry an execute bit.
pub fn validate_cli_path(cli_path: &str, probe: &CliProbe) -> (r: Result<(), CliProblem>)
    ensures
        r == cli_verdict(cli_path@, *probe),
{
    if cli_target(cli_path).is_none() {
        return Err(CliProblem::NotConfigured);
    }
    match probe {
        CliProbe::Missing(why) => Err(CliProblem::Unreadable(why.clone())),
        CliProbe::Found { is_file, mode_bits } => {
            if !*is_file {
                Err(CliProblem::NotAFile)
            } else {
                match mode_bits {
                    Some(bits) => {
                        if *bits & 0o111u32 != 0 {
                            Ok(())
                        } else {
                            Err(CliProblem::NotExecutable)
                        }
                    },
                    None => Ok(()),
                }
            }
        },
    }
}

/// Why a start or stop of the capture slot was refused.
#[derive(Clone, Debug, PartialEq, Eq)]
pub enum RecorderError {
    /// The caller already holds the slot.
    AlreadyActiveBySelf,
    /// Another user holds the slot.
    SlotOccupied,
    /// The capture binary is not usable.
    InvalidCliConfig(CliProblem),
    /// The capture process could not be spawned; the text says why.
    SpawnFailed(String),
    /// The caller holds no slot to stop.
    NoActiveProcess,
}

/// Whether `err` is a configuration problem of the capture binary, which
/// the caller can fix, rather than a conflict or an OS failure.
pub fn is_cli_config_error(err: &RecorderError) -> (r: bool)
    ensures
        r == (err is InvalidCliConfig),
{
    match err {
        RecorderError::InvalidCliConfig(_) => true,
        _ => false,
    }
}

/// The holder of a slot and the kind of its task, if any.
pub type SlotState = Option<(u128, TaskKind)>;

/// Whether `user` may take the slot as it stands.
pub open spec fn admission(slot: SlotState, user_id: u128) -> Result<(), RecorderError> {
    match slot {
        Some((holder, _)) => if holder == user_id {
            Err(RecorderError::AlreadyActiveBySelf)
        } else {
            Err(RecorderError::SlotOccupied)
        },
        None => Ok(()),
    }
}

/// The slot after a start by `user_id`, which `granted` says succeeded.
pub open spec fn slot_after_start(slot: SlotState, user_id: u128, task: TaskKind, granted: bool) -> SlotState {
    if granted {
        Some((user_id, task))
    } else {
        slot
    }
}

/// The slot after `user_id` stops: empty when `user_id` held it, as it was
/// otherwise.
pub open spec fn slot_after_stop(slot: SlotState, user_id: u128) -> SlotState {
    if holds(slot, user_id) {
        None
    } else {
        slot
    }
}

/// Whether `user_id` holds the slot.
pub open spec fn holds(slot: SlotState, user_id: u128) -> bool {
    slot matches Some((holder, _)) && holder == user_id
}

/// A running capture task: its holder, its kind and its process handle.
pub struct ActiveTask<H> {
    user_id: u128,
    task: TaskKind,
    handle: H,
}

/// Sole authority over the capture slot. `H` is the handle of the spawned
/// capture process, which the caller terminates after a stop.
pub struct RecorderManager<H> {
    slot: Option<ActiveTask<H>>,
}

impl<H> View for RecorderManager<H> {
    type V = SlotState;

    closed spec fn view(&self) -> SlotState {
        match self.slot {
            Some(t) => Some((t.user_id, t.task)),
            None => None,
        }
    }
}

impl<H> RecorderManager<H> {
    /// The process handle held with the slot, if any.
    pub closed spec fn held_handle(&self) -> Option<H> {
        match self.slot {
            Some(t) => Some(t.handle),
            None => None,
        }
    }

    /// An empty slot.
    pub fn new() -> (r: Self)
        ensures
            r@ is None,
    {
        RecorderManager { slot: None }
    }

    /// Whether `user_id` may take the slot as it stands: refused with
    /// `AlreadyActiveBySelf` when it holds it, `SlotOccupied` when another
    /// user does.
    pub fn check_start(&self, user_id: u128) -> (r: Result<(), RecorderError>)
        ensures
            r == admission(self@, user_id),
    {
        match &self.slot {
            Some(active) => {
                if active.user_id == user_id {
                    Err(RecorderError::AlreadyActiveBySelf)
                } else {
                    Err(RecorderError::SlotOccupied)
                }
            },
            None => Ok(()),
        }
    }

    /// What `user_id` is doing: the mode text of its task (`record` or
    /// `stream`), or `idle` when it does not hold the slot.
    pub fn status_label(&self, user_id: u128) -> (r: &'static str)
        ensures
            holds(self@, user_id) ==> kind_named(r@) == Some(self@->Some_0.1),
            !holds(self@, user_id) ==> r@ == "idle"@,
    {
        match self.get_task_type(user_id) {
            Some(kind) => kind.label(),
            None => "idle",
        }
    }

    /// Starts a capture task for `user_id`. Refused when the caller already
    /// holds the slot or another user does; otherwise the capture binary
    /// `cli_path` is checked against `probe`, what inspecting it found, and
    /// only then is `launch` called to spawn the process. A refusal, a bad
    /// binary or a failed spawn leave the slot as it was.
    pub fn start_recording<F: FnOnce() -> Result<H, String>>(
        &mut self,
        user_id: u128,
        task: TaskKind,
        cli_path: &str,
        probe: &CliProbe,
        launch: F,
    ) -> (r: Result<(), RecorderError>)
        requires
            launch.requires(()),
        ensures
            final(self)@ == slot_after_start(old(self)@, user_id, task, r is Ok),
            final(self)@ == run_starts(old(self)@, seq![(user_id, task, r is Ok)]),
            admission(old(self)@, user_id) is Err ==> r == admission(old(self)@, user_id),
            admission(old(self)@, user_id) is Ok ==> match cli_verdict(cli_path@, *probe) {
                Err(p) => r == Err::<(), RecorderError>(RecorderError::InvalidCliConfig(p)),
                Ok(()) => r is Ok || r is Err && r->Err_0 is SpawnFailed,
            },
            r is Ok ==> exists|h: H| launch.ensures((), Ok::<H, String>(h)) && final(self).held_handle()
                == Some(h),
            r matches Err(RecorderError::SpawnFailed(why)) ==> launch.ensures(
                (),
                Err::<H, String>(why),
            ),
            r is Err ==> final(self).held_handle() == old(self).held_handle(),
    {
        proof {
            lemma_one_start(self@, (user_id, task, true));
            lemma_one_start(self@, (user_id, task, false));
        }
        match &self.slot {
            Some(active) => {
                if active.user_id == user_id {
                    return Err(RecorderError::AlreadyActiveBySelf);
                } else {
                    return Err(RecorderError::SlotOccupied);
                }
            },
            None => {},
        }
        match validate_cli_path(cli_path, probe) {
            Err(p) => {
                return Err(RecorderError::InvalidCliConfig(p));
            },
            Ok(()) => {},
        }
        match launch() {
            Ok(handle) => {
                self.slot = Some(ActiveTask { user_id, task, handle });
                Ok(())
            },
            Err(why) => Err(RecorderError::SpawnFailed(why)),
        }
    }

    /// Ends `user_id`'s task and empties the slot, handing back the process
    /// handle for the caller to terminate and wait on. Refused when
    /// `user_id` does not hold the slot.
    pub fn stop_recording(&mut self, user_id: u128) -> (r: Result<H, RecorderError>)
        ensures
            final(self)@ == slot_after_stop(old(self)@, user_id),
            holds(old(self)@, user_id) ==> {
                &&& final(self)@ is None
                &&& r is Ok
                &&& old(self).held_handle() == Some(r->Ok_0)
            },
            !holds(old(self)@, user_id) ==> {
                &&& r == Err::<H, RecorderError>(RecorderError::NoActiveProcess)
                &&& final(self)@ == old(self)@
                &&& final(self).held_handle() == old(self).held_handle()
            },
    {
        let holder = match &self.slot {
            Some(active) => active.user_id == user_id,
            None => false,
        };
        if !holder {
            return Err(RecorderError::NoActiveProcess);
        }
        match self.slot.take() {
            Some(active) => Ok(active.handle),
            None => Err(RecorderError::NoActiveProcess),
        }
    }

    /// The kind of `user_id`'s task, when `user_id` holds the slot.
    pub fn get_task_type(&self, user_id: u128) -> (r: Option<TaskKind>)
        ensures
            r == (match self@ {
                Some((holder, task)) => if holder == user_id {
                    Some(task)
                } else {
                    None
                },
                None => None,
            }),
    {
        match &self.slot {
            Some(active) => {
                if active.user_id == user_id {
                    Some(active.task)
                } else {
                    None
                }
            },
            None => None,
        }
    }

    /// Whether `user_id` holds the slot.
    pub fn is_recording(&self, user_id: u128) -> (r: bool)
        ensures
            r == holds(self@, user_id),
    {
        match &self.slot {
            Some(active) => active.user_id == user_id,
            None => false,
        }
    }

    /// The users holding the slot: none or one.
    pub fn get_active_users(&self) -> (r: Vec<u128>)
        ensures
            r@ == (match self@ {
                Some((holder, _)) => seq![holder],
                None => Seq::<u128>::empty(),
            }),
    {
        let mut users: Vec<u128> = Vec::new();
        match &self.slot {
            Some(active) => {
                users.push(active.user_id);
            },
            None => {},
        }
        proof {
            if self@ is Some {
                assert(users@ =~= seq![self@->Some_0.0]);
            }
        }
        users
    }

    /// Whether anyone holds the slot.
    pub fn has_any_recording(&self) -> (r: bool)
        ensures
            r == (self@ is Some),
    {
        self.slot.is_some()
    }
}

/// One start attempt: the user, the task kind, and whether the capture
/// binary checked out and spawned.
pub type StartAttempt = (u128, TaskKind, bool);

/// The slot after a series of start attempts, each admitted only while the
/// slot is free.
pub open spec fn run_starts(slot: SlotState, attempts: Seq<StartAttempt>) -> SlotState
    decreases attempts.len(),
{
    if attempts.len() == 0 {
        slot
    } else {
        let before = run_starts(slot, attempts.drop_last());
        let (user_id, task, ready) = attempts.last();
        slot_after_start(before, user_id, task, admission(before, user_id) is Ok && ready)
    }
}

/// How many of a series of start attempts succeed.
pub open spec fn granted_starts(slot: SlotState, attempts: Seq<StartAttempt>) -> nat
    decreases attempts.len(),
{
    if attempts.len() == 0 {
        0
    } else {
        let before = run_starts(slot, attempts.drop_last());
        let (user_id, _, ready) = attempts.last();
        granted_starts(slot, attempts.drop_last()) + if admission(before, user_id) is Ok && ready {
            1nat
        } else {
            0nat
        }
    }
}

/// A start on a held slot is refused, with `AlreadyActiveBySelf` for its
/// holder and `SlotOccupied` for anyone else, and leaves the slot as it is.
pub proof fn lemma_occupied_refuses(slot: SlotState, user_id: u128, task: TaskKind)
    requires
        slot is Some,
    ensures
        admission(slot, user_id) == (if holds(slot, user_id) {
            Err::<(), RecorderError>(RecorderError::AlreadyActiveBySelf)
        } else {
            Err::<(), RecorderError>(RecorderError::SlotOccupied)
        }),
        slot_after_start(slot, user_id, task, admission(slot, user_id) is Ok) == slot,
{
}

/// Mutual exclusion: of any series of start attempts on a free slot at most
/// one succeeds, and once it has, the slot keeps that holder whatever is
/// attempted after; a held slot admits none.
pub proof fn lemma_single_holder(slot: SlotState, attempts: Seq<StartAttempt>)
    ensures
        slot is Some ==> run_starts(slot, attempts) == slot && granted_starts(slot, attempts) == 0,
        slot is None ==> granted_starts(slot, attempts) <= 1,
        slot is None ==> (run_starts(slot, attempts) is Some <==> granted_starts(slot, attempts) == 1),
    decreases attempts.len(),
{
    if attempts.len() > 0 {
        lemma_single_holder(slot, attempts.drop_last());
    }
}

/// After a successful stop by `user_id`, neither `user_id` nor anyone holds
/// the slot, and it stays free through any series of starts of which none
/// succeeds.
pub proof fn lemma_idle_after_stop(slot: SlotState, user_id: u128, attempts: Seq<StartAttempt>)
    requires
        holds(slot, user_id),
        granted_starts(slot_after_stop(slot, user_id), attempts) == 0,
    ensures
        slot_after_stop(slot, user_id) is None,
        !holds(slot_after_stop(slot, user_id), user_id),
        run_starts(slot_after_stop(slot, user_id), attempts) is None,
{
    lemma_single_holder(None, attempts);
}

/// A series of start attempts runs one attempt after another: the slot
/// after the series followed by one more attempt is the slot after that
/// attempt alone, from where the series left it; and it is granted there
/// exactly when it would be granted alone.
pub proof fn lemma_run_starts_extend(slot: SlotState, attempts: Seq<StartAttempt>, next: StartAttempt)
    ensures
        run_starts(slot, attempts.push(next)) == run_starts(run_starts(slot, attempts), seq![next]),
        granted_starts(slot, attempts.push(next)) == granted_starts(slot, attempts) + granted_starts(
            run_starts(slot, attempts),
            seq![next],
        ),
{
    let longer = attempts.push(next);
    assert(longer.drop_last() =~= attempts);
    assert(longer.last() == next);
    lemma_one_start(run_starts(slot, attempts), next);
    let one = seq![next];
    assert(one.len() == 1 && one.last() == next);
    assert(one.drop_last() =~= Seq::<StartAttempt>::empty());
    assert(granted_starts(run_starts(slot, attempts), one.drop_last()) == 0);
    assert(run_starts(run_starts(slot, attempts), one.drop_last()) == run_starts(slot, attempts));
}

proof fn lemma_one_start(slot: SlotState, attempt: StartAttempt)
    ensures
        run_starts(slot, seq![attempt]) == slot_after_start(
            slot,
            attempt.0,
            attempt.1,
            admission(slot, attempt.0) is Ok && attempt.2,
        ),
{
    let one = seq![attempt];
    assert(one.len() == 1 && one.last() == attempt);
    assert(one.drop_last() =~= Seq::<StartAttempt>::empty());
    assert(run_starts(slot, one.drop_last()) == slot);
}

} // verus!
