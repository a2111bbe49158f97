//! The command executor's verified half: validation of remotely submitted
//! commands, the lifecycle of a pending action, the idempotent transition
//! table that turns a command and an observed playback state into at most
//! one transport call, and the planning of random enqueues.
//!
//! The caller performs the chosen device operations and reports their
//! outcome back through the pending action's lifecycle.

use vstd::prelude::*;

use rand::RngExt;

use crate::model::{str_eq, PlaybackState};
use crate::store::ValidationError;

verus! {

/// One remotely invocable command, a single sum type covering every
/// supported action.
#[derive(Clone, Copy, PartialEq, Eq, Structural, Debug)]
pub enum Command {
    Play,
    Pause,
    Stop,
    Next,
    Previous,
    QueueRandom { count: u64 },
}

/// A transport call against the device; `Resume` and `Pause` are the two
/// directions of the device's pause switch.
#[derive(Clone, Copy, PartialEq, Eq, Structural, Debug)]
pub enum DeviceOp {
    Play,
    Resume,
    Pause,
    Stop,
    Next,
    Previous,
}

/// The idempotent transition table: the transport call a command issues
/// given the playback state observed under the device lock, or `None` when
/// the device is already in the state the command implies.
pub open spec fn spec_transition(state: PlaybackState, cmd: Command) -> Option<DeviceOp> {
    match cmd {
        Command::Play => match state {
            PlaybackState::Stopped => Some(DeviceOp::Play),
            PlaybackState::Playing => None,
            PlaybackState::Paused => Some(DeviceOp::Resume),
        },
        Command::Pause => match state {
            PlaybackState::Playing => Some(DeviceOp::Pause),
            PlaybackState::Stopped => None,
            PlaybackState::Paused => None,
        },
        Command::Stop => match state {
            PlaybackState::Stopped => None,
            PlaybackState::Playing => Some(DeviceOp::Stop),
            PlaybackState::Paused => Some(DeviceOp::Stop),
        },
        Command::Next => match state {
            PlaybackState::Stopped => None,
            PlaybackState::Playing => Some(DeviceOp::Next),
            PlaybackState::Paused => Some(DeviceOp::Next),
        },
        Command::Previous => match state {
            PlaybackState::Stopped => None,
            PlaybackState::Playing => Some(DeviceOp::Previous),
            PlaybackState::Paused => Some(DeviceOp::Previous),
        },
        Command::QueueRandom { .. } => None,
    }
}

/// Decides the transport call for a command against the observed playback
/// state, exactly as the idempotent transition table says.
pub fn transition(state: PlaybackState, cmd: &Command) -> (r: Option<DeviceOp>)
    requires
        !(cmd is QueueRandom),
    ensures
        r == spec_transition(state, *cmd),
{
    match cmd {
        Command::Play => match state {
            PlaybackState::Stopped => Some(DeviceOp::Play),
            PlaybackState::Playing => None,
            PlaybackState::Paused => Some(DeviceOp::Resume),
        },
        Command::Pause => match state {
            PlaybackState::Playing => Some(DeviceOp::Pause),
            _ => None,
        },
        Command::Stop => match state {
            PlaybackState::Stopped => None,
            _ => Some(DeviceOp::Stop),
        },
        Command::Next => match state {
            PlaybackState::Stopped => None,
            _ => Some(DeviceOp::Next),
        },
        Command::Previous => match state {
            PlaybackState::Stopped => None,
            _ => Some(DeviceOp::Previous),
        },
        Command::QueueRandom { .. } => None,
    }
}

/// The idempotent-transition law, the full table in one statement: under
/// `Playing`, `Play` issues nothing; under `Stopped`, `Play` issues exactly
/// one play call and under `Paused` exactly one resume; `Pause` issues a
/// pause call only under `Playing`; `Stop`, `Next` and `Previous` issue
/// their call unless the device is stopped.
pub proof fn lemma_idempotent_transition_table()
    ensures
        spec_transition(PlaybackState::Playing, Command::Play) == None::<DeviceOp>,
        spec_transition(PlaybackState::Stopped, Command::Play) == Some(DeviceOp::Play),
        spec_transition(PlaybackState::Paused, Command::Play) == Some(DeviceOp::Resume),
        spec_transition(PlaybackState::Playing, Command::Pause) == Some(DeviceOp::Pause),
        spec_transition(PlaybackState::Stopped, Command::Pause) == None::<DeviceOp>,
        spec_transition(PlaybackState::Paused, Command::Pause) == None::<DeviceOp>,
        spec_transition(PlaybackState::Stopped, Command::Stop) == None::<DeviceOp>,
        spec_transition(PlaybackState::Playing, Command::Stop) == Some(DeviceOp::Stop),
        spec_transition(PlaybackState::Paused, Command::Stop) == Some(DeviceOp::Stop),
        spec_transition(PlaybackState::Stopped, Command::Next) == None::<DeviceOp>,
        spec_transition(PlaybackState::Playing, Command::Next) == Some(DeviceOp::Next),
        spec_transition(PlaybackState::Paused, Command::Next) == Some(DeviceOp::Next),
        spec_transition(PlaybackState::Stopped, Command::Previous) == None::<DeviceOp>,
        spec_transition(PlaybackState::Playing, Command::Previous) == Some(DeviceOp::Previous),
        spec_transition(PlaybackState::Paused, Command::Previous) == Some(DeviceOp::Previous),
{
}

/// Lifecycle status of a pending action.
#[derive(Clone, Copy, PartialEq, Eq, Structural, Debug)]
pub enum ActionStatus {
    Created,
    Running,
    Completed,
    Failed,
    Cancelled,
}

/// The record of one in-flight remote command: a unique identifier, the
/// command itself, and the lifecycle status, which moves from `Created`
/// through `Running` to exactly one terminal state.
#[derive(Debug)]
pub struct PendingAction {
    id: String,
    command: Command,
    status: ActionStatus,
}

impl PendingAction {
    /// The identifier generated for this action.
    pub closed spec fn spec_id(self) -> Seq<char> {
        self.id@
    }

    /// The command this action carries.
    pub closed spec fn spec_command(self) -> Command {
        self.command
    }

    /// The lifecycle status.
    pub closed spec fn spec_status(self) -> ActionStatus {
        self.status
    }

    pub fn get_id(&self) -> (r: &String)
        ensures
            r@ == self.spec_id(),
    {
        &self.id
    }

    pub fn command(&self) -> (r: Command)
        ensures
            r == self.spec_command(),
    {
        self.command
    }

    pub fn get_status(&self) -> (r: ActionStatus)
        ensures
            r == self.spec_status(),
    {
        self.status
    }

    /// Marks the action as running; legal only once, right after creation.
    pub fn start(&mut self)
        requires
            old(self).spec_status() == ActionStatus::Created,
        ensures
            final(self).spec_status() == ActionStatus::Running,
            final(self).spec_id() == old(self).spec_id(),
            final(self).spec_command() == old(self).spec_command(),
    {
        self.status = ActionStatus::Running;
    }

    /// Records the terminal outcome of a running action: `Completed` on
    /// success, `Failed` otherwise.
    pub fn finish(&mut self, success: bool)
        requires
            old(self).spec_status() == ActionStatus::Running,
        ensures
            final(self).spec_status() == if success {
                ActionStatus::Completed
            } else {
                ActionStatus::Failed
            },
            final(self).spec_id() == old(self).spec_id(),
            final(self).spec_command() == old(self).spec_command(),
    {
        self.status = if success {
            ActionStatus::Completed
        } else {
            ActionStatus::Failed
        };
    }

    /// Abandons a running action without an outcome.
    pub fn cancel(&mut self)
        requires
            old(self).spec_status() == ActionStatus::Running,
        ensures
            final(self).spec_status() == ActionStatus::Cancelled,
            final(self).spec_id() == old(self).spec_id(),
            final(self).spec_command() == old(self).spec_command(),
    {
        self.status = ActionStatus::Cancelled;
    }
}

/// What submission must answer for a command name and its optional count
/// input: the parsed command, or the validation error that rejects the
/// request synchronously.
pub open spec fn spec_parse_command(name: Seq<char>, count: Option<u64>) -> Result<
    Command,
    ValidationError,
> {
    if name == "play"@ {
        Ok(Command::Play)
    } else if name == "pause"@ {
        Ok(Command::Pause)
    } else if name == "stop"@ {
        Ok(Command::Stop)
    } else if name == "next"@ {
        Ok(Command::Next)
    } else if name == "previous"@ {
        Ok(Command::Previous)
    } else if name == "queueRandom"@ {
        match count {
            Some(c) => if c >= 1 {
                Ok(Command::QueueRandom { count: c })
            } else {
                Err(ValidationError::InvalidInput)
            },
            None => Err(ValidationError::MissingInput),
        }
    } else {
        Err(ValidationError::UnknownCommand)
    }
}

/// Relies on uuid: a freshly generated random identifier, rendered in its
/// hyphenated textual form, which is 36 characters long.
#[verifier::external_body]
fn fresh_action_id() -> (r: String)
    ensures
        r@.len() == 36,
{
    uuid::Uuid::new_v4().to_string()
}

/// Validates a remote request and, when it names a known command with
/// acceptable input, creates the pending action for it, in state `Created`
/// and under a fresh identifier; rejected requests never reach the device.
pub fn submit(name: &str, count: Option<u64>) -> (r: Result<PendingAction, ValidationError>)
    ensures
        r is Ok <==> spec_parse_command(name@, count) is Ok,
        r is Ok ==> {
            &&& r->Ok_0.spec_command() == spec_parse_command(name@, count)->Ok_0
            &&& r->Ok_0.spec_status() == ActionStatus::Created
            &&& r->Ok_0.spec_id().len() == 36
        },
        r is Err ==> r->Err_0 == spec_parse_command(name@, count)->Err_0,
{
    let parsed: Result<Command, ValidationError> = if str_eq(name, "play") {
        Ok(Command::Play)
    } else if str_eq(name, "pause") {
        Ok(Command::Pause)
    } else if str_eq(name, "stop") {
        Ok(Command::Stop)
    } else if str_eq(name, "next") {
        Ok(Command::Next)
    } else if str_eq(name, "previous") {
        Ok(Command::Previous)
    } else if str_eq(name, "queueRandom") {
        match count {
            Some(c) => if c >= 1 {
                Ok(Command::QueueRandom { count: c })
            } else {
                Err(ValidationError::InvalidInput)
            },
            None => Err(ValidationError::MissingInput),
        }
    } else {
        Err(ValidationError::UnknownCommand)
    };
    match parsed {
        Ok(command) => Ok(
            PendingAction { id: fresh_action_id(), command, status: ActionStatus::Created },
        ),
        Err(e) => Err(e),
    }
}

/// Relies on rand: `random_range(0..n)` returns a uniformly distributed
/// index strictly below `n`; the call rejects an empty range, which the
/// precondition rules out.
#[verifier::external_body]
fn random_index(n: usize) -> (r: usize)
    requires
        n > 0,
    ensures
        r < n,
{
    rand::rng().random_range(0..n)
}

/// Draws `count` identifiers uniformly at random, with replacement, from
/// the catalog: the plan of enqueue calls for the queue-random command.
/// Against an empty catalog nothing is drawn, and the command fails
/// without enqueuing.
pub fn plan_random_enqueues(catalog: &Vec<String>, count: u64) -> (r: Vec<String>)
    requires
        count <= usize::MAX,
    ensures
        catalog.len() == 0 ==> r.len() == 0,
        catalog.len() > 0 ==> r.len() == count,
        forall|i: int| 0 <= i < r.len() ==> catalog@.contains(#[trigger] r@[i]),
{
    let mut picks: Vec<String> = Vec::new();
    if catalog.len() == 0 {
        return picks;
    }
    let mut drawn: u64 = 0;
    while drawn < count
        invariant
            catalog.len() > 0,
            drawn <= count,
            count <= usize::MAX,
            picks.len() == drawn,
            forall|i: int| 0 <= i < picks.len() ==> catalog@.contains(#[trigger] picks@[i]),
        decreases count - drawn,
    {
        let idx = random_index(catalog.len());
        let pick = catalog[idx].clone();
        proof {
            assert(pick == catalog@[idx as int]);
            assert(catalog@.contains(pick));
        }
        picks.push(pick);
        drawn = drawn + 1;
    }
    picks
}

} // verus!
