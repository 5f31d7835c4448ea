//! The context permission checks run in.

use vstd::prelude::*;

use crate::commands::errors::{CommandError, RuntimeError};
use crate::wrappers::types::users::User;

verus! {

/// What a permission check knows of the event that invoked a command.
pub enum PermissionEvent {
    /// A message (prefixed commands).
    Message {
        /// The message's author.
        author: User,
        /// The channel the message was sent in.
        channel_id: u64,
        /// The server the message was sent in, if any.
        guild_id: Option<u64>,
    },
    /// An interaction (slash and message commands, components).
    Interaction {
        /// The user, when the interaction happened outside a server.
        user: Option<User>,
        /// The member, when the interaction happened in a server: `Some(user)` holding the
        /// member's user, if Discord sent it.
        member: Option<Option<User>>,
        /// The channel the interaction happened in, if Discord sent it.
        channel_id: Option<u64>,
        /// The server the interaction happened in, if any.
        guild_id: Option<u64>,
    },
    /// Any other event: permissions cannot be checked there.
    Other,
}

/// The context passed to permission checks.
pub struct PermissionContext {
    /// The event that invoked the command.
    pub event: PermissionEvent,
}

impl PermissionContext {
    /// The user who invoked the command, if known.
    pub open spec fn spec_user(&self) -> Option<User> {
        match self.event {
            PermissionEvent::Message { author, .. } => Some(author),
            PermissionEvent::Interaction { user, member, .. } => match (user, member) {
                (Some(u), None) => Some(u),
                (None, Some(m)) => m,
                _ => None,
            },
            PermissionEvent::Other => None,
        }
    }

    /// The user who invoked the command: a message's author, an interaction's user, or
    /// the user of the interaction's member; `None` when Discord sent neither a user nor a
    /// member (or both).
    pub fn user(&self) -> (r: Option<User>)
        requires
            !(self.event is Other),
        ensures
            r == self.spec_user(),
    {
        match &self.event {
            PermissionEvent::Message { author, .. } => Some(author.clone()),
            PermissionEvent::Interaction { user, member, .. } => match (user, member) {
                (Some(user), None) => Some(user.clone()),
                (None, Some(member)) => match member {
                    Some(user) => Some(user.clone()),
                    None => None,
                },
                _ => None,
            },
            PermissionEvent::Other => None,
        }
    }

    /// The channel the command was invoked in.
    pub open spec fn spec_channel_id(&self) -> Option<u64> {
        match self.event {
            PermissionEvent::Message { channel_id, .. } => Some(channel_id),
            PermissionEvent::Interaction { channel_id, .. } => channel_id,
            PermissionEvent::Other => None,
        }
    }

    /// Returns the channel the command was invoked in, if known.
    pub fn channel_id(&self) -> (r: Option<u64>)
        requires
            !(self.event is Other),
        ensures
            r == self.spec_channel_id(),
    {
        match &self.event {
            PermissionEvent::Message { channel_id, .. } => Some(*channel_id),
            PermissionEvent::Interaction { channel_id, .. } => *channel_id,
            PermissionEvent::Other => None,
        }
    }

    /// The server the command was invoked in.
    pub open spec fn spec_server_id(&self) -> Option<u64> {
        match self.event {
            PermissionEvent::Message { guild_id, .. } => guild_id,
            PermissionEvent::Interaction { guild_id, .. } => guild_id,
            PermissionEvent::Other => None,
        }
    }

    /// Returns the server the command was invoked in; `None` in direct messages.
    pub fn server_id(&self) -> (r: Option<u64>)
        requires
            !(self.event is Other),
        ensures
            r == self.spec_server_id(),
    {
        match &self.event {
            PermissionEvent::Message { guild_id, .. } => *guild_id,
            PermissionEvent::Interaction { guild_id, .. } => *guild_id,
            PermissionEvent::Other => None,
        }
    }
}

/// Normalizes what a permission check returns into `Ok(())` when the command may run, or the
/// error that refuses it.
pub trait IntoPermissionResult: Sized {
    /// The normalized result of this value.
    spec fn spec_permission_result(&self) -> Result<(), RuntimeError>;

    /// Normalizes this value.
    fn into_permission_result(self) -> (r: Result<(), RuntimeError>)
        ensures
            r == self.spec_permission_result(),
    ;
}

impl IntoPermissionResult for Result<(), RuntimeError> {
    open spec fn spec_permission_result(&self) -> Result<(), RuntimeError> {
        *self
    }

    fn into_permission_result(self) -> (r: Result<(), RuntimeError>) {
        self
    }
}

/// What to do next while gating a command behind its permission checks.
pub enum CheckStep {
    /// Run the check at this position.
    RunCheck(usize),
    /// A check refused: the command fails with this error and its handler does not run.
    Refuse(CommandError),
    /// Every check passed: run the command's handler.
    RunHandler,
}

/// The first step for a command with `checks` permission checks.
pub open spec fn spec_first_check_step(checks: nat) -> CheckStep {
    if checks == 0 {
        CheckStep::RunHandler
    } else {
        CheckStep::RunCheck(0)
    }
}

/// The step after the check at position `index` (of `checks`) returned `outcome`.
pub open spec fn spec_after_check(index: nat, checks: nat, outcome: Result<(), RuntimeError>) -> CheckStep {
    match outcome {
        Err(e) => CheckStep::Refuse(CommandError::Permissions(e)),
        Ok(()) => if index + 1 < checks {
            CheckStep::RunCheck((index + 1) as usize)
        } else {
            CheckStep::RunHandler
        },
    }
}

/// Returns the first step for a command with `checks` permission checks: its first check,
/// or its handler when it has none.
pub fn first_check_step(checks: usize) -> (r: CheckStep)
    ensures
        r == spec_first_check_step(checks as nat),
{
    if checks == 0 {
        CheckStep::RunHandler
    } else {
        CheckStep::RunCheck(0)
    }
}

/// Returns the step after the check at position `index` returned `outcome`: the command is
/// refused with the check's error, or the next check runs, or, after the last check, the
/// handler.
pub fn after_check(index: usize, checks: usize, outcome: Result<(), RuntimeError>) -> (r: CheckStep)
    requires
        index < checks,
    ensures
        r == spec_after_check(index as nat, checks as nat, outcome),
{
    match outcome {
        Err(e) => CheckStep::Refuse(CommandError::Permissions(e)),
        Ok(()) => if index + 1 < checks {
            CheckStep::RunCheck(index + 1)
        } else {
            CheckStep::RunHandler
        },
    }
}

/// The step reached from `step` when the checks it runs return `outcomes`, in order.
pub open spec fn drive_checks(step: CheckStep, checks: nat, outcomes: Seq<Result<(), RuntimeError>>) -> CheckStep
    decreases outcomes.len(),
{
    match step {
        CheckStep::RunCheck(i) => if outcomes.len() > 0 {
            drive_checks(spec_after_check(i as nat, checks, outcomes[0]), checks, outcomes.drop_first())
        } else {
            step
        },
        _ => step,
    }
}

/// The position of the first refusing check among `outcomes`.
pub open spec fn first_refusal(outcomes: Seq<Result<(), RuntimeError>>, k: int) -> Option<int>
    decreases outcomes.len() - k,
{
    if k < 0 || k >= outcomes.len() {
        None
    } else if outcomes[k] is Err {
        Some(k)
    } else {
        first_refusal(outcomes, k + 1)
    }
}

/// A command's handler runs only when every one of its permission checks passes, the checks
/// run in order, and the first check that refuses decides the command's error.
pub proof fn law_handler_runs_only_when_every_check_passes(
    outcomes: Seq<Result<(), RuntimeError>>,
)
    requires
        outcomes.len() < usize::MAX,
    ensures
        ({
            let end = drive_checks(spec_first_check_step(outcomes.len()), outcomes.len(), outcomes);
            match first_refusal(outcomes, 0) {
                None => end == CheckStep::RunHandler,
                Some(k) => end == CheckStep::Refuse(CommandError::Permissions(outcomes[k]->Err_0)),
            }
        }),
{
    if outcomes.len() > 0 {
        assert(outcomes.skip(0) =~= outcomes);
        lemma_drive_checks_from(outcomes, 0);
    }
}

proof fn lemma_first_refusal_bounds(outcomes: Seq<Result<(), RuntimeError>>, i: int)
    requires
        0 <= i,
    ensures
        first_refusal(outcomes, i) matches Some(k) ==> i <= k < outcomes.len() && outcomes[k] is Err,
    decreases outcomes.len() - i,
{
    if i < outcomes.len() && outcomes[i] is Ok {
        lemma_first_refusal_bounds(outcomes, i + 1);
    }
}

proof fn lemma_drive_checks_from(outcomes: Seq<Result<(), RuntimeError>>, i: int)
    requires
        0 <= i < outcomes.len(),
        outcomes.len() < usize::MAX,
    ensures
        ({
            let end = drive_checks(CheckStep::RunCheck(i as usize), outcomes.len(), outcomes.skip(i));
            match first_refusal(outcomes, i) {
                None => end == CheckStep::RunHandler,
                Some(k) => end == CheckStep::Refuse(CommandError::Permissions(outcomes[k]->Err_0)),
            }
        }),
    decreases outcomes.len() - i,
{
    let n = outcomes.len();
    let rest = outcomes.skip(i);
    assert(rest[0] == outcomes[i]);
    assert(rest.drop_first() =~= outcomes.skip(i + 1));
    let next = spec_after_check(i as nat, n, outcomes[i]);
    assert(drive_checks(CheckStep::RunCheck(i as usize), n, rest) == drive_checks(
        next,
        n,
        outcomes.skip(i + 1),
    ));
    lemma_first_refusal_bounds(outcomes, i);
    match outcomes[i] {
        Err(e) => {
            assert(next == CheckStep::Refuse(CommandError::Permissions(e)));
            assert(drive_checks(next, n, outcomes.skip(i + 1)) == next);
        },
        Ok(()) => {
            if i + 1 < n {
                assert(next == CheckStep::RunCheck((i + 1) as usize));
                lemma_drive_checks_from(outcomes, i + 1);
            } else {
                assert(next == CheckStep::RunHandler);
                assert(drive_checks(next, n, outcomes.skip(i + 1)) == next);
                assert(first_refusal(outcomes, i + 1) is None);
            }
        },
    }
}

} // verus!
