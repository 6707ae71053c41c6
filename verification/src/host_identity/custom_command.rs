//! Custom command source.
//!
//! [`CommandWait`] decides how long a command may run; its caller polls the command, sleeps and
//! stops it. Times are nanoseconds of a monotonic clock.

use crate::error::HostIdentityError;
use crate::foreign::{from_utf8_lossy, utf8_lossy};
use crate::host_identity::source::{
    CommandEnd, HostIdSource, HostIdSourceKind, SourceReply, SourceRequest,
};
use crate::hooks::wait::later;
use crate::text::{trim, trimmed};
use crate::time::Duration;
use vstd::prelude::*;

verus! {

/// Custom command source.
#[derive(Debug)]
pub struct CustomCommandSource {
    /// The command.
    pub cmd: String,
    /// How long it may run.
    pub timeout: Duration,
}

impl CustomCommandSource {
    /// A source that runs a command.
    pub fn new(cmd: String, timeout: Duration) -> (r: CustomCommandSource)
        ensures
            r == (CustomCommandSource { cmd, timeout }),
    {
        CustomCommandSource { cmd, timeout }
    }
}

/// The text of what a command wrote, without surrounding white space.
pub open spec fn output_text(bytes: Seq<u8>) -> Seq<char> {
    trimmed(utf8_lossy(bytes))
}

/// Whether a result is the value that a command gives.
pub open spec fn is_command_value(
    cmd: Seq<char>,
    end: CommandEnd,
    r: Result<String, HostIdentityError>,
) -> bool {
    match end {
        CommandEnd::Failed(e) => r matches Err(HostIdentityError::Read { path, source }) && path@
            == cmd && source == e,
        CommandEnd::TimedOut => r matches Err(HostIdentityError::CommandTimeout),
        CommandEnd::Exited { success, code, stdout, stderr } => if success {
            r matches Ok(v) && v@ == output_text(stdout@)
        } else {
            r matches Err(HostIdentityError::CommandFailed { stderr: e, code: c }) && e@
                == output_text(stderr@) && c == code
        },
    }
}

fn output(bytes: &Vec<u8>) -> (r: String)
    ensures
        r@ == output_text(bytes@),
{
    let text = from_utf8_lossy(bytes);
    trim(text.as_str())
}

impl HostIdSource for CustomCommandSource {
    fn kind(&self) -> (r: HostIdSourceKind)
        ensures
            r == HostIdSourceKind::CustomCommand,
    {
        HostIdSourceKind::CustomCommand
    }

    fn request(&self, fs_root: &str) -> (r: SourceRequest)
        ensures
            r == SourceRequest::RunCommand(self.cmd, self.timeout),
    {
        SourceRequest::RunCommand(self.cmd.clone(), self.timeout)
    }

    fn value(&self, fs_root: &str, reply: SourceReply) -> (r: Result<String, HostIdentityError>)
        ensures
            match reply {
                SourceReply::Command(end) => is_command_value(self.cmd@, end, r),
                SourceReply::File(_) => r matches Err(HostIdentityError::CommandNotConfigured),
            },
    {
        match reply {
            SourceReply::File(_) => Err(HostIdentityError::CommandNotConfigured),
            SourceReply::Command(CommandEnd::Failed(source)) => Err(
                HostIdentityError::Read { path: self.cmd.clone(), source },
            ),
            SourceReply::Command(CommandEnd::TimedOut) => Err(HostIdentityError::CommandTimeout),
            SourceReply::Command(CommandEnd::Exited { success, code, stdout, stderr }) => {
                if success {
                    Ok(output(&stdout))
                } else {
                    Err(HostIdentityError::CommandFailed { stderr: output(&stderr), code })
                }
            },
        }
    }
}

/// What polling a command gave.
#[derive(Debug)]
pub enum CommandPoll {
    /// It exited.
    Exited,
    /// It still runs.
    Running,
    /// The poll failed; the text of the error.
    Failed(String),
}

/// What the caller is to do next.
#[derive(Debug)]
pub enum CommandAction {
    /// Sleep, then poll again.
    SleepAndPoll(Duration),
    /// Collect its output and its status.
    Collect,
    /// Kill and reap it, and report it so.
    KillAndReport(CommandEnd),
}

/// Waiting for a command.
#[derive(Debug, Clone, Copy, PartialEq, Eq, Structural)]
pub struct CommandWait {
    /// When its time is up.
    pub deadline: u64,
}

/// The next action after a poll.
pub open spec fn command_action(deadline: u64, poll: CommandPoll, now: u64) -> CommandAction {
    match poll {
        CommandPoll::Exited => CommandAction::Collect,
        CommandPoll::Failed(e) => CommandAction::KillAndReport(CommandEnd::Failed(e)),
        CommandPoll::Running => if now >= deadline {
            CommandAction::KillAndReport(CommandEnd::TimedOut)
        } else {
            CommandAction::SleepAndPoll(Duration::of_millis(50))
        },
    }
}

impl CommandWait {
    /// Starts waiting for a command that was started at `now`.
    pub fn new(now: u64, timeout: Duration) -> (r: CommandWait)
        ensures
            r.deadline == later(now, timeout.capped_nanos()),
    {
        let by: u64 = timeout.to_nanos();
        let deadline: u64 = if now > u64::MAX - by {
            u64::MAX
        } else {
            now + by
        };
        CommandWait { deadline }
    }

    /// The next action after a poll.
    pub fn on_poll(&self, poll: CommandPoll, now: u64) -> (r: CommandAction)
        ensures
            r == command_action(self.deadline, poll, now),
    {
        match poll {
            CommandPoll::Exited => CommandAction::Collect,
            CommandPoll::Failed(e) => CommandAction::KillAndReport(CommandEnd::Failed(e)),
            CommandPoll::Running => {
                if now >= self.deadline {
                    CommandAction::KillAndReport(CommandEnd::TimedOut)
                } else {
                    CommandAction::SleepAndPoll(Duration::from_millis(50))
                }
            },
        }
    }
}

/// A command that still runs is stopped only once its time is up, and then it always is.
pub proof fn command_is_stopped_at_its_deadline(deadline: u64, now: u64)
    ensures
        now >= deadline <==> command_action(deadline, CommandPoll::Running, now)
            == CommandAction::KillAndReport(CommandEnd::TimedOut),
{
}

/// A command gives its trimmed output where it succeeds, and else the error: its trimmed complaint
/// and its code, that it ran out of time, or why it was not run.
pub proof fn command_gives_its_output(
    cmd: Seq<char>,
    end: CommandEnd,
    r: Result<String, HostIdentityError>,
)
    requires
        is_command_value(cmd, end, r),
    ensures
        r is Ok <==> (end matches CommandEnd::Exited { success, .. } && success),
        r matches Ok(v) ==> v@ == trimmed(utf8_lossy(end->stdout@)),
        end is TimedOut <==> (r matches Err(HostIdentityError::CommandTimeout)),
        end matches CommandEnd::Exited { success, code, stderr, .. } ==> (!success ==> (
        r matches Err(HostIdentityError::CommandFailed { stderr: e, code: c }) && e@ == trimmed(
            utf8_lossy(stderr@),
        ) && c == code)),
        end matches CommandEnd::Failed(why) ==> (r matches Err(
            HostIdentityError::Read { path, source },
        ) && path@ == cmd && source == why),
{
}

/// A running command is looked at every fifty milliseconds before its deadline; one that ended is
/// collected whenever that is seen, even late.
pub proof fn commands_are_watched(deadline: u64, now: u64, why: String)
    ensures
        command_action(deadline, CommandPoll::Exited, now) is Collect,
        now < deadline ==> command_action(deadline, CommandPoll::Running, now)
            == CommandAction::SleepAndPoll(Duration { secs: 0, nanos: 50_000_000 }),
        command_action(deadline, CommandPoll::Failed(why), now) == CommandAction::KillAndReport(
            CommandEnd::Failed(why),
        ),
{
}

} // verus!
