//! Applying a wallpaper file through the desktop's own command.
//!
//! The desktop environment (an external signal, read by the driver) selects
//! a strategy once: a dark/light aware desktop gets two sequential commands,
//! one per variant, and the second is never attempted when the first failed;
//! any other desktop gets a single smooth-transition command.  The driver
//! spawns and waits; every decision — which commands, in which order, when
//! to stop, what counts as failure — is made here.

use vstd::prelude::*;

use crate::cache::str_eq;
use crate::error::Error;

verus! {

/// The recognised desktop strategies.
#[derive(Debug, Clone, Copy, PartialEq, Eq, Structural)]
pub enum Desktop {
    /// A dark/light aware desktop: both background variants are set.
    Gnome,
    /// Any other desktop: one smooth-transition command.
    Generic,
}

/// Picks the strategy from the desktop environment's name.
pub fn classify_desktop(name: &str) -> (r: Desktop)
    ensures
        r == (if name@ == "GNOME"@ {
            Desktop::Gnome
        } else {
            Desktop::Generic
        }),
{
    if str_eq(name, "GNOME") {
        Desktop::Gnome
    } else {
        Desktop::Generic
    }
}

/// One subprocess invocation: a program and its arguments.
#[derive(Debug, Clone, PartialEq, Eq)]
pub struct CommandSpec {
    pub program: String,
    pub args: Vec<String>,
}

/// How a spawned command ended: it could not be spawned at all, or it exited
/// and reported a code (`None` when the process ended without one).
#[derive(Debug, Clone, Copy, PartialEq, Eq)]
pub enum CommandOutcome {
    SpawnError,
    Exited { code: Option<i32> },
}

/// The one outcome that counts as success: an exit with code zero.
pub open spec fn outcome_ok(o: CommandOutcome) -> bool {
    o == (CommandOutcome::Exited { code: Some(0i32) })
}

/// The error a failed outcome is reported as: a spawn error carries no exit
/// code, an exit carries the code it reported.
pub open spec fn outcome_error(o: CommandOutcome) -> Error {
    match o {
        CommandOutcome::SpawnError => Error::ApplyFailure { exit_code: None },
        CommandOutcome::Exited { code } => Error::ApplyFailure { exit_code: code },
    }
}

/// A `gsettings` call that sets one background key to the file's URI.
pub open spec fn is_gsettings_command(c: CommandSpec, key: Seq<char>, path: Seq<char>) -> bool {
    &&& c.program@ == "gsettings"@
    &&& c.args@.len() == 4
    &&& c.args@[0]@ == "set"@
    &&& c.args@[1]@ == "org.gnome.desktop.background"@
    &&& c.args@[2]@ == key
    &&& c.args@[3]@ == "file://"@ + path
}

/// The single `swww` call with a smooth fade transition.
pub open spec fn is_swww_command(c: CommandSpec, path: Seq<char>) -> bool {
    &&& c.program@ == "swww"@
    &&& c.args@.len() == 6
    &&& c.args@[0]@ == "img"@
    &&& c.args@[1]@ == "--transition-type"@
    &&& c.args@[2]@ == "fade"@
    &&& c.args@[3]@ == "--transition-bezier"@
    &&& c.args@[4]@ == "0,0,1,1"@
    &&& c.args@[5]@ == path
}

/// The command sequence a strategy runs for a wallpaper file.
pub open spec fn plan_ok(desktop: Desktop, path: Seq<char>, cmds: Seq<CommandSpec>) -> bool {
    match desktop {
        Desktop::Gnome => {
            &&& cmds.len() == 2
            &&& is_gsettings_command(cmds[0], "picture-uri"@, path)
            &&& is_gsettings_command(cmds[1], "picture-uri-dark"@, path)
        },
        Desktop::Generic => {
            &&& cmds.len() == 1
            &&& is_swww_command(cmds[0], path)
        },
    }
}

fn gsettings_command(key: &str, path: &str) -> (c: CommandSpec)
    ensures
        is_gsettings_command(c, key@, path@),
{
    let mut uri = String::from_str("file://");
    uri.append(path);
    let mut args: Vec<String> = Vec::new();
    args.push(String::from_str("set"));
    args.push(String::from_str("org.gnome.desktop.background"));
    args.push(key.to_owned());
    args.push(uri);
    CommandSpec { program: String::from_str("gsettings"), args }
}

fn swww_command(path: &str) -> (c: CommandSpec)
    ensures
        is_swww_command(c, path@),
{
    let mut args: Vec<String> = Vec::new();
    args.push(String::from_str("img"));
    args.push(String::from_str("--transition-type"));
    args.push(String::from_str("fade"));
    args.push(String::from_str("--transition-bezier"));
    args.push(String::from_str("0,0,1,1"));
    args.push(path.to_owned());
    CommandSpec { program: String::from_str("swww"), args }
}

/// One application of a wallpaper file: the planned commands, how far the
/// run has come, and the failure that stopped it, if one did.
///
/// The driver asks `next_command` what to spawn and reports each outcome
/// through `record`; once the run is done, `into_result` is the apply step's
/// ended.  A failed command ends the run — `next_command` hands out
/// nothing after a failure, so a dark/light aware desktop's second variant
/// is never attempted when the first failed.
pub struct ApplyRun {
    pub commands: Vec<CommandSpec>,
    pub next: usize,
    pub failure: Option<Error>,
}

impl ApplyRun {
    /// The run's bookkeeping stays within its plan.
    pub open spec fn wf(&self) -> bool {
        self.next <= self.commands@.len()
    }

    /// Nothing is left to spawn: a command failed, or all have run.
    pub open spec fn done(&self) -> bool {
        self.failure is Some || self.next == self.commands@.len()
    }

    /// Plans the run for a strategy and a wallpaper file path.
    pub fn new(desktop: Desktop, path: &str) -> (r: ApplyRun)
        ensures
            r.wf(),
            plan_ok(desktop, path@, r.commands@),
            r.next == 0,
            r.failure is None,
    {
        let mut commands: Vec<CommandSpec> = Vec::new();
        match desktop {
            Desktop::Gnome => {
                commands.push(gsettings_command("picture-uri", path));
                commands.push(gsettings_command("picture-uri-dark", path));
            },
            Desktop::Generic => {
                commands.push(swww_command(path));
            },
        }
        ApplyRun { commands, next: 0, failure: None }
    }

    /// The command to spawn next; nothing once the run is done.
    pub fn next_command(&self) -> (r: Option<&CommandSpec>)
        requires
            self.wf(),
        ensures
            r is Some <==> !self.done(),
            r matches Some(c) ==> *c == self.commands@[self.next as int],
    {
        if self.failure.is_some() {
            return None;
        }
        if self.next < self.commands.len() {
            Some(&self.commands[self.next])
        } else {
            None
        }
    }

    /// Records how the spawned command ended: success moves the run one
    /// command forward, anything else stops it with the outcome's error.
    pub fn record(&mut self, outcome: CommandOutcome)
        requires
            old(self).wf(),
            !old(self).done(),
        ensures
            final(self).wf(),
            final(self).commands == old(self).commands,
            outcome_ok(outcome) ==> final(self).next == old(self).next + 1
                && final(self).failure is None,
            !outcome_ok(outcome) ==> final(self).next == old(self).next && final(self).failure
                == Some(outcome_error(outcome)),
    {
        match outcome {
            CommandOutcome::Exited { code: Some(0) } => {
                let n = self.commands.len();
                assert(self.next < n);
                self.next = self.next + 1;
            },
            CommandOutcome::SpawnError => {
                self.failure = Some(Error::ApplyFailure { exit_code: None });
            },
            CommandOutcome::Exited { code } => {
                self.failure = Some(Error::ApplyFailure { exit_code: code });
            },
        }
    }

    /// How the apply step ended: the failure that stopped the run, or
    /// success when every planned command exited with code zero.
    pub fn into_result(self) -> (r: Result<(), Error>)
        requires
            self.done(),
        ensures
            self.failure matches Some(e) ==> r == Err::<(), Error>(e),
            self.failure is None ==> r == Ok::<(), Error>(()),
    {
        match self.failure {
            Some(e) => Err(e),
            None => Ok(()),
        }
    }
}

} // verus!
