use vstd::prelude::*;

use crate::command::{parse_command, CommandLine};
use crate::discord::{is_change_message, is_plain_message, started_text};
use crate::error::PulseError;
use crate::text::tokens;
use crate::types::{DiscordMessage, MonitorConfig};

verus! {

/// Whether new output counts as a change against the last output seen:
/// always when nothing was seen yet, else when the two differ.
pub open spec fn has_changed(last: Option<Seq<char>>, output: Seq<char>) -> bool {
    last != Some(output)
}

/// The last output seen after a run that printed `output`.
pub open spec fn next_last(last: Option<Seq<char>>, output: Seq<char>) -> Option<Seq<char>> {
    if has_changed(last, output) {
        Some(output)
    } else {
        last
    }
}

/// The view of an optional string.
pub open spec fn opt_view(s: Option<String>) -> Option<Seq<char>> {
    match s {
        Some(t) => Some(t@),
        None => None,
    }
}

/// Where a monitor stands in its run.
#[derive(Debug, Clone, Copy, PartialEq, Eq, Structural)]
pub enum Phase {
    /// Built, not started.
    Idle,
    /// Waiting for the start notice to be posted.
    Announcing,
    /// Waiting for the command to finish.
    Executing,
    /// Waiting for a change notification to be posted.
    Notifying,
    /// Waiting out the interval.
    Sleeping,
    /// Stopped for good: the start notice failed.
    Stopped,
}

/// What the caller reports back to a monitor.
#[derive(Debug)]
pub enum Event {
    /// The caller starts the monitor.
    Start,
    /// The start notice was posted, or failed.
    Announced(Result<(), PulseError>),
    /// The command ran, with its text, or failed.
    Executed(Result<String, PulseError>),
    /// A change notification was posted, or failed.
    Notified(Result<(), PulseError>),
    /// The interval is over.
    Woke,
}

/// What a monitor asks the caller to do next.
#[derive(Debug)]
pub enum Action {
    /// Post this start notice; report the outcome with `Event::Announced`.
    Announce(DiscordMessage),
    /// Run the command; report the outcome with `Event::Executed`.
    Execute,
    /// Post this change notification; report with `Event::Notified`.
    Notify(DiscordMessage),
    /// Report the error, if any, to the operator, then sleep `secs` seconds
    /// and report `Event::Woke`.
    Sleep { secs: u64, report: Option<PulseError> },
    /// Stop this monitor with this error.
    Stop(PulseError),
    /// The event does not fit the current phase: nothing changed.
    Ignore,
}

/// The phase that follows `p` on `e`; an event that does not fit leaves it.
pub open spec fn next_phase(p: Phase, e: Event, last: Option<Seq<char>>) -> Phase {
    match (p, e) {
        (Phase::Idle, Event::Start) => Phase::Announcing,
        (Phase::Announcing, Event::Announced(Ok(_))) => Phase::Executing,
        (Phase::Announcing, Event::Announced(Err(_))) => Phase::Stopped,
        (Phase::Executing, Event::Executed(Ok(out))) => if has_changed(last, out@) {
            Phase::Notifying
        } else {
            Phase::Sleeping
        },
        (Phase::Executing, Event::Executed(Err(_))) => Phase::Sleeping,
        (Phase::Notifying, Event::Notified(_)) => Phase::Sleeping,
        (Phase::Sleeping, Event::Woke) => Phase::Executing,
        _ => p,
    }
}

/// The last output seen after event `e` in phase `p`: only a run in the
/// executing phase that printed something new changes it.
pub open spec fn next_seen(p: Phase, e: Event, last: Option<Seq<char>>) -> Option<Seq<char>> {
    match (p, e) {
        (Phase::Executing, Event::Executed(Ok(out))) => next_last(last, out@),
        _ => last,
    }
}

/// Whether `a` is the action due on event `e` in phase `p`, for monitor
/// `name` with interval `secs` that last saw `last`.
pub open spec fn is_due_action(
    a: Action,
    p: Phase,
    e: Event,
    last: Option<Seq<char>>,
    name: Seq<char>,
    secs: u64,
) -> bool {
    match (p, e) {
        (Phase::Idle, Event::Start) => a matches Action::Announce(m) && is_plain_message(
            m,
            started_text(name),
        ),
        (Phase::Announcing, Event::Announced(Ok(_))) => a is Execute,
        (Phase::Announcing, Event::Announced(Err(x))) => a matches Action::Stop(y) && y == x,
        (Phase::Executing, Event::Executed(Ok(out))) => if has_changed(last, out@) {
            a matches Action::Notify(m) && is_change_message(m, name, out@)
        } else {
            a == (Action::Sleep { secs, report: None })
        },
        (Phase::Executing, Event::Executed(Err(x))) => a == (Action::Sleep {
            secs,
            report: Some(x),
        }),
        (Phase::Notifying, Event::Notified(Ok(_))) => a == (Action::Sleep { secs, report: None }),
        (Phase::Notifying, Event::Notified(Err(x))) => a == (Action::Sleep {
            secs,
            report: Some(x),
        }),
        (Phase::Sleeping, Event::Woke) => a is Execute,
        _ => a is Ignore,
    }
}

/// One command bound to an interval and a webhook, with the last output it
/// reported. It decides, run after run, whether a notification is due; the
/// caller runs the command, posts the messages and sleeps.
#[derive(Debug)]
pub struct Monitor {
    config: MonitorConfig,
    last_output: Option<String>,
    phase: Phase,
}

impl Monitor {
    /// The configuration this monitor runs.
    pub closed spec fn spec_config(&self) -> MonitorConfig {
        self.config
    }

    /// The last output reported, if any.
    pub closed spec fn last_seen(&self) -> Option<Seq<char>> {
        opt_view(self.last_output)
    }

    /// Where the monitor stands.
    pub closed spec fn spec_phase(&self) -> Phase {
        self.phase
    }

    /// A monitor for `config` that has seen no output yet and is not started.
    pub fn new(config: MonitorConfig) -> (r: Monitor)
        ensures
            r.spec_config() == config,
            r.last_seen() is None,
            r.spec_phase() == Phase::Idle,
    {
        Monitor { config, last_output: None, phase: Phase::Idle }
    }

    /// Where the monitor stands.
    pub fn phase(&self) -> (r: Phase)
        ensures
            r == self.spec_phase(),
    {
        self.phase
    }

    /// Takes what the caller reports and says what to do next. The monitor
    /// first asks for the start notice; if that fails it stops. Then it runs
    /// forever: execute, post a change notification when the output differs
    /// from the last one seen (or is the first), sleep the interval. A failed
    /// run or a failed notification is handed back to be reported, and the
    /// monitor sleeps on; the last output seen advances even when its
    /// notification failed.
    pub fn step(&mut self, event: Event) -> (r: Action)
        ensures
            final(self).spec_config() == old(self).spec_config(),
            final(self).spec_phase() == next_phase(
                old(self).spec_phase(),
                event,
                old(self).last_seen(),
            ),
            final(self).last_seen() == next_seen(
                old(self).spec_phase(),
                event,
                old(self).last_seen(),
            ),
            is_due_action(
                r,
                old(self).spec_phase(),
                event,
                old(self).last_seen(),
                old(self).spec_config().name@,
                old(self).spec_config().interval,
            ),
    {
        let secs = self.config.interval;
        match (self.phase, event) {
            (Phase::Idle, Event::Start) => {
                self.phase = Phase::Announcing;
                Action::Announce(self.start_message())
            },
            (Phase::Announcing, Event::Announced(Ok(()))) => {
                self.phase = Phase::Executing;
                Action::Execute
            },
            (Phase::Announcing, Event::Announced(Err(e))) => {
                self.phase = Phase::Stopped;
                Action::Stop(e)
            },
            (Phase::Executing, Event::Executed(execution)) => {
                match self.execute_and_check(execution) {
                    Ok(Some(m)) => {
                        self.phase = Phase::Notifying;
                        Action::Notify(m)
                    },
                    Ok(None) => {
                        self.phase = Phase::Sleeping;
                        Action::Sleep { secs, report: None }
                    },
                    Err(e) => {
                        self.phase = Phase::Sleeping;
                        Action::Sleep { secs, report: Some(e) }
                    },
                }
            },
            (Phase::Notifying, Event::Notified(outcome)) => {
                self.phase = Phase::Sleeping;
                match outcome {
                    Ok(()) => Action::Sleep { secs, report: None },
                    Err(e) => Action::Sleep { secs, report: Some(e) },
                }
            },
            (Phase::Sleeping, Event::Woke) => {
                self.phase = Phase::Executing;
                Action::Execute
            },
            (_, _) => Action::Ignore,
        }
    }

    /// The configuration this monitor runs.
    pub fn config(&self) -> (r: &MonitorConfig)
        ensures
            *r == self.spec_config(),
    {
        &self.config
    }

    /// The last output reported, if any.
    pub fn last_output(&self) -> (r: &Option<String>)
        ensures
            opt_view(*r) == self.last_seen(),
    {
        &self.last_output
    }

    /// The notice posted once when the monitor starts.
    pub fn start_message(&self) -> (r: DiscordMessage)
        ensures
            is_plain_message(r, started_text(self.spec_config().name@)),
    {
        DiscordMessage::started(self.config.name.as_str())
    }

    /// The program and arguments to run, from the configured command line.
    pub fn command_line(&self) -> (r: Result<CommandLine, PulseError>)
        ensures
            tokens(self.spec_config().command@).len() == 0 <==> r is Err,
            r matches Err(e) ==> (e matches PulseError::CommandExecution(m) && m@
                == "Empty command"@),
            r matches Ok(c) ==> tokens(self.spec_config().command@) == seq![c.program@]
                + crate::text::views(c.args@),
    {
        parse_command(self.config.command.as_str())
    }

    /// Takes the outcome of one run of the command. A failed run changes
    /// nothing and its error is handed back. Output that differs from the
    /// last output seen (or the first output) is recorded and the change
    /// notification to post is returned; the same output again gives none.
    pub fn execute_and_check(&mut self, execution: Result<String, PulseError>) -> (r: Result<
        Option<DiscordMessage>,
        PulseError,
    >)
        ensures
            final(self).spec_config() == old(self).spec_config(),
            final(self).spec_phase() == old(self).spec_phase(),
            execution matches Err(e) ==> r matches Err(f) && f == e && final(self).last_seen()
                == old(self).last_seen(),
            execution matches Ok(out) ==> {
                &&& r matches Ok(n)
                &&& (n is Some <==> has_changed(old(self).last_seen(), out@))
                &&& (n matches Some(m) ==> is_change_message(
                    m,
                    old(self).spec_config().name@,
                    out@,
                ))
                &&& final(self).last_seen() == next_last(old(self).last_seen(), out@)
            },
    {
        match execution {
            Err(e) => Err(e),
            Ok(output) => {
                let changed = match &self.last_output {
                    None => true,
                    Some(last) => !(*last == output),
                };
                if changed {
                    let m = DiscordMessage::change(self.config.name.as_str(), output.as_str());
                    self.last_output = Some(output);
                    Ok(Some(m))
                } else {
                    Ok(None)
                }
            },
        }
    }
}

/// Output that did not change between two consecutive runs brings no
/// notification on the second run (the monitor goes to sleep) and leaves the
/// last output as it was.
pub proof fn lemma_same_output_is_quiet(last: Option<Seq<char>>, first: String, second: String)
    requires
        first@ == second@,
    ensures
        ({
            let seen = next_seen(Phase::Executing, Event::Executed(Ok(first)), last);
            let again = Event::Executed(Ok(second));
            &&& !has_changed(seen, second@)
            &&& next_phase(Phase::Executing, again, seen) == Phase::Sleeping
            &&& next_seen(Phase::Executing, again, seen) == seen
        }),
{
}

/// The first run of a monitor always brings a notification, whatever it
/// printed, even nothing, and records that output.
pub proof fn lemma_first_run_notifies(output: String)
    ensures
        has_changed(None, output@),
        next_phase(Phase::Executing, Event::Executed(Ok(output)), None) == Phase::Notifying,
        next_seen(Phase::Executing, Event::Executed(Ok(output)), None) == Some(output@),
{
}

} // verus!
