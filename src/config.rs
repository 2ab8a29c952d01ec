use vstd::prelude::*;

use crate::error::PulseError;
use crate::text::{decimal, format_u64};
use crate::types::MonitorConfig;

verus! {

/// Root configuration: the monitors to run.
#[derive(Debug)]
pub struct Config {
    pub monitors: Vec<MonitorConfig>,
}

/// What is wrong with the monitor at position `idx`, if anything: the first
/// of an empty name, an empty command, an empty webhook URL, a zero interval.
pub open spec fn monitor_problem(idx: nat, m: MonitorConfig) -> Option<Seq<char>> {
    if m.name@.len() == 0 {
        Some("Monitor "@ + decimal(idx) + " has empty name"@)
    } else if m.command@.len() == 0 {
        Some("Monitor '"@ + m.name@ + "' has empty command"@)
    } else if m.webhook@.len() == 0 {
        Some("Monitor '"@ + m.name@ + "' has empty webhook URL"@)
    } else if m.interval == 0 {
        Some("Monitor '"@ + m.name@ + "' has invalid interval (must be > 0)"@)
    } else {
        None
    }
}

/// The problem of the first monitor at or after `from` that has one.
pub open spec fn first_problem(ms: Seq<MonitorConfig>, from: int) -> Option<Seq<char>>
    decreases ms.len() - from,
{
    if from < 0 || from >= ms.len() {
        None
    } else {
        match monitor_problem(from as nat, ms[from]) {
            Some(p) => Some(p),
            None => first_problem(ms, from + 1),
        }
    }
}

/// What is wrong with a list of monitors, if anything: that it is empty, or
/// the problem of its first faulty monitor.
pub open spec fn config_problem(ms: Seq<MonitorConfig>) -> Option<Seq<char>> {
    if ms.len() == 0 {
        Some("No monitors defined in configuration"@)
    } else {
        first_problem(ms, 0)
    }
}

/// Whether a monitor has a name, a command, a webhook URL and a positive interval.
pub open spec fn monitor_ok(m: MonitorConfig) -> bool {
    m.name@.len() > 0 && m.command@.len() > 0 && m.webhook@.len() > 0 && m.interval > 0
}

/// No monitor at or after `from` has a problem exactly when each is valid.
proof fn lemma_first_problem_none(ms: Seq<MonitorConfig>, from: int)
    requires
        0 <= from <= ms.len(),
    ensures
        first_problem(ms, from) is None <==> forall|j: int|
            from <= j < ms.len() ==> #[trigger] monitor_ok(ms[j]),
    decreases ms.len() - from,
{
    if from < ms.len() {
        lemma_first_problem_none(ms, from + 1);
        if first_problem(ms, from) is None {
            assert forall|j: int| from <= j < ms.len() implies #[trigger] monitor_ok(ms[j]) by {
                if j > from {
                }
            }
        }
        if forall|j: int| from <= j < ms.len() ==> #[trigger] monitor_ok(ms[j]) {
            assert(monitor_ok(ms[from]));
            assert forall|j: int| from + 1 <= j < ms.len() implies #[trigger] monitor_ok(ms[j]) by {
                assert(from <= j);
            }
        }
    }
}

/// Builds `a + b + c`.
fn join3(a: &str, b: &str, c: &str) -> (r: String)
    ensures
        r@ == a@ + b@ + c@,
{
    let mut r = String::from_str(a);
    r.append(b);
    r.append(c);
    r
}

impl Config {
    /// Checks that there is at least one monitor and that each has a name, a
    /// command, a webhook URL and a positive interval. The error names the
    /// first problem found.
    pub fn validate(&self) -> (r: Result<(), PulseError>)
        ensures
            r is Ok <==> config_problem(self.monitors@) is None,
            r is Ok <==> (self.monitors@.len() > 0 && forall|j: int|
                0 <= j < self.monitors@.len() ==> #[trigger] monitor_ok(self.monitors@[j])),
            r is Err ==> (r matches Err(PulseError::Config(msg))
                && config_problem(self.monitors@) == Some(msg@)),
    {
        proof {
            lemma_first_problem_none(self.monitors@, 0);
        }
        if self.monitors.len() == 0 {
            return Err(PulseError::Config(String::from_str("No monitors defined in configuration")));
        }
        let mut i: usize = 0;
        while i < self.monitors.len()
            invariant
                i <= self.monitors@.len(),
                self.monitors@.len() > 0,
                first_problem(self.monitors@, 0) == first_problem(self.monitors@, i as int),
            decreases self.monitors@.len() - i,
        {
            let m = &self.monitors[i];
            proof {
                if !monitor_ok(*m) {
                    assert(!monitor_ok(self.monitors@[i as int]));
                }
            }
            if m.name.as_str().is_empty() {
                let idx = format_u64(i as u64);
                return Err(PulseError::Config(join3("Monitor ", idx.as_str(), " has empty name")));
            }
            if m.command.as_str().is_empty() {
                return Err(
                    PulseError::Config(join3("Monitor '", m.name.as_str(), "' has empty command")),
                );
            }
            if m.webhook.as_str().is_empty() {
                return Err(
                    PulseError::Config(join3("Monitor '", m.name.as_str(), "' has empty webhook URL")),
                );
            }
            if m.interval == 0 {
                return Err(
                    PulseError::Config(
                        join3("Monitor '", m.name.as_str(), "' has invalid interval (must be > 0)"),
                    ),
                );
            }
            i = i + 1;
        }
        Ok(())
    }
}

} // verus!
