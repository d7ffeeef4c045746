//! Terminal detection on the console platform, as a machine that asks the
//! platform one question at a time and decides from the replies.
//!
//! A console-mode query on the handle cannot give a false positive, but gives
//! a false negative behind the pseudo-terminal of a POSIX compatibility
//! runtime. A console on a sibling stream shows that the negative is a true
//! one; without one, the handle's file name decides.
use vstd::prelude::*;
use crate::pty_name::{is_msys_pty_record, record_is_msys_pty};

verus! {

/// What the machine asks for next, or its verdict.
#[derive(Clone, Copy, Debug, PartialEq, Eq, Structural)]
pub enum Action {
    /// Whether the handle being classified has a console mode.
    QueryConsole,
    /// Whether the sibling handle at this index has a console mode.
    QuerySiblingConsole(usize),
    /// The file-name record of the handle being classified.
    QueryFileName,
    /// The classification is over: whether the handle is a terminal.
    Report(bool),
}

/// What the platform replied to the last query.
pub enum Reply {
    /// Whether the queried handle has a console mode.
    ConsoleMode(bool),
    /// The file-name record of the handle, or `None` where the query failed.
    FileName(Option<Vec<u8>>),
}

/// Where a classification stands.
#[derive(Clone, Copy, Debug, PartialEq, Eq, Structural)]
pub enum Stage {
    /// Waiting for the handle's own console mode.
    Direct,
    /// Waiting for the console mode of the sibling at this index.
    Sibling(usize),
    /// Waiting for the handle's file-name record.
    Name,
    /// Decided: whether the handle is a terminal.
    Done(bool),
}

/// A classification in progress of one handle, with `siblings` other handles
/// to consult.
#[derive(Clone, Copy, Debug, PartialEq, Eq, Structural)]
pub struct Probe {
    pub stage: Stage,
    pub siblings: usize,
}

/// The action that a stage stands for.
pub open spec fn action_of(stage: Stage) -> Action {
    match stage {
        Stage::Direct => Action::QueryConsole,
        Stage::Sibling(i) => Action::QuerySiblingConsole(i),
        Stage::Name => Action::QueryFileName,
        Stage::Done(b) => Action::Report(b),
    }
}

/// The stage after the first sibling has been passed over, or there is none.
pub open spec fn after_sibling(i: int, siblings: usize) -> Stage {
    if i + 1 < siblings {
        Stage::Sibling((i + 1) as usize)
    } else {
        Stage::Name
    }
}

/// The stage that follows `p` on `reply`. A reply that does not answer the
/// pending query leaves the stage as it is.
pub open spec fn next_stage(p: Probe, reply: Reply) -> Stage {
    match (p.stage, reply) {
        (Stage::Direct, Reply::ConsoleMode(true)) => Stage::Done(true),
        (Stage::Direct, Reply::ConsoleMode(false)) => after_sibling(-1, p.siblings),
        (Stage::Sibling(_), Reply::ConsoleMode(true)) => Stage::Done(false),
        (Stage::Sibling(i), Reply::ConsoleMode(false)) => after_sibling(i as int, p.siblings),
        (Stage::Name, Reply::FileName(None)) => Stage::Done(false),
        (Stage::Name, Reply::FileName(Some(info))) => Stage::Done(record_is_msys_pty(info@)),
        _ => p.stage,
    }
}

impl Probe {
    /// A classification that has not asked anything yet.
    pub open spec fn start(siblings: usize) -> Probe {
        Probe { stage: Stage::Direct, siblings }
    }

    /// Starts the classification of a handle with `siblings` other handles
    /// to consult.
    pub fn new(siblings: usize) -> (p: Probe)
        ensures
            p == Probe::start(siblings),
    {
        Probe { stage: Stage::Direct, siblings }
    }

    /// What the platform is asked next, or the verdict.
    pub fn action(&self) -> (a: Action)
        ensures
            a == action_of(self.stage),
    {
        match self.stage {
            Stage::Direct => Action::QueryConsole,
            Stage::Sibling(i) => Action::QuerySiblingConsole(i),
            Stage::Name => Action::QueryFileName,
            Stage::Done(b) => Action::Report(b),
        }
    }

    /// Takes the platform's reply to the pending query, and says what to do
    /// next.
    pub fn step(&mut self, reply: Reply) -> (a: Action)
        ensures
            final(self).stage == next_stage(*old(self), reply),
            final(self).siblings == old(self).siblings,
            a == action_of(final(self).stage),
    {
        let n = self.siblings;
        let next = match (self.stage, reply) {
            (Stage::Direct, Reply::ConsoleMode(true)) => Stage::Done(true),
            (Stage::Direct, Reply::ConsoleMode(false)) => {
                if 0 < n {
                    Stage::Sibling(0)
                } else {
                    Stage::Name
                }
            },
            (Stage::Sibling(_), Reply::ConsoleMode(true)) => Stage::Done(false),
            (Stage::Sibling(i), Reply::ConsoleMode(false)) => {
                if i < n && i + 1 < n {
                    Stage::Sibling(i + 1)
                } else {
                    Stage::Name
                }
            },
            (Stage::Name, Reply::FileName(None)) => Stage::Done(false),
            (Stage::Name, Reply::FileName(Some(info))) => Stage::Done(
                is_msys_pty_record(info.as_slice()),
            ),
            (stage, _) => stage,
        };
        self.stage = next;
        self.action()
    }
}

/// The reply of a platform on which the handle's console query gives
/// `direct`, that of sibling `i` gives `consoles[i]`, and the file-name query
/// gives `name`.
pub open spec fn reply_to(a: Action, direct: bool, consoles: Seq<bool>, name: Option<Vec<u8>>) -> Reply {
    match a {
        Action::QuerySiblingConsole(i) => Reply::ConsoleMode(consoles[i as int]),
        Action::QueryFileName => Reply::FileName(name),
        _ => Reply::ConsoleMode(direct),
    }
}

/// The stage that `p` reaches in at most `fuel` replies from such a platform.
pub open spec fn run(
    p: Probe,
    direct: bool,
    consoles: Seq<bool>,
    name: Option<Vec<u8>>,
    fuel: nat,
) -> Stage
    decreases fuel,
{
    if fuel == 0 || p.stage is Done {
        p.stage
    } else {
        let reply = reply_to(action_of(p.stage), direct, consoles, name);
        run(
            Probe { stage: next_stage(p, reply), siblings: p.siblings },
            direct,
            consoles,
            name,
            (fuel - 1) as nat,
        )
    }
}

/// Some sibling from index `from` on has a console.
pub open spec fn console_from(consoles: Seq<bool>, from: int) -> bool {
    exists|k: int| from <= k < consoles.len() && consoles[k]
}

/// What the file-name query tells: a failed query tells no terminal.
pub open spec fn name_verdict(name: Option<Vec<u8>>) -> bool {
    match name {
        Some(info) => record_is_msys_pty(info@),
        None => false,
    }
}

/// Whether the handle is a terminal, on such a platform: it has a console;
/// or no sibling has one and its file name is that of a compatibility
/// runtime's pseudo-terminal.
pub open spec fn is_terminal_given(direct: bool, consoles: Seq<bool>, name: Option<Vec<u8>>) -> bool {
    direct || (!console_from(consoles, 0) && name_verdict(name))
}

proof fn lemma_run_from_sibling(
    i: usize,
    n: usize,
    direct: bool,
    consoles: Seq<bool>,
    name: Option<Vec<u8>>,
)
    requires
        consoles.len() == n,
        i < n,
    ensures
        run(Probe { stage: Stage::Sibling(i), siblings: n }, direct, consoles, name, (n - i + 1) as nat)
            == Stage::Done(!console_from(consoles, i as int) && name_verdict(name)),
    decreases n - i,
{
    let p = Probe { stage: Stage::Sibling(i), siblings: n };
    let fuel = (n - i + 1) as nat;
    let q = Probe { stage: next_stage(p, Reply::ConsoleMode(consoles[i as int])), siblings: n };
    assert(run(p, direct, consoles, name, fuel) == run(q, direct, consoles, name, (fuel - 1) as nat));
    if consoles[i as int] {
        assert(console_from(consoles, i as int));
    } else if i + 1 < n {
        lemma_run_from_sibling((i + 1) as usize, n, direct, consoles, name);
        assert(console_from(consoles, i as int) == console_from(consoles, i + 1)) by {
            if console_from(consoles, i as int) {
                let k = choose|k: int| i <= k < consoles.len() && consoles[k];
                assert(k != i);
            }
        }
    } else {
        let r = Probe { stage: Stage::Done(name_verdict(name)), siblings: n };
        assert(run(q, direct, consoles, name, 1) == run(r, direct, consoles, name, 0));
        assert(!console_from(consoles, i as int));
    }
}

/// A classification on a platform that replies consistently is decided
/// within two replies more than there are siblings, and its verdict is
/// `is_terminal_given` of what the platform holds.
pub proof fn lemma_probe_decides(direct: bool, consoles: Seq<bool>, name: Option<Vec<u8>>)
    requires
        consoles.len() <= usize::MAX,
    ensures
        run(Probe::start(consoles.len() as usize), direct, consoles, name, consoles.len() + 2)
            == Stage::Done(is_terminal_given(direct, consoles, name)),
{
    let n = consoles.len() as usize;
    let p = Probe::start(n);
    let fuel = consoles.len() + 2;
    let q = Probe { stage: next_stage(p, Reply::ConsoleMode(direct)), siblings: n };
    assert(run(p, direct, consoles, name, fuel) == run(q, direct, consoles, name, (fuel - 1) as nat));
    if direct {
    } else if 0 < n {
        lemma_run_from_sibling(0, n, direct, consoles, name);
    } else {
        let r = Probe { stage: Stage::Done(name_verdict(name)), siblings: n };
        assert(run(q, direct, consoles, name, 1) == run(r, direct, consoles, name, 0));
    }
}

/// A console on the handle itself decides at once: the first reply gives the
/// verdict true, whatever the siblings and the file name would say.
pub proof fn lemma_console_decides_at_once(siblings: usize, consoles: Seq<bool>, name: Option<Vec<u8>>)
    ensures
        run(Probe::start(siblings), true, consoles, name, 1) == Stage::Done(true),
{
    let q = Probe { stage: Stage::Done(true), siblings };
    assert(run(q, true, consoles, name, 0) == Stage::Done(true));
}

/// Where the handle has no console but a sibling has one, the handle is not a
/// terminal, whatever its file name.
pub proof fn lemma_sibling_console_is_true_negative(
    consoles: Seq<bool>,
    name: Option<Vec<u8>>,
    i: int,
)
    requires
        consoles.len() <= usize::MAX,
        0 <= i < consoles.len(),
        consoles[i],
    ensures
        run(Probe::start(consoles.len() as usize), false, consoles, name, consoles.len() + 2)
            == Stage::Done(false),
{
    lemma_probe_decides(false, consoles, name);
    assert(console_from(consoles, 0));
}

} // verus!
