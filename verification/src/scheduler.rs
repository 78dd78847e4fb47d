//! Which monitors have a running check task: one task per active monitor,
//! started, replaced or torn down as monitors are created, updated, paused,
//! resumed and deleted, and the decisions of each task's loop.
use vstd::prelude::*;
use crate::checks::{at_least_one, clamp_secs};
use crate::models::Monitor;
use rand::Rng;

verus! {

/// The running check tasks, each known by the id of its monitor and a
/// token that names the task to whoever runs it.
pub struct TaskRegistry {
    entries: Vec<(String, u64)>,
    tasks: Ghost<Map<Seq<char>, u64>>,
}

impl View for TaskRegistry {
    type V = Map<Seq<char>, u64>;

    closed spec fn view(&self) -> Map<Seq<char>, u64> {
        self.tasks@
    }
}

impl TaskRegistry {
    /// The registry's internal consistency: each monitor has at most one task.
    pub closed spec fn wf(&self) -> bool {
        &&& forall|i: int|
            0 <= i < self.entries@.len() ==> self.tasks@.contains_key(#[trigger] self.entries@[i].0@)
                && self.tasks@[self.entries@[i].0@] == self.entries@[i].1
        &&& forall|k: Seq<char>|
            self.tasks@.contains_key(k) ==> exists|i: int|
                0 <= i < self.entries@.len() && #[trigger] self.entries@[i].0@ == k
        &&& forall|i: int, j: int|
            0 <= i < self.entries@.len() && 0 <= j < self.entries@.len() && i != j
                ==> #[trigger] self.entries@[i].0@ != #[trigger] self.entries@[j].0@
    }

    /// A registry with no task.
    pub fn new() -> (r: TaskRegistry)
        ensures
            r.wf(),
            r@ == Map::<Seq<char>, u64>::empty(),
    {
        TaskRegistry { entries: Vec::new(), tasks: Ghost(Map::empty()) }
    }

    fn position(&self, id: &str) -> (r: Option<usize>)
        requires
            self.wf(),
        ensures
            match r {
                Some(i) => i < self.entries@.len() && self.entries@[i as int].0@ == id@,
                None => !self@.contains_key(id@),
            },
    {
        let mut i: usize = 0;
        while i < self.entries.len()
            invariant
                self.wf(),
                i <= self.entries@.len(),
                forall|k: int| 0 <= k < i ==> #[trigger] self.entries@[k].0@ != id@,
            decreases self.entries@.len() - i,
        {
            if crate::text::same_text(self.entries[i].0.as_str(), id) {
                return Some(i);
            }
            i = i + 1;
        }
        None
    }

    /// The token of the task that runs `id`'s checks, if one runs.
    pub fn lookup(&self, id: &str) -> (r: Option<u64>)
        requires
            self.wf(),
        ensures
            r == (if self@.contains_key(id@) {
                Some(self@[id@])
            } else {
                None
            }),
    {
        match self.position(id) {
            Some(i) => Some(self.entries[i].1),
            None => None,
        }
    }

    /// Records `token` as the task of `id`; the task it replaces, if any, is
    /// returned so that it can be stopped.
    pub fn register(&mut self, id: String, token: u64) -> (replaced: Option<u64>)
        requires
            old(self).wf(),
        ensures
            final(self).wf(),
            final(self)@ == old(self)@.insert(id@, token),
            replaced == (if old(self)@.contains_key(id@) {
                Some(old(self)@[id@])
            } else {
                None
            }),
    {
        let ghost key = id@;
        match self.position(id.as_str()) {
            Some(i) => {
                let previous = self.entries[i].1;
                self.entries.set(i, (id, token));
                self.tasks = Ghost(self.tasks@.insert(key, token));
                proof {
                    assert forall|k: Seq<char>| self.tasks@.contains_key(k) implies exists|j: int|
                        0 <= j < self.entries@.len() && #[trigger] self.entries@[j].0@ == k by {
                        if k != key {
                            let j = choose|j: int|
                                0 <= j < old(self).entries@.len() && #[trigger] old(self).entries@[j].0@ == k;
                            assert(self.entries@[j].0@ == k);
                        } else {
                            assert(self.entries@[i as int].0@ == k);
                        }
                    }
                }
                Some(previous)
            },
            None => {
                self.entries.push((id, token));
                self.tasks = Ghost(self.tasks@.insert(key, token));
                proof {
                    let n = self.entries@.len() - 1;
                    assert(self.entries@[n].0@ == key);
                    assert forall|k: Seq<char>| self.tasks@.contains_key(k) implies exists|j: int|
                        0 <= j < self.entries@.len() && #[trigger] self.entries@[j].0@ == k by {
                        if k != key {
                            let j = choose|j: int|
                                0 <= j < old(self).entries@.len() && #[trigger] old(self).entries@[j].0@ == k;
                            assert(self.entries@[j].0@ == k);
                        } else {
                            assert(self.entries@[n].0@ == k);
                        }
                    }
                    assert forall|a: int, b: int|
                        0 <= a < self.entries@.len() && 0 <= b < self.entries@.len() && a != b
                            implies #[trigger] self.entries@[a].0@ != #[trigger] self.entries@[b].0@ by {
                        if a == n {
                            assert(old(self).tasks@.contains_key(self.entries@[b].0@));
                        } else if b == n {
                            assert(old(self).tasks@.contains_key(self.entries@[a].0@));
                        }
                    }
                }
                None
            },
        }
    }

    /// Forgets the task of `id`, returning it so that it can be stopped.
    pub fn unregister(&mut self, id: &str) -> (removed: Option<u64>)
        requires
            old(self).wf(),
        ensures
            final(self).wf(),
            final(self)@ == old(self)@.remove(id@),
            removed == (if old(self)@.contains_key(id@) {
                Some(old(self)@[id@])
            } else {
                None
            }),
    {
        match self.position(id) {
            Some(i) => {
                let previous = self.entries[i].1;
                let ghost old_entries = self.entries@;
                self.entries.remove(i);
                self.tasks = Ghost(self.tasks@.remove(id@));
                proof {
                    assert forall|j: int| 0 <= j < self.entries@.len() implies self.tasks@.contains_key(
                        #[trigger] self.entries@[j].0@,
                    ) && self.tasks@[self.entries@[j].0@] == self.entries@[j].1 by {
                        let src = if j < i {
                            j
                        } else {
                            j + 1
                        };
                        assert(self.entries@[j] == old_entries[src]);
                        assert(old_entries[src].0@ != old_entries[i as int].0@);
                    }
                    assert forall|k: Seq<char>| self.tasks@.contains_key(k) implies exists|j: int|
                        0 <= j < self.entries@.len() && #[trigger] self.entries@[j].0@ == k by {
                        let j = choose|j: int|
                            0 <= j < old_entries.len() && #[trigger] old_entries[j].0@ == k;
                        assert(j != i);
                        if j < i {
                            assert(self.entries@[j] == old_entries[j]);
                        } else {
                            assert(self.entries@[j - 1] == old_entries[j]);
                        }
                    }
                    assert forall|a: int, b: int|
                        0 <= a < self.entries@.len() && 0 <= b < self.entries@.len() && a != b
                            implies #[trigger] self.entries@[a].0@ != #[trigger] self.entries@[b].0@ by {
                        let sa = if a < i {
                            a
                        } else {
                            a + 1
                        };
                        let sb = if b < i {
                            b
                        } else {
                            b + 1
                        };
                        assert(self.entries@[a] == old_entries[sa]);
                        assert(self.entries@[b] == old_entries[sb]);
                    }
                }
                Some(previous)
            },
            None => {
                assert(self.tasks@.remove(id@) =~= self.tasks@);
                None
            },
        }
    }
}

/// Something that happened to a monitor and may change its task.
#[derive(Debug, Clone, Copy, PartialEq, Eq, Structural)]
pub enum MonitorEvent {
    /// The monitor was stored with this `active` setting.
    Created { active: bool },
    /// The monitor's settings were replaced; `active` is the new setting.
    Updated { active: bool },
    /// The monitor was paused.
    Paused,
    /// The monitor was resumed.
    Resumed,
    /// The monitor was deleted.
    Deleted,
}

/// What becomes of a monitor's task.
#[derive(Debug, Clone, Copy, PartialEq, Eq, Structural)]
pub enum TaskCommand {
    /// Start a fresh task, stopping any that runs.
    Start,
    /// Stop the task, if one runs.
    Stop,
    /// Leave things as they are.
    Keep,
}

/// The command for an event: an active monitor that is created or updated,
/// and a resumed one, get a fresh task (an update restarts it with the new
/// settings); an inactive update, a pause and a deletion stop it; an
/// inactive monitor that is created gets none.
pub open spec fn command_for(event: MonitorEvent) -> TaskCommand {
    match event {
        MonitorEvent::Created { active } => if active {
            TaskCommand::Start
        } else {
            TaskCommand::Keep
        },
        MonitorEvent::Updated { active } => if active {
            TaskCommand::Start
        } else {
            TaskCommand::Stop
        },
        MonitorEvent::Paused => TaskCommand::Stop,
        MonitorEvent::Resumed => TaskCommand::Start,
        MonitorEvent::Deleted => TaskCommand::Stop,
    }
}

/// The command for an event.
pub fn task_command(event: MonitorEvent) -> (c: TaskCommand)
    ensures
        c == command_for(event),
{
    match event {
        MonitorEvent::Created { active } => if active {
            TaskCommand::Start
        } else {
            TaskCommand::Keep
        },
        MonitorEvent::Updated { active } => if active {
            TaskCommand::Start
        } else {
            TaskCommand::Stop
        },
        MonitorEvent::Paused => TaskCommand::Stop,
        MonitorEvent::Resumed => TaskCommand::Start,
        MonitorEvent::Deleted => TaskCommand::Stop,
    }
}

/// What the task runner must do after an event.
#[derive(Debug, Clone, Copy, PartialEq, Eq, Structural)]
pub struct TaskChange {
    /// Start the task named by the token handed in.
    pub start: bool,
    /// Stop the task with this token.
    pub stop: Option<u64>,
}

impl TaskRegistry {
    /// Applies `event` for monitor `id`; `token` names the task to start
    /// should one be started.
    pub fn apply(&mut self, id: String, event: MonitorEvent, token: u64) -> (change: TaskChange)
        requires
            old(self).wf(),
        ensures
            final(self).wf(),
            change.start == (command_for(event) == TaskCommand::Start),
            command_for(event) == TaskCommand::Start ==> final(self)@ == old(self)@.insert(id@, token),
            command_for(event) == TaskCommand::Stop ==> final(self)@ == old(self)@.remove(id@),
            command_for(event) == TaskCommand::Keep ==> final(self)@ == old(self)@,
            change.stop == (if command_for(event) != TaskCommand::Keep && old(self)@.contains_key(id@) {
                Some(old(self)@[id@])
            } else {
                None
            }),
    {
        match task_command(event) {
            TaskCommand::Start => {
                let stop = self.register(id, token);
                TaskChange { start: true, stop }
            },
            TaskCommand::Stop => {
                let stop = self.unregister(id.as_str());
                TaskChange { start: false, stop }
            },
            TaskCommand::Keep => TaskChange { start: false, stop: None },
        }
    }
}

/// After a pause or a deletion a monitor has no task, so nothing more is
/// checked or stored for it; after a resume, or a create or update that
/// leaves it active, exactly the new task runs; the task that was running
/// before is handed back to be stopped whenever it is replaced or removed;
/// other monitors' tasks are untouched.
pub proof fn lemma_task_lifecycle(
    before: Map<Seq<char>, u64>,
    after: Map<Seq<char>, u64>,
    id: Seq<char>,
    event: MonitorEvent,
    token: u64,
    other: Seq<char>,
)
    requires
        command_for(event) == TaskCommand::Start ==> after == before.insert(id, token),
        command_for(event) == TaskCommand::Stop ==> after == before.remove(id),
        command_for(event) == TaskCommand::Keep ==> after == before,
        other != id,
    ensures
        (event == MonitorEvent::Paused || event == MonitorEvent::Deleted) ==> !after.contains_key(id),
        (event == MonitorEvent::Resumed || event == (MonitorEvent::Created { active: true })
            || event == (MonitorEvent::Updated { active: true })) ==> after.contains_key(id)
            && after[id] == token,
        event == (MonitorEvent::Updated { active: false }) ==> !after.contains_key(id),
        event == (MonitorEvent::Created { active: false }) ==> after == before,
        after.contains_key(other) == before.contains_key(other),
        after.contains_key(other) ==> after[other] == before[other],
{
}

/// What a monitor's task does next.
#[derive(Debug, Clone, Copy, PartialEq, Eq, Structural)]
pub enum LoopStep {
    /// The monitor is gone or inactive: the task ends.
    Stop,
    /// Check the monitor, then sleep this many seconds.
    CheckThenSleep(u64),
}

/// The step of a monitor's task given the monitor as just read: a missing
/// or inactive monitor ends the task; otherwise it is checked, then the task
/// sleeps its interval (at least one second).
pub fn loop_step(current: &Option<Monitor>) -> (step: LoopStep)
    ensures
        match current {
            Some(m) => if m.active {
                step == LoopStep::CheckThenSleep(at_least_one(m.interval_sec) as u64)
            } else {
                step == LoopStep::Stop
            },
            None => step == LoopStep::Stop,
        },
{
    match current {
        Some(m) => if m.active {
            LoopStep::CheckThenSleep(clamp_secs(m.interval_sec))
        } else {
            LoopStep::Stop
        },
        None => LoopStep::Stop,
    }
}

/// Calls `rand::thread_rng().gen_range(0..bound)`. rand documents the value
/// as drawn from the half-open range, and panics on an empty one, which the
/// `requires` excludes; the contract claims the range and nothing else.
#[verifier::external_body]
fn random_below(bound: u64) -> (r: u64)
    requires
        bound > 0,
    ensures
        r < bound,
{
    rand::thread_rng().gen_range(0..bound)
}

/// A random delay before a monitor's first check at start-up, below its
/// interval (at least one second), so that monitors do not all fire at once.
pub fn startup_delay_secs(interval_sec: i64) -> (d: u64)
    ensures
        d < at_least_one(interval_sec),
{
    random_below(clamp_secs(interval_sec))
}

/// Something that happened on a realtime connection.
#[derive(Debug, Clone)]
pub enum RelayEvent {
    /// A broadcast message arrived, or the broadcast could not be read
    /// (a lag or a closed channel).
    Broadcast(Option<String>),
    /// Forwarding a message to the client succeeded or failed.
    Sent(bool),
    /// The client sent a frame (`true`), or it closed or failed (`false`).
    FromClient(bool),
}

/// What a realtime connection does next.
#[derive(Debug, Clone)]
pub enum RelayAction {
    /// Send this text to the client.
    Forward(String),
    /// Keep waiting.
    Continue,
    /// Close the connection.
    Close,
}

/// The realtime relay: every broadcast heartbeat is forwarded, an unreadable
/// broadcast is skipped, frames from the client are ignored, and the
/// connection ends when the client leaves or cannot be written to.
pub fn relay_step(event: RelayEvent) -> (a: RelayAction)
    ensures
        match event {
            RelayEvent::Broadcast(Some(text)) => a matches RelayAction::Forward(t) && t == text,
            RelayEvent::Broadcast(None) => a is Continue,
            RelayEvent::Sent(ok) => if ok {
                a is Continue
            } else {
                a is Close
            },
            RelayEvent::FromClient(ok) => if ok {
                a is Continue
            } else {
                a is Close
            },
        },
{
    match event {
        RelayEvent::Broadcast(Some(text)) => RelayAction::Forward(text),
        RelayEvent::Broadcast(None) => RelayAction::Continue,
        RelayEvent::Sent(ok) => if ok {
            RelayAction::Continue
        } else {
            RelayAction::Close
        },
        RelayEvent::FromClient(ok) => if ok {
            RelayAction::Continue
        } else {
            RelayAction::Close
        },
    }
}

} // verus!
