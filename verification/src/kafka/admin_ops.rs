//! The queue of administrative commands. Commands are taken one at a time,
//! in the order in which they were submitted; whoever submits one learns
//! nothing of how it went.

use std::collections::VecDeque;
use vstd::prelude::*;

verus! {

/// A change to the topics of a cluster that the operator asks for, or the
/// request to stop taking commands.
#[derive(Debug)]
pub enum AdminCommand {
    /// Create a topic: name, number of partitions, replication factor.
    CreateTopic(String, i32, i32),
    /// Delete the topic of the given name.
    DeleteTopic(String),
    /// Give the topic the given number of partitions in all.
    AddPartition(String, i32),
    /// Stop: whatever is submitted after this command is never carried out.
    Stop,
}

impl Clone for AdminCommand {
    fn clone(&self) -> (r: Self)
        ensures
            r == *self,
    {
        match self {
            AdminCommand::CreateTopic(name, partitions, replication) => AdminCommand::CreateTopic(
                name.clone(),
                *partitions,
                *replication,
            ),
            AdminCommand::DeleteTopic(name) => AdminCommand::DeleteTopic(name.clone()),
            AdminCommand::AddPartition(name, total) => AdminCommand::AddPartition(
                name.clone(),
                *total,
            ),
            AdminCommand::Stop => AdminCommand::Stop,
        }
    }
}

/// One request to the admin interface of a cluster.
#[derive(Debug)]
pub enum AdminCall {
    /// Create the topic `name` with the given number of partitions, each
    /// kept on `replication` brokers.
    CreateTopic { name: String, partitions: i32, replication: i32 },
    /// Delete the topic `name`.
    DeleteTopic { name: String },
    /// Raise the number of partitions of `topic` to `total`.
    CreatePartitions { topic: String, total: i32 },
}

/// The request that carries out a command; none for `Stop`.
pub open spec fn call_of(cmd: AdminCommand) -> Option<AdminCall> {
    match cmd {
        AdminCommand::CreateTopic(name, partitions, replication) => Some(
            AdminCall::CreateTopic { name, partitions, replication },
        ),
        AdminCommand::DeleteTopic(name) => Some(AdminCall::DeleteTopic { name }),
        AdminCommand::AddPartition(topic, total) => Some(
            AdminCall::CreatePartitions { topic, total },
        ),
        AdminCommand::Stop => None,
    }
}

impl AdminCommand {
    /// The request that carries out this command; none for `Stop`.
    pub fn into_call(self) -> (r: Option<AdminCall>)
        ensures
            r == call_of(self),
    {
        match self {
            AdminCommand::CreateTopic(name, partitions, replication) => Some(
                AdminCall::CreateTopic { name, partitions, replication },
            ),
            AdminCommand::DeleteTopic(name) => Some(AdminCall::DeleteTopic { name }),
            AdminCommand::AddPartition(topic, total) => Some(
                AdminCall::CreatePartitions { topic, total },
            ),
            AdminCommand::Stop => None,
        }
    }
}

/// What the worker does next.
#[derive(Debug)]
pub enum WorkerStep {
    /// Make this request, wait until it has resolved, whatever the outcome,
    /// and come back for the next.
    Execute(AdminCall),
    /// Nothing is queued: wait until a command is submitted.
    Wait,
    /// Stop working.
    Exit,
}

/// The requests that a worker makes for the commands `cmds`, submitted in
/// this order to a queue that was empty: one for each command up to the first
/// `Stop`, in the order of submission.
pub open spec fn executed(cmds: Seq<AdminCommand>) -> Seq<AdminCall>
    decreases cmds.len(),
{
    if cmds.len() == 0 {
        Seq::empty()
    } else {
        match call_of(cmds[0]) {
            Some(call) => seq![call] + executed(cmds.drop_first()),
            None => Seq::empty(),
        }
    }
}

/// The state of a [`CommandQueue`], as plain values.
pub struct QueueView {
    /// The commands that wait, the one submitted first in front.
    pub pending: Seq<AdminCommand>,
    /// Whether the worker has been told to stop.
    pub stopped: bool,
}

impl QueueView {
    /// Whether a command that is submitted now is taken.
    pub open spec fn accepts(self) -> bool {
        !self.stopped
    }

    /// The queue after `cmd` was submitted: the command waits behind all
    /// that wait already. A stopped queue drops it.
    pub open spec fn submit(self, cmd: AdminCommand) -> QueueView {
        if self.stopped {
            self
        } else {
            QueueView { pending: self.pending.push(cmd), stopped: false }
        }
    }

    /// What the worker does next: the request for the command in front, or
    /// the end of its work where that command is `Stop`.
    pub open spec fn next_step(self) -> WorkerStep {
        if self.stopped {
            WorkerStep::Exit
        } else if self.pending.len() == 0 {
            WorkerStep::Wait
        } else {
            match call_of(self.pending[0]) {
                Some(call) => WorkerStep::Execute(call),
                None => WorkerStep::Exit,
            }
        }
    }

    /// The queue after the worker took its next step: the command in front
    /// is gone, and with a `Stop` all that waited behind it.
    pub open spec fn after_step(self) -> QueueView {
        if self.stopped || self.pending.len() == 0 {
            self
        } else if self.pending[0] is Stop {
            QueueView { pending: Seq::empty(), stopped: true }
        } else {
            QueueView { pending: self.pending.drop_first(), stopped: false }
        }
    }

    /// A stopped queue holds nothing.
    pub open spec fn well_formed(self) -> bool {
        self.stopped ==> self.pending.len() == 0
    }
}

/// The commands that wait for the one worker of a connection.
#[derive(Debug)]
pub struct CommandQueue {
    pending: VecDeque<AdminCommand>,
    stopped: bool,
}

impl View for CommandQueue {
    type V = QueueView;

    closed spec fn view(&self) -> QueueView {
        QueueView { pending: self.pending@, stopped: self.stopped }
    }
}

impl CommandQueue {
    /// An empty queue whose worker runs.
    pub fn new() -> (r: Self)
        ensures
            r@ == (QueueView { pending: Seq::empty(), stopped: false }),
            r@.well_formed(),
    {
        CommandQueue { pending: VecDeque::new(), stopped: false }
    }

    /// The number of commands that wait.
    pub fn len(&self) -> (r: usize)
        ensures
            r == self@.pending.len(),
    {
        self.pending.len()
    }

    /// Whether the worker has been told to stop.
    pub fn is_stopped(&self) -> (r: bool)
        ensures
            r == self@.stopped,
    {
        self.stopped
    }

    /// Puts a command at the end of the queue and says whether it was taken.
    /// Only a queue whose worker has stopped drops a command.
    pub fn submit(&mut self, cmd: AdminCommand) -> (accepted: bool)
        ensures
            accepted == old(self)@.accepts(),
            final(self)@ == old(self)@.submit(cmd),
            old(self)@.well_formed() ==> final(self)@.well_formed(),
    {
        if self.stopped {
            false
        } else {
            self.pending.push_back(cmd);
            true
        }
    }

    /// Takes the command in front of the queue and says what the worker does
    /// for it.
    pub fn step(&mut self) -> (r: WorkerStep)
        ensures
            r == old(self)@.next_step(),
            final(self)@ == old(self)@.after_step(),
            old(self)@.well_formed() ==> final(self)@.well_formed(),
    {
        if self.stopped {
            return WorkerStep::Exit;
        }
        match self.pending.pop_front() {
            None => WorkerStep::Wait,
            Some(cmd) => match cmd.into_call() {
                Some(call) => WorkerStep::Execute(call),
                None => {
                    self.pending.clear();
                    self.stopped = true;
                    WorkerStep::Exit
                },
            },
        }
    }
}

/// The requests that the worker makes, step after step, until it has to wait
/// or exits.
pub open spec fn drained(queue: QueueView) -> Seq<AdminCall>
    decreases queue.pending.len(),
{
    match queue.next_step() {
        WorkerStep::Execute(call) => seq![call] + drained(queue.after_step()),
        _ => Seq::empty(),
    }
}

/// A worker that starts on a running queue makes the requests of `executed`
/// for what waits there; on a stopped queue it makes none.
pub proof fn law_worker_makes_the_requests_of_the_queue(queue: QueueView)
    ensures
        !queue.stopped ==> drained(queue) == executed(queue.pending),
        queue.stopped ==> drained(queue) == Seq::<AdminCall>::empty(),
    decreases queue.pending.len(),
{
    if !queue.stopped && queue.pending.len() > 0 && !(queue.pending[0] is Stop) {
        law_worker_makes_the_requests_of_the_queue(queue.after_step());
    }
}

/// Commands are carried out in the order in which they were submitted, one
/// request for each: as long as none of them is `Stop`, the requests are
/// those of the commands, in the same order.
pub proof fn law_commands_run_in_order(cmds: Seq<AdminCommand>)
    requires
        forall|i: int| 0 <= i < cmds.len() ==> !(#[trigger] cmds[i] is Stop),
    ensures
        executed(cmds).len() == cmds.len(),
        forall|i: int| 0 <= i < cmds.len() ==> Some(#[trigger] executed(cmds)[i]) == call_of(cmds[i]),
    decreases cmds.len(),
{
    if cmds.len() > 0 {
        let rest = cmds.drop_first();
        assert forall|i: int| 0 <= i < rest.len() implies !(#[trigger] rest[i] is Stop) by {
            assert(rest[i] == cmds[i + 1]);
        }
        law_commands_run_in_order(rest);
        assert forall|i: int| 0 <= i < cmds.len() implies Some(#[trigger] executed(cmds)[i])
            == call_of(cmds[i]) by {
            if i > 0 {
                assert(executed(cmds)[i] == executed(rest)[i - 1]);
            }
        }
    }
}

/// `Stop` ends the work: what was submitted before it is carried out, what
/// was submitted after it never is.
pub proof fn law_stop_ends_the_work(before: Seq<AdminCommand>, after: Seq<AdminCommand>)
    ensures
        executed(before + seq![AdminCommand::Stop] + after) == executed(before),
    decreases before.len(),
{
    let all = before + seq![AdminCommand::Stop] + after;
    if before.len() > 0 {
        assert(all.drop_first() =~= before.drop_first() + seq![AdminCommand::Stop] + after);
        law_stop_ends_the_work(before.drop_first(), after);
    }
}

/// Step by step the worker makes the requests of `executed`: the request of
/// a step is the first of those for the waiting commands, and the rest are
/// those for the commands that wait after the step. A worker that waits or
/// exits has no request left to make.
pub proof fn law_steps_follow_the_queue(queue: QueueView)
    requires
        queue.well_formed(),
    ensures
        match queue.next_step() {
            WorkerStep::Execute(call) => executed(queue.pending) == seq![call] + executed(
                queue.after_step().pending,
            ),
            WorkerStep::Wait => executed(queue.pending).len() == 0
                && queue.after_step() == queue,
            WorkerStep::Exit => executed(queue.pending).len() == 0
                && queue.after_step().stopped && queue.after_step().pending.len() == 0,
        },
{
}

/// A command that is submitted to a running queue waits behind all that
/// wait already, and nothing else changes; a stopped queue drops it.
pub proof fn law_submit_appends(queue: QueueView, cmd: AdminCommand)
    ensures
        queue.accepts() ==> queue.submit(cmd).pending == queue.pending.push(cmd),
        !queue.accepts() ==> queue.submit(cmd) == queue,
        queue.submit(cmd).stopped == queue.stopped,
{
}

} // verus!
