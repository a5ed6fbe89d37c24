//! The scheduler of the periodic update: a state machine that says what to
//! do next. The caller waits, edits messages and reports back what happened.

use crate::bot_modules::subscribers::{ManagerView, PeriodicEdit, SubscriberManager};
use crate::chat::{ChatId, MessageId};
use crate::time::{Duration, Instant, MAX_NANOS};
use vstd::prelude::*;

verus! {

/// The pause between two chats of one pass, in milliseconds.
pub const PACING_MILLIS: u64 = 50;

/// Where the scheduler stands.
#[derive(Debug, Clone, Copy, PartialEq, Eq, Structural)]
pub enum SchedulerState {
    /// Made, not started.
    Idle,
    /// Waiting for the interval to pass.
    Waiting,
    /// Going through the subscribers.
    Broadcasting,
}

/// What the caller reports to the scheduler.
#[derive(Debug, Clone, Copy, PartialEq, Eq, Structural)]
pub enum SchedulerEvent {
    /// The wait for the interval is over.
    IntervalElapsed,
    /// The edit that was asked for has been tried.
    EditFinished { success: bool },
    /// The pause between two chats is over.
    PauseElapsed,
}

/// What the scheduler asks of the caller.
#[derive(Debug, Clone, PartialEq, Eq)]
pub enum SchedulerAction {
    /// Wait this long, then report [`SchedulerEvent::IntervalElapsed`].
    Wait(Duration),
    /// Try this edit, then report [`SchedulerEvent::EditFinished`].
    Edit(PeriodicEdit),
    /// Wait this long, then report [`SchedulerEvent::PauseElapsed`].
    Pause(Duration),
}

/// A [`SchedulerAction`] as a plain value.
pub enum ActionView {
    Wait(Duration),
    Edit { chat_id: ChatId, message_id: MessageId, text: Seq<char> },
    Pause(Duration),
}

impl View for SchedulerAction {
    type V = ActionView;

    open spec fn view(&self) -> ActionView {
        match self {
            SchedulerAction::Wait(span) => ActionView::Wait(*span),
            SchedulerAction::Edit(edit) => ActionView::Edit {
                chat_id: edit.chat_id,
                message_id: edit.message_id,
                text: edit.text@,
            },
            SchedulerAction::Pause(span) => ActionView::Pause(*span),
        }
    }
}

/// The state of a [`Scheduler`] as a plain value.
pub struct SchedulerView {
    /// The time between two passes.
    pub interval: Duration,
    pub state: SchedulerState,
    /// The chats of the pass in progress, or of the last one.
    pub snapshot: Seq<ChatId>,
    /// How many chats of the snapshot have been dealt with.
    pub position: nat,
    /// Whether an edit for the chat at `position` is under way.
    pub editing: bool,
    /// How many chats of the pass got their update.
    pub success_count: nat,
    /// How many chats of the pass did not.
    pub error_count: nat,
}

/// Whether `order` lists the subscribers of `state`, each once.
pub open spec fn lists_subscribers(order: Seq<ChatId>, state: ManagerView) -> bool {
    &&& order.no_duplicates()
    &&& forall|chat_id: ChatId| order.contains(chat_id) <==> state.is_subscribed(chat_id)
}

/// A scheduler, a manager and an action: what a step leads to.
pub struct Outcome {
    pub scheduler: SchedulerView,
    pub manager: ManagerView,
    pub action: ActionView,
}

impl SchedulerView {
    /// The invariant of the scheduler: the position lies within the
    /// snapshot, every chat before it was counted once, and an edit is under
    /// way only during a pass and only for a chat of the snapshot.
    pub open spec fn wf(self) -> bool {
        &&& self.position <= self.snapshot.len()
        &&& self.success_count + self.error_count == self.position
        &&& self.editing ==> self.state == SchedulerState::Broadcasting && self.position
            < self.snapshot.len()
    }

    /// Whether the scheduler is waiting for `event`.
    pub open spec fn awaits(self, event: SchedulerEvent) -> bool {
        match event {
            SchedulerEvent::IntervalElapsed => self.state == SchedulerState::Waiting,
            SchedulerEvent::EditFinished { .. } => self.state == SchedulerState::Broadcasting
                && self.editing,
            SchedulerEvent::PauseElapsed => self.state == SchedulerState::Broadcasting
                && !self.editing,
        }
    }

    /// The chat whose turn it is.
    pub open spec fn current_chat(self) -> ChatId {
        self.snapshot[self.position as int]
    }

    /// Going to wait: the time of the next pass is published as `now` plus
    /// the interval, and the caller is asked to wait for the interval.
    pub open spec fn enter_waiting(self, manager: ManagerView, now: Instant) -> Outcome {
        Outcome {
            scheduler: SchedulerView { state: SchedulerState::Waiting, editing: false, ..self },
            manager: ManagerView { next_send_time: Some(now.later(self.interval)), ..manager },
            action: ActionView::Wait(self.interval),
        }
    }

    /// Starting a pass over the chats of `order`.
    pub open spec fn begin_pass(self, order: Seq<ChatId>) -> SchedulerView {
        SchedulerView {
            state: SchedulerState::Broadcasting,
            snapshot: order,
            position: 0,
            editing: false,
            success_count: 0,
            error_count: 0,
            ..self
        }
    }

    /// Turning to the chat at the position, during a pass and with no edit
    /// under way.
    ///
    /// - Behind the last chat the pass is over and the wait begins.
    /// - A chat with a status message gets an edit of that message to the
    ///   chat's next status message.
    /// - A chat without one is skipped: it counts as not updated, and a
    ///   pause follows.
    pub open spec fn turn(self, manager: ManagerView, now: Instant) -> Outcome {
        if self.position >= self.snapshot.len() {
            self.enter_waiting(manager, now)
        } else {
            match manager.message_id(self.current_chat()) {
                Some(message_id) => Outcome {
                    scheduler: SchedulerView { editing: true, ..self },
                    manager,
                    action: ActionView::Edit {
                        chat_id: self.current_chat(),
                        message_id,
                        text: manager.next_message(self.current_chat()),
                    },
                },
                None => Outcome {
                    scheduler: SchedulerView {
                        position: self.position + 1,
                        error_count: self.error_count + 1,
                        ..self
                    },
                    manager,
                    action: ActionView::Pause(pacing()),
                },
            }
        }
    }

    /// The edit for the chat at the position has been tried: one that went
    /// through is counted for the chat, one that failed changes nothing for
    /// it, and in both cases the pass goes on behind the chat after a pause.
    pub open spec fn edit_finished(self, manager: ManagerView, success: bool) -> Outcome {
        Outcome {
            scheduler: SchedulerView {
                position: self.position + 1,
                editing: false,
                success_count: if success {
                    self.success_count + 1
                } else {
                    self.success_count
                },
                error_count: if success {
                    self.error_count
                } else {
                    self.error_count + 1
                },
                ..self
            },
            manager: if success {
                manager.increment(self.current_chat())
            } else {
                manager
            },
            action: ActionView::Pause(pacing()),
        }
    }

    /// What `event` leads to. Where a pass begins, `order` is the list of
    /// the subscribers at that moment.
    pub open spec fn next(
        self,
        manager: ManagerView,
        event: SchedulerEvent,
        order: Seq<ChatId>,
        now: Instant,
    ) -> Outcome {
        match event {
            SchedulerEvent::IntervalElapsed => self.begin_pass(order).turn(manager, now),
            SchedulerEvent::EditFinished { success } => self.edit_finished(manager, success),
            SchedulerEvent::PauseElapsed => self.turn(manager, now),
        }
    }
}

/// Whatever is reported to a scheduler that waits for it, the scheduler
/// stays within its invariant and keeps its interval, and while a pass is
/// under way its snapshot stays as it was taken: chats that subscribe during
/// a pass are not part of it.
pub proof fn lemma_step_keeps_invariant(
    scheduler: SchedulerView,
    manager: ManagerView,
    event: SchedulerEvent,
    order: Seq<ChatId>,
    now: Instant,
)
    requires
        scheduler.wf(),
        scheduler.awaits(event),
    ensures
        scheduler.next(manager, event, order, now).scheduler.wf(),
        scheduler.next(manager, event, order, now).scheduler.interval == scheduler.interval,
        !(event is IntervalElapsed) ==> scheduler.next(
            manager,
            event,
            order,
            now,
        ).scheduler.snapshot == scheduler.snapshot,
{
}

/// An edit that failed changes nothing for any chat and does not end the
/// pass: the pass goes on behind the chat, after a pause.
pub proof fn lemma_failed_edit_does_not_end_the_pass(scheduler: SchedulerView, manager: ManagerView)
    requires
        scheduler.wf(),
        scheduler.awaits(SchedulerEvent::EditFinished { success: false }),
    ensures
        ({
            let after = scheduler.edit_finished(manager, false);
            &&& after.manager == manager
            &&& after.scheduler.state == SchedulerState::Broadcasting
            &&& after.scheduler.position == scheduler.position + 1
            &&& after.scheduler.error_count == scheduler.error_count + 1
            &&& after.action == ActionView::Pause(pacing())
        }),
{
}

/// The scheduler never asks for a first message: where it asks for an edit,
/// the edit is for the chat whose turn it is, of the status message that
/// this chat has, to the chat's next status message.
pub proof fn lemma_edits_only_status_messages(
    scheduler: SchedulerView,
    manager: ManagerView,
    now: Instant,
)
    requires
        scheduler.wf(),
        scheduler.awaits(SchedulerEvent::PauseElapsed),
    ensures
        scheduler.turn(manager, now).action matches ActionView::Edit { chat_id, message_id, text }
            ==> {
            &&& chat_id == scheduler.current_chat()
            &&& manager.message_id(chat_id) == Some(message_id)
            &&& text == manager.next_message(chat_id)
        },
        scheduler.turn(manager, now).manager.chats == manager.chats,
{
}

/// The pause between two chats of one pass.
pub open spec fn pacing() -> Duration {
    Duration::milliseconds(PACING_MILLIS)
}

/// Runs the periodic update: after every interval, one pass over the chats
/// that were subscribed when the pass began.
pub struct Scheduler {
    interval: Duration,
    state: SchedulerState,
    snapshot: Vec<ChatId>,
    position: usize,
    editing: bool,
    success_count: usize,
    error_count: usize,
}

impl View for Scheduler {
    type V = SchedulerView;

    closed spec fn view(&self) -> SchedulerView {
        SchedulerView {
            interval: self.interval,
            state: self.state,
            snapshot: self.snapshot@,
            position: self.position as nat,
            editing: self.editing,
            success_count: self.success_count as nat,
            error_count: self.error_count as nat,
        }
    }
}

impl Scheduler {
    /// A scheduler that has not been started, with a pass every
    /// `interval_minutes` minutes.
    pub fn new(interval_minutes: u64) -> (scheduler: Self)
        requires
            interval_minutes * 60 <= u64::MAX,
        ensures
            scheduler@.wf(),
            scheduler@.state == SchedulerState::Idle,
            scheduler@.interval == Duration::seconds((interval_minutes * 60) as u64),
    {
        Self::with_config(Duration::from_secs(interval_minutes * 60))
    }

    /// A scheduler that has not been started, with a pass every `interval`.
    pub fn with_config(interval: Duration) -> (scheduler: Self)
        ensures
            scheduler@.wf(),
            scheduler@ == (SchedulerView {
                interval,
                state: SchedulerState::Idle,
                snapshot: Seq::empty(),
                position: 0,
                editing: false,
                success_count: 0,
                error_count: 0,
            }),
    {
        Scheduler {
            interval,
            state: SchedulerState::Idle,
            snapshot: Vec::new(),
            position: 0,
            editing: false,
            success_count: 0,
            error_count: 0,
        }
    }

    /// The time between two passes.
    pub fn interval(&self) -> (interval: Duration)
        ensures
            interval == self@.interval,
    {
        self.interval
    }

    /// Where the scheduler stands.
    pub fn state(&self) -> (state: SchedulerState)
        ensures
            state == self@.state,
    {
        self.state
    }

    /// How many chats of the pass in progress, or of the last one, got
    /// their update.
    pub fn success_count(&self) -> (n: usize)
        ensures
            n == self@.success_count,
    {
        self.success_count
    }

    /// How many chats of the pass in progress, or of the last one, were
    /// skipped or could not be updated.
    pub fn error_count(&self) -> (n: usize)
        ensures
            n == self@.error_count,
    {
        self.error_count
    }

    /// Whether the scheduler is waiting for `event`.
    pub fn awaits(&self, event: SchedulerEvent) -> (b: bool)
        ensures
            b == self@.awaits(event),
    {
        match event {
            SchedulerEvent::IntervalElapsed => self.state == SchedulerState::Waiting,
            SchedulerEvent::EditFinished { .. } => self.state == SchedulerState::Broadcasting
                && self.editing,
            SchedulerEvent::PauseElapsed => self.state == SchedulerState::Broadcasting
                && !self.editing,
        }
    }

    /// The chat whose edit is under way, if one is.
    pub fn chat_in_edit(&self) -> (chat_id: Option<ChatId>)
        requires
            self@.wf(),
        ensures
            chat_id == if self@.editing {
                Some(self@.current_chat())
            } else {
                None
            },
    {
        if self.editing {
            Some(self.snapshot[self.position])
        } else {
            None
        }
    }

    /// Goes to wait for the next pass.
    fn enter_waiting(&mut self, manager: &mut SubscriberManager, now: Instant) -> (action:
        SchedulerAction)
        requires
            old(self)@.wf(),
            !old(self)@.editing,
            now.nanos() + old(self)@.interval.total_nanos() <= MAX_NANOS,
        ensures
            final(self)@.wf(),
            (Outcome { scheduler: final(self)@, manager: final(manager)@, action: action@ })
                == old(self)@.enter_waiting(old(manager)@, now),
    {
        manager.set_next_send_time(now.plus(self.interval));
        self.state = SchedulerState::Waiting;
        SchedulerAction::Wait(self.interval)
    }

    /// Turns to the chat at the position.
    fn turn(&mut self, manager: &mut SubscriberManager, now: Instant) -> (action: SchedulerAction)
        requires
            old(self)@.wf(),
            !old(self)@.editing,
            old(self)@.state == SchedulerState::Broadcasting,
            now.nanos() + old(self)@.interval.total_nanos() <= MAX_NANOS,
        ensures
            final(self)@.wf(),
            (Outcome { scheduler: final(self)@, manager: final(manager)@, action: action@ })
                == old(self)@.turn(old(manager)@, now),
    {
        if self.position >= self.snapshot.len() {
            self.enter_waiting(manager, now)
        } else {
            match manager.periodic_edit(self.snapshot[self.position]) {
                Some(edit) => {
                    self.editing = true;
                    SchedulerAction::Edit(edit)
                },
                None => {
                    self.position = self.position + 1;
                    self.error_count = self.error_count + 1;
                    SchedulerAction::Pause(Duration::from_millis(PACING_MILLIS))
                },
            }
        }
    }

    /// Starts the scheduler: the time of the first pass is published as
    /// `now` plus the interval, and the caller is asked to wait that long.
    pub fn start(&mut self, manager: &mut SubscriberManager, now: Instant) -> (action:
        SchedulerAction)
        requires
            old(self)@.wf(),
            old(self)@.state == SchedulerState::Idle,
            now.nanos() + old(self)@.interval.total_nanos() <= MAX_NANOS,
        ensures
            final(self)@.wf(),
            (Outcome { scheduler: final(self)@, manager: final(manager)@, action: action@ })
                == old(self)@.enter_waiting(old(manager)@, now),
    {
        self.enter_waiting(manager, now)
    }

    /// Takes the report of what happened and says what to do next.
    ///
    /// - The interval has passed: a pass begins over the chats that are
    ///   subscribed now; chats that subscribe later wait for the next pass.
    /// - An edit has been tried: it is counted for the chat if it went
    ///   through, and a pause follows either way, so one chat's failure
    ///   never ends the pass.
    /// - A pause is over: the next chat gets its turn, and behind the last
    ///   chat the scheduler publishes the time of the next pass and waits.
    pub fn step(&mut self, manager: &mut SubscriberManager, event: SchedulerEvent, now: Instant) -> (action:
        SchedulerAction)
        requires
            old(self)@.wf(),
            old(self)@.awaits(event),
            now.nanos() + old(self)@.interval.total_nanos() <= MAX_NANOS,
            event matches SchedulerEvent::EditFinished { success: true } ==> old(
                manager,
            )@.message_count(old(self)@.current_chat()) < u64::MAX,
        ensures
            final(self)@.wf(),
            event is IntervalElapsed ==> lists_subscribers(final(self)@.snapshot, old(manager)@),
            (Outcome { scheduler: final(self)@, manager: final(manager)@, action: action@ })
                == old(self)@.next(old(manager)@, event, final(self)@.snapshot, now),
    {
        match event {
            SchedulerEvent::IntervalElapsed => {
                self.snapshot = manager.get_subscribers();
                self.state = SchedulerState::Broadcasting;
                self.position = 0;
                self.editing = false;
                self.success_count = 0;
                self.error_count = 0;
                self.turn(manager, now)
            },
            SchedulerEvent::EditFinished { success } => {
                assert(self.position < self.snapshot.len());
                let chat_id = self.snapshot[self.position];
                let sent = manager.send_periodic_message_to_chat(chat_id, success);
                self.position = self.position + 1;
                self.editing = false;
                if sent {
                    self.success_count = self.success_count + 1;
                } else {
                    self.error_count = self.error_count + 1;
                }
                SchedulerAction::Pause(Duration::from_millis(PACING_MILLIS))
            },
            SchedulerEvent::PauseElapsed => self.turn(manager, now),
        }
    }
}

} // verus!
