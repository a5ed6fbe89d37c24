//! The subscribers of the periodic status message and what is kept for each
//! of them, and the module that answers the subscription commands.

use crate::bot_modules::Module;
use crate::chat::{ChatId, MessageId};
use crate::text::{decimal, decimal_string, lemma_occurs_in_middle, occurs_in, same_text};
use crate::time::{Duration, Instant, MAX_NANOS};
use std::collections::HashMap;
use vstd::prelude::*;
use vstd::std_specs::iter::IteratorSpec;

verus! {

/// What a subscription request came to.
#[derive(Debug, Clone, Copy, PartialEq, Eq, Structural)]
pub enum SubscriptionAction {
    Subscribed,
    Unsubscribed,
    AlreadySubscribed,
    NotSubscribed,
}

/// What is kept for one subscribed chat.
#[derive(Debug, Clone, Copy, PartialEq, Eq, Structural)]
pub struct ChatState {
    /// How many status messages the chat has been sent.
    pub count: u64,
    /// The status message of the chat that periodic updates edit, once one
    /// has been sent.
    pub message_id: Option<MessageId>,
}

/// The state of a [`SubscriberManager`] as a plain value.
pub struct ManagerView {
    /// The subscribed chats, by the number of their identifier, each with
    /// what is kept for it.
    pub chats: Map<i64, ChatState>,
    /// When the next periodic update is due, once that has been set.
    pub next_send_time: Option<Instant>,
    /// The text that every status message carries.
    pub message_text: Seq<char>,
}

/// An edit of a chat's status message that a periodic update asks for.
#[derive(Debug, Clone, PartialEq, Eq)]
pub struct PeriodicEdit {
    pub chat_id: ChatId,
    pub message_id: MessageId,
    pub text: String,
}

/// The status message for a chat that has been sent `count` messages, with
/// the text `message_text`: the number of this message, then the text.
pub open spec fn periodic_text(count: u64, message_text: Seq<char>) -> Seq<char> {
    "Периодическое сообщение "@ + message_number(count) + ":\n"@ + message_text
}

/// The mark that numbers the status message for a chat that has been sent
/// `count` messages: a number sign and the number of this message.
pub open spec fn message_number(count: u64) -> Seq<char> {
    "#"@ + decimal((count + 1) as nat)
}

impl ManagerView {
    /// Whether `chat_id` is subscribed.
    pub open spec fn is_subscribed(self, chat_id: ChatId) -> bool {
        self.chats.contains_key(chat_id.0)
    }

    /// The number of messages sent to `chat_id`; zero for a chat that is not
    /// subscribed.
    pub open spec fn message_count(self, chat_id: ChatId) -> u64 {
        if self.is_subscribed(chat_id) {
            self.chats[chat_id.0].count
        } else {
            0
        }
    }

    /// The status message of `chat_id`, if the chat is subscribed and has
    /// one.
    pub open spec fn message_id(self, chat_id: ChatId) -> Option<MessageId> {
        if self.is_subscribed(chat_id) {
            self.chats[chat_id.0].message_id
        } else {
            None
        }
    }

    /// The number of subscribers.
    pub open spec fn subscriber_count(self) -> nat {
        self.chats.dom().len()
    }

    /// What a request of `chat_id` to subscribe comes to.
    pub open spec fn subscribe_action(self, chat_id: ChatId) -> SubscriptionAction {
        if self.is_subscribed(chat_id) {
            SubscriptionAction::AlreadySubscribed
        } else {
            SubscriptionAction::Subscribed
        }
    }

    /// What a request of `chat_id` to unsubscribe comes to.
    pub open spec fn unsubscribe_action(self, chat_id: ChatId) -> SubscriptionAction {
        if self.is_subscribed(chat_id) {
            SubscriptionAction::Unsubscribed
        } else {
            SubscriptionAction::NotSubscribed
        }
    }

    /// The time left at `now` until the next periodic update, in
    /// nanoseconds, if the time of that update has been set: nothing once
    /// that time has passed.
    pub open spec fn time_until_next(self, now: Instant) -> Option<nat> {
        match self.next_send_time {
            Some(time) => Some(time.remaining_nanos(now)),
            None => None,
        }
    }

    /// The state after the time of the next periodic update has been set to
    /// `time`.
    pub open spec fn with_next_send_time(self, time: Instant) -> ManagerView {
        ManagerView { next_send_time: Some(time), ..self }
    }

    /// The state after `chat_id` has subscribed: a chat that was not
    /// subscribed starts with no messages sent and no status message.
    pub open spec fn subscribe(self, chat_id: ChatId) -> ManagerView {
        if self.is_subscribed(chat_id) {
            self
        } else {
            ManagerView {
                chats: self.chats.insert(chat_id.0, ChatState { count: 0, message_id: None }),
                ..self
            }
        }
    }

    /// The state after `chat_id` has unsubscribed: all that was kept for the
    /// chat is gone.
    pub open spec fn unsubscribe(self, chat_id: ChatId) -> ManagerView {
        ManagerView { chats: self.chats.remove(chat_id.0), ..self }
    }

    /// The state after one more message to `chat_id` has been counted.
    /// Nothing changes for a chat that is not subscribed.
    pub open spec fn increment(self, chat_id: ChatId) -> ManagerView {
        if self.is_subscribed(chat_id) {
            let state = self.chats[chat_id.0];
            ManagerView {
                chats: self.chats.insert(
                    chat_id.0,
                    ChatState { count: (state.count + 1) as u64, ..state },
                ),
                ..self
            }
        } else {
            self
        }
    }

    /// The state after the status message of `chat_id` has been set to
    /// `message_id`. Nothing changes for a chat that is not subscribed.
    pub open spec fn with_message_id(
        self,
        chat_id: ChatId,
        message_id: Option<MessageId>,
    ) -> ManagerView {
        if self.is_subscribed(chat_id) {
            let state = self.chats[chat_id.0];
            ManagerView {
                chats: self.chats.insert(chat_id.0, ChatState { message_id, ..state }),
                ..self
            }
        } else {
            self
        }
    }

    /// The status message that `chat_id` would be sent next.
    pub open spec fn next_message(self, chat_id: ChatId) -> Seq<char> {
        periodic_text(self.message_count(chat_id), self.message_text)
    }
}

/// The subscribed chats with their message counters and status messages, the
/// time of the next periodic update, and the text of the status message.
///
/// A counter and a status message are kept for subscribed chats only.
pub struct SubscriberManager {
    chats: HashMap<i64, ChatState>,
    next_send_time: Option<Instant>,
    message_text: String,
}

impl View for SubscriberManager {
    type V = ManagerView;

    closed spec fn view(&self) -> ManagerView {
        ManagerView {
            chats: self.chats@,
            next_send_time: self.next_send_time,
            message_text: self.message_text@,
        }
    }
}

impl SubscriberManager {
    /// A manager without subscribers, with the text of the status message.
    pub fn new(message_text: String) -> (manager: Self)
        ensures
            manager@.chats == Map::<i64, ChatState>::empty(),
            manager@.next_send_time is None,
            manager@.message_text == message_text@,
    {
        SubscriberManager { chats: HashMap::new(), next_send_time: None, message_text }
    }

    /// There are finitely many subscribers.
    pub proof fn lemma_finite(&self)
        ensures
            self@.chats.dom().finite(),
    {
    }

    /// Subscribes `chat_id`. A chat that is already subscribed stays as it
    /// is.
    pub fn subscribe(&mut self, chat_id: ChatId) -> (action: SubscriptionAction)
        ensures
            final(self)@ == old(self)@.subscribe(chat_id),
            action == old(self)@.subscribe_action(chat_id),
    {
        if self.chats.contains_key(&chat_id.0) {
            SubscriptionAction::AlreadySubscribed
        } else {
            self.chats.insert(chat_id.0, ChatState { count: 0, message_id: None });
            SubscriptionAction::Subscribed
        }
    }

    /// Unsubscribes `chat_id`: the chat, its counter and its status message
    /// go together.
    pub fn unsubscribe(&mut self, chat_id: ChatId) -> (action: SubscriptionAction)
        ensures
            final(self)@ == old(self)@.unsubscribe(chat_id),
            action == old(self)@.unsubscribe_action(chat_id),
    {
        match self.chats.remove(&chat_id.0) {
            Some(_) => SubscriptionAction::Unsubscribed,
            None => {
                assert(self.chats@ =~= old(self).chats@);
                SubscriptionAction::NotSubscribed
            },
        }
    }

    /// Whether `chat_id` is subscribed.
    pub fn is_subscribed(&self, chat_id: ChatId) -> (b: bool)
        ensures
            b == self@.is_subscribed(chat_id),
    {
        self.chats.contains_key(&chat_id.0)
    }

    /// The subscribed chats, each once, in no particular order.
    pub fn get_subscribers(&self) -> (subscribers: Vec<ChatId>)
        ensures
            subscribers@.no_duplicates(),
            subscribers@.len() == self@.subscriber_count(),
            forall|chat_id: ChatId|
                subscribers@.contains(chat_id) <==> self@.is_subscribed(chat_id),
    {
        let mut out: Vec<ChatId> = Vec::new();
        let keys = self.chats.keys();
        let ghost ks = keys.remaining();
        for k in it: keys
            invariant
                it.seq() == ks,
                out@.len() == it.index(),
                forall|j: int| 0 <= j < out@.len() ==> out@[j] == ChatId(*ks[j]),
        {
            out.push(ChatId(*k));
        }
        proof {
            let numbers = ks.unref();
            assert(numbers.to_set() == self.chats@.dom());
            assert(numbers.len() == out@.len());
            assert forall|chat_id: ChatId| out@.contains(chat_id) <==> self@.is_subscribed(
                chat_id,
            ) by {
                if out@.contains(chat_id) {
                    let j = choose|j: int| 0 <= j < out@.len() && out@[j] == chat_id;
                    assert(numbers[j] == chat_id.0);
                    assert(numbers.to_set().contains(chat_id.0));
                }
                if self@.is_subscribed(chat_id) {
                    assert(numbers.to_set().contains(chat_id.0));
                    let j = choose|j: int| 0 <= j < numbers.len() && numbers[j] == chat_id.0;
                    assert(out@[j] == chat_id);
                }
            }
            assert forall|i: int, j: int|
                0 <= i < out@.len() && 0 <= j < out@.len() && i != j implies out@[i] != out@[j] by {
                assert(ks[i] != ks[j]);
            }
        }
        out
    }

    /// The number of subscribers.
    pub fn subscriber_count(&self) -> (n: usize)
        ensures
            n == self@.subscriber_count(),
    {
        self.chats.len()
    }

    /// The number of messages sent to `chat_id`; zero for a chat that is not
    /// subscribed.
    pub fn get_message_count(&self, chat_id: ChatId) -> (count: u64)
        ensures
            count == self@.message_count(chat_id),
    {
        match self.chats.get(&chat_id.0) {
            Some(state) => state.count,
            None => 0,
        }
    }

    /// Counts one more message to `chat_id`. Nothing changes for a chat that
    /// is not subscribed.
    pub fn increment_message_counter(&mut self, chat_id: ChatId)
        requires
            old(self)@.message_count(chat_id) < u64::MAX,
        ensures
            final(self)@ == old(self)@.increment(chat_id),
    {
        let current = match self.chats.get(&chat_id.0) {
            Some(state) => Some(*state),
            None => None,
        };
        match current {
            Some(state) => {
                self.chats.insert(
                    chat_id.0,
                    ChatState { count: state.count + 1, message_id: state.message_id },
                );
            },
            None => {},
        }
    }

    /// The edit that a periodic update asks for in `chat_id`: the next
    /// status message, written over the chat's status message. A chat
    /// without a status message gets none.
    pub fn periodic_edit(&self, chat_id: ChatId) -> (edit: Option<PeriodicEdit>)
        ensures
            match self@.message_id(chat_id) {
                Some(message_id) => edit matches Some(e) && e.chat_id == chat_id && e.message_id
                    == message_id && e.text@ == self@.next_message(chat_id),
                None => edit is None,
            },
    {
        match self.get_message_id(chat_id) {
            Some(message_id) => Some(
                PeriodicEdit { chat_id, message_id, text: self.format_periodic_message(chat_id) },
            ),
            None => None,
        }
    }

    /// Completes the periodic update of `chat_id`, once the edit that
    /// [`SubscriberManager::periodic_edit`] asked for has been tried:
    /// an edit that went through is counted, one that failed is not.
    pub fn send_periodic_message_to_chat(&mut self, chat_id: ChatId, edited: bool) -> (sent: bool)
        requires
            edited ==> old(self)@.message_count(chat_id) < u64::MAX,
        ensures
            sent == edited,
            final(self)@ == if edited {
                old(self)@.increment(chat_id)
            } else {
                old(self)@
            },
    {
        if edited {
            self.increment_message_counter(chat_id);
        }
        edited
    }

    /// Makes `message_id` the status message of `chat_id`. Nothing changes
    /// for a chat that is not subscribed.
    pub fn set_message_id(&mut self, chat_id: ChatId, message_id: MessageId)
        ensures
            final(self)@ == old(self)@.with_message_id(chat_id, Some(message_id)),
    {
        let current = match self.chats.get(&chat_id.0) {
            Some(state) => Some(*state),
            None => None,
        };
        match current {
            Some(state) => {
                self.chats.insert(
                    chat_id.0,
                    ChatState { count: state.count, message_id: Some(message_id) },
                );
            },
            None => {},
        }
    }

    /// The status message of `chat_id`, if the chat has one.
    pub fn get_message_id(&self, chat_id: ChatId) -> (message_id: Option<MessageId>)
        ensures
            message_id == self@.message_id(chat_id),
    {
        match self.chats.get(&chat_id.0) {
            Some(state) => state.message_id,
            None => None,
        }
    }

    /// Forgets the status message of `chat_id`.
    pub fn remove_message_id(&mut self, chat_id: ChatId)
        ensures
            final(self)@ == old(self)@.with_message_id(chat_id, None),
    {
        let current = match self.chats.get(&chat_id.0) {
            Some(state) => Some(*state),
            None => None,
        };
        match current {
            Some(state) => {
                self.chats.insert(chat_id.0, ChatState { count: state.count, message_id: None });
            },
            None => {},
        }
    }

    /// Sets the time at which the next periodic update is due.
    pub fn set_next_send_time(&mut self, time: Instant)
        ensures
            final(self)@ == old(self)@.with_next_send_time(time),
    {
        self.next_send_time = Some(time);
    }

    /// The time left at `now` until the next periodic update, if its time
    /// has been set: nothing once that time has passed.
    pub fn get_time_until_next(&self, now: Instant) -> (left: Option<Duration>)
        ensures
            match self@.time_until_next(now) {
                Some(nanos) => left matches Some(d) && d.total_nanos() == nanos,
                None => left is None,
            },
    {
        match self.next_send_time {
            Some(time) => Some(time.duration_since(now)),
            None => None,
        }
    }

    /// The text that every status message carries.
    pub fn get_periodic_message_text(&self) -> (text: String)
        ensures
            text@ == self@.message_text,
    {
        self.message_text.clone()
    }

    /// The status message that `chat_id` would be sent next. The counter
    /// stays as it is.
    pub fn format_periodic_message(&self, chat_id: ChatId) -> (text: String)
        ensures
            text@ == self@.next_message(chat_id),
    {
        let current_count = self.get_message_count(chat_id);
        let mut text = "Периодическое сообщение ".to_owned();
        let mut number = "#".to_owned();
        number.append(decimal_string(current_count as u128 + 1).as_str());
        text.append(number.as_str());
        text.append(":\n");
        text.append(self.message_text.as_str());
        text
    }
}

/// A chat that is not subscribed and asks twice to subscribe is subscribed
/// by the first request and told by the second that it already is, and the
/// two requests together add one subscriber.
pub proof fn lemma_subscribe_twice(state: ManagerView, chat_id: ChatId)
    requires
        state.chats.dom().finite(),
        !state.is_subscribed(chat_id),
    ensures
        state.subscribe_action(chat_id) == SubscriptionAction::Subscribed,
        state.subscribe(chat_id).subscribe_action(chat_id)
            == SubscriptionAction::AlreadySubscribed,
        state.subscribe(chat_id).subscribe(chat_id) == state.subscribe(chat_id),
        state.subscribe(chat_id).subscribe(chat_id).subscriber_count() == state.subscriber_count()
            + 1,
{
}

/// A request to subscribe from a chat that is subscribed changes nothing.
pub proof fn lemma_subscribe_again(state: ManagerView, chat_id: ChatId)
    requires
        state.is_subscribed(chat_id),
    ensures
        state.subscribe_action(chat_id) == SubscriptionAction::AlreadySubscribed,
        state.subscribe(chat_id) == state,
{
}

/// A request to unsubscribe from a chat that is not subscribed is answered
/// with `NotSubscribed` and changes nothing, the number of subscribers
/// included.
pub proof fn lemma_unsubscribe_stranger(state: ManagerView, chat_id: ChatId)
    requires
        !state.is_subscribed(chat_id),
    ensures
        state.unsubscribe_action(chat_id) == SubscriptionAction::NotSubscribed,
        state.unsubscribe(chat_id) == state,
        state.unsubscribe(chat_id).subscriber_count() == state.subscriber_count(),
{
    assert(state.chats.remove(chat_id.0) =~= state.chats);
}

/// The counter of a chat starts at zero when the chat subscribes, is one
/// after the first message has been counted, and starts at zero again when
/// the chat subscribes anew after it has unsubscribed.
pub proof fn lemma_counter_starts_over(state: ManagerView, chat_id: ChatId)
    ensures
        !state.is_subscribed(chat_id) ==> state.subscribe(chat_id).message_count(chat_id) == 0,
        !state.is_subscribed(chat_id) ==> state.subscribe(chat_id).increment(
            chat_id,
        ).message_count(chat_id) == 1,
        state.unsubscribe(chat_id).message_count(chat_id) == 0,
        state.unsubscribe(chat_id).subscribe(chat_id).message_count(chat_id) == 0,
        state.unsubscribe(chat_id).subscribe(chat_id).message_id(chat_id) is None,
{
}

/// Counting a message for one chat leaves every other chat as it is, and
/// adds no subscriber.
pub proof fn lemma_increment_is_local(state: ManagerView, chat_id: ChatId, other: ChatId)
    requires
        other != chat_id,
    ensures
        state.increment(chat_id).is_subscribed(other) == state.is_subscribed(other),
        state.increment(chat_id).message_count(other) == state.message_count(other),
        state.increment(chat_id).message_id(other) == state.message_id(other),
        state.increment(chat_id).is_subscribed(chat_id) == state.is_subscribed(chat_id),
        state.increment(chat_id).message_id(chat_id) == state.message_id(chat_id),
{
}

/// The status message for a chat carries the number of the message behind
/// a number sign: `#1` for a chat that has been sent nothing yet, `#2` after
/// one message.
pub proof fn lemma_status_message_is_numbered(count: u64, message_text: Seq<char>)
    ensures
        occurs_in(message_number(count), periodic_text(count, message_text)),
        count == 0 ==> message_number(count) == "#1"@,
        count == 1 ==> message_number(count) == "#2"@,
{
    lemma_occurs_in_middle(
        "Периодическое сообщение "@,
        message_number(count),
        ":\n"@ + message_text,
    );
    assert("Периодическое сообщение "@ + message_number(count) + (":\n"@ + message_text)
        =~= periodic_text(count, message_text));
    reveal_strlit("#");
    reveal_strlit("#1");
    reveal_strlit("#2");
    reveal_with_fuel(decimal, 2);
    if count == 0 {
        assert(message_number(count) =~= "#1"@);
    }
    if count == 1 {
        assert(message_number(count) =~= "#2"@);
    }
}

/// Once the time of the next update has been set to a span after `now`,
/// the time left at any moment from `now` on is positive and at most the
/// span while that time lies ahead, and exactly zero from then on.
pub proof fn lemma_time_until_next(state: ManagerView, now: Instant, span: Duration, at: Instant)
    requires
        now.nanos() + span.total_nanos() <= MAX_NANOS,
        now.nanos() <= at.nanos(),
    ensures
        ({
            let target = now.later(span);
            let left = state.with_next_send_time(target).time_until_next(at);
            &&& left is Some
            &&& at.nanos() < target.nanos() ==> 0 < left->0 <= span.total_nanos()
            &&& at.nanos() >= target.nanos() ==> left->0 == 0
        }),
{
    now.lemma_later(span);
}

/// A message that the subscriber module wants sent to the chat that wrote.
#[derive(Debug, Clone, PartialEq, Eq)]
pub enum Reply {
    /// An answer to the command.
    Text(String),
    /// The first status message of a new subscriber. Once it has been sent,
    /// the identifier it was given is reported with
    /// [`SubscriberModule::status_sent`].
    Status(String),
}

/// A [`Reply`] as a plain value.
pub enum ReplyView {
    Text(Seq<char>),
    Status(Seq<char>),
}

impl View for Reply {
    type V = ReplyView;

    open spec fn view(&self) -> ReplyView {
        match self {
            Reply::Text(text) => ReplyView::Text(text@),
            Reply::Status(text) => ReplyView::Status(text@),
        }
    }
}

/// The views of the replies of `replies`.
pub open spec fn reply_views(replies: Seq<Reply>) -> Seq<ReplyView> {
    replies.map_values(|r: Reply| r@)
}

/// The line of the status report that tells when the next update is due.
pub open spec fn time_line(next_send_time: Option<Instant>, now: Instant) -> Seq<char> {
    match next_send_time {
        Some(time) => {
            let secs = time.remaining_nanos(now) / 1_000_000_000;
            if secs > 0 {
                "Следующее сообщение через "@ + decimal(secs / 60) + " мин "@ + decimal(secs % 60)
                    + " сек"@
            } else {
                "Сообщение будет отправлено скоро..."@
            }
        },
        None => "Информация о времени рассылки недоступна"@,
    }
}

/// The status report for `chat_id` at `now`.
pub open spec fn status_report(state: ManagerView, chat_id: ChatId, now: Instant) -> Seq<char> {
    if state.is_subscribed(chat_id) {
        "Вы подписаны на рассылку.\n"@ + time_line(state.next_send_time, now)
            + "\nВсего подписчиков: "@ + decimal(state.chats.dom().len())
    } else {
        "Вы не подписаны на рассылку."@
    }
}

/// The state after `chat_id` has written `text` to the subscriber module.
pub open spec fn state_after(state: ManagerView, chat_id: ChatId, text: Option<Seq<char>>) -> ManagerView {
    match text {
        Some(text) => if text == "/subscribe"@ {
            state.subscribe(chat_id)
        } else if text == "/unsubscribe"@ {
            state.unsubscribe(chat_id)
        } else {
            state
        },
        None => state,
    }
}

/// What the subscriber module wants sent after `chat_id` has written `text`.
///
/// - `/subscribe`: the confirmation and, for a new subscriber, the first
///   status message.
/// - `/unsubscribe`: the confirmation.
/// - `/status`: the status report.
/// - Any other text, or none: nothing.
pub open spec fn replies_to(
    state: ManagerView,
    chat_id: ChatId,
    text: Option<Seq<char>>,
    now: Instant,
) -> Seq<ReplyView> {
    match text {
        Some(text) => if text == "/subscribe"@ {
            if state.is_subscribed(chat_id) {
                seq![ReplyView::Text("Вы уже подписаны на рассылку."@)]
            } else {
                seq![
                    ReplyView::Text("Вы успешно подписались на рассылку!"@),
                    ReplyView::Status(state.subscribe(chat_id).next_message(chat_id)),
                ]
            }
        } else if text == "/unsubscribe"@ {
            if state.is_subscribed(chat_id) {
                seq![ReplyView::Text("Вы успешно отписались от рассылки."@)]
            } else {
                seq![ReplyView::Text("Вы не были подписаны на рассылку."@)]
            }
        } else if text == "/status"@ {
            seq![ReplyView::Text(status_report(state, chat_id, now))]
        } else {
            Seq::empty()
        },
        None => Seq::empty(),
    }
}

/// Answers `/subscribe`, `/unsubscribe` and `/status`.
pub struct SubscriberModule;

impl SubscriberModule {
    pub fn new() -> Self {
        SubscriberModule
    }

    /// The status report for `chat_id` at `now`: whether the chat is
    /// subscribed and, if it is, when the next update is due and how many
    /// subscribers there are.
    pub fn format_status(&self, manager: &SubscriberManager, chat_id: ChatId, now: Instant) -> (text:
        String)
        ensures
            text@ == status_report(manager@, chat_id, now),
    {
        if manager.is_subscribed(chat_id) {
            let mut text = "Вы подписаны на рассылку.\n".to_owned();
            match manager.get_time_until_next(now) {
                Some(d) => {
                    let secs = d.as_secs();
                    if secs > 0 {
                        text.append("Следующее сообщение через ");
                        text.append(decimal_string((secs / 60) as u128).as_str());
                        text.append(" мин ");
                        text.append(decimal_string((secs % 60) as u128).as_str());
                        text.append(" сек");
                    } else {
                        text.append("Сообщение будет отправлено скоро...");
                    }
                },
                None => {
                    text.append("Информация о времени рассылки недоступна");
                },
            }
            text.append("\nВсего подписчиков: ");
            text.append(decimal_string(manager.subscriber_count() as u128).as_str());
            assert(text@ =~= status_report(manager@, chat_id, now));
            text
        } else {
            "Вы не подписаны на рассылку.".to_owned()
        }
    }

    /// Carries out the command that `chat_id` wrote and says what is to be
    /// sent back, in this order. The replies are sent one after another;
    /// where sending one fails, those behind it are dropped.
    pub fn handle(
        &self,
        manager: &mut SubscriberManager,
        chat_id: ChatId,
        text: Option<&str>,
        now: Instant,
    ) -> (replies: Vec<Reply>)
        ensures
            final(manager)@ == state_after(
                old(manager)@,
                chat_id,
                match text {
                    Some(t) => Some(t@),
                    None => None,
                },
            ),
            reply_views(replies@) == replies_to(
                old(manager)@,
                chat_id,
                match text {
                    Some(t) => Some(t@),
                    None => None,
                },
                now,
            ),
    {
        let mut replies: Vec<Reply> = Vec::new();
        match text {
            Some(text) => {
                if same_text(text, "/subscribe") {
                    match manager.subscribe(chat_id) {
                        SubscriptionAction::Subscribed => {
                            replies.push(
                                Reply::Text("Вы успешно подписались на рассылку!".to_owned()),
                            );
                            replies.push(Reply::Status(manager.format_periodic_message(chat_id)));
                        },
                        _ => {
                            replies.push(Reply::Text("Вы уже подписаны на рассылку.".to_owned()));
                        },
                    }
                } else if same_text(text, "/unsubscribe") {
                    match manager.unsubscribe(chat_id) {
                        SubscriptionAction::Unsubscribed => {
                            replies.push(
                                Reply::Text("Вы успешно отписались от рассылки.".to_owned()),
                            );
                        },
                        _ => {
                            replies.push(
                                Reply::Text("Вы не были подписаны на рассылку.".to_owned()),
                            );
                        },
                    }
                } else if same_text(text, "/status") {
                    replies.push(Reply::Text(self.format_status(manager, chat_id, now)));
                }
            },
            None => {},
        }
        proof {
            reveal_strlit("/subscribe");
            reveal_strlit("/unsubscribe");
            reveal_strlit("/status");
            assert(reply_views(replies@) =~= replies_to(
                old(manager)@,
                chat_id,
                match text {
                    Some(t) => Some(t@),
                    None => None,
                },
                now,
            ));
        }
        replies
    }

    /// Records that the first status message of `chat_id` has been sent and
    /// was given the identifier `message_id`: later updates edit that
    /// message, and it counts as the chat's first.
    pub fn status_sent(&self, manager: &mut SubscriberManager, chat_id: ChatId, message_id: MessageId)
        requires
            old(manager)@.message_count(chat_id) < u64::MAX,
        ensures
            final(manager)@ == old(manager)@.with_message_id(chat_id, Some(message_id)).increment(
                chat_id,
            ),
    {
        manager.set_message_id(chat_id, message_id);
        manager.increment_message_counter(chat_id);
    }
}

impl Module for SubscriberModule {
    fn name(&self) -> (name: &str)
        ensures
            name@ == "Subscriber"@,
    {
        "Subscriber"
    }

    fn commands(&self) -> (commands: Vec<&str>)
        ensures
            commands@.len() == 3,
            commands@[0]@ == "/subscribe"@,
            commands@[1]@ == "/unsubscribe"@,
            commands@[2]@ == "/status"@,
    {
        let mut commands: Vec<&str> = Vec::new();
        commands.push("/subscribe");
        commands.push("/unsubscribe");
        commands.push("/status");
        commands
    }
}

} // verus!
