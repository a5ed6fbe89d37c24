use currency_bot::bot_modules::subscribers::{
    PeriodicEdit, Reply, SubscriberManager, SubscriberModule, SubscriptionAction,
};
use currency_bot::bot_modules::Module;
use currency_bot::chat::{ChatId, MessageId};
use currency_bot::time::{Duration, Instant};

fn at(secs: u64) -> Instant {
    Instant::from_origin(Duration::from_secs(secs))
}

#[test]
fn test_message_counter_basic() {
    let mut manager = SubscriberManager::new("Test message".to_string());
    let chat_id = ChatId(12345);
    manager.subscribe(chat_id);
    assert_eq!(manager.get_message_count(chat_id), 0);
    manager.increment_message_counter(chat_id);
    assert_eq!(manager.get_message_count(chat_id), 1);
}

#[test]
fn test_subscribe_new_user() {
    let mut manager = SubscriberManager::new("Test message".to_string());
    let chat_id = ChatId(12345);
    assert_eq!(manager.subscribe(chat_id), SubscriptionAction::Subscribed);
    assert!(manager.is_subscribed(chat_id));
}

#[test]
fn test_subscribe_already_subscribed() {
    let mut manager = SubscriberManager::new("Test message".to_string());
    let chat_id = ChatId(12345);
    manager.subscribe(chat_id);
    assert_eq!(
        manager.subscribe(chat_id),
        SubscriptionAction::AlreadySubscribed
    );
    assert_eq!(manager.subscriber_count(), 1);
}

#[test]
fn test_unsubscribe() {
    let mut manager = SubscriberManager::new("Test message".to_string());
    let chat_id = ChatId(12345);
    manager.subscribe(chat_id);
    assert_eq!(
        manager.unsubscribe(chat_id),
        SubscriptionAction::Unsubscribed
    );
    assert!(!manager.is_subscribed(chat_id));
}

#[test]
fn test_unsubscribe_not_subscribed() {
    let mut manager = SubscriberManager::new("Test message".to_string());
    let chat_id = ChatId(12345);
    assert_eq!(
        manager.unsubscribe(chat_id),
        SubscriptionAction::NotSubscribed
    );
}

#[test]
fn test_get_subscribers() {
    let mut manager = SubscriberManager::new("Test message".to_string());
    let chat_id1 = ChatId(111);
    let chat_id2 = ChatId(222);
    manager.subscribe(chat_id1);
    manager.subscribe(chat_id2);
    let subscribers = manager.get_subscribers();
    assert_eq!(subscribers.len(), 2);
    assert!(subscribers.contains(&chat_id1));
    assert!(subscribers.contains(&chat_id2));
}

#[test]
fn test_individual_counters() {
    let mut manager = SubscriberManager::new("Test message".to_string());
    let chat_id1 = ChatId(111);
    let chat_id2 = ChatId(222);

    manager.subscribe(chat_id1);
    manager.subscribe(chat_id2);

    assert_eq!(manager.get_message_count(chat_id1), 0);
    assert_eq!(manager.get_message_count(chat_id2), 0);

    manager.increment_message_counter(chat_id1);
    assert_eq!(manager.get_message_count(chat_id1), 1);
    assert_eq!(manager.get_message_count(chat_id2), 0);

    manager.increment_message_counter(chat_id2);
    manager.increment_message_counter(chat_id2);
    assert_eq!(manager.get_message_count(chat_id1), 1);
    assert_eq!(manager.get_message_count(chat_id2), 2);
}

#[test]
fn test_counter_removed_on_unsubscribe() {
    let mut manager = SubscriberManager::new("Test message".to_string());
    let chat_id = ChatId(12345);

    manager.subscribe(chat_id);
    manager.increment_message_counter(chat_id);
    assert_eq!(manager.get_message_count(chat_id), 1);

    manager.unsubscribe(chat_id);
    assert_eq!(manager.get_message_count(chat_id), 0);
}

#[test]
fn test_message_id_management() {
    let mut manager = SubscriberManager::new("Test message".to_string());
    let chat_id = ChatId(12345);
    let message_id = MessageId(67890);

    manager.subscribe(chat_id);
    manager.set_message_id(chat_id, message_id);
    assert_eq!(manager.get_message_id(chat_id), Some(message_id));

    manager.remove_message_id(chat_id);
    assert_eq!(manager.get_message_id(chat_id), None);
}

#[test]
fn test_message_counter() {
    let mut manager = SubscriberManager::new("Test message".to_string());
    let chat_id = ChatId(12345);

    manager.subscribe(chat_id);
    assert_eq!(manager.get_message_count(chat_id), 0);

    manager.increment_message_counter(chat_id);
    assert_eq!(manager.get_message_count(chat_id), 1);

    manager.increment_message_counter(chat_id);
    assert_eq!(manager.get_message_count(chat_id), 2);
}

#[test]
fn test_format_periodic_message() {
    let mut manager = SubscriberManager::new("Периодическое сообщение от бота".to_string());
    let chat_id = ChatId(12345);

    manager.subscribe(chat_id);
    let message = manager.format_periodic_message(chat_id);
    assert!(message.contains("Периодическое сообщение #1:"));
    assert!(message.contains("Периодическое сообщение от бота"));

    manager.increment_message_counter(chat_id);
    let message = manager.format_periodic_message(chat_id);
    assert!(message.contains("Периодическое сообщение #2:"));
}

#[test]
fn subscribers_test_module_name() {
    let module = SubscriberModule::new();
    assert_eq!(module.name(), "Subscriber");
}

#[test]
fn subscribers_test_module_commands() {
    let module = SubscriberModule::new();
    assert_eq!(
        module.commands(),
        vec!["/subscribe", "/unsubscribe", "/status"]
    );
}

#[test]
fn subscribing_twice_adds_one_subscriber() {
    let mut manager = SubscriberManager::new("t".to_string());
    manager.subscribe(ChatId(1));
    let before = manager.subscriber_count();
    assert_eq!(manager.subscribe(ChatId(7)), SubscriptionAction::Subscribed);
    assert_eq!(
        manager.subscribe(ChatId(7)),
        SubscriptionAction::AlreadySubscribed
    );
    assert_eq!(manager.subscriber_count(), before + 1);
}

#[test]
fn subscribing_again_keeps_the_counter_and_the_status_message() {
    let mut manager = SubscriberManager::new("t".to_string());
    manager.subscribe(ChatId(7));
    manager.increment_message_counter(ChatId(7));
    manager.set_message_id(ChatId(7), MessageId(3));
    assert_eq!(
        manager.subscribe(ChatId(7)),
        SubscriptionAction::AlreadySubscribed
    );
    assert_eq!(manager.get_message_count(ChatId(7)), 1);
    assert_eq!(manager.get_message_id(ChatId(7)), Some(MessageId(3)));
}

#[test]
fn unsubscribing_a_stranger_changes_nothing() {
    let mut manager = SubscriberManager::new("t".to_string());
    manager.subscribe(ChatId(1));
    manager.subscribe(ChatId(2));
    assert_eq!(
        manager.unsubscribe(ChatId(3)),
        SubscriptionAction::NotSubscribed
    );
    assert_eq!(manager.subscriber_count(), 2);
    assert!(manager.is_subscribed(ChatId(1)));
    assert!(manager.is_subscribed(ChatId(2)));
}

#[test]
fn counter_starts_over_after_resubscribing() {
    let mut manager = SubscriberManager::new("t".to_string());
    let chat_id = ChatId(-100123);
    manager.subscribe(chat_id);
    assert_eq!(manager.get_message_count(chat_id), 0);
    manager.increment_message_counter(chat_id);
    assert_eq!(manager.get_message_count(chat_id), 1);
    manager.unsubscribe(chat_id);
    manager.subscribe(chat_id);
    assert_eq!(manager.get_message_count(chat_id), 0);
}

#[test]
fn unsubscribing_forgets_the_status_message() {
    let mut manager = SubscriberManager::new("t".to_string());
    let chat_id = ChatId(5);
    manager.subscribe(chat_id);
    manager.set_message_id(chat_id, MessageId(9));
    manager.unsubscribe(chat_id);
    assert_eq!(manager.get_message_id(chat_id), None);
    manager.subscribe(chat_id);
    assert_eq!(manager.get_message_id(chat_id), None);
}

#[test]
fn nothing_is_kept_for_a_chat_that_is_not_subscribed() {
    let mut manager = SubscriberManager::new("t".to_string());
    let chat_id = ChatId(5);
    manager.increment_message_counter(chat_id);
    manager.set_message_id(chat_id, MessageId(9));
    assert_eq!(manager.get_message_count(chat_id), 0);
    assert_eq!(manager.get_message_id(chat_id), None);
    assert!(!manager.is_subscribed(chat_id));
    assert_eq!(manager.subscriber_count(), 0);
    assert_eq!(manager.get_subscribers(), Vec::<ChatId>::new());
}

#[test]
fn status_message_numbers_the_next_message() {
    let mut manager = SubscriberManager::new("Курс".to_string());
    let chat_id = ChatId(1);
    manager.subscribe(chat_id);
    assert_eq!(
        manager.format_periodic_message(chat_id),
        "Периодическое сообщение #1:\nКурс"
    );
    assert_eq!(manager.get_message_count(chat_id), 0);
    manager.increment_message_counter(chat_id);
    assert_eq!(
        manager.format_periodic_message(chat_id),
        "Периодическое сообщение #2:\nКурс"
    );
    for _ in 0..118 {
        manager.increment_message_counter(chat_id);
    }
    assert_eq!(
        manager.format_periodic_message(chat_id),
        "Периодическое сообщение #120:\nКурс"
    );
    assert_eq!(
        manager.format_periodic_message(ChatId(2)),
        "Периодическое сообщение #1:\nКурс"
    );
    assert_eq!(manager.get_periodic_message_text(), "Курс");
}

#[test]
fn time_until_next_is_unknown_before_it_is_set() {
    let manager = SubscriberManager::new("t".to_string());
    assert_eq!(manager.get_time_until_next(at(0)), None);
}

#[test]
fn time_until_next_counts_down_and_stops_at_zero() {
    let mut manager = SubscriberManager::new("t".to_string());
    let now = at(100);
    manager.set_next_send_time(now.plus(Duration::from_secs(5)));
    assert_eq!(
        manager.get_time_until_next(now),
        Some(Duration::from_secs(5))
    );
    let a_little_later = now.plus(Duration::from_millis(1));
    let left = manager.get_time_until_next(a_little_later).unwrap();
    assert_eq!(left, Duration::from_millis(4999));
    assert!(!left.is_zero());
    assert!(left.as_nanos() <= Duration::from_secs(5).as_nanos());
    assert_eq!(
        manager.get_time_until_next(at(105)),
        Some(Duration::from_secs(0))
    );
    assert_eq!(
        manager.get_time_until_next(at(1000)),
        Some(Duration::from_secs(0))
    );
}

#[test]
fn periodic_edit_needs_a_status_message() {
    let mut manager = SubscriberManager::new("Курс".to_string());
    let chat_id = ChatId(1);
    assert_eq!(manager.periodic_edit(chat_id), None);
    manager.subscribe(chat_id);
    assert_eq!(manager.periodic_edit(chat_id), None);
    manager.set_message_id(chat_id, MessageId(42));
    manager.increment_message_counter(chat_id);
    assert_eq!(
        manager.periodic_edit(chat_id),
        Some(PeriodicEdit {
            chat_id,
            message_id: MessageId(42),
            text: "Периодическое сообщение #2:\nКурс".to_string(),
        })
    );
}

#[test]
fn periodic_update_counts_only_edits_that_went_through() {
    let mut manager = SubscriberManager::new("Курс".to_string());
    let chat_id = ChatId(1);
    manager.subscribe(chat_id);
    manager.set_message_id(chat_id, MessageId(42));
    assert!(!manager.send_periodic_message_to_chat(chat_id, false));
    assert_eq!(manager.get_message_count(chat_id), 0);
    assert!(manager.send_periodic_message_to_chat(chat_id, true));
    assert_eq!(manager.get_message_count(chat_id), 1);
}

#[test]
fn module_subscribes_and_sends_the_first_status_message() {
    let module = SubscriberModule::new();
    let mut manager = SubscriberManager::new("Курс".to_string());
    let chat_id = ChatId(1);
    let replies = module.handle(&mut manager, chat_id, Some("/subscribe"), at(0));
    assert_eq!(
        replies,
        vec![
            Reply::Text("Вы успешно подписались на рассылку!".to_string()),
            Reply::Status("Периодическое сообщение #1:\nКурс".to_string()),
        ]
    );
    assert!(manager.is_subscribed(chat_id));
    assert_eq!(manager.get_message_count(chat_id), 0);
    assert_eq!(manager.get_message_id(chat_id), None);

    module.status_sent(&mut manager, chat_id, MessageId(77));
    assert_eq!(manager.get_message_count(chat_id), 1);
    assert_eq!(manager.get_message_id(chat_id), Some(MessageId(77)));

    let replies = module.handle(&mut manager, chat_id, Some("/subscribe"), at(0));
    assert_eq!(
        replies,
        vec![Reply::Text("Вы уже подписаны на рассылку.".to_string())]
    );
    assert_eq!(manager.get_message_count(chat_id), 1);
    assert_eq!(manager.get_message_id(chat_id), Some(MessageId(77)));
}

#[test]
fn module_unsubscribes() {
    let module = SubscriberModule::new();
    let mut manager = SubscriberManager::new("Курс".to_string());
    let chat_id = ChatId(1);
    assert_eq!(
        module.handle(&mut manager, chat_id, Some("/unsubscribe"), at(0)),
        vec![Reply::Text("Вы не были подписаны на рассылку.".to_string())]
    );
    manager.subscribe(chat_id);
    manager.set_message_id(chat_id, MessageId(5));
    assert_eq!(
        module.handle(&mut manager, chat_id, Some("/unsubscribe"), at(0)),
        vec![Reply::Text("Вы успешно отписались от рассылки.".to_string())]
    );
    assert!(!manager.is_subscribed(chat_id));
    assert_eq!(manager.get_message_id(chat_id), None);
}

#[test]
fn module_reports_the_status() {
    let module = SubscriberModule::new();
    let mut manager = SubscriberManager::new("Курс".to_string());
    let chat_id = ChatId(1);
    assert_eq!(
        module.handle(&mut manager, chat_id, Some("/status"), at(0)),
        vec![Reply::Text("Вы не подписаны на рассылку.".to_string())]
    );
    manager.subscribe(chat_id);
    manager.subscribe(ChatId(2));
    assert_eq!(
        module.format_status(&manager, chat_id, at(0)),
        "Вы подписаны на рассылку.\nИнформация о времени рассылки недоступна\nВсего подписчиков: 2"
    );
    manager.set_next_send_time(at(600));
    assert_eq!(
        module.format_status(&manager, chat_id, at(475)),
        "Вы подписаны на рассылку.\nСледующее сообщение через 2 мин 5 сек\nВсего подписчиков: 2"
    );
    assert_eq!(
        module.format_status(&manager, chat_id, at(599)),
        "Вы подписаны на рассылку.\nСледующее сообщение через 0 мин 1 сек\nВсего подписчиков: 2"
    );
    let almost = at(599).plus(Duration::from_millis(1));
    assert_eq!(
        module.format_status(&manager, chat_id, almost),
        "Вы подписаны на рассылку.\nСообщение будет отправлено скоро...\nВсего подписчиков: 2"
    );
    assert_eq!(
        module.handle(&mut manager, chat_id, Some("/status"), at(700)),
        vec![Reply::Text(
            "Вы подписаны на рассылку.\nСообщение будет отправлено скоро...\nВсего подписчиков: 2"
                .to_string()
        )]
    );
}

#[test]
fn module_answers_only_the_exact_commands() {
    let module = SubscriberModule::new();
    let mut manager = SubscriberManager::new("Курс".to_string());
    let chat_id = ChatId(1);
    assert_eq!(
        module.handle(&mut manager, chat_id, Some("/subscribe now"), at(0)),
        Vec::<Reply>::new()
    );
    assert_eq!(
        module.handle(&mut manager, chat_id, Some("/statusx"), at(0)),
        Vec::<Reply>::new()
    );
    assert_eq!(
        module.handle(&mut manager, chat_id, None, at(0)),
        Vec::<Reply>::new()
    );
    assert!(!manager.is_subscribed(chat_id));
}
