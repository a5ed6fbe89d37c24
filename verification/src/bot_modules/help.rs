//! The module that lists the commands.

use crate::bot_modules::Module;
use vstd::prelude::*;

verus! {

/// The help text.
pub open spec fn help_text() -> Seq<char> {
    "Доступные команды:\n\n/start - Начать работу с ботом\n/echo <текст> - Отправить эхо-ответ\n/subscribe - Подписаться на периодические сообщения\n/unsubscribe - Отписаться от периодических сообщений\n/status - Проверить статус подписки\n/help - Показать эту справку\n\nИспользуйте /help для получения информации о доступных командах."@
}

/// Answers `/help` with the list of commands.
pub struct HelpModule;

impl HelpModule {
    pub fn new() -> Self {
        HelpModule
    }

    /// The help text.
    pub fn get_help_text() -> (text: String)
        ensures
            text@ == help_text(),
    {
        "Доступные команды:\n\n/start - Начать работу с ботом\n/echo <текст> - Отправить эхо-ответ\n/subscribe - Подписаться на периодические сообщения\n/unsubscribe - Отписаться от периодических сообщений\n/status - Проверить статус подписки\n/help - Показать эту справку\n\nИспользуйте /help для получения информации о доступных командах.".to_owned()
    }

    /// The reply to a message: the help text, whatever the message says.
    pub fn handle(&self) -> (reply: String)
        ensures
            reply@ == help_text(),
    {
        Self::get_help_text()
    }
}

impl Module for HelpModule {
    fn name(&self) -> (name: &str)
        ensures
            name@ == "Help"@,
    {
        "Help"
    }

    fn commands(&self) -> (commands: Vec<&str>)
        ensures
            commands@.len() == 1,
            commands@[0]@ == "/help"@,
    {
        let mut commands: Vec<&str> = Vec::new();
        commands.push("/help");
        commands
    }
}

} // verus!
