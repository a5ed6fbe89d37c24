//! The module that greets.

use crate::bot_modules::Module;
use vstd::prelude::*;

verus! {

/// The greeting.
pub open spec fn greeting_text() -> Seq<char> {
    "Добро пожаловать в Currency Bot!\nИспользуйте /echo <текст> для эхо-ответа."@
}

/// Answers `/start` with a greeting.
pub struct StartModule;

impl StartModule {
    pub fn new() -> Self {
        StartModule
    }

    /// The greeting.
    pub fn greeting() -> (text: &'static str)
        ensures
            text@ == greeting_text(),
    {
        "Добро пожаловать в Currency Bot!\nИспользуйте /echo <текст> для эхо-ответа."
    }

    /// The reply to a message: the greeting, whatever the message says.
    pub fn handle(&self) -> (reply: &'static str)
        ensures
            reply@ == greeting_text(),
    {
        Self::greeting()
    }
}

impl Module for StartModule {
    fn name(&self) -> (name: &str)
        ensures
            name@ == "Start"@,
    {
        "Start"
    }

    fn commands(&self) -> (commands: Vec<&str>)
        ensures
            commands@.len() == 1,
            commands@[0]@ == "/start"@,
    {
        let mut commands: Vec<&str> = Vec::new();
        commands.push("/start");
        commands
    }
}

} // verus!
