//! The module that echoes.

use crate::bot_modules::Module;
use crate::text::{starts_with, strip_leading, trim, trimmed, without_leading};
use vstd::prelude::*;

verus! {

/// What is echoed for a message with `text`: the text without the command
/// in front of it, however often the command is repeated there, and without
/// the whitespace at either end.
pub open spec fn echoed(text: Seq<char>) -> Seq<char> {
    trimmed(without_leading(text, "/echo"@))
}

/// The reply of the echo module to a message with `text`: none for a
/// message without text or with a text that does not start with the
/// command; else what is echoed, or a hint on usage where nothing is left
/// to echo.
pub open spec fn echo_reply(text: Option<Seq<char>>) -> Option<Seq<char>> {
    match text {
        Some(text) => if "/echo"@.is_prefix_of(text) {
            if echoed(text).len() == 0 {
                Some("Использование: /echo <текст>"@)
            } else {
                Some(echoed(text))
            }
        } else {
            None
        },
        None => None,
    }
}

/// Answers `/echo` with the rest of the message.
pub struct EchoModule;

impl EchoModule {
    pub fn new() -> Self {
        EchoModule
    }

    /// The reply to a message with `text`, if there is one.
    pub fn handle(&self, text: Option<&str>) -> (reply: Option<String>)
        ensures
            match echo_reply(
                match text {
                    Some(t) => Some(t@),
                    None => None,
                },
            ) {
                Some(expected) => reply matches Some(r) && r@ == expected,
                None => reply is None,
            },
    {
        match text {
            Some(text) => {
                if starts_with(text, "/echo") {
                    let rest = strip_leading(text, "/echo");
                    let echo_text = trim(rest.as_str());
                    if echo_text.as_str().is_empty() {
                        Some("Использование: /echo <текст>".to_owned())
                    } else {
                        Some(echo_text)
                    }
                } else {
                    None
                }
            },
            None => None,
        }
    }
}

impl Module for EchoModule {
    fn name(&self) -> (name: &str)
        ensures
            name@ == "Echo"@,
    {
        "Echo"
    }

    fn commands(&self) -> (commands: Vec<&str>)
        ensures
            commands@.len() == 1,
            commands@[0]@ == "/echo"@,
    {
        let mut commands: Vec<&str> = Vec::new();
        commands.push("/echo");
        commands
    }
}

} // verus!
