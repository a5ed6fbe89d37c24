//! The command modules of the bot and the registry that routes a message to
//! one of them.

use crate::text::{starts_with, texts};
use vstd::prelude::*;

pub mod echo;
pub mod help;
pub mod newline;
pub mod price;
pub mod scheduler;
pub mod start;
pub mod subscribers;

pub use echo::EchoModule;
pub use help::HelpModule;
pub use newline::NewLineModule;
pub use price::PriceModule;
pub use start::StartModule;
pub use subscribers::{SubscriberManager, SubscriberModule};

verus! {

/// A module of the bot: a handler for the messages that start with one of
/// its commands.
pub trait Module {
    /// The name of the module.
    fn name(&self) -> &str;

    /// The commands the module answers to.
    fn commands(&self) -> Vec<&str>;
}

/// Where a message goes.
#[derive(Debug, Clone, Copy, PartialEq, Eq, Structural)]
pub enum Dispatch {
    /// The message is not for the bot: it has no text.
    Ignored,
    /// The message is for the module registered at this position.
    Handler(usize),
    /// No module answers to the message.
    Unknown,
}

/// Whether one of `commands` is a prefix of `text`.
pub open spec fn answers_to(commands: Seq<Seq<char>>, text: Seq<char>) -> bool {
    exists|j: int| 0 <= j < commands.len() && (#[trigger] commands[j]).is_prefix_of(text)
}

/// Whether `dispatch` is where a message with `text` goes, given the command
/// lists of the registered modules in the order of registration.
///
/// A message without text, or with an empty one, is ignored. Any other goes
/// to the first module that has a command with which the text starts, and is
/// unknown where there is no such module.
pub open spec fn routes(
    commands: Seq<Seq<Seq<char>>>,
    text: Option<Seq<char>>,
    dispatch: Dispatch,
) -> bool {
    match text {
        None => dispatch == Dispatch::Ignored,
        Some(text) => if text.len() == 0 {
            dispatch == Dispatch::Ignored
        } else {
            match dispatch {
                Dispatch::Ignored => false,
                Dispatch::Handler(i) => {
                    &&& i < commands.len()
                    &&& answers_to(commands[i as int], text)
                    &&& forall|k: int| 0 <= k < i ==> !answers_to(#[trigger] commands[k], text)
                },
                Dispatch::Unknown => forall|k: int|
                    0 <= k < commands.len() ==> !answers_to(#[trigger] commands[k], text),
            }
        },
    }
}

/// A message goes to one place only.
pub proof fn lemma_route_is_unique(
    commands: Seq<Seq<Seq<char>>>,
    text: Option<Seq<char>>,
    first: Dispatch,
    second: Dispatch,
)
    requires
        routes(commands, text, first),
        routes(commands, text, second),
    ensures
        first == second,
{
}

/// Of two modules of which the earlier has a command that is a prefix of a
/// command of the later, the later never gets a message that starts with
/// its longer command: the message goes to the earlier module, or to one
/// registered before it.
pub proof fn lemma_first_registered_wins(
    commands: Seq<Seq<Seq<char>>>,
    earlier: int,
    later: int,
    short: int,
    long: int,
    text: Seq<char>,
    dispatch: Dispatch,
)
    requires
        0 <= earlier < later < commands.len(),
        0 <= short < commands[earlier].len(),
        0 <= long < commands[later].len(),
        commands[earlier][short].is_prefix_of(commands[later][long]),
        commands[later][long].is_prefix_of(text),
        text.len() > 0,
        routes(commands, Some(text), dispatch),
    ensures
        dispatch matches Dispatch::Handler(i) && i <= earlier,
{
    let a = commands[earlier][short];
    let b = commands[later][long];
    assert(a =~= text.subrange(0, a.len() as int)) by {
        assert(a =~= b.subrange(0, a.len() as int));
        assert(b =~= text.subrange(0, b.len() as int));
    }
    assert(a.is_prefix_of(text));
    assert(answers_to(commands[earlier], text));
}

/// The views of the texts of `v`.
pub open spec fn named_views(v: Seq<&str>) -> Seq<Seq<char>> {
    v.map_values(|s: &str| s@)
}

/// The reply to a message that no module answers to.
pub fn unknown_command_reply() -> (reply: &'static str)
    ensures
        reply@ == "Неизвестная команда. Используйте /help"@,
{
    "Неизвестная команда. Используйте /help"
}

/// A registered module with the commands it answered to when it was
/// registered.
struct Entry<M> {
    module: M,
    commands: Vec<String>,
}

/// The modules of the bot in the order of their registration.
pub struct ModuleRegistry<M: Module> {
    entries: Vec<Entry<M>>,
}

impl<M: Module> ModuleRegistry<M> {
    /// The registered modules, in the order of registration.
    pub closed spec fn modules(&self) -> Seq<M> {
        self.entries@.map_values(|e: Entry<M>| e.module)
    }

    /// The command lists of the registered modules, in the order of
    /// registration.
    pub closed spec fn commands(&self) -> Seq<Seq<Seq<char>>> {
        self.entries@.map_values(|e: Entry<M>| texts(e.commands@))
    }

    /// A registry without modules.
    pub fn new() -> (registry: Self)
        ensures
            registry.modules() == Seq::<M>::empty(),
            registry.commands() == Seq::<Seq<Seq<char>>>::empty(),
    {
        let registry = ModuleRegistry { entries: Vec::new() };
        assert(registry.modules() =~= Seq::<M>::empty());
        assert(registry.commands() =~= Seq::<Seq<Seq<char>>>::empty());
        registry
    }

    /// Registers `module` behind the modules already there, with the
    /// commands it names now. The modules registered before stay where they
    /// are, so a later module never takes a message from an earlier one.
    pub fn register(&mut self, module: M)
        ensures
            final(self).modules() == old(self).modules().push(module),
            final(self).commands().len() == old(self).commands().len() + 1,
            final(self).commands().drop_last() == old(self).commands(),
            exists|named: Vec<&str>|
                {
                    &&& #[trigger] call_ensures(M::commands, (&module,), named)
                    &&& final(self).commands().last() == named_views(named@)
                },
    {
        let named = module.commands();
        let mut commands: Vec<String> = Vec::new();
        let mut i: usize = 0;
        while i < named.len()
            invariant
                i <= named.len(),
                commands@.len() == i,
                forall|j: int| 0 <= j < i ==> commands@[j]@ == named@[j]@,
            decreases named.len() - i,
        {
            commands.push(named[i].to_owned());
            i = i + 1;
        }
        assert(texts(commands@) =~= named_views(named@));
        self.entries.push(Entry { module, commands });
        assert(self.modules() =~= old(self).modules().push(module));
        assert(self.commands().drop_last() =~= old(self).commands());
    }

    /// The number of registered modules.
    pub fn len(&self) -> (n: usize)
        ensures
            n == self.modules().len(),
            n == self.commands().len(),
    {
        self.entries.len()
    }

    /// The module registered at position `index`.
    pub fn module(&self, index: usize) -> (module: &M)
        requires
            index < self.modules().len(),
        ensures
            *module == self.modules()[index as int],
    {
        &self.entries[index].module
    }

    /// Whether the module at position `index` has a command with which
    /// `text` starts.
    fn module_answers(&self, index: usize, text: &str) -> (b: bool)
        requires
            index < self.commands().len(),
        ensures
            b == answers_to(self.commands()[index as int], text@),
    {
        assert(self.commands().len() == self.entries@.len());
        let commands = &self.entries[index].commands;
        let ghost views = texts(commands@);
        assert(self.commands()[index as int] == views);
        let mut j: usize = 0;
        while j < commands.len()
            invariant
                j <= commands.len(),
                index < self.commands().len(),
                self.commands()[index as int] == views,
                views == texts(commands@),
                forall|k: int| 0 <= k < j ==> !(#[trigger] views[k]).is_prefix_of(text@),
            decreases commands.len() - j,
        {
            assert(views[j as int] == commands@[j as int]@);
            if starts_with(text, commands[j].as_str()) {
                assert(views[j as int].is_prefix_of(text@));
                return true;
            }
            j = j + 1;
        }
        false
    }

    /// The first module, in the order of registration, with a command that
    /// `text` starts with.
    fn first_answering(&self, text: &str) -> (found: Option<usize>)
        ensures
            match found {
                Some(i) => {
                    &&& i < self.commands().len()
                    &&& answers_to(self.commands()[i as int], text@)
                    &&& forall|k: int|
                        0 <= k < i ==> !answers_to(#[trigger] self.commands()[k], text@)
                },
                None => forall|k: int|
                    0 <= k < self.commands().len() ==> !answers_to(
                        #[trigger] self.commands()[k],
                        text@,
                    ),
            },
    {
        let mut i: usize = 0;
        while i < self.entries.len()
            invariant
                i <= self.entries.len(),
                self.commands().len() == self.entries@.len(),
                forall|k: int| 0 <= k < i ==> !answers_to(#[trigger] self.commands()[k], text@),
            decreases self.entries.len() - i,
        {
            if self.module_answers(i, text) {
                return Some(i);
            }
            i = i + 1;
        }
        None
    }

    /// Finds the module for a message with `text`.
    ///
    /// A message without text, or with an empty one, is ignored. Otherwise
    /// the modules are tried in the order of registration, and the first
    /// with a command that the text starts with gets the message. The test
    /// is for a prefix, not for a whole word.
    pub fn handle_message(&self, text: Option<&str>) -> (dispatch: Dispatch)
        ensures
            routes(
                self.commands(),
                match text {
                    Some(t) => Some(t@),
                    None => None,
                },
                dispatch,
            ),
    {
        match text {
            None => Dispatch::Ignored,
            Some(text) => {
                if text.is_empty() {
                    Dispatch::Ignored
                } else {
                    match self.first_answering(text) {
                        Some(i) => Dispatch::Handler(i),
                        None => Dispatch::Unknown,
                    }
                }
            },
        }
    }
}

} // verus!
