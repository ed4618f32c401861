//! The commands that the bot knows, by trigger word.

use crate::table::Table;
use crate::text::{lowercase, to_lowercase};
use crate::BotCommand;
use vstd::prelude::*;

verus! {

/// The key that a command is kept under: its trigger word in lower case.
pub open spec fn key_of<C: BotCommand>(command: C) -> Seq<char> {
    lowercase(command.trigger_word())
}

/// The registry that holds the given commands, registered in order. Of
/// two commands with one key the later one stays.
pub open spec fn registered<C: BotCommand>(commands: Seq<C>) -> Map<Seq<char>, C>
    decreases commands.len(),
{
    if commands.len() == 0 {
        Map::empty()
    } else {
        registered(commands.drop_last()).insert(key_of(commands.last()), commands.last())
    }
}

/// The commands of the bot, each under its trigger word in lower case. It
/// is filled before the bot starts and only read after that.
pub struct Registry<C> {
    commands: Table<C>,
}

impl<C: BotCommand> Registry<C> {
    /// The registry as a map from keys to commands.
    pub closed spec fn view(&self) -> Map<Seq<char>, C> {
        self.commands@
    }

    /// The registry without commands.
    pub fn new() -> (registry: Self)
        ensures
            registry@ == Map::<Seq<char>, C>::empty(),
    {
        Registry { commands: Table::new() }
    }

    /// Registers a command under its trigger word in lower case. A command
    /// that was registered under the same key before is dropped: the last
    /// one registered wins.
    pub fn register(&mut self, command: C)
        ensures
            final(self)@ == old(self)@.insert(key_of(command), command),
    {
        let key = to_lowercase(command.trigger());
        self.commands.insert(key, command);
    }

    /// The registry of the given commands, registered in order.
    pub fn build(commands: Vec<C>) -> (registry: Self)
        ensures
            registry@ == registered(commands@),
    {
        let mut registry = Self::new();
        let ghost all = commands@;
        for command in it: commands
            invariant
                it.seq() == all,
                registry@ == registered(all.take(it.index() as int)),
        {
            proof {
                let next = all.take(it.index() + 1);
                assert(next.drop_last() =~= all.take(it.index() as int));
                assert(next.last() == command);
            }
            registry.register(command);
        }
        assert(all.take(all.len() as int) =~= all);
        registry
    }

    /// The command that is kept under `key`. Keys are in lower case, so a
    /// word finds its command whatever the case of its letters once the
    /// word has been put in lower case.
    pub fn lookup(&self, key: &str) -> (found: Option<&C>)
        ensures
            match found {
                Some(command) => self@.contains_key(key@) && self@[key@] == *command,
                None => !self@.contains_key(key@),
            },
    {
        self.commands.get(key)
    }
}

} // verus!
