//! A plain model of the parts of an IRC message that the bot reads.

use crate::util::{is_channel_name, is_public};
use vstd::prelude::*;

verus! {

/// Where a message comes from.
#[derive(Debug, PartialEq, Eq)]
pub enum Prefix {
    /// A server, by its name.
    ServerName(String),
    /// A user: nickname, username and hostname, any of which may be empty.
    Nickname(String, String, String),
}

/// A `Prefix` as text.
pub ghost enum PrefixView {
    ServerName(Seq<char>),
    Nickname(Seq<char>, Seq<char>, Seq<char>),
}

impl DeepView for Prefix {
    type V = PrefixView;

    open spec fn deep_view(&self) -> PrefixView {
        match self {
            Prefix::ServerName(name) => PrefixView::ServerName(name@),
            Prefix::Nickname(nick, user, host) => PrefixView::Nickname(nick@, user@, host@),
        }
    }
}

/// The prefix that the irc crate reads from a text.
pub uninterp spec fn parsed_prefix(s: Seq<char>) -> PrefixView;

/// `Prefix::new_from_str` of the irc crate: reads a prefix of the form
/// `nickname!username@hostname`, or the name of a server, from a text. It
/// takes every text, and what it reads depends on the text alone.
#[verifier::external_body]
fn parse_prefix(s: &str) -> (prefix: Prefix)
    ensures
        prefix.deep_view() == parsed_prefix(s@),
{
    match irc::proto::Prefix::new_from_str(s) {
        irc::proto::Prefix::ServerName(name) => Prefix::ServerName(name),
        irc::proto::Prefix::Nickname(nick, user, host) => Prefix::Nickname(nick, user, host),
    }
}

impl Prefix {
    /// Reads a prefix from a text of the form `nickname!username@hostname`,
    /// or from the name of a server.
    pub fn new_from_str(s: &str) -> (prefix: Prefix)
        ensures
            prefix.deep_view() == parsed_prefix(s@),
    {
        parse_prefix(s)
    }
}

/// What a message asks for, as far as the bot tells messages apart.
#[derive(Debug, PartialEq, Eq)]
pub enum Command {
    /// Text for a target: a channel or a nickname.
    PRIVMSG(String, String),
    /// A notice for a target.
    NOTICE(String, String),
    /// Any other protocol message.
    Other,
}

/// A `Command` as text.
pub ghost enum CommandView {
    PRIVMSG(Seq<char>, Seq<char>),
    NOTICE(Seq<char>, Seq<char>),
    Other,
}

impl DeepView for Command {
    type V = CommandView;

    open spec fn deep_view(&self) -> CommandView {
        match self {
            Command::PRIVMSG(target, text) => CommandView::PRIVMSG(target@, text@),
            Command::NOTICE(target, text) => CommandView::NOTICE(target@, text@),
            Command::Other => CommandView::Other,
        }
    }
}

/// One message received from the server.
#[derive(Debug, PartialEq, Eq)]
pub struct Message {
    /// The sender, where the server named one.
    pub prefix: Option<Prefix>,
    /// What the message asks for.
    pub command: Command,
}

/// A `Message` as text.
pub ghost struct MessageView {
    pub prefix: Option<PrefixView>,
    pub command: CommandView,
}

impl MessageView {
    /// The nickname of the sender, if the sender is a user.
    pub open spec fn source_nickname(self) -> Option<Seq<char>> {
        match self.prefix {
            Some(PrefixView::Nickname(nick, _, _)) => Some(nick),
            _ => None,
        }
    }

    /// Where an answer goes: the channel that the text or notice was sent
    /// to, else the sender's nickname.
    pub open spec fn response_target(self) -> Option<Seq<char>> {
        match self.command {
            CommandView::PRIVMSG(target, _) if is_channel_name(target) => Some(target),
            CommandView::NOTICE(target, _) if is_channel_name(target) => Some(target),
            _ => self.source_nickname(),
        }
    }
}

impl DeepView for Message {
    type V = MessageView;

    open spec fn deep_view(&self) -> MessageView {
        MessageView { prefix: self.prefix.deep_view(), command: self.command.deep_view() }
    }
}

impl Message {
    /// The nickname of the sender, if the sender is a user.
    pub fn source_nickname(&self) -> (nick: Option<&str>)
        ensures
            nick.deep_view() == self.deep_view().source_nickname(),
    {
        match &self.prefix {
            Some(Prefix::Nickname(nick, _, _)) => Some(nick.as_str()),
            _ => None,
        }
    }

    /// Where an answer to this message goes: the channel, if it was sent
    /// to one as text or as a notice, else the sender's nickname.
    pub fn response_target(&self) -> (target: Option<&str>)
        ensures
            target.deep_view() == self.deep_view().response_target(),
    {
        match &self.command {
            Command::PRIVMSG(target, _) => {
                if is_public(target.as_str()) {
                    return Some(target.as_str());
                }
            },
            Command::NOTICE(target, _) => {
                if is_public(target.as_str()) {
                    return Some(target.as_str());
                }
            },
            Command::Other => {},
        }
        self.source_nickname()
    }
}

} // verus!
