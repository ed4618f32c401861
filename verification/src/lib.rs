//! The decision core of an IRC command bot: who may use a command, which
//! command a line of chat asks for, and what the bot sends back.

use crate::modules::metar::{Lookup, LookupView};
use crate::proto::{Message, MessageView, Prefix, PrefixView};
use crate::table::Table;
use vstd::prelude::*;

/// The configuration of the bot.
pub mod config;
/// The controller that stands for the bot's main loop.
pub mod dispatch;
/// The commands that come with the bot.
pub mod modules;
/// A plain model of the messages that the bot reads.
pub mod proto;
/// The commands that the bot knows.
pub mod registry;
/// A table keyed by text.
pub mod table;
/// Characters, words and lists.
pub mod text;
/// Helpers for writing bot commands.
pub mod util;

verus! {

/// Why a command gave no response.
#[derive(Debug, PartialEq, Eq)]
pub enum BotError {
    /// The message could have been processed, but there is nowhere to send
    /// the response to, so it has been ignored.
    NoResponseTarget,
    /// The bot has been asked to leave the current channel outside of a
    /// channel.
    NoChannelToPart,
    /// The command needs an option that the configuration does not set.
    Unconfigured(&'static str),
}

/// A `BotError` as text.
pub ghost enum BotErrorView {
    NoResponseTarget,
    NoChannelToPart,
    Unconfigured(Seq<char>),
}

impl DeepView for BotError {
    type V = BotErrorView;

    open spec fn deep_view(&self) -> BotErrorView {
        match self {
            BotError::NoResponseTarget => BotErrorView::NoResponseTarget,
            BotError::NoChannelToPart => BotErrorView::NoChannelToPart,
            BotError::Unconfigured(what) => BotErrorView::Unconfigured(what@),
        }
    }
}

impl BotErrorView {
    /// The sentence that describes the error.
    pub open spec fn message(self) -> Seq<char> {
        match self {
            BotErrorView::NoResponseTarget => "Ignoring message since no response target is set"@,
            BotErrorView::NoChannelToPart => {
                "Requested to part the current channel outside of a channel"@
            },
            BotErrorView::Unconfigured(what) => what,
        }
    }
}

impl BotError {
    /// The sentence that describes the error.
    pub fn message(&self) -> (text: String)
        ensures
            text@ == self.deep_view().message(),
    {
        match self {
            BotError::NoResponseTarget => {
                "Ignoring message since no response target is set".to_owned()
            },
            BotError::NoChannelToPart => {
                "Requested to part the current channel outside of a channel".to_owned()
            },
            BotError::Unconfigured(what) => (*what).to_owned(),
        }
    }
}

/// What the bot does in response to a command.
#[derive(Debug, PartialEq, Eq)]
pub enum BotResponse {
    /// Do nothing.
    Ignore,
    /// Quit the connection to the server, with an optional quit message.
    Quit(Option<String>),
    /// Part the given channel, with an optional part message.
    Part(String, Option<String>),
    /// Join the channel of the given name.
    Join(String),
    /// Send a privmsg: first the target (a channel or a nickname), then
    /// the text.
    Privmsg(String, String),
    /// Send a notice: first the target, then the text.
    Notice(String, String),
}

/// A `BotResponse` as text.
pub ghost enum BotResponseView {
    Ignore,
    Quit(Option<Seq<char>>),
    Part(Seq<char>, Option<Seq<char>>),
    Join(Seq<char>),
    Privmsg(Seq<char>, Seq<char>),
    Notice(Seq<char>, Seq<char>),
}

impl DeepView for BotResponse {
    type V = BotResponseView;

    open spec fn deep_view(&self) -> BotResponseView {
        match self {
            BotResponse::Ignore => BotResponseView::Ignore,
            BotResponse::Quit(text) => BotResponseView::Quit(text.deep_view()),
            BotResponse::Part(channel, text) => BotResponseView::Part(channel@, text.deep_view()),
            BotResponse::Join(channel) => BotResponseView::Join(channel@),
            BotResponse::Privmsg(target, text) => BotResponseView::Privmsg(target@, text@),
            BotResponse::Notice(target, text) => BotResponseView::Notice(target@, text@),
        }
    }
}

/// The options of the configuration, by name.
pub type Options = Table<String>;

/// The options as text.
pub open spec fn options_view(options: Options) -> Map<Seq<char>, Seq<char>> {
    options@.map_values(|value: String| value@)
}

/// What a command is handed when it is invoked.
pub struct BotParameters<'a> {
    /// The received message that triggered the command.
    pub message: Message,
    /// The leader characters in force where the message was written: the
    /// configured ones in a channel, none in a query.
    pub leaders: Vec<char>,
    /// The owners of the bot: each is a rule of three glob patterns for
    /// nickname, username and hostname. An empty pattern matches
    /// everything, unless all three are empty, which makes the rule void.
    pub owners: &'a Vec<Prefix>,
    /// The arguments given to the command, split at white space.
    pub args: Vec<String>,
    /// The options of the configuration.
    pub options: &'a Options,
}

/// `BotParameters` as text.
pub ghost struct BotParametersView {
    pub message: MessageView,
    pub leaders: Seq<char>,
    pub owners: Seq<PrefixView>,
    pub args: Seq<Seq<char>>,
    pub options: Map<Seq<char>, Seq<char>>,
}

impl<'a> DeepView for BotParameters<'a> {
    type V = BotParametersView;

    open spec fn deep_view(&self) -> BotParametersView {
        BotParametersView {
            message: self.message.deep_view(),
            leaders: self.leaders@,
            owners: self.owners.deep_view(),
            args: self.args.deep_view(),
            options: options_view(*self.options),
        }
    }
}

/// The result of a bot command: a response, or the reason for none.
pub type BotCommandResult = Result<BotResponse, BotError>;

/// A `BotCommandResult` as text.
pub open spec fn result_view(result: BotCommandResult) -> Result<BotResponseView, BotErrorView> {
    match result {
        Ok(response) => Ok(response.deep_view()),
        Err(error) => Err(error.deep_view()),
    }
}

/// How far a command has come: it is done, or it waits for a lookup that
/// only the caller can make.
#[derive(Debug, PartialEq, Eq)]
pub enum BotCommandStep {
    /// The command is done.
    Done(BotCommandResult),
    /// The command goes on once the caller has made this lookup.
    Fetch(Lookup),
}

/// A `BotCommandStep` as text.
pub ghost enum BotCommandStepView {
    Done(Result<BotResponseView, BotErrorView>),
    Fetch(LookupView),
}

impl DeepView for BotCommandStep {
    type V = BotCommandStepView;

    open spec fn deep_view(&self) -> BotCommandStepView {
        match self {
            BotCommandStep::Done(result) => BotCommandStepView::Done(result_view(*result)),
            BotCommandStep::Fetch(lookup) => BotCommandStepView::Fetch(lookup.deep_view()),
        }
    }
}

/// A command of the bot.
pub trait BotCommand {
    /// The trigger word of the command. A command that comes without
    /// proofs leaves it unsaid.
    open spec fn trigger_word(&self) -> Seq<char> {
        arbitrary()
    }

    /// The trigger word of the command: one word, the same at every call.
    fn trigger(&self) -> (word: &'static str)
        ensures
            word@ == self.trigger_word(),
    ;

    /// Runs the command on a message whose first word was its trigger.
    fn handle(&self, params: BotParameters<'_>) -> BotCommandStep;
}

} // verus!
