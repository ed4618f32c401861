//! The standard IRC actions: join, part and quit.

use crate::modules::Builtin;
use crate::proto::{MessageView, Prefix, PrefixView};
use crate::text::{joined, rest};
use crate::util::{is_channel_name, is_owner, is_public, owner};
use crate::{
    result_view, BotCommand, BotCommandResult, BotCommandStep, BotError, BotErrorView,
    BotParameters, BotParametersView, BotResponse, BotResponseView,
};
use vstd::prelude::*;
use vstd::string::StringExecFns;

verus! {

/// The sender that the owner rules are held against: the message's own,
/// or a user with three empty names where the message names no sender.
pub open spec fn sender(message: MessageView) -> PrefixView {
    match message.prefix {
        Some(prefix) => prefix,
        None => PrefixView::Nickname(Seq::empty(), Seq::empty(), Seq::empty()),
    }
}

/// Whether the sender of the message may use the commands that are for
/// owners only.
pub open spec fn authorized(params: BotParametersView) -> bool {
    owner(sender(params.message), params.owners)
}

/// What a sender who is no owner is told.
pub open spec fn refusal_text(command: Seq<char>) -> Seq<char> {
    "You are not authorized to use the "@ + command + " command"@
}

/// What a command for owners answers to a sender who is none: a notice to
/// the sender's nickname, or nothing where the sender has no nickname.
pub open spec fn refusal(command: Seq<char>, message: MessageView) -> BotResponseView {
    match message.source_nickname() {
        Some(nick) => BotResponseView::Notice(nick, refusal_text(command)),
        None => BotResponseView::Ignore,
    }
}

fn sender_is_owner(params: &BotParameters<'_>) -> (granted: bool)
    ensures
        granted == authorized(params.deep_view()),
{
    match &params.message.prefix {
        Some(prefix) => is_owner(prefix, params.owners),
        None => {
            let nobody = Prefix::Nickname(String::new(), String::new(), String::new());
            is_owner(&nobody, params.owners)
        },
    }
}

/// Makes sure that whoever sent the message is an owner of the bot. For an
/// owner it returns `None`, and the command goes on. For anyone else it
/// returns what the command is to answer in place of its own response.
pub fn ensure_owner(command: &str, params: &BotParameters<'_>) -> (stop: Option<
    BotCommandResult,
>)
    ensures
        authorized(params.deep_view()) ==> stop is None,
        !authorized(params.deep_view()) ==> stop is Some && result_view(stop->Some_0) == Ok::<
            BotResponseView,
            BotErrorView,
        >(refusal(command@, params.message.deep_view())),
{
    if sender_is_owner(params) {
        return None;
    }
    match params.message.source_nickname() {
        Some(nick) => {
            let text = String::from_str("You are not authorized to use the ").concat(
                command,
            ).concat(" command");
            Some(Ok(BotResponse::Notice(nick.to_owned(), text)))
        },
        None => Some(Ok(BotResponse::Ignore)),
    }
}

/// What the join command answers: for an owner, to join the channel named
/// by the first argument, or nothing where there is no argument.
pub open spec fn join_outcome(params: BotParametersView) -> Result<BotResponseView, BotErrorView> {
    if !authorized(params) {
        Ok(refusal("join"@, params.message))
    } else if params.args.len() > 0 {
        Ok(BotResponseView::Join(params.args[0]))
    } else {
        Ok(BotResponseView::Ignore)
    }
}

/// The channel that the part command leaves: the one named by the first
/// argument, else the channel that the message was written in.
pub open spec fn channel_to_part(params: BotParametersView) -> Option<Seq<char>> {
    if params.args.len() > 0 {
        Some(params.args[0])
    } else {
        match params.message.response_target() {
            Some(target) if is_channel_name(target) => Some(target),
            _ => None,
        }
    }
}

/// What the part command answers: for an owner, to leave the channel, with
/// the arguments after the first as the parting words; an error where
/// there is no channel to leave.
pub open spec fn part_outcome(params: BotParametersView) -> Result<BotResponseView, BotErrorView> {
    if !authorized(params) {
        Ok(refusal("part"@, params.message))
    } else {
        match channel_to_part(params) {
            Some(channel) => Ok(
                BotResponseView::Part(
                    channel,
                    if params.args.len() > 1 {
                        Some(joined(rest(params.args, 1)))
                    } else {
                        None
                    },
                ),
            ),
            None => Err(BotErrorView::NoChannelToPart),
        }
    }
}

/// What the quit command answers: for an owner, to quit, with the
/// arguments as the last words.
pub open spec fn quit_outcome(params: BotParametersView) -> Result<BotResponseView, BotErrorView> {
    if !authorized(params) {
        Ok(refusal("quit"@, params.message))
    } else {
        Ok(
            BotResponseView::Quit(
                if params.args.len() > 0 {
                    Some(joined(params.args))
                } else {
                    None
                },
            ),
        )
    }
}

/// A sender who is no owner gets from each of the three commands the
/// refusal and nothing else: a notice to the sender's nickname, or nothing
/// where the sender has no nickname. The bot neither joins, parts nor
/// quits, and the command does not fail.
pub proof fn lemma_unauthorized_is_refused(params: BotParametersView)
    requires
        !authorized(params),
    ensures
        join_outcome(params) == Ok::<BotResponseView, BotErrorView>(
            refusal("join"@, params.message),
        ),
        part_outcome(params) == Ok::<BotResponseView, BotErrorView>(
            refusal("part"@, params.message),
        ),
        quit_outcome(params) == Ok::<BotResponseView, BotErrorView>(
            refusal("quit"@, params.message),
        ),
        forall|command: Seq<char>|
            match params.message.source_nickname() {
                Some(nick) => #[trigger] refusal(command, params.message)
                    == BotResponseView::Notice(nick, refusal_text(command)),
                None => refusal(command, params.message) == BotResponseView::Ignore,
            },
{
}

/// The command that makes the bot join a channel.
#[derive(Debug, PartialEq, Eq)]
pub struct IrcJoinCommand {}

/// The command that makes the bot leave a channel.
#[derive(Debug, PartialEq, Eq)]
pub struct IrcPartCommand {}

/// The command that makes the bot quit.
#[derive(Debug, PartialEq, Eq)]
pub struct IrcQuitCommand {}

impl BotCommand for IrcJoinCommand {
    open spec fn trigger_word(&self) -> Seq<char> {
        "join"@
    }

    fn trigger(&self) -> (word: &'static str) {
        "join"
    }

    fn handle(&self, params: BotParameters<'_>) -> (step: BotCommandStep)
        ensures
            step.deep_view() == crate::BotCommandStepView::Done(join_outcome(params.deep_view())),
    {
        if let Some(stop) = ensure_owner(self.trigger(), &params) {
            return BotCommandStep::Done(stop);
        }
        if params.args.len() > 0 {
            BotCommandStep::Done(Ok(BotResponse::Join(params.args[0].clone())))
        } else {
            BotCommandStep::Done(Ok(BotResponse::Ignore))
        }
    }
}

impl BotCommand for IrcPartCommand {
    open spec fn trigger_word(&self) -> Seq<char> {
        "part"@
    }

    fn trigger(&self) -> (word: &'static str) {
        "part"
    }

    fn handle(&self, params: BotParameters<'_>) -> (step: BotCommandStep)
        ensures
            step.deep_view() == crate::BotCommandStepView::Done(part_outcome(params.deep_view())),
    {
        if let Some(stop) = ensure_owner(self.trigger(), &params) {
            return BotCommandStep::Done(stop);
        }
        let channel = if params.args.len() > 0 {
            params.args[0].clone()
        } else {
            match params.message.response_target() {
                Some(target) => {
                    if is_public(target) {
                        target.to_owned()
                    } else {
                        return BotCommandStep::Done(Err(BotError::NoChannelToPart));
                    }
                },
                None => {
                    return BotCommandStep::Done(Err(BotError::NoChannelToPart));
                },
            }
        };
        let comment = if params.args.len() > 1 {
            Some(crate::text::join(&params.args, 1))
        } else {
            None
        };
        BotCommandStep::Done(Ok(BotResponse::Part(channel, comment)))
    }
}

impl BotCommand for IrcQuitCommand {
    open spec fn trigger_word(&self) -> Seq<char> {
        "quit"@
    }

    fn trigger(&self) -> (word: &'static str) {
        "quit"
    }

    fn handle(&self, params: BotParameters<'_>) -> (step: BotCommandStep)
        ensures
            step.deep_view() == crate::BotCommandStepView::Done(quit_outcome(params.deep_view())),
    {
        if let Some(stop) = ensure_owner(self.trigger(), &params) {
            return BotCommandStep::Done(stop);
        }
        assert(rest(params.args.deep_view(), 0) =~= params.args.deep_view());
        let comment = if params.args.len() > 0 {
            Some(crate::text::join(&params.args, 0))
        } else {
            None
        };
        BotCommandStep::Done(Ok(BotResponse::Quit(comment)))
    }
}

/// The commands of this module: join, part and quit, in this order.
pub fn mk() -> (commands: Vec<Builtin>)
    ensures
        commands@ == seq![
            Builtin::Join(IrcJoinCommand {}),
            Builtin::Part(IrcPartCommand {}),
            Builtin::Quit(IrcQuitCommand {}),
        ],
{
    let mut commands: Vec<Builtin> = Vec::new();
    commands.push(Builtin::Join(IrcJoinCommand {}));
    commands.push(Builtin::Part(IrcPartCommand {}));
    commands.push(Builtin::Quit(IrcQuitCommand {}));
    assert(commands@ =~= seq![
        Builtin::Join(IrcJoinCommand {}),
        Builtin::Part(IrcPartCommand {}),
        Builtin::Quit(IrcQuitCommand {}),
    ]);
    commands
}

} // verus!
