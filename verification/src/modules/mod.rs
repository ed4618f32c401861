//! The commands that come with the bot.

use crate::modules::ircactions::{
    join_outcome, part_outcome, quit_outcome, IrcJoinCommand, IrcPartCommand, IrcQuitCommand,
};
use crate::modules::metar::{handle_outcome, MetarCommand, TafCommand, WeatherType};
use crate::{BotCommand, BotCommandStep, BotCommandStepView, BotParameters, BotParametersView};
use vstd::prelude::*;

/// Join, part and quit.
pub mod ircactions;
/// Weather reports for airports.
pub mod metar;

verus! {

/// Any of the commands that come with the bot.
#[derive(Debug, PartialEq, Eq)]
pub enum Builtin {
    /// Join a channel.
    Join(IrcJoinCommand),
    /// Leave a channel.
    Part(IrcPartCommand),
    /// Quit the connection.
    Quit(IrcQuitCommand),
    /// The METAR of an airport.
    Metar(MetarCommand),
    /// The TAF of an airport.
    Taf(TafCommand),
}

impl Builtin {
    /// The first step of the command on the given parameters.
    pub open spec fn outcome(self, params: BotParametersView) -> BotCommandStepView {
        match self {
            Builtin::Join(_) => BotCommandStepView::Done(join_outcome(params)),
            Builtin::Part(_) => BotCommandStepView::Done(part_outcome(params)),
            Builtin::Quit(_) => BotCommandStepView::Done(quit_outcome(params)),
            Builtin::Metar(_) => handle_outcome(WeatherType::METAR, params),
            Builtin::Taf(_) => handle_outcome(WeatherType::TAF, params),
        }
    }
}

impl BotCommand for Builtin {
    open spec fn trigger_word(&self) -> Seq<char> {
        match self {
            Builtin::Join(command) => command.trigger_word(),
            Builtin::Part(command) => command.trigger_word(),
            Builtin::Quit(command) => command.trigger_word(),
            Builtin::Metar(command) => command.trigger_word(),
            Builtin::Taf(command) => command.trigger_word(),
        }
    }

    fn trigger(&self) -> (word: &'static str) {
        match self {
            Builtin::Join(command) => command.trigger(),
            Builtin::Part(command) => command.trigger(),
            Builtin::Quit(command) => command.trigger(),
            Builtin::Metar(command) => command.trigger(),
            Builtin::Taf(command) => command.trigger(),
        }
    }

    fn handle(&self, params: BotParameters<'_>) -> (step: BotCommandStep)
        ensures
            step.deep_view() == self.outcome(params.deep_view()),
    {
        match self {
            Builtin::Join(command) => command.handle(params),
            Builtin::Part(command) => command.handle(params),
            Builtin::Quit(command) => command.handle(params),
            Builtin::Metar(command) => command.handle(params),
            Builtin::Taf(command) => command.handle(params),
        }
    }
}

/// All the commands that come with the bot, module by module: join, part,
/// quit, METAR and TAF.
pub fn all() -> (commands: Vec<Builtin>)
    ensures
        commands@ == seq![
            Builtin::Join(IrcJoinCommand {}),
            Builtin::Part(IrcPartCommand {}),
            Builtin::Quit(IrcQuitCommand {}),
            Builtin::Metar(MetarCommand {}),
            Builtin::Taf(TafCommand {}),
        ],
{
    let mut commands = ircactions::mk();
    let mut more = metar::mk();
    commands.append(&mut more);
    assert(commands@ =~= seq![
        Builtin::Join(IrcJoinCommand {}),
        Builtin::Part(IrcPartCommand {}),
        Builtin::Quit(IrcQuitCommand {}),
        Builtin::Metar(MetarCommand {}),
        Builtin::Taf(TafCommand {}),
    ]);
    commands
}

} // verus!
