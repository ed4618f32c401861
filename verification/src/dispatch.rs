//! The controller of the bot. It is told of everything that happens on the
//! connection and to the commands that run, one event at a time, and says
//! what to do about each. It never waits: commands run elsewhere, and any
//! number of them may be in flight.

use crate::config::Config;
use crate::proto::{Command, CommandView, Message, MessageView, PrefixView};
use crate::registry::Registry;
use crate::text::{chars_of, lowercase, split_whitespace, to_lowercase, tokens};
use crate::util::{is_channel_name, is_public};
use crate::{
    options_view, result_view, BotCommand, BotCommandResult, BotError, BotErrorView,
    BotParameters, BotParametersView, BotResponse, BotResponseView,
};
use vstd::prelude::*;

verus! {

/// What a message asks the bot to do: the trigger word, in lower case, and
/// the arguments, and whether it was said in public.
#[derive(Debug, PartialEq, Eq)]
pub struct Invocation {
    /// Whether the message went to a channel, where a leader is required.
    pub public: bool,
    /// The first word, in lower case.
    pub trigger: String,
    /// The words after the first.
    pub args: Vec<String>,
}

/// An `Invocation` as text.
pub ghost struct InvocationView {
    pub public: bool,
    pub trigger: Seq<char>,
    pub args: Seq<Seq<char>>,
}

impl DeepView for Invocation {
    type V = InvocationView;

    open spec fn deep_view(&self) -> InvocationView {
        InvocationView {
            public: self.public,
            trigger: self.trigger@,
            args: self.args.deep_view(),
        }
    }
}

/// What a message asks the bot to do, if anything. Only text sent to a
/// target asks for something. In a channel the text must begin with one of
/// the leaders, which is then taken off; in a query no leader is looked
/// for. What remains is cut into words: the first, in lower case, is the
/// trigger, the others are the arguments. Text without a word asks for
/// nothing.
pub open spec fn invocation(message: MessageView, leaders: Seq<char>) -> Option<InvocationView> {
    match message.command {
        CommandView::PRIVMSG(target, text) => {
            let public = is_channel_name(target);
            if public && (text.len() == 0 || !leaders.contains(text[0])) {
                None
            } else {
                let words = tokens(
                    if public {
                        text.skip(1)
                    } else {
                        text
                    },
                );
                if words.len() == 0 {
                    None
                } else {
                    Some(
                        InvocationView {
                            public,
                            trigger: lowercase(words[0]),
                            args: words.skip(1),
                        },
                    )
                }
            }
        },
        _ => None,
    }
}

fn contains(chars: &Vec<char>, c: char) -> (found: bool)
    ensures
        found == chars@.contains(c),
{
    let mut i: usize = 0;
    while i < chars.len()
        invariant
            i <= chars.len(),
            forall|j: int| 0 <= j < i ==> chars[j] != c,
        decreases chars.len() - i,
    {
        if chars[i] == c {
            return true;
        }
        i += 1;
    }
    false
}

/// Reads from a message what it asks the bot to do.
pub fn parse(message: &Message, leaders: &Vec<char>) -> (found: Option<Invocation>)
    ensures
        found.deep_view() == invocation(message.deep_view(), leaders@),
{
    let (target, text) = match &message.command {
        Command::PRIVMSG(target, text) => (target.as_str(), text.as_str()),
        _ => {
            return None;
        },
    };
    let public = is_public(target);
    let mut words = if public {
        let chars = chars_of(text);
        if chars.len() == 0 || !contains(leaders, chars[0]) {
            return None;
        }
        split_whitespace(text.substring_char(1, chars.len()))
    } else {
        split_whitespace(text)
    };
    if words.len() == 0 {
        return None;
    }
    let ghost all = words.deep_view();
    let first = words.remove(0);
    assert(words.deep_view() =~= all.skip(1));
    assert(first@ == all[0]);
    let trigger = to_lowercase(first.as_str());
    Some(Invocation { public, trigger, args: words })
}

/// One thing that the bot does on its connection.
#[derive(Debug, PartialEq, Eq)]
pub enum Outbound {
    /// Disconnect, with an optional reason.
    Quit(Option<String>),
    /// Leave a channel, with an optional reason.
    Part(String, Option<String>),
    /// Join a channel.
    Join(String),
    /// Send text to a target.
    Privmsg(String, String),
    /// Send a notice to a target.
    Notice(String, String),
}

/// An `Outbound` as text.
pub ghost enum OutboundView {
    Quit(Option<Seq<char>>),
    Part(Seq<char>, Option<Seq<char>>),
    Join(Seq<char>),
    Privmsg(Seq<char>, Seq<char>),
    Notice(Seq<char>, Seq<char>),
}

impl DeepView for Outbound {
    type V = OutboundView;

    open spec fn deep_view(&self) -> OutboundView {
        match self {
            Outbound::Quit(reason) => OutboundView::Quit(reason.deep_view()),
            Outbound::Part(channel, reason) => OutboundView::Part(channel@, reason.deep_view()),
            Outbound::Join(channel) => OutboundView::Join(channel@),
            Outbound::Privmsg(target, text) => OutboundView::Privmsg(target@, text@),
            Outbound::Notice(target, text) => OutboundView::Notice(target@, text@),
        }
    }
}

/// What a response makes the bot do on its connection: nothing for
/// `Ignore`, and for each other response the one thing that it names.
pub open spec fn applied(response: BotResponseView) -> Option<OutboundView> {
    match response {
        BotResponseView::Ignore => None,
        BotResponseView::Quit(reason) => Some(OutboundView::Quit(reason)),
        BotResponseView::Part(channel, reason) => Some(OutboundView::Part(channel, reason)),
        BotResponseView::Join(channel) => Some(OutboundView::Join(channel)),
        BotResponseView::Privmsg(target, text) => Some(OutboundView::Privmsg(target, text)),
        BotResponseView::Notice(target, text) => Some(OutboundView::Notice(target, text)),
    }
}

/// What a response makes the bot do on its connection.
pub fn handle_response(response: BotResponse) -> (outbound: Option<Outbound>)
    ensures
        outbound.deep_view() == applied(response.deep_view()),
{
    match response {
        BotResponse::Ignore => None,
        BotResponse::Quit(reason) => Some(Outbound::Quit(reason)),
        BotResponse::Part(channel, reason) => Some(Outbound::Part(channel, reason)),
        BotResponse::Join(channel) => Some(Outbound::Join(channel)),
        BotResponse::Privmsg(target, text) => Some(Outbound::Privmsg(target, text)),
        BotResponse::Notice(target, text) => Some(Outbound::Notice(target, text)),
    }
}

/// Something that went wrong and is worth a line in the log, and no more.
#[derive(Debug, PartialEq, Eq)]
pub enum Warning {
    /// A command failed.
    CommandFailed(BotError),
    /// The connection did not take what the bot tried to do on it.
    SendFailed,
}

/// A `Warning` as text.
pub ghost enum WarningView {
    CommandFailed(BotErrorView),
    SendFailed,
}

impl DeepView for Warning {
    type V = WarningView;

    open spec fn deep_view(&self) -> WarningView {
        match self {
            Warning::CommandFailed(error) => WarningView::CommandFailed(error.deep_view()),
            Warning::SendFailed => WarningView::SendFailed,
        }
    }
}

/// Something that happened.
#[derive(Debug, PartialEq, Eq)]
pub enum Event {
    /// A message arrived.
    Message(Message),
    /// The server closed the connection.
    Closed,
    /// The connection failed.
    Failed,
    /// The command that ran as the given task ended with the given result.
    Completed(usize, BotCommandResult),
    /// The connection did not take what the bot tried to do on it.
    SendFailed,
}

/// An `Event` as text.
pub ghost enum EventView {
    Message(MessageView),
    Closed,
    Failed,
    Completed(usize, Result<BotResponseView, BotErrorView>),
    SendFailed,
}

impl DeepView for Event {
    type V = EventView;

    open spec fn deep_view(&self) -> EventView {
        match self {
            Event::Message(message) => EventView::Message(message.deep_view()),
            Event::Closed => EventView::Closed,
            Event::Failed => EventView::Failed,
            Event::Completed(task, result) => EventView::Completed(*task, result_view(*result)),
            Event::SendFailed => EventView::SendFailed,
        }
    }
}

/// A command to run: under which number, which command, and on what.
pub struct Dispatch<'a, C> {
    /// The number that the result is to be reported under.
    pub task: usize,
    /// The command.
    pub command: &'a C,
    /// What the command is handed.
    pub params: BotParameters<'a>,
}

/// What to do about an event.
pub enum Action<'a, C> {
    /// Nothing.
    Nothing,
    /// Start a command, without waiting for it, and report its result as
    /// an event when it has one.
    Spawn(Dispatch<'a, C>),
    /// Do this on the connection, and report it as an event if the
    /// connection does not take it.
    Send(Outbound),
    /// Write this to the log.
    Report(Warning),
    /// Stop: the connection is closed. Commands still in flight are left
    /// alone.
    Exit,
    /// Stop with the failure of the connection.
    Fail,
}

/// An `Action` as text.
pub ghost enum ActionView<C> {
    Nothing,
    Spawn(usize, C, BotParametersView),
    Send(OutboundView),
    Report(WarningView),
    Exit,
    Fail,
}

impl<'a, C> DeepView for Action<'a, C> {
    type V = ActionView<C>;

    open spec fn deep_view(&self) -> ActionView<C> {
        match self {
            Action::Nothing => ActionView::Nothing,
            Action::Spawn(dispatch) => ActionView::Spawn(
                dispatch.task,
                *dispatch.command,
                dispatch.params.deep_view(),
            ),
            Action::Send(outbound) => ActionView::Send(outbound.deep_view()),
            Action::Report(warning) => ActionView::Report(warning.deep_view()),
            Action::Exit => ActionView::Exit,
            Action::Fail => ActionView::Fail,
        }
    }
}

/// A `Config` as text.
pub ghost struct ConfigView {
    pub leaders: Seq<char>,
    pub owners: Seq<PrefixView>,
    pub options: Map<Seq<char>, Seq<char>>,
}

impl DeepView for Config {
    type V = ConfigView;

    open spec fn deep_view(&self) -> ConfigView {
        ConfigView {
            leaders: self.leaders@,
            owners: self.owners.deep_view(),
            options: options_view(self.options),
        }
    }
}

/// The command that a message starts, and what the command is handed: the
/// message itself, the leaders if it was said in public and none
/// otherwise, the owners, the arguments and the options. A message that
/// asks for nothing, or for a command that nobody registered, starts
/// none.
pub open spec fn dispatch_of<C>(
    registry: Map<Seq<char>, C>,
    config: ConfigView,
    message: MessageView,
) -> Option<(C, BotParametersView)> {
    match invocation(message, config.leaders) {
        Some(asked) if registry.contains_key(asked.trigger) => Some(
            (
                registry[asked.trigger],
                BotParametersView {
                    message,
                    leaders: if asked.public {
                        config.leaders
                    } else {
                        Seq::empty()
                    },
                    owners: config.owners,
                    args: asked.args,
                    options: config.options,
                },
            ),
        ),
        _ => None,
    }
}

/// What the end of a command leads to: a failure is reported and nothing
/// is done on the connection; a response is applied.
pub open spec fn completion<C>(result: Result<BotResponseView, BotErrorView>) -> ActionView<C> {
    match result {
        Err(error) => ActionView::Report(WarningView::CommandFailed(error)),
        Ok(response) => match applied(response) {
            Some(outbound) => ActionView::Send(outbound),
            None => ActionView::Nothing,
        },
    }
}

/// How the controller reacts to an event: `before` and `after` are the
/// tasks in flight before and after it, `action` is what is to be done.
///
/// A message that starts a command puts one new task in flight, under the
/// least number that is free. The end of a task in flight takes that task
/// out, and its result is acted on; of a task that is not in flight
/// nothing is made. Nothing else changes what is in flight, and only the
/// end of the connection ends the loop.
pub open spec fn reacts<C>(
    before: Set<usize>,
    registry: Map<Seq<char>, C>,
    config: ConfigView,
    event: EventView,
    after: Set<usize>,
    action: ActionView<C>,
) -> bool {
    match event {
        EventView::Message(message) => match dispatch_of(registry, config, message) {
            Some((command, params)) => {
                &&& action matches ActionView::Spawn(task, started, handed)
                &&& !before.contains(task)
                &&& forall|lower: usize| lower < task ==> before.contains(lower)
                &&& after == before.insert(task)
                &&& started == command
                &&& handed == params
            },
            None => after == before && action == ActionView::<C>::Nothing,
        },
        EventView::Closed => after == before && action == ActionView::<C>::Exit,
        EventView::Failed => after == before && action == ActionView::<C>::Fail,
        EventView::Completed(task, result) => if before.contains(task) {
            after == before.remove(task) && action == completion::<C>(result)
        } else {
            after == before && action == ActionView::<C>::Nothing
        },
        EventView::SendFailed => after == before && action == ActionView::<C>::Report(
            WarningView::SendFailed,
        ),
    }
}

/// Text in a channel that does not begin with a leader starts no command
/// and is worth no warning: nothing is done, and nothing changes.
pub proof fn lemma_no_leader_no_dispatch<C>(
    before: Set<usize>,
    registry: Map<Seq<char>, C>,
    config: ConfigView,
    message: MessageView,
    after: Set<usize>,
    action: ActionView<C>,
)
    requires
        message.command matches CommandView::PRIVMSG(target, text) && is_channel_name(target) && (
        text.len() == 0 || !config.leaders.contains(text[0])),
        reacts(before, registry, config, EventView::Message(message), after, action),
    ensures
        action == ActionView::<C>::Nothing,
        after == before,
{
}

/// A trigger word that no command is registered under starts no command
/// and is worth no warning: nothing is done, and nothing changes.
pub proof fn lemma_unknown_trigger_is_ignored<C>(
    before: Set<usize>,
    registry: Map<Seq<char>, C>,
    config: ConfigView,
    message: MessageView,
    after: Set<usize>,
    action: ActionView<C>,
)
    requires
        invocation(message, config.leaders) matches Some(asked) && !registry.contains_key(
            asked.trigger,
        ),
        reacts(before, registry, config, EventView::Message(message), after, action),
    ensures
        action == ActionView::<C>::Nothing,
        after == before,
{
}

/// Two commands started one after the other are two tasks, both in
/// flight, whatever the commands are: nothing is merged and nothing
/// waits.
pub proof fn lemma_dispatches_do_not_coalesce<C>(
    before: Set<usize>,
    registry: Map<Seq<char>, C>,
    config: ConfigView,
    first: MessageView,
    second: MessageView,
    between: Set<usize>,
    after: Set<usize>,
    first_action: ActionView<C>,
    second_action: ActionView<C>,
)
    requires
        dispatch_of(registry, config, first) is Some,
        dispatch_of(registry, config, second) is Some,
        reacts(before, registry, config, EventView::Message(first), between, first_action),
        reacts(between, registry, config, EventView::Message(second), after, second_action),
    ensures
        first_action matches ActionView::Spawn(one, _, _)
            && second_action matches ActionView::Spawn(other, _, _) && one != other && after
            == before.insert(one).insert(other),
{
}

/// Two tasks in flight may end in either order. Whichever ends first is
/// acted on at once, while the other is still in flight, and each end
/// leads to exactly what its own result asks for. After both, neither is
/// in flight, and a second report of the same end is ignored.
pub proof fn lemma_out_of_order_completion<C>(
    before: Set<usize>,
    registry: Map<Seq<char>, C>,
    config: ConfigView,
    earlier: usize,
    later: usize,
    earlier_result: Result<BotResponseView, BotErrorView>,
    later_result: Result<BotResponseView, BotErrorView>,
    between: Set<usize>,
    after: Set<usize>,
    first_action: ActionView<C>,
    second_action: ActionView<C>,
)
    requires
        earlier != later,
        before.contains(earlier),
        before.contains(later),
        reacts(
            before,
            registry,
            config,
            EventView::Completed(later, later_result),
            between,
            first_action,
        ),
        reacts(
            between,
            registry,
            config,
            EventView::Completed(earlier, earlier_result),
            after,
            second_action,
        ),
    ensures
        first_action == completion::<C>(later_result),
        between.contains(earlier),
        second_action == completion::<C>(earlier_result),
        after == before.remove(later).remove(earlier),
        reacts(
            after,
            registry,
            config,
            EventView::Completed(later, later_result),
            after,
            ActionView::<C>::Nothing,
        ),
{
}

/// Whatever happens to commands and to what the bot sends, the loop goes
/// on: only the end of the connection stops it.
pub proof fn lemma_only_the_connection_ends_the_loop<C>(
    before: Set<usize>,
    registry: Map<Seq<char>, C>,
    config: ConfigView,
    event: EventView,
    after: Set<usize>,
    action: ActionView<C>,
)
    requires
        reacts(before, registry, config, event, after, action),
    ensures
        action == ActionView::<C>::Exit <==> event == EventView::Closed,
        action == ActionView::<C>::Fail <==> event == EventView::Failed,
{
}

/// Whether the controller has anything in flight.
#[derive(Debug, Clone, Copy, PartialEq, Eq, Structural)]
pub enum State {
    /// Nothing is in flight: the controller only listens.
    Idle,
    /// At least one command is in flight.
    Dispatching,
}

/// The controller: it knows which tasks are in flight, and nothing else.
pub struct Controller {
    slots: Vec<bool>,
}

impl Controller {
    /// The tasks in flight: those started and not yet ended.
    pub closed spec fn in_flight(&self) -> Set<usize> {
        Set::new(|task: usize| task < self.slots.len() && self.slots[task as int])
    }

    /// A controller with nothing in flight.
    pub fn new() -> (controller: Self)
        ensures
            controller.in_flight() == Set::<usize>::empty(),
    {
        let controller = Controller { slots: Vec::new() };
        assert(controller.in_flight() =~= Set::<usize>::empty());
        controller
    }

    /// Whether anything is in flight.
    pub fn state(&self) -> (state: State)
        ensures
            state == State::Idle <==> self.in_flight() == Set::<usize>::empty(),
    {
        let mut i: usize = 0;
        while i < self.slots.len()
            invariant
                i <= self.slots.len(),
                forall|j: int| 0 <= j < i ==> !self.slots[j],
            decreases self.slots.len() - i,
        {
            if self.slots[i] {
                assert(self.in_flight().contains(i));
                return State::Dispatching;
            }
            i += 1;
        }
        assert(self.in_flight() =~= Set::<usize>::empty());
        State::Idle
    }

    fn start(&mut self) -> (task: usize)
        ensures
            !old(self).in_flight().contains(task),
            forall|lower: usize| lower < task ==> old(self).in_flight().contains(lower),
            final(self).in_flight() == old(self).in_flight().insert(task),
    {
        let mut i: usize = 0;
        while i < self.slots.len()
            invariant
                i <= self.slots.len(),
                self.slots == old(self).slots,
                forall|j: int| 0 <= j < i ==> self.slots[j],
            decreases self.slots.len() - i,
        {
            if !self.slots[i] {
                self.slots.set(i, true);
                assert(self.in_flight() =~= old(self).in_flight().insert(i));
                return i;
            }
            i += 1;
        }
        self.slots.push(true);
        assert(self.in_flight() =~= old(self).in_flight().insert(i));
        i
    }

    fn finish(&mut self, task: usize) -> (ended: bool)
        ensures
            ended == old(self).in_flight().contains(task),
            final(self).in_flight() == old(self).in_flight().remove(task),
    {
        if task < self.slots.len() && self.slots[task] {
            self.slots.set(task, false);
            assert(self.in_flight() =~= old(self).in_flight().remove(task));
            true
        } else {
            assert(self.in_flight() =~= old(self).in_flight().remove(task));
            false
        }
    }

    /// Takes one event and says what to do about it.
    pub fn step<'a, C: BotCommand>(
        &mut self,
        registry: &'a Registry<C>,
        config: &'a Config,
        event: Event,
    ) -> (action: Action<'a, C>)
        ensures
            reacts(
                old(self).in_flight(),
                registry@,
                config.deep_view(),
                event.deep_view(),
                final(self).in_flight(),
                action.deep_view(),
            ),
    {
        match event {
            Event::Message(message) => {
                let asked = match parse(&message, &config.leaders) {
                    Some(asked) => asked,
                    None => {
                        return Action::Nothing;
                    },
                };
                let command = match registry.lookup(asked.trigger.as_str()) {
                    Some(command) => command,
                    None => {
                        return Action::Nothing;
                    },
                };
                let leaders = if asked.public {
                    chars_copy(&config.leaders)
                } else {
                    Vec::new()
                };
                let params = BotParameters {
                    message,
                    leaders,
                    owners: &config.owners,
                    args: asked.args,
                    options: &config.options,
                };
                let task = self.start();
                Action::Spawn(Dispatch { task, command, params })
            },
            Event::Closed => Action::Exit,
            Event::Failed => Action::Fail,
            Event::Completed(task, result) => {
                if !self.finish(task) {
                    assert(old(self).in_flight().remove(task) =~= old(self).in_flight());
                    return Action::Nothing;
                }
                match result {
                    Err(error) => Action::Report(Warning::CommandFailed(error)),
                    Ok(response) => match handle_response(response) {
                        Some(outbound) => Action::Send(outbound),
                        None => Action::Nothing,
                    },
                }
            },
            Event::SendFailed => Action::Report(Warning::SendFailed),
        }
    }
}

fn chars_copy(chars: &Vec<char>) -> (copy: Vec<char>)
    ensures
        copy@ == chars@,
{
    let mut copy: Vec<char> = Vec::new();
    let mut i: usize = 0;
    while i < chars.len()
        invariant
            i <= chars.len(),
            copy@ == chars@.take(i as int),
        decreases chars.len() - i,
    {
        copy.push(chars[i]);
        assert(chars@.take(i + 1) =~= chars@.take(i as int).push(chars[i as int]));
        i += 1;
    }
    assert(chars@.take(chars.len() as int) =~= chars@);
    copy
}

} // verus!
