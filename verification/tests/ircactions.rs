use metarbot::modules::ircactions::{
    ensure_owner, mk, IrcJoinCommand, IrcPartCommand, IrcQuitCommand,
};
use metarbot::modules::Builtin;
use metarbot::proto::{Command, Message, Prefix};
use metarbot::table::Table;
use metarbot::{BotCommand, BotCommandStep, BotError, BotParameters, BotResponse, Options};

fn alice() -> Option<Prefix> {
    Some(Prefix::Nickname("alice".to_string(), "al".to_string(), "example.com".to_string()))
}

fn mallory() -> Option<Prefix> {
    Some(Prefix::Nickname("mallory".to_string(), "m".to_string(), "example.org".to_string()))
}

fn owners() -> Vec<Prefix> {
    vec![Prefix::Nickname("alice".to_string(), String::new(), "*.com".to_string())]
}

fn params<'a>(
    prefix: Option<Prefix>,
    target: &str,
    args: &[&str],
    owners: &'a Vec<Prefix>,
    options: &'a Options,
) -> BotParameters<'a> {
    BotParameters {
        message: Message {
            prefix,
            command: Command::PRIVMSG(target.to_string(), "text".to_string()),
        },
        leaders: vec!['&'],
        owners,
        args: args.iter().map(|a| a.to_string()).collect(),
        options,
    }
}

fn done(response: BotResponse) -> BotCommandStep {
    BotCommandStep::Done(Ok(response))
}

fn refusal(nick: &str, command: &str) -> BotCommandStep {
    done(BotResponse::Notice(
        nick.to_string(),
        format!("You are not authorized to use the {} command", command),
    ))
}

#[test]
fn ircactions_come_in_order() {
    assert_eq!(
        mk(),
        vec![
            Builtin::Join(IrcJoinCommand {}),
            Builtin::Part(IrcPartCommand {}),
            Builtin::Quit(IrcQuitCommand {}),
        ]
    );
}

#[test]
fn ircactions_have_their_triggers() {
    assert_eq!(IrcJoinCommand {}.trigger(), "join");
    assert_eq!(IrcPartCommand {}.trigger(), "part");
    assert_eq!(IrcQuitCommand {}.trigger(), "quit");
}

#[test]
fn ensure_owner_lets_the_owner_pass() {
    let (owners, options) = (owners(), Table::new());
    assert_eq!(ensure_owner("quit", &params(alice(), "#chan", &[], &owners, &options)), None);
}

#[test]
fn ensure_owner_tells_others_off() {
    let (owners, options) = (owners(), Table::new());
    assert_eq!(
        ensure_owner("quit", &params(mallory(), "#chan", &[], &owners, &options)),
        Some(Ok(BotResponse::Notice(
            "mallory".to_string(),
            "You are not authorized to use the quit command".to_string()
        )))
    );
}

#[test]
fn ensure_owner_ignores_who_has_no_nickname() {
    let (owners, options) = (owners(), Table::new());
    let server = Some(Prefix::ServerName("irc.example.com".to_string()));
    assert_eq!(
        ensure_owner("quit", &params(server, "#chan", &[], &owners, &options)),
        Some(Ok(BotResponse::Ignore))
    );
    assert_eq!(
        ensure_owner("quit", &params(None, "#chan", &[], &owners, &options)),
        Some(Ok(BotResponse::Ignore))
    );
}

#[test]
fn message_without_sender_counts_as_empty_user() {
    let owners = vec![Prefix::Nickname("*".to_string(), String::new(), String::new())];
    let options = Table::new();
    assert_eq!(ensure_owner("quit", &params(None, "#chan", &[], &owners, &options)), None);
}

#[test]
fn join_joins_the_first_argument() {
    let (owners, options) = (owners(), Table::new());
    assert_eq!(
        IrcJoinCommand {}.handle(params(alice(), "#chan", &["#new", "more"], &owners, &options)),
        done(BotResponse::Join("#new".to_string()))
    );
}

#[test]
fn join_without_argument_does_nothing() {
    let (owners, options) = (owners(), Table::new());
    assert_eq!(
        IrcJoinCommand {}.handle(params(alice(), "#chan", &[], &owners, &options)),
        done(BotResponse::Ignore)
    );
}

#[test]
fn join_is_for_owners() {
    let (owners, options) = (owners(), Table::new());
    assert_eq!(
        IrcJoinCommand {}.handle(params(mallory(), "#chan", &["#new"], &owners, &options)),
        refusal("mallory", "join")
    );
}

#[test]
fn part_leaves_the_named_channel() {
    let (owners, options) = (owners(), Table::new());
    assert_eq!(
        IrcPartCommand {}.handle(params(alice(), "bot", &["#old"], &owners, &options)),
        done(BotResponse::Part("#old".to_string(), None))
    );
    assert_eq!(
        IrcPartCommand {}.handle(params(
            alice(),
            "#chan",
            &["#old", "so", "long"],
            &owners,
            &options
        )),
        done(BotResponse::Part("#old".to_string(), Some("so long".to_string())))
    );
}

#[test]
fn part_leaves_the_current_channel() {
    let (owners, options) = (owners(), Table::new());
    assert_eq!(
        IrcPartCommand {}.handle(params(alice(), "#chan", &[], &owners, &options)),
        done(BotResponse::Part("#chan".to_string(), None))
    );
}

#[test]
fn part_outside_a_channel_fails() {
    let (owners, options) = (owners(), Table::new());
    assert_eq!(
        IrcPartCommand {}.handle(params(alice(), "bot", &[], &owners, &options)),
        BotCommandStep::Done(Err(BotError::NoChannelToPart))
    );
}

#[test]
fn part_is_for_owners() {
    let (owners, options) = (owners(), Table::new());
    assert_eq!(
        IrcPartCommand {}.handle(params(mallory(), "bot", &[], &owners, &options)),
        refusal("mallory", "part")
    );
}

#[test]
fn quit_takes_its_arguments_as_last_words() {
    let (owners, options) = (owners(), Table::new());
    assert_eq!(
        IrcQuitCommand {}.handle(params(alice(), "bot", &["bye"], &owners, &options)),
        done(BotResponse::Quit(Some("bye".to_string())))
    );
    assert_eq!(
        IrcQuitCommand {}.handle(params(alice(), "bot", &["bye", "all"], &owners, &options)),
        done(BotResponse::Quit(Some("bye all".to_string())))
    );
    assert_eq!(
        IrcQuitCommand {}.handle(params(alice(), "bot", &[], &owners, &options)),
        done(BotResponse::Quit(None))
    );
}

#[test]
fn quit_is_for_owners() {
    let (owners, options) = (owners(), Table::new());
    assert_eq!(
        IrcQuitCommand {}.handle(params(mallory(), "#chan", &["bye"], &owners, &options)),
        refusal("mallory", "quit")
    );
    let server = Some(Prefix::ServerName("irc.example.com".to_string()));
    assert_eq!(
        IrcQuitCommand {}.handle(params(server, "#chan", &["bye"], &owners, &options)),
        done(BotResponse::Ignore)
    );
}

#[test]
fn errors_describe_themselves() {
    assert_eq!(
        BotError::NoResponseTarget.message(),
        "Ignoring message since no response target is set"
    );
    assert_eq!(
        BotError::NoChannelToPart.message(),
        "Requested to part the current channel outside of a channel"
    );
    assert_eq!(BotError::Unconfigured("avwx_apikey not set").message(), "avwx_apikey not set");
}
