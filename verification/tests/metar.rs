use metarbot::modules::metar::{
    handle, info, is_airport_code, mk, report_arrived, station_arrived, weather, Fetched, Lookup,
    MetarCommand, MetarError, Query, Station, Status, TafCommand, WeatherType,
};
use metarbot::modules::{all, Builtin};
use metarbot::modules::ircactions::{IrcJoinCommand, IrcPartCommand, IrcQuitCommand};
use metarbot::proto::{Command, Message, Prefix};
use metarbot::table::Table;
use metarbot::{BotCommand, BotCommandStep, BotError, BotParameters, BotResponse, Options};

fn ada() -> Option<Prefix> {
    Some(Prefix::Nickname("ada".to_string(), "a".to_string(), "example.com".to_string()))
}

fn keyed() -> Options {
    let mut options: Options = Table::new();
    options.insert("avwx_apikey".to_string(), "k3y".to_string());
    options
}

fn params<'a>(
    prefix: Option<Prefix>,
    target: &str,
    leaders: &[char],
    args: &[&str],
    owners: &'a Vec<Prefix>,
    options: &'a Options,
) -> BotParameters<'a> {
    BotParameters {
        message: Message {
            prefix,
            command: Command::PRIVMSG(target.to_string(), "text".to_string()),
        },
        leaders: leaders.to_vec(),
        owners,
        args: args.iter().map(|a| a.to_string()).collect(),
        options,
    }
}

fn query(kind: WeatherType) -> Query {
    Query {
        kind,
        target: "#chan".to_string(),
        airport: "KJFK".to_string(),
        apikey: "k3y".to_string(),
    }
}

fn station(reporting: bool) -> Station {
    Station { name: "John F Kennedy Intl".to_string(), icao: "KJFK".to_string(), reporting }
}

fn status(code: u16, text: &str) -> Status {
    Status { code, text: text.to_string() }
}

fn said(text: &str) -> BotResponse {
    BotResponse::Privmsg("#chan".to_string(), text.to_string())
}

#[test]
fn airport_codes_are_four_letters_or_digits() {
    assert!(is_airport_code("KJFK"));
    assert!(is_airport_code("kjfk"));
    assert!(is_airport_code("K1F2"));
    assert!(is_airport_code("0000"));
}

#[test]
fn other_words_are_no_airport_codes() {
    assert!(!is_airport_code(""));
    assert!(!is_airport_code("JFK"));
    assert!(!is_airport_code("KJFKX"));
    assert!(!is_airport_code("KJ-K"));
    assert!(!is_airport_code("KJF "));
    assert!(!is_airport_code("KJFK\n"));
    assert!(!is_airport_code("ÄÖÜß"));
    assert!(!is_airport_code("^(?i)[a-z0-9]{4}$"));
}

#[test]
fn weather_types_have_names_and_addresses() {
    assert_eq!(WeatherType::METAR.name(), "METAR");
    assert_eq!(WeatherType::TAF.name(), "TAF");
    assert_eq!(WeatherType::METAR.word(), "metar");
    assert_eq!(WeatherType::TAF.word(), "taf");
    assert_eq!(WeatherType::METAR.url(), "https://avwx.rest/api/metar/");
    assert_eq!(WeatherType::TAF.url(), "https://avwx.rest/api/taf/");
}

#[test]
fn weather_commands_come_in_order() {
    assert_eq!(mk(), vec![Builtin::Metar(MetarCommand {}), Builtin::Taf(TafCommand {})]);
    assert_eq!(MetarCommand {}.trigger(), "metar");
    assert_eq!(TafCommand {}.trigger(), "taf");
}

#[test]
fn all_modules_come_in_order() {
    assert_eq!(
        all(),
        vec![
            Builtin::Join(IrcJoinCommand {}),
            Builtin::Part(IrcPartCommand {}),
            Builtin::Quit(IrcQuitCommand {}),
            Builtin::Metar(MetarCommand {}),
            Builtin::Taf(TafCommand {}),
        ]
    );
    let triggers: Vec<&str> = all().iter().map(|c| c.trigger()).collect();
    assert_eq!(triggers, vec!["join", "part", "quit", "metar", "taf"]);
}

#[test]
fn weather_needs_somewhere_to_answer() {
    let (owners, options) = (Vec::new(), keyed());
    assert_eq!(
        handle(WeatherType::METAR, params(None, "bot", &[], &["KJFK"], &owners, &options)),
        BotCommandStep::Done(Err(BotError::NoResponseTarget))
    );
}

#[test]
fn weather_needs_a_key() {
    let (owners, options) = (Vec::new(), Table::new());
    assert_eq!(
        handle(WeatherType::METAR, params(ada(), "#chan", &['&'], &["KJFK"], &owners, &options)),
        BotCommandStep::Done(Err(BotError::Unconfigured("avwx_apikey not set")))
    );
}

#[test]
fn weather_without_airport_says_how_to_ask() {
    let (owners, options) = (Vec::new(), keyed());
    assert_eq!(
        handle(WeatherType::METAR, params(ada(), "#chan", &['&', '!'], &[], &owners, &options)),
        BotCommandStep::Done(Ok(said("Usage: &metar <4-letter ICAO airport code>")))
    );
    assert_eq!(
        handle(WeatherType::TAF, params(ada(), "bot", &[], &[], &owners, &options)),
        BotCommandStep::Done(Ok(BotResponse::Privmsg(
            "ada".to_string(),
            "Usage: taf <4-letter ICAO airport code>".to_string()
        )))
    );
}

#[test]
fn weather_turns_down_what_is_no_airport() {
    let (owners, options) = (Vec::new(), keyed());
    assert_eq!(
        handle(WeatherType::TAF, params(ada(), "#chan", &['&'], &["JFK", "x"], &owners, &options)),
        BotCommandStep::Done(Ok(said("JFK does not seem to be a valid ICAO airport code")))
    );
}

#[test]
fn weather_asks_for_the_station_first() {
    let (owners, options) = (Vec::new(), keyed());
    assert_eq!(
        handle(WeatherType::TAF, params(ada(), "#chan", &['&'], &["KJFK"], &owners, &options)),
        BotCommandStep::Fetch(Lookup::Station(query(WeatherType::TAF)))
    );
    assert_eq!(
        MetarCommand {}.handle(params(ada(), "#chan", &['&'], &["KJFK"], &owners, &options)),
        BotCommandStep::Fetch(Lookup::Station(query(WeatherType::METAR)))
    );
    assert_eq!(
        Builtin::Taf(TafCommand {}).handle(params(
            ada(),
            "#chan",
            &['&'],
            &["KJFK"],
            &owners,
            &options
        )),
        BotCommandStep::Fetch(Lookup::Station(query(WeatherType::TAF)))
    );
}

#[test]
fn lookups_say_what_to_ask() {
    let first = Lookup::Station(query(WeatherType::METAR));
    assert_eq!(first.url(), "https://avwx.rest/api/station/KJFK");
    assert_eq!(first.authorization(), "Bearer k3y");
    let metar = Lookup::Report(query(WeatherType::METAR), station(true));
    assert_eq!(metar.url(), "https://avwx.rest/api/metar/KJFK");
    assert_eq!(metar.authorization(), "Bearer k3y");
    let taf = Lookup::Report(query(WeatherType::TAF), station(true));
    assert_eq!(taf.url(), "https://avwx.rest/api/taf/KJFK");
}

#[test]
fn info_reads_the_station() {
    assert_eq!(info(Fetched::Answered(status(200, "200 OK"), Ok(station(true)))), Ok(station(true)));
    assert_eq!(
        info(Fetched::Answered(status(299, "299"), Ok(station(false)))),
        Ok(station(false))
    );
}

#[test]
fn info_says_what_went_wrong() {
    assert_eq!(
        info(Fetched::Failed("timed out".to_string())),
        Err(MetarError::ReqwestError("timed out".to_string()))
    );
    assert_eq!(
        info(Fetched::Answered(status(404, "404 Not Found"), Ok(station(true)))),
        Err(MetarError::NonSuccessResponse("404 Not Found".to_string()))
    );
    assert_eq!(
        info(Fetched::Answered(status(199, "199"), Ok(station(true)))),
        Err(MetarError::NonSuccessResponse("199".to_string()))
    );
    assert_eq!(
        info(Fetched::Answered(status(300, "300 Multiple Choices"), Ok(station(true)))),
        Err(MetarError::NonSuccessResponse("300 Multiple Choices".to_string()))
    );
    assert_eq!(
        info(Fetched::Answered(status(200, "200 OK"), Err("missing field".to_string()))),
        Err(MetarError::ReqwestError("missing field".to_string()))
    );
}

#[test]
fn weather_reads_the_report() {
    assert_eq!(
        weather(
            station(true),
            Fetched::Answered(status(200, "200 OK"), Ok("KJFK 011251Z".to_string()))
        ),
        Ok("KJFK 011251Z".to_string())
    );
}

#[test]
fn weather_says_what_went_wrong() {
    assert_eq!(
        weather(station(true), Fetched::Failed("timed out".to_string())),
        Err(MetarError::ReqwestError("timed out".to_string()))
    );
    assert_eq!(
        weather(
            station(true),
            Fetched::Answered(status(500, "500 Internal Server Error"), Ok("x".to_string()))
        ),
        Err(MetarError::NonSuccessResponse("500 Internal Server Error".to_string()))
    );
    assert_eq!(
        weather(
            station(true),
            Fetched::Answered(status(204, "204 No Content"), Ok("x".to_string()))
        ),
        Err(MetarError::NoData("KJFK".to_string(), "John F Kennedy Intl".to_string()))
    );
    assert_eq!(
        weather(station(true), Fetched::Answered(status(200, "200 OK"), Err("eof".to_string()))),
        Err(MetarError::ReqwestError("eof".to_string()))
    );
}

#[test]
fn metar_errors_describe_themselves() {
    assert_eq!(
        MetarError::NonSuccessResponse("404 Not Found".to_string()).message(),
        "404 Not Found"
    );
    assert_eq!(
        MetarError::NoData("KJFK".to_string(), "John F Kennedy Intl".to_string()).message(),
        "KJFK (John F Kennedy Intl) is not reporting weather"
    );
    assert_eq!(
        MetarError::ReqwestError("timed out".to_string()).message(),
        "ReqwestError: timed out"
    );
}

#[test]
fn station_that_reports_leads_to_the_report() {
    assert_eq!(
        station_arrived(
            query(WeatherType::METAR),
            Fetched::Answered(status(200, "200 OK"), Ok(station(true)))
        ),
        BotCommandStep::Fetch(Lookup::Report(query(WeatherType::METAR), station(true)))
    );
}

#[test]
fn station_that_does_not_report_ends_the_command() {
    assert_eq!(
        station_arrived(
            query(WeatherType::METAR),
            Fetched::Answered(status(200, "200 OK"), Ok(station(false)))
        ),
        BotCommandStep::Done(Ok(said(
            "Error: KJFK (John F Kennedy Intl) is not reporting weather"
        )))
    );
}

#[test]
fn station_that_is_not_found_ends_the_command() {
    assert_eq!(
        station_arrived(
            query(WeatherType::TAF),
            Fetched::Answered(status(404, "404 Not Found"), Err("no body".to_string()))
        ),
        BotCommandStep::Done(Ok(said("Error: 404 Not Found")))
    );
    assert_eq!(
        station_arrived(query(WeatherType::TAF), Fetched::Failed("timed out".to_string())),
        BotCommandStep::Done(Ok(said("Error: ReqwestError: timed out")))
    );
}

#[test]
fn report_goes_to_where_the_command_answers() {
    assert_eq!(
        report_arrived(
            query(WeatherType::METAR),
            station(true),
            Fetched::Answered(status(200, "200 OK"), Ok("KJFK 011251Z 24008KT".to_string()))
        ),
        Ok(said("KJFK 011251Z 24008KT"))
    );
}

#[test]
fn missing_report_is_said_so() {
    assert_eq!(
        report_arrived(
            query(WeatherType::METAR),
            station(true),
            Fetched::Answered(status(204, "204 No Content"), Err("empty".to_string()))
        ),
        Ok(said("Error: KJFK (John F Kennedy Intl) is not reporting weather"))
    );
    assert_eq!(
        report_arrived(
            query(WeatherType::METAR),
            station(true),
            Fetched::Failed("connection reset".to_string())
        ),
        Ok(said("Error: ReqwestError: connection reset"))
    );
}

#[test]
fn status_knows_success() {
    assert!(status(200, "").is_success());
    assert!(status(204, "").is_success());
    assert!(!status(404, "").is_success());
    assert!(status(204, "").is_no_content());
    assert!(!status(200, "").is_no_content());
}
