//! METAR and TAF weather reports for airports, from avwx.rest.
//!
//! A weather command cannot answer at once: it has to ask the service,
//! first for the station, then for the report. The commands here make no
//! request themselves. They say which request they wait for, and go on
//! when the caller hands them what came back.

use crate::modules::Builtin;
use crate::text::push_char;
use crate::{
    BotCommand, BotCommandResult, BotCommandStep, BotCommandStepView, BotError,
    BotErrorView, BotParameters, BotParametersView, BotResponse, BotResponseView,
};
use vstd::prelude::*;
use vstd::string::StringExecFns;

verus! {

/// Where stations are asked for: the airport code follows.
pub const STATION_API_URL: &'static str = "https://avwx.rest/api/station/";

/// Where METARs are asked for: the airport code follows.
pub const METAR_API_URL: &'static str = "https://avwx.rest/api/metar/";

/// Where TAFs are asked for: the airport code follows.
pub const TAF_API_URL: &'static str = "https://avwx.rest/api/taf/";

/// The pattern of an ICAO airport code: four letters or digits.
pub const AIRPORT_PATTERN: &'static str = "^(?i)[a-z0-9]{4}$";

/// The option that holds the key for the weather service.
pub const APIKEY_OPTION: &'static str = "avwx_apikey";

/// How many seconds a request to the weather service may take.
pub const TIMEOUT_SECONDS: u64 = 5;

/// A compiled regular expression.
#[verifier::external_type_specification]
#[verifier::external_body]
pub struct ExRegex(regex::Regex);

/// Why a regular expression did not compile.
#[verifier::external_type_specification]
#[verifier::external_body]
pub struct ExRegexError(regex::Error);

/// Whether the regex crate compiles `pattern`.
pub uninterp spec fn regex_compiles(pattern: Seq<char>) -> bool;

/// The text that a compiled regular expression was made from.
pub uninterp spec fn regex_source(compiled: regex::Regex) -> Seq<char>;

/// Whether the regular expression compiled from `pattern` matches
/// somewhere in `haystack`.
pub uninterp spec fn regex_accepts(pattern: Seq<char>, haystack: Seq<char>) -> bool;

/// `regex::Regex::new`: compiles a regular expression, or says why it is
/// none or is too big. Whether it compiles depends on the pattern's text
/// alone; the compiled expression remembers that text.
#[verifier::external_body]
fn compile(pattern: &str) -> (compiled: Result<regex::Regex, regex::Error>)
    ensures
        compiled is Ok <==> regex_compiles(pattern@),
        compiled is Ok ==> regex_source(compiled->Ok_0) == pattern@,
{
    regex::Regex::new(pattern)
}

/// `regex::Regex::is_match`: whether the expression matches anywhere in
/// the haystack. A function of the expression's text and of the haystack.
#[verifier::external_body]
fn is_match(compiled: &regex::Regex, haystack: &str) -> (hit: bool)
    ensures
        hit == regex_accepts(regex_source(*compiled), haystack@),
{
    compiled.is_match(haystack)
}

/// Whether `code` has the form of an ICAO airport code.
pub open spec fn airport_code(code: Seq<char>) -> bool {
    regex_compiles(AIRPORT_PATTERN@) && regex_accepts(AIRPORT_PATTERN@, code)
}

/// Whether `code` has the form of an ICAO airport code: it matches
/// `AIRPORT_PATTERN`.
pub fn is_airport_code(code: &str) -> (valid: bool)
    ensures
        valid == airport_code(code@),
{
    match compile(AIRPORT_PATTERN) {
        Ok(compiled) => is_match(&compiled, code),
        Err(_) => false,
    }
}

/// The two kinds of weather report.
#[derive(Debug, Clone, Copy, PartialEq, Eq, Structural)]
pub enum WeatherType {
    /// What the weather is.
    METAR,
    /// What the weather will be.
    TAF,
}

impl WeatherType {
    /// The name of the kind of report, as it is written.
    pub open spec fn name_text(self) -> Seq<char> {
        match self {
            WeatherType::METAR => "METAR"@,
            WeatherType::TAF => "TAF"@,
        }
    }

    /// The word that asks the bot for this kind of report.
    pub open spec fn word_text(self) -> Seq<char> {
        match self {
            WeatherType::METAR => "metar"@,
            WeatherType::TAF => "taf"@,
        }
    }

    /// The address that reports of this kind are asked from, without the
    /// airport code.
    pub open spec fn url_text(self) -> Seq<char> {
        match self {
            WeatherType::METAR => METAR_API_URL@,
            WeatherType::TAF => TAF_API_URL@,
        }
    }

    /// The name of the kind of report, as it is written.
    pub fn name(&self) -> (name: &'static str)
        ensures
            name@ == self.name_text(),
    {
        match self {
            WeatherType::METAR => "METAR",
            WeatherType::TAF => "TAF",
        }
    }

    /// The word that asks the bot for this kind of report.
    pub fn word(&self) -> (word: &'static str)
        ensures
            word@ == self.word_text(),
    {
        match self {
            WeatherType::METAR => "metar",
            WeatherType::TAF => "taf",
        }
    }

    /// The address that reports of this kind are asked from, without the
    /// airport code.
    pub fn url(&self) -> (url: &'static str)
        ensures
            url@ == self.url_text(),
    {
        match self {
            WeatherType::METAR => METAR_API_URL,
            WeatherType::TAF => TAF_API_URL,
        }
    }
}

/// The status of an answer of the weather service.
#[derive(Debug, PartialEq, Eq)]
pub struct Status {
    /// The status code.
    pub code: u16,
    /// The status as it is shown to people, such as `404 Not Found`.
    pub text: String,
}

impl Status {
    /// Whether the code says that the request succeeded: 200 to 299.
    pub open spec fn success(code: u16) -> bool {
        200 <= code < 300
    }

    /// Whether the code says that there is nothing to send: 204.
    pub open spec fn no_content(code: u16) -> bool {
        code == 204
    }

    /// Whether the status says that the request succeeded.
    pub fn is_success(&self) -> (success: bool)
        ensures
            success == Self::success(self.code),
    {
        200 <= self.code && self.code < 300
    }

    /// Whether the status says that there is nothing to send.
    pub fn is_no_content(&self) -> (empty: bool)
        ensures
            empty == Self::no_content(self.code),
    {
        self.code == 204
    }
}

/// What the weather service knows of a station.
#[derive(Debug, PartialEq, Eq)]
pub struct Station {
    /// The name of the station.
    pub name: String,
    /// The ICAO code of the station.
    pub icao: String,
    /// Whether the station reports weather.
    pub reporting: bool,
}

/// A `Station` as text.
pub ghost struct StationView {
    pub name: Seq<char>,
    pub icao: Seq<char>,
    pub reporting: bool,
}

impl DeepView for Station {
    type V = StationView;

    open spec fn deep_view(&self) -> StationView {
        StationView { name: self.name@, icao: self.icao@, reporting: self.reporting }
    }
}

/// Why there is no weather report.
#[derive(Debug, PartialEq, Eq)]
pub enum MetarError {
    /// The service answered with a status that is no success: the status
    /// as it is shown.
    NonSuccessResponse(String),
    /// The station, by ICAO code and name, reports no weather.
    NoData(String, String),
    /// The request failed, or its answer could not be read: the reason.
    ReqwestError(String),
}

/// A `MetarError` as text.
pub ghost enum MetarErrorView {
    NonSuccessResponse(Seq<char>),
    NoData(Seq<char>, Seq<char>),
    ReqwestError(Seq<char>),
}

impl DeepView for MetarError {
    type V = MetarErrorView;

    open spec fn deep_view(&self) -> MetarErrorView {
        match self {
            MetarError::NonSuccessResponse(status) => MetarErrorView::NonSuccessResponse(status@),
            MetarError::NoData(icao, name) => MetarErrorView::NoData(icao@, name@),
            MetarError::ReqwestError(reason) => MetarErrorView::ReqwestError(reason@),
        }
    }
}

impl MetarErrorView {
    /// The sentence that describes the error.
    pub open spec fn message(self) -> Seq<char> {
        match self {
            MetarErrorView::NonSuccessResponse(status) => status,
            MetarErrorView::NoData(icao, name) => icao + " ("@ + name
                + ") is not reporting weather"@,
            MetarErrorView::ReqwestError(reason) => "ReqwestError: "@ + reason,
        }
    }
}

impl MetarError {
    /// The sentence that describes the error.
    pub fn message(&self) -> (text: String)
        ensures
            text@ == self.deep_view().message(),
    {
        match self {
            MetarError::NonSuccessResponse(status) => status.clone(),
            MetarError::NoData(icao, name) => icao.clone().concat(" (").concat(
                name.as_str(),
            ).concat(") is not reporting weather"),
            MetarError::ReqwestError(reason) => String::from_str("ReqwestError: ").concat(
                reason.as_str(),
            ),
        }
    }
}

/// What came back from one request to the weather service.
#[derive(Debug, PartialEq, Eq)]
pub enum Fetched<T> {
    /// No answer came: the reason.
    Failed(String),
    /// An answer came: its status, and what its body holds, or why the
    /// body could not be read.
    Answered(Status, Result<T, String>),
}

/// A station as the service answered for it, or the reason why there is
/// none: the request failed, the status is no success, or the body could
/// not be read.
pub open spec fn info_outcome(fetched: Fetched<Station>) -> Result<StationView, MetarErrorView> {
    match fetched {
        Fetched::Failed(reason) => Err(MetarErrorView::ReqwestError(reason@)),
        Fetched::Answered(status, body) => if !Status::success(status.code) {
            Err(MetarErrorView::NonSuccessResponse(status.text@))
        } else {
            match body {
                Ok(station) => Ok(station.deep_view()),
                Err(reason) => Err(MetarErrorView::ReqwestError(reason@)),
            }
        },
    }
}

/// A `Result` of a station as text.
pub open spec fn station_result_view(result: Result<Station, MetarError>) -> Result<
    StationView,
    MetarErrorView,
> {
    match result {
        Ok(station) => Ok(station.deep_view()),
        Err(error) => Err(error.deep_view()),
    }
}

/// Reads the answer to the request for a station.
pub fn info(fetched: Fetched<Station>) -> (result: Result<Station, MetarError>)
    ensures
        station_result_view(result) == info_outcome(fetched),
{
    match fetched {
        Fetched::Failed(reason) => Err(MetarError::ReqwestError(reason)),
        Fetched::Answered(status, body) => {
            if !status.is_success() {
                Err(MetarError::NonSuccessResponse(status.text))
            } else {
                match body {
                    Ok(station) => Ok(station),
                    Err(reason) => Err(MetarError::ReqwestError(reason)),
                }
            }
        },
    }
}

/// The report as the service answered with it for a station, or the
/// reason why there is none: the request failed, the status is no success
/// or says that there is nothing to send, or the body could not be read.
pub open spec fn weather_outcome(station: StationView, fetched: Fetched<String>) -> Result<
    Seq<char>,
    MetarErrorView,
> {
    match fetched {
        Fetched::Failed(reason) => Err(MetarErrorView::ReqwestError(reason@)),
        Fetched::Answered(status, body) => if !Status::success(status.code) {
            Err(MetarErrorView::NonSuccessResponse(status.text@))
        } else if Status::no_content(status.code) {
            Err(MetarErrorView::NoData(station.icao, station.name))
        } else {
            match body {
                Ok(raw) => Ok(raw@),
                Err(reason) => Err(MetarErrorView::ReqwestError(reason@)),
            }
        },
    }
}

/// A `Result` of a report as text.
pub open spec fn report_result_view(result: Result<String, MetarError>) -> Result<
    Seq<char>,
    MetarErrorView,
> {
    match result {
        Ok(raw) => Ok(raw@),
        Err(error) => Err(error.deep_view()),
    }
}

/// Reads the answer to the request for a report of a station.
pub fn weather(station: Station, fetched: Fetched<String>) -> (result: Result<
    String,
    MetarError,
>)
    ensures
        report_result_view(result) == weather_outcome(station.deep_view(), fetched),
{
    match fetched {
        Fetched::Failed(reason) => Err(MetarError::ReqwestError(reason)),
        Fetched::Answered(status, body) => {
            if !status.is_success() {
                Err(MetarError::NonSuccessResponse(status.text))
            } else if status.is_no_content() {
                Err(MetarError::NoData(station.icao, station.name))
            } else {
                match body {
                    Ok(raw) => Ok(raw),
                    Err(reason) => Err(MetarError::ReqwestError(reason)),
                }
            }
        },
    }
}

/// What a weather command was asked: which kind of report, for which
/// airport, where the answer goes, and the key for the service.
#[derive(Debug, PartialEq, Eq)]
pub struct Query {
    /// The kind of report.
    pub kind: WeatherType,
    /// Where the answer goes: a channel or a nickname.
    pub target: String,
    /// The ICAO code of the airport.
    pub airport: String,
    /// The key for the weather service.
    pub apikey: String,
}

/// A `Query` as text.
pub ghost struct QueryView {
    pub kind: WeatherType,
    pub target: Seq<char>,
    pub airport: Seq<char>,
    pub apikey: Seq<char>,
}

impl DeepView for Query {
    type V = QueryView;

    open spec fn deep_view(&self) -> QueryView {
        QueryView {
            kind: self.kind,
            target: self.target@,
            airport: self.airport@,
            apikey: self.apikey@,
        }
    }
}

/// The request that a weather command waits for.
#[derive(Debug, PartialEq, Eq)]
pub enum Lookup {
    /// The station of the airport. `station_arrived` goes on from the
    /// answer.
    Station(Query),
    /// The report for the station. `report_arrived` goes on from the
    /// answer.
    Report(Query, Station),
}

/// A `Lookup` as text.
pub ghost enum LookupView {
    Station(QueryView),
    Report(QueryView, StationView),
}

impl DeepView for Lookup {
    type V = LookupView;

    open spec fn deep_view(&self) -> LookupView {
        match self {
            Lookup::Station(query) => LookupView::Station(query.deep_view()),
            Lookup::Report(query, station) => LookupView::Report(
                query.deep_view(),
                station.deep_view(),
            ),
        }
    }
}

impl LookupView {
    /// What was asked.
    pub open spec fn query(self) -> QueryView {
        match self {
            LookupView::Station(query) => query,
            LookupView::Report(query, _) => query,
        }
    }

    /// The address to ask: that of stations or of the kind of report, and
    /// behind it the airport code.
    pub open spec fn url(self) -> Seq<char> {
        match self {
            LookupView::Station(query) => STATION_API_URL@ + query.airport,
            LookupView::Report(query, _) => query.kind.url_text() + query.airport,
        }
    }

    /// What the request carries as its authorization: the key, as a
    /// bearer token.
    pub open spec fn authorization(self) -> Seq<char> {
        "Bearer "@ + self.query().apikey
    }
}

impl Lookup {
    /// The address to ask.
    pub fn url(&self) -> (url: String)
        ensures
            url@ == self.deep_view().url(),
    {
        match self {
            Lookup::Station(query) => String::from_str(STATION_API_URL).concat(
                query.airport.as_str(),
            ),
            Lookup::Report(query, _) => String::from_str(query.kind.url()).concat(
                query.airport.as_str(),
            ),
        }
    }

    /// What the request carries as its authorization.
    pub fn authorization(&self) -> (header: String)
        ensures
            header@ == self.deep_view().authorization(),
    {
        match self {
            Lookup::Station(query) => String::from_str("Bearer ").concat(query.apikey.as_str()),
            Lookup::Report(query, _) => String::from_str("Bearer ").concat(
                query.apikey.as_str(),
            ),
        }
    }
}

/// How to ask for a report: the first leader, where there is one, the
/// command's word, and what is to follow it.
pub open spec fn usage(kind: WeatherType, leaders: Seq<char>) -> Seq<char> {
    "Usage: "@ + (if leaders.len() > 0 {
        seq![leaders[0]]
    } else {
        Seq::empty()
    }) + kind.word_text() + " <4-letter ICAO airport code>"@
}

/// What is said of an argument that has not the form of an airport code.
pub open spec fn invalid_code(code: Seq<char>) -> Seq<char> {
    code + " does not seem to be a valid ICAO airport code"@
}

/// The answer that carries a report, or says why there is none.
pub open spec fn reply(target: Seq<char>, result: Result<Seq<char>, MetarErrorView>)
    -> BotResponseView {
    match result {
        Ok(raw) => BotResponseView::Privmsg(target, raw),
        Err(error) => BotResponseView::Privmsg(target, "Error: "@ + error.message()),
    }
}

/// The first step of a weather command. With nowhere to answer to, or
/// with no key for the service, it fails. Without an argument it says how
/// it is used, and of an argument that is no airport code it says so. Else
/// it waits for the station of the airport.
pub open spec fn handle_outcome(kind: WeatherType, params: BotParametersView)
    -> BotCommandStepView {
    match params.message.response_target() {
        None => BotCommandStepView::Done(Err(BotErrorView::NoResponseTarget)),
        Some(target) => if !params.options.contains_key(APIKEY_OPTION@) {
            BotCommandStepView::Done(Err(BotErrorView::Unconfigured("avwx_apikey not set"@)))
        } else if params.args.len() == 0 {
            BotCommandStepView::Done(
                Ok(BotResponseView::Privmsg(target, usage(kind, params.leaders))),
            )
        } else if !airport_code(params.args[0]) {
            BotCommandStepView::Done(
                Ok(BotResponseView::Privmsg(target, invalid_code(params.args[0]))),
            )
        } else {
            BotCommandStepView::Fetch(
                LookupView::Station(
                    QueryView {
                        kind,
                        target,
                        airport: params.args[0],
                        apikey: params.options[APIKEY_OPTION@],
                    },
                ),
            )
        },
    }
}

fn answer(target: String, result: Result<String, MetarError>) -> (response: BotResponse)
    ensures
        response.deep_view() == reply(target@, report_result_view(result)),
{
    match result {
        Ok(raw) => BotResponse::Privmsg(target, raw),
        Err(error) => {
            let text = String::from_str("Error: ").concat(error.message().as_str());
            BotResponse::Privmsg(target, text)
        },
    }
}

/// The first step of a weather command of the given kind.
pub fn handle(type_: WeatherType, params: BotParameters<'_>) -> (step: BotCommandStep)
    ensures
        step.deep_view() == handle_outcome(type_, params.deep_view()),
{
    let target = match params.message.response_target() {
        Some(target) => target.to_owned(),
        None => {
            return BotCommandStep::Done(Err(BotError::NoResponseTarget));
        },
    };
    let apikey = match params.options.get(APIKEY_OPTION) {
        Some(apikey) => apikey.clone(),
        None => {
            return BotCommandStep::Done(Err(BotError::Unconfigured("avwx_apikey not set")));
        },
    };
    if params.args.len() == 0 {
        let mut text = String::from_str("Usage: ");
        if params.leaders.len() > 0 {
            push_char(&mut text, params.leaders[0]);
        }
        text.append(type_.word());
        text.append(" <4-letter ICAO airport code>");
        assert(text@ =~= usage(type_, params.leaders@));
        return BotCommandStep::Done(Ok(BotResponse::Privmsg(target, text)));
    }
    let airport = params.args[0].clone();
    if !is_airport_code(airport.as_str()) {
        let text = airport.concat(" does not seem to be a valid ICAO airport code");
        return BotCommandStep::Done(Ok(BotResponse::Privmsg(target, text)));
    }
    BotCommandStep::Fetch(Lookup::Station(Query { kind: type_, target, airport, apikey }))
}

/// The step after the station has been asked for. Where the answer holds
/// a station that reports weather, the command waits for the report. Else
/// it is done and says why there is no report.
pub open spec fn station_step(query: QueryView, fetched: Fetched<Station>) -> BotCommandStepView {
    match info_outcome(fetched) {
        Err(error) => BotCommandStepView::Done(Ok(reply(query.target, Err(error)))),
        Ok(station) => if !station.reporting {
            BotCommandStepView::Done(
                Ok(
                    reply(
                        query.target,
                        Err(MetarErrorView::NoData(station.icao, station.name)),
                    ),
                ),
            )
        } else {
            BotCommandStepView::Fetch(LookupView::Report(query, station))
        },
    }
}

/// Goes on from the answer to the request for the station.
pub fn station_arrived(query: Query, fetched: Fetched<Station>) -> (step: BotCommandStep)
    ensures
        step.deep_view() == station_step(query.deep_view(), fetched),
{
    match info(fetched) {
        Err(error) => BotCommandStep::Done(Ok(answer(query.target, Err(error)))),
        Ok(station) => {
            if !station.reporting {
                let error = MetarError::NoData(station.icao, station.name);
                BotCommandStep::Done(Ok(answer(query.target, Err(error))))
            } else {
                BotCommandStep::Fetch(Lookup::Report(query, station))
            }
        },
    }
}

/// Ends the command with the answer to the request for the report: the
/// report, or why there is none, goes to where the command was to answer.
pub fn report_arrived(query: Query, station: Station, fetched: Fetched<String>) -> (result:
    BotCommandResult)
    ensures
        crate::result_view(result) == Ok::<BotResponseView, BotErrorView>(
            reply(query.target@, weather_outcome(station.deep_view(), fetched)),
        ),
{
    Ok(answer(query.target, weather(station, fetched)))
}

/// The command that answers with the METAR of an airport.
#[derive(Debug, PartialEq, Eq)]
pub struct MetarCommand {}

/// The command that answers with the TAF of an airport.
#[derive(Debug, PartialEq, Eq)]
pub struct TafCommand {}

impl BotCommand for MetarCommand {
    open spec fn trigger_word(&self) -> Seq<char> {
        "metar"@
    }

    fn trigger(&self) -> (word: &'static str) {
        "metar"
    }

    fn handle(&self, params: BotParameters<'_>) -> (step: BotCommandStep)
        ensures
            step.deep_view() == handle_outcome(WeatherType::METAR, params.deep_view()),
    {
        handle(WeatherType::METAR, params)
    }
}

impl BotCommand for TafCommand {
    open spec fn trigger_word(&self) -> Seq<char> {
        "taf"@
    }

    fn trigger(&self) -> (word: &'static str) {
        "taf"
    }

    fn handle(&self, params: BotParameters<'_>) -> (step: BotCommandStep)
        ensures
            step.deep_view() == handle_outcome(WeatherType::TAF, params.deep_view()),
    {
        handle(WeatherType::TAF, params)
    }
}

/// The commands of this module: METAR and TAF, in this order.
pub fn mk() -> (commands: Vec<Builtin>)
    ensures
        commands@ == seq![Builtin::Metar(MetarCommand {}), Builtin::Taf(TafCommand {})],
{
    let mut commands: Vec<Builtin> = Vec::new();
    commands.push(Builtin::Metar(MetarCommand {}));
    commands.push(Builtin::Taf(TafCommand {}));
    assert(commands@ =~= seq![Builtin::Metar(MetarCommand {}), Builtin::Taf(TafCommand {})]);
    commands
}

} // verus!
