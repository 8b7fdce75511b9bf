//! Classification of inbound messages into intents, and the handler of each.
use crate::client::FetchError;
use crate::report::{format_message, is_clock_text, local_clock_text, report_text, AirReading};
use crate::store::{Coordinate, LocationStore, UserId};
use vstd::prelude::*;

verus! {

/// The onboarding command.
pub const START_COMMAND: &'static str = "/start";
/// The main-menu button that asks for a report.
pub const AIR_QUALITY_LABEL: &'static str = "🌫 Качество воздуха";
/// The button that shares the device location.
pub const LOCATION_BUTTON_LABEL: &'static str = "📍 Отправить локацию";
pub const GREETING_RETURNING: &'static str =
    "С возвращением! Нажми кнопку, чтобы проверить качество воздуха.";
pub const GREETING_NEW: &'static str =
    "Привет! Отправь своё местоположение, чтобы узнать качество воздуха рядом с тобой.";
pub const SHARE_LOCATION_FIRST: &'static str = "❗ Сначала поделись местоположением";
/// Start of the confirmation of a stored location.
pub const LOCATION_SAVED: &'static str = "✅ Местоположение сохранено: ";
/// Between latitude and longitude in the confirmation.
pub const COORD_SEPARATOR: &'static str = ", ";

/// A suggested-reply button; it may ask the device for its location.
pub struct Button {
    pub label: String,
    pub requests_location: bool,
}

/// A layout of exactly one row holding exactly one button.
pub open spec fn is_single_button(
    rows: Seq<Vec<Button>>,
    label: Seq<char>,
    requests_location: bool,
) -> bool {
    &&& rows.len() == 1
    &&& rows[0]@.len() == 1
    &&& rows[0]@[0].label@ == label
    &&& rows[0]@[0].requests_location == requests_location
}

/// The keyboard offered to a user who has not shared a location yet.
pub fn get_location_keyboard() -> (r: Vec<Vec<Button>>)
    ensures
        is_single_button(r@, LOCATION_BUTTON_LABEL@, true),
{
    let button = Button { label: String::from_str(LOCATION_BUTTON_LABEL), requests_location: true };
    let mut row: Vec<Button> = Vec::new();
    row.push(button);
    let mut rows: Vec<Vec<Button>> = Vec::new();
    rows.push(row);
    rows
}

/// The main-menu keyboard.
pub fn get_main_keyboard() -> (r: Vec<Vec<Button>>)
    ensures
        is_single_button(r@, AIR_QUALITY_LABEL@, false),
{
    let button = Button { label: String::from_str(AIR_QUALITY_LABEL), requests_location: false };
    let mut row: Vec<Button> = Vec::new();
    row.push(button);
    let mut rows: Vec<Vec<Button>> = Vec::new();
    rows.push(row);
    rows
}

/// The suggested-reply keyboard that goes with a reply.
#[derive(Clone, Copy, Debug, PartialEq, Eq, Structural)]
pub enum Keyboard {
    LocationRequest,
    MainMenu,
}

impl Keyboard {
    /// The rows of buttons of this keyboard.
    pub fn rows(&self) -> (r: Vec<Vec<Button>>)
        ensures
            *self == Keyboard::LocationRequest ==> is_single_button(
                r@,
                LOCATION_BUTTON_LABEL@,
                true,
            ),
            *self == Keyboard::MainMenu ==> is_single_button(r@, AIR_QUALITY_LABEL@, false),
    {
        match self {
            Keyboard::LocationRequest => get_location_keyboard(),
            Keyboard::MainMenu => get_main_keyboard(),
        }
    }
}

/// An outbound message: its text, the keyboard offered with it, and whether
/// the text is in the transport's rich-text markup.
pub struct Reply {
    pub text: String,
    pub keyboard: Keyboard,
    pub markdown: bool,
}

pub open spec fn reply_is(r: Reply, text: Seq<char>, keyboard: Keyboard, markdown: bool) -> bool {
    r.text@ == text && r.keyboard == keyboard && r.markdown == markdown
}

/// A location shared by the user: the point itself, and its latitude and
/// longitude rendered as the transport renders them.
pub struct SharedLocation {
    pub coord: Coordinate,
    pub lat_text: String,
    pub lon_text: String,
}

/// An inbound message: the chat it came from, its text and its location, if any.
pub struct IncomingMessage {
    pub chat_id: UserId,
    pub text: Option<String>,
    pub location: Option<SharedLocation>,
}

/// What an inbound message asks for.
#[derive(Clone, Copy, Debug, PartialEq, Eq, Structural)]
pub enum Intent {
    Start,
    ReportLocation(Coordinate),
    RequestAirQuality,
}

pub open spec fn text_view(text: Option<String>) -> Option<Seq<char>> {
    match text {
        Some(t) => Some(t@),
        None => None,
    }
}

pub open spec fn location_view(location: Option<SharedLocation>) -> Option<Coordinate> {
    match location {
        Some(l) => Some(l.coord),
        None => None,
    }
}

/// Classification, first match wins: the onboarding command, then an attached
/// location, then the air-quality menu label; anything else has no intent.
pub open spec fn intent_of(text: Option<Seq<char>>, location: Option<Coordinate>) -> Option<
    Intent,
> {
    if text == Some(START_COMMAND@) {
        Some(Intent::Start)
    } else if let Some(c) = location {
        Some(Intent::ReportLocation(c))
    } else if text == Some(AIR_QUALITY_LABEL@) {
        Some(Intent::RequestAirQuality)
    } else {
        None
    }
}

impl IncomingMessage {
    pub open spec fn intent(&self) -> Option<Intent> {
        intent_of(text_view(self.text), location_view(self.location))
    }
}

/// The onboarding command wins over everything else the message carries.
pub proof fn lemma_start_has_priority(location: Option<Coordinate>)
    ensures
        intent_of(Some(START_COMMAND@), location) == Some(Intent::Start),
{
}

/// A location is reported only by a message that is not the onboarding
/// command, and the air-quality intent only by one with no location attached.
pub proof fn lemma_intents_exclusive(text: Option<Seq<char>>, location: Option<Coordinate>)
    ensures
        intent_of(text, location) matches Some(Intent::ReportLocation(c)) ==> text != Some(
            START_COMMAND@,
        ) && location == Some(c),
        intent_of(text, location) == Some(Intent::RequestAirQuality) ==> text == Some(
            AIR_QUALITY_LABEL@,
        ) && location is None,
{
}

fn text_is(text: &Option<String>, expected: &'static str) -> (r: bool)
    ensures
        r == (text_view(*text) == Some(expected@)),
{
    match text {
        Some(t) => {
            let e = String::from_str(expected);
            *t == e
        },
        None => false,
    }
}

/// The intent of `msg`, if it has one.
pub fn classify(msg: &IncomingMessage) -> (r: Option<Intent>)
    ensures
        r == msg.intent(),
{
    if text_is(&msg.text, START_COMMAND) {
        Some(Intent::Start)
    } else if let Some(l) = &msg.location {
        Some(Intent::ReportLocation(l.coord))
    } else if text_is(&msg.text, AIR_QUALITY_LABEL) {
        Some(Intent::RequestAirQuality)
    } else {
        None
    }
}

fn make_reply(text: &'static str, keyboard: Keyboard) -> (r: Reply)
    ensures
        reply_is(r, text@, keyboard, false),
{
    Reply { text: String::from_str(text), keyboard, markdown: false }
}

/// Greets a returning user (one with a stored location) with the main menu,
/// and a new user with a request to share a location.
pub fn start(store: &LocationStore, chat_id: UserId) -> (r: Reply)
    ensures
        if store@.contains_key(chat_id) {
            reply_is(r, GREETING_RETURNING@, Keyboard::MainMenu, false)
        } else {
            reply_is(r, GREETING_NEW@, Keyboard::LocationRequest, false)
        },
{
    if store.contains(chat_id) {
        make_reply(GREETING_RETURNING, Keyboard::MainMenu)
    } else {
        make_reply(GREETING_NEW, Keyboard::LocationRequest)
    }
}

/// The confirmation of a stored location rendered as `lat` and `lon`.
pub open spec fn saved_text(lat: Seq<char>, lon: Seq<char>) -> Seq<char> {
    LOCATION_SAVED@ + lat + COORD_SEPARATOR@ + lon
}

/// Stores the shared location for `chat_id` and confirms it.
pub fn handle_location(store: &mut LocationStore, chat_id: UserId, location: &SharedLocation) -> (r:
    Reply)
    ensures
        final(store)@ == old(store)@.insert(chat_id, location.coord),
        reply_is(
            r,
            saved_text(location.lat_text@, location.lon_text@),
            Keyboard::MainMenu,
            false,
        ),
{
    store.set(chat_id, location.coord);
    let mut text = String::from_str(LOCATION_SAVED);
    text.append(location.lat_text.as_str());
    text.append(COORD_SEPARATOR);
    text.append(location.lon_text.as_str());
    Reply { text, keyboard: Keyboard::MainMenu, markdown: false }
}

/// The first step of an air-quality request: ask for a location, or fetch a
/// reading for the stored one.
pub enum AirQualityStep {
    Reply(Reply),
    Fetch(Coordinate),
}

/// Without a stored location the user is asked to share one and nothing is
/// fetched; with one, the reading for that location is to be fetched.
pub fn air_quality(store: &LocationStore, chat_id: UserId) -> (r: AirQualityStep)
    ensures
        store@.contains_key(chat_id) ==> r == AirQualityStep::Fetch(store@[chat_id]),
        !store@.contains_key(chat_id) ==> (r matches AirQualityStep::Reply(rep) && reply_is(
            rep,
            SHARE_LOCATION_FIRST@,
            Keyboard::LocationRequest,
            false,
        )),
{
    match store.get(chat_id) {
        Some(c) => AirQualityStep::Fetch(c),
        None => AirQualityStep::Reply(make_reply(SHARE_LOCATION_FIRST, Keyboard::LocationRequest)),
    }
}

/// The reply that ends an air-quality request whose fetch gave `result`, at
/// wall-clock time `time`: the report with the main menu, or nothing at all
/// when the fetch failed.
pub fn air_quality_reply_at(result: Result<AirReading, FetchError>, time: &str) -> (r: Option<
    Reply,
>)
    ensures
        match result {
            Ok(reading) => r matches Some(rep) && reply_is(
                rep,
                report_text(reading.city@, time@, reading.aqi as int),
                Keyboard::MainMenu,
                true,
            ),
            Err(_) => r is None,
        },
{
    match result {
        Ok(reading) => Some(
            Reply { text: format_message(&reading, time), keyboard: Keyboard::MainMenu, markdown: true },
        ),
        Err(_) => None,
    }
}

/// As `air_quality_reply_at`, at the current local time.
pub fn air_quality_reply(result: Result<AirReading, FetchError>) -> (r: Option<Reply>)
    ensures
        match result {
            Ok(reading) => r matches Some(rep) && exists|t: Seq<char>|
                is_clock_text(t) && reply_is(
                    rep,
                    report_text(reading.city@, t, reading.aqi as int),
                    Keyboard::MainMenu,
                    true,
                ),
            Err(_) => r is None,
        },
{
    let time = local_clock_text();
    air_quality_reply_at(result, time.as_str())
}

/// What the transport is to do for one inbound message.
pub enum Action {
    /// The message has no intent: nothing is sent.
    Ignore,
    Reply(Reply),
    /// A reading for this point is to be fetched, and its outcome handed to
    /// `air_quality_reply`.
    Fetch(Coordinate),
}

/// One step of the router: classifies `msg` and runs the handler of its intent.
pub fn dispatch(store: &mut LocationStore, msg: &IncomingMessage) -> (r: Action)
    ensures
        match msg.intent() {
            None => r is Ignore && final(store)@ == old(store)@,
            Some(Intent::Start) => final(store)@ == old(store)@ && if old(store)@.contains_key(
                msg.chat_id,
            ) {
                r matches Action::Reply(rep) && reply_is(
                    rep,
                    GREETING_RETURNING@,
                    Keyboard::MainMenu,
                    false,
                )
            } else {
                r matches Action::Reply(rep) && reply_is(
                    rep,
                    GREETING_NEW@,
                    Keyboard::LocationRequest,
                    false,
                )
            },
            Some(Intent::ReportLocation(c)) => {
                &&& final(store)@ == old(store)@.insert(msg.chat_id, c)
                &&& msg.location matches Some(l)
                &&& r matches Action::Reply(rep) && reply_is(
                    rep,
                    saved_text(l.lat_text@, l.lon_text@),
                    Keyboard::MainMenu,
                    false,
                )
            },
            Some(Intent::RequestAirQuality) => final(store)@ == old(store)@ && if old(
                store,
            )@.contains_key(msg.chat_id) {
                r == Action::Fetch(old(store)@[msg.chat_id])
            } else {
                r matches Action::Reply(rep) && reply_is(
                    rep,
                    SHARE_LOCATION_FIRST@,
                    Keyboard::LocationRequest,
                    false,
                )
            },
        },
{
    match classify(msg) {
        None => Action::Ignore,
        Some(Intent::Start) => Action::Reply(start(store, msg.chat_id)),
        Some(Intent::ReportLocation(_)) => match &msg.location {
            Some(l) => Action::Reply(handle_location(store, msg.chat_id, l)),
            None => Action::Ignore,
        },
        Some(Intent::RequestAirQuality) => match air_quality(store, msg.chat_id) {
            AirQualityStep::Reply(rep) => Action::Reply(rep),
            AirQualityStep::Fetch(c) => Action::Fetch(c),
        },
    }
}

} // verus!
