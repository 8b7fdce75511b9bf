use aqi_bot::client::{fetch_result, FetchError, ProviderAnswer};
use aqi_bot::report::AirReading;
use aqi_bot::router::{
    air_quality_reply, air_quality_reply_at, classify, dispatch, get_location_keyboard,
    get_main_keyboard, Action, IncomingMessage, Intent, Keyboard, SharedLocation,
};
use aqi_bot::store::{Coordinate, LocationStore};

fn text_message(chat_id: i64, text: &str) -> IncomingMessage {
    IncomingMessage { chat_id, text: Some(text.to_string()), location: None }
}

fn shared(lat: f64, lon: f64) -> SharedLocation {
    SharedLocation {
        coord: Coordinate::new(lat.to_bits(), lon.to_bits()),
        lat_text: format!("{}", lat),
        lon_text: format!("{}", lon),
    }
}

fn location_message(chat_id: i64, lat: f64, lon: f64) -> IncomingMessage {
    IncomingMessage { chat_id, text: None, location: Some(shared(lat, lon)) }
}

fn reply_of(action: Action) -> (String, Keyboard, bool) {
    match action {
        Action::Reply(r) => (r.text, r.keyboard, r.markdown),
        _ => panic!("expected a reply"),
    }
}

#[test]
fn start_from_new_user_asks_for_location() {
    let mut store = LocationStore::new();
    let (text, keyboard, markdown) = reply_of(dispatch(&mut store, &text_message(42, "/start")));
    assert_eq!(
        text,
        "Привет! Отправь своё местоположение, чтобы узнать качество воздуха рядом с тобой."
    );
    assert_eq!(keyboard, Keyboard::LocationRequest);
    assert!(!markdown);
    assert_eq!(store.get(42), None);
}

#[test]
fn start_from_returning_user_shows_menu() {
    let mut store = LocationStore::new();
    dispatch(&mut store, &location_message(42, 55.75, 37.62));
    let (text, keyboard, _) = reply_of(dispatch(&mut store, &text_message(42, "/start")));
    assert_eq!(text, "С возвращением! Нажми кнопку, чтобы проверить качество воздуха.");
    assert_eq!(keyboard, Keyboard::MainMenu);
}

#[test]
fn shared_location_is_stored_and_confirmed() {
    let mut store = LocationStore::new();
    let (text, keyboard, _) = reply_of(dispatch(&mut store, &location_message(42, 55.75, 37.62)));
    assert_eq!(text, "✅ Местоположение сохранено: 55.75, 37.62");
    assert!(text.ends_with("55.75, 37.62"));
    assert_eq!(keyboard, Keyboard::MainMenu);
    let got = store.get(42).unwrap();
    assert_eq!((f64::from_bits(got.lat_bits), f64::from_bits(got.lon_bits)), (55.75, 37.62));
}

#[test]
fn air_quality_without_location_asks_to_share_it() {
    let mut store = LocationStore::new();
    let action = dispatch(&mut store, &text_message(42, "🌫 Качество воздуха"));
    assert!(!matches!(action, Action::Fetch(_)));
    let (text, keyboard, _) = reply_of(action);
    assert_eq!(text, "❗ Сначала поделись местоположением");
    assert_eq!(keyboard, Keyboard::LocationRequest);
}

#[test]
fn air_quality_with_location_fetches_for_it() {
    let mut store = LocationStore::new();
    dispatch(&mut store, &location_message(42, 55.75, 37.62));
    match dispatch(&mut store, &text_message(42, "🌫 Качество воздуха")) {
        Action::Fetch(c) => {
            assert_eq!(f64::from_bits(c.lat_bits), 55.75);
            assert_eq!(f64::from_bits(c.lon_bits), 37.62);
        }
        _ => panic!("expected a fetch"),
    }
}

#[test]
fn report_for_moscow() {
    let answer = ProviderAnswer::Answered {
        status: 200,
        body: Some(AirReading::new("Moscow".to_string(), 42)),
    };
    let reply = air_quality_reply(fetch_result(answer)).unwrap();
    assert!(reply.text.contains("Moscow"));
    assert!(reply.text.contains("42"));
    assert!(reply.text.contains("🟢 Отлично"));
    assert_eq!(reply.keyboard, Keyboard::MainMenu);
    assert!(reply.markdown);
}

#[test]
fn report_at_given_time() {
    let reading = AirReading::new("Moscow".to_string(), 120);
    let reply = air_quality_reply_at(Ok(reading), "14:30").unwrap();
    assert_eq!(
        reply.text,
        "*Качество воздуха*\n         🏙 Город: *Moscow*\n         🕒 14:30\n         🌫 AQI: *120*\n         📊 🟠 Вредно для чувствительных"
    );
}

#[test]
fn failed_fetch_sends_nothing_and_others_are_served() {
    let answer = ProviderAnswer::Answered { status: 500, body: None };
    let result = fetch_result(answer);
    assert!(matches!(result, Err(FetchError::UpstreamError(500))));
    assert!(air_quality_reply(result).is_none());
    assert!(air_quality_reply_at(Err(FetchError::NetworkFailure), "10:00").is_none());
    let mut store = LocationStore::new();
    let (text, _, _) = reply_of(dispatch(&mut store, &text_message(7, "/start")));
    assert!(text.starts_with("Привет!"));
}

#[test]
fn start_has_priority_over_location() {
    let msg = IncomingMessage {
        chat_id: 42,
        text: Some("/start".to_string()),
        location: Some(shared(1.0, 2.0)),
    };
    assert_eq!(classify(&msg), Some(Intent::Start));
    let mut store = LocationStore::new();
    let (_, keyboard, _) = reply_of(dispatch(&mut store, &msg));
    assert_eq!(keyboard, Keyboard::LocationRequest);
    assert_eq!(store.get(42), None);
}

#[test]
fn location_has_priority_over_menu_label() {
    let msg = IncomingMessage {
        chat_id: 42,
        text: Some("🌫 Качество воздуха".to_string()),
        location: Some(shared(1.0, 2.0)),
    };
    let c = Coordinate::new(1.0f64.to_bits(), 2.0f64.to_bits());
    assert_eq!(classify(&msg), Some(Intent::ReportLocation(c)));
}

#[test]
fn unmatched_message_is_ignored() {
    let mut store = LocationStore::new();
    assert!(matches!(dispatch(&mut store, &text_message(42, "hello")), Action::Ignore));
    assert!(matches!(dispatch(&mut store, &text_message(42, "/start ")), Action::Ignore));
    let empty = IncomingMessage { chat_id: 42, text: None, location: None };
    assert_eq!(classify(&empty), None);
    assert_eq!(store.get(42), None);
}

#[test]
fn keyboards() {
    let rows = get_location_keyboard();
    assert_eq!(rows.len(), 1);
    assert_eq!(rows[0].len(), 1);
    assert_eq!(rows[0][0].label, "📍 Отправить локацию");
    assert!(rows[0][0].requests_location);
    let rows = get_main_keyboard();
    assert_eq!(rows[0][0].label, "🌫 Качество воздуха");
    assert!(!rows[0][0].requests_location);
    assert_eq!(Keyboard::MainMenu.rows()[0][0].label, "🌫 Качество воздуха");
}
