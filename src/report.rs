//! Severity bands and the rendering of an air-quality report.
use vstd::prelude::*;

verus! {

pub const GOOD_LABEL: &'static str = "🟢 Отлично";
pub const MODERATE_LABEL: &'static str = "🟡 Нормально";
pub const SENSITIVE_LABEL: &'static str = "🟠 Вредно для чувствительных";
pub const UNHEALTHY_LABEL: &'static str = "🔴 Вредно";
pub const HAZARDOUS_LABEL: &'static str = "☠️ Очень вредно";

/// The report up to the city name.
pub const REPORT_HEAD: &'static str = "*Качество воздуха*\n         🏙 Город: *";
/// Between the city name and the local time.
pub const REPORT_TIME: &'static str = "*\n         🕒 ";
/// Between the local time and the AQI value.
pub const REPORT_AQI: &'static str = "\n         🌫 AQI: *";
/// Between the AQI value and the band label.
pub const REPORT_BAND: &'static str = "*\n         📊 ";

/// One of the five ordered severity categories of the US EPA index.
#[derive(Clone, Copy, Debug, PartialEq, Eq, Structural)]
pub enum Severity {
    Good,
    Moderate,
    UnhealthySensitive,
    Unhealthy,
    Hazardous,
}

/// The band of an AQI value: 0-50, 51-100, 101-150, 151-200 name the first four
/// bands; everything else (above 200, and any negative value) is hazardous.
pub open spec fn severity_of(aqi: int) -> Severity {
    if 0 <= aqi <= 50 {
        Severity::Good
    } else if 51 <= aqi <= 100 {
        Severity::Moderate
    } else if 101 <= aqi <= 150 {
        Severity::UnhealthySensitive
    } else if 151 <= aqi <= 200 {
        Severity::Unhealthy
    } else {
        Severity::Hazardous
    }
}

impl Severity {
    /// Marker and name shown for the band.
    pub open spec fn label_text(self) -> Seq<char> {
        match self {
            Severity::Good => GOOD_LABEL@,
            Severity::Moderate => MODERATE_LABEL@,
            Severity::UnhealthySensitive => SENSITIVE_LABEL@,
            Severity::Unhealthy => UNHEALTHY_LABEL@,
            Severity::Hazardous => HAZARDOUS_LABEL@,
        }
    }

    pub fn label(&self) -> (r: &'static str)
        ensures
            r@ == self.label_text(),
    {
        match self {
            Severity::Good => GOOD_LABEL,
            Severity::Moderate => MODERATE_LABEL,
            Severity::UnhealthySensitive => SENSITIVE_LABEL,
            Severity::Unhealthy => UNHEALTHY_LABEL,
            Severity::Hazardous => HAZARDOUS_LABEL,
        }
    }
}

/// Classifies an AQI value into its band.
pub fn severity(aqi: i32) -> (r: Severity)
    ensures
        r == severity_of(aqi as int),
{
    if 0 <= aqi && aqi <= 50 {
        Severity::Good
    } else if 51 <= aqi && aqi <= 100 {
        Severity::Moderate
    } else if 101 <= aqi && aqi <= 150 {
        Severity::UnhealthySensitive
    } else if 151 <= aqi && aqi <= 200 {
        Severity::Unhealthy
    } else {
        Severity::Hazardous
    }
}

/// Each AQI value lies in exactly the range of its band, so the bands are
/// total, disjoint, and change exactly at 50/51, 100/101, 150/151 and 200/201.
pub proof fn lemma_severity_bands(a: int)
    ensures
        (severity_of(a) == Severity::Good) <==> (0 <= a <= 50),
        (severity_of(a) == Severity::Moderate) <==> (51 <= a <= 100),
        (severity_of(a) == Severity::UnhealthySensitive) <==> (101 <= a <= 150),
        (severity_of(a) == Severity::Unhealthy) <==> (151 <= a <= 200),
        (severity_of(a) == Severity::Hazardous) <==> (a < 0 || a > 200),
{
}

/// The decimal digit `d` (below ten) as a character.
pub open spec fn digit_char(d: nat) -> char {
    if d == 0 {
        '0'
    } else if d == 1 {
        '1'
    } else if d == 2 {
        '2'
    } else if d == 3 {
        '3'
    } else if d == 4 {
        '4'
    } else if d == 5 {
        '5'
    } else if d == 6 {
        '6'
    } else if d == 7 {
        '7'
    } else if d == 8 {
        '8'
    } else {
        '9'
    }
}

/// Decimal notation of `n`, without leading zeros.
pub open spec fn decimal(n: nat) -> Seq<char>
    decreases n,
{
    if n < 10 {
        seq![digit_char(n)]
    } else {
        decimal(n / 10) + seq![digit_char(n % 10)]
    }
}

/// Decimal notation of `a`, with a leading minus sign when negative.
pub open spec fn signed_decimal(a: int) -> Seq<char> {
    if a < 0 {
        seq!['-'] + decimal((-a) as nat)
    } else {
        decimal(a as nat)
    }
}

fn digit_text(d: u32) -> (r: &'static str)
    requires
        d < 10,
    ensures
        r@ == seq![digit_char(d as nat)],
{
    proof {
        reveal_strlit("0");
        reveal_strlit("1");
        reveal_strlit("2");
        reveal_strlit("3");
        reveal_strlit("4");
        reveal_strlit("5");
        reveal_strlit("6");
        reveal_strlit("7");
        reveal_strlit("8");
        reveal_strlit("9");
    }
    match d {
        0 => "0",
        1 => "1",
        2 => "2",
        3 => "3",
        4 => "4",
        5 => "5",
        6 => "6",
        7 => "7",
        8 => "8",
        _ => "9",
    }
}

fn append_decimal(s: &mut String, n: u32)
    ensures
        final(s)@ == old(s)@ + decimal(n as nat),
    decreases n,
{
    if n >= 10 {
        append_decimal(s, n / 10);
    }
    s.append(digit_text(n % 10));
    assert(final(s)@ =~= old(s)@ + decimal(n as nat));
}

/// Decimal text of an AQI value, as it appears in the report.
pub fn aqi_text(aqi: i32) -> (r: String)
    ensures
        r@ == signed_decimal(aqi as int),
{
    let mut s = String::new();
    let wide: i64 = aqi as i64;
    if wide < 0 {
        s.append("-");
        proof {
            reveal_strlit("-");
        }
        append_decimal(&mut s, (-wide) as u32);
    } else {
        append_decimal(&mut s, wide as u32);
    }
    assert(s@ =~= signed_decimal(aqi as int));
    s
}

/// One reading of the provider: the city it names and its US AQI value.
#[derive(Debug)]
pub struct AirReading {
    pub city: String,
    pub aqi: i32,
}

impl AirReading {
    pub fn new(city: String, aqi: i32) -> (r: AirReading)
        ensures
            r.city@ == city@,
            r.aqi == aqi,
    {
        AirReading { city, aqi }
    }
}

/// The report for `city` and `aqi` rendered at wall-clock time `time`: title,
/// city, time, AQI value and band label, in the transport's rich-text markup.
/// The city name is inserted as it is, without escaping.
pub open spec fn report_text(city: Seq<char>, time: Seq<char>, aqi: int) -> Seq<char> {
    REPORT_HEAD@ + city + REPORT_TIME@ + time + REPORT_AQI@ + signed_decimal(aqi) + REPORT_BAND@
        + severity_of(aqi).label_text()
}

/// What `%H:%M` renders: two hour digits, a colon and two minute digits.
pub open spec fn is_clock_text(t: Seq<char>) -> bool {
    &&& t.len() == 5
    &&& t[2] == ':'
    &&& forall|i: int| 0 <= i < 5 && i != 2 ==> '0' <= #[trigger] t[i] <= '9'
}

/// Relies on chrono's `Local::now` formatted with `%H:%M`: the local wall-clock
/// time as a zero-padded hour and a zero-padded minute joined by a colon.
#[verifier::external_body]
pub(crate) fn local_clock_text() -> (r: String)
    ensures
        is_clock_text(r@),
{
    chrono::Local::now().format("%H:%M").to_string()
}

/// Renders the report of `reading` at wall-clock time `time`.
pub fn format_message(reading: &AirReading, time: &str) -> (r: String)
    ensures
        r@ == report_text(reading.city@, time@, reading.aqi as int),
{
    let mut s = String::from_str(REPORT_HEAD);
    s.append(reading.city.as_str());
    s.append(REPORT_TIME);
    s.append(time);
    s.append(REPORT_AQI);
    let digits = aqi_text(reading.aqi);
    s.append(digits.as_str());
    s.append(REPORT_BAND);
    let band = severity(reading.aqi);
    s.append(band.label());
    s
}

/// Renders the report of `reading` at the current local time.
pub fn format_message_now(reading: &AirReading) -> (r: String)
    ensures
        exists|t: Seq<char>|
            is_clock_text(t) && r@ == report_text(reading.city@, t, reading.aqi as int),
{
    let time = local_clock_text();
    format_message(reading, time.as_str())
}

} // verus!
