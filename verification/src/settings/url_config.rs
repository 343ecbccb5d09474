use vstd::prelude::*;
use vstd::string::StringExecFns;

use crate::coordinate::{fixed3_of, Coordinate};

verus! {

#[derive(Debug, PartialEq, Eq, Structural)]
pub struct ParseEnumError;

/// The atmospheric height band whose temperature the forecast query asks for.
#[derive(Debug, Clone, Copy, PartialEq, Eq, Structural)]
pub enum HourlyTempFromGround {
    Unspecified,
    TempAt2m,
    TempAt80m,
    TemAt120m,
    TemAt180m,
}

/// The height band selected by a one-character code; any other code selects
/// no band at all.
pub open spec fn selector_of(s: Seq<char>) -> HourlyTempFromGround {
    if s == "1"@ {
        HourlyTempFromGround::TempAt2m
    } else if s == "2"@ {
        HourlyTempFromGround::TempAt80m
    } else if s == "3"@ {
        HourlyTempFromGround::TemAt120m
    } else if s == "4"@ {
        HourlyTempFromGround::TemAt180m
    } else {
        HourlyTempFromGround::Unspecified
    }
}

/// The fixed query fragment of each height band.
pub open spec fn level_fragment(level: HourlyTempFromGround) -> Seq<char> {
    match level {
        HourlyTempFromGround::Unspecified => ""@,
        HourlyTempFromGround::TempAt2m => "hourly=temperature_2m"@,
        HourlyTempFromGround::TempAt80m => "hourly=temperature_80m"@,
        HourlyTempFromGround::TemAt120m => "hourly=temperature_120m"@,
        HourlyTempFromGround::TemAt180m => "hourly=temperature_180m"@,
    }
}

impl HourlyTempFromGround {
    /// Parses a selector code; an unrecognized code silently selects
    /// `Unspecified`, so no error is ever raised.
    pub fn from_str(temperature_set: &str) -> (r: Result<HourlyTempFromGround, ParseEnumError>)
        ensures
            r matches Ok(level) && level == selector_of(temperature_set@),
    {
        let s = temperature_set.to_owned();
        if s == "1".to_owned() {
            Ok(HourlyTempFromGround::TempAt2m)
        } else if s == "2".to_owned() {
            Ok(HourlyTempFromGround::TempAt80m)
        } else if s == "3".to_owned() {
            Ok(HourlyTempFromGround::TemAt120m)
        } else if s == "4".to_owned() {
            Ok(HourlyTempFromGround::TemAt180m)
        } else {
            Ok(HourlyTempFromGround::Unspecified)
        }
    }

    /// The band's fixed query fragment; empty for `Unspecified`.
    pub fn fragment(&self) -> (r: &'static str)
        ensures
            r@ == level_fragment(*self),
    {
        match self {
            HourlyTempFromGround::Unspecified => "",
            HourlyTempFromGround::TempAt2m => "hourly=temperature_2m",
            HourlyTempFromGround::TempAt80m => "hourly=temperature_80m",
            HourlyTempFromGround::TemAt120m => "hourly=temperature_120m",
            HourlyTempFromGround::TemAt180m => "hourly=temperature_180m",
        }
    }
}

/// The digit character of a value below ten.
pub open spec fn dec_digit(d: nat) -> char {
    if d == 0 {
        '0'
    } else if d == 1 {
        '1'
    } else if d == 2 {
        '2'
    } else if d == 3 {
        '3'
    } else if d == 4 {
        '4'
    } else if d == 5 {
        '5'
    } else if d == 6 {
        '6'
    } else if d == 7 {
        '7'
    } else if d == 8 {
        '8'
    } else {
        '9'
    }
}

/// The decimal numeral of a number, most significant digit first.
pub open spec fn dec_str(n: nat) -> Seq<char>
    decreases n,
{
    if n < 10 {
        seq![dec_digit(n)]
    } else {
        dec_str(n / 10) + seq![dec_digit(n % 10)]
    }
}

fn decimal_digit(d: u32) -> (r: &'static str)
    requires
        d < 10,
    ensures
        r@ == seq![dec_digit(d as nat)],
{
    if d == 0 {
        proof { reveal_strlit("0"); }
        "0"
    } else if d == 1 {
        proof { reveal_strlit("1"); }
        "1"
    } else if d == 2 {
        proof { reveal_strlit("2"); }
        "2"
    } else if d == 3 {
        proof { reveal_strlit("3"); }
        "3"
    } else if d == 4 {
        proof { reveal_strlit("4"); }
        "4"
    } else if d == 5 {
        proof { reveal_strlit("5"); }
        "5"
    } else if d == 6 {
        proof { reveal_strlit("6"); }
        "6"
    } else if d == 7 {
        proof { reveal_strlit("7"); }
        "7"
    } else if d == 8 {
        proof { reveal_strlit("8"); }
        "8"
    } else {
        proof { reveal_strlit("9"); }
        "9"
    }
}

/// Renders a number as its decimal numeral.
fn u32_to_decimal(n: u32) -> (r: String)
    ensures
        r@ == dec_str(n as nat),
    decreases n,
{
    if n < 10 {
        decimal_digit(n).to_owned()
    } else {
        let mut s = u32_to_decimal(n / 10);
        s.append(decimal_digit(n % 10));
        s
    }
}

/// The forecast-days parameter; zero days means the parameter is omitted.
pub open spec fn forecast_days_param(n: u32) -> Seq<char> {
    if n != 0 {
        "&forecast_days="@ + dec_str(n as nat)
    } else {
        ""@
    }
}

/// The past-days parameter; zero days means the parameter is omitted.
pub open spec fn past_days_param(n: u32) -> Seq<char> {
    if n != 0 {
        "&past_days="@ + dec_str(n as nat)
    } else {
        ""@
    }
}

fn forecast_days_fragment(n: u32) -> (r: String)
    ensures
        r@ == forecast_days_param(n),
{
    if n != 0 {
        let mut s = "&forecast_days=".to_owned();
        let digits = u32_to_decimal(n);
        s.append(digits.as_str());
        s
    } else {
        "".to_owned()
    }
}

fn past_days_fragment(n: u32) -> (r: String)
    ensures
        r@ == past_days_param(n),
{
    if n != 0 {
        let mut s = "&past_days=".to_owned();
        let digits = u32_to_decimal(n);
        s.append(digits.as_str());
        s
    } else {
        "".to_owned()
    }
}

/// Whether `t` occurs somewhere in `s` as a contiguous run.
pub open spec fn contains_sub(s: Seq<char>, t: Seq<char>) -> bool {
    exists|i: int| 0 <= i && i + t.len() <= s.len() && #[trigger] s.subrange(i, i + t.len()) == t
}

/// A forecast query: the resolved coordinates, one height-band selector,
/// nine feature flags, and the day ranges.
#[derive(Debug)]
pub struct UrlConfig {
    pub latitude: Coordinate,
    pub longitude: Coordinate,
    pub hourly_temp_gnd_level: HourlyTempFromGround,
    pub relative_humidity_2m: bool,
    pub apparent_temperature: bool,
    pub precipitation_probability: bool,
    pub precipitation: bool,
    pub rain: bool,
    pub showers: bool,
    pub snowfall: bool,
    pub weather_code: bool,
    pub visibility: bool,
    pub forecast_days: u32,
    pub past_days: u32,
}

/// The spelled-out prefix of the rendered URL: everything that stands before
/// the two day-range parameters.
pub open spec fn url_head(c: UrlConfig) -> Seq<char> {
    "https://api.open-meteo.com/v1/forecast"@ + "?latitude="@ + fixed3_of(c.latitude@)
        + "&longitude&longitude="@ + fixed3_of(c.longitude@) + "&"@ + level_fragment(
        c.hourly_temp_gnd_level,
    ) + (if c.relative_humidity_2m {
        ",relative_humidity_2m"@
    } else {
        ""@
    }) + (if c.apparent_temperature {
        ",apparent_temperature"@
    } else {
        ""@
    }) + (if c.precipitation_probability {
        ",precipitation_probability"@
    } else {
        ""@
    }) + (if c.precipitation {
        ",precipitation"@
    } else {
        ""@
    }) + (if c.rain {
        ",rain"@
    } else {
        ""@
    }) + (if c.showers {
        ",showers"@
    } else {
        ""@
    }) + (if c.snowfall {
        ",snowfall"@
    } else {
        ""@
    }) + (if c.weather_code {
        ",weather_code"@
    } else {
        ""@
    }) + (if c.visibility {
        ",visibility"@
    } else {
        ""@
    })
}

/// The complete query URL of a configuration: the head, then the two
/// day-range parameters, each omitted when its count is zero.
pub open spec fn url_of(c: UrlConfig) -> Seq<char> {
    url_head(c) + forecast_days_param(c.forecast_days) + past_days_param(c.past_days)
}

impl UrlConfig {
    #[allow(clippy::too_many_arguments)]
    pub fn new(
        latitude: Coordinate,
        longitude: Coordinate,
        hourly_temp_gnd_level: HourlyTempFromGround,
        relative_humidity_2m: bool,
        apparent_temperature: bool,
        precipitation_probability: bool,
        precipitation: bool,
        rain: bool,
        showers: bool,
        snowfall: bool,
        weather_code: bool,
        visibility: bool,
        forecast_days: u32,
        past_days: u32,
    ) -> (r: UrlConfig)
        ensures
            r.latitude == latitude,
            r.longitude == longitude,
            r.hourly_temp_gnd_level == hourly_temp_gnd_level,
            r.relative_humidity_2m == relative_humidity_2m,
            r.apparent_temperature == apparent_temperature,
            r.precipitation_probability == precipitation_probability,
            r.precipitation == precipitation,
            r.rain == rain,
            r.showers == showers,
            r.snowfall == snowfall,
            r.weather_code == weather_code,
            r.visibility == visibility,
            r.forecast_days == forecast_days,
            r.past_days == past_days,
    {
        UrlConfig {
            latitude,
            longitude,
            hourly_temp_gnd_level,
            relative_humidity_2m,
            apparent_temperature,
            precipitation_probability,
            precipitation,
            rain,
            showers,
            snowfall,
            weather_code,
            visibility,
            forecast_days,
            past_days,
        }
    }

    #[allow(clippy::too_many_arguments)]
    pub fn build(
        latitude: Coordinate,
        longitude: Coordinate,
        hourly_temp_gnd_level: HourlyTempFromGround,
        relative_humidity_2m: bool,
        apparent_temperature: bool,
        precipitation_probability: bool,
        precipitation: bool,
        rain: bool,
        showers: bool,
        snowfall: bool,
        weather_code: bool,
        visibility: bool,
        forecast_days: u32,
        past_days: u32,
    ) -> (r: UrlConfig)
        ensures
            r.latitude == latitude,
            r.longitude == longitude,
            r.hourly_temp_gnd_level == hourly_temp_gnd_level,
            r.relative_humidity_2m == relative_humidity_2m,
            r.apparent_temperature == apparent_temperature,
            r.precipitation_probability == precipitation_probability,
            r.precipitation == precipitation,
            r.rain == rain,
            r.showers == showers,
            r.snowfall == snowfall,
            r.weather_code == weather_code,
            r.visibility == visibility,
            r.forecast_days == forecast_days,
            r.past_days == past_days,
    {
        UrlConfig::new(
            latitude,
            longitude,
            hourly_temp_gnd_level,
            relative_humidity_2m,
            apparent_temperature,
            precipitation_probability,
            precipitation,
            rain,
            showers,
            snowfall,
            weather_code,
            visibility,
            forecast_days,
            past_days,
        )
    }

    pub fn with_latitude(self, latitude: Coordinate) -> (r: Self)
        ensures
            r == (UrlConfig { latitude, ..self }),
    {
        UrlConfig { latitude, ..self }
    }

    pub fn with_longitude(self, longitude: Coordinate) -> (r: Self)
        ensures
            r == (UrlConfig { longitude, ..self }),
    {
        UrlConfig { longitude, ..self }
    }

    pub fn with_forecast_days(self, forecast_days: u32) -> (r: Self)
        ensures
            r == (UrlConfig { forecast_days, ..self }),
    {
        UrlConfig { forecast_days, ..self }
    }

    pub fn with_past_days(self, past_days: u32) -> (r: Self)
        ensures
            r == (UrlConfig { past_days, ..self }),
    {
        UrlConfig { past_days, ..self }
    }

    /// Renders the complete query URL.
    pub fn render(&self) -> (r: String)
        ensures
            r@ == url_of(*self),
            self.forecast_days == 0 ==> !contains_sub(r@, "forecast_days="@),
    {
        let mut url = "https://api.open-meteo.com/v1/forecast".to_owned();
        url.append("?latitude=");
        let lat3 = self.latitude.to_fixed3();
        url.append(lat3.as_str());
        url.append("&longitude&longitude=");
        let lon3 = self.longitude.to_fixed3();
        url.append(lon3.as_str());
        url.append("&");
        url.append(self.hourly_temp_gnd_level.fragment());
        url.append(
            if self.relative_humidity_2m {
                ",relative_humidity_2m"
            } else {
                ""
            },
        );
        url.append(
            if self.apparent_temperature {
                ",apparent_temperature"
            } else {
                ""
            },
        );
        url.append(
            if self.precipitation_probability {
                ",precipitation_probability"
            } else {
                ""
            },
        );
        url.append(
            if self.precipitation {
                ",precipitation"
            } else {
                ""
            },
        );
        url.append(if self.rain { ",rain" } else { "" });
        url.append(if self.showers { ",showers" } else { "" });
        url.append(if self.snowfall { ",snowfall" } else { "" });
        url.append(if self.weather_code { ",weather_code" } else { "" });
        url.append(if self.visibility { ",visibility" } else { "" });
        let forecast = forecast_days_fragment(self.forecast_days);
        url.append(forecast.as_str());
        let past = past_days_fragment(self.past_days);
        url.append(past.as_str());
        proof {
            if self.forecast_days == 0 {
                lemma_marker_absent(*self, lat3@, lon3@);
            }
        }
        url
    }
}

/// Every character of a decimal numeral is a digit, so none is `=`.
proof fn lemma_dec_str_no_eq(n: nat)
    ensures
        forall|i: int| 0 <= i < dec_str(n).len() ==> #[trigger] dec_str(n)[i] != '=',
    decreases n,
{
    if n < 10 {
        assert(dec_str(n) == seq![dec_digit(n)]);
        assert(dec_str(n)[0] == dec_digit(n));
    } else {
        lemma_dec_str_no_eq(n / 10);
        assert(dec_str(n) == dec_str(n / 10) + seq![dec_digit(n % 10)]);
        assert forall|i: int| 0 <= i < dec_str(n).len() implies #[trigger] dec_str(n)[i] != '='
        by {
            if i < dec_str(n / 10).len() {
                assert(dec_str(n)[i] == dec_str(n / 10)[i]);
            } else {
                assert(dec_str(n)[i] == dec_digit(n % 10));
            }
        }
    }
}

/// The characters of the forecast-days marker that the absence proof reads.
proof fn lemma_marker_chars()
    ensures
        "forecast_days="@.len() == 14,
        "forecast_days="@[4] == 'c',
        "forecast_days="@[12] == 's',
        "forecast_days="@[13] == '=',
{
    reveal_strlit("forecast_days=");
}

/// The fixed endpoint holds no `=` at all.
proof fn lemma_base_chars()
    ensures
        "https://api.open-meteo.com/v1/forecast"@.len() == 38,
        forall|u: int|
            0 <= u < 38 ==> #[trigger] "https://api.open-meteo.com/v1/forecast"@[u] != '=',
{
    reveal_strlit("https://api.open-meteo.com/v1/forecast");
}

/// The latitude template ends in its only `=`, preceded by an `e`.
proof fn lemma_lat_template_chars()
    ensures
        "?latitude="@.len() == 10,
        forall|u: int| 0 <= u < 10 && #[trigger] "?latitude="@[u] == '=' ==> u == 9,
        "?latitude="@[8] == 'e',
{
    reveal_strlit("?latitude=");
}

/// The longitude template ends in its only `=`, preceded by an `e`.
proof fn lemma_lon_template_chars()
    ensures
        "&longitude&longitude="@.len() == 21,
        forall|u: int| 0 <= u < 21 && #[trigger] "&longitude&longitude="@[u] == '=' ==> u == 20,
        "&longitude&longitude="@[19] == 'e',
        "&"@.len() == 1,
        "&"@[0] != '=',
{
    reveal_strlit("&longitude&longitude=");
    reveal_strlit("&");
}

/// Any `=` in a height-band fragment stands right after `hourly`, so it is
/// preceded by a `y`.
proof fn lemma_level_chars(level: HourlyTempFromGround)
    ensures
        forall|u: int|
            0 <= u < level_fragment(level).len() && #[trigger] level_fragment(level)[u] == '='
                ==> u == 6,
        level_fragment(level).len() > 0 ==> level_fragment(level)[5] == 'y',
{
    reveal_strlit("");
    reveal_strlit("hourly=temperature_2m");
    reveal_strlit("hourly=temperature_80m");
    reveal_strlit("hourly=temperature_120m");
    reveal_strlit("hourly=temperature_180m");
}

/// No feature-flag token holds an `=`.
proof fn lemma_flag_chars()
    ensures
        ""@.len() == 0,
        forall|u: int|
            0 <= u < ",relative_humidity_2m"@.len()
                ==> #[trigger] ",relative_humidity_2m"@[u] != '=',
        forall|u: int|
            0 <= u < ",apparent_temperature"@.len()
                ==> #[trigger] ",apparent_temperature"@[u] != '=',
        forall|u: int|
            0 <= u < ",precipitation_probability"@.len()
                ==> #[trigger] ",precipitation_probability"@[u] != '=',
        forall|u: int|
            0 <= u < ",precipitation"@.len() ==> #[trigger] ",precipitation"@[u] != '=',
        forall|u: int| 0 <= u < ",rain"@.len() ==> #[trigger] ",rain"@[u] != '=',
        forall|u: int| 0 <= u < ",showers"@.len() ==> #[trigger] ",showers"@[u] != '=',
        forall|u: int| 0 <= u < ",snowfall"@.len() ==> #[trigger] ",snowfall"@[u] != '=',
        forall|u: int| 0 <= u < ",weather_code"@.len() ==> #[trigger] ",weather_code"@[u] != '=',
        forall|u: int| 0 <= u < ",visibility"@.len() ==> #[trigger] ",visibility"@[u] != '=',
{
    reveal_strlit("");
    reveal_strlit(",relative_humidity_2m");
    reveal_strlit(",apparent_temperature");
    reveal_strlit(",precipitation_probability");
    reveal_strlit(",precipitation");
    reveal_strlit(",rain");
    reveal_strlit(",showers");
    reveal_strlit(",snowfall");
    reveal_strlit(",weather_code");
    reveal_strlit(",visibility");
}

/// Any `=` in the past-days parameter ends its template, nine places after
/// the `p` of `past`.
proof fn lemma_past_param_chars(n: u32)
    ensures
        forall|u: int|
            0 <= u < past_days_param(n).len() && #[trigger] past_days_param(n)[u] == '='
                ==> u == 10,
        n != 0 ==> past_days_param(n).len() >= 12 && past_days_param(n)[1] == 'p',
{
    reveal_strlit("");
    reveal_strlit("&past_days=");
    lemma_dec_str_no_eq(n as nat);
    if n != 0 {
        let lit = "&past_days="@;
        let dd = dec_str(n as nat);
        assert(past_days_param(n) == lit + dd);
        assert(dd.len() >= 1);
        assert(past_days_param(n)[1] == lit[1]);
        assert forall|u: int|
            0 <= u < past_days_param(n).len() && #[trigger] past_days_param(n)[u] == '='
        implies u == 10 by {
            if u < 11 {
                assert(past_days_param(n)[u] == lit[u]);
            } else {
                assert(past_days_param(n)[u] == dd[u - 11]);
            }
        }
    }
}

/// No character of `s` is an `=`.
spec fn eq_free(s: Seq<char>) -> bool {
    forall|i: int| 0 <= i < s.len() ==> #[trigger] s[i] != '='
}

proof fn lemma_concat_eq_free(a: Seq<char>, b: Seq<char>)
    requires
        eq_free(a),
        eq_free(b),
    ensures
        eq_free(a + b),
{
    assert forall|i: int| 0 <= i < (a + b).len() implies #[trigger] (a + b)[i] != '=' by {
        if i < a.len() {
            assert((a + b)[i] == a[i]);
        } else {
            assert((a + b)[i] == b[i - a.len()]);
        }
    }
}

/// A fourteen-character marker ending in `=` cannot occur in the
/// concatenation: every `=` of it is either preceded by a character other
/// than the marker's `s`, or stands where the `p` of `past` contradicts the
/// marker's `c`.
#[verifier::rlimit(100)]
proof fn lemma_no_marker_split(
    head: Seq<char>,
    latt: Seq<char>,
    lat3: Seq<char>,
    lont: Seq<char>,
    lon3: Seq<char>,
    amp: Seq<char>,
    lev: Seq<char>,
    flags: Seq<char>,
    pp: Seq<char>,
    t: Seq<char>,
)
    requires
        t.len() == 14,
        t[4] == 'c',
        t[12] == 's',
        t[13] == '=',
        head.len() == 38,
        eq_free(head),
        latt.len() == 10,
        latt[8] == 'e',
        forall|u: int| 0 <= u < 10 && #[trigger] latt[u] == '=' ==> u == 9,
        eq_free(lat3),
        lont.len() == 21,
        lont[19] == 'e',
        forall|u: int| 0 <= u < 21 && #[trigger] lont[u] == '=' ==> u == 20,
        eq_free(lon3),
        amp.len() == 1,
        eq_free(amp),
        forall|u: int| 0 <= u < lev.len() && #[trigger] lev[u] == '=' ==> u == 6,
        lev.len() > 0 ==> lev[5] == 'y',
        eq_free(flags),
        forall|u: int| 0 <= u < pp.len() && #[trigger] pp[u] == '=' ==> u == 10,
        pp.len() > 0 ==> pp.len() >= 12 && pp[1] == 'p',
    ensures
        !contains_sub(head + latt + lat3 + lont + lon3 + amp + lev + flags + pp, t),
{
    let p2 = head + latt;
    let p3 = p2 + lat3;
    let p4 = p3 + lont;
    let p5 = p4 + lon3;
    let p6 = p5 + amp;
    let p7 = p6 + lev;
    let p8 = p7 + flags;
    let s = p8 + pp;
    if contains_sub(s, t) {
        let k = choose|i: int|
            0 <= i && i + t.len() <= s.len() && #[trigger] s.subrange(i, i + t.len()) == t;
        assert(s.subrange(k, k + 14) == t);
        assert(s[k + 13] == t[13]) by {
            assert(s.subrange(k, k + 14)[13] == t[13]);
        }
        assert(s[k + 12] == t[12]) by {
            assert(s.subrange(k, k + 14)[12] == t[12]);
        }
        assert(s[k + 4] == t[4]) by {
            assert(s.subrange(k, k + 14)[4] == t[4]);
        }
        let j = k + 13;
        assert(s[j] == '=');
        if j < 38 {
            assert(s[j] == head[j]);
            assert(false);
        } else if j < 48 {
            assert(s[j] == latt[j - 38]);
            assert(j == 47);
            assert(s[46] == latt[8]);
            assert(false);
        } else if j < p3.len() {
            assert(s[j] == lat3[j - 48]);
            assert(false);
        } else if j < p4.len() {
            assert(s[j] == lont[j - p3.len()]);
            assert(j - p3.len() == 20);
            assert(s[j - 1] == lont[19]);
            assert(false);
        } else if j < p5.len() {
            assert(s[j] == lon3[j - p4.len()]);
            assert(false);
        } else if j < p6.len() {
            assert(s[j] == amp[j - p5.len()]);
            assert(false);
        } else if j < p7.len() {
            assert(s[j] == lev[j - p6.len()]);
            assert(j - p6.len() == 6);
            assert(s[j - 1] == lev[5]);
            assert(false);
        } else if j < p8.len() {
            assert(s[j] == flags[j - p7.len()]);
            assert(false);
        } else {
            assert(s[j] == pp[j - p8.len()]);
            assert(j - p8.len() == 10);
            assert(s[k + 4] == pp[1]);
            assert(false);
        }
    }
}

/// Gathering the nine flag tokens into one segment, and dropping an empty
/// segment, leaves a concatenation unchanged.
proof fn lemma_regroup(
    head: Seq<char>,
    latt: Seq<char>,
    lat3: Seq<char>,
    lont: Seq<char>,
    lon3: Seq<char>,
    amp: Seq<char>,
    lev: Seq<char>,
    f1: Seq<char>,
    f2: Seq<char>,
    f3: Seq<char>,
    f4: Seq<char>,
    f5: Seq<char>,
    f6: Seq<char>,
    f7: Seq<char>,
    f8: Seq<char>,
    f9: Seq<char>,
    fp: Seq<char>,
    pp: Seq<char>,
)
    requires
        fp.len() == 0,
    ensures
        head + latt + lat3 + lont + lon3 + amp + lev + f1 + f2 + f3 + f4 + f5 + f6 + f7 + f8 + f9
            + fp + pp == head + latt + lat3 + lont + lon3 + amp + lev + (f1 + f2 + f3 + f4 + f5
            + f6 + f7 + f8 + f9) + pp,
{
    assert(head + latt + lat3 + lont + lon3 + amp + lev + f1 + f2 + f3 + f4 + f5 + f6 + f7 + f8
        + f9 + fp + pp =~= head + latt + lat3 + lont + lon3 + amp + lev + (f1 + f2 + f3 + f4 + f5
        + f6 + f7 + f8 + f9) + pp);
}

/// With no forecast-day range, nothing in the rendered URL spells the
/// forecast-days parameter.
#[verifier::rlimit(100)]
proof fn lemma_marker_absent(c: UrlConfig, lat3: Seq<char>, lon3: Seq<char>)
    requires
        c.forecast_days == 0,
        lat3 == fixed3_of(c.latitude@),
        lon3 == fixed3_of(c.longitude@),
        forall|i: int| 0 <= i < lat3.len() ==> lat3[i] != '=',
        forall|i: int| 0 <= i < lon3.len() ==> lon3[i] != '=',
    ensures
        !contains_sub(url_of(c), "forecast_days="@),
{
    lemma_marker_chars();
    lemma_base_chars();
    lemma_lat_template_chars();
    lemma_lon_template_chars();
    lemma_level_chars(c.hourly_temp_gnd_level);
    lemma_flag_chars();
    lemma_past_param_chars(c.past_days);
    let t = "forecast_days="@;
    let head = "https://api.open-meteo.com/v1/forecast"@;
    let latt = "?latitude="@;
    let lont = "&longitude&longitude="@;
    let amp = "&"@;
    let lev = level_fragment(c.hourly_temp_gnd_level);
    let f1 = if c.relative_humidity_2m { ",relative_humidity_2m"@ } else { ""@ };
    let f2 = if c.apparent_temperature { ",apparent_temperature"@ } else { ""@ };
    let f3 = if c.precipitation_probability { ",precipitation_probability"@ } else { ""@ };
    let f4 = if c.precipitation { ",precipitation"@ } else { ""@ };
    let f5 = if c.rain { ",rain"@ } else { ""@ };
    let f6 = if c.showers { ",showers"@ } else { ""@ };
    let f7 = if c.snowfall { ",snowfall"@ } else { ""@ };
    let f8 = if c.weather_code { ",weather_code"@ } else { ""@ };
    let f9 = if c.visibility { ",visibility"@ } else { ""@ };
    let pp = past_days_param(c.past_days);
    let g2 = f1 + f2;
    let g3 = g2 + f3;
    let g4 = g3 + f4;
    let g5 = g4 + f5;
    let g6 = g5 + f6;
    let g7 = g6 + f7;
    let g8 = g7 + f8;
    let flags = g8 + f9;
    lemma_concat_eq_free(f1, f2);
    lemma_concat_eq_free(g2, f3);
    lemma_concat_eq_free(g3, f4);
    lemma_concat_eq_free(g4, f5);
    lemma_concat_eq_free(g5, f6);
    lemma_concat_eq_free(g6, f7);
    lemma_concat_eq_free(g7, f8);
    lemma_concat_eq_free(g8, f9);
    lemma_no_marker_split(head, latt, lat3, lont, lon3, amp, lev, flags, pp, t);
    lemma_regroup(
        head,
        latt,
        lat3,
        lont,
        lon3,
        amp,
        lev,
        f1,
        f2,
        f3,
        f4,
        f5,
        f6,
        f7,
        f8,
        f9,
        forecast_days_param(c.forecast_days),
        pp,
    );
    assert(url_of(c) == head + latt + lat3 + lont + lon3 + amp + lev + flags + pp);
}

/// An active forecast-day range always stands in the rendered URL as its own
/// parameter, directly after the head.
pub proof fn lemma_forecast_days_rendered(c: UrlConfig)
    requires
        c.forecast_days != 0,
    ensures
        contains_sub(url_of(c), "&forecast_days="@ + dec_str(c.forecast_days as nat)),
{
    let t = "&forecast_days="@ + dec_str(c.forecast_days as nat);
    let head = url_head(c);
    let tail = past_days_param(c.past_days);
    let all = url_of(c);
    let i = head.len() as int;
    assert(all == head + t + tail);
    assert(all.subrange(i, i + t.len()) =~= t);
    assert(0 <= i && i + t.len() <= all.len() && all.subrange(i, i + t.len()) == t);
}

/// A forecast-day range of five renders as the very characters
/// `&forecast_days=5`.
pub proof fn lemma_forecast_days_five(c: UrlConfig)
    requires
        c.forecast_days == 5,
    ensures
        contains_sub(url_of(c), "&forecast_days=5"@),
{
    lemma_forecast_days_rendered(c);
    assert(dec_str(5) =~= seq!['5']);
    reveal_strlit("&forecast_days=");
    reveal_strlit("&forecast_days=5");
    assert("&forecast_days="@ + dec_str(5) =~= "&forecast_days=5"@);
}

} // verus!
