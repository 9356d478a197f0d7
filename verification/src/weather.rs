//! Weather refresh logic: classifying a numeric weather code into a
//! day/night-aware status category, and temperature unit conversion over
//! centi-degree fixed-point values.

use vstd::prelude::*;

use crate::config::{ProviderKind, ThreadingType, WeatherProviderConfig};
use crate::errors::RefreshError;
use crate::geo::Coordinates;
use crate::outputs::{ProviderOutput, WeatherOutput};

verus! {

/// Day/night-aware weather status category, derived from a numeric weather
/// code together with a daytime flag.
#[derive(Clone, Copy, Debug, PartialEq, Eq, Structural)]
pub enum WeatherStatus {
    ClearDay,
    ClearNight,
    CloudyDay,
    CloudyNight,
    LightRainDay,
    LightRainNight,
    HeavyRainDay,
    HeavyRainNight,
    SnowDay,
    SnowNight,
    ThunderDay,
    ThunderNight,
}

/// The banded mapping from a weather code and a daytime flag to a status
/// category: code 0 is clear, 1-50 cloudy, 51-62 light rain, 63-70 heavy
/// rain, 71-79 snow, 80-84 heavy rain, 85-94 snow, and 95 upward thunder,
/// each split into a day and a night variant.
pub open spec fn weather_status_of(code: u32, is_daytime: bool) -> WeatherStatus {
    if code == 0 {
        if is_daytime { WeatherStatus::ClearDay } else { WeatherStatus::ClearNight }
    } else if code <= 50 {
        if is_daytime { WeatherStatus::CloudyDay } else { WeatherStatus::CloudyNight }
    } else if code <= 62 {
        if is_daytime { WeatherStatus::LightRainDay } else { WeatherStatus::LightRainNight }
    } else if code <= 70 {
        if is_daytime { WeatherStatus::HeavyRainDay } else { WeatherStatus::HeavyRainNight }
    } else if code <= 79 {
        if is_daytime { WeatherStatus::SnowDay } else { WeatherStatus::SnowNight }
    } else if code <= 84 {
        if is_daytime { WeatherStatus::HeavyRainDay } else { WeatherStatus::HeavyRainNight }
    } else if code <= 94 {
        if is_daytime { WeatherStatus::SnowDay } else { WeatherStatus::SnowNight }
    } else {
        if is_daytime { WeatherStatus::ThunderDay } else { WeatherStatus::ThunderNight }
    }
}

/// Classifies a numeric weather code plus day/night flag into a status
/// category, following the banded mapping of `weather_status_of`.
pub fn get_weather_status(code: u32, is_daytime: bool) -> (status: WeatherStatus)
    ensures
        status == weather_status_of(code, is_daytime),
{
    match code {
        0 => match is_daytime {
            true => WeatherStatus::ClearDay,
            false => WeatherStatus::ClearNight,
        },
        1..=50 => match is_daytime {
            true => WeatherStatus::CloudyDay,
            false => WeatherStatus::CloudyNight,
        },
        51..=62 => match is_daytime {
            true => WeatherStatus::LightRainDay,
            false => WeatherStatus::LightRainNight,
        },
        63..=70 => match is_daytime {
            true => WeatherStatus::HeavyRainDay,
            false => WeatherStatus::HeavyRainNight,
        },
        71..=79 => match is_daytime {
            true => WeatherStatus::SnowDay,
            false => WeatherStatus::SnowNight,
        },
        80..=84 => match is_daytime {
            true => WeatherStatus::HeavyRainDay,
            false => WeatherStatus::HeavyRainNight,
        },
        85..=94 => match is_daytime {
            true => WeatherStatus::SnowDay,
            false => WeatherStatus::SnowNight,
        },
        _ => match is_daytime {
            true => WeatherStatus::ThunderDay,
            false => WeatherStatus::ThunderNight,
        },
    }
}

/// Conversion from centi-degrees Celsius to centi-degrees Fahrenheit,
/// rounding toward negative infinity: f = (9 * c) / 5 + 32, scaled by 100.
pub open spec fn fahrenheit_centi_of(celsius_centi: int) -> int {
    (celsius_centi * 9) / 5 + 3200
}

/// Converts a temperature in centi-degrees Celsius to centi-degrees
/// Fahrenheit.
pub fn celsius_to_fahrenheit(celsius_centi: i32) -> (fahrenheit_centi: i64)
    ensures
        fahrenheit_centi == fahrenheit_centi_of(celsius_centi as int),
{
    if celsius_centi >= 0 {
        let scaled: u64 = (celsius_centi as u64) * 9;
        (scaled / 5) as i64 + 3200
    } else {
        let magnitude: u64 = (-(celsius_centi as i64)) as u64;
        let scaled: u64 = magnitude * 9;
        let quotient: i64 = ((scaled + 4) / 5) as i64;
        proof {
            lemma_floor_div_neg((-(celsius_centi as int)) * 9);
        }
        3200 - quotient
    }
}

/// For any `a`, dividing by 5 rounds toward negative infinity, so the
/// quotient of `-a` is the negated rounded-up quotient of `a`.
proof fn lemma_floor_div_neg(a: int)
    requires
        a >= 0,
    ensures
        (-a) / 5 == -((a + 4) / 5),
{
    assert((-a) / 5 == -((a + 4) / 5)) by (nonlinear_arith)
        requires a >= 0;
}

/// The current-weather fields of one already-fetched forecast response:
/// the numeric weather code, the day flag (one for daytime), the
/// temperature in centi-degrees Celsius, and the wind speed in
/// centi-units.
#[derive(Debug, Clone, Copy, PartialEq, Eq, Structural)]
pub struct WeatherReading {
    pub weather_code: u32,
    pub is_day: u8,
    pub temperature: i32,
    pub wind_speed: i64,
}

/// A weather provider instance, spawned from its configuration.
#[derive(Debug, Clone, Copy)]
pub struct WeatherProvider {
    pub config: WeatherProviderConfig,
}

impl WeatherProvider {
    /// Creates a weather provider from its configuration.
    pub fn new(config: WeatherProviderConfig) -> (p: WeatherProvider)
        ensures
            p.config == config,
    {
        WeatherProvider { config }
    }

    /// The runtime model of this kind: a cooperatively scheduled task.
    pub fn runtime_type(&self) -> (t: ThreadingType)
        ensures
            t == ProviderKind::Weather.spec_threading_type(),
    {
        ThreadingType::Async
    }

    /// The configured refresh period in milliseconds.
    pub fn refresh_interval_ms(&self) -> (ms: u64)
        ensures
            ms == self.config.refresh_interval,
    {
        self.config.refresh_interval
    }

    /// Whether a refresh must first resolve coordinates through the IP
    /// geolocation lookup: the case whenever the configuration does not
    /// fix both of them.
    pub fn needs_ip_lookup(&self) -> (b: bool)
        ensures
            b == !(self.config.latitude is Some && self.config.longitude is Some),
    {
        !(self.config.latitude.is_some() && self.config.longitude.is_some())
    }

    /// The coordinates one refresh uses: the configured pair when both
    /// are fixed, otherwise the pair resolved by the IP lookup; when
    /// neither is available, the refresh fails as unavailable and the
    /// previous output stands.
    pub fn effective_coordinates(&self, resolved: Option<Coordinates>) -> (r: Result<
        Coordinates,
        RefreshError,
    >)
        ensures
            (match (self.config.latitude, self.config.longitude) {
                (Some(lat), Some(lon)) => r == Ok::<Coordinates, RefreshError>(
                    Coordinates { latitude_micro: lat, longitude_micro: lon },
                ),
                _ => (match resolved {
                    Some(c) => r == Ok::<Coordinates, RefreshError>(c),
                    None => r == Err::<Coordinates, RefreshError>(RefreshError::Unavailable),
                }),
            }),
    {
        match (self.config.latitude, self.config.longitude) {
            (Some(lat), Some(lon)) => Ok(Coordinates { latitude_micro: lat, longitude_micro: lon }),
            _ => match resolved {
                Some(c) => Ok(c),
                None => Err(RefreshError::Unavailable),
            },
        }
    }

    /// Evaluates one already-fetched forecast response: classifies the
    /// weather code with the day/night flag into a status category and
    /// derives the Fahrenheit temperature from the Celsius one.
    pub fn run_interval(&self, reading: WeatherReading) -> (out: ProviderOutput)
        ensures
            (match out@ {
                crate::outputs::ProviderOutputView::Weather(w) => {
                    &&& w.is_daytime == (reading.is_day == 1)
                    &&& w.status == weather_status_of(reading.weather_code, reading.is_day == 1)
                    &&& w.celsius_temp == reading.temperature
                    &&& w.fahrenheit_temp == fahrenheit_centi_of(reading.temperature as int)
                    &&& w.wind_speed == reading.wind_speed
                },
                _ => false,
            }),
    {
        let is_daytime = reading.is_day == 1;
        ProviderOutput::Weather(
            WeatherOutput {
                is_daytime,
                status: get_weather_status(reading.weather_code, is_daytime),
                celsius_temp: reading.temperature,
                fahrenheit_temp: celsius_to_fahrenheit(reading.temperature),
                wind_speed: reading.wind_speed,
            },
        )
    }
}

} // verus!
