use provider_runtime::config::{ProviderKind, ThreadingType, WeatherProviderConfig};
use provider_runtime::errors::RefreshError;
use provider_runtime::geo::Coordinates;
use provider_runtime::outputs::ProviderOutput;
use provider_runtime::weather::{
    celsius_to_fahrenheit, get_weather_status, WeatherProvider, WeatherReading, WeatherStatus,
};

#[test]
fn clear_day_and_night() {
    assert_eq!(get_weather_status(0, true), WeatherStatus::ClearDay);
    assert_eq!(get_weather_status(0, false), WeatherStatus::ClearNight);
}

#[test]
fn heavy_rain_at_sixty_five() {
    assert_eq!(get_weather_status(65, true), WeatherStatus::HeavyRainDay);
}

#[test]
fn thunder_at_ninety_six() {
    assert_eq!(get_weather_status(96, false), WeatherStatus::ThunderNight);
}

#[test]
fn band_edges() {
    assert_eq!(get_weather_status(1, true), WeatherStatus::CloudyDay);
    assert_eq!(get_weather_status(50, false), WeatherStatus::CloudyNight);
    assert_eq!(get_weather_status(51, true), WeatherStatus::LightRainDay);
    assert_eq!(get_weather_status(62, false), WeatherStatus::LightRainNight);
    assert_eq!(get_weather_status(63, true), WeatherStatus::HeavyRainDay);
    assert_eq!(get_weather_status(70, false), WeatherStatus::HeavyRainNight);
    assert_eq!(get_weather_status(71, true), WeatherStatus::SnowDay);
    assert_eq!(get_weather_status(79, false), WeatherStatus::SnowNight);
    assert_eq!(get_weather_status(80, true), WeatherStatus::HeavyRainDay);
    assert_eq!(get_weather_status(84, false), WeatherStatus::HeavyRainNight);
    assert_eq!(get_weather_status(85, true), WeatherStatus::SnowDay);
    assert_eq!(get_weather_status(94, false), WeatherStatus::SnowNight);
    assert_eq!(get_weather_status(95, true), WeatherStatus::ThunderDay);
    assert_eq!(get_weather_status(u32::MAX, false), WeatherStatus::ThunderNight);
}

#[test]
fn fahrenheit_conversion_exact() {
    // 0 C = 32 F, 25 C = 77 F, 100 C = 212 F, -40 C = -40 F.
    assert_eq!(celsius_to_fahrenheit(0), 3200);
    assert_eq!(celsius_to_fahrenheit(2500), 7700);
    assert_eq!(celsius_to_fahrenheit(10_000), 21_200);
    assert_eq!(celsius_to_fahrenheit(-4000), -4000);
}

#[test]
fn fahrenheit_conversion_rounds_down() {
    // -0.01 C is 31.982 F, which rounds toward negative infinity.
    assert_eq!(celsius_to_fahrenheit(-1), 3198);
    // 0.01 C is 32.018 F.
    assert_eq!(celsius_to_fahrenheit(1), 3201);
}

#[test]
fn weather_provider_is_async() {
    let provider = WeatherProvider::new(WeatherProviderConfig {
        refresh_interval: 3_600_000,
        latitude: Some(48_856_600),
        longitude: Some(2_352_200),
    });
    assert_eq!(provider.runtime_type(), ThreadingType::Async);
    assert_eq!(provider.refresh_interval_ms(), 3_600_000);
    assert_eq!(ProviderKind::Weather.threading_type(), ThreadingType::Async);
}

#[test]
fn configured_coordinates_win() {
    let provider = WeatherProvider::new(WeatherProviderConfig {
        refresh_interval: 1000,
        latitude: Some(48_856_600),
        longitude: Some(2_352_200),
    });
    assert!(!provider.needs_ip_lookup());
    let resolved = Some(Coordinates { latitude_micro: 1, longitude_micro: 2 });
    assert_eq!(
        provider.effective_coordinates(resolved),
        Ok(Coordinates { latitude_micro: 48_856_600, longitude_micro: 2_352_200 })
    );
}

#[test]
fn missing_coordinates_fall_back_to_ip() {
    let provider = WeatherProvider::new(WeatherProviderConfig {
        refresh_interval: 1000,
        latitude: Some(48_856_600),
        longitude: None,
    });
    assert!(provider.needs_ip_lookup());
    let resolved = Some(Coordinates { latitude_micro: 1, longitude_micro: 2 });
    assert_eq!(
        provider.effective_coordinates(resolved),
        Ok(Coordinates { latitude_micro: 1, longitude_micro: 2 })
    );
    assert_eq!(
        provider.effective_coordinates(None),
        Err(RefreshError::Unavailable)
    );
}

#[test]
fn run_interval_builds_weather_output() {
    let provider = WeatherProvider::new(WeatherProviderConfig {
        refresh_interval: 1000,
        latitude: Some(0),
        longitude: Some(0),
    });
    let reading = WeatherReading {
        weather_code: 0,
        is_day: 1,
        temperature: 2500,
        wind_speed: 1234,
    };
    match provider.run_interval(reading) {
        ProviderOutput::Weather(w) => {
            assert!(w.is_daytime);
            assert_eq!(w.status, WeatherStatus::ClearDay);
            assert_eq!(w.celsius_temp, 2500);
            assert_eq!(w.fahrenheit_temp, 7700);
            assert_eq!(w.wind_speed, 1234);
        }
        other => panic!("expected a weather output, got {:?}", other),
    }
}

#[test]
fn run_interval_night_classification() {
    let provider = WeatherProvider::new(WeatherProviderConfig {
        refresh_interval: 1000,
        latitude: Some(0),
        longitude: Some(0),
    });
    let reading = WeatherReading {
        weather_code: 96,
        is_day: 0,
        temperature: -500,
        wind_speed: 0,
    };
    match provider.run_interval(reading) {
        ProviderOutput::Weather(w) => {
            assert!(!w.is_daytime);
            assert_eq!(w.status, WeatherStatus::ThunderNight);
            assert_eq!(w.celsius_temp, -500);
            assert_eq!(w.fahrenheit_temp, 2300);
        }
        other => panic!("expected a weather output, got {:?}", other),
    }
}
