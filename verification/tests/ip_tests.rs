use provider_runtime::config::{IpProviderConfig, ThreadingType};
use provider_runtime::errors::RefreshError;
use provider_runtime::ip::{IpProbe, IpProvider};
use provider_runtime::outputs::ProviderOutput;

fn probe(loc: &str) -> IpProbe {
    IpProbe {
        ip: "203.0.113.7".to_string(),
        city: "Paris".to_string(),
        country: "FR".to_string(),
        loc: loc.as_bytes().to_vec(),
    }
}

#[test]
fn query_ip_parses_the_location_field() {
    let provider = IpProvider::new(IpProviderConfig { refresh_interval: 3_600_000 });
    assert_eq!(provider.runtime_type(), ThreadingType::Async);
    assert_eq!(provider.refresh_interval_ms(), 3_600_000);
    match IpProvider::query_ip(probe("48.8566,2.3522")) {
        Ok(ProviderOutput::Ip(output)) => {
            assert_eq!(output.address, "203.0.113.7");
            assert_eq!(output.approx_city, "Paris");
            assert_eq!(output.approx_country, "FR");
            assert_eq!(output.approx_latitude, 48_856_600);
            assert_eq!(output.approx_longitude, 2_352_200);
        }
        other => panic!("expected an ip output, got {:?}", other),
    }
}

#[test]
fn malformed_location_is_a_refresh_error() {
    match IpProvider::query_ip(probe("invalid")) {
        Err(RefreshError::MalformedCoordinates) => {}
        other => panic!("expected a malformed-coordinates error, got {:?}", other),
    }
}

#[test]
fn southern_western_hemisphere() {
    match IpProvider::query_ip(probe("-33.8688,-151.2093")) {
        Ok(ProviderOutput::Ip(output)) => {
            assert_eq!(output.approx_latitude, -33_868_800);
            assert_eq!(output.approx_longitude, -151_209_300);
        }
        other => panic!("expected an ip output, got {:?}", other),
    }
}
