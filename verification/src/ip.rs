//! The IP geolocation provider: evaluates the fields of a fetched
//! geolocation lookup response into the typed IP output, parsing the
//! comma-separated `"lat,long"` location field.

use vstd::prelude::*;

use crate::config::{IpProviderConfig, ProviderKind, ThreadingType};
use crate::errors::RefreshError;
use crate::geo::{loc_lat_micro, loc_lon_micro, loc_valid, parse_coordinates};
use crate::outputs::{IpOutput, ProviderOutput, ProviderOutputView};

verus! {

/// The fields of one geolocation lookup response, as fetched from the
/// network: the address, the approximate city and country, and the raw
/// `"lat,long"` location bytes.
#[derive(Debug, Clone)]
pub struct IpProbe {
    pub ip: String,
    pub city: String,
    pub country: String,
    pub loc: Vec<u8>,
}

/// Mathematical view of `IpProbe`.
pub struct IpProbeView {
    pub ip: Seq<char>,
    pub city: Seq<char>,
    pub country: Seq<char>,
    pub loc: Seq<u8>,
}

impl View for IpProbe {
    type V = IpProbeView;

    open spec fn view(&self) -> IpProbeView {
        IpProbeView { ip: self.ip@, city: self.city@, country: self.country@, loc: self.loc@ }
    }
}

/// An IP provider instance, spawned from its configuration.
#[derive(Debug, Clone, Copy)]
pub struct IpProvider {
    pub config: IpProviderConfig,
}

impl IpProvider {
    /// Creates an IP provider from its configuration.
    pub fn new(config: IpProviderConfig) -> (p: IpProvider)
        ensures
            p.config == config,
    {
        IpProvider { config }
    }

    /// The runtime model of this kind: a cooperatively scheduled task.
    pub fn runtime_type(&self) -> (t: ThreadingType)
        ensures
            t == ProviderKind::Ip.spec_threading_type(),
    {
        ThreadingType::Async
    }

    /// The configured refresh period in milliseconds.
    pub fn refresh_interval_ms(&self) -> (ms: u64)
        ensures
            ms == self.config.refresh_interval,
    {
        self.config.refresh_interval
    }

    /// Evaluates one already-fetched geolocation lookup response. The
    /// address, city and country are carried over; the location field
    /// must parse as a pair of decimal coordinates, else the refresh
    /// fails with `MalformedCoordinates` and the previous output stands.
    pub fn query_ip(probe: IpProbe) -> (r: Result<ProviderOutput, RefreshError>)
        ensures
            r is Ok <==> loc_valid(probe@.loc),
            (match r {
                Ok(out) => match out@ {
                    ProviderOutputView::Ip(o) => {
                        &&& o.address == probe@.ip
                        &&& o.approx_city == probe@.city
                        &&& o.approx_country == probe@.country
                        &&& o.approx_latitude == loc_lat_micro(probe@.loc)
                        &&& o.approx_longitude == loc_lon_micro(probe@.loc)
                    },
                    _ => false,
                },
                Err(e) => e == RefreshError::MalformedCoordinates,
            }),
    {
        let coords = parse_coordinates(probe.loc.as_slice())?;
        Ok(
            ProviderOutput::Ip(
                IpOutput {
                    address: probe.ip,
                    approx_city: probe.city,
                    approx_country: probe.country,
                    approx_latitude: coords.latitude_micro,
                    approx_longitude: coords.longitude_micro,
                },
            ),
        )
    }
}

} // verus!
