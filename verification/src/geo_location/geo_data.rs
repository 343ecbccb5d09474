use vstd::prelude::*;

use crate::coordinate::{parses_as_float, Coordinate};

verus! {

/// Relies on `ipgeolocate::GeoError` being a plain enum of message strings;
/// declared so that the provider's error can be carried through unchanged.
#[verifier::external_type_specification]
#[verifier::external_body]
pub struct ExGeoError(ipgeolocate::GeoError);

/// Relies on `postcode::Error` being a plain enum of message strings;
/// declared so that the lookup's error can be forwarded verbatim.
#[verifier::external_type_specification]
#[verifier::external_body]
pub struct ExPostcodeError(postcode::Error);

/// Everything that can go wrong while resolving a location.
#[derive(Debug)]
pub enum GeoLocationError {
    CannotParseIP,
    CannotAcquireLocation(String),
    CannotParseFromPostCode(postcode::Error),
    GeolocationError(ipgeolocate::GeoError),
    ParseError(String, String),
    Unknown,
}

/// What the geolocation provider reports for an address: both coordinates as
/// text, plus the region name.
#[derive(Debug)]
pub struct ProviderResponse {
    pub latitude: String,
    pub longitude: String,
    pub region: String,
}

/// What the postal-code lookup reports: resolved coordinates and the region.
#[derive(Debug)]
pub struct PostalResponse {
    pub latitude: Coordinate,
    pub longitude: Coordinate,
    pub region: String,
}

/// Resolved coordinates together with their provenance.
#[derive(Debug)]
pub struct GeoLocationData {
    pub latitude: Coordinate,
    pub longitude: Coordinate,
    pub ip_address: String,
    pub postal_code: String,
    pub region: String,
}

impl GeoLocationData {
    /// Creates a new [`GeoLocationData`].
    pub fn new(
        latitude: Coordinate,
        longitude: Coordinate,
        ip_address: String,
        postal_code: String,
        region: String,
    ) -> (r: GeoLocationData)
        ensures
            r.latitude == latitude,
            r.longitude == longitude,
            r.ip_address == ip_address,
            r.postal_code == postal_code,
            r.region == region,
    {
        Self { latitude, longitude, ip_address, postal_code, region }
    }

    pub fn with_latitude(self, latitude: Coordinate) -> (r: GeoLocationData)
        ensures
            r.latitude == latitude,
            r.longitude == self.longitude,
            r.ip_address == self.ip_address,
            r.postal_code == self.postal_code,
            r.region == self.region,
    {
        GeoLocationData { latitude, ..self }
    }

    pub fn with_longitude(self, longitude: Coordinate) -> (r: GeoLocationData)
        ensures
            r.latitude == self.latitude,
            r.longitude == longitude,
            r.ip_address == self.ip_address,
            r.postal_code == self.postal_code,
            r.region == self.region,
    {
        GeoLocationData { longitude, ..self }
    }

    pub fn with_ip_address(self, ip_address: String) -> (r: GeoLocationData)
        ensures
            r.latitude == self.latitude,
            r.longitude == self.longitude,
            r.ip_address == ip_address,
            r.postal_code == self.postal_code,
            r.region == self.region,
    {
        GeoLocationData { ip_address, ..self }
    }

    pub fn with_postal_code(self, postal_code: String) -> (r: GeoLocationData)
        ensures
            r.latitude == self.latitude,
            r.longitude == self.longitude,
            r.ip_address == self.ip_address,
            r.postal_code == postal_code,
            r.region == self.region,
    {
        GeoLocationData { postal_code, ..self }
    }

    pub fn get_latitude(&self) -> (r: Coordinate)
        ensures
            r == self.latitude,
    {
        self.latitude.clone()
    }

    pub fn get_longitude(&self) -> (r: Coordinate)
        ensures
            r == self.longitude,
    {
        self.longitude.clone()
    }

    pub fn get_region(&self) -> (r: String)
        ensures
            r == self.region,
    {
        self.region.clone()
    }
}

impl Clone for GeoLocationData {
    /// The clone holds the same fields as the original.
    fn clone(&self) -> (r: Self)
        ensures
            r == *self,
    {
        GeoLocationData {
            latitude: self.latitude.clone(),
            longitude: self.longitude.clone(),
            ip_address: self.ip_address.clone(),
            postal_code: self.postal_code.clone(),
            region: self.region.clone(),
        }
    }
}

/// The first step of resolving by public address: an absent address is fatal
/// here, so the geolocation provider is consulted only for a present one.
pub fn address_for_geolocation(address: Option<String>) -> (r: Result<
    String,
    GeoLocationError,
>)
    ensures
        address is None ==> (r matches Err(e) && e is CannotParseIP),
        address matches Some(a) ==> (r matches Ok(s) && s == a),
{
    match address {
        Some(ip) => Ok(ip),
        None => Err(GeoLocationError::CannotParseIP),
    }
}

/// Turns the provider's report for `ip_address` into a location record.  A
/// provider failure is wrapped; a coordinate that does not parse as a float
/// is a parse error carrying the offending text; otherwise the record holds
/// both coordinates, the address, an empty postal code, and the region.
pub fn local_from_public_ip(
    ip_address: String,
    lookup: Result<ProviderResponse, ipgeolocate::GeoError>,
) -> (r: Result<GeoLocationData, GeoLocationError>)
    ensures
        lookup matches Err(e) ==> (r matches Err(ge) && ge matches
            GeoLocationError::GeolocationError(cause) && cause == e),
        lookup matches Ok(p) ==> {
            &&& !parses_as_float(p.latitude@) ==> (r matches Err(ge) && ge matches
                GeoLocationError::ParseError(raw, target) && raw@ == p.latitude@
                && target@ == "f64"@)
            &&& parses_as_float(p.latitude@) && !parses_as_float(p.longitude@) ==> (r matches Err(
                ge,
            ) && ge matches GeoLocationError::ParseError(raw, target) && raw@ == p.longitude@
                && target@ == "f64"@)
            &&& parses_as_float(p.latitude@) && parses_as_float(p.longitude@) ==> (r matches Ok(d)
                && d.latitude@ == p.latitude@ && d.longitude@ == p.longitude@ && d.ip_address
                == ip_address && d.postal_code@ == ""@ && d.region == p.region)
        },
{
    match lookup {
        Err(error) => Err(GeoLocationError::GeolocationError(error)),
        Ok(response) => {
            let ProviderResponse { latitude, longitude, region } = response;
            let latitude = match Coordinate::new(latitude) {
                Ok(c) => c,
                Err(raw) => {
                    return Err(GeoLocationError::ParseError(raw, "f64".to_owned()));
                },
            };
            let longitude = match Coordinate::new(longitude) {
                Ok(c) => c,
                Err(raw) => {
                    return Err(GeoLocationError::ParseError(raw, "f64".to_owned()));
                },
            };
            Ok(GeoLocationData::new(latitude, longitude, ip_address, "".to_owned(), region))
        },
    }
}

/// Turns the postal lookup's report for `postal_code` into a location record.
/// A lookup failure is forwarded verbatim; on success the record keeps the
/// looked-up coordinates and region, the postal code itself, and the public
/// address if one was found (its absence is not fatal here).
pub fn locate_from_postal_code(
    postal_code: String,
    lookup: Result<PostalResponse, postcode::Error>,
    public_address: Option<String>,
) -> (r: Result<GeoLocationData, postcode::Error>)
    ensures
        lookup matches Err(e) ==> (r matches Err(e2) && e2 == e),
        lookup matches Ok(p) ==> (r matches Ok(d) && d.latitude == p.latitude && d.longitude
            == p.longitude && d.postal_code == postal_code && d.region == p.region && (
        public_address matches Some(a) ==> d.ip_address == a) && (public_address is None
            ==> d.ip_address@ == ""@)),
{
    let ip_address = match public_address {
        Some(ip) => ip,
        None => "".to_owned(),
    };
    match lookup {
        Ok(found) => {
            let PostalResponse { latitude, longitude, region } = found;
            Ok(GeoLocationData::new(latitude, longitude, ip_address, postal_code, region))
        },
        Err(error) => Err(error),
    }
}

} // verus!
