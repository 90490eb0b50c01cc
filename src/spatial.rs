//! Spatial references, and the well-known ones among them.
use crate::ownership::WGS84_WKID;
use vstd::prelude::*;
use vstd::string::*;

verus! {

/// A named spatial reference with its well-known id.
#[derive(Debug)]
pub struct SpatialReference {
    pub name: String,
    pub wkid: i32,
}

impl SpatialReference {
    /// The WGS 84 geodetic system: named `"WGS84"`, with id 4326.
    pub fn create_wgs84() -> (r: SpatialReference)
        ensures
            r.name@ == "WGS84"@,
            r.wkid == WGS84_WKID,
    {
        SpatialReference { name: String::from_str("WGS84"), wkid: WGS84_WKID }
    }
}

/// A spatial reference that is known by name.
#[derive(Debug)]
pub enum WellKnownSpatialReference {
    Unknown,
    WGS84(SpatialReference),
    WebMercator(String),
}

impl WellKnownSpatialReference {
    /// The id of the spatial reference it carries, where it carries one.
    pub fn wkid(&self) -> (r: Option<i32>)
        ensures
            r == (match self {
                WellKnownSpatialReference::WGS84(spatial_reference) => Some(spatial_reference.wkid),
                _ => None,
            }),
    {
        match self {
            WellKnownSpatialReference::WGS84(spatial_reference) => Some(spatial_reference.wkid),
            _ => None,
        }
    }

    /// Whether it carries a spatial reference with an id.
    pub fn has_wkid(&self) -> (r: bool)
        ensures
            r == self is WGS84,
    {
        match self {
            WellKnownSpatialReference::WGS84(_) => true,
            _ => false,
        }
    }
}

/// The three kinds of well-known reference, in this order: WGS 84 with its
/// spatial reference, Web Mercator known by its name alone, and an unknown one.
pub fn defining_an_enum() -> (r: Vec<WellKnownSpatialReference>)
    ensures
        r@.len() == 3,
        r@[0] is WGS84,
        r@[0]->WGS84_0.name@ == "WGS84"@,
        r@[0]->WGS84_0.wkid == WGS84_WKID,
        r@[1] is WebMercator,
        r@[1]->WebMercator_0@ == "WebMercator"@,
        r@[2] is Unknown,
{
    let wgs84 = SpatialReference::create_wgs84();
    let world_geodetic_system = WellKnownSpatialReference::WGS84(wgs84);
    let web_mercator_system = WellKnownSpatialReference::WebMercator(
        String::from_str("WebMercator"),
    );
    let pumuckl = WellKnownSpatialReference::Unknown;
    let mut r: Vec<WellKnownSpatialReference> = Vec::new();
    r.push(world_geodetic_system);
    r.push(web_mercator_system);
    r.push(pumuckl);
    r
}

} // verus!
