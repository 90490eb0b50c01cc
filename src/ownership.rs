//! Passing strings by value and by reference: the name of a spatial
//! reference and the well-known id that it stands for.
use vstd::prelude::*;
use vstd::string::*;

verus! {

/// The well-known id of the WGS 84 geodetic system.
pub const WGS84_WKID: i32 = 4326;

/// The id that a spatial reference name stands for: `WGS84_WKID` for
/// `"WGS84"`, 0 for any other name.
pub open spec fn wkid_of_name(name: Seq<char>) -> i32 {
    if name == "WGS84"@ {
        WGS84_WKID
    } else {
        0
    }
}

/// Hands a freshly made name, `"WGS84"`, to the caller.
pub fn gives_ownership() -> (r: String)
    ensures
        r@ == "WGS84"@,
{
    let spatial_reference_name = String::from_str("WGS84");
    spatial_reference_name
}

/// Takes a name and hands the same name back.
pub fn takes_and_gives_back(spatial_reference_name: String) -> (r: String)
    ensures
        r == spatial_reference_name,
{
    spatial_reference_name
}

/// The id of the borrowed name, which stays with its owner.
pub fn use_borrowed(spatial_reference_name: &String) -> (r: i32)
    ensures
        r == wkid_of_name(spatial_reference_name@),
{
    let wgs84 = String::from_str("WGS84");
    if *spatial_reference_name == wgs84 {
        WGS84_WKID
    } else {
        0
    }
}

/// The id of the borrowed name; an empty name is first filled in as
/// `"WGS84"`. Any other name is left as it was.
pub fn change_borrowed(spatial_reference_name: &mut String) -> (r: i32)
    ensures
        old(spatial_reference_name)@.len() == 0 ==> final(spatial_reference_name)@ == "WGS84"@,
        old(spatial_reference_name)@.len() != 0 ==> final(spatial_reference_name)@ == old(
            spatial_reference_name,
        )@,
        r == wkid_of_name(final(spatial_reference_name)@),
{
    let wgs84 = String::from_str("WGS84");
    if *spatial_reference_name == wgs84 {
        WGS84_WKID
    } else if spatial_reference_name.as_str().unicode_len() == 0 {
        spatial_reference_name.append("WGS84");
        proof {
            assert(final(spatial_reference_name)@ =~= "WGS84"@);
        }
        WGS84_WKID
    } else {
        0
    }
}

/// Borrows `"WGS84"` to read its id, then lends an empty name to be filled
/// in and read; returns the two ids, in that order.
pub fn references_and_borrowing() -> (r: (i32, i32))
    ensures
        r == (WGS84_WKID, WGS84_WKID),
{
    let spatial_reference_name = String::from_str("WGS84");
    let wkid = use_borrowed(&spatial_reference_name);
    let mut empty_name = String::new();
    let changed_wkid = change_borrowed(&mut empty_name);
    (wkid, changed_wkid)
}

} // verus!
