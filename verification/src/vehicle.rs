use vstd::prelude::*;

verus! {

/// A vehicle record: who made it, which model, the model year, and the
/// identifier that the service gave it, if any.
pub struct Vehicle {
    pub manufacturer: String,
    pub model: String,
    pub year: u32,
    pub id: Option<String>,
}

/// `true` for a lower-case hexadecimal digit.
pub open spec fn is_lower_hex(c: char) -> bool {
    ('0' <= c <= '9') || ('a' <= c <= 'f')
}

/// `true` when `s` has the shape of a random (version 4) UUID in hyphenated
/// lower-case form, such as `67e55044-10b1-426f-9247-bb680e5fe0c8`: 36
/// characters, hyphens at 8, 13, 18 and 23, lower-case hexadecimal digits
/// elsewhere, the version digit `4` at 14 and a variant digit of `8`, `9`,
/// `a` or `b` at 19.
pub open spec fn is_v4_uuid_text(s: Seq<char>) -> bool {
    &&& s.len() == 36
    &&& forall|i: int|
        0 <= i < 36 ==> if i == 8 || i == 13 || i == 18 || i == 23 {
            s[i] == '-'
        } else {
            is_lower_hex(#[trigger] s[i])
        }
    &&& s[14] == '4'
    &&& (s[19] == '8' || s[19] == '9' || s[19] == 'a' || s[19] == 'b')
}

/// A fresh random identifier: `uuid::Uuid::new_v4()` written out with its
/// `Display` impl.
///
/// Trusted: the uuid source sets the version nibble to 4 and the variant bits
/// to `10`, and `Display` writes the hyphenated lower-case form, so every
/// outcome has the shape of `is_v4_uuid_text`. Which identifier comes out
/// rests on the operating system's random source and is not stated.
#[verifier::external_body]
fn new_v4_text() -> (s: String)
    ensures
        is_v4_uuid_text(s@),
{
    uuid::Uuid::new_v4().to_string()
}

/// The sample vehicle that the service hands out, carrying `id`.
pub fn sample_vehicle(id: String) -> (v: Vehicle)
    ensures
        v.manufacturer@ == "Dodge"@,
        v.model@ == "RAM 1500"@,
        v.year == 2021,
        v.id matches Some(s) && s@ == id@,
{
    Vehicle {
        manufacturer: String::from_str("Dodge"),
        model: String::from_str("RAM 1500"),
        year: 2021,
        id: Some(id),
    }
}

/// `v` with its identifier replaced by `id`; the other fields are kept.
pub fn assign_id(v: Vehicle, id: String) -> (r: Vehicle)
    ensures
        r.manufacturer@ == v.manufacturer@,
        r.model@ == v.model@,
        r.year == v.year,
        r.id matches Some(s) && s@ == id@,
{
    let mut v = v;
    v.id = Some(id);
    v
}

/// The sample vehicle, under a fresh random identifier.
pub fn vehicle_get() -> (v: Vehicle)
    ensures
        v.manufacturer@ == "Dodge"@,
        v.model@ == "RAM 1500"@,
        v.year == 2021,
        v.id matches Some(s) && is_v4_uuid_text(s@),
{
    sample_vehicle(new_v4_text())
}

/// The submitted vehicle, with a fresh random identifier in place of the one
/// it came with.
pub fn vehicle_post(v: Vehicle) -> (r: Vehicle)
    ensures
        r.manufacturer@ == v.manufacturer@,
        r.model@ == v.model@,
        r.year == v.year,
        r.id matches Some(s) && is_v4_uuid_text(s@),
{
    assign_id(v, new_v4_text())
}

} // verus!
