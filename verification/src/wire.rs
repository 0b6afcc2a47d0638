use vstd::prelude::*;

use crate::ids::Id;

verus! {

/// The decimal digit character for `d`, for `d < 10`.
pub open spec fn dec_digit(d: nat) -> char {
    if d == 0 {
        '0'
    } else if d == 1 {
        '1'
    } else if d == 2 {
        '2'
    } else if d == 3 {
        '3'
    } else if d == 4 {
        '4'
    } else if d == 5 {
        '5'
    } else if d == 6 {
        '6'
    } else if d == 7 {
        '7'
    } else if d == 8 {
        '8'
    } else {
        '9'
    }
}

/// The canonical decimal rendering of `v`: no sign, no leading zeros.
/// This is the wire form of an identifier, which travels as a plain
/// unsigned integer with no wrapping object and no kind tag.
pub open spec fn dec_rep(v: nat) -> Seq<char>
    decreases v,
{
    if v < 10 {
        seq![dec_digit(v)]
    } else {
        dec_rep(v / 10).push(dec_digit(v % 10))
    }
}

/// Relies on serde_json::to_string: a `u64` serializes as its plain
/// decimal rendering (written digit by digit, most significant first),
/// and serializing an integer cannot fail.
#[verifier::external_body]
fn json_encode_u64(v: u64) -> (r: String)
    ensures
        r@ == dec_rep(v as nat),
{
    serde_json::to_string(&v).unwrap_or_default()
}

/// Relies on serde_json::from_str: parsing the decimal rendering of a
/// `u64` yields exactly that value.
#[verifier::external_body]
fn json_decode_u64(s: &str) -> (r: Option<u64>)
    ensures
        forall|v: u64| s@ == #[trigger] dec_rep(v as nat) ==> r == Some(v),
{
    serde_json::from_str::<u64>(s).ok()
}

impl<T> Id<T> {
    /// Serializes the identifier for the wire: a plain unsigned integer in
    /// decimal, with no kind tag.
    pub fn to_wire(&self) -> (r: String)
        ensures
            r@ == dec_rep(self@ as nat),
    {
        json_encode_u64(self.into_u64())
    }

    /// Deserializes an identifier from the wire. The wire form of any
    /// identifier is accepted and yields the identifier with that raw
    /// value, whatever entity kind the caller assigns it.
    pub fn from_wire(s: &str) -> (r: Option<Id<T>>)
        ensures
            forall|v: u64| s@ == #[trigger] dec_rep(v as nat) ==> r is Some && (r->0)@ == v,
    {
        match json_decode_u64(s) {
            Some(v) => Some(Id::new(v)),
            None => None,
        }
    }
}

/// Law: identifier round trip. Serializing any identifier and
/// deserializing the result — under any declared entity kind — yields an
/// identifier equal in value to the original.
pub fn wire_round_trip<T, U>(id: Id<T>) -> (r: Option<Id<U>>)
    ensures
        r is Some,
        (r->0)@ == id@,
{
    Id::<U>::from_wire(id.to_wire().as_str())
}

} // verus!
