use vstd::prelude::*;

verus! {

/// The lower-case hexadecimal digit of `d`, which is below 16.
pub open spec fn hex_digit(d: u128) -> char {
    if d < 10 {
        (48 + d) as char
    } else {
        (87 + d) as char
    }
}

/// The position among the 32 hexadecimal digits of the character at `p` of
/// the hyphenated form (which has hyphens at 8, 13, 18 and 23).
pub open spec fn digit_position(p: int) -> int {
    if p < 8 {
        p
    } else if p < 13 {
        p - 1
    } else if p < 18 {
        p - 2
    } else if p < 23 {
        p - 3
    } else {
        p - 4
    }
}

/// The hyphenated lower-case form of a UUID: its 32 hexadecimal digits, most
/// significant first, in groups of 8, 4, 4, 4 and 12 joined by `-`.
pub open spec fn hyphenated_uuid_text(v: u128) -> Seq<char> {
    Seq::new(
        36,
        |p: int|
            if p == 8 || p == 13 || p == 18 || p == 23 {
                '-'
            } else {
                hex_digit((v >> ((31 - digit_position(p)) * 4) as u128) & 0xf)
            },
    )
}

/// `v` has the version bits of a random (version 4) UUID and the RFC 4122
/// variant bits.
pub open spec fn is_random_uuid(v: u128) -> bool {
    &&& (v >> 76u128) & 0xf == 4
    &&& (v >> 62u128) & 0x3 == 2
}

/// `s` is the hyphenated form of some random UUID.
pub open spec fn is_fresh_record_id(s: Seq<char>) -> bool {
    exists|v: u128| is_random_uuid(v) && s == hyphenated_uuid_text(v)
}

/// `id` is the id that resolving `requested` may give: the requested id, or
/// a fresh random one when none was requested.
pub open spec fn resolves_record_id(requested: Option<String>, id: String) -> bool {
    match requested {
        Some(r) => id == r,
        None => is_fresh_record_id(id@),
    }
}

/// A record gets the id it asked for; without one it gets a fresh random
/// UUID in hyphenated form: 36 characters, hyphens at 8, 13, 18 and 23, the
/// version digit `4` at 14 and an RFC 4122 variant digit (`8` to `b`) at 19.
pub proof fn law_record_id_is_requested_or_fresh(requested: Option<String>, id: String)
    requires
        resolves_record_id(requested, id),
    ensures
        requested matches Some(r) ==> id == r,
        requested is None ==> {
            &&& id@.len() == 36
            &&& id@[8] == '-' && id@[13] == '-' && id@[18] == '-' && id@[23] == '-'
            &&& id@[14] == '4'
            &&& id@[19] == '8' || id@[19] == '9' || id@[19] == 'a' || id@[19] == 'b'
        },
{
    if requested is None {
        let v = choose|v: u128| is_random_uuid(v) && id@ == hyphenated_uuid_text(v);
        assert(digit_position(14) == 12);
        assert(digit_position(19) == 16);
        assert(((v >> 76u128) & 0xf) == 4);
        let d = (v >> 60u128) & 0xf;
        assert(8 <= d <= 11) by (bit_vector)
            requires
                (v >> 62u128) & 0x3 == 2,
                d == (v >> 60u128) & 0xf,
        ;
        assert(id@[14] == hex_digit((v >> ((31 - digit_position(14)) * 4) as u128) & 0xf));
        assert(id@[19] == hex_digit((v >> ((31 - digit_position(19)) * 4) as u128) & 0xf));
    }
}

/// Calls `uuid::Uuid::new_v4`, which draws 122 random bits and sets the
/// version nibble to 4 and the variant bits to `10`; gives its 128-bit value.
#[verifier::external_body]
fn new_random_uuid() -> (v: u128)
    ensures
        is_random_uuid(v),
{
    uuid::Uuid::new_v4().as_u128()
}

/// Calls the `Display` of `uuid::Uuid` (lower-case hyphenated form) on the
/// UUID with value `v`.
#[verifier::external_body]
fn uuid_text(v: u128) -> (s: String)
    ensures
        s@ == hyphenated_uuid_text(v),
{
    uuid::Uuid::from_u128(v).to_string()
}

/// The id of a new record: the requested one when there is one, else a fresh
/// random UUID in hyphenated form.
pub fn resolve_record_id(requested: Option<String>) -> (id: String)
    ensures
        resolves_record_id(requested, id),
        requested matches Some(r) ==> id == r,
{
    match requested {
        Some(r) => r,
        None => {
            let v = new_random_uuid();
            uuid_text(v)
        },
    }
}

} // verus!
