use vstd::prelude::*;
use vstd::string::*;
use crate::decimal::{decimal_text, law_decimal_round_trip, parse_u16, parse_u32, parse_u64, parse_usize, parse_unsigned};

verus! {

pub const DEFAULT_REGISTER_ENDPOINT: &'static str = "ws://localhost:5555";
pub const DEFAULT_SERVICE_PORT: u16 = 3333;
pub const DEFAULT_METRICS_PORT: u16 = 9321;
pub const DEFAULT_TRAFFIC_WAIT_TIMEOUT: u64 = 5;
pub const DEFAULT_HTTP_REQUEST_TIMEOUT: u64 = 1000;
pub const DEFAULT_HTTP_REQUEST_CONCURRENT_NUM: usize = 128;
pub const DEFAULT_PUBLIC_IPV4: &'static str = "127.0.0.1";
pub const DEFAULT_PUBLIC_IPV6: &'static str = "::1";
pub const DEFAULT_PRIVATE_IP: &'static str = "192.168.49.1:3333";
pub const DEFAULT_AVAILABILITY_ZONE: &'static str = "a";
pub const DEFAULT_HEARTBIT_DELAY: u64 = 10000;
pub const DEFAULT_UDP_CHANNEL_SIZE: usize = 10;
pub const DEFAULT_GRACEFULLL_SHUTDOWN_DELAY: u32 = 10;
pub const DEFAULT_MAX_REGISTRATION_ATTEMPTS: u16 = 10000;
pub const DEFAULT_METRICS_EXPOSE_PATH: &'static str = "/actuator/prometheus";
pub const DEFAULT_ALLOCATE_PATH: &'static str = "/api/v1/proxy-ports";
pub const DEFAULT_DELETE_PATH: &'static str = "/api/v1/proxy-ports/{port}/{session_id}";
pub const DEFAULT_STATUS_PATH: &'static str = "/api/v1/status";

/// The value of a numeric setting: the setting's text read as a decimal
/// number no larger than `max`, or `default` where it is unset or unreadable.
pub open spec fn numeric_setting(value: Option<Seq<char>>, max: int, default: int) -> int {
    match value {
        Some(t) => match parse_unsigned(t, max) {
            Ok(v) => v,
            Err(_) => default,
        },
        None => default,
    }
}

pub open spec fn text_view(value: Option<&str>) -> Option<Seq<char>> {
    match value {
        Some(t) => Some(t@),
        None => None,
    }
}

/// A numeric setting given as the decimal text of a value within range reads
/// as that value, whatever the default.
pub proof fn law_setting_reads_its_decimal_text(v: nat, max: int, default: int)
    requires
        v <= max,
    ensures
        numeric_setting(Some(decimal_text(v)), max, default) == v,
{
    law_decimal_round_trip(v, max);
}

/// A port or other `u16` setting.
pub fn u16_setting(value: Option<&str>, default: u16) -> (v: u16)
    ensures
        v == numeric_setting(text_view(value), u16::MAX as int, default as int),
{
    match value {
        Some(t) => match parse_u16(t) {
            Ok(v) => v,
            Err(_) => default,
        },
        None => default,
    }
}

/// A `u32` setting.
pub fn u32_setting(value: Option<&str>, default: u32) -> (v: u32)
    ensures
        v == numeric_setting(text_view(value), u32::MAX as int, default as int),
{
    match value {
        Some(t) => match parse_u32(t) {
            Ok(v) => v,
            Err(_) => default,
        },
        None => default,
    }
}

/// A `u64` setting, such as a delay in milliseconds.
pub fn u64_setting(value: Option<&str>, default: u64) -> (v: u64)
    ensures
        v == numeric_setting(text_view(value), u64::MAX as int, default as int),
{
    match value {
        Some(t) => match parse_u64(t) {
            Ok(v) => v,
            Err(_) => default,
        },
        None => default,
    }
}

/// A `usize` setting, such as a size or a limit.
pub fn usize_setting(value: Option<&str>, default: usize) -> (v: usize)
    ensures
        v == numeric_setting(text_view(value), usize::MAX as int, default as int),
{
    match value {
        Some(t) => match parse_usize(t) {
            Ok(v) => v,
            Err(_) => default,
        },
        None => default,
    }
}

/// A text setting: the value given, or `default`.
pub fn text_setting(value: Option<String>, default: &str) -> (s: String)
    ensures
        s@ == match value {
            Some(t) => t@,
            None => default@,
        },
{
    match value {
        Some(t) => t,
        None => String::from_str(default),
    }
}

pub open spec fn is_lower_hex(c: char) -> bool {
    ('0' <= c && c <= '9') || ('a' <= c && c <= 'f')
}

/// The text of a random (version 4) UUID in hyphenated lower-case form.
pub open spec fn is_random_uuid_text(s: Seq<char>) -> bool {
    &&& s.len() == 36
    &&& forall|i: int|
        0 <= i < 36 ==> if i == 8 || i == 13 || i == 18 || i == 23 {
            #[trigger] s[i] == '-'
        } else {
            is_lower_hex(s[i])
        }
    &&& s[14] == '4'
    &&& (s[19] == '8' || s[19] == '9' || s[19] == 'a' || s[19] == 'b')
}

/// The lower-case hex digit of `n` (0 to 15).
pub open spec fn hex_char(n: int) -> char {
    if n < 10 {
        ('0' as int + n) as char
    } else {
        ('a' as int + n - 10) as char
    }
}

/// Byte `k` of a random UUID drawn from `b`: the high half of byte 6 holds the
/// version 4, the two top bits of byte 8 hold the variant `10`.
pub open spec fn uuid_byte(b: Seq<u8>, k: int) -> int {
    if k == 6 {
        b[6] as int % 16 + 64
    } else if k == 8 {
        b[8] as int % 64 + 128
    } else {
        b[k] as int
    }
}

/// Hex digit `j` (0 to 31) of that UUID, high half of each byte first.
pub open spec fn uuid_nibble(b: Seq<u8>, j: int) -> int {
    if j % 2 == 0 {
        uuid_byte(b, j / 2) / 16
    } else {
        uuid_byte(b, j / 2) % 16
    }
}

/// How many hyphens come before position `i` of the hyphenated form.
pub open spec fn hyphens_before(i: int) -> int {
    if i > 23 {
        4
    } else if i > 18 {
        3
    } else if i > 13 {
        2
    } else if i > 8 {
        1
    } else {
        0
    }
}

/// The hyphenated lower-case text of the random UUID drawn from the bytes `b`.
pub open spec fn uuid_text(b: Seq<u8>) -> Seq<char> {
    Seq::new(
        36,
        |i: int|
            if i == 8 || i == 13 || i == 18 || i == 23 {
                '-'
            } else {
                hex_char(uuid_nibble(b, i - hyphens_before(i)))
            },
    )
}

/// The text of a random UUID drawn from any bytes has the version-4 shape.
pub proof fn lemma_uuid_text_shape(b: Seq<u8>)
    requires
        b.len() == 16,
    ensures
        is_random_uuid_text(uuid_text(b)),
{
    let s = uuid_text(b);
    assert forall|i: int| 0 <= i < 36 && !(i == 8 || i == 13 || i == 18 || i == 23) implies is_lower_hex(
        #[trigger] s[i],
    ) by {
        let j = i - hyphens_before(i);
        assert(0 <= j < 32);
        let k = j / 2;
        assert(0 <= k < 16);
        assert(0 <= uuid_byte(b, k) < 256);
        assert(0 <= uuid_nibble(b, j) < 16);
    }
    assert(uuid_nibble(b, 12) == 4);
    assert(8 <= uuid_nibble(b, 16) < 12);
}

/// Calls `uuid::Builder::from_random_bytes(bytes).into_uuid()` and renders the
/// result with its `Display`. Claimed, from the crate's source: the builder
/// keeps the bytes but for the version (high half of byte 6 set to 4) and the
/// variant (top bits of byte 8 set to `10`), and `Display` writes each byte as
/// two lower-case hex digits, high half first, with hyphens after the 4th, 6th,
/// 8th and 10th byte. None of these calls can fail.
#[verifier::external_body]
fn guid_from_random(bytes: [u8; 16]) -> (s: String)
    ensures
        s@ == uuid_text(bytes@),
{
    uuid::Builder::from_random_bytes(bytes).into_uuid().to_string()
}

/// The identity under which this proxy registers: the one given, or the
/// random UUID drawn from the bytes `random`.
pub fn guid_setting(value: Option<String>, random: [u8; 16]) -> (s: String)
    ensures
        match value {
            Some(t) => s@ == t@,
            None => s@ == uuid_text(random@) && is_random_uuid_text(s@),
        },
{
    match value {
        Some(t) => t,
        None => {
            proof {
                lemma_uuid_text_shape(random@);
            }
            guid_from_random(random)
        },
    }
}

} // verus!
