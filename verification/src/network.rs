//! What the device makes of its network link: the local time from the clock
//! it synchronises over the network, and how its address is reported.

use vstd::prelude::*;

use crate::json::hex_digit;
use crate::text::{join_strings, joined, push_char, views_of};

verus! {

/// The offset of Japan Standard Time from UTC, in seconds. The device is
/// only used in Japan, so the offset is not a setting.
pub const JST_OFFSET_SECONDS: i64 = 9 * 3_600;

/// The local time, as Unix seconds, of a clock reading in UTC. A clock not
/// set yet reads zero or less, and is handed on unchanged.
pub open spec fn local_time(utc: i64) -> int {
    if utc <= 0 {
        utc as int
    } else {
        utc + JST_OFFSET_SECONDS
    }
}

/// Turns a UTC clock reading into local time; the greeting and the
/// transcript go by local time.
pub fn local_unix(utc: i64) -> (local: i64)
    requires
        utc <= i64::MAX - JST_OFFSET_SECONDS,
    ensures
        local == local_time(utc),
{
    if utc <= 0 {
        utc
    } else {
        utc + JST_OFFSET_SECONDS
    }
}

/// The two lower-case hexadecimal digits of a byte.
pub open spec fn byte_hex(b: u8) -> Seq<char> {
    seq![hex_digit((b as int) / 16), hex_digit((b as int) % 16)]
}

/// A hardware address as the router shows it: each byte in two lower-case
/// hexadecimal digits, separated by colons; "不明" when it cannot be read.
pub open spec fn mac_text_of(mac: Option<Seq<u8>>) -> Seq<char> {
    match mac {
        Some(bytes) => joined(bytes.map_values(|b: u8| byte_hex(b)), seq![':']),
        None => "不明"@,
    }
}

fn hex_char(n: u8) -> (c: char)
    requires
        n < 16,
    ensures
        c == hex_digit(n as int),
{
    match n {
        0 => '0',
        1 => '1',
        2 => '2',
        3 => '3',
        4 => '4',
        5 => '5',
        6 => '6',
        7 => '7',
        8 => '8',
        9 => '9',
        10 => 'a',
        11 => 'b',
        12 => 'c',
        13 => 'd',
        14 => 'e',
        _ => 'f',
    }
}

/// Writes a hardware address for the log.
pub fn mac_text(mac: Option<&[u8]>) -> (text: String)
    ensures
        text@ == mac_text_of(
            match mac {
                Some(bytes) => Some(bytes@),
                None => None,
            },
        ),
{
    let bytes = match mac {
        Some(bytes) => bytes,
        None => {
            let unknown = "不明".to_owned();
            proof {
                reveal_strlit("不明");
            }
            return unknown;
        },
    };
    let mut parts: Vec<String> = Vec::new();
    let mut i: usize = 0;
    while i < bytes.len()
        invariant
            i <= bytes@.len(),
            parts@.len() == i,
            forall|j: int| 0 <= j < i ==> #[trigger] parts@[j]@ == byte_hex(bytes@[j]),
        decreases bytes.len() - i,
    {
        let b = bytes[i];
        let mut part = String::new();
        push_char(&mut part, hex_char(b / 16));
        push_char(&mut part, hex_char(b % 16));
        assert(part@ =~= byte_hex(b));
        parts.push(part);
        i = i + 1;
    }
    assert(views_of(parts@) =~= bytes@.map_values(|b: u8| byte_hex(b)));
    let separator = ":";
    proof {
        reveal_strlit(":");
        assert(separator@ =~= seq![':']);
    }
    join_strings(&parts, separator)
}

} // verus!
