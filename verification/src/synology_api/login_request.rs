//! Builds the exact query URL for the remote login call.
//!
//! The remote service authenticates through an HTTP GET whose query string
//! carries the account, the percent-encoded password, a device name that
//! labels this installation, and three optional parameters: a request for a
//! new persistent device pairing, a previously issued device id, and a
//! one-time code.

use vstd::prelude::*;
use vstd::string::StrSliceExecFns;
use vstd::string::StringExecFns;

verus! {

/// Characters that percent-encoding leaves as they are: ASCII alphanumerics
/// and `-`, `.`, `_`, `~`.
pub open spec fn is_unreserved(c: char) -> bool {
    ('0' <= c && c <= '9') || ('A' <= c && c <= 'Z') || ('a' <= c && c <= 'z') || c == '-'
        || c == '.' || c == '_' || c == '~'
}

/// The uppercase hexadecimal digit for a value below 16.
pub open spec fn hex_digit(d: int) -> char {
    seq!['0', '1', '2', '3', '4', '5', '6', '7', '8', '9', 'A', 'B', 'C', 'D', 'E', 'F'][d]
}

/// The UTF-8 encoding of a code point, as byte values.
pub open spec fn utf8_bytes(n: int) -> Seq<int> {
    if n < 0x80 {
        seq![n]
    } else if n < 0x800 {
        seq![0xC0 + n / 0x40, 0x80 + n % 0x40]
    } else if n < 0x10000 {
        seq![0xE0 + n / 0x1000, 0x80 + (n / 0x40) % 0x40, 0x80 + n % 0x40]
    } else {
        seq![
            0xF0 + n / 0x40000,
            0x80 + (n / 0x1000) % 0x40,
            0x80 + (n / 0x40) % 0x40,
            0x80 + n % 0x40,
        ]
    }
}

/// A byte as a percent escape: `%` followed by two uppercase hex digits.
pub open spec fn percent_escape(b: int) -> Seq<char> {
    seq!['%', hex_digit(b / 16), hex_digit(b % 16)]
}

/// How one character comes out of percent-encoding: an unreserved character
/// stands for itself; any other character becomes the percent escapes of its
/// UTF-8 bytes.
pub open spec fn encoded_char(c: char) -> Seq<char> {
    if is_unreserved(c) {
        seq![c]
    } else {
        utf8_bytes(c as int).flat_map(|b: int| percent_escape(b))
    }
}

/// The percent-encoding of a whole string.
pub open spec fn percent_encoding(s: Seq<char>) -> Seq<char> {
    s.flat_map(|c: char| encoded_char(c))
}

/// An optional query parameter: the parameter text prefixed by its name when
/// the value is known, nothing otherwise.
pub open spec fn opt_param(name: Seq<char>, value: Option<Seq<char>>) -> Seq<char> {
    match value {
        Some(v) => name + v,
        None => Seq::<char>::empty(),
    }
}

/// The exact URL of a login call: the endpoint, the fixed API path and
/// session label, the percent-encoded account, password and device name, and
/// then, each only when applicable and in this order, the request for a new
/// device pairing, a known device id, and a one-time code.
pub open spec fn login_url(
    endpoint: Seq<char>,
    username: Seq<char>,
    password: Seq<char>,
    device_name: Seq<char>,
    enable_device_token: bool,
    device_id: Option<Seq<char>>,
    otp_code: Option<Seq<char>>,
) -> Seq<char> {
    endpoint + "/webapi/entry.cgi?api=SYNO.API.Auth&version=6&method=login&account="@
        + percent_encoding(username) + "&passwd="@ + percent_encoding(password)
        + "&device_name="@ + percent_encoding(device_name) + "&session=FileStation"@ + (
    if enable_device_token {
        "&enable_device_token=yes"@
    } else {
        Seq::<char>::empty()
    }) + opt_param("&device_id="@, device_id) + opt_param("&otp_code="@, otp_code)
}

/// Relies on `urlencoding::encode`: it percent-encodes every byte of the
/// UTF-8 form of the input except ASCII alphanumerics and `-`, `.`, `_`,
/// `~`, writing `%` and two uppercase hex digits for each encoded byte.
#[verifier::external_body]
fn encode_component(s: &str) -> (r: String)
    ensures
        r@ == percent_encoding(s@),
{
    urlencoding::encode(s).into_owned()
}

/// The device name that labels this installation towards the remote
/// service: the host name and the client executable's name joined by `::`.
pub fn build_device_name(host: &str, exe_name: &str) -> (r: String)
    ensures
        r@ == host@ + "::"@ + exe_name@,
{
    let mut name = host.to_owned();
    name.append("::");
    name.append(exe_name);
    name
}

/// Builds the login URL for the given endpoint and credential parts; the
/// result is exactly `login_url` of the inputs.
pub fn build_login_url(
    endpoint: &str,
    username: &str,
    password: &str,
    device_name: &str,
    enable_device_token: bool,
    device_id: &Option<String>,
    otp_code: &Option<String>,
) -> (r: String)
    ensures
        r@ == login_url(
            endpoint@,
            username@,
            password@,
            device_name@,
            enable_device_token,
            device_id.deep_view(),
            otp_code.deep_view(),
        ),
{
    let mut url = endpoint.to_owned();
    url.append("/webapi/entry.cgi?api=SYNO.API.Auth&version=6&method=login&account=");
    let encoded = encode_component(username);
    url.append(encoded.as_str());
    url.append("&passwd=");
    let encoded = encode_component(password);
    url.append(encoded.as_str());
    url.append("&device_name=");
    let encoded = encode_component(device_name);
    url.append(encoded.as_str());
    url.append("&session=FileStation");
    if enable_device_token {
        url.append("&enable_device_token=yes");
    }
    match device_id {
        Some(d) => {
            url.append("&device_id=");
            url.append(d.as_str());
        },
        None => {},
    }
    match otp_code {
        Some(c) => {
            url.append("&otp_code=");
            url.append(c.as_str());
        },
        None => {},
    }
    proof {
        assert(url@ =~= login_url(
            endpoint@,
            username@,
            password@,
            device_name@,
            enable_device_token,
            device_id.deep_view(),
            otp_code.deep_view(),
        ));
    }
    url
}

} // verus!
