//! The user agent service: the request payload and the records of its answer.
//! Only paid subscriptions may use this service; on a free one it answers
//! with an error message.

use vstd::prelude::*;

verus! {

/// The lower-case hexadecimal digit of `d`, for `0 <= d < 16`.
pub open spec fn hex_digit(d: int) -> char {
    if d < 10 {
        (d + 48) as char
    } else {
        (d + 87) as char
    }
}

/// How `c` stands inside a JSON string: quote and backslash get a backslash,
/// the control characters get their short escape or a `\u00XX` escape, and
/// every other character stands as it is.
pub open spec fn escape_char(c: char) -> Seq<char> {
    if c == '"' {
        seq!['\\', '"']
    } else if c == '\\' {
        seq!['\\', '\\']
    } else if c == '\u{08}' {
        seq!['\\', 'b']
    } else if c == '\t' {
        seq!['\\', 't']
    } else if c == '\n' {
        seq!['\\', 'n']
    } else if c == '\u{0C}' {
        seq!['\\', 'f']
    } else if c == '\r' {
        seq!['\\', 'r']
    } else if (c as u32) < 0x20 {
        seq!['\\', 'u', '0', '0', hex_digit(c as int / 16), hex_digit(c as int % 16)]
    } else {
        seq![c]
    }
}

/// The body of a JSON string literal that holds `s`.
pub open spec fn escape_json(s: Seq<char>) -> Seq<char>
    decreases s.len(),
{
    if s.len() == 0 {
        Seq::empty()
    } else {
        escape_json(s.drop_last()) + escape_char(s.last())
    }
}

/// The JSON object sent to the user agent service for `ua`.
pub open spec fn payload_json(ua: Seq<char>) -> Seq<char> {
    "{\"uaString\": \""@ + escape_json(ua) + "\"}"@
}

/// The payload of a user agent request: the user agent string to parse, which
/// need not be that of the device making the request.
#[allow(non_snake_case)]
pub struct ReqPayload {
    uaString: String,
}

/// The one-character string of the hexadecimal digit `d`.
fn hex_digit_str(d: u32) -> (r: &'static str)
    requires
        d < 16,
    ensures
        r@ == seq![hex_digit(d as int)],
{
    match d {
        0 => { proof { reveal_strlit("0"); } "0" },
        1 => { proof { reveal_strlit("1"); } "1" },
        2 => { proof { reveal_strlit("2"); } "2" },
        3 => { proof { reveal_strlit("3"); } "3" },
        4 => { proof { reveal_strlit("4"); } "4" },
        5 => { proof { reveal_strlit("5"); } "5" },
        6 => { proof { reveal_strlit("6"); } "6" },
        7 => { proof { reveal_strlit("7"); } "7" },
        8 => { proof { reveal_strlit("8"); } "8" },
        9 => { proof { reveal_strlit("9"); } "9" },
        10 => { proof { reveal_strlit("a"); } "a" },
        11 => { proof { reveal_strlit("b"); } "b" },
        12 => { proof { reveal_strlit("c"); } "c" },
        13 => { proof { reveal_strlit("d"); } "d" },
        14 => { proof { reveal_strlit("e"); } "e" },
        _ => { proof { reveal_strlit("f"); } "f" },
    }
}

/// Appends to `out` the JSON escape of `s@[i]`.
fn push_escaped(out: &mut String, s: &str, i: usize)
    requires
        i < s@.len() <= usize::MAX,
    ensures
        final(out)@ == old(out)@ + escape_char(s@[i as int]),
{
    let c = s.get_char(i);
    if c == '"' {
        proof { reveal_strlit("\\\""); }
        out.append("\\\"");
    } else if c == '\\' {
        proof { reveal_strlit("\\\\"); }
        out.append("\\\\");
    } else if c == '\u{08}' {
        proof { reveal_strlit("\\b"); }
        out.append("\\b");
    } else if c == '\t' {
        proof { reveal_strlit("\\t"); }
        out.append("\\t");
    } else if c == '\n' {
        proof { reveal_strlit("\\n"); }
        out.append("\\n");
    } else if c == '\u{0C}' {
        proof { reveal_strlit("\\f"); }
        out.append("\\f");
    } else if c == '\r' {
        proof { reveal_strlit("\\r"); }
        out.append("\\r");
    } else if (c as u32) < 0x20 {
        let code = c as u32;
        proof { reveal_strlit("\\u00"); }
        out.append("\\u00");
        out.append(hex_digit_str(code / 16));
        out.append(hex_digit_str(code % 16));
        assert(final(out)@ =~= old(out)@ + escape_char(c));
    } else {
        let one = s.substring_char(i, i + 1);
        out.append(one);
        assert(one@ =~= seq![c]);
    }
}

impl ReqPayload {
    /// The user agent string that this payload carries.
    pub closed spec fn ua_string(&self) -> Seq<char> {
        self.uaString@
    }

    /// A payload that asks for `uaString` to be parsed.
    #[allow(non_snake_case)]
    pub fn new(uaString: &str) -> (r: Self)
        ensures
            r.ua_string() == uaString@,
    {
        ReqPayload { uaString: String::from_str(uaString) }
    }

    /// The payload as the JSON text of the request body.
    pub fn to_json(&self) -> (r: String)
        ensures
            r@ == payload_json(self.ua_string()),
    {
        let s = self.uaString.as_str();
        let n = s.unicode_len();
        let mut body = String::new();
        let mut i: usize = 0;
        while i < n
            invariant
                n == s@.len(),
                s@ == self.ua_string(),
                i <= n,
                body@ == escape_json(s@.subrange(0, i as int)),
            decreases n - i,
        {
            push_escaped(&mut body, s, i);
            assert(s@.subrange(0, i + 1).drop_last() =~= s@.subrange(0, i as int));
            i = i + 1;
        }
        assert(s@.subrange(0, n as int) =~= s@);
        let mut out = String::from_str("{\"uaString\": \"");
        out.append(body.as_str());
        out.append("\"}");
        out
    }
}

} // verus!

verus! {

/// A device, as the user agent service describes it.
#[allow(non_snake_case)]
#[derive(Debug, Clone, PartialEq, Eq)]
pub struct Device {
    /// The device's name, e.g. "Apple Macintosh".
    pub name: String,
    /// The kind of device, e.g. "Desktop".
    pub kind: String,
    /// The brand, e.g. "Apple".
    pub brand: String,
    /// The CPU, e.g. "Intel"; absent for some web crawlers.
    pub CPU: Option<String>,
}

/// A browser engine.
#[allow(non_snake_case)]
#[derive(Debug, Clone, PartialEq, Eq)]
pub struct Engine {
    /// The engine's name, e.g. "AppleWebKit".
    pub name: String,
    /// The kind of engine, mostly "Browser".
    pub kind: String,
    /// The version, e.g. "601.3.9".
    pub version: String,
    /// The major version, e.g. "601".
    pub versionMajor: String,
    /// The build, often "Unknown".
    pub build: String,
}

/// An operating system.
#[allow(non_snake_case)]
#[derive(Debug, Clone, PartialEq, Eq)]
pub struct OperatingSystem {
    /// The system's name, e.g. "Mac OS X".
    pub name: String,
    /// The kind of device the system is made for, e.g. "Desktop".
    pub kind: String,
    /// The version, e.g. "10.11.2".
    pub version: String,
    /// The major version, e.g. "10".
    pub versionMajor: String,
}

/// A parsed user agent.
#[allow(non_snake_case)]
#[derive(Debug, Clone, PartialEq, Eq)]
pub struct UserAgent {
    /// The user agent string that was parsed.
    pub userAgentString: String,
    /// The agent's name, e.g. "Safari".
    pub name: String,
    /// The kind of agent, often "Browser".
    pub kind: String,
    /// The version, e.g. "9.0.2".
    pub version: String,
    /// The major version, e.g. "9".
    pub versionMajor: String,
    /// The device.
    pub device: Device,
    /// The browser engine.
    pub engine: Engine,
    /// The operating system.
    pub operatingSystem: OperatingSystem,
}

} // verus!
