//! Listening addresses: the port a server binds and the URLs it announces.
use vstd::prelude::*;

verus! {

/// Whether `c` is one of the ASCII digits `0`..=`9`.
pub open spec fn is_ascii_digit(c: char) -> bool {
    ('0' as int) <= (c as int) <= ('9' as int)
}

/// The value of the ASCII digit `c`.
pub open spec fn digit_value(c: char) -> nat {
    ((c as int) - ('0' as int)) as nat
}

/// Whether every character of `s` is an ASCII digit.
pub open spec fn all_digits(s: Seq<char>) -> bool {
    forall|i: int| 0 <= i < s.len() ==> is_ascii_digit(#[trigger] s[i])
}

/// The value of a run of decimal digits, most significant first.
pub open spec fn digits_value(s: Seq<char>) -> nat
    decreases s.len(),
{
    if s.len() == 0 {
        0
    } else {
        digits_value(s.drop_last()) * 10 + digit_value(s.last())
    }
}

/// The digits of an unsigned number's text, once an optional leading `+` is dropped.
pub open spec fn unsigned_digits(s: Seq<char>) -> Seq<char> {
    if s.len() > 0 && s[0] == '+' {
        s.drop_first()
    } else {
        s
    }
}

/// The port that `text` names, as `str::parse::<u16>` reads it: an optional `+`,
/// then at least one ASCII digit, with a value that fits in 16 bits.
pub open spec fn port_of_text(text: Seq<char>) -> Option<u16> {
    let d = unsigned_digits(text);
    if d.len() > 0 && all_digits(d) && digits_value(d) <= 65535 {
        Some(digits_value(d) as u16)
    } else {
        None
    }
}

/// A longer run of digits is worth at least as much as any of its prefixes.
proof fn lemma_digits_value_prefix(s: Seq<char>, k: int)
    requires
        0 <= k <= s.len(),
        all_digits(s),
    ensures
        digits_value(s.subrange(0, k)) <= digits_value(s),
    decreases s.len(),
{
    if k < s.len() {
        let t = s.drop_last();
        assert(all_digits(t)) by {
            assert forall|i: int| 0 <= i < t.len() implies is_ascii_digit(#[trigger] t[i]) by {
                assert(t[i] == s[i]);
            }
        }
        lemma_digits_value_prefix(t, k);
        assert(t.subrange(0, k) =~= s.subrange(0, k));
    } else {
        assert(s.subrange(0, k) =~= s);
    }
}

/// Why a port text was refused.
#[derive(Debug, Clone, Copy, PartialEq, Eq)]
pub enum PortError {
    /// The text is not a decimal number from 0 to 65535.
    NotANumber,
}

impl PortError {
    /// The text the server reports for this error.
    pub fn message(&self) -> (m: String)
        ensures
            m@ == "PORT is not a valid number"@,
    {
        String::from_str("PORT is not a valid number")
    }
}

/// Reads the port number from the text of the `PORT` setting.
pub fn parse_port(text: &str) -> (r: Result<u16, PortError>)
    ensures
        r matches Ok(p) ==> port_of_text(text@) == Some(p),
        r is Err <==> port_of_text(text@) is None,
{
    let len = text.unicode_len();
    let mut start: usize = 0;
    if len > 0 && text.get_char(0) == '+' {
        start = 1;
    }
    let ghost d = unsigned_digits(text@);
    assert(d =~= text@.subrange(start as int, len as int));
    if start == len {
        return Err(PortError::NotANumber);
    }
    let mut value: u32 = 0;
    let mut i: usize = start;
    while i < len
        invariant
            start <= i <= len,
            len == text@.len(),
            start < len,
            d =~= text@.subrange(start as int, len as int),
            d == unsigned_digits(text@),
            all_digits(text@.subrange(start as int, i as int)),
            value == digits_value(text@.subrange(start as int, i as int)),
            value <= 65535,
        decreases len - i,
    {
        let c = text.get_char(i);
        if !('0' <= c && c <= '9') {
            assert(d[i - start] == c);
            assert(!is_ascii_digit(c));
            assert(!all_digits(d));
            return Err(PortError::NotANumber);
        }
        let digit: u32 = (c as u32) - ('0' as u32);
        let ghost prefix = text@.subrange(start as int, i as int);
        let ghost next = text@.subrange(start as int, i + 1);
        assert(next.drop_last() =~= prefix);
        assert(all_digits(next)) by {
            assert forall|j: int| 0 <= j < next.len() implies is_ascii_digit(#[trigger] next[j]) by {
                if j < prefix.len() {
                    assert(next[j] == prefix[j]);
                }
            }
        }
        assert(digit == digit_value(c));
        assert(next.last() == c);
        assert(digits_value(next) == digits_value(prefix) * 10 + digit_value(c));
        value = value * 10 + digit;
        assert(value == digits_value(next));
        i = i + 1;
        if value > 65535 {
            proof {
                let k = (i - start) as int;
                if all_digits(d) {
                    assert(d.subrange(0, k) =~= next);
                    lemma_digits_value_prefix(d, k);
                }
            }
            return Err(PortError::NotANumber);
        }
    }
    Ok(value as u16)
}

/// The URL a server announces when it starts: `http://{host}:{port}`.
pub fn server_url(host: &str, port: &str) -> (url: String)
    ensures
        url@ == "http://"@ + host@ + ":"@ + port@,
{
    String::from_str("http://").concat(host).concat(":").concat(port)
}

/// The `{host}:{port}` address a listener binds.
pub fn bind_address(host: &str, port: &str) -> (address: String)
    ensures
        address@ == host@ + ":"@ + port@,
{
    String::from_str(host).concat(":").concat(port)
}

/// The URL of the API that a server at `server_url` serves: `{server_url}/api`.
pub fn api_server_url(server_url: &str) -> (url: String)
    ensures
        url@ == server_url@ + "/api"@,
{
    String::from_str(server_url).concat("/api")
}

} // verus!
