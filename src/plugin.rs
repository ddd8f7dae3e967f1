//! The port the remote-control server listens on.
use vstd::prelude::*;
use crate::text::{decimal_string, decimal_text, join2};

verus! {

/// The default port for remote control, that of Bevy's remote HTTP plugin.
pub const DEFAULT_REMOTE_PORT: u16 = 15702;

/// Settings of the extra remote methods: the port, if one was chosen.
#[derive(Debug, Clone, Copy, PartialEq, Eq)]
pub struct BrpExtrasPlugin {
    pub port: Option<u16>,
}

/// The value of a string of decimal digits.
pub open spec fn digits_value(s: Seq<char>) -> int
    decreases s.len(),
{
    if s.len() == 0 {
        0
    } else {
        10 * digits_value(s.drop_last()) + (s.last() as int - '0' as int)
    }
}

/// Every character is a decimal digit.
pub open spec fn all_digits(s: Seq<char>) -> bool {
    forall|i: int| 0 <= i < s.len() ==> '0' <= #[trigger] s[i] <= '9'
}

/// What `u16`'s `FromStr` reads from `s`: an optional `+`, then at least
/// one decimal digit, with a value that fits.
pub open spec fn parsed_u16(s: Seq<char>) -> Option<u16> {
    let body = if s.len() > 0 && s[0] == '+' {
        s.drop_first()
    } else {
        s
    };
    if body.len() > 0 && all_digits(body) && digits_value(body) <= 65535 {
        Some(digits_value(body) as u16)
    } else {
        None
    }
}

proof fn lemma_digits_value_nonneg(s: Seq<char>)
    requires
        all_digits(s),
    ensures
        digits_value(s) >= 0,
    decreases s.len(),
{
    if s.len() > 0 {
        assert(all_digits(s.drop_last())) by {
            assert forall|i: int| 0 <= i < s.drop_last().len() implies '0' <= #[trigger] s.drop_last()[i] <= '9' by {
                assert(s.drop_last()[i] == s[i]);
            }
        }
        lemma_digits_value_nonneg(s.drop_last());
    }
}

/// Reads a port number as `u16::from_str` does.
pub fn parse_port(text: &str) -> (r: Option<u16>)
    ensures
        r == parsed_u16(text@),
{
    let n = text.unicode_len();
    let start: usize = if n > 0 && text.get_char(0) == '+' {
        1
    } else {
        0
    };
    let ghost body = if n > 0 && text@[0] == '+' {
        text@.drop_first()
    } else {
        text@
    };
    assert(body =~= text@.subrange(start as int, n as int));
    if start >= n {
        assert(body.len() == 0);
        assert(parsed_u16(text@) is None) by {
            if text@.len() > 0 && text@[0] == '+' {
                assert(text@.drop_first().len() == 0);
            } else {
                assert(text@.len() == 0);
            }
        }
        return None;
    }
    // The value read so far, held at 65536 once it no longer fits.
    let mut acc: u32 = 0;
    let mut i: usize = start;
    while i < n
        invariant
            n == text@.len(),
            start <= i <= n,
            body == text@.subrange(start as int, n as int),
            body == if n > 0 && text@[0] == '+' {
                text@.drop_first()
            } else {
                text@
            },
            all_digits(text@.subrange(start as int, i as int)),
            acc as int == if digits_value(text@.subrange(start as int, i as int)) > 65536 {
                65536
            } else {
                digits_value(text@.subrange(start as int, i as int))
            },
        decreases n - i,
    {
        let c = text.get_char(i);
        let ghost pre = text@.subrange(start as int, i as int);
        let ghost post = text@.subrange(start as int, i + 1);
        assert(post.drop_last() =~= pre);
        if c < '0' || c > '9' {
            assert(body[i - start] == c);
            assert(!all_digits(body));
            return None;
        }
        proof {
            lemma_digits_value_nonneg(pre);
            assert(all_digits(post)) by {
                assert forall|j: int| 0 <= j < post.len() implies '0' <= #[trigger] post[j] <= '9' by {
                    if j < pre.len() {
                        assert(post[j] == pre[j]);
                    }
                }
            }
        }
        let d: u32 = (c as u32) - ('0' as u32);
        let next: u32 = acc * 10 + d;
        acc = if next > 65536 {
            65536
        } else {
            next
        };
        i = i + 1;
    }
    assert(text@.subrange(start as int, n as int) == body);
    if acc > 65535 {
        None
    } else {
        Some(acc as u16)
    }
}

/// Where the effective port came from.
pub open spec fn port_source(env_port: Option<u16>, configured: Option<u16>) -> Seq<char> {
    match (env_port, configured) {
        (Some(_), Some(p)) => "environment override from with_port "@ + decimal_text(p as nat),
        (Some(_), None) => "environment override from default "@ + decimal_text(
            DEFAULT_REMOTE_PORT as nat,
        ),
        (None, Some(_)) => "with_port"@,
        (None, None) => "default"@,
    }
}

impl BrpExtrasPlugin {
    /// Settings with the default port.
    pub fn new() -> (r: BrpExtrasPlugin)
        ensures
            r.port is None,
    {
        BrpExtrasPlugin { port: None }
    }

    /// Settings with the given port.
    pub fn with_port(port: u16) -> (r: BrpExtrasPlugin)
        ensures
            r.port == Some(port),
    {
        BrpExtrasPlugin { port: Some(port) }
    }

    /// The port to listen on and where it came from, given the text of the
    /// `BRP_PORT` environment variable: a valid port there wins, then the
    /// chosen port, then the default.
    pub fn get_effective_port(&self, env_value: Option<&str>) -> (r: (u16, String))
        ensures
            ({
                let env_port = match env_value {
                    Some(t) => parsed_u16(t@),
                    None => None,
                };
                &&& r.0 == match env_port {
                    Some(p) => p,
                    None => match self.port {
                        Some(p) => p,
                        None => DEFAULT_REMOTE_PORT,
                    },
                }
                &&& r.1@ == port_source(env_port, self.port)
            }),
    {
        let env_port = match env_value {
            Some(t) => parse_port(t),
            None => None,
        };
        let port = match env_port {
            Some(p) => p,
            None => match self.port {
                Some(p) => p,
                None => DEFAULT_REMOTE_PORT,
            },
        };
        let source = match (env_port, self.port) {
            (Some(_), Some(p)) => {
                let digits = decimal_string(p as usize);
                join2("environment override from with_port ", digits.as_str())
            },
            (Some(_), None) => {
                let digits = decimal_string(DEFAULT_REMOTE_PORT as usize);
                join2("environment override from default ", digits.as_str())
            },
            (None, Some(_)) => String::from_str("with_port"),
            (None, None) => String::from_str("default"),
        };
        (port, source)
    }
}

} // verus!
