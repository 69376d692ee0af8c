use crate::errors::PeerError;
use vstd::prelude::*;
use vstd::string::{StrSliceExecFns, StringExecFns};

verus! {

/// What a peer is started with.
pub struct Config {
    /// The port on which the peer serves.
    pub port: String,
    /// The address of a first peer to connect to, if one was named.
    pub known_peer_address: Option<String>,
    /// The gossip period in seconds.
    pub period: usize,
}

/// The view of an optional string: the characters it holds, if any.
pub open spec fn opt_view(o: Option<String>) -> Option<Seq<char>> {
    match o {
        Some(s) => Some(s@),
        None => None,
    }
}

/// Whether a character is a decimal digit.
pub open spec fn is_digit(c: char) -> bool {
    '0' <= c && c <= '9'
}

/// The number that a decimal digit stands for.
pub open spec fn digit_value(c: char) -> int {
    (c as int) - ('0' as int)
}

/// The number that a string of decimal digits stands for.
pub open spec fn decimal_value(s: Seq<char>) -> int
    decreases s.len(),
{
    if s.len() == 0 {
        0
    } else {
        decimal_value(s.drop_last()) * 10 + digit_value(s.last())
    }
}

/// Whether a text is one or more decimal digits.
pub open spec fn is_decimal(s: Seq<char>) -> bool {
    &&& s.len() > 0
    &&& forall|i: int| 0 <= i < s.len() ==> is_digit(#[trigger] s[i])
}

/// The gossip period, in seconds, that a text gives: a whole number written
/// in decimal digits that fits in a `usize`; `None` for any other text.
pub open spec fn period_seconds(s: Seq<char>) -> Option<usize> {
    if is_decimal(s) && decimal_value(s) <= usize::MAX {
        Some(decimal_value(s) as usize)
    } else {
        None
    }
}

/// The value of a prefix of digits is at most that of the whole.
proof fn lemma_prefix_value(s: Seq<char>, k: int)
    requires
        0 <= k <= s.len(),
        forall|i: int| 0 <= i < s.len() ==> is_digit(#[trigger] s[i]),
    ensures
        0 <= decimal_value(s.take(k)) <= decimal_value(s),
    decreases s.len(),
{
    if s.len() > 0 {
        let rest = s.drop_last();
        assert(s.last() == s[s.len() - 1]);
        assert(is_digit(s.last()));
        if k == s.len() {
            assert(s.take(k) =~= s);
            lemma_prefix_value(rest, 0);
        } else {
            assert(rest.take(k) =~= s.take(k));
            lemma_prefix_value(rest, k);
        }
    } else {
        assert(s.take(k) =~= s);
    }
}

/// The gossip period that the text of the `period` option gives.
pub fn parse_period(text: &String) -> (seconds: Option<usize>)
    ensures
        seconds == period_seconds(text@),
{
    let s = text.as_str();
    let n = s.unicode_len();
    if n == 0 {
        return None;
    }
    let mut value: usize = 0;
    let mut i: usize = 0;
    while i < n
        invariant
            n == text@.len(),
            s@ == text@,
            i <= n,
            forall|j: int| 0 <= j < i ==> is_digit(#[trigger] text@[j]),
            value == decimal_value(text@.take(i as int)),
        decreases n - i,
    {
        let c = s.get_char(i);
        if c < '0' || c > '9' {
            assert(!is_decimal(text@));
            return None;
        }
        let d = (c as u32 - '0' as u32) as usize;
        assert(text@.take(i + 1).drop_last() =~= text@.take(i as int));
        assert(text@.take(i + 1).last() == c);
        if value > (usize::MAX - d) / 10 {
            proof {
                assert(value * 10 + d > usize::MAX) by (nonlinear_arith)
                    requires
                        value > (usize::MAX - d) / 10,
                        d <= 9,
                ;
                assert(decimal_value(text@.take(i + 1)) == value * 10 + d);
                if is_decimal(text@) {
                    lemma_prefix_value(text@, i + 1);
                }
            }
            return None;
        }
        value = value * 10 + d;
        i = i + 1;
    }
    assert(text@.take(n as int) =~= text@);
    Some(value)
}

impl Config {
    /// Builds the configuration from the values of the command-line options
    /// `port`, `connect` and `period` (`None` for an option that was not
    /// given).
    ///
    /// A missing port is refused with `ReadConfig("port is required")`; then a
    /// missing period with `ReadConfig("period is required")`, and a period
    /// that is not a whole number of seconds with
    /// `ReadConfig("period must be a whole number of seconds")`.
    /// Otherwise the configuration holds the port, the peer to connect to when
    /// one was named, and the period.
    pub fn read_config(port: Option<String>, connect: Option<String>, period: Option<String>) -> (res:
        Result<Config, PeerError>)
        ensures
            port is None ==> (res matches Err(PeerError::ReadConfig(m)) && m@ == "port is required"@),
            port is Some && period is None ==> (res matches Err(PeerError::ReadConfig(m)) && m@
                == "period is required"@),
            port is Some && period is Some && period_seconds(period->0@) is None ==> (res matches Err(
                PeerError::ReadConfig(m),
            ) && m@ == "period must be a whole number of seconds"@),
            port is Some && period is Some && period_seconds(period->0@) is Some ==> (res matches Ok(
                c,
            ) && Some(c.port@) == opt_view(port) && opt_view(c.known_peer_address) == opt_view(connect)
                && Some(c.period) == period_seconds(period->0@)),
    {
        let mut config = Config { port: String::new(), known_peer_address: None, period: 0 };
        match port {
            Some(p) => config.port = p,
            None => return Err(PeerError::ReadConfig(String::from_str("port is required"))),
        }
        match connect {
            Some(peer) => config.known_peer_address = Some(peer),
            None => config.known_peer_address = None,
        }
        match period {
            Some(text) => match parse_period(&text) {
                Some(seconds) => config.period = seconds,
                None => {
                    return Err(
                        PeerError::ReadConfig(
                            String::from_str("period must be a whole number of seconds"),
                        ),
                    )
                },
            },
            None => return Err(PeerError::ReadConfig(String::from_str("period is required"))),
        }
        Ok(config)
    }
}

} // verus!
