use vstd::prelude::*;

use crate::text::owned;

verus! {

/// The settings the server runs with.
pub struct Config {
    pub port: u16,
    pub db_url: String,
}

/// Why the settings could not be read.
#[derive(Debug, PartialEq, Eq, Structural)]
pub enum ConfigError {
    /// `PORT` is not set.
    MissingPort,
    /// `PORT` is not a number from 0 to 65535.
    InvalidPort,
    /// `DATABASE_URL` is not set.
    MissingDatabaseUrl,
}

pub open spec fn is_digit(c: char) -> bool {
    '0' <= c <= '9'
}

pub open spec fn digit_value(c: char) -> int {
    c as int - '0' as int
}

pub open spec fn all_digits(s: Seq<char>) -> bool {
    forall|i: int| 0 <= i < s.len() ==> is_digit(#[trigger] s[i])
}

/// The number that the decimal digits `s` write.
pub open spec fn decimal_value(s: Seq<char>) -> int
    decreases s.len(),
{
    if s.len() == 0 {
        0
    } else {
        decimal_value(s.drop_last()) * 10 + digit_value(s.last())
    }
}

/// The digits of a port number: a leading `'+'` is dropped when something
/// follows it.
pub open spec fn port_digits(s: Seq<char>) -> Seq<char> {
    if s.len() > 1 && s[0] == '+' {
        s.drop_first()
    } else {
        s
    }
}

/// The port number that `s` writes in decimal, if it writes one from 0 to
/// 65535: at least one digit, nothing but digits after an optional `'+'`.
pub open spec fn port_value(s: Seq<char>) -> Option<u16> {
    let d = port_digits(s);
    if d.len() > 0 && all_digits(d) && decimal_value(d) <= u16::MAX {
        Some(decimal_value(d) as u16)
    } else {
        None
    }
}

/// The character of the decimal digit `d`.
pub open spec fn digit_char(d: nat) -> char {
    ('0' as int + d) as char
}

/// The decimal digits of `n`, without leading zeros.
pub open spec fn decimal_text(n: nat) -> Seq<char>
    decreases n,
{
    if n < 10 {
        seq![digit_char(n)]
    } else {
        decimal_text(n / 10).push(digit_char(n % 10))
    }
}

/// The address the server listens on: every interface, at `port`.
pub open spec fn listen_address_text(port: u16) -> Seq<char> {
    "0.0.0.0:"@ + decimal_text(port as nat)
}

/// The settings, or why they are missing.
pub open spec fn config_result(port: Option<Seq<char>>, db_url: Option<Seq<char>>) -> Result<
    (u16, Seq<char>),
    ConfigError,
> {
    match port {
        None => Err(ConfigError::MissingPort),
        Some(p) => match port_value(p) {
            None => Err(ConfigError::InvalidPort),
            Some(n) => match db_url {
                None => Err(ConfigError::MissingDatabaseUrl),
                Some(u) => Ok((n, u)),
            },
        },
    }
}

/// More digits never make a number smaller.
pub proof fn lemma_decimal_value_grows(s: Seq<char>, i: int, j: int)
    requires
        0 <= i <= j <= s.len(),
        all_digits(s),
    ensures
        decimal_value(s.take(i)) <= decimal_value(s.take(j)),
        0 <= decimal_value(s.take(i)),
    decreases j - i,
{
    if i < j {
        lemma_decimal_value_grows(s, i, j - 1);
        assert(s.take(j).drop_last() =~= s.take(j - 1));
        assert(is_digit(s[j - 1]));
    } else {
        lemma_decimal_value_nonneg(s.take(i));
    }
}

pub proof fn lemma_decimal_value_nonneg(s: Seq<char>)
    requires
        all_digits(s),
    ensures
        0 <= decimal_value(s),
    decreases s.len(),
{
    if s.len() > 0 {
        assert(is_digit(s[s.len() - 1]));
        lemma_decimal_value_nonneg(s.drop_last());
    }
}

/// The port number that `text` writes, as `str::parse::<u16>` reads it.
pub fn parse_port(text: &str) -> (port: Option<u16>)
    ensures
        port == port_value(text@),
{
    let len = text.unicode_len();
    let start: usize = if len > 1 && text.get_char(0) == '+' {
        1
    } else {
        0
    };
    let ghost d = port_digits(text@);
    assert(d =~= text@.skip(start as int));
    if start == len {
        return None;
    }
    let mut value: u32 = 0;
    let mut i: usize = start;
    while i < len
        invariant
            len == text@.len(),
            start <= i <= len,
            d == text@.skip(start as int),
            d == port_digits(text@),
            d.len() == len - start,
            d.len() > 0,
            all_digits(d.take(i - start)),
            value == decimal_value(d.take(i - start)),
            value <= u16::MAX,
        decreases len - i,
    {
        let c = text.get_char(i);
        let ghost k = i - start;
        assert(d[k] == c);
        if c < '0' || c > '9' {
            assert(!all_digits(d));
            return None;
        }
        assert(d.take(k + 1).drop_last() =~= d.take(k));
        let next = value * 10 + (c as u32 - '0' as u32);
        assert(all_digits(d.take(k + 1)));
        assert(d.take(k + 1).last() == c);
        assert(next == decimal_value(d.take(k + 1)));
        if next > 65535 {
            proof {
                if all_digits(d) {
                    lemma_decimal_value_grows(d, k + 1, d.len() as int);
                    assert(d.take(d.len() as int) =~= d);
                }
            }
            return None;
        }
        value = next;
        i += 1;
    }
    assert(d.take(len - start) =~= d);
    Some(value as u16)
}

fn digit_str(d: u16) -> (s: &'static str)
    requires
        d < 10,
    ensures
        s@ == seq![digit_char(d as nat)],
{
    if d == 0 {
        proof { reveal_strlit("0"); }
        "0"
    } else if d == 1 {
        proof { reveal_strlit("1"); }
        "1"
    } else if d == 2 {
        proof { reveal_strlit("2"); }
        "2"
    } else if d == 3 {
        proof { reveal_strlit("3"); }
        "3"
    } else if d == 4 {
        proof { reveal_strlit("4"); }
        "4"
    } else if d == 5 {
        proof { reveal_strlit("5"); }
        "5"
    } else if d == 6 {
        proof { reveal_strlit("6"); }
        "6"
    } else if d == 7 {
        proof { reveal_strlit("7"); }
        "7"
    } else if d == 8 {
        proof { reveal_strlit("8"); }
        "8"
    } else {
        proof { reveal_strlit("9"); }
        "9"
    }
}

fn push_decimal(out: &mut String, n: u16)
    ensures
        final(out)@ == old(out)@ + decimal_text(n as nat),
    decreases n,
{
    if n >= 10 {
        push_decimal(out, n / 10);
    }
    out.append(digit_str(n % 10));
    proof {
        if n >= 10 {
            assert(decimal_text(n as nat) == decimal_text((n / 10) as nat).push(digit_char((n % 10) as nat)));
        }
    }
    assert(final(out)@ =~= old(out)@ + decimal_text(n as nat)) by {
        if n < 10 {
            assert(n % 10 == n);
        }
    }
}

/// The address the server listens on, `0.0.0.0:` followed by `port`.
pub fn listen_address(port: u16) -> (addr: String)
    ensures
        addr@ == listen_address_text(port),
{
    let mut addr = owned("0.0.0.0:");
    push_decimal(&mut addr, port);
    addr
}

impl Config {
    /// The settings from the values of `PORT` and `DATABASE_URL`, read in
    /// that order: the first that is missing or not a port number decides
    /// the error.
    pub fn new(port: Option<&str>, db_url: Option<&str>) -> (config: Result<Config, ConfigError>)
        ensures
            match config {
                Ok(c) => config_result(
                    match port {
                        Some(p) => Some(p@),
                        None => None,
                    },
                    match db_url {
                        Some(u) => Some(u@),
                        None => None,
                    },
                ) == Ok::<(u16, Seq<char>), ConfigError>((c.port, c.db_url@)),
                Err(e) => config_result(
                    match port {
                        Some(p) => Some(p@),
                        None => None,
                    },
                    match db_url {
                        Some(u) => Some(u@),
                        None => None,
                    },
                ) == Err::<(u16, Seq<char>), ConfigError>(e),
            },
    {
        let port = match port {
            None => return Err(ConfigError::MissingPort),
            Some(p) => match parse_port(p) {
                None => return Err(ConfigError::InvalidPort),
                Some(n) => n,
            },
        };
        match db_url {
            None => Err(ConfigError::MissingDatabaseUrl),
            Some(u) => Ok(Config { port, db_url: owned(u) }),
        }
    }
}

/// The decimal digits of a number are digits, at least one, and write the
/// number.
pub proof fn lemma_decimal_text(n: nat)
    ensures
        decimal_text(n).len() > 0,
        all_digits(decimal_text(n)),
        decimal_value(decimal_text(n)) == n,
    decreases n,
{
    if n < 10 {
        let t = decimal_text(n);
        assert(t.drop_last() =~= Seq::<char>::empty());
        assert(decimal_value(t.drop_last()) == 0);
        assert(t.last() == digit_char(n));
        assert(digit_value(digit_char(n)) == n);
        assert(decimal_value(t) == decimal_value(t.drop_last()) * 10 + digit_value(t.last()));
    } else {
        lemma_decimal_text(n / 10);
        let t = decimal_text(n);
        assert(t.drop_last() =~= decimal_text(n / 10));
        assert(t.last() == digit_char(n % 10));
        assert(digit_value(digit_char(n % 10)) == n % 10);
        vstd::arithmetic::div_mod::lemma_fundamental_div_mod(n as int, 10);
        assert(decimal_value(t) == decimal_value(t.drop_last()) * 10 + digit_value(t.last()));
        assert(decimal_value(t.drop_last()) == n / 10);
    }
}

/// The port in the listen address reads back as the same port: what follows
/// `0.0.0.0:` is parsed by `parse_port` to the port it was made from.
pub proof fn law_listen_address_round_trip(port: u16)
    ensures
        listen_address_text(port).take(8) == "0.0.0.0:"@,
        port_value(listen_address_text(port).skip(8)) == Some(port),
{
    reveal_strlit("0.0.0.0:");
    lemma_decimal_text(port as nat);
    let t = listen_address_text(port);
    assert(t.take(8) =~= "0.0.0.0:"@);
    assert(t.skip(8) =~= decimal_text(port as nat));
    assert(port_digits(decimal_text(port as nat)) == decimal_text(port as nat));
}

/// The settings come out only when both values are there and the port is a
/// number from 0 to 65535 written in decimal; a missing port is reported
/// before anything else, and a bad port before a missing database address.
pub proof fn law_config_errors(port: Option<Seq<char>>, db_url: Option<Seq<char>>)
    ensures
        port is None ==> config_result(port, db_url) == Err::<(u16, Seq<char>), ConfigError>(
            ConfigError::MissingPort,
        ),
        port matches Some(p) && port_value(p) is None ==> config_result(port, db_url) == Err::<
            (u16, Seq<char>),
            ConfigError,
        >(ConfigError::InvalidPort),
        port matches Some(p) && port_value(p) is Some && db_url is None ==> config_result(
            port,
            db_url,
        ) == Err::<(u16, Seq<char>), ConfigError>(ConfigError::MissingDatabaseUrl),
        port is Some && db_url is Some && port_value(port->0) is Some ==> config_result(
            port,
            db_url,
        ) == Ok::<(u16, Seq<char>), ConfigError>((port_value(port->0)->0, db_url->0)),
{
}

/// Every port number reads back from its decimal digits, and a text that
/// holds anything but digits (after one leading '+') is no port.
pub proof fn law_port_value(n: u16, s: Seq<char>)
    ensures
        port_value(decimal_text(n as nat)) == Some(n),
        (exists|i: int| 0 <= i < s.len() && !is_digit(#[trigger] s[i]) && !(i == 0 && s[i]
            == '+' && s.len() > 1)) ==> port_value(s) is None,
        s.len() == 0 ==> port_value(s) is None,
{
    lemma_decimal_text(n as nat);
    assert(port_digits(decimal_text(n as nat)) == decimal_text(n as nat));
    if exists|i: int| 0 <= i < s.len() && !is_digit(#[trigger] s[i]) && !(i == 0 && s[i] == '+'
        && s.len() > 1) {
        let i = choose|i: int| 0 <= i < s.len() && !is_digit(#[trigger] s[i]) && !(i == 0 && s[i]
            == '+' && s.len() > 1);
        let d = port_digits(s);
        if s.len() > 1 && s[0] == '+' {
            assert(d[i - 1] == s[i]);
            assert(!is_digit(d[i - 1]));
        } else {
            assert(!is_digit(d[i]));
        }
    }
}

} // verus!
