//! The configuration of the service: the port to listen on, the path of the
//! database and the name of the environment, each with its default.

use vstd::prelude::*;
use vstd::string::*;

verus! {

pub const DEFAULT_PORT: u16 = 3002;

pub const DEFAULT_DATABASE_PATH: &'static str = "./db/tictactoe.db";

pub const DEFAULT_ENVIRONMENT: &'static str = "development";

/// The value of a decimal digit.
pub open spec fn digit_value(c: char) -> Option<int> {
    if '0' <= c <= '9' {
        Some(c as int - '0' as int)
    } else {
        None
    }
}

/// The number that a text of decimal digits denotes; the empty text denotes
/// 0, and a text with any other character denotes nothing.
pub open spec fn digits_value(digits: Seq<char>) -> Option<int>
    decreases digits.len(),
{
    if digits.len() == 0 {
        Some(0)
    } else {
        match (digits_value(digits.drop_last()), digit_value(digits.last())) {
            (Some(value), Some(digit)) => Some(value * 10 + digit),
            _ => None,
        }
    }
}

/// The port that a text denotes: one or more decimal digits, after an
/// optional plus sign, whose number is a port.
pub open spec fn port_of(text: Seq<char>) -> Option<u16> {
    let digits = if text.len() > 0 && text[0] == '+' {
        text.subrange(1, text.len() as int)
    } else {
        text
    };
    if digits.len() == 0 {
        None
    } else {
        match digits_value(digits) {
            Some(value) if value <= u16::MAX => Some(value as u16),
            _ => None,
        }
    }
}

/// A number that has left the range of ports stays out of it, whatever
/// follows.
proof fn lemma_digits_grow(digits: Seq<char>, n: int)
    requires
        0 <= n <= digits.len(),
    ensures
        digits_value(digits.take(n)) is None ==> digits_value(digits) is None,
        digits_value(digits) matches Some(value) ==> digits_value(digits.take(n)) matches Some(
            prefix,
        ) && 0 <= prefix <= value,
    decreases digits.len() - n,
{
    if n == digits.len() {
        assert(digits.take(n) =~= digits);
        lemma_digits_grow_base(digits);
    } else {
        lemma_digits_grow(digits, n + 1);
        assert(digits.take(n + 1).drop_last() =~= digits.take(n));
        lemma_digits_grow_base(digits.take(n));
    }
}

proof fn lemma_digits_grow_base(digits: Seq<char>)
    ensures
        digits_value(digits) matches Some(value) ==> value >= 0,
    decreases digits.len(),
{
    if digits.len() > 0 {
        lemma_digits_grow_base(digits.drop_last());
    }
}

/// Decodes a port.
pub fn parse_port(text: &str) -> (r: Option<u16>)
    ensures
        r == port_of(text@),
{
    let n = text.unicode_len();
    let start: usize = if n > 0 && text.get_char(0) == '+' {
        1
    } else {
        0
    };
    if start == n {
        return None;
    }
    let ghost digits = text@.subrange(start as int, n as int);
    proof {
        if start == 0 {
            assert(digits =~= text@);
        }
        assert(digits_value(digits.take(0)) == Some(0int));
    }
    let mut value: u32 = 0;
    let mut i: usize = start;
    while i < n
        invariant
            n == text@.len(),
            start <= i <= n,
            digits == text@.subrange(start as int, n as int),
            digits.len() > 0,
            port_of(text@) == match digits_value(digits) {
                Some(value) if value <= u16::MAX => Some(value as u16),
                _ => None,
            },
            digits_value(digits.take(i - start)) == Some(value as int),
            value <= u16::MAX,
        decreases n - i,
    {
        let c = text.get_char(i);
        proof {
            assert(digits.take(i - start + 1).drop_last() =~= digits.take(i - start));
            assert(digits.take(i - start + 1).last() == c);
            lemma_digits_grow(digits, i - start + 1);
        }
        if c < '0' || c > '9' {
            return None;
        }
        let digit: u32 = c as u32 - '0' as u32;
        value = value * 10 + digit;
        if value > 65535 {
            return None;
        }
        i += 1;
    }
    proof {
        assert(digits.take(n - start) =~= digits);
    }
    Some(value as u16)
}

#[derive(Debug)]
pub struct Config {
    port: u16,
    database_path: String,
    environment: String,
}

impl Config {
    /// The configuration that the given settings make, each an optional
    /// text: the port where it denotes one and `DEFAULT_PORT` otherwise, the
    /// database path or `DEFAULT_DATABASE_PATH`, and the environment or
    /// `DEFAULT_ENVIRONMENT`.
    pub fn from_values(
        port: Option<String>,
        database_path: Option<String>,
        environment: Option<String>,
    ) -> (config: Config)
        ensures
            config.port_value() == match port {
                Some(text) => match port_of(text@) {
                    Some(number) => number,
                    None => DEFAULT_PORT,
                },
                None => DEFAULT_PORT,
            },
            config.database_path_text() == match database_path {
                Some(path) => path@,
                None => DEFAULT_DATABASE_PATH@,
            },
            config.environment_text() == match environment {
                Some(name) => name@,
                None => DEFAULT_ENVIRONMENT@,
            },
    {
        let port = match port {
            Some(text) => match parse_port(text.as_str()) {
                Some(number) => number,
                None => DEFAULT_PORT,
            },
            None => DEFAULT_PORT,
        };
        let database_path = match database_path {
            Some(path) => path,
            None => String::from_str(DEFAULT_DATABASE_PATH),
        };
        let environment = match environment {
            Some(name) => name,
            None => String::from_str(DEFAULT_ENVIRONMENT),
        };
        Config { port, database_path, environment }
    }

    /// The port to listen on.
    pub closed spec fn port_value(&self) -> u16 {
        self.port
    }

    /// The path of the database.
    pub closed spec fn database_path_text(&self) -> Seq<char> {
        self.database_path@
    }

    /// The name of the environment.
    pub closed spec fn environment_text(&self) -> Seq<char> {
        self.environment@
    }

    /// The port to listen on.
    pub fn port(&self) -> (port: u16)
        ensures
            port == self.port_value(),
    {
        self.port
    }

    /// The path of the database.
    pub fn database_path(&self) -> (path: &str)
        ensures
            path@ == self.database_path_text(),
    {
        self.database_path.as_str()
    }

    /// The name of the environment.
    pub fn environment(&self) -> (name: &str)
        ensures
            name@ == self.environment_text(),
    {
        self.environment.as_str()
    }
}

} // verus!
