use vstd::prelude::*;

verus! {

/// The port listened on when none is configured.
pub const DEFAULT_PORT: u16 = 8080;

/// The largest port number.
pub const MAX_PORT: u32 = 65535;

/// An IPv4 socket address: four octets and a port.
pub struct ListenAddr {
    pub ip: [u8; 4],
    pub port: u16,
}

/// The service's configuration.
pub struct Config {
    pub socket_addr: ListenAddr,
}

/// Why a configuration could not be built.
pub enum ConfigError {
    /// `0.0.0.0:<port>` is not a socket address: the port text is not a
    /// decimal number from 0 to 65535.
    InvalidListenAddress,
}

/// An ASCII decimal digit.
pub open spec fn is_digit(c: char) -> bool {
    '0' <= c && c <= '9'
}

/// The number that a string of decimal digits denotes.
pub open spec fn decimal_value(s: Seq<char>) -> nat
    decreases s.len(),
{
    if s.len() == 0 {
        0
    } else {
        decimal_value(s.drop_last()) * 10 + (s.last() as nat - '0' as nat) as nat
    }
}

/// A port in text: one or more ASCII digits (leading zeros allowed) whose
/// value is at most 65535.
pub open spec fn is_port_text(s: Seq<char>) -> bool {
    &&& s.len() > 0
    &&& forall|i: int| 0 <= i < s.len() ==> is_digit(#[trigger] s[i])
    &&& decimal_value(s) <= 65535
}

/// The configuration for a `PORT` value: `None` when it is unset, which
/// selects port 8080. The address is `0.0.0.0` with that port.
pub open spec fn config_for(port_var: Option<Seq<char>>) -> Option<(Seq<u8>, nat)> {
    match port_var {
        None => Some((seq![0u8, 0u8, 0u8, 0u8], 8080)),
        Some(s) => if is_port_text(s) {
            Some((seq![0u8, 0u8, 0u8, 0u8], decimal_value(s)))
        } else {
            None
        },
    }
}

/// Adding a digit never lowers the value.
proof fn lemma_decimal_value_grows(s: Seq<char>, i: int, j: int)
    requires
        0 <= i <= j <= s.len(),
        forall|k: int| 0 <= k < s.len() ==> is_digit(#[trigger] s[k]),
    ensures
        decimal_value(s.take(i)) <= decimal_value(s.take(j)),
    decreases j - i,
{
    if i < j {
        lemma_decimal_value_grows(s, i, j - 1);
        assert(s.take(j).drop_last() =~= s.take(j - 1));
        assert(is_digit(s[j - 1]));
    }
}

/// Reads a port number in decimal.
pub fn parse_port(s: &str) -> (r: Option<u16>)
    ensures
        r is Some <==> is_port_text(s@),
        r matches Some(p) ==> p == decimal_value(s@),
{
    let mut value: u32 = 0;
    let mut empty = true;
    for c in it: s.chars()
        invariant
            it.seq() == s@,
            empty == (it.index() == 0),
            forall|k: int| 0 <= k < it.index() ==> is_digit(#[trigger] s@[k]),
            value == decimal_value(s@.take(it.index() as int)),
            value <= MAX_PORT,
    {
        if !('0' <= c && c <= '9') {
            return None;
        }
        let next = value * 10 + (c as u32 - '0' as u32);
        assert(s@.take(it.index() + 1).drop_last() =~= s@.take(it.index() as int));
        if next > MAX_PORT {
            proof {
                if forall|k: int| 0 <= k < s@.len() ==> is_digit(#[trigger] s@[k]) {
                    lemma_decimal_value_grows(s@, it.index() + 1, s@.len() as int);
                    assert(s@.take(s@.len() as int) =~= s@);
                }
            }
            return None;
        }
        value = next;
        empty = false;
    }
    assert(s@.take(s@.len() as int) =~= s@);
    if empty {
        None
    } else {
        Some(value as u16)
    }
}

impl Config {
    /// Builds the configuration from the value of the `PORT` environment
    /// variable, `None` when it is unset: the address `0.0.0.0:<port>`,
    /// port 8080 by default. A value that is not a decimal number from 0 to
    /// 65535 is refused.
    pub fn from_env(port_var: Option<&str>) -> (r: Result<Config, ConfigError>)
        ensures
            config_for(
                match port_var {
                    Some(s) => Some(s@),
                    None => None,
                },
            ) == match r {
                Ok(c) => Some((c.socket_addr.ip@, c.socket_addr.port as nat)),
                Err(_) => None,
            },
    {
        let port = match port_var {
            None => DEFAULT_PORT,
            Some(s) => match parse_port(s) {
                Some(p) => p,
                None => {
                    return Err(ConfigError::InvalidListenAddress);
                },
            },
        };
        let ip: [u8; 4] = [0u8, 0u8, 0u8, 0u8];
        assert(ip@ =~= seq![0u8, 0u8, 0u8, 0u8]);
        Ok(Config { socket_addr: ListenAddr { ip, port } })
    }
}

} // verus!
