use vstd::prelude::*;

verus! {

/// The port listened on when none is configured, or the setting is unusable.
pub const DEFAULT_PORT: u16 = 8080;

/// The numeric value of a string of decimal digits.
pub open spec fn decimal_value(s: Seq<char>) -> nat
    decreases s.len(),
{
    if s.len() == 0 {
        0
    } else {
        decimal_value(s.drop_last()) * 10 + (s.last() as nat - '0' as nat) as nat
    }
}

/// What `u16` parsing accepts: an optional `+`, then one or more ASCII digits
/// whose value fits in 16 bits. Anything else, whitespace included, is refused.
pub open spec fn parsed_u16(s: Seq<char>) -> Option<u16> {
    let d = if s.len() > 0 && s[0] == '+' { s.drop_first() } else { s };
    if d.len() > 0 && (forall|i: int| 0 <= i < d.len() ==> '0' <= #[trigger] d[i] <= '9')
        && decimal_value(d) <= u16::MAX {
        Some(decimal_value(d) as u16)
    } else {
        None
    }
}

/// Relies on `<u16 as FromStr>::from_str` (through `str::parse`): an optional
/// `+` followed by decimal digits, refused on anything else or on overflow.
#[verifier::external_body]
fn parse_u16(s: &str) -> (r: Option<u16>)
    ensures
        r == parsed_u16(s@),
{
    s.parse::<u16>().ok()
}

/// Process configuration.
#[derive(Debug, Clone)]
pub struct Config {
    pub server_port: u16,
}

/// The port for a setting: the setting's number when it reads as a `u16`,
/// otherwise the default.
pub open spec fn port_for(setting: Option<Seq<char>>) -> u16 {
    match setting {
        Some(s) => match parsed_u16(s) {
            Some(p) => p,
            None => DEFAULT_PORT,
        },
        None => DEFAULT_PORT,
    }
}

impl Config {
    /// The configuration for a port setting that may be absent.
    pub fn from_setting(setting: Option<&str>) -> (r: Config)
        ensures
            r.server_port == port_for(
                match setting {
                    Some(s) => Some(s@),
                    None => None,
                },
            ),
    {
        match setting {
            Some(s) => match parse_u16(s) {
                Some(p) => Config { server_port: p },
                None => Config { server_port: DEFAULT_PORT },
            },
            None => Config { server_port: DEFAULT_PORT },
        }
    }
}

} // verus!
