//! Settings of the bridge, resolved from their configured texts.
//!
//! Each setting arrives as the text that the deployment configured for it, or
//! as `None` where it configured nothing. The broker's client name, host and
//! port must be there; the keep-alive interval and the capacity of the broker
//! client's request queue fall back to a default where they are missing or
//! are no number.

use vstd::prelude::*;
use vstd::string::StrSliceExecFns;

verus! {

/// Seconds between keep-alive messages to the broker, unless configured.
pub const DEFAULT_KEEP_ALIVE_SECS: u64 = 5;

/// Capacity of the broker client's request queue, unless configured.
pub const DEFAULT_CHANNEL_CAPACITY: usize = 10;

/// What it takes to connect to the broker.
#[derive(Debug, Clone, PartialEq, Eq)]
pub struct BrokerSettings {
    pub client_name: String,
    pub host: String,
    pub port: u16,
    pub keep_alive_secs: u64,
    pub channel_capacity: usize,
}

/// A setting that must be there and is not, or that cannot be read.
#[derive(Clone, Copy, Debug, PartialEq, Eq, Structural)]
pub enum SettingsError {
    ClientNameMissing,
    BrokerHostMissing,
    BrokerPortMissing,
    BrokerPortUnparsable,
}

/// The value of a decimal digit.
pub open spec fn digit_spec(c: char) -> Option<nat> {
    if c == '0' {
        Some(0)
    } else if c == '1' {
        Some(1)
    } else if c == '2' {
        Some(2)
    } else if c == '3' {
        Some(3)
    } else if c == '4' {
        Some(4)
    } else if c == '5' {
        Some(5)
    } else if c == '6' {
        Some(6)
    } else if c == '7' {
        Some(7)
    } else if c == '8' {
        Some(8)
    } else if c == '9' {
        Some(9)
    } else {
        None
    }
}

/// Every character of `text` is a decimal digit.
pub open spec fn all_digits(text: Seq<char>) -> bool {
    forall|i: int| 0 <= i < text.len() ==> digit_spec(#[trigger] text[i]) is Some
}

/// The number that the digits of `digits` write, the first digit being the
/// most significant.
pub open spec fn digits_value(digits: Seq<char>) -> nat
    decreases digits.len(),
{
    if digits.len() == 0 {
        0
    } else {
        digits_value(digits.drop_last()) * 10 + digit_spec(digits.last()).unwrap()
    }
}

/// `text` without the one `+` that may start a number.
pub open spec fn without_plus(text: Seq<char>) -> Seq<char> {
    if text.len() > 0 && text[0] == '+' {
        text.subrange(1, text.len() as int)
    } else {
        text
    }
}

/// The number up to `max` that `text` writes in decimal: an optional `+` and
/// then one digit or more, and nothing else. Any other text, blanks included,
/// writes no number, and neither does one that writes a number above `max`.
pub open spec fn parse_decimal_spec(text: Seq<char>, max: nat) -> Option<nat> {
    let digits = without_plus(text);
    if digits.len() > 0 && all_digits(digits) && digits_value(digits) <= max {
        Some(digits_value(digits))
    } else {
        None
    }
}

/// A number does not shrink as digits are appended to it.
pub proof fn lemma_digits_value_grows(digits: Seq<char>, i: int)
    requires
        0 <= i <= digits.len(),
    ensures
        digits_value(digits.take(i)) <= digits_value(digits),
    decreases digits.len() - i,
{
    if i < digits.len() {
        lemma_digits_value_grows(digits, i + 1);
        assert(digits.take(i + 1).drop_last() =~= digits.take(i));
    } else {
        assert(digits.take(i) =~= digits);
    }
}

/// Reads one decimal digit.
pub fn digit_value(c: char) -> (digit: Option<u64>)
    ensures
        match digit {
            Some(d) => digit_spec(c) == Some(d as nat),
            None => digit_spec(c) is None,
        },
{
    match c {
        '0' => Some(0),
        '1' => Some(1),
        '2' => Some(2),
        '3' => Some(3),
        '4' => Some(4),
        '5' => Some(5),
        '6' => Some(6),
        '7' => Some(7),
        '8' => Some(8),
        '9' => Some(9),
        _ => None,
    }
}

/// Reads a decimal number that is no greater than `max`.
pub fn parse_decimal(text: &str, max: u64) -> (number: Option<u64>)
    ensures
        match number {
            Some(n) => parse_decimal_spec(text@, max as nat) == Some(n as nat),
            None => parse_decimal_spec(text@, max as nat) is None,
        },
{
    let n: usize = text.unicode_len();
    if n == 0 {
        return None;
    }
    let start: usize = if text.get_char(0) == '+' {
        1
    } else {
        0
    };
    let digits = text.substring_char(start, n);
    assert(digits@ =~= without_plus(text@));
    if start == n {
        return None;
    }
    let mut value: u64 = 0;
    let mut i: usize = 0;
    for c in it: digits.chars()
        invariant
            i == it.index(),
            it.seq() == digits@,
            i <= digits@.len() <= usize::MAX,
            digits@ == without_plus(text@),
            all_digits(digits@.take(i as int)),
            value == digits_value(digits@.take(i as int)),
            value <= max,
    {
        proof {
            assert(digits@.take(i + 1).drop_last() =~= digits@.take(i as int));
            assert(digits@.take(i + 1).last() == c);
            lemma_digits_value_grows(digits@, i + 1);
        }
        match digit_value(c) {
            Some(d) => {
                if d > max || value > (max - d) / 10 {
                    assert(digits_value(digits@.take(i + 1)) == value * 10 + d);
                    assert(value * 10 + d > max);
                    return None;
                }
                value = value * 10 + d;
            },
            None => {
                assert(!all_digits(digits@)) by {
                    assert(digit_spec(digits@[i as int]) is None);
                }
                return None;
            },
        }
        proof {
            assert forall|j: int| 0 <= j < i + 1 implies digit_spec(
                #[trigger] digits@.take(i + 1)[j],
            ) is Some by {
                if j < i {
                    assert(digits@.take(i as int)[j] == digits@.take(i + 1)[j]);
                }
            }
        }
        i = i + 1;
    }
    assert(digits@.take(i as int) =~= digits@);
    Some(value)
}

/// `BrokerSettings` with its texts as sequences of characters.
pub struct BrokerSettingsView {
    pub client_name: Seq<char>,
    pub host: Seq<char>,
    pub port: u16,
    pub keep_alive_secs: u64,
    pub channel_capacity: usize,
}

impl View for BrokerSettings {
    type V = BrokerSettingsView;

    open spec fn view(&self) -> BrokerSettingsView {
        BrokerSettingsView {
            client_name: self.client_name@,
            host: self.host@,
            port: self.port,
            keep_alive_secs: self.keep_alive_secs,
            channel_capacity: self.channel_capacity,
        }
    }
}

/// A configured text as a sequence of characters.
pub open spec fn configured(text: Option<String>) -> Option<Seq<char>> {
    match text {
        Some(t) => Some(t@),
        None => None,
    }
}

/// The number up to `max` that a setting has: the one that its text writes,
/// or `default` where there is no text or the text writes none.
pub open spec fn number_or_spec(text: Option<Seq<char>>, max: nat, default: nat) -> nat {
    match text {
        Some(t) => match parse_decimal_spec(t, max) {
            Some(n) => n,
            None => default,
        },
        None => default,
    }
}

/// The settings that the configured texts resolve to. Of several faults the
/// first is reported, in the order client name, host, port.
pub open spec fn resolve_spec(
    client_name: Option<Seq<char>>,
    host: Option<Seq<char>>,
    port: Option<Seq<char>>,
    keep_alive: Option<Seq<char>>,
    channel_capacity: Option<Seq<char>>,
) -> Result<BrokerSettingsView, SettingsError> {
    if client_name is None {
        Err(SettingsError::ClientNameMissing)
    } else if host is None {
        Err(SettingsError::BrokerHostMissing)
    } else if port is None {
        Err(SettingsError::BrokerPortMissing)
    } else if parse_decimal_spec(port.unwrap(), u16::MAX as nat) is None {
        Err(SettingsError::BrokerPortUnparsable)
    } else {
        Ok(
            BrokerSettingsView {
                client_name: client_name.unwrap(),
                host: host.unwrap(),
                port: parse_decimal_spec(port.unwrap(), u16::MAX as nat).unwrap() as u16,
                keep_alive_secs: number_or_spec(
                    keep_alive,
                    u64::MAX as nat,
                    DEFAULT_KEEP_ALIVE_SECS as nat,
                ) as u64,
                channel_capacity: number_or_spec(
                    channel_capacity,
                    usize::MAX as nat,
                    DEFAULT_CHANNEL_CAPACITY as nat,
                ) as usize,
            },
        )
    }
}

/// Reads a setting that is a number up to `max` and has a default.
fn number_or(text: &Option<String>, max: u64, default: u64) -> (number: u64)
    requires
        default <= max,
    ensures
        number == number_or_spec(configured(*text), max as nat, default as nat),
        number <= max,
{
    match text {
        Some(t) => match parse_decimal(t.as_str(), max) {
            Some(n) => n,
            None => default,
        },
        None => default,
    }
}

/// Resolves the broker settings from their configured texts.
pub fn resolve_broker_settings(
    client_name: Option<String>,
    host: Option<String>,
    port: Option<String>,
    keep_alive: Option<String>,
    channel_capacity: Option<String>,
) -> (resolved: Result<BrokerSettings, SettingsError>)
    ensures
        match resolved {
            Ok(settings) => resolve_spec(
                configured(client_name),
                configured(host),
                configured(port),
                configured(keep_alive),
                configured(channel_capacity),
            ) == Ok::<BrokerSettingsView, SettingsError>(settings@),
            Err(e) => resolve_spec(
                configured(client_name),
                configured(host),
                configured(port),
                configured(keep_alive),
                configured(channel_capacity),
            ) == Err::<BrokerSettingsView, SettingsError>(e),
        },
{
    let client_name = match client_name {
        Some(name) => name,
        None => return Err(SettingsError::ClientNameMissing),
    };
    let host = match host {
        Some(host) => host,
        None => return Err(SettingsError::BrokerHostMissing),
    };
    let port = match port {
        Some(port) => match parse_decimal(port.as_str(), 65535) {
            Some(n) => n as u16,
            None => return Err(SettingsError::BrokerPortUnparsable),
        },
        None => return Err(SettingsError::BrokerPortMissing),
    };
    let keep_alive_secs = number_or(&keep_alive, u64::MAX, DEFAULT_KEEP_ALIVE_SECS);
    let channel_capacity = number_or(
        &channel_capacity,
        usize::MAX as u64,
        DEFAULT_CHANNEL_CAPACITY as u64,
    ) as usize;
    Ok(BrokerSettings { client_name, host, port, keep_alive_secs, channel_capacity })
}

impl SettingsError {
    /// The fault in words, naming the setting by its environment variable.
    pub fn message(&self) -> (text: &'static str)
        ensures
            text@ == match *self {
                SettingsError::ClientNameMissing => "MQTT_CLIENT_NAME must be set"@,
                SettingsError::BrokerHostMissing => "MQTT_BROKER_HOST must be set"@,
                SettingsError::BrokerPortMissing => "MQTT_BROKER_PORT must be set"@,
                SettingsError::BrokerPortUnparsable => "MQTT_BROKER_PORT unparsable"@,
            },
    {
        match self {
            SettingsError::ClientNameMissing => "MQTT_CLIENT_NAME must be set",
            SettingsError::BrokerHostMissing => "MQTT_BROKER_HOST must be set",
            SettingsError::BrokerPortMissing => "MQTT_BROKER_PORT must be set",
            SettingsError::BrokerPortUnparsable => "MQTT_BROKER_PORT unparsable",
        }
    }
}

/// The address that the server listens on: the configured one, or the local
/// default.
pub fn listen_address(configured_address: Option<String>) -> (address: String)
    ensures
        address@ == match configured_address {
            Some(a) => a@,
            None => "127.0.0.1:3030"@,
        },
{
    match configured_address {
        Some(a) => a,
        None => "127.0.0.1:3030".to_owned(),
    }
}

} // verus!
