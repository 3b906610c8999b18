//! Configuration: the values a program starts with, made from the settings
//! that were found and the defaults for those that were not.

use vstd::prelude::*;
use vstd::string::is_ascii_spec_bytes;

verus! {

/// Broker host used when none is set.
pub const DEFAULT_BROKER_HOST: &'static str = "localhost";

/// Broker port used when none is set, or when the setting is no port number.
pub const DEFAULT_BROKER_PORT: u16 = 1883;

/// Topic used when none is set.
pub const DEFAULT_TOPIC: &'static str = "frigate/events";

/// Base address of the detector used when none is set.
pub const DEFAULT_FRIGATE_BASE: &'static str = "http://localhost:5000";

/// Camera scope used when none is set.
pub const DEFAULT_CAMERA: &'static str = "demo";

/// Whether the character is a decimal digit.
pub open spec fn is_digit(c: char) -> bool {
    '0' <= c <= '9'
}

/// Whether the text consists of decimal digits only.
pub open spec fn all_digits(text: Seq<char>) -> bool {
    forall|i: int| 0 <= i < text.len() ==> is_digit(#[trigger] text[i])
}

/// The number that a run of decimal digits denotes.
pub open spec fn digits_value(digits: Seq<char>) -> nat
    decreases digits.len(),
{
    if digits.len() == 0 {
        0
    } else {
        digits_value(digits.drop_last()) * 10 + ((digits.last() as nat) - ('0' as nat)) as nat
    }
}

/// The text without a leading plus sign.
pub open spec fn unsigned_part(text: Seq<char>) -> Seq<char> {
    if text.len() > 0 && text[0] == '+' {
        text.skip(1)
    } else {
        text
    }
}

/// The port number that a text denotes: an optional plus sign followed by
/// one or more decimal digits whose value fits into sixteen bits. Any other
/// text, also one with blanks around the number, denotes none.
pub open spec fn parsed_port(text: Seq<char>) -> Option<u16> {
    let digits = unsigned_part(text);
    if digits.len() > 0 && all_digits(digits) && digits_value(digits) <= u16::MAX {
        Some(digits_value(digits) as u16)
    } else {
        None
    }
}

/// Reads a port number, see [`parsed_port`].
pub fn parse_port(text: &str) -> (port: Option<u16>)
    ensures
        port == parsed_port(text@),
{
    if !text.is_ascii() {
        proof {
            lemma_digits_are_ascii(text@);
        }
        return None;
    }
    let bytes = text.as_bytes();
    proof {
        is_ascii_spec_bytes(text);
    }
    let n = bytes.len();
    let start: usize = if n > 0 && bytes[0] == 43 {
        1
    } else {
        0
    };
    let ghost digits = unsigned_part(text@);
    assert(digits =~= text@.skip(start as int));
    if start == n {
        return None;
    }
    let mut value: u32 = 0;
    let mut overflow = false;
    let mut i: usize = start;
    while i < n
        invariant
            start <= i <= n,
            n == bytes@.len(),
            n == text@.len(),
            forall|k: int| 0 <= k < n ==> bytes@[k] == (#[trigger] text@[k]) as u8,
            forall|k: int| 0 <= k < n ==> '\0' <= #[trigger] text@[k] <= '\u{7f}',
            all_digits(text@.subrange(start as int, i as int)),
            !overflow ==> value == digits_value(text@.subrange(start as int, i as int)) && value
                <= u16::MAX,
            overflow ==> digits_value(text@.subrange(start as int, i as int)) > u16::MAX,
            digits == text@.skip(start as int),
            digits == unsigned_part(text@),
        decreases n - i,
    {
        let byte = bytes[i];
        let ghost seen = text@.subrange(start as int, i as int);
        let ghost next = text@.subrange(start as int, i + 1);
        assert(next.drop_last() =~= seen);
        assert(next.last() == text@[i as int]);
        if byte < 48 || byte > 57 {
            assert(!is_digit(digits[i - start]));
            return None;
        }
        assert(is_digit(text@[i as int]));
        assert forall|k: int| 0 <= k < next.len() implies is_digit(#[trigger] next[k]) by {
            if k < seen.len() {
                assert(next[k] == seen[k]);
            }
        }
        if !overflow {
            value = value * 10 + (byte - 48) as u32;
            if value > 65535 {
                overflow = true;
            }
        }
        i += 1;
    }
    assert(text@.subrange(start as int, n as int) =~= digits);
    if overflow {
        None
    } else {
        Some(value as u16)
    }
}

/// A text with a character outside ASCII is no run of digits, with or
/// without a plus sign in front.
proof fn lemma_digits_are_ascii(text: Seq<char>)
    requires
        !vstd::utf8::is_ascii_chars(text),
    ensures
        !all_digits(unsigned_part(text)),
{
    let at = choose|i: int| 0 <= i < text.len() && !('\0' <= #[trigger] text[i] <= '\u{7f}');
    let digits = unsigned_part(text);
    if text[0] == '+' {
        assert(at > 0);
        assert(digits[at - 1] == text[at]);
        assert(!is_digit(digits[at - 1]));
    } else {
        assert(!is_digit(digits[at]));
    }
}

/// The setting if there is one, else the fallback.
pub open spec fn text_or(setting: Option<Seq<char>>, fallback: Seq<char>) -> Seq<char> {
    match setting {
        Some(text) => text,
        None => fallback,
    }
}

/// The port that a setting denotes, else [`DEFAULT_BROKER_PORT`]: also for
/// a setting that is no port number.
pub open spec fn port_or_default(setting: Option<Seq<char>>) -> u16 {
    match setting {
        Some(text) => match parsed_port(text) {
            Some(port) => port,
            None => DEFAULT_BROKER_PORT,
        },
        None => DEFAULT_BROKER_PORT,
    }
}

/// The setting if there is one, else the fallback.
fn or_fallback(setting: Option<String>, fallback: &str) -> (text: String)
    ensures
        text@ == text_or(setting.deep_view(), fallback@),
{
    match setting {
        Some(text) => text,
        None => fallback.to_owned(),
    }
}

/// The port that a setting denotes, else the default.
fn port_or_fallback(setting: &Option<String>) -> (port: u16)
    ensures
        port == port_or_default(setting.deep_view()),
{
    match setting {
        Some(text) => match parse_port(text.as_str()) {
            Some(port) => port,
            None => DEFAULT_BROKER_PORT,
        },
        None => DEFAULT_BROKER_PORT,
    }
}

/// Settings of the agent.
#[derive(Clone, Debug)]
pub struct Config {
    pub broker_host: String,
    pub broker_port: u16,
    pub topic: String,
    pub frigate_base: String,
}

impl Config {
    /// Makes the configuration from the settings that were found: each one
    /// that is missing gets its default, and so does a port that is no port
    /// number.
    pub fn from_vars(
        broker_host: Option<String>,
        broker_port: Option<String>,
        topic: Option<String>,
        frigate_base: Option<String>,
    ) -> (config: Config)
        ensures
            config.broker_host@ == text_or(broker_host.deep_view(), DEFAULT_BROKER_HOST@),
            config.broker_port == port_or_default(broker_port.deep_view()),
            config.topic@ == text_or(topic.deep_view(), DEFAULT_TOPIC@),
            config.frigate_base@ == text_or(frigate_base.deep_view(), DEFAULT_FRIGATE_BASE@),
    {
        Config {
            broker_host: or_fallback(broker_host, DEFAULT_BROKER_HOST),
            broker_port: port_or_fallback(&broker_port),
            topic: or_fallback(topic, DEFAULT_TOPIC),
            frigate_base: or_fallback(frigate_base, DEFAULT_FRIGATE_BASE),
        }
    }
}

/// Settings of the presence monitor.
#[derive(Clone, Debug)]
pub struct MonitorConfig {
    pub broker_host: String,
    pub broker_port: u16,
    /// The camera scope whose idle status is published.
    pub camera: String,
}

impl MonitorConfig {
    /// Makes the configuration from the settings that were found: each one
    /// that is missing gets its default, and so does a port that is no port
    /// number.
    pub fn from_vars(
        broker_host: Option<String>,
        broker_port: Option<String>,
        camera: Option<String>,
    ) -> (config: MonitorConfig)
        ensures
            config.broker_host@ == text_or(broker_host.deep_view(), DEFAULT_BROKER_HOST@),
            config.broker_port == port_or_default(broker_port.deep_view()),
            config.camera@ == text_or(camera.deep_view(), DEFAULT_CAMERA@),
    {
        MonitorConfig {
            broker_host: or_fallback(broker_host, DEFAULT_BROKER_HOST),
            broker_port: port_or_fallback(&broker_port),
            camera: or_fallback(camera, DEFAULT_CAMERA),
        }
    }
}

} // verus!
