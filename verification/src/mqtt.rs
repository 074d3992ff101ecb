//! Broker publishing rules: parsing the configured broker URL into host
//! and port, mapping the configured quality-of-service level, and deriving
//! the per-alert topic. The connection and the publish calls themselves
//! are I/O and stay with the caller; the payload comes from the JSON
//! framing.

use vstd::prelude::*;

use crate::error::AppError;
use crate::models::AlertType;

verus! {

/// Whether `p` is a prefix of `s`.
pub open spec fn spec_has_prefix(s: Seq<char>, p: Seq<char>) -> bool {
    p.len() <= s.len() && s.take(p.len() as int) == p
}

/// Whether `p` is a prefix of `s`.
pub fn has_prefix(s: &str, p: &str) -> (r: bool)
    ensures
        r == spec_has_prefix(s@, p@),
{
    let n = p.unicode_len();
    let m = s.unicode_len();
    if n > m {
        return false;
    }
    let mut i: usize = 0;
    #[verifier::loop_isolation(false)]
    while i < n
        invariant
            0 <= i <= n,
            n == p@.len(),
            m == s@.len(),
            n <= m,
            forall|k: int| 0 <= k < i ==> s@[k] == p@[k],
        decreases n - i,
    {
        if s.get_char(i) != p.get_char(i) {
            proof {
                assert(s@.take(p@.len() as int)[i as int] != p@[i as int]);
            }
            return false;
        }
        i += 1;
    }
    proof {
        assert(s@.take(p@.len() as int) =~= p@);
    }
    true
}

/// Position of the last colon of `s`, if any.
fn last_colon(s: &str) -> (r: Option<usize>)
    ensures
        match r {
            Some(i) => i < s@.len() && s@[i as int] == ':' && forall|j: int|
                i < j < s@.len() ==> s@[j] != ':',
            None => forall|j: int| 0 <= j < s@.len() ==> s@[j] != ':',
        },
{
    let n = s.unicode_len();
    let mut found: Option<usize> = None;
    let mut i: usize = 0;
    #[verifier::loop_isolation(false)]
    while i < n
        invariant
            0 <= i <= n,
            n == s@.len(),
            match found {
                Some(k) => k < i && s@[k as int] == ':' && forall|j: int|
                    k < j < i ==> s@[j] != ':',
                None => forall|j: int| 0 <= j < i ==> s@[j] != ':',
            },
        decreases n - i,
    {
        if s.get_char(i) == ':' {
            found = Some(i);
        }
        i += 1;
    }
    found
}

/// Whether the character is a decimal digit.
pub open spec fn spec_is_digit(c: char) -> bool {
    '0' <= c && c <= '9'
}

/// Whether the run is a non-empty run of decimal digits.
pub open spec fn spec_all_digits(s: Seq<char>) -> bool {
    s.len() > 0 && forall|i: int| 0 <= i < s.len() ==> spec_is_digit(#[trigger] s[i])
}

/// Numeric value of a digit run, most significant digit first.
pub open spec fn spec_digits_value(s: Seq<char>) -> int
    decreases s.len(),
{
    if s.len() == 0 {
        0
    } else {
        spec_digits_value(s.drop_last()) * 10 + (s.last() as int - '0' as int)
    }
}

/// Along a digit run, the value of a prefix never exceeds the value of the
/// whole run.
pub proof fn lemma_digits_value_prefix_le(s: Seq<char>, k: int)
    requires
        0 <= k <= s.len(),
        forall|i: int| 0 <= i < s.len() ==> spec_is_digit(#[trigger] s[i]),
    ensures
        spec_digits_value(s.take(k)) <= spec_digits_value(s),
    decreases s.len() - k,
{
    if k < s.len() {
        lemma_digits_value_prefix_le(s, k + 1);
        assert(s.take(k + 1).drop_last() =~= s.take(k));
        assert(s.take(k + 1).last() == s[k]);
        assert(spec_digits_value(s.take(k)) >= 0) by {
            lemma_digits_value_nonneg(s.take(k));
        }
    } else {
        assert(s.take(k) =~= s);
    }
}

/// A digit run's value is non-negative.
pub proof fn lemma_digits_value_nonneg(s: Seq<char>)
    requires
        forall|i: int| 0 <= i < s.len() ==> spec_is_digit(#[trigger] s[i]),
    ensures
        spec_digits_value(s) >= 0,
    decreases s.len(),
{
    if s.len() > 0 {
        assert(forall|i: int|
            0 <= i < s.drop_last().len() ==> spec_is_digit(#[trigger] s.drop_last()[i]));
        lemma_digits_value_nonneg(s.drop_last());
    }
}

/// Parse the characters of `s` from position `from` on as a port number.
fn parse_port(s: &str, from: usize) -> (r: Option<u16>)
    requires
        from <= s@.len(),
    ensures
        ({
            let t = s@.skip(from as int);
            &&& (r is Some <==> spec_all_digits(t) && spec_digits_value(t) <= 65535)
            &&& (r is Some ==> r.unwrap() == spec_digits_value(t))
        }),
{
    let ghost t = s@.skip(from as int);
    let n = s.unicode_len();
    if from == n {
        proof {
            assert(!spec_all_digits(t));
        }
        return None;
    }
    let mut acc: u32 = 0;
    let mut i: usize = from;
    #[verifier::loop_isolation(false)]
    while i < n
        invariant
            from <= i <= n,
            n == s@.len(),
            from < n,
            t == s@.skip(from as int),
            forall|k: int| from <= k < i ==> spec_is_digit(#[trigger] s@[k]),
            acc == spec_digits_value(t.take(i - from)),
            acc <= 65535,
        decreases n - i,
    {
        let c = s.get_char(i);
        if c < '0' || c > '9' {
            proof {
                assert(t[i - from] == s@[i as int]);
                assert(!spec_all_digits(t));
            }
            return None;
        }
        let d: u32 = (c as u32) - 48;
        proof {
            assert(t.take(i - from + 1).drop_last() =~= t.take(i - from));
            assert(t.take(i - from + 1).last() == s@[i as int]);
        }
        acc = acc * 10 + d;
        if acc > 65535 {
            proof {
                if spec_all_digits(t) {
                    assert(forall|k: int| 0 <= k < t.len() ==> spec_is_digit(#[trigger] t[k]));
                    lemma_digits_value_prefix_le(t, i - from + 1);
                }
            }
            return None;
        }
        i += 1;
    }
    proof {
        assert(t.take(n - from as int) =~= t);
        assert(spec_all_digits(t)) by {
            assert(forall|k: int|
                0 <= k < t.len() ==> spec_is_digit(#[trigger] t[k]));
        }
    }
    Some(acc as u16)
}

/// What parsing a broker address (the URL after its scheme) yields: the
/// text before the last colon as host and the digits after it as port, the
/// whole text with the scheme's default port when no colon is present, and
/// a configuration error when the text after the last colon is not a port
/// number.
pub open spec fn spec_host_port(
    rest: Seq<char>,
    default_port: u16,
    r: Result<(String, u16), AppError>,
) -> bool {
    if exists|i: int| 0 <= i < rest.len() && rest[i] == ':' {
        let i = choose|i: int|
            0 <= i < rest.len() && rest[i] == ':' && forall|j: int| i < j < rest.len() ==> rest[j]
                != ':';
        let digits = rest.skip(i + 1);
        if spec_all_digits(digits) && spec_digits_value(digits) <= 65535 {
            match r {
                Ok((host, port)) => host@ == rest.take(i) && port == spec_digits_value(digits),
                Err(_) => false,
            }
        } else {
            match r {
                Err(AppError::ConfigError(m)) => m@ == "Invalid port number"@,
                _ => false,
            }
        }
    } else {
        match r {
            Ok((host, port)) => host@ == rest && port == default_port,
            Err(_) => false,
        }
    }
}

/// Parse a broker URL of the form `mqtt://host[:port]` or
/// `mqtts://host[:port]` into host and port; the schemes default to ports
/// 1883 and 8883. Any other scheme is rejected.
pub fn parse_broker_url(url: &str) -> (r: Result<(String, u16), AppError>)
    ensures
        spec_has_prefix(url@, "mqtt://"@) ==> spec_host_port(url@.skip(7), 1883, r),
        !spec_has_prefix(url@, "mqtt://"@) && spec_has_prefix(url@, "mqtts://"@)
            ==> spec_host_port(url@.skip(8), 8883, r),
        !spec_has_prefix(url@, "mqtt://"@) && !spec_has_prefix(url@, "mqtts://"@) ==> match r {
            Err(AppError::ConfigError(m)) => m@
                == "MQTT broker URL must start with mqtt:// or mqtts://"@,
            _ => false,
        },
{
    proof {
        reveal_strlit("mqtt://");
        reveal_strlit("mqtts://");
    }
    let n = url.unicode_len();
    if has_prefix(url, "mqtt://") {
        let rest = url.substring_char(7, n);
        proof {
            assert(rest@ =~= url@.skip(7));
        }
        host_port(rest, 1883)
    } else if has_prefix(url, "mqtts://") {
        let rest = url.substring_char(8, n);
        proof {
            assert(rest@ =~= url@.skip(8));
        }
        host_port(rest, 8883)
    } else {
        Err(AppError::ConfigError("MQTT broker URL must start with mqtt:// or mqtts://".to_owned()))
    }
}

/// Split a broker address into host and port, defaulting the port.
fn host_port(rest: &str, default_port: u16) -> (r: Result<(String, u16), AppError>)
    ensures
        spec_host_port(rest@, default_port, r),
{
    let n = rest.unicode_len();
    match last_colon(rest) {
        Some(i) => {
            match parse_port(rest, i + 1) {
                Some(port) => {
                    let host = rest.substring_char(0, i).to_owned();
                    proof {
                        let w = choose|w: int|
                            0 <= w < rest@.len() && rest@[w] == ':' && forall|j: int|
                                w < j < rest@.len() ==> rest@[j] != ':';
                        assert(w == i as int) by {
                            if w < i as int {
                                assert(rest@[i as int] == ':');
                            } else if w > i as int {
                                assert(rest@[w] == ':');
                            }
                        }
                    }
                    Ok((host, port))
                },
                None => {
                    proof {
                        let w = choose|w: int|
                            0 <= w < rest@.len() && rest@[w] == ':' && forall|j: int|
                                w < j < rest@.len() ==> rest@[j] != ':';
                        assert(w == i as int) by {
                            if w < i as int {
                                assert(rest@[i as int] == ':');
                            } else if w > i as int {
                                assert(rest@[w] == ':');
                            }
                        }
                    }
                    Err(AppError::ConfigError("Invalid port number".to_owned()))
                },
            }
        },
        None => {
            let host = rest.to_owned();
            Ok((host, default_port))
        },
    }
}

/// Quality-of-service level of a broker publish.
#[derive(Debug, Clone, Copy, PartialEq, Eq, Structural)]
pub enum MqttQos {
    AtMostOnce,
    AtLeastOnce,
    ExactlyOnce,
}

/// The QoS for a configured level: 0, 1 and 2 map to their levels, any
/// other value falls back to at-least-once.
pub open spec fn spec_qos_from_level(level: u8) -> MqttQos {
    if level == 0 {
        MqttQos::AtMostOnce
    } else if level == 2 {
        MqttQos::ExactlyOnce
    } else {
        MqttQos::AtLeastOnce
    }
}

/// The QoS for a configured level.
#[verifier::when_used_as_spec(spec_qos_from_level)]
pub fn qos_from_level(level: u8) -> (r: MqttQos)
    ensures
        r == spec_qos_from_level(level),
{
    if level == 0 {
        MqttQos::AtMostOnce
    } else if level == 2 {
        MqttQos::ExactlyOnce
    } else {
        MqttQos::AtLeastOnce
    }
}

/// The broker topic of an alert: the configured prefix, a slash, the alert
/// type tag.
pub open spec fn spec_mqtt_topic(prefix: Seq<char>, ty: AlertType) -> Seq<char> {
    prefix + "/"@ + ty.spec_tag()
}

/// The broker topic of an alert.
pub fn mqtt_topic(prefix: &str, ty: AlertType) -> (r: String)
    ensures
        r@ == spec_mqtt_topic(prefix@, ty),
{
    let mut r = prefix.to_owned();
    r.append("/");
    r.append(ty.tag());
    proof {
        assert(r@ =~= spec_mqtt_topic(prefix@, ty));
    }
    r
}

} // verus!
