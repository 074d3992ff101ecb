//! JSON framing of outbound payloads: string escaping and the two alert
//! payload shapes (broker publish and live push). The payloads are built
//! character-exactly, keys in lexicographic order.

use vstd::prelude::*;

use crate::models::{Alert, MAX_EPOCH_SECONDS};
use crate::time::{rfc3339_of, rfc3339_utc};

verus! {

/// The lowercase hex digit for a value below sixteen.
pub open spec fn hex_digit(d: nat) -> char {
    if d < 10 {
        crate::strfmt::dec_digit(d)
    } else if d == 10 {
        'a'
    } else if d == 11 {
        'b'
    } else if d == 12 {
        'c'
    } else if d == 13 {
        'd'
    } else if d == 14 {
        'e'
    } else {
        'f'
    }
}

/// JSON escape of one character: quote and backslash get a backslash, the
/// named control characters their short escapes, other control characters
/// a `\u00XX` escape, everything else passes through.
pub open spec fn spec_json_escape_char(c: char) -> Seq<char> {
    if c == '"' {
        seq!['\\', '"']
    } else if c == '\\' {
        seq!['\\', '\\']
    } else if c == '\n' {
        seq!['\\', 'n']
    } else if c == '\r' {
        seq!['\\', 'r']
    } else if c == '\t' {
        seq!['\\', 't']
    } else if (c as nat) < 0x20 {
        seq!['\\', 'u', '0', '0', hex_digit(c as nat / 16), hex_digit(c as nat % 16)]
    } else {
        seq![c]
    }
}

/// JSON escape of a run of characters.
pub open spec fn spec_json_escape(s: Seq<char>) -> Seq<char>
    decreases s.len(),
{
    if s.len() == 0 {
        Seq::empty()
    } else {
        spec_json_escape_char(s[0]) + spec_json_escape(s.drop_first())
    }
}

/// An escaped run ends with the escape of its last character.
proof fn lemma_json_escape_snoc(s: Seq<char>)
    requires
        s.len() > 0,
    ensures
        spec_json_escape(s) == spec_json_escape(s.drop_last()) + spec_json_escape_char(s.last()),
    decreases s.len(),
{
    if s.len() == 1 {
        assert(s.drop_last() =~= Seq::<char>::empty());
        assert(spec_json_escape(s.drop_first()) =~= Seq::<char>::empty());
        assert(spec_json_escape(s) =~= spec_json_escape(s.drop_last()) + spec_json_escape_char(
            s.last(),
        ));
    } else {
        lemma_json_escape_snoc(s.drop_first());
        assert(s.drop_first().drop_last() =~= s.drop_last().drop_first());
        assert(s.drop_first().last() == s.last());
        assert(spec_json_escape(s) =~= spec_json_escape(s.drop_last()) + spec_json_escape_char(
            s.last(),
        ));
    }
}

/// One-character string for a lowercase hex digit.
fn hex_digit_str(d: u32) -> (s: &'static str)
    requires
        d < 16,
    ensures
        s@ == seq![hex_digit(d as nat)],
{
    proof {
        reveal_strlit("a");
        reveal_strlit("b");
        reveal_strlit("c");
        reveal_strlit("d");
        reveal_strlit("e");
        reveal_strlit("f");
    }
    if d < 10 {
        crate::strfmt::digit_str(d as u64)
    } else {
        let s = match d {
            10 => "a",
            11 => "b",
            12 => "c",
            13 => "d",
            14 => "e",
            _ => "f",
        };
        proof {
            assert(s@ =~= seq![hex_digit(d as nat)]);
        }
        s
    }
}

/// Escape a string for inclusion in a JSON string literal.
pub fn json_escape(s: &str) -> (r: String)
    ensures
        r@ == spec_json_escape(s@),
{
    let n = s.unicode_len();
    let mut out = String::new();
    let mut i: usize = 0;
    #[verifier::loop_isolation(false)]
    while i < n
        invariant
            0 <= i <= s@.len(),
            n == s@.len(),
            out@ == spec_json_escape(s@.take(i as int)),
        decreases s@.len() - i,
    {
        let c = s.get_char(i);
        if c == '"' {
            out.append("\\\"");
        } else if c == '\\' {
            out.append("\\\\");
        } else if c == '\n' {
            out.append("\\n");
        } else if c == '\r' {
            out.append("\\r");
        } else if c == '\t' {
            out.append("\\t");
        } else if (c as u32) < 0x20 {
            out.append("\\u00");
            out.append(hex_digit_str((c as u32) / 16));
            out.append(hex_digit_str((c as u32) % 16));
        } else {
            crate::strfmt::push_char(&mut out, c);
        }
        proof {
            reveal_strlit("\\\"");
            reveal_strlit("\\\\");
            reveal_strlit("\\n");
            reveal_strlit("\\r");
            reveal_strlit("\\t");
            reveal_strlit("\\u00");
            lemma_json_escape_snoc(s@.take(i as int + 1));
            assert(s@.take(i as int + 1).drop_last() =~= s@.take(i as int));
            assert(s@.take(i as int + 1).last() == s@[i as int]);
            assert(out@ =~= spec_json_escape(s@.take(i as int + 1)));
        }
        i += 1;
    }
    proof {
        assert(s@.take(s@.len() as int) =~= s@);
    }
    out
}

/// A JSON string literal: the escaped characters between double quotes.
pub open spec fn spec_json_string(s: Seq<char>) -> Seq<char> {
    seq!['"'] + spec_json_escape(s) + seq!['"']
}

/// Append a JSON string literal holding `s`.
fn append_json_string(out: &mut String, s: &str)
    ensures
        final(out)@ == old(out)@ + spec_json_string(s@),
{
    out.append("\"");
    let escaped = json_escape(s);
    out.append(escaped.as_str());
    out.append("\"");
    proof {
        reveal_strlit("\"");
        assert(out@ =~= old(out)@ + spec_json_string(s@));
    }
}

/// The broker publish payload for an alert: a JSON object holding id,
/// type, severity, message, and both timestamps rendered RFC 3339, keys in
/// lexicographic order.
pub open spec fn spec_mqtt_payload(a: Alert) -> Seq<char> {
    "{\"created_at\":"@ + spec_json_string(rfc3339_of(a.created_at)) + ",\"expires_at\":"@
        + spec_json_string(rfc3339_of(a.expires_at)) + ",\"id\":"@ + spec_json_string(a.id@)
        + ",\"message\":"@ + spec_json_string(a.message@) + ",\"severity\":"@ + spec_json_string(
        a.severity.spec_tag(),
    ) + ",\"type\":"@ + spec_json_string(a.alert_type.spec_tag()) + "}"@
}

/// Build the broker publish payload for an alert.
pub fn mqtt_payload(a: &Alert) -> (r: String)
    requires
        0 <= a.created_at <= MAX_EPOCH_SECONDS,
        0 <= a.expires_at <= MAX_EPOCH_SECONDS,
    ensures
        r@ == spec_mqtt_payload(*a),
{
    let mut r = "{\"created_at\":".to_owned();
    append_json_string(&mut r, rfc3339_utc(a.created_at).as_str());
    r.append(",\"expires_at\":");
    append_json_string(&mut r, rfc3339_utc(a.expires_at).as_str());
    r.append(",\"id\":");
    append_json_string(&mut r, a.id.as_str());
    r.append(",\"message\":");
    append_json_string(&mut r, a.message.as_str());
    r.append(",\"severity\":");
    append_json_string(&mut r, a.severity.tag());
    r.append(",\"type\":");
    append_json_string(&mut r, a.alert_type.tag());
    r.append("}");
    proof {
        assert(r@ =~= spec_mqtt_payload(*a));
    }
    r
}

/// The live push payload for an alert: a JSON object holding type,
/// severity, message and the creation instant rendered RFC 3339, keys in
/// lexicographic order.
pub open spec fn spec_web_payload(a: Alert) -> Seq<char> {
    "{\"created_at\":"@ + spec_json_string(rfc3339_of(a.created_at)) + ",\"message\":"@
        + spec_json_string(a.message@) + ",\"severity\":"@ + spec_json_string(
        a.severity.spec_tag(),
    ) + ",\"type\":"@ + spec_json_string(a.alert_type.spec_tag()) + "}"@
}

/// Build the live push payload for an alert.
pub fn web_payload(a: &Alert) -> (r: String)
    requires
        0 <= a.created_at <= MAX_EPOCH_SECONDS,
    ensures
        r@ == spec_web_payload(*a),
{
    let mut r = "{\"created_at\":".to_owned();
    append_json_string(&mut r, rfc3339_utc(a.created_at).as_str());
    r.append(",\"message\":");
    append_json_string(&mut r, a.message.as_str());
    r.append(",\"severity\":");
    append_json_string(&mut r, a.severity.tag());
    r.append(",\"type\":");
    append_json_string(&mut r, a.alert_type.tag());
    r.append("}");
    proof {
        assert(r@ =~= spec_web_payload(*a));
    }
    r
}

} // verus!
