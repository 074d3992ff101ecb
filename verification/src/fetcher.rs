//! The compute half of telemetry ingestion: parsing a spot line from the
//! cluster feed into a spot record. The network reads that produce the
//! lines, and the HTTP fetches for the other telemetry kinds, are I/O and
//! stay with the caller.

use vstd::prelude::*;

use crate::models::{DxSpot, MAX_EPOCH_SECONDS};
use crate::mqtt::{spec_all_digits, spec_digits_value, spec_has_prefix};

verus! {

/// ASCII whitespace, as the cluster feed uses it.
pub open spec fn spec_is_ws(c: char) -> bool {
    c == ' ' || c == '\t' || c == '\r' || c == '\n'
}

/// The line split into maximal runs of non-whitespace characters.
pub open spec fn spec_split_ws(s: Seq<char>) -> Seq<Seq<char>>
    decreases s.len(),
{
    if s.len() == 0 {
        Seq::empty()
    } else if spec_is_ws(s[0]) {
        spec_split_ws(s.drop_first())
    } else {
        let rest = spec_split_ws(s.drop_first());
        if s.len() > 1 && !spec_is_ws(s[1]) {
            seq![seq![s[0]] + rest[0]] + rest.skip(1)
        } else {
            seq![seq![s[0]]] + rest
        }
    }
}

/// A run starting with a non-whitespace character splits into a non-empty
/// token list whose first token starts with that character.
proof fn lemma_split_first(s: Seq<char>)
    requires
        s.len() > 0,
        !spec_is_ws(s[0]),
    ensures
        spec_split_ws(s).len() > 0,
        spec_split_ws(s)[0].len() > 0,
        spec_split_ws(s)[0][0] == s[0],
    decreases s.len(),
{
    if s.len() > 1 && !spec_is_ws(s[1]) {
        lemma_split_first(s.drop_first());
    }
}

/// Split a line into its whitespace-separated tokens.
pub fn split_ws(s: &str) -> (r: Vec<String>)
    ensures
        r@.len() == spec_split_ws(s@).len(),
        forall|k: int| 0 <= k < r@.len() ==> (#[trigger] r@[k])@ == spec_split_ws(s@)[k],
{
    let r = split_ws_from(s, 0);
    proof {
        assert(s@.skip(0) =~= s@);
    }
    r
}

/// Split the suffix of the line starting at `i`.
fn split_ws_from(s: &str, i: usize) -> (r: Vec<String>)
    requires
        i <= s@.len(),
    ensures
        r@.len() == spec_split_ws(s@.skip(i as int)).len(),
        forall|k: int|
            0 <= k < r@.len() ==> (#[trigger] r@[k])@ == spec_split_ws(s@.skip(i as int))[k],
    decreases s@.len() - i,
{
    let ghost t = s@.skip(i as int);
    let n = s.unicode_len();
    if i == n {
        proof {
            assert(t =~= Seq::<char>::empty());
        }
        return Vec::new();
    }
    let c = s.get_char(i);
    proof {
        assert(t[0] == s@[i as int]);
        assert(t.drop_first() =~= s@.skip(i as int + 1));
    }
    let mut rest = split_ws_from(s, i + 1);
    if c == ' ' || c == '\t' || c == '\r' || c == '\n' {
        rest
    } else {
        let next_ws = if i + 1 == n {
            true
        } else {
            let c2 = s.get_char(i + 1);
            c2 == ' ' || c2 == '\t' || c2 == '\r' || c2 == '\n'
        };
        if !next_ws {
            proof {
                lemma_split_first(s@.skip(i as int + 1));
            }
            let head = rest.remove(0);
            let mut tok = String::new();
            crate::strfmt::push_char(&mut tok, c);
            tok.append(head.as_str());
            rest.insert(0, tok);
            proof {
                let sp = spec_split_ws(t);
                assert(t.len() > 1 && !spec_is_ws(t[1]));
                assert(sp =~= seq![seq![t[0]] + spec_split_ws(t.drop_first())[0]]
                    + spec_split_ws(t.drop_first()).skip(1));
                assert(tok@ =~= seq![t[0]] + spec_split_ws(t.drop_first())[0]);
                assert forall|k: int| 0 <= k < rest@.len() implies (#[trigger] rest@[k])@
                    == sp[k] by {
                    if k > 0 {
                        assert(rest@[k]@ == spec_split_ws(t.drop_first())[k]);
                        assert(sp[k] == spec_split_ws(t.drop_first()).skip(1)[k - 1]);
                    }
                }
            }
            rest
        } else {
            let mut tok = String::new();
            crate::strfmt::push_char(&mut tok, c);
            rest.insert(0, tok);
            proof {
                let sp = spec_split_ws(t);
                assert(!(t.len() > 1 && !spec_is_ws(t[1])));
                assert(sp =~= seq![seq![t[0]]] + spec_split_ws(t.drop_first()));
                assert(tok@ =~= seq![t[0]]);
                assert forall|k: int| 0 <= k < rest@.len() implies (#[trigger] rest@[k])@
                    == sp[k] by {
                    if k > 0 {
                        assert(rest@[k]@ == spec_split_ws(t.drop_first())[k - 1]);
                    }
                }
            }
            rest
        }
    }
}

/// The token without its trailing colons.
pub open spec fn spec_trim_colons(s: Seq<char>) -> Seq<char>
    decreases s.len(),
{
    if s.len() > 0 && s.last() == ':' {
        spec_trim_colons(s.drop_last())
    } else {
        s
    }
}

/// Strip trailing colons from a token.
pub fn trim_colons(s: &str) -> (r: String)
    ensures
        r@ == spec_trim_colons(s@),
{
    let mut end = s.unicode_len();
    proof {
        assert(s@.take(s@.len() as int) =~= s@);
    }
    #[verifier::loop_isolation(false)]
    while end > 0 && s.get_char(end - 1) == ':'
        invariant
            end <= s@.len(),
            spec_trim_colons(s@) == spec_trim_colons(s@.take(end as int)),
        decreases end,
    {
        proof {
            assert(s@.take(end as int).last() == s@[end - 1]);
            assert(s@.take(end as int).drop_last() =~= s@.take(end as int - 1));
        }
        end -= 1;
    }
    let r = s.substring_char(0, end).to_owned();
    proof {
        if end > 0 {
            assert(s@.take(end as int).last() == s@[end - 1]);
        }
        assert(spec_trim_colons(s@.take(end as int)) =~= s@.take(end as int));
    }
    r
}

/// Position of the first dot of the run, or its length when it has none.
pub open spec fn spec_dot_pos(s: Seq<char>) -> int {
    if exists|i: int| 0 <= i < s.len() && s[i] == '.' {
        choose|i: int| 0 <= i < s.len() && s[i] == '.' && forall|j: int| 0 <= j < i ==> s[j] != '.'
    } else {
        s.len() as int
    }
}

/// Value of a frequency token in kilohertz: a non-empty run of digits,
/// optionally followed by a dot and more digits, read as its whole part
/// (the cluster feed reports kilohertz with one decimal).
pub open spec fn spec_freq_khz(s: Seq<char>) -> Option<u64> {
    let dot = spec_dot_pos(s);
    let whole = s.take(dot);
    if spec_all_digits(whole) && spec_digits_value(whole) <= 0xffff_ffff_ffff_ffff {
        if dot == s.len() {
            Some(spec_digits_value(whole) as u64)
        } else {
            let frac = s.subrange(dot + 1, s.len() as int);
            if frac.len() == 0 || spec_all_digits(frac) {
                Some(spec_digits_value(whole) as u64)
            } else {
                None
            }
        }
    } else {
        None
    }
}

/// Parse a frequency token into kilohertz.
pub fn parse_freq_khz(s: &str) -> (r: Option<u64>)
    ensures
        r == spec_freq_khz(s@),
{
    let n = s.unicode_len();
    let mut dot: usize = n;
    let mut i: usize = 0;
    #[verifier::loop_isolation(false)]
    while i < n
        invariant
            0 <= i <= n,
            n == s@.len(),
            (dot == n && forall|j: int| 0 <= j < i ==> s@[j] != '.') || (dot < i && s@[dot as int]
                == '.' && forall|j: int| 0 <= j < dot ==> s@[j] != '.'),
        decreases n - i,
    {
        if dot == n && s.get_char(i) == '.' {
            dot = i;
        }
        i += 1;
    }
    proof {
        assert(spec_dot_pos(s@) == dot as int) by {
            let g = spec_dot_pos(s@);
            if dot < n {
                assert(s@[dot as int] == '.');
                if g < dot as int {
                    assert(s@[g] == '.');
                } else if g > dot as int {
                    assert(s@[g] == '.' && forall|j: int| 0 <= j < g ==> s@[j] != '.');
                }
            } else {
                if exists|k: int| 0 <= k < s@.len() && s@[k] == '.' {
                    let k = choose|k: int| 0 <= k < s@.len() && s@[k] == '.';
                    assert(false);
                }
            }
        }
    }
    let whole = parse_u64_digits(s, 0, dot);
    proof {
        assert(s@.skip(0).take(dot as int) =~= s@.take(dot as int));
    }
    match whole {
        None => None,
        Some(v) => {
            if dot == n {
                Some(v)
            } else if dot + 1 == n {
                proof {
                    assert(s@.subrange(dot as int + 1, s@.len() as int).len() == 0);
                }
                Some(v)
            } else {
                if all_digits_range(s, dot + 1, n) {
                    proof {
                        assert(s@.skip(dot as int + 1).take(n - dot as int - 1) =~= s@.subrange(
                            dot as int + 1,
                            s@.len() as int,
                        ));
                    }
                    Some(v)
                } else {
                    proof {
                        assert(s@.skip(dot as int + 1).take(n - dot as int - 1) =~= s@.subrange(
                            dot as int + 1,
                            s@.len() as int,
                        ));
                    }
                    None
                }
            }
        },
    }
}

/// Whether the characters in `[from, to)` are a non-empty run of digits.
fn all_digits_range(s: &str, from: usize, to: usize) -> (r: bool)
    requires
        from <= to <= s@.len(),
    ensures
        r == spec_all_digits(s@.skip(from as int).take(to - from as int)),
{
    let ghost t = s@.skip(from as int).take(to - from as int);
    if from == to {
        proof {
            assert(!spec_all_digits(t));
        }
        return false;
    }
    let mut i: usize = from;
    #[verifier::loop_isolation(false)]
    while i < to
        invariant
            from <= i <= to,
            to <= s@.len(),
            from < to,
            t == s@.skip(from as int).take(to - from as int),
            forall|k: int| from <= k < i ==> crate::mqtt::spec_is_digit(#[trigger] s@[k]),
        decreases to - i,
    {
        let c = s.get_char(i);
        if c < '0' || c > '9' {
            proof {
                assert(t[i - from] == s@[i as int]);
                assert(!spec_all_digits(t));
            }
            return false;
        }
        i += 1;
    }
    proof {
        assert(spec_all_digits(t)) by {
            assert(forall|k: int| 0 <= k < t.len() ==> crate::mqtt::spec_is_digit(#[trigger] t[k]));
        }
    }
    true
}

/// Parse the characters in `[from, to)` as an unsigned decimal number.
fn parse_u64_digits(s: &str, from: usize, to: usize) -> (r: Option<u64>)
    requires
        from <= to <= s@.len(),
    ensures
        ({
            let t = s@.skip(from as int).take(to - from);
            &&& (r is Some <==> spec_all_digits(t) && spec_digits_value(t)
                <= 0xffff_ffff_ffff_ffff)
            &&& (r is Some ==> r.unwrap() == spec_digits_value(t))
        }),
{
    let ghost t = s@.skip(from as int).take(to - from as int);
    if from == to {
        proof {
            assert(!spec_all_digits(t));
        }
        return None;
    }
    let mut acc: u64 = 0;
    let mut i: usize = from;
    #[verifier::loop_isolation(false)]
    while i < to
        invariant
            from <= i <= to,
            to <= s@.len(),
            from < to,
            t == s@.skip(from as int).take(to - from as int),
            forall|k: int| from <= k < i ==> crate::mqtt::spec_is_digit(#[trigger] s@[k]),
            acc == spec_digits_value(t.take(i - from)),
        decreases to - i,
    {
        let c = s.get_char(i);
        if c < '0' || c > '9' {
            proof {
                assert(t[i - from] == s@[i as int]);
                assert(!spec_all_digits(t));
            }
            return None;
        }
        let d: u64 = (c as u64) - 48;
        proof {
            assert(t.take(i - from + 1).drop_last() =~= t.take(i - from));
            assert(t.take(i - from + 1).last() == s@[i as int]);
        }
        if acc > 0xffff_ffff_ffff_ffff / 10 || (acc == 0xffff_ffff_ffff_ffff / 10 && d > 5) {
            proof {
                if spec_all_digits(t) {
                    crate::mqtt::lemma_digits_value_prefix_le(t, i - from + 1);
                }
            }
            return None;
        }
        acc = acc * 10 + d;
        i += 1;
    }
    proof {
        assert(t.take(to - from as int) =~= t);
        assert(spec_all_digits(t)) by {
            assert(forall|k: int| 0 <= k < t.len() ==> crate::mqtt::spec_is_digit(#[trigger] t[k]));
        }
    }
    Some(acc)
}

/// What a spot line yields: lines that do not open with `DX de` or carry
/// fewer than eight tokens are not spots; otherwise the spotter is the
/// third token without its trailing colons, the frequency the fourth token
/// in kilohertz, the spotted callsign the fifth, the mode the seventh, and
/// the time the hour and minute carried by the last token, on the day of
/// `now`.
pub open spec fn spec_parse_dx_spot(line: Seq<char>, now: i64, r: Option<DxSpot>) -> bool {
    let toks = spec_split_ws(line);
    if !spec_has_prefix(line, "DX de"@) || toks.len() < 8 {
        r is None
    } else {
        let freq = spec_freq_khz(toks[3]);
        let ts = toks[toks.len() - 1];
        let time_ok = ts.len() >= 4 && spec_all_digits(ts.take(2)) && spec_all_digits(
            ts.subrange(2, 4),
        ) && spec_digits_value(ts.take(2)) < 24 && spec_digits_value(ts.subrange(2, 4)) < 60;
        if freq is Some && time_ok {
            match r {
                Some(spot) => {
                    &&& spot.spotter@ == spec_trim_colons(toks[2])
                    &&& spot.frequency == freq.unwrap()
                    &&& spot.callsign@ == toks[4]
                    &&& spot.mode@ == toks[6]
                    &&& spot.time == now - (now % 86400) + spec_digits_value(ts.take(2)) * 3600
                        + spec_digits_value(ts.subrange(2, 4)) * 60
                },
                None => false,
            }
        } else {
            r is None
        }
    }
}

/// Parse one line of the cluster feed into a spot, stamped on the day of
/// `now`.
pub fn parse_dx_spot(line: &str, now: i64) -> (r: Option<DxSpot>)
    requires
        0 <= now <= MAX_EPOCH_SECONDS,
    ensures
        spec_parse_dx_spot(line@, now, r),
{
    proof {
        reveal_strlit("DX de");
    }
    if !crate::mqtt::has_prefix(line, "DX de") {
        return None;
    }
    let parts = split_ws(line);
    if parts.len() < 8 {
        return None;
    }
    let ghost toks = spec_split_ws(line@);
    let frequency = match parse_freq_khz(parts[3].as_str()) {
        Some(f) => f,
        None => {
            return None;
        },
    };
    let ts = &parts[parts.len() - 1];
    let tn = ts.unicode_len();
    if tn < 4 {
        proof {
            assert(!(toks[toks.len() - 1].len() >= 4));
        }
        return None;
    }
    let hour = match parse_u64_digits(ts.as_str(), 0, 2) {
        Some(h) => h,
        None => {
            proof {
                assert(ts@.skip(0).take(2) =~= toks[toks.len() - 1].take(2));
            }
            return None;
        },
    };
    let minute = match parse_u64_digits(ts.as_str(), 2, 4) {
        Some(m) => m,
        None => {
            proof {
                assert(ts@.skip(2).take(2) =~= toks[toks.len() - 1].subrange(2, 4));
            }
            return None;
        },
    };
    proof {
        assert(ts@.skip(0).take(2) =~= toks[toks.len() - 1].take(2));
        assert(ts@.skip(2).take(2) =~= toks[toks.len() - 1].subrange(2, 4));
    }
    if hour >= 24 || minute >= 60 {
        return None;
    }
    let spotter = trim_colons(parts[2].as_str());
    let callsign = parts[4].clone();
    let mode = parts[6].clone();
    let time: i64 = now - (now % 86400) + (hour as i64) * 3600 + (minute as i64) * 60;
    Some(DxSpot { frequency, callsign, spotter, mode, time })
}

} // verus!
