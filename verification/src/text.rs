//! Building small ASCII strings with verified content: decimal rendering
//! and the human-readable remaining-time text shown beside a paste.

use vstd::prelude::*;

verus! {

/// The characters of a sequence of ASCII bytes.
pub open spec fn chars_of_ascii(bytes: Seq<u8>) -> Seq<char> {
    bytes.map_values(|b: u8| b as char)
}

/// Relies on `String::from_utf8`: ASCII bytes are valid UTF-8 and decode to
/// the identical character sequence.
#[verifier::external_body]
pub(crate) fn string_from_ascii(bytes: Vec<u8>) -> (r: String)
    requires
        forall|i: int| 0 <= i < bytes@.len() ==> bytes@[i] < 128,
    ensures
        r@ == chars_of_ascii(bytes@),
{
    String::from_utf8(bytes).unwrap()
}

/// The decimal digits of `n`, most significant first, as ASCII bytes.
pub open spec fn dec_bytes(n: nat) -> Seq<u8>
    decreases n,
{
    if n < 10 {
        seq![(n + 48) as u8]
    } else {
        dec_bytes(n / 10).push((n % 10 + 48) as u8)
    }
}

/// Append the decimal rendering of `n`.
fn push_dec(buf: &mut Vec<u8>, n: u64)
    ensures
        final(buf)@ == old(buf)@ + dec_bytes(n as nat),
        forall|i: int|
            old(buf)@.len() <= i < final(buf)@.len() ==> 48 <= #[trigger] final(buf)@[i] <= 57,
    decreases n,
{
    if n < 10 {
        buf.push((n as u8) + 48);
        proof {
            assert(buf@ =~= old(buf)@ + dec_bytes(n as nat));
        }
    } else {
        push_dec(buf, n / 10);
        buf.push(((n % 10) as u8) + 48);
        proof {
            assert(buf@ =~= old(buf)@ + dec_bytes(n as nat));
        }
    }
}

/// One unit of the remaining-time text: the count, the unit's name, and a
/// plural `s` when the count exceeds one.
pub open spec fn unit_part(n: nat, unit: Seq<u8>) -> Seq<u8> {
    dec_bytes(n) + unit + (if n > 1 {
        seq![115u8]
    } else {
        Seq::<u8>::empty()
    })
}

pub open spec fn day_unit() -> Seq<u8> {
    seq![32u8, 100u8, 97u8, 121u8]
}

pub open spec fn hour_unit() -> Seq<u8> {
    seq![32u8, 104u8, 111u8, 117u8, 114u8]
}

pub open spec fn minute_unit() -> Seq<u8> {
    seq![32u8, 109u8, 105u8, 110u8, 117u8, 116u8, 101u8]
}

pub open spec fn list_sep() -> Seq<u8> {
    seq![44u8, 32u8]
}

fn push_days(buf: &mut Vec<u8>, n: u64)
    ensures
        final(buf)@ == old(buf)@ + unit_part(n as nat, day_unit()),
        forall|i: int|
            old(buf)@.len() <= i < final(buf)@.len() ==> #[trigger] final(buf)@[i] < 128,
{
    push_dec(buf, n);
    buf.push(32u8);
    buf.push(100u8);
    buf.push(97u8);
    buf.push(121u8);
    if n > 1 {
        buf.push(115u8);
    }
    proof {
        assert(buf@ =~= old(buf)@ + unit_part(n as nat, day_unit()));
    }
}

fn push_hours(buf: &mut Vec<u8>, n: u64)
    ensures
        final(buf)@ == old(buf)@ + unit_part(n as nat, hour_unit()),
        forall|i: int|
            old(buf)@.len() <= i < final(buf)@.len() ==> #[trigger] final(buf)@[i] < 128,
{
    push_dec(buf, n);
    buf.push(32u8);
    buf.push(104u8);
    buf.push(111u8);
    buf.push(117u8);
    buf.push(114u8);
    if n > 1 {
        buf.push(115u8);
    }
    proof {
        assert(buf@ =~= old(buf)@ + unit_part(n as nat, hour_unit()));
    }
}

fn push_minutes(buf: &mut Vec<u8>, n: u64)
    ensures
        final(buf)@ == old(buf)@ + unit_part(n as nat, minute_unit()),
        forall|i: int|
            old(buf)@.len() <= i < final(buf)@.len() ==> #[trigger] final(buf)@[i] < 128,
{
    push_dec(buf, n);
    buf.push(32u8);
    buf.push(109u8);
    buf.push(105u8);
    buf.push(110u8);
    buf.push(117u8);
    buf.push(116u8);
    buf.push(101u8);
    if n > 1 {
        buf.push(115u8);
    }
    proof {
        assert(buf@ =~= old(buf)@ + unit_part(n as nat, minute_unit()));
    }
}

fn push_sep(buf: &mut Vec<u8>)
    ensures
        final(buf)@ == old(buf)@ + list_sep(),
        forall|i: int|
            old(buf)@.len() <= i < final(buf)@.len() ==> #[trigger] final(buf)@[i] < 128,
{
    buf.push(44u8);
    buf.push(32u8);
    proof {
        assert(buf@ =~= old(buf)@ + list_sep());
    }
}

/// The remaining-time text for a nonnegative number of seconds: whole days,
/// hours within the day and minutes within the hour, each listed when
/// nonzero (minutes also when everything is zero), separated by commas.
pub open spec fn duration_bytes(secs: nat) -> Seq<u8> {
    let days = secs / 86400;
    let hours = (secs / 3600) % 24;
    let minutes = (secs / 60) % 60;
    let d_text = if days > 0 {
        unit_part(days, day_unit())
    } else {
        Seq::<u8>::empty()
    };
    let h_text = if hours > 0 {
        (if d_text.len() > 0 {
            list_sep()
        } else {
            Seq::<u8>::empty()
        }) + unit_part(hours, hour_unit())
    } else {
        Seq::<u8>::empty()
    };
    let m_text = if minutes > 0 || (days == 0 && hours == 0) {
        (if d_text.len() + h_text.len() > 0 {
            list_sep()
        } else {
            Seq::<u8>::empty()
        }) + unit_part(minutes, minute_unit())
    } else {
        Seq::<u8>::empty()
    };
    d_text + h_text + m_text
}

/// Render a nonnegative number of seconds as the text shown beside a paste,
/// for example a day and a half as `1 day, 12 hours`.
pub fn format_duration(secs: i64) -> (r: String)
    requires
        secs >= 0,
    ensures
        r@ == chars_of_ascii(duration_bytes(secs as nat)),
{
    let s = secs as u64;
    let days: u64 = s / 86400;
    let hours: u64 = (s / 3600) % 24;
    let minutes: u64 = (s / 60) % 60;
    let mut buf: Vec<u8> = Vec::new();
    if days > 0 {
        push_days(&mut buf, days);
    }
    if hours > 0 {
        if buf.len() > 0 {
            push_sep(&mut buf);
        }
        push_hours(&mut buf, hours);
    }
    if minutes > 0 || (days == 0 && hours == 0) {
        if buf.len() > 0 {
            push_sep(&mut buf);
        }
        push_minutes(&mut buf, minutes);
    }
    proof {
        assert(buf@ =~= duration_bytes(secs as nat));
    }
    string_from_ascii(buf)
}

} // verus!
