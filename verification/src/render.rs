//! Rendering of projected units as JSON text: an object
//! `{"name":<string>,"points":[<ints>]}` per unit, the name escaped as JSON
//! asks, the points in decimal, and arrays joined with commas.

use vstd::prelude::*;
use vstd::string::{StrSliceExecFns, StringExecFns};
use crate::model::{SimpleUnit, UnitView, units_view};

verus! {

/// The decimal digit `d` as a one-character string.
pub open spec fn digit_str(d: nat) -> Seq<char> {
    if d == 0 {
        "0"@
    } else if d == 1 {
        "1"@
    } else if d == 2 {
        "2"@
    } else if d == 3 {
        "3"@
    } else if d == 4 {
        "4"@
    } else if d == 5 {
        "5"@
    } else if d == 6 {
        "6"@
    } else if d == 7 {
        "7"@
    } else if d == 8 {
        "8"@
    } else {
        "9"@
    }
}

/// The hexadecimal digit `d` as a one-character string, in lower case.
pub open spec fn hex_digit_str(d: nat) -> Seq<char> {
    if d < 10 {
        digit_str(d)
    } else if d == 10 {
        "a"@
    } else if d == 11 {
        "b"@
    } else if d == 12 {
        "c"@
    } else if d == 13 {
        "d"@
    } else if d == 14 {
        "e"@
    } else {
        "f"@
    }
}

/// The decimal digits of `n`, most significant first, without leading
/// zeros (`0` itself is the single digit `0`).
pub open spec fn dec_digits(n: nat) -> Seq<char>
    decreases n,
{
    if n < 10 {
        digit_str(n)
    } else {
        dec_digits(n / 10) + digit_str(n % 10)
    }
}

/// `i` in decimal, with a leading minus sign when it is negative.
pub open spec fn dec_i64(i: i64) -> Seq<char> {
    if i >= 0 {
        dec_digits(i as nat)
    } else {
        "-"@ + dec_digits((-(i as int)) as nat)
    }
}

/// One character of a JSON string body: the quote and the backslash are
/// escaped, the named control characters take their short escapes, every
/// other control character becomes `\u00` plus two lower-case hex digits,
/// and everything else stands as itself.
pub open spec fn escape_char(c: char) -> Seq<char> {
    if c == '"' {
        "\\\""@
    } else if c == '\\' {
        "\\\\"@
    } else if c == '\u{8}' {
        "\\b"@
    } else if c == '\t' {
        "\\t"@
    } else if c == '\n' {
        "\\n"@
    } else if c == '\u{c}' {
        "\\f"@
    } else if c == '\r' {
        "\\r"@
    } else if (c as u32) < 0x20 {
        "\\u00"@ + hex_digit_str(((c as u32) / 16) as nat) + hex_digit_str(((c as u32) % 16) as nat)
    } else {
        seq![c]
    }
}

/// Every character of `s`, escaped in order.
pub open spec fn escape_all(s: Seq<char>) -> Seq<char>
    decreases s.len(),
{
    if s.len() == 0 {
        Seq::<char>::empty()
    } else {
        escape_all(s.drop_last()) + escape_char(s.last())
    }
}

/// `s` as a JSON string literal: quoted and escaped.
pub open spec fn json_string(s: Seq<char>) -> Seq<char> {
    "\""@ + escape_all(s) + "\""@
}

/// The elements of a points array in decimal, joined with commas.
pub open spec fn points_items(ps: Seq<i64>) -> Seq<char>
    decreases ps.len(),
{
    if ps.len() == 0 {
        Seq::<char>::empty()
    } else if ps.len() == 1 {
        dec_i64(ps[0])
    } else {
        points_items(ps.drop_last()) + ","@ + dec_i64(ps.last())
    }
}

/// A points array as a JSON array of integers.
pub open spec fn json_points(ps: Seq<i64>) -> Seq<char> {
    "["@ + points_items(ps) + "]"@
}

/// One projected unit as a JSON object with exactly the fields `name` and
/// `points`, in that order.
pub open spec fn json_unit(u: UnitView) -> Seq<char> {
    "{\"name\":"@ + json_string(u.name) + ",\"points\":"@ + json_points(u.points) + "}"@
}

/// The units as JSON objects, joined with commas.
pub open spec fn units_items(us: Seq<UnitView>) -> Seq<char>
    decreases us.len(),
{
    if us.len() == 0 {
        Seq::<char>::empty()
    } else if us.len() == 1 {
        json_unit(us[0])
    } else {
        units_items(us.drop_last()) + ","@ + json_unit(us.last())
    }
}

/// A whole list of projected units as a JSON array of objects.
pub open spec fn json_units(us: Seq<UnitView>) -> Seq<char> {
    "["@ + units_items(us) + "]"@
}

proof fn lemma_escape_all_step(s: Seq<char>, i: int)
    requires
        0 <= i < s.len(),
    ensures
        escape_all(s.take(i + 1)) == escape_all(s.take(i)) + escape_char(s[i]),
{
    assert(s.take(i + 1).drop_last() =~= s.take(i));
    assert(s.take(i + 1).last() == s[i]);
}

proof fn lemma_points_items_step(ps: Seq<i64>, i: int)
    requires
        0 <= i < ps.len(),
    ensures
        i == 0 ==> points_items(ps.take(1)) == dec_i64(ps[0]),
        i > 0 ==> points_items(ps.take(i + 1)) == points_items(ps.take(i)) + ","@ + dec_i64(ps[i]),
{
    assert(ps.take(i + 1).drop_last() =~= ps.take(i));
    assert(ps.take(i + 1).last() == ps[i]);
}

proof fn lemma_units_items_step(us: Seq<UnitView>, i: int)
    requires
        0 <= i < us.len(),
    ensures
        i == 0 ==> units_items(us.take(1)) == json_unit(us[0]),
        i > 0 ==> units_items(us.take(i + 1)) == units_items(us.take(i)) + ","@ + json_unit(
            us[i],
        ),
{
    assert(us.take(i + 1).drop_last() =~= us.take(i));
    assert(us.take(i + 1).last() == us[i]);
}

fn append_digit(out: &mut String, d: u8)
    requires
        d < 10,
    ensures
        final(out)@ == old(out)@ + digit_str(d as nat),
{
    if d == 0 {
        out.append("0");
    } else if d == 1 {
        out.append("1");
    } else if d == 2 {
        out.append("2");
    } else if d == 3 {
        out.append("3");
    } else if d == 4 {
        out.append("4");
    } else if d == 5 {
        out.append("5");
    } else if d == 6 {
        out.append("6");
    } else if d == 7 {
        out.append("7");
    } else if d == 8 {
        out.append("8");
    } else {
        out.append("9");
    }
}

fn append_hex_digit(out: &mut String, d: u8)
    requires
        d < 16,
    ensures
        final(out)@ == old(out)@ + hex_digit_str(d as nat),
{
    if d < 10 {
        append_digit(out, d);
    } else if d == 10 {
        out.append("a");
    } else if d == 11 {
        out.append("b");
    } else if d == 12 {
        out.append("c");
    } else if d == 13 {
        out.append("d");
    } else if d == 14 {
        out.append("e");
    } else {
        out.append("f");
    }
}

fn append_dec_u64(out: &mut String, n: u64)
    ensures
        final(out)@ == old(out)@ + dec_digits(n as nat),
    decreases n,
{
    if n >= 10 {
        append_dec_u64(out, n / 10);
        append_digit(out, (n % 10) as u8);
        proof {
            assert(out@ =~= old(out)@ + dec_digits(n as nat));
        }
    } else {
        append_digit(out, n as u8);
    }
}

fn append_dec_i64(out: &mut String, i: i64)
    ensures
        final(out)@ == old(out)@ + dec_i64(i),
{
    if i >= 0 {
        append_dec_u64(out, i as u64);
    } else {
        out.append("-");
        let m: u64 = (-(i as i128)) as u64;
        proof {
            assert(m as nat == (-(i as int)) as nat);
        }
        append_dec_u64(out, m);
        proof {
            assert(out@ =~= old(out)@ + dec_i64(i));
        }
    }
}

fn append_json_str(out: &mut String, s: &str)
    ensures
        final(out)@ == old(out)@ + json_string(s@),
{
    out.append("\"");
    let n: usize = s.unicode_len();
    let mut i: usize = 0;
    while i < n
        invariant
            i <= n,
            n == s@.len(),
            out@ == old(out)@ + "\""@ + escape_all(s@.take(i as int)),
        decreases n - i,
    {
        let c = s.get_char(i);
        proof {
            lemma_escape_all_step(s@, i as int);
        }
        if c == '"' {
            out.append("\\\"");
        } else if c == '\\' {
            out.append("\\\\");
        } else if c == '\u{8}' {
            out.append("\\b");
        } else if c == '\t' {
            out.append("\\t");
        } else if c == '\n' {
            out.append("\\n");
        } else if c == '\u{c}' {
            out.append("\\f");
        } else if c == '\r' {
            out.append("\\r");
        } else if (c as u32) < 0x20 {
            out.append("\\u00");
            let code: u32 = c as u32;
            append_hex_digit(out, (code / 16) as u8);
            append_hex_digit(out, (code % 16) as u8);
        } else {
            let piece = s.substring_char(i, i + 1);
            proof {
                assert(s@.subrange(i as int, i as int + 1) =~= seq![s@[i as int]]);
            }
            out.append(piece);
        }
        proof {
            assert(out@ =~= old(out)@ + "\""@ + escape_all(s@.take(i as int + 1)));
        }
        i += 1;
    }
    proof {
        assert(s@.take(n as int) =~= s@);
    }
    out.append("\"");
    proof {
        assert(out@ =~= old(out)@ + json_string(s@));
    }
}

fn append_points(out: &mut String, ps: &Vec<i64>)
    ensures
        final(out)@ == old(out)@ + json_points(ps@),
{
    out.append("[");
    let mut i: usize = 0;
    while i < ps.len()
        invariant
            i <= ps.len(),
            out@ == old(out)@ + "["@ + points_items(ps@.take(i as int)),
        decreases ps.len() - i,
    {
        if i > 0 {
            out.append(",");
        }
        append_dec_i64(out, ps[i]);
        proof {
            lemma_points_items_step(ps@, i as int);
            assert(out@ =~= old(out)@ + "["@ + points_items(ps@.take(i as int + 1)));
        }
        i += 1;
    }
    proof {
        assert(ps@.take(ps@.len() as int) =~= ps@);
    }
    out.append("]");
    proof {
        assert(out@ =~= old(out)@ + json_points(ps@));
    }
}

fn append_unit(out: &mut String, u: &SimpleUnit)
    ensures
        final(out)@ == old(out)@ + json_unit(u@),
{
    out.append("{\"name\":");
    append_json_str(out, u.name.as_str());
    out.append(",\"points\":");
    append_points(out, &u.points);
    out.append("}");
    proof {
        assert(out@ =~= old(out)@ + json_unit(u@));
    }
}

/// One projected unit, rendered as its JSON object.
pub fn render_unit(u: &SimpleUnit) -> (r: String)
    ensures
        r@ == json_unit(u@),
{
    let mut out = String::new();
    append_unit(&mut out, u);
    proof {
        assert(out@ =~= json_unit(u@));
    }
    out
}

/// A list of projected units, rendered as a JSON array of objects.
pub fn render_units(us: &Vec<SimpleUnit>) -> (r: String)
    ensures
        r@ == json_units(units_view(us@)),
{
    let mut out = String::new();
    out.append("[");
    let mut i: usize = 0;
    while i < us.len()
        invariant
            i <= us.len(),
            out@ == "["@ + units_items(units_view(us@).take(i as int)),
        decreases us.len() - i,
    {
        if i > 0 {
            out.append(",");
        }
        append_unit(&mut out, &us[i]);
        proof {
            lemma_units_items_step(units_view(us@), i as int);
            assert(units_view(us@)[i as int] == us@[i as int]@);
            assert(out@ =~= "["@ + units_items(units_view(us@).take(i as int + 1)));
        }
        i += 1;
    }
    proof {
        assert(units_view(us@).take(us@.len() as int) =~= units_view(us@));
    }
    out.append("]");
    proof {
        assert(out@ =~= json_units(units_view(us@)));
    }
    out
}

} // verus!
