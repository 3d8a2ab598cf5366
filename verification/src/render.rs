//! Rendering of the log dump served by the front door.
//!
//! Each entry becomes one line, `"<epoch-seconds>: UP"` or
//! `"<epoch-seconds>: DOWN"`, and the lines are joined with newlines, oldest
//! first.

use vstd::prelude::*;
use vstd::string::StringExecFns;
use crate::status_log::StatusChange;

verus! {

/// The character for one decimal digit.
pub open spec fn digit_char(d: nat) -> char {
    if d == 0 {
        '0'
    } else if d == 1 {
        '1'
    } else if d == 2 {
        '2'
    } else if d == 3 {
        '3'
    } else if d == 4 {
        '4'
    } else if d == 5 {
        '5'
    } else if d == 6 {
        '6'
    } else if d == 7 {
        '7'
    } else if d == 8 {
        '8'
    } else {
        '9'
    }
}

/// The decimal digits of `n`, most significant first, with no leading zeros
/// (a single zero for `n == 0`).
pub open spec fn dec_of(n: nat) -> Seq<char>
    decreases n,
{
    if n < 10 {
        seq![digit_char(n)]
    } else {
        dec_of(n / 10).push(digit_char(n % 10))
    }
}

/// The rendered line for one status change.
pub open spec fn line_of(entry: StatusChange) -> Seq<char> {
    dec_of(entry.time as nat) + ": "@ + (if entry.up {
        "UP"@
    } else {
        "DOWN"@
    })
}

/// The full log dump: one line per entry in the given order, joined with
/// newlines.
pub open spec fn render_of(entries: Seq<StatusChange>) -> Seq<char>
    decreases entries.len(),
{
    if entries.len() == 0 {
        Seq::empty()
    } else if entries.len() == 1 {
        line_of(entries[0])
    } else {
        render_of(entries.drop_last()) + "\n"@ + line_of(entries.last())
    }
}

/// Append one decimal digit.
fn push_digit(out: &mut String, d: u64)
    requires
        d < 10,
    ensures
        final(out)@ == old(out)@.push(digit_char(d as nat)),
{
    proof {
        reveal_strlit("0");
        reveal_strlit("1");
        reveal_strlit("2");
        reveal_strlit("3");
        reveal_strlit("4");
        reveal_strlit("5");
        reveal_strlit("6");
        reveal_strlit("7");
        reveal_strlit("8");
        reveal_strlit("9");
    }
    if d == 0 {
        out.append("0");
    } else if d == 1 {
        out.append("1");
    } else if d == 2 {
        out.append("2");
    } else if d == 3 {
        out.append("3");
    } else if d == 4 {
        out.append("4");
    } else if d == 5 {
        out.append("5");
    } else if d == 6 {
        out.append("6");
    } else if d == 7 {
        out.append("7");
    } else if d == 8 {
        out.append("8");
    } else {
        out.append("9");
    }
    proof {
        assert(final(out)@ =~= old(out)@.push(digit_char(d as nat)));
    }
}

/// Append the decimal rendering of `n`.
fn push_decimal(out: &mut String, n: u64)
    ensures
        final(out)@ == old(out)@ + dec_of(n as nat),
    decreases n,
{
    if n < 10 {
        push_digit(out, n);
    } else {
        push_decimal(out, n / 10);
        push_digit(out, n % 10);
    }
    proof {
        assert(final(out)@ =~= old(out)@ + dec_of(n as nat));
    }
}

/// Append the line for one entry.
fn push_line(out: &mut String, entry: StatusChange)
    ensures
        final(out)@ == old(out)@ + line_of(entry),
{
    push_decimal(out, entry.time);
    out.append(": ");
    if entry.up {
        out.append("UP");
    } else {
        out.append("DOWN");
    }
    proof {
        assert(final(out)@ =~= old(out)@ + line_of(entry));
    }
}

/// Render a log snapshot as the text the log endpoint serves: one line per
/// entry, oldest first, newline-separated.
pub fn render_log(entries: &Vec<StatusChange>) -> (text: String)
    ensures
        text@ == render_of(entries@),
{
    let mut text = String::new();
    let mut i: usize = 0;
    while i < entries.len()
        invariant
            i <= entries@.len(),
            text@ == render_of(entries@.subrange(0, i as int)),
        decreases entries@.len() - i,
    {
        if i > 0 {
            text.append("\n");
        }
        push_line(&mut text, entries[i]);
        proof {
            let prefix = entries@.subrange(0, i as int);
            let next = entries@.subrange(0, i + 1 as int);
            assert(next.drop_last() =~= prefix);
            assert(next.last() == entries@[i as int]);
            assert(text@ =~= render_of(next));
        }
        i = i + 1;
    }
    proof {
        assert(entries@.subrange(0, entries@.len() as int) =~= entries@);
    }
    text
}

} // verus!
