//! Construction of the probe target name.
//!
//! The monitor's own externally visible IPv6 address, as eight 16-bit
//! segments, is expanded into a fixed-width lowercase-hex form with dashes
//! between segments, and the wildcard suffix is appended to obtain the
//! domain name that each probe resolves afresh.

use vstd::prelude::*;
use vstd::string::StringExecFns;

verus! {

/// The character for one hex digit, lowercase.
pub open spec fn hex_char(d: nat) -> char {
    if d == 0 {
        '0'
    } else if d == 1 {
        '1'
    } else if d == 2 {
        '2'
    } else if d == 3 {
        '3'
    } else if d == 4 {
        '4'
    } else if d == 5 {
        '5'
    } else if d == 6 {
        '6'
    } else if d == 7 {
        '7'
    } else if d == 8 {
        '8'
    } else if d == 9 {
        '9'
    } else if d == 10 {
        'a'
    } else if d == 11 {
        'b'
    } else if d == 12 {
        'c'
    } else if d == 13 {
        'd'
    } else if d == 14 {
        'e'
    } else {
        'f'
    }
}

/// One 16-bit segment as exactly four lowercase hex digits, leading zeros
/// kept.
pub open spec fn seg_hex(seg: u16) -> Seq<char> {
    seq![
        hex_char(seg as nat / 4096 % 16),
        hex_char(seg as nat / 256 % 16),
        hex_char(seg as nat / 16 % 16),
        hex_char(seg as nat % 16),
    ]
}

/// The expanded address: the segments' hex forms joined with dashes.
pub open spec fn expanded(segments: Seq<u16>) -> Seq<char>
    decreases segments.len(),
{
    if segments.len() == 0 {
        Seq::empty()
    } else if segments.len() == 1 {
        seg_hex(segments[0])
    } else {
        expanded(segments.drop_last()) + "-"@ + seg_hex(segments.last())
    }
}

/// Append one lowercase hex digit.
fn push_hex_digit(out: &mut String, d: u16)
    requires
        d < 16,
    ensures
        final(out)@ == old(out)@.push(hex_char(d as nat)),
{
    proof {
        reveal_strlit("0");
        reveal_strlit("1");
        reveal_strlit("2");
        reveal_strlit("3");
        reveal_strlit("4");
        reveal_strlit("5");
        reveal_strlit("6");
        reveal_strlit("7");
        reveal_strlit("8");
        reveal_strlit("9");
        reveal_strlit("a");
        reveal_strlit("b");
        reveal_strlit("c");
        reveal_strlit("d");
        reveal_strlit("e");
        reveal_strlit("f");
    }
    if d == 0 {
        out.append("0");
    } else if d == 1 {
        out.append("1");
    } else if d == 2 {
        out.append("2");
    } else if d == 3 {
        out.append("3");
    } else if d == 4 {
        out.append("4");
    } else if d == 5 {
        out.append("5");
    } else if d == 6 {
        out.append("6");
    } else if d == 7 {
        out.append("7");
    } else if d == 8 {
        out.append("8");
    } else if d == 9 {
        out.append("9");
    } else if d == 10 {
        out.append("a");
    } else if d == 11 {
        out.append("b");
    } else if d == 12 {
        out.append("c");
    } else if d == 13 {
        out.append("d");
    } else if d == 14 {
        out.append("e");
    } else {
        out.append("f");
    }
    proof {
        assert(final(out)@ =~= old(out)@.push(hex_char(d as nat)));
    }
}

/// Append one segment as four hex digits.
fn push_segment(out: &mut String, seg: u16)
    ensures
        final(out)@ == old(out)@ + seg_hex(seg),
{
    push_hex_digit(out, seg / 4096 % 16);
    push_hex_digit(out, seg / 256 % 16);
    push_hex_digit(out, seg / 16 % 16);
    push_hex_digit(out, seg % 16);
    proof {
        assert(final(out)@ =~= old(out)@ + seg_hex(seg));
    }
}

/// Expand an IPv6 address, given as its 16-bit segments, into the
/// fixed-width lowercase-hex form with dashes between segments.
pub fn expand_ipv6(segments: &Vec<u16>) -> (text: String)
    ensures
        text@ == expanded(segments@),
{
    let mut text = String::new();
    let mut i: usize = 0;
    while i < segments.len()
        invariant
            i <= segments@.len(),
            text@ == expanded(segments@.subrange(0, i as int)),
        decreases segments@.len() - i,
    {
        if i > 0 {
            text.append("-");
        }
        push_segment(&mut text, segments[i]);
        proof {
            let prefix = segments@.subrange(0, i as int);
            let next = segments@.subrange(0, i + 1 as int);
            assert(next.drop_last() =~= prefix);
            assert(next.last() == segments@[i as int]);
            assert(text@ =~= expanded(next));
        }
        i = i + 1;
    }
    proof {
        assert(segments@.subrange(0, segments@.len() as int) =~= segments@);
    }
    text
}

/// The probe target name: the expanded address under the wildcard fallback
/// domain.
pub fn withfallback_domain(segments: &Vec<u16>) -> (domain: String)
    ensures
        domain@ == expanded(segments@) + ".withfallback.com"@,
{
    let mut domain = expand_ipv6(segments);
    domain.append(".withfallback.com");
    domain
}

} // verus!
