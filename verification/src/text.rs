use vstd::prelude::*;

verus! {

/// The character for one decimal digit value.
pub open spec fn digit_char(d: int) -> char {
    if d == 0 {
        '0'
    } else if d == 1 {
        '1'
    } else if d == 2 {
        '2'
    } else if d == 3 {
        '3'
    } else if d == 4 {
        '4'
    } else if d == 5 {
        '5'
    } else if d == 6 {
        '6'
    } else if d == 7 {
        '7'
    } else if d == 8 {
        '8'
    } else {
        '9'
    }
}

/// Decimal digits of a non-negative number, most significant first, with no
/// leading zeros (a lone zero for zero itself).
pub open spec fn dec_digits(n: nat) -> Seq<char>
    decreases n,
{
    if n < 10 {
        seq![digit_char(n as int)]
    } else {
        dec_digits(n / 10) + seq![digit_char((n % 10) as int)]
    }
}

/// Decimal form of an integer, with a leading minus sign when negative.
pub open spec fn dec_int(n: int) -> Seq<char> {
    if n < 0 {
        seq!['-'] + dec_digits((-n) as nat)
    } else {
        dec_digits(n as nat)
    }
}

/// The one-character string for one decimal digit value.
fn digit_str(d: u64) -> (r: &'static str)
    requires
        d < 10,
    ensures
        r@ =~= seq![digit_char(d as int)],
{
    proof {
        reveal_strlit("0");
        reveal_strlit("1");
        reveal_strlit("2");
        reveal_strlit("3");
        reveal_strlit("4");
        reveal_strlit("5");
        reveal_strlit("6");
        reveal_strlit("7");
        reveal_strlit("8");
        reveal_strlit("9");
    }
    match d {
        0 => "0",
        1 => "1",
        2 => "2",
        3 => "3",
        4 => "4",
        5 => "5",
        6 => "6",
        7 => "7",
        8 => "8",
        _ => "9",
    }
}

/// Appends the decimal digits of `n` to `out`.
fn push_dec_digits(n: u64, out: &mut String)
    ensures
        final(out)@ == old(out)@ + dec_digits(n as nat),
    decreases n,
{
    if n >= 10 {
        push_dec_digits(n / 10, out);
    }
    out.append(digit_str(n % 10));
    proof {
        assert(final(out)@ =~= old(out)@ + dec_digits(n as nat));
    }
}

/// Decimal rendering of a signal number, e.g. 11 to "11".
pub fn decimal_i32(n: i32) -> (r: String)
    ensures
        r@ == dec_int(n as int),
{
    let mut s = String::new();
    if n < 0 {
        s.append("-");
        let m: u64 = (-(n as i64)) as u64;
        push_dec_digits(m, &mut s);
        proof {
            reveal_strlit("-");
            assert(s@ =~= dec_int(n as int));
        }
    } else {
        push_dec_digits(n as u64, &mut s);
        proof {
            assert(s@ =~= dec_int(n as int));
        }
    }
    s
}

/// Frame names joined by single newlines, in order; empty for an empty list.
pub open spec fn join_lines(frames: Seq<Seq<char>>) -> Seq<char>
    decreases frames.len(),
{
    if frames.len() == 0 {
        Seq::empty()
    } else if frames.len() == 1 {
        frames[0]
    } else {
        join_lines(frames.drop_last()) + seq!['\n'] + frames.last()
    }
}

/// Joins the captured frame names with newlines, in capture order.
pub fn join_frames(frames: &Vec<String>) -> (r: String)
    ensures
        r@ == join_lines(frames.deep_view()),
{
    let mut s = String::new();
    let mut i: usize = 0;
    while i < frames.len()
        invariant
            0 <= i <= frames@.len(),
            frames.deep_view().len() == frames@.len(),
            s@ == join_lines(frames.deep_view().subrange(0, i as int)),
        decreases frames@.len() - i,
    {
        if i > 0 {
            s.append("\n");
        }
        s.append(frames[i].as_str());
        proof {
            reveal_strlit("\n");
            let dv = frames.deep_view();
            assert(dv[i as int] == frames@[i as int]@);
            let ext = dv.subrange(0, i + 1);
            assert(ext.drop_last() =~= dv.subrange(0, i as int));
            assert(ext.last() == dv[i as int]);
            assert(s@ =~= join_lines(ext));
        }
        i += 1;
    }
    proof {
        assert(frames.deep_view().subrange(0, frames@.len() as int) =~= frames.deep_view());
    }
    s
}

} // verus!
