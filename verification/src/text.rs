//! Joining text segments: the newline concatenation used for parsed text,
//! the comma join used for service error messages, and decimal rendering of
//! a status code.

use vstd::prelude::*;
use vstd::string::StringExecFns;

verus! {

/// One step of the newline concatenation: a segment is appended to the text
/// accumulated so far, with a single `'\n'` in between unless nothing has
/// been accumulated yet.
pub open spec fn join_step(acc: Seq<char>, seg: Seq<char>) -> Seq<char> {
    if acc.len() == 0 {
        seg
    } else {
        acc + seq!['\n'] + seg
    }
}

/// The newline concatenation of a sequence of segments, in order.
pub open spec fn joined_texts(segs: Seq<Seq<char>>) -> Seq<char>
    decreases segs.len(),
{
    if segs.len() == 0 {
        Seq::empty()
    } else {
        join_step(joined_texts(segs.drop_last()), segs.last())
    }
}

/// A plain join: `sep` stands between any two parts, never at either end.
pub open spec fn joined_with(parts: Seq<Seq<char>>, sep: Seq<char>) -> Seq<char>
    decreases parts.len(),
{
    if parts.len() == 0 {
        Seq::empty()
    } else if parts.len() == 1 {
        parts[0]
    } else {
        joined_with(parts.drop_last(), sep) + sep + parts.last()
    }
}

/// The newline concatenation of segments that end in a nonempty segment is
/// itself nonempty.
pub proof fn lemma_joined_texts_nonempty(segs: Seq<Seq<char>>)
    requires
        segs.len() > 0,
        segs.last().len() > 0,
    ensures
        joined_texts(segs).len() > 0,
{
    assert(joined_texts(segs) == join_step(joined_texts(segs.drop_last()), segs.last()));
}

/// The newline concatenation keeps the segments in input order and does not
/// sort or regroup them: splitting the segment list anywhere splits the
/// output at a newline, with the two halves joined unchanged on either
/// side. Stated for nonempty segments; an empty segment at the front of a
/// half contributes no separator of its own, so the equation does not hold
/// of it.
pub proof fn lemma_joined_texts_append(a: Seq<Seq<char>>, b: Seq<Seq<char>>)
    requires
        a.len() > 0,
        b.len() > 0,
        forall|i: int| 0 <= i < a.len() ==> a[i].len() > 0,
        forall|i: int| 0 <= i < b.len() ==> b[i].len() > 0,
    ensures
        joined_texts(a + b) == joined_texts(a) + seq!['\n'] + joined_texts(b),
    decreases b.len(),
{
    lemma_joined_texts_nonempty(a);
    if b.len() == 1 {
        assert((a + b).last() == b[0]);
        assert((a + b).drop_last() =~= a);
        assert(joined_texts(b) == join_step(joined_texts(b.drop_last()), b[0]));
        assert(b.drop_last() =~= Seq::<Seq<char>>::empty());
        assert(joined_texts(b) == b[0]);
        assert(joined_texts(a + b) =~= joined_texts(a) + seq!['\n'] + joined_texts(b));
    } else {
        assert(forall|i: int| 0 <= i < b.drop_last().len() ==> b.drop_last()[i].len() > 0);
        lemma_joined_texts_append(a, b.drop_last());
        lemma_joined_texts_nonempty(b.drop_last());
        assert((a + b).drop_last() =~= a + b.drop_last());
        assert((a + b).last() == b.last());
        assert(joined_texts(a + b) == join_step(joined_texts(a + b.drop_last()), b.last()));
        assert(joined_texts(b) == join_step(joined_texts(b.drop_last()), b.last()));
        assert(joined_texts(b) == joined_texts(b.drop_last()) + seq!['\n'] + b.last());
        assert(joined_texts(a + b) =~= joined_texts(a) + seq!['\n'] + joined_texts(b));
    }
}

/// Joins the messages with `", "` between any two, exactly as
/// [`joined_with`] describes.
pub fn join_messages(msgs: &Vec<String>) -> (r: String)
    ensures
        r@ == joined_with(msgs.deep_view(), ", "@),
{
    let mut joined: String = String::new();
    let mut i: usize = 0;
    while i < msgs.len()
        invariant
            i <= msgs.len(),
            joined@ == joined_with(msgs.deep_view().take(i as int), ", "@),
        decreases msgs.len() - i,
    {
        proof {
            assert(msgs.deep_view().take(i + 1).drop_last() =~= msgs.deep_view().take(
                i as int,
            ));
            assert(msgs.deep_view().take(i + 1).last() == msgs@[i as int]@);
        }
        if i > 0 {
            joined.append(", ");
        }
        joined.append(msgs[i].as_str());
        i = i + 1;
    }
    proof {
        assert(msgs.deep_view().take(msgs@.len() as int) =~= msgs.deep_view());
    }
    joined
}

/// The character for one decimal digit.
pub open spec fn decimal_digit(d: nat) -> char {
    if d == 0 {
        '0'
    } else if d == 1 {
        '1'
    } else if d == 2 {
        '2'
    } else if d == 3 {
        '3'
    } else if d == 4 {
        '4'
    } else if d == 5 {
        '5'
    } else if d == 6 {
        '6'
    } else if d == 7 {
        '7'
    } else if d == 8 {
        '8'
    } else {
        '9'
    }
}

/// The usual decimal rendering of a number, most significant digit first,
/// no leading zeros (a lone `0` for zero).
pub open spec fn decimal_rep(n: nat) -> Seq<char>
    decreases n,
{
    if n < 10 {
        seq![decimal_digit(n)]
    } else {
        decimal_rep(n / 10).push(decimal_digit(n % 10))
    }
}

fn digit_str(d: u16) -> (r: &'static str)
    requires
        d < 10,
    ensures
        r@ =~= seq![decimal_digit(d as nat)],
{
    proof {
        reveal_strlit("0");
        reveal_strlit("1");
        reveal_strlit("2");
        reveal_strlit("3");
        reveal_strlit("4");
        reveal_strlit("5");
        reveal_strlit("6");
        reveal_strlit("7");
        reveal_strlit("8");
        reveal_strlit("9");
    }
    match d {
        0 => "0",
        1 => "1",
        2 => "2",
        3 => "3",
        4 => "4",
        5 => "5",
        6 => "6",
        7 => "7",
        8 => "8",
        _ => "9",
    }
}

/// Renders a status code in decimal, as [`decimal_rep`] describes.
pub fn u16_to_decimal(n: u16) -> (r: String)
    ensures
        r@ == decimal_rep(n as nat),
    decreases n,
{
    if n < 10 {
        let mut s = String::new();
        s.append(digit_str(n));
        proof {
            assert(s@ =~= decimal_rep(n as nat));
        }
        s
    } else {
        let mut s = u16_to_decimal(n / 10);
        s.append(digit_str(n % 10));
        proof {
            assert(s@ =~= decimal_rep(n as nat));
        }
        s
    }
}

} // verus!
