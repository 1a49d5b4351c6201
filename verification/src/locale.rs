//! The user's preferred languages, as the system reports them: names of
//! UTF-16 code units in one buffer, each followed by a zero.

use vstd::prelude::*;

verus! {

/// The place of the first zero in `s`, or the length of `s` if it holds
/// none.
pub open spec fn first_zero(s: Seq<u16>) -> int
    decreases s.len(),
{
    if s.len() == 0 || s[0] == 0 {
        0
    } else {
        1 + first_zero(s.drop_first())
    }
}

/// The pieces of `s` between its zeros, in order.  There is one piece more
/// than there are zeros: a piece may be empty, and the last piece is what
/// follows the last zero.
pub open spec fn split_at_zeros(s: Seq<u16>) -> Seq<Seq<u16>>
    decreases s.len(),
{
    let k = first_zero(s);
    if 0 <= k < s.len() {
        seq![s.take(k)] + split_at_zeros(s.skip(k + 1))
    } else {
        seq![s]
    }
}

/// The first `count` pieces of the first `used` code units of `buffer`, or
/// all of them if there are fewer.
pub open spec fn languages(buffer: Seq<u16>, used: int, count: int) -> Seq<Seq<u16>> {
    let all = split_at_zeros(buffer.take(used));
    if count < all.len() {
        all.take(count)
    } else {
        all
    }
}

/// The pieces put together again, with a zero between neighbours.
pub open spec fn joined(pieces: Seq<Seq<u16>>) -> Seq<u16>
    decreases pieces.len(),
{
    if pieces.len() == 0 {
        Seq::empty()
    } else if pieces.len() == 1 {
        pieces[0]
    } else {
        pieces[0] + seq![0u16] + joined(pieces.drop_first())
    }
}

/// The first zero lies within the sequence or at its end, and nothing
/// before it is zero.
pub proof fn lemma_first_zero_is_first(s: Seq<u16>)
    ensures
        0 <= first_zero(s) <= s.len(),
        forall|j: int| 0 <= j < first_zero(s) ==> s[j] != 0,
        first_zero(s) < s.len() ==> s[first_zero(s)] == 0,
    decreases s.len(),
{
    if s.len() == 0 || s[0] == 0 {
    } else {
        let rest = s.drop_first();
        lemma_first_zero_is_first(rest);
        assert forall|j: int| 0 <= j < first_zero(s) implies s[j] != 0 by {
            if j > 0 {
                assert(s[j] == rest[j - 1]);
            }
        }
        if first_zero(s) < s.len() {
            assert(s[first_zero(s)] == rest[first_zero(rest)]);
        }
    }
}

/// Splitting loses nothing: the pieces, joined with zeros, are the
/// sequence that was split.
pub proof fn lemma_split_joins_back(s: Seq<u16>)
    ensures
        joined(split_at_zeros(s)) == s,
    decreases s.len(),
{
    lemma_first_zero_is_first(s);
    let k = first_zero(s);
    if k < s.len() {
        let tail = s.skip(k + 1);
        lemma_split_joins_back(tail);
        lemma_split_nonempty(tail);
        let pieces = split_at_zeros(s);
        assert(pieces.drop_first() =~= split_at_zeros(tail));
        assert(pieces[0] == s.take(k));
        assert(s.take(k) + seq![0u16] + tail =~= s);
    }
}

/// No piece holds a zero.
pub proof fn lemma_split_pieces_hold_no_zero(s: Seq<u16>, i: int, j: int)
    requires
        0 <= i < split_at_zeros(s).len(),
        0 <= j < split_at_zeros(s)[i].len(),
    ensures
        split_at_zeros(s)[i][j] != 0,
    decreases s.len(),
{
    lemma_first_zero_is_first(s);
    let k = first_zero(s);
    if k < s.len() {
        let tail = s.skip(k + 1);
        if i == 0 {
            assert(split_at_zeros(s)[0] == s.take(k));
        } else {
            assert(split_at_zeros(s)[i] == split_at_zeros(tail)[i - 1]);
            lemma_split_pieces_hold_no_zero(tail, i - 1, j);
        }
    }
}

/// The first zero is where a zero stands after a stretch without zeros.
pub proof fn lemma_first_zero(s: Seq<u16>, k: int)
    requires
        0 <= k <= s.len(),
        forall|j: int| 0 <= j < k ==> s[j] != 0,
        k < s.len() ==> s[k] == 0,
    ensures
        first_zero(s) == k,
    decreases s.len(),
{
    if s.len() == 0 || s[0] == 0 {
    } else {
        let rest = s.drop_first();
        assert forall|j: int| 0 <= j < k - 1 implies rest[j] != 0 by {
            assert(rest[j] == s[j + 1]);
        }
        lemma_first_zero(rest, k - 1);
    }
}

/// A copy of the code units of `s` from `from` up to `to`.
fn copy_range(s: &[u16], from: usize, to: usize) -> (r: Vec<u16>)
    requires
        from <= to <= s@.len(),
    ensures
        r@ == s@.subrange(from as int, to as int),
{
    let mut r: Vec<u16> = Vec::new();
    let mut i: usize = from;
    while i < to
        invariant
            from <= i <= to <= s@.len(),
            r@ == s@.subrange(from as int, i as int),
        decreases to - i,
    {
        r.push(s[i]);
        i = i + 1;
        assert(r@ =~= s@.subrange(from as int, i as int));
    }
    r
}

/// The names of the user's preferred languages: the first `count` names
/// among the first `used` code units of `buffer`, each name ending before a
/// zero or at the end of what is used.
pub fn user_preferred_languages(buffer: &[u16], used: u32, count: u32) -> (r: Vec<Vec<u16>>)
    requires
        used <= buffer@.len(),
    ensures
        r.deep_view() == languages(buffer@, used as int, count as int),
{
    let n: usize = used as usize;
    let ghost s = buffer@.take(used as int);
    let mut out: Vec<Vec<u16>> = Vec::new();
    let mut start: usize = 0;
    let mut i: usize = 0;
    let mut done: bool = count == 0;
    proof {
        assert(s.skip(0) =~= s);
        assert(out.deep_view() =~= Seq::<Seq<u16>>::empty());
    }
    while !done
        invariant
            n == used,
            n <= buffer@.len(),
            s == buffer@.take(used as int),
            start <= i <= n,
            forall|j: int| start <= j < i ==> s[j] != 0,
            out.len() <= count,
            !done ==> out.len() < count,
            !done ==> split_at_zeros(s) == out.deep_view() + split_at_zeros(s.skip(start as int)),
            done ==> out.deep_view() == languages(buffer@, used as int, count as int),
        decreases n - i + (if done { 0int } else { 1int }),
    {
        let ghost rest = s.skip(start as int);
        let ghost before = out.deep_view();
        if i == n {
            let piece = copy_range(buffer, start, n);
            proof {
                lemma_first_zero(rest, n - start);
                assert(piece@ =~= rest);
                assert(split_at_zeros(rest) == seq![rest]);
            }
            assert(piece.deep_view() =~= piece@);
            out.push(piece);
            proof {
                assert(out.deep_view() =~= before.push(rest));
                assert(before.push(rest) =~= before + seq![rest]);
            }
            done = true;
        } else if buffer[i] == 0 {
            let piece = copy_range(buffer, start, i);
            proof {
                assert(rest[i - start] == s[i as int]);
                lemma_first_zero(rest, i - start);
                assert(piece@ =~= rest.take(i - start));
                assert(rest.skip(i - start + 1) =~= s.skip(i + 1));
            }
            assert(piece.deep_view() =~= piece@);
            out.push(piece);
            proof {
                let tail = split_at_zeros(s.skip(i + 1));
                let piece_view = rest.take(i - start);
                assert(out.deep_view() =~= before.push(piece_view));
                assert(split_at_zeros(rest) == seq![piece_view] + tail);
                assert(split_at_zeros(s) =~= out.deep_view() + tail);
            }
            i = i + 1;
            start = i;
            if out.len() == count as usize {
                proof {
                    let tail = split_at_zeros(s.skip(start as int));
                    let all = split_at_zeros(s);
                    assert(tail.len() >= 1);
                    assert(all.take(count as int) =~= out.deep_view());
                }
                done = true;
            }
        } else {
            i = i + 1;
        }
    }
    out
}

/// The language that the program displays its texts in: the first of the
/// user's preferred languages, if the system reported any.
pub fn init_i18n(buffer: &[u16], used: u32, count: u32) -> (r: Option<Vec<u16>>)
    requires
        used <= buffer@.len(),
    ensures
        match r {
            Some(language) => count > 0 && language@ == languages(
                buffer@,
                used as int,
                count as int,
            )[0],
            None => count == 0,
        },
{
    let mut all = user_preferred_languages(buffer, used, count);
    proof {
        lemma_split_nonempty(buffer@.take(used as int));
    }
    if all.len() == 0 {
        proof {
            let pieces = split_at_zeros(buffer@.take(used as int));
            assert(all.deep_view().len() == 0);
            if count >= pieces.len() {
                assert(languages(buffer@, used as int, count as int) == pieces);
            } else {
                assert(pieces.take(count as int).len() == count);
            }
        }
        None
    } else {
        assert(all.deep_view().len() > 0);
        proof {
            let expected = languages(buffer@, used as int, count as int);
            assert(expected[0] == all@[0].deep_view());
            assert(all@[0].deep_view() =~= all@[0]@);
        }
        let first = all.swap_remove(0);
        Some(first)
    }
}

/// A sequence always splits into at least one piece.
pub proof fn lemma_split_nonempty(s: Seq<u16>)
    ensures
        split_at_zeros(s).len() >= 1,
    decreases s.len(),
{
    let k = first_zero(s);
    if 0 <= k < s.len() {
        lemma_split_nonempty(s.skip(k + 1));
    }
}

} // verus!
