//! Helpers on character sequences: joining a list of statements with a
//! separator, splitting on commas, and trimming surrounding blanks.

use vstd::prelude::*;

verus! {

/// The elements of `parts` laid end to end with `sep` between consecutive
/// elements; empty when `parts` is empty.
pub open spec fn join_with(parts: Seq<Seq<char>>, sep: Seq<char>) -> Seq<char>
    decreases parts.len(),
{
    if parts.len() == 0 {
        Seq::empty()
    } else if parts.len() == 1 {
        parts[0]
    } else {
        join_with(parts.drop_last(), sep) + sep + parts.last()
    }
}

/// Joining two statement lists laid one after the other joins each list and
/// puts a single separator between them; an empty list on either side
/// contributes nothing, not even a separator.
pub proof fn lemma_join_with_append(a: Seq<Seq<char>>, b: Seq<Seq<char>>, sep: Seq<char>)
    ensures
        a.len() == 0 ==> join_with(a + b, sep) == join_with(b, sep),
        b.len() == 0 ==> join_with(a + b, sep) == join_with(a, sep),
        a.len() > 0 && b.len() > 0 ==> join_with(a + b, sep) == join_with(a, sep) + sep
            + join_with(b, sep),
    decreases b.len(),
{
    if a.len() == 0 {
        assert(a + b =~= b);
    } else if b.len() == 0 {
        assert(a + b =~= a);
    } else if b.len() == 1 {
        assert((a + b).drop_last() =~= a);
        assert((a + b).last() == b[0]);
        assert(join_with(b, sep) == b[0]);
    } else {
        lemma_join_with_append(a, b.drop_last(), sep);
        assert((a + b).drop_last() =~= a + b.drop_last());
        assert((a + b).last() == b.last());
        assert(join_with(a, sep) + sep + (join_with(b.drop_last(), sep) + sep + b.last()) =~= (
        join_with(a, sep) + sep + join_with(b.drop_last(), sep)) + sep + b.last());
    }
}

/// Joins `parts` with `sep`, the executable counterpart of `join_with`.
pub fn join_all(parts: &[String], sep: &str) -> (r: String)
    ensures
        r@ == join_with(parts.deep_view(), sep@),
{
    let mut r = String::new();
    let mut i: usize = 0;
    while i < parts.len()
        invariant
            i <= parts.len(),
            r@ == join_with(parts.deep_view().take(i as int), sep@),
        decreases parts.len() - i,
    {
        if i > 0 {
            r.append(sep);
        }
        r.append(parts[i].as_str());
        proof {
            let dv = parts.deep_view();
            assert(dv.take(i + 1).drop_last() =~= dv.take(i as int));
            assert(dv.take(i + 1).last() == dv[i as int]);
        }
        i += 1;
    }
    proof {
        assert(parts.deep_view().take(parts.deep_view().len() as int) =~= parts.deep_view());
    }
    r
}

/// A blank that trimming removes from either end of a piece.
pub open spec fn is_blank(c: char) -> bool {
    c == ' ' || c == '\t' || c == '\n' || c == '\r'
}

/// `s` without its leading blanks.
pub open spec fn trim_start(s: Seq<char>) -> Seq<char>
    decreases s.len(),
{
    if s.len() > 0 && is_blank(s[0]) {
        trim_start(s.drop_first())
    } else {
        s
    }
}

/// `s` without its trailing blanks.
pub open spec fn trim_end(s: Seq<char>) -> Seq<char>
    decreases s.len(),
{
    if s.len() > 0 && is_blank(s.last()) {
        trim_end(s.drop_last())
    } else {
        s
    }
}

/// `s` without its leading and trailing blanks.
pub open spec fn trim_blanks(s: Seq<char>) -> Seq<char> {
    trim_end(trim_start(s))
}

/// The pieces of `s` between commas, read left to right with `cur` the piece
/// begun so far; a trailing comma yields a final empty piece.
pub open spec fn split_rec(s: Seq<char>, cur: Seq<char>) -> Seq<Seq<char>>
    decreases s.len(),
{
    if s.len() == 0 {
        seq![cur]
    } else if s[0] == ',' {
        seq![cur] + split_rec(s.drop_first(), Seq::empty())
    } else {
        split_rec(s.drop_first(), cur.push(s[0]))
    }
}

/// The pieces of `s` between commas; always one more piece than commas.
pub open spec fn split_commas(s: Seq<char>) -> Seq<Seq<char>> {
    split_rec(s, Seq::empty())
}

/// The pieces of `s` between commas, each trimmed of surrounding blanks.
pub open spec fn split_trimmed(s: Seq<char>) -> Seq<Seq<char>> {
    split_commas(s).map_values(|p: Seq<char>| trim_blanks(p))
}

/// Whether trimming removes `c`, the executable counterpart of `is_blank`.
fn blank(c: char) -> (r: bool)
    ensures
        r == is_blank(c),
{
    c == ' ' || c == '\t' || c == '\n' || c == '\r'
}

/// The piece `s[from..to]` trimmed of surrounding blanks.
fn trim_piece(s: &str, from: usize, to: usize) -> (r: String)
    requires
        from <= to <= s@.len(),
    ensures
        r@ == trim_blanks(s@.subrange(from as int, to as int)),
{
    let mut lo = from;
    let hi = to;
    while lo < hi && blank(s.get_char(lo))
        invariant
            from <= lo <= hi <= s@.len(),
            hi == to,
            trim_start(s@.subrange(from as int, to as int)) == trim_start(
                s@.subrange(lo as int, to as int),
            ),
        decreases hi - lo,
    {
        proof {
            assert(s@.subrange(lo as int, to as int).drop_first() =~= s@.subrange(
                lo + 1,
                to as int,
            ));
        }
        lo += 1;
    }
    proof {
        assert(trim_start(s@.subrange(from as int, to as int)) == s@.subrange(
            lo as int,
            to as int,
        ));
    }
    let mut hi = to;
    while hi > lo && blank(s.get_char(hi - 1))
        invariant
            from <= lo <= hi <= to <= s@.len(),
            trim_start(s@.subrange(from as int, to as int)) == s@.subrange(lo as int, to as int),
            trim_end(s@.subrange(lo as int, to as int)) == trim_end(
                s@.subrange(lo as int, hi as int),
            ),
        decreases hi,
    {
        proof {
            assert(s@.subrange(lo as int, hi as int).drop_last() =~= s@.subrange(
                lo as int,
                hi - 1,
            ));
        }
        hi -= 1;
    }
    proof {
        assert(trim_end(s@.subrange(lo as int, hi as int)) == s@.subrange(lo as int, hi as int));
        assert(trim_blanks(s@.subrange(from as int, to as int)) == s@.subrange(
            lo as int,
            hi as int,
        ));
    }
    let piece = s.substring_char(lo, hi);
    piece.to_owned()
}

/// Splits `s` at commas and trims each piece, the executable counterpart of
/// `split_trimmed`.
pub fn split_trim(s: &str) -> (r: Vec<String>)
    ensures
        r.deep_view() == split_trimmed(s@),
{
    let n = s.unicode_len();
    let mut out: Vec<String> = Vec::new();
    let mut start: usize = 0;
    let mut i: usize = 0;
    proof {
        assert(s@.skip(0) =~= s@);
        assert(s@.subrange(0, 0) =~= Seq::<char>::empty());
        assert(split_rec(s@, Seq::empty()).map_values(|p: Seq<char>| trim_blanks(p)) =~~=
        split_trimmed(s@));
        assert(out.deep_view() =~~= Seq::<Seq<char>>::empty());
    }
    while i < n
        invariant
            start <= i <= n,
            n == s@.len(),
            split_trimmed(s@) == out.deep_view() + split_rec(
                s@.skip(i as int),
                s@.subrange(start as int, i as int),
            ).map_values(|p: Seq<char>| trim_blanks(p)),
        decreases n - i,
    {
        let c = s.get_char(i);
        proof {
            assert(s@.skip(i as int)[0] == s@[i as int]);
            assert(s@.skip(i as int).drop_first() =~= s@.skip(i + 1));
        }
        if c == ',' {
            let piece = trim_piece(s, start, i);
            let ghost pv = piece@;
            let ghost before = out.deep_view();
            out.push(piece);
            proof {
                assert(out.deep_view() =~~= before.push(pv));
                assert((seq![s@.subrange(start as int, i as int)] + split_rec(
                    s@.skip(i + 1),
                    Seq::empty(),
                )).map_values(|p: Seq<char>| trim_blanks(p)) =~~= seq![
                    trim_blanks(s@.subrange(start as int, i as int)),
                ] + split_rec(s@.skip(i + 1), Seq::empty()).map_values(
                    |p: Seq<char>| trim_blanks(p),
                ));
                assert(s@.subrange(i + 1, i + 1) =~= Seq::<char>::empty());
                assert(split_trimmed(s@) =~~= out.deep_view() + split_rec(
                    s@.skip(i + 1),
                    s@.subrange(i + 1, i + 1),
                ).map_values(|p: Seq<char>| trim_blanks(p)));
            }
            start = i + 1;
        } else {
            proof {
                assert(s@.subrange(start as int, i as int).push(s@[i as int]) =~= s@.subrange(
                    start as int,
                    i + 1,
                ));
            }
        }
        i += 1;
    }
    let piece = trim_piece(s, start, n);
    let ghost pv = piece@;
    let ghost before = out.deep_view();
    out.push(piece);
    proof {
        assert(s@.skip(n as int) =~= Seq::<char>::empty());
        assert(out.deep_view() =~~= before.push(pv));
        assert(seq![s@.subrange(start as int, n as int)].map_values(
            |p: Seq<char>| trim_blanks(p),
        ) =~~= seq![trim_blanks(s@.subrange(start as int, n as int))]);
        assert(out.deep_view() =~~= split_trimmed(s@));
    }
    out
}

} // verus!
