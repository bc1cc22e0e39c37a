//! Path and text helpers used to build patterns and file locations.
use vstd::prelude::*;

verus! {

/// The views of a sequence of strings.
pub open spec fn texts(v: Seq<String>) -> Seq<Seq<char>> {
    v.map_values(|s: String| s@)
}

/// A path is absolute when it starts at the root.
pub open spec fn is_absolute(p: Seq<char>) -> bool {
    p.len() > 0 && p[0] == '/'
}

/// `rest` joined onto `base`: an absolute `rest` replaces `base`; otherwise a
/// separator is put between the two unless `base` is empty or already ends
/// with one.
pub open spec fn joined(base: Seq<char>, rest: Seq<char>) -> Seq<char> {
    if is_absolute(rest) {
        rest
    } else if base.len() == 0 || base.last() == '/' {
        base + rest
    } else {
        base + seq!['/'] + rest
    }
}

/// The pieces of `s` between commas, in order; a text without a comma is
/// one piece, and the empty text is one empty piece.
pub open spec fn comma_pieces(s: Seq<char>) -> Seq<Seq<char>>
    decreases s.len(),
{
    if s.len() == 0 {
        seq![Seq::<char>::empty()]
    } else {
        let rest = comma_pieces(s.drop_last());
        if s.last() == ',' {
            rest.push(Seq::<char>::empty())
        } else {
            rest.update(rest.len() - 1, rest.last().push(s.last()))
        }
    }
}

proof fn lemma_comma_pieces_nonempty(s: Seq<char>)
    ensures
        comma_pieces(s).len() >= 1,
    decreases s.len(),
{
    if s.len() > 0 {
        lemma_comma_pieces_nonempty(s.drop_last());
    }
}

/// Joins `rest` onto `base` as a filesystem path (Unix rules).
pub fn join_path(base: &str, rest: &str) -> (r: String)
    ensures
        r@ == joined(base@, rest@),
{
    let mut out = String::from_str(base);
    let rest_len = rest.unicode_len();
    if rest_len > 0 && rest.get_char(0) == '/' {
        return String::from_str(rest);
    }
    let base_len = base.unicode_len();
    if base_len > 0 && base.get_char(base_len - 1) != '/' {
        proof {
            reveal_strlit("/");
        }
        out.append("/");
    }
    out.append(rest);
    out
}

/// Splits `s` at every comma.
pub fn split_commas(s: &str) -> (r: Vec<String>)
    ensures
        texts(r@) == comma_pieces(s@),
{
    let n = s.unicode_len();
    let mut pieces: Vec<String> = Vec::new();
    let mut start: usize = 0;
    let mut i: usize = 0;
    proof {
        assert(texts(pieces@) =~= Seq::<Seq<char>>::empty());
        assert(s@.subrange(0, 0) =~= Seq::<char>::empty());
        assert(texts(pieces@).push(s@.subrange(0, 0)) =~= seq![Seq::<char>::empty()]);
        assert(s@.take(0) =~= Seq::<char>::empty());
    }
    while i < n
        invariant
            n == s@.len(),
            start <= i <= n,
            texts(pieces@).push(s@.subrange(start as int, i as int)) == comma_pieces(
                s@.take(i as int),
            ),
        decreases n - i,
    {
        let c = s.get_char(i);
        proof {
            let prefix = s@.take(i as int + 1);
            assert(prefix.drop_last() =~= s@.take(i as int));
            assert(prefix.last() == c);
            lemma_comma_pieces_nonempty(s@.take(i as int));
        }
        if c == ',' {
            let piece = String::from_str(s.substring_char(start, i));
            let ghost before = pieces@;
            pieces.push(piece);
            proof {
                assert(texts(pieces@) =~= texts(before).push(piece@));
                assert(s@.subrange(i as int + 1, i as int + 1) =~= Seq::<char>::empty());
            }
            start = i + 1;
        } else {
            proof {
                assert(s@.subrange(start as int, i as int + 1) =~= s@.subrange(
                    start as int,
                    i as int,
                ).push(c));
                let prev = texts(pieces@).push(s@.subrange(start as int, i as int));
                assert(texts(pieces@).push(s@.subrange(start as int, i as int + 1)) =~= prev.update(
                    prev.len() - 1,
                    prev.last().push(c),
                ));
            }
        }
        i = i + 1;
    }
    let last = String::from_str(s.substring_char(start, n));
    let ghost before = pieces@;
    pieces.push(last);
    proof {
        assert(texts(pieces@) =~= texts(before).push(last@));
        assert(s@.take(n as int) =~= s@);
    }
    pieces
}

} // verus!
