//! Splitting and joining character sequences on a separator.
use vstd::prelude::*;

verus! {

/// Splits `s` on `sep`, where `cur` holds the characters of the token read so far.
pub open spec fn split_from(s: Seq<char>, sep: char, cur: Seq<char>) -> Seq<Seq<char>>
    decreases s.len(),
{
    if s.len() == 0 {
        seq![cur]
    } else if s[0] == sep {
        seq![cur] + split_from(s.drop_first(), sep, Seq::empty())
    } else {
        split_from(s.drop_first(), sep, cur.push(s[0]))
    }
}

/// The tokens of `s` between occurrences of `sep`, as `str::split` gives them:
/// never empty, and `n` separators give `n + 1` tokens.
pub open spec fn split_on(s: Seq<char>, sep: char) -> Seq<Seq<char>> {
    split_from(s, sep, Seq::empty())
}

/// Index of the first `sep` in `s`, or `s.len()` if there is none.
pub open spec fn first_sep(s: Seq<char>, sep: char) -> int
    decreases s.len(),
{
    if s.len() == 0 || s[0] == sep {
        0
    } else {
        1 + first_sep(s.drop_first(), sep)
    }
}

/// `first_sep` is the least index that holds `sep`.
pub proof fn lemma_first_sep(s: Seq<char>, sep: char)
    ensures
        0 <= first_sep(s, sep) <= s.len(),
        first_sep(s, sep) < s.len() ==> s[first_sep(s, sep)] == sep,
        forall|j: int| 0 <= j < first_sep(s, sep) ==> s[j] != sep,
    decreases s.len(),
{
    if s.len() > 0 && s[0] != sep {
        lemma_first_sep(s.drop_first(), sep);
        assert forall|j: int| 0 <= j < first_sep(s, sep) implies s[j] != sep by {
            if j > 0 {
                assert(s[j] == s.drop_first()[j - 1]);
            }
        }
    }
}

/// The first token of a split ends at the first separator; the rest is the
/// split of what follows it.
pub proof fn lemma_split_first(s: Seq<char>, sep: char, cur: Seq<char>)
    ensures
        split_from(s, sep, cur) == (if first_sep(s, sep) < s.len() {
            seq![cur + s.take(first_sep(s, sep))] + split_on(s.skip(first_sep(s, sep) + 1), sep)
        } else {
            seq![cur + s]
        }),
    decreases s.len(),
{
    lemma_first_sep(s, sep);
    if s.len() == 0 {
        assert(cur + s =~= cur);
    } else if s[0] == sep {
        assert(cur + s.take(0) =~= cur);
        assert(s.skip(1) =~= s.drop_first());
    } else {
        let t = s.drop_first();
        lemma_split_first(t, sep, cur.push(s[0]));
        let k = first_sep(t, sep);
        if k < t.len() {
            assert(cur.push(s[0]) + t.take(k) =~= cur + s.take(k + 1));
            assert(t.skip(k + 1) =~= s.skip(k + 2));
        } else {
            assert(cur.push(s[0]) + t =~= cur + s);
        }
    }
}

/// A split has at least one token.
pub proof fn lemma_split_nonempty(s: Seq<char>, sep: char)
    ensures
        split_on(s, sep).len() >= 1,
{
    lemma_split_first(s, sep, Seq::empty());
}

/// The tokens of `parts` with `sep` between each two neighbours.
pub open spec fn join_with(parts: Seq<Seq<char>>, sep: char) -> Seq<char>
    decreases parts.len(),
{
    if parts.len() == 0 {
        Seq::empty()
    } else if parts.len() == 1 {
        parts[0]
    } else {
        join_with(parts.drop_last(), sep).push(sep) + parts.last()
    }
}

/// The character views of a sequence of string slices.
pub open spec fn views(v: Seq<&str>) -> Seq<Seq<char>> {
    v.map_values(|t: &str| t@)
}

/// Splits `s` at each occurrence of `sep`.
pub fn split_str<'a>(s: &'a str, sep: char) -> (r: Vec<&'a str>)
    ensures
        views(r@) == split_on(s@, sep),
{
    let n = s.unicode_len();
    let mut parts: Vec<&'a str> = Vec::new();
    let mut start: usize = 0;
    let mut i: usize = 0;
    proof {
        assert(views(parts@) =~= Seq::<Seq<char>>::empty());
        assert(s@.skip(0) =~= s@);
        assert(s@.subrange(0, 0) =~= Seq::<char>::empty());
    }
    while i < n
        invariant
            n == s@.len(),
            start <= i <= n,
            split_on(s@, sep) == views(parts@) + split_from(s@.skip(i as int), sep, s@.subrange(start as int, i as int)),
        decreases n - i,
    {
        let c = s.get_char(i);
        proof {
            let rest = s@.skip(i as int);
            assert(rest[0] == c);
            assert(rest.drop_first() =~= s@.skip(i + 1));
        }
        if c == sep {
            let t = s.substring_char(start, i);
            proof {
                assert(views(parts@.push(t)) =~= views(parts@).push(t@));
                assert(s@.subrange(i + 1, i + 1) =~= Seq::<char>::empty());
                assert(seq![t@] + split_from(s@.skip(i + 1), sep, Seq::empty()) =~= seq![t@].add(split_from(s@.skip(i + 1), sep, Seq::empty())));
                assert(views(parts@) + (seq![t@] + split_from(s@.skip(i + 1), sep, Seq::empty())) =~= views(parts@).push(t@) + split_from(s@.skip(i + 1), sep, Seq::empty()));
            }
            parts.push(t);
            start = i + 1;
        } else {
            proof {
                assert(s@.subrange(start as int, i as int).push(c) =~= s@.subrange(start as int, i + 1));
            }
        }
        i = i + 1;
    }
    let t = s.substring_char(start, n);
    proof {
        assert(s@.skip(n as int).len() == 0);
        assert(views(parts@.push(t)) =~= views(parts@).push(t@));
        assert(views(parts@) + seq![t@] =~= views(parts@).push(t@));
    }
    parts.push(t);
    parts
}

/// Joins `parts[from..]` with `/` between each two neighbours.
pub fn join_path(parts: &Vec<&str>, from: usize) -> (r: String)
    requires
        from <= parts.len(),
    ensures
        r@ == join_with(views(parts@).skip(from as int), '/'),
{
    let mut acc = String::new();
    let mut i: usize = from;
    proof {
        assert(views(parts@).subrange(from as int, from as int) =~= Seq::<Seq<char>>::empty());
    }
    while i < parts.len()
        invariant
            from <= i <= parts.len(),
            acc@ == join_with(views(parts@).subrange(from as int, i as int), '/'),
        decreases parts.len() - i,
    {
        let ghost before = views(parts@).subrange(from as int, i as int);
        let ghost after = views(parts@).subrange(from as int, i + 1);
        proof {
            assert(after.drop_last() =~= before);
            assert(after.last() == parts@[i as int]@);
        }
        if i > from {
            proof {
                reveal_strlit("/");
            }
            acc.append("/");
        } else {
            proof {
                assert(after =~= seq![parts@[i as int]@]);
            }
        }
        acc.append(parts[i]);
        i = i + 1;
    }
    proof {
        assert(views(parts@).subrange(from as int, parts.len() as int) =~= views(parts@).skip(from as int));
    }
    acc
}

} // verus!
