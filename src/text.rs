//! Character-level helpers: whitespace, tokens and keyword splitting.
use vstd::prelude::*;

verus! {

/// The Unicode `White_Space` characters, which `char::is_whitespace` accepts.
pub open spec fn is_space(c: char) -> bool {
    ||| c == '\t' || c == '\n' || c == '\u{0B}' || c == '\u{0C}' || c == '\r' || c == ' '
    ||| c == '\u{85}' || c == '\u{A0}' || c == '\u{1680}'
    ||| ('\u{2000}' <= c && c <= '\u{200A}')
    ||| c == '\u{2028}' || c == '\u{2029}' || c == '\u{202F}' || c == '\u{205F}'
    ||| c == '\u{3000}'
}

/// Whether `c` separates tokens.
pub fn is_space_char(c: char) -> (r: bool)
    ensures
        r == is_space(c),
{
    c == '\t' || c == '\n' || c == '\u{0B}' || c == '\u{0C}' || c == '\r' || c == ' '
        || c == '\u{85}' || c == '\u{A0}' || c == '\u{1680}' || ('\u{2000}' <= c && c
        <= '\u{200A}') || c == '\u{2028}' || c == '\u{2029}' || c == '\u{202F}' || c
        == '\u{205F}' || c == '\u{3000}'
}

} // verus!

verus! {

/// Splits `s` into its maximal runs of non-space characters, `cur` being the
/// run read so far.
pub open spec fn tokens_from(s: Seq<char>, cur: Seq<char>) -> Seq<Seq<char>>
    decreases s.len(),
{
    if s.len() == 0 {
        if cur.len() == 0 {
            seq![]
        } else {
            seq![cur]
        }
    } else if is_space(s[0]) {
        if cur.len() == 0 {
            tokens_from(s.drop_first(), seq![])
        } else {
            seq![cur] + tokens_from(s.drop_first(), seq![])
        }
    } else {
        tokens_from(s.drop_first(), cur.push(s[0]))
    }
}

/// The whitespace-separated tokens of `s`, in order.
pub open spec fn tokens(s: Seq<char>) -> Seq<Seq<char>> {
    tokens_from(s, seq![])
}

/// The views of a sequence of strings.
pub open spec fn views(v: Seq<String>) -> Seq<Seq<char>> {
    v.map_values(|t: String| t@)
}

/// The whitespace-separated tokens of `s`, in order.
pub fn split_tokens(s: &str) -> (r: Vec<String>)
    ensures
        views(r@) == tokens(s@),
{
    let n = s.unicode_len();
    let mut out: Vec<String> = Vec::new();
    let mut start: usize = 0;
    let mut i: usize = 0;
    assert(s@.subrange(0, n as int) =~= s@);
    assert(s@.subrange(0, 0) =~= Seq::<char>::empty());
    assert(views(out@) =~= Seq::<Seq<char>>::empty());
    while i < n
        invariant
            n == s@.len(),
            start <= i <= n,
            views(out@) + tokens_from(s@.subrange(i as int, n as int), s@.subrange(start as int, i as int))
                == tokens(s@),
        decreases n - i,
    {
        let c = s.get_char(i);
        let ghost rest = s@.subrange(i as int, n as int);
        let ghost cur = s@.subrange(start as int, i as int);
        assert(rest[0] == c);
        assert(rest.drop_first() =~= s@.subrange(i + 1, n as int));
        if is_space_char(c) {
            if start < i {
                let t = s.substring_char(start, i);
                let ghost before = views(out@);
                out.push(String::from_str(t));
                assert(views(out@) =~= before.push(cur));
                assert(before + (seq![cur] + tokens_from(rest.drop_first(), seq![])) =~= before.push(
                    cur,
                ) + tokens_from(rest.drop_first(), seq![]));
            }
            start = i + 1;
            assert(s@.subrange(start as int, start as int) =~= Seq::<char>::empty());
        } else {
            assert(cur.push(c) =~= s@.subrange(start as int, i + 1));
        }
        i = i + 1;
    }
    assert(s@.subrange(n as int, n as int) =~= Seq::<char>::empty());
    if start < n {
        let t = s.substring_char(start, n);
        let ghost before = views(out@);
        out.push(String::from_str(t));
        assert(views(out@) =~= before + seq![s@.subrange(start as int, n as int)]);
    } else {
        assert(views(out@) + Seq::<Seq<char>>::empty() =~= views(out@));
    }
    out
}

/// Neither character of `s` is a plain space.
pub open spec fn no_blank(s: Seq<char>) -> bool {
    forall|k: int| 0 <= k < s.len() ==> s[k] != ' '
}

/// `p` is the position of the first plain space of `s`.
pub open spec fn first_blank_at(s: Seq<char>, p: int) -> bool {
    0 <= p < s.len() && s[p] == ' ' && no_blank(s.take(p))
}

/// `s` cut at its first plain space into the part before and the part after;
/// `None` where `s` holds no plain space.
pub open spec fn cut_at_blank(s: Seq<char>) -> Option<(Seq<char>, Seq<char>)> {
    if exists|p: int| first_blank_at(s, p) {
        let p = choose|p: int| first_blank_at(s, p);
        Some((s.take(p), s.skip(p + 1)))
    } else {
        None
    }
}

/// At most one position is the first plain space.
pub proof fn lemma_first_blank_unique(s: Seq<char>, p: int, q: int)
    requires
        first_blank_at(s, p),
        first_blank_at(s, q),
    ensures
        p == q,
{
    if p < q {
        assert(s.take(q)[p] == s[p]);
    } else if q < p {
        assert(s.take(p)[q] == s[q]);
    }
}

/// Cuts `s` at its first plain space, as `str::split_once(' ')` does.
pub fn cut_once(s: &str) -> (r: Option<(String, String)>)
    ensures
        match (r, cut_at_blank(s@)) {
            (Some((a, b)), Some((x, y))) => a@ == x && b@ == y,
            (None, None) => true,
            _ => false,
        },
{
    let n = s.unicode_len();
    let mut i: usize = 0;
    while i < n
        invariant
            n == s@.len(),
            i <= n,
            no_blank(s@.take(i as int)),
        decreases n - i,
    {
        if s.get_char(i) == ' ' {
            let a = s.substring_char(0, i);
            let b = s.substring_char(i + 1, n);
            proof {
                assert(first_blank_at(s@, i as int));
                let p = choose|p: int| first_blank_at(s@, p);
                lemma_first_blank_unique(s@, p, i as int);
                assert(s@.subrange(0, i as int) =~= s@.take(i as int));
                assert(s@.subrange(i + 1, n as int) =~= s@.skip(i + 1));
            }
            return Some((String::from_str(a), String::from_str(b)));
        }
        assert(s@.take(i + 1) =~= s@.take(i as int).push(s@[i as int]));
        i = i + 1;
    }
    proof {
        assert(s@.take(n as int) =~= s@);
        assert forall|p: int| !first_blank_at(s@, p) by {
            if 0 <= p < s@.len() {
                assert(s@.take(n as int)[p] == s@[p]);
            }
        }
    }
    None
}

} // verus!
