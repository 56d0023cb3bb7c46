//! Reading the characters of a string slice, and cutting a path into tokens.

use vstd::prelude::*;

verus! {

/// Whether `lit` stands in `s` at position `at`.
pub open spec fn has_at(s: Seq<char>, at: int, lit: Seq<char>) -> bool {
    0 <= at && at + lit.len() <= s.len() && s.subrange(at, at + lit.len()) == lit
}

/// Whether `n` is the length of the first token of `s`: the characters
/// before the first `/`, or all of `s` where it holds none.
pub open spec fn is_token_len(s: Seq<char>, n: int) -> bool {
    &&& 0 <= n <= s.len()
    &&& forall|i: int| 0 <= i < n ==> #[trigger] s[i] != '/'
    &&& n < s.len() ==> s[n] == '/'
}

/// The length of the first token of `s`.
pub open spec fn token_len(s: Seq<char>) -> int
    decreases s.len(),
{
    if s.len() == 0 || s[0] == '/' {
        0
    } else {
        1 + token_len(s.skip(1))
    }
}

/// The first token of `s`.
pub open spec fn first_token(s: Seq<char>) -> Seq<char> {
    s.take(token_len(s))
}

/// What follows the first token of `s`: nothing, or a text that begins with `/`.
pub open spec fn after_token(s: Seq<char>) -> Seq<char> {
    s.skip(token_len(s))
}

/// The first token ends where the first `/` stands, and nowhere else.
pub proof fn lemma_token_len(s: Seq<char>)
    ensures
        is_token_len(s, token_len(s)),
        forall|n: int| is_token_len(s, n) ==> n == token_len(s),
    decreases s.len(),
{
    if s.len() == 0 || s[0] == '/' {
        assert forall|n: int| is_token_len(s, n) implies n == 0 by {
            if n > 0 {
                assert(s[0] != '/');
            }
        }
    } else {
        let t = s.skip(1);
        lemma_token_len(t);
        let k = token_len(t);
        assert forall|i: int| 0 <= i < k + 1 implies #[trigger] s[i] != '/' by {
            if i > 0 {
                assert(t[i - 1] == s[i]);
            }
        }
        assert forall|n: int| is_token_len(s, n) implies n == k + 1 by {
            assert(n > 0);
            assert forall|i: int| 0 <= i < n - 1 implies #[trigger] t[i] != '/' by {
                assert(t[i] == s[i + 1]);
            }
            assert(is_token_len(t, n - 1));
        }
    }
}

/// What follows the `/` that `s` begins with; `s` itself where it is empty.
pub open spec fn after_slash(s: Seq<char>) -> Seq<char> {
    if s.len() > 0 {
        s.skip(1)
    } else {
        s
    }
}

/// Cutting `s` at `a` and the rest at `b` is cutting `s` at `a + b`; the
/// start of the rest is a stretch of `s`; and a text stands at the start of
/// the rest where it stands in `s` at `a`.
pub proof fn lemma_skip(s: Seq<char>, a: int, b: int, lit: Seq<char>)
    requires
        0 <= a <= s.len(),
        0 <= b <= s.len() - a,
    ensures
        s.skip(a).skip(b) == s.skip(a + b),
        s.skip(a).take(b) == s.subrange(a, a + b),
        has_at(s.skip(a), 0, lit) == has_at(s, a, lit),
{
    assert(s.skip(a).skip(b) =~= s.skip(a + b));
    assert(s.skip(a).take(b) =~= s.subrange(a, a + b));
    if lit.len() <= s.len() - a {
        assert(s.skip(a).subrange(0, lit.len() as int) =~= s.subrange(a, a + lit.len()));
    }
}

/// Where `a` holds no `/` and `b` is empty or begins with `/`, the first
/// token of `a + b` is `a` and what follows it is `b`.
pub proof fn lemma_token_of_concat(a: Seq<char>, b: Seq<char>)
    requires
        forall|i: int| 0 <= i < a.len() ==> #[trigger] a[i] != '/',
        b.len() > 0 ==> b[0] == '/',
    ensures
        token_len(a + b) == a.len(),
        first_token(a + b) == a,
        after_token(a + b) == b,
{
    let s = a + b;
    assert forall|i: int| 0 <= i < a.len() implies #[trigger] s[i] != '/' by {
        assert(s[i] == a[i]);
    }
    if b.len() > 0 {
        assert(s[a.len() as int] == b[0]);
    }
    assert(is_token_len(s, a.len() as int));
    lemma_token_len(s);
    assert(s.take(a.len() as int) =~= a);
    assert(s.skip(a.len() as int) =~= b);
}

/// A text splits into its first token and what follows it.
pub proof fn lemma_token_split(s: Seq<char>)
    ensures
        s == first_token(s) + after_token(s),
        forall|i: int| 0 <= i < first_token(s).len() ==> #[trigger] first_token(s)[i] != '/',
        after_token(s).len() > 0 ==> after_token(s) == seq!['/'] + after_slash(after_token(s)),
{
    lemma_token_len(s);
    let n = token_len(s);
    assert(s =~= s.take(n) + s.skip(n));
    assert forall|i: int| 0 <= i < first_token(s).len() implies #[trigger] first_token(s)[i]
        != '/' by {
        assert(first_token(s)[i] == s[i]);
    }
    if after_token(s).len() > 0 {
        assert(after_token(s)[0] == s[n]);
        assert(after_token(s) =~= seq!['/'] + after_token(s).skip(1));
    }
}

/// `a + b` begins with `a`, and `b` is what follows; a text that begins
/// with `a` is `a` and what follows.
pub proof fn lemma_prefix(a: Seq<char>, b: Seq<char>, s: Seq<char>)
    ensures
        has_at(a + b, 0, a),
        (a + b).skip(a.len() as int) == b,
        has_at(s, 0, a) ==> s == a + s.skip(a.len() as int),
{
    assert((a + b).subrange(0, a.len() as int) =~= a);
    assert((a + b).skip(a.len() as int) =~= b);
    if has_at(s, 0, a) {
        assert(s =~= s.subrange(0, a.len() as int) + s.skip(a.len() as int));
    }
}

/// The characters of `s`, in order.
pub fn chars_of(s: &str) -> (v: Vec<char>)
    ensures
        v@ == s@,
{
    let mut v: Vec<char> = Vec::new();
    for c in it: s.chars()
        invariant
            v@ == it.seq().take(it.index()),
            it.seq() == s@,
    {
        v.push(c);
    }
    v
}

/// Whether the characters of `lit` stand in `chars` at position `at`.
pub fn matches_at(chars: &Vec<char>, at: usize, lit: &str) -> (r: bool)
    ensures
        r == has_at(chars@, at as int, lit@),
{
    let want = chars_of(lit);
    if at > chars.len() || want.len() > chars.len() - at {
        return false;
    }
    let mut i: usize = 0;
    while i < want.len()
        invariant
            i <= want.len(),
            want@ == lit@,
            at + want.len() <= chars.len(),
            forall|j: int| 0 <= j < i ==> chars@[at + j] == #[trigger] want@[j],
        decreases want.len() - i,
    {
        if chars[at + i] != want[i] {
            assert(chars@.subrange(at as int, at + lit@.len())[i as int] != lit@[i as int]);
            return false;
        }
        i += 1;
    }
    assert(chars@.subrange(at as int, at + lit@.len()) =~= lit@);
    true
}

/// Whether `chars` is exactly the text `lit`.
pub fn is_text(chars: &Vec<char>, lit: &str) -> (r: bool)
    ensures
        r == (chars@ == lit@),
{
    let r = matches_at(chars, 0, lit);
    proof {
        if chars@.len() == lit@.len() {
            assert(chars@.subrange(0, lit@.len() as int) =~= chars@);
        }
    }
    r && chars.len() == lit.unicode_len()
}

/// Whether the stretch of `chars` from `from` up to `to` is the text `lit`.
pub(crate) fn is_text_at(chars: &Vec<char>, from: usize, to: usize, lit: &str) -> (r: bool)
    requires
        from <= to <= chars.len(),
    ensures
        r == (chars@.subrange(from as int, to as int) == lit@),
{
    matches_at(chars, from, lit) && to - from == lit.unicode_len()
}

/// The position at which the token that starts at `from` ends.
pub(crate) fn token_end(chars: &Vec<char>, from: usize) -> (end: usize)
    requires
        from <= chars.len(),
    ensures
        from <= end <= chars.len(),
        end - from == token_len(chars@.skip(from as int)),
{
    let mut end: usize = from;
    while end < chars.len() && chars[end] != '/'
        invariant
            from <= end <= chars.len(),
            forall|i: int| from <= i < end ==> #[trigger] chars@[i] != '/',
        decreases chars.len() - end,
    {
        end += 1;
    }
    proof {
        let rest = chars@.skip(from as int);
        assert forall|i: int| 0 <= i < end - from implies #[trigger] rest[i] != '/' by {
            assert(rest[i] == chars@[from + i]);
        }
        assert(is_token_len(rest, end - from));
        lemma_token_len(rest);
    }
    end
}

/// The part of `text` from character `from` up to character `to`.
pub(crate) fn slice_string(text: &str, from: usize, to: usize) -> (r: String)
    requires
        from <= to <= text@.len(),
    ensures
        r@ == text@.subrange(from as int, to as int),
{
    String::from_str(text.substring_char(from, to))
}

} // verus!
