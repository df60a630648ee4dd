use vstd::prelude::*;

verus! {

/// True when `sep` occurs nowhere in `s`.
pub open spec fn sep_free(s: Seq<char>, sep: char) -> bool {
    forall|i: int| 0 <= i < s.len() ==> s[i] != sep
}

/// The chunks of `s` between occurrences of `sep`, in order, separators
/// removed. The empty sequence splits into one empty chunk, and a separator
/// at either end or next to another contributes an empty chunk, exactly as
/// `str::split` behaves on a `char` pattern.
pub open spec fn split_chars(s: Seq<char>, sep: char) -> Seq<Seq<char>>
    decreases s.len(),
{
    if s.len() == 0 {
        seq![Seq::<char>::empty()]
    } else if s[0] == sep {
        seq![Seq::<char>::empty()] + split_chars(s.drop_first(), sep)
    } else {
        let rest = split_chars(s.drop_first(), sep);
        seq![seq![s[0]] + rest[0]] + rest.drop_first()
    }
}

/// Splitting yields at least one chunk.
pub proof fn lemma_split_len(s: Seq<char>, sep: char)
    ensures
        split_chars(s, sep).len() >= 1,
    decreases s.len(),
{
    if s.len() == 0 {
    } else {
        lemma_split_len(s.drop_first(), sep);
    }
}

/// A sequence without the separator splits into exactly itself.
pub proof fn lemma_split_sep_free(s: Seq<char>, sep: char)
    requires
        sep_free(s, sep),
    ensures
        split_chars(s, sep) == seq![s],
    decreases s.len(),
{
    if s.len() == 0 {
        assert(s =~= Seq::<char>::empty());
        assert(split_chars(s, sep) =~~= seq![s]);
    } else {
        assert(s[0] != sep);
        lemma_split_sep_free(s.drop_first(), sep);
        lemma_split_len(s.drop_first(), sep);
        let rest = split_chars(s.drop_first(), sep);
        assert(rest == seq![s.drop_first()]);
        assert(rest[0] == s.drop_first());
        assert(seq![s[0]] + s.drop_first() =~= s);
        assert(rest.drop_first() =~= Seq::<Seq<char>>::empty());
        assert(split_chars(s, sep) =~~= seq![s]);
    }
}

/// Splitting at the first separator occurrence: everything before it is the
/// first chunk, and the rest splits on its own.
pub proof fn lemma_split_at_first(s: Seq<char>, sep: char, i: int)
    requires
        0 <= i < s.len(),
        s[i] == sep,
        forall|j: int| 0 <= j < i ==> s[j] != sep,
    ensures
        split_chars(s, sep) == seq![s.take(i)] + split_chars(s.skip(i + 1), sep),
    decreases i,
{
    if i == 0 {
        assert(s[0] == sep);
        assert(s.take(0) =~= Seq::<char>::empty());
        assert(s.skip(1) =~= s.drop_first());
        assert(split_chars(s, sep) =~~= seq![s.take(0)] + split_chars(s.skip(1), sep));
    } else {
        assert(s[0] != sep);
        let t = s.drop_first();
        assert(t[i - 1] == sep);
        assert(forall|j: int| 0 <= j < i - 1 ==> t[j] != sep);
        lemma_split_at_first(t, sep, i - 1);
        lemma_split_len(t.skip(i), sep);
        let rest = split_chars(t, sep);
        assert(rest == seq![t.take(i - 1)] + split_chars(t.skip(i), sep));
        assert(rest[0] == t.take(i - 1));
        assert(seq![s[0]] + t.take(i - 1) =~= s.take(i));
        assert(rest.drop_first() =~= split_chars(t.skip(i), sep));
        assert(t.skip(i) =~= s.skip(i + 1));
        assert(split_chars(s, sep) =~~= seq![s.take(i)] + split_chars(s.skip(i + 1), sep));
    }
}

/// Gluing a separator-free prefix onto anything with one separator between:
/// the prefix becomes the first chunk.
pub proof fn lemma_split_glue(a: Seq<char>, b: Seq<char>, sep: char)
    requires
        sep_free(a, sep),
    ensures
        split_chars(a + seq![sep] + b, sep) == seq![a] + split_chars(b, sep),
{
    let s = a + seq![sep] + b;
    assert(s[a.len() as int] == sep);
    assert(forall|j: int| 0 <= j < a.len() ==> s[j] == a[j] && s[j] != sep);
    lemma_split_at_first(s, sep, a.len() as int);
    assert(s.take(a.len() as int) =~= a);
    assert(s.skip(a.len() as int + 1) =~= b);
}

/// Concatenation keeps freedom from a separator.
pub proof fn lemma_sep_free_concat(a: Seq<char>, b: Seq<char>, sep: char)
    requires
        sep_free(a, sep),
        sep_free(b, sep),
    ensures
        sep_free(a + b, sep),
{
    assert forall|i: int| 0 <= i < (a + b).len() implies (a + b)[i] != sep by {
        if i < a.len() {
            assert((a + b)[i] == a[i]);
        } else {
            assert((a + b)[i] == b[i - a.len()]);
        }
    }
}

/// Splits `s` on single occurrences of `sep`, as `str::split` does: the
/// returned pieces are exactly the chunks of `split_chars`, in order.
pub fn split_str(s: &str, sep: char) -> (r: Vec<String>)
    ensures
        r@.len() == split_chars(s@, sep).len(),
        forall|k: int| 0 <= k < r@.len() ==> r@[k]@ == split_chars(s@, sep)[k],
    decreases s@.len(),
{
    let n = s.unicode_len();
    let mut i: usize = 0;
    while i < n && s.get_char(i) != sep
        invariant
            i <= n,
            n == s@.len(),
            forall|j: int| 0 <= j < i ==> s@[j] != sep,
        decreases n - i,
    {
        i = i + 1;
    }
    if i == n {
        proof {
            lemma_split_sep_free(s@, sep);
        }
        let mut v: Vec<String> = Vec::new();
        v.push(s.to_owned());
        v
    } else {
        let head = s.substring_char(0, i);
        let tail = s.substring_char(i + 1, n);
        proof {
            lemma_split_at_first(s@, sep, i as int);
            assert(s@.subrange(0, i as int) =~= s@.take(i as int));
            assert(s@.subrange(i + 1, n as int) =~= s@.skip(i + 1));
        }
        let mut v = split_str(tail, sep);
        v.insert(0, head.to_owned());
        proof {
            let whole = split_chars(s@, sep);
            assert(forall|k: int| 1 <= k < v@.len() ==> v@[k]@ == whole[k]);
        }
        v
    }
}

} // verus!
