use vstd::prelude::*;

verus! {

/// The characters of `s`, in order.
pub fn chars_of(s: &str) -> (v: Vec<char>)
    ensures
        v@ == s@,
{
    broadcast use vstd::string::group_string_axioms;

    let mut v: Vec<char> = Vec::new();
    for c in it: s.chars()
        invariant
            v@ == it.seq().take(it.index() as int),
    {
        v.push(c);
    }
    v
}

/// `String::push`: appends the character `c` at the end of `s`
/// (the documentation: "Appends the given char to the end of this String").
#[verifier::external_body]
fn push_char(s: &mut String, c: char)
    ensures
        final(s)@ == old(s)@.push(c),
{
    s.push(c);
}

/// A `String` holding exactly the characters `chars`.
pub fn string_from_chars(chars: &Vec<char>) -> (s: String)
    ensures
        s@ == chars@,
{
    let mut s = String::new();
    for i in 0..chars.len()
        invariant
            s@ == chars@.take(i as int),
    {
        push_char(&mut s, chars[i]);
        assert(chars@.take(i + 1) == chars@.take(i as int).push(chars@[i as int]));
    }
    assert(chars@.take(chars@.len() as int) == chars@);
    s
}

/// The Unicode `White_Space` property: the characters that separate words.
pub open spec fn is_white_space(c: char) -> bool {
    let n = c as u32;
    ||| 0x9 <= n <= 0xd
    ||| n == 0x20
    ||| n == 0x85
    ||| n == 0xa0
    ||| n == 0x1680
    ||| 0x2000 <= n <= 0x200a
    ||| n == 0x2028
    ||| n == 0x2029
    ||| n == 0x202f
    ||| n == 0x205f
    ||| n == 0x3000
}

/// Whether `c` has the Unicode `White_Space` property.
pub fn white_space(c: char) -> (b: bool)
    ensures
        b == is_white_space(c),
{
    let n = c as u32;
    (0x9 <= n && n <= 0xd) || n == 0x20 || n == 0x85 || n == 0xa0 || n == 0x1680 || (0x2000 <= n
        && n <= 0x200a) || n == 0x2028 || n == 0x2029 || n == 0x202f || n == 0x205f || n == 0x3000
}

/// Scanning `s` from the left: the words completed so far, and the word
/// being read at the end of `s` (empty where `s` ends in white space).
pub open spec fn scan_words(s: Seq<char>) -> (Seq<Seq<char>>, Seq<char>)
    decreases s.len(),
{
    if s.len() == 0 {
        (Seq::empty(), Seq::empty())
    } else {
        let (done, cur) = scan_words(s.drop_last());
        if is_white_space(s.last()) {
            if cur.len() > 0 {
                (done.push(cur), Seq::empty())
            } else {
                (done, Seq::empty())
            }
        } else {
            (done, cur.push(s.last()))
        }
    }
}

/// The words of `s`: its maximal runs of characters that are not white
/// space, from left to right.
pub open spec fn words(s: Seq<char>) -> Seq<Seq<char>> {
    let (done, cur) = scan_words(s);
    if cur.len() > 0 {
        done.push(cur)
    } else {
        done
    }
}

/// No character of `w` is white space.
pub open spec fn free_of_white_space(w: Seq<char>) -> bool {
    forall|j: int| 0 <= j < w.len() ==> !is_white_space(#[trigger] w[j])
}

proof fn lemma_scan_words_well_formed(s: Seq<char>)
    ensures
        forall|i: int|
            0 <= i < scan_words(s).0.len() ==> #[trigger] scan_words(s).0[i].len() > 0
                && free_of_white_space(scan_words(s).0[i]),
        free_of_white_space(scan_words(s).1),
    decreases s.len(),
{
    if s.len() > 0 {
        lemma_scan_words_well_formed(s.drop_last());
        let (done, cur) = scan_words(s.drop_last());
        assert(free_of_white_space(cur.push(s.last())) || is_white_space(s.last())) by {
            if !is_white_space(s.last()) {
                assert forall|j: int| 0 <= j < cur.push(s.last()).len() implies !is_white_space(
                    #[trigger] cur.push(s.last())[j],
                ) by {
                    if j < cur.len() {
                        assert(cur.push(s.last())[j] == cur[j]);
                    }
                }
            }
        }
    }
}

/// Every word is non-empty and holds no white space.
pub proof fn lemma_words_well_formed(s: Seq<char>)
    ensures
        forall|i: int|
            0 <= i < words(s).len() ==> #[trigger] words(s)[i].len() > 0 && free_of_white_space(
                words(s)[i],
            ),
{
    lemma_scan_words_well_formed(s);
}

proof fn lemma_scan_single_word(w: Seq<char>)
    requires
        free_of_white_space(w),
    ensures
        scan_words(w) == (Seq::<Seq<char>>::empty(), w),
    decreases w.len(),
{
    if w.len() > 0 {
        assert(free_of_white_space(w.drop_last()));
        lemma_scan_single_word(w.drop_last());
        assert(!is_white_space(w[w.len() - 1]));
        assert(w.drop_last().push(w.last()) == w);
    }
}

/// A non-empty text without white space is one word.
pub proof fn lemma_single_word(w: Seq<char>)
    requires
        w.len() > 0,
        free_of_white_space(w),
    ensures
        words(w) == seq![w],
{
    lemma_scan_single_word(w);
    assert(Seq::<Seq<char>>::empty().push(w) == seq![w]);
}

proof fn lemma_scan_white_space(s: Seq<char>)
    requires
        forall|j: int| 0 <= j < s.len() ==> is_white_space(#[trigger] s[j]),
    ensures
        scan_words(s) == (Seq::<Seq<char>>::empty(), Seq::<char>::empty()),
    decreases s.len(),
{
    if s.len() > 0 {
        lemma_scan_white_space(s.drop_last());
        assert(is_white_space(s[s.len() - 1]));
    }
}

/// A text of white space only has no words.
pub proof fn lemma_white_space_has_no_words(s: Seq<char>)
    requires
        forall|j: int| 0 <= j < s.len() ==> is_white_space(#[trigger] s[j]),
    ensures
        words(s) == Seq::<Seq<char>>::empty(),
{
    lemma_scan_white_space(s);
}

proof fn lemma_scan_concat(p: Seq<char>, q: Seq<char>)
    requires
        scan_words(p).1.len() == 0,
    ensures
        scan_words(p + q) == (scan_words(p).0 + scan_words(q).0, scan_words(q).1),
    decreases q.len(),
{
    if q.len() == 0 {
        assert(p + q == p);
        assert(scan_words(p).0 + Seq::<Seq<char>>::empty() == scan_words(p).0);
    } else {
        assert((p + q).drop_last() == p + q.drop_last());
        assert((p + q).last() == q.last());
        lemma_scan_concat(p, q.drop_last());
        let (d, c) = scan_words(q.drop_last());
        assert((scan_words(p).0 + d).push(c) == scan_words(p).0 + d.push(c));
    }
}

/// White space separates words: the words of `a`, then a white-space
/// character, then `b` are the words of `a` followed by those of `b`.
pub proof fn lemma_words_concat(a: Seq<char>, c: char, b: Seq<char>)
    requires
        is_white_space(c),
    ensures
        words(a + seq![c] + b) == words(a) + words(b),
{
    let ac = a + seq![c];
    assert(ac.drop_last() == a);
    assert(ac.last() == c);
    assert(scan_words(ac).0 == words(a));
    lemma_scan_concat(ac, b);
    let (d, cur) = scan_words(b);
    assert(words(a) + d.push(cur) == (words(a) + d).push(cur));
}

/// Whether `a` and `b` hold the same characters.
pub fn chars_equal(a: &Vec<char>, b: &Vec<char>) -> (r: bool)
    ensures
        r == (a@ == b@),
{
    if a.len() != b.len() {
        return false;
    }
    for i in 0..a.len()
        invariant
            a@.len() == b@.len(),
            forall|j: int| 0 <= j < i ==> a@[j] == b@[j],
    {
        if a[i] != b[i] {
            return false;
        }
    }
    assert(a@ =~= b@);
    true
}

/// The words of `s`, each as its characters.
pub fn split_whitespace(s: &Vec<char>) -> (w: Vec<Vec<char>>)
    ensures
        w@.map_values(|v: Vec<char>| v@) == words(s@),
{
    let mut done: Vec<Vec<char>> = Vec::new();
    let mut cur: Vec<char> = Vec::new();
    for i in 0..s.len()
        invariant
            (done@.map_values(|v: Vec<char>| v@), cur@) == scan_words(s@.take(i as int)),
    {
        let c = s[i];
        assert(s@.take(i + 1).drop_last() == s@.take(i as int));
        if white_space(c) {
            if cur.len() > 0 {
                let word = cur;
                cur = Vec::new();
                done.push(word);
            }
        } else {
            cur.push(c);
        }
    }
    assert(s@.take(s@.len() as int) == s@);
    if cur.len() > 0 {
        done.push(cur);
    }
    done
}

/// `s` with each occurrence of the non-empty `pat` replaced by `with`,
/// the occurrences taken from the left and not overlapping.
pub open spec fn replace_all(s: Seq<char>, pat: Seq<char>, with: Seq<char>) -> Seq<char>
    decreases s.len(),
{
    if s.len() == 0 {
        Seq::empty()
    } else if 0 < pat.len() <= s.len() && s.take(pat.len() as int) == pat {
        with + replace_all(s.skip(pat.len() as int), pat, with)
    } else {
        seq![s[0]] + replace_all(s.skip(1), pat, with)
    }
}

/// Whether `pat` occurs in `s` at position `i`.
fn occurs_at(s: &Vec<char>, i: usize, pat: &Vec<char>) -> (r: bool)
    requires
        i <= s@.len(),
    ensures
        r == (pat@.len() <= s@.len() - i && s@.skip(i as int).take(pat@.len() as int) == pat@),
{
    if pat.len() > s.len() - i {
        return false;
    }
    let n = s.len();
    let mut j: usize = 0;
    while j < pat.len()
        invariant
            n == s@.len(),
            i + pat@.len() <= s@.len(),
            j <= pat@.len(),
            forall|k: int| 0 <= k < j ==> s@[i + k] == pat@[k],
        decreases pat@.len() - j,
    {
        if s[i + j] != pat[j] {
            assert(s@.skip(i as int).take(pat@.len() as int)[j as int] != pat@[j as int]);
            return false;
        }
        j = j + 1;
    }
    assert(s@.skip(i as int).take(pat@.len() as int) =~= pat@);
    true
}

/// The characters of `s` with each occurrence of `pat` replaced by `with`.
pub fn replace_chars(s: &Vec<char>, pat: &Vec<char>, with: &Vec<char>) -> (r: Vec<char>)
    requires
        pat@.len() > 0,
    ensures
        r@ == replace_all(s@, pat@, with@),
{
    let mut out: Vec<char> = Vec::new();
    let mut i: usize = 0;
    assert(s@.skip(0) == s@);
    while i < s.len()
        invariant
            i <= s@.len(),
            pat@.len() > 0,
            replace_all(s@, pat@, with@) == out@ + replace_all(s@.skip(i as int), pat@, with@),
        decreases s@.len() - i,
    {
        let ghost rest = s@.skip(i as int);
        if occurs_at(s, i, pat) {
            assert(rest.skip(pat@.len() as int) == s@.skip(i + pat@.len()));
            let ghost out0 = out@;
            for j in 0..with.len()
                invariant
                    out@ == out0 + with@.take(j as int),
            {
                out.push(with[j]);
                assert(with@.take(j + 1) == with@.take(j as int).push(with@[j as int]));
            }
            assert(with@.take(with@.len() as int) == with@);
            i = i + pat.len();
        } else {
            assert(rest.skip(1) == s@.skip(i + 1));
            assert(rest[0] == s@[i as int]);
            out.push(s[i]);
            i = i + 1;
        }
    }
    assert(s@.skip(i as int).len() == 0);
    out
}

/// `pat` occurs in `s` at position `i`.
pub open spec fn occurs_at_spec(s: Seq<char>, pat: Seq<char>, i: int) -> bool {
    0 <= i && i + pat.len() <= s.len() && s.subrange(i, i + pat.len()) == pat
}

/// Where `pat` occurs nowhere in `s`, replacing it changes nothing.
pub proof fn lemma_replace_all_absent(s: Seq<char>, pat: Seq<char>, with: Seq<char>)
    requires
        pat.len() > 0,
        forall|i: int| !#[trigger] occurs_at_spec(s, pat, i),
    ensures
        replace_all(s, pat, with) == s,
    decreases s.len(),
{
    if s.len() > 0 {
        assert(!occurs_at_spec(s, pat, 0));
        if pat.len() <= s.len() {
            assert(s.take(pat.len() as int) == s.subrange(0, pat.len() as int));
        }
        let rest = s.skip(1);
        assert forall|i: int| !#[trigger] occurs_at_spec(rest, pat, i) by {
            assert(!occurs_at_spec(s, pat, i + 1));
            if 0 <= i && i + pat.len() <= rest.len() {
                assert(rest.subrange(i, i + pat.len()) == s.subrange(i + 1, i + 1 + pat.len()));
            }
        }
        lemma_replace_all_absent(rest, pat, with);
        assert(seq![s[0]] + rest == s);
    }
}

/// An occurrence of `pat` at the start is replaced.
pub proof fn lemma_replace_all_prefix(pat: Seq<char>, w: Seq<char>, with: Seq<char>)
    requires
        pat.len() > 0,
    ensures
        replace_all(pat + w, pat, with) == with + replace_all(w, pat, with),
{
    let s = pat + w;
    assert(s.take(pat.len() as int) == pat);
    assert(s.skip(pat.len() as int) == w);
}

/// `s` cut at each occurrence of `d`: the pieces between the cuts, from
/// left to right (one empty piece where `s` is empty).
pub open spec fn split_on(s: Seq<char>, d: char) -> Seq<Seq<char>>
    decreases s.len(),
{
    if s.len() == 0 {
        seq![Seq::empty()]
    } else {
        let parts = split_on(s.drop_last(), d);
        if s.last() == d {
            parts.push(Seq::empty())
        } else {
            parts.update(parts.len() - 1, parts.last().push(s.last()))
        }
    }
}

/// There is always at least one piece.
pub proof fn lemma_split_on_nonempty(s: Seq<char>, d: char)
    ensures
        split_on(s, d).len() >= 1,
    decreases s.len(),
{
    if s.len() > 0 {
        lemma_split_on_nonempty(s.drop_last(), d);
    }
}

proof fn lemma_split_on_append(p: Seq<char>, b: Seq<char>, d: char)
    requires
        forall|j: int| 0 <= j < b.len() ==> b[j] != d,
    ensures
        split_on(p + b, d) == split_on(p, d).update(
            split_on(p, d).len() - 1,
            split_on(p, d).last() + b,
        ),
    decreases b.len(),
{
    lemma_split_on_nonempty(p, d);
    let parts = split_on(p, d);
    if b.len() == 0 {
        assert(p + b == p);
        assert(parts.last() + b == parts.last());
        assert(parts.update(parts.len() - 1, parts.last()) == parts);
    } else {
        assert((p + b).drop_last() == p + b.drop_last());
        assert((p + b).last() == b.last());
        assert(b.last() != d);
        lemma_split_on_append(p, b.drop_last(), d);
        assert((parts.last() + b.drop_last()).push(b.last()) == parts.last() + b);
        let mid = parts.update(parts.len() - 1, parts.last() + b.drop_last());
        assert(mid.update(mid.len() - 1, mid.last().push(b.last())) == parts.update(
            parts.len() - 1,
            parts.last() + b,
        ));
    }
}

/// Text that holds `d` once, between `a` and `b` (which do not hold it),
/// is cut into `a` and `b`.
pub proof fn lemma_split_on_two(a: Seq<char>, d: char, b: Seq<char>)
    requires
        forall|j: int| 0 <= j < a.len() ==> a[j] != d,
        forall|j: int| 0 <= j < b.len() ==> b[j] != d,
    ensures
        split_on(a + seq![d] + b, d) == seq![a, b],
{
    let e = Seq::<char>::empty();
    lemma_split_on_append(e, a, d);
    assert(e + a == a);
    assert(split_on(e, d) == seq![e]);
    assert(e + a == a);
    assert(split_on(a, d) == seq![a]);
    let ad = a + seq![d];
    assert(ad.drop_last() == a);
    assert(ad.last() == d);
    assert(split_on(ad, d) == seq![a, e]);
    lemma_split_on_append(ad, b, d);
    assert(e + b == b);
    assert(seq![a, e].update(1, e + b) == seq![a, b]);
}

/// The pieces of `s` between the occurrences of `d`.
pub fn split_chars(s: &Vec<char>, d: char) -> (parts: Vec<Vec<char>>)
    ensures
        parts@.map_values(|v: Vec<char>| v@) == split_on(s@, d),
{
    let mut done: Vec<Vec<char>> = Vec::new();
    let mut cur: Vec<char> = Vec::new();
    for i in 0..s.len()
        invariant
            done@.map_values(|v: Vec<char>| v@).push(cur@) == split_on(s@.take(i as int), d),
    {
        let c = s[i];
        assert(s@.take(i + 1).drop_last() == s@.take(i as int));
        if c == d {
            let piece = cur;
            cur = Vec::new();
            done.push(piece);
        } else {
            cur.push(c);
        }
    }
    assert(s@.take(s@.len() as int) == s@);
    done.push(cur);
    done
}

/// One `String` for each character sequence of `w`, in order.
pub fn strings_from_words(w: &Vec<Vec<char>>) -> (r: Vec<String>)
    ensures
        r@.map_values(|s: String| s@) == w@.map_values(|v: Vec<char>| v@),
{
    let mut r: Vec<String> = Vec::new();
    for i in 0..w.len()
        invariant
            r@.map_values(|s: String| s@) == w@.map_values(|v: Vec<char>| v@).take(i as int),
    {
        let s = string_from_chars(&w[i]);
        r.push(s);
        assert(w@.map_values(|v: Vec<char>| v@).take(i + 1) == w@.map_values(
            |v: Vec<char>| v@,
        ).take(i as int).push(w@[i as int]@));
    }
    assert(w@.map_values(|v: Vec<char>| v@).take(w@.len() as int) == w@.map_values(
        |v: Vec<char>| v@,
    ));
    r
}

} // verus!
