//! Text building blocks shared by the code generators: joining lines,
//! decimal rendering of integers and appending characters.

use vstd::prelude::*;

verus! {

/// The lines of `list` separated by `sep`, as `[a, b, c].join(sep)` renders them.
pub open spec fn seq_join(list: Seq<Seq<char>>, sep: Seq<char>) -> Seq<char>
    decreases list.len(),
{
    if list.len() == 0 {
        Seq::<char>::empty()
    } else if list.len() == 1 {
        list[0]
    } else {
        seq_join(list.drop_last(), sep) + sep + list.last()
    }
}

/// The character views of a sequence of strings.
pub open spec fn views(v: Seq<String>) -> Seq<Seq<char>> {
    v.map_values(|s: String| s@)
}

/// The ASCII digit for a value below ten.
pub open spec fn digit_char(d: nat) -> char {
    if d == 0 { '0' }
    else if d == 1 { '1' }
    else if d == 2 { '2' }
    else if d == 3 { '3' }
    else if d == 4 { '4' }
    else if d == 5 { '5' }
    else if d == 6 { '6' }
    else if d == 7 { '7' }
    else if d == 8 { '8' }
    else { '9' }
}

/// Decimal rendering of a natural number, without leading zeros.
pub open spec fn decimal(n: nat) -> Seq<char>
    decreases n,
{
    if n < 10 {
        seq![digit_char(n)]
    } else {
        decimal(n / 10).push(digit_char(n % 10))
    }
}

/// Decimal rendering of an integer: a minus sign before negative values.
pub open spec fn signed_decimal(i: int) -> Seq<char> {
    if i < 0 {
        seq!['-'] + decimal((-i) as nat)
    } else {
        decimal(i as nat)
    }
}

/// Appends one character (std's `String::push`).
#[verifier::external_body]
pub(crate) fn push_char(s: &mut String, c: char)
    ensures
        final(s)@ == old(s)@.push(c),
{
    s.push(c)
}

fn digit(d: u64) -> (c: char)
    requires
        d < 10,
    ensures
        c == digit_char(d as nat),
{
    if d == 0 { '0' }
    else if d == 1 { '1' }
    else if d == 2 { '2' }
    else if d == 3 { '3' }
    else if d == 4 { '4' }
    else if d == 5 { '5' }
    else if d == 6 { '6' }
    else if d == 7 { '7' }
    else if d == 8 { '8' }
    else { '9' }
}

/// Appends the decimal rendering of `n`.
pub fn push_decimal(out: &mut String, n: u64)
    ensures
        final(out)@ == old(out)@ + decimal(n as nat),
    decreases n,
{
    if n >= 10 {
        push_decimal(out, n / 10);
    }
    let c = digit(n % 10);
    push_char(out, c);
    assert(final(out)@ == old(out)@ + decimal(n as nat)) by {
        if n >= 10 {
            assert(decimal(n as nat) == decimal((n / 10) as nat).push(digit_char((n % 10) as nat)));
        } else {
            assert(decimal(n as nat) == seq![digit_char(n as nat)]);
        }
    }
}

/// Appends the decimal rendering of a signed value.
pub fn push_signed_decimal(out: &mut String, i: i64)
    requires
        i > i64::MIN,
    ensures
        final(out)@ == old(out)@ + signed_decimal(i as int),
{
    if i < 0 {
        push_char(out, '-');
        let m: u64 = (-i) as u64;
        push_decimal(out, m);
        assert(final(out)@ == old(out)@ + (seq!['-'] + decimal((-i) as nat)));
    } else {
        push_decimal(out, i as u64);
    }
}

/// The decimal rendering of `n` as a new string.
pub fn decimal_string(n: u64) -> (s: String)
    ensures
        s@ == decimal(n as nat),
{
    let mut s = String::new();
    push_decimal(&mut s, n);
    assert(s@ == Seq::<char>::empty() + decimal(n as nat));
    s
}

/// The lines of `list` joined with `sep` between consecutive ones.
pub fn join(list: &Vec<String>, sep: &str) -> (r: String)
    ensures
        r@ == seq_join(views(list@), sep@),
{
    let mut r = String::new();
    let ghost all = views(list@);
    let mut i: usize = 0;
    while i < list.len()
        invariant
            i <= list.len(),
            all == views(list@),
            r@ == seq_join(all.take(i as int), sep@),
        decreases list.len() - i,
    {
        let ghost before = r@;
        if i > 0 {
            r.append(sep);
        }
        r.append(list[i].as_str());
        proof {
            let next = all.take(i + 1);
            assert(next.drop_last() =~= all.take(i as int));
            assert(next.last() == list@[i as int]@);
            if i == 0 {
                assert(all.take(0) =~= Seq::<Seq<char>>::empty());
                assert(r@ =~= list@[0]@);
            }
        }
        i = i + 1;
    }
    assert(all.take(list.len() as int) =~= all);
    r
}


/// `s` cut at every occurrence of `sep`, as `str::split` with a `char` pattern does.
pub open spec fn split_seq(s: Seq<char>, sep: char) -> Seq<Seq<char>>
    decreases s.len(),
{
    if s.len() == 0 {
        seq![Seq::<char>::empty()]
    } else {
        let pieces = split_seq(s.drop_last(), sep);
        if s.last() == sep {
            pieces.push(Seq::<char>::empty())
        } else {
            pieces.update(pieces.len() - 1, pieces.last().push(s.last()))
        }
    }
}

pub proof fn lemma_split_nonempty(s: Seq<char>, sep: char)
    ensures
        split_seq(s, sep).len() >= 1,
    decreases s.len(),
{
    if s.len() > 0 {
        lemma_split_nonempty(s.drop_last(), sep);
    }
}

/// Whether two strings hold the same characters.
pub fn str_eq(a: &str, b: &str) -> (r: bool)
    ensures
        r == (a@ == b@),
{
    let x = a.to_owned();
    let y = b.to_owned();
    x == y
}

/// The pieces of `s` between occurrences of `sep`.
pub fn split_on(s: &str, sep: char) -> (r: Vec<String>)
    ensures
        views(r@) == split_seq(s@, sep),
{
    let n = s.unicode_len();
    let mut pieces: Vec<String> = Vec::new();
    pieces.push(String::new());
    let mut i: usize = 0;
    proof {
        assert(s@.take(0) =~= Seq::<char>::empty());
        assert(views(pieces@) =~= split_seq(s@.take(0), sep));
    }
    while i < n
        invariant
            n == s@.len(),
            i <= n,
            pieces.len() >= 1,
            views(pieces@) == split_seq(s@.take(i as int), sep),
        decreases n - i,
    {
        let c = s.get_char(i);
        let ghost before = views(pieces@);
        if c == sep {
            pieces.push(String::new());
        } else {
            let last = pieces.len() - 1;
            let mut piece = pieces[last].clone();
            push_char(&mut piece, c);
            pieces.set(last, piece);
        }
        proof {
            let t = s@.take(i + 1);
            assert(t.drop_last() =~= s@.take(i as int));
            assert(t.last() == c);
            assert(views(pieces@) =~= split_seq(t, sep));
        }
        i = i + 1;
    }
    assert(s@.take(n as int) =~= s@);
    pieces
}


/// A copy of a list of strings.
pub fn clone_strings(v: &Vec<String>) -> (r: Vec<String>)
    ensures
        views(r@) == views(v@),
        r@.len() == v@.len(),
{
    let mut r: Vec<String> = Vec::new();
    let mut i: usize = 0;
    while i < v.len()
        invariant
            i <= v.len(),
            r@.len() == i,
            forall|j: int| 0 <= j < i ==> #[trigger] r@[j]@ == v@[j]@,
        decreases v.len() - i,
    {
        let c = v[i].clone();
        r.push(c);
        i = i + 1;
    }
    assert(views(r@) =~= views(v@));
    r
}


/// The pieces of `s` from position `i` on, cut at each occurrence of `sep`
/// found scanning left to right, the current piece starting at `start`.
pub open spec fn split_str_from(s: Seq<char>, sep: Seq<char>, start: int, i: int) -> Seq<Seq<char>>
    decreases s.len() - i,
{
    if sep.len() == 0 || i < 0 || i + sep.len() > s.len() {
        seq![s.subrange(start, s.len() as int)]
    } else if s.subrange(i, i + sep.len()) == sep {
        seq![s.subrange(start, i)] + split_str_from(s, sep, i + sep.len(), i + sep.len())
    } else {
        split_str_from(s, sep, start, i + 1)
    }
}

/// `s` cut at every occurrence of `sep`, as `str::split` with a string pattern does.
pub open spec fn split_str_spec(s: Seq<char>, sep: Seq<char>) -> Seq<Seq<char>> {
    split_str_from(s, sep, 0, 0)
}

pub proof fn lemma_split_str_from_nonempty(s: Seq<char>, sep: Seq<char>, start: int, i: int)
    ensures
        split_str_from(s, sep, start, i).len() >= 1,
    decreases s.len() - i,
{
    if sep.len() == 0 || i < 0 || i + sep.len() > s.len() {
    } else if s.subrange(i, i + sep.len()) == sep {
        lemma_split_str_from_nonempty(s, sep, i + sep.len(), i + sep.len());
    } else {
        lemma_split_str_from_nonempty(s, sep, start, i + 1);
    }
}

/// Whether `sep` occurs in `s` at position `i`.
fn occurs_at(s: &str, sep: &str, i: usize) -> (r: bool)
    requires
        i + sep@.len() <= s@.len(),
    ensures
        r == (s@.subrange(i as int, i + sep@.len()) == sep@),
{
    let m = sep.unicode_len();
    let n = s.unicode_len();
    let mut k: usize = 0;
    while k < m
        invariant
            m == sep@.len(),
            n == s@.len(),
            k <= m,
            i + m <= s@.len(),
            forall|t: int| 0 <= t < k ==> s@[i + t] == sep@[t],
        decreases m - k,
    {
        if s.get_char(i + k) != sep.get_char(k) {
            assert(s@.subrange(i as int, i + m)[k as int] != sep@[k as int]);
            return false;
        }
        k += 1;
    }
    assert(s@.subrange(i as int, i + m) =~= sep@);
    true
}

/// The pieces of `s` between occurrences of `sep`.
pub fn split_str(s: &str, sep: &str) -> (r: Vec<String>)
    requires
        sep@.len() > 0,
    ensures
        views(r@) == split_str_spec(s@, sep@),
{
    let n = s.unicode_len();
    let m = sep.unicode_len();
    let mut parts: Vec<String> = Vec::new();
    let mut start: usize = 0;
    let mut i: usize = 0;
    while i < n && m <= n - i
        invariant
            n == s@.len(),
            m == sep@.len(),
            m > 0,
            start <= i <= n,
            views(parts@) + split_str_from(s@, sep@, start as int, i as int) == split_str_spec(s@, sep@),
        decreases n - i,
    {
        let ghost before = views(parts@);
        if occurs_at(s, sep, i) {
            let piece = s.substring_char(start, i).to_owned();
            parts.push(piece);
            proof {
                assert(views(parts@) =~= before.push(s@.subrange(start as int, i as int)));
                assert(views(parts@) + split_str_from(s@, sep@, (i + m) as int, (i + m) as int)
                    =~= before + split_str_from(s@, sep@, start as int, i as int));
            }
            i = i + m;
            start = i;
        } else {
            i = i + 1;
        }
    }
    let ghost before = views(parts@);
    let piece = s.substring_char(start, n).to_owned();
    parts.push(piece);
    proof {
        assert(views(parts@) =~= before.push(s@.subrange(start as int, n as int)));
        assert(views(parts@) =~= before + split_str_from(s@, sep@, start as int, i as int));
    }
    parts
}


/// `a` comes before `b` or equals it, character by character, as `str`'s
/// ordering gives it.
pub open spec fn text_le(a: Seq<char>, b: Seq<char>) -> bool
    decreases a.len(),
{
    if a.len() == 0 {
        true
    } else if b.len() == 0 {
        false
    } else if a[0] != b[0] {
        (a[0] as int) < (b[0] as int)
    } else {
        text_le(a.drop_first(), b.drop_first())
    }
}

pub proof fn lemma_text_le_total(a: Seq<char>, b: Seq<char>)
    ensures
        text_le(a, b) || text_le(b, a),
    decreases a.len(),
{
    if a.len() > 0 && b.len() > 0 {
        if a[0] == b[0] {
            lemma_text_le_total(a.drop_first(), b.drop_first());
        } else {
            assert((a[0] as int) != (b[0] as int));
        }
    }
}

pub proof fn lemma_text_le_transitive(a: Seq<char>, b: Seq<char>, c: Seq<char>)
    requires
        text_le(a, b),
        text_le(b, c),
    ensures
        text_le(a, c),
    decreases a.len(),
{
    if a.len() > 0 && b.len() > 0 && c.len() > 0 && a[0] == b[0] && b[0] == c[0] {
        lemma_text_le_transitive(a.drop_first(), b.drop_first(), c.drop_first());
    }
}

/// Whether `a` comes before `b` or equals it.
pub fn str_le(a: &str, b: &str) -> (r: bool)
    ensures
        r == text_le(a@, b@),
{
    let n = a.unicode_len();
    let m = b.unicode_len();
    let mut i: usize = 0;
    assert(a@.skip(0) =~= a@);
    assert(b@.skip(0) =~= b@);
    while i < n && i < m
        invariant
            n == a@.len(),
            m == b@.len(),
            i <= n,
            i <= m,
            text_le(a@, b@) == text_le(a@.skip(i as int), b@.skip(i as int)),
        decreases n - i,
    {
        let x = a.get_char(i);
        let y = b.get_char(i);
        assert(a@.skip(i as int)[0] == x);
        assert(b@.skip(i as int)[0] == y);
        if x != y {
            return (x as u32) < (y as u32);
        }
        assert(a@.skip(i as int).drop_first() =~= a@.skip(i + 1));
        assert(b@.skip(i as int).drop_first() =~= b@.skip(i + 1));
        i = i + 1;
    }
    i == n
}

/// Each string comes before the strings after it or equals them.
pub open spec fn texts_sorted(s: Seq<Seq<char>>) -> bool {
    forall|i: int, j: int| 0 <= i < j < s.len() ==> text_le(#[trigger] s[i], #[trigger] s[j])
}

/// The strings in ascending order; equal strings keep their order.
pub fn sort_strings(v: Vec<String>) -> (r: Vec<String>)
    ensures
        views(r@).to_multiset() == views(v@).to_multiset(),
        texts_sorted(views(r@)),
{
    let ghost all = views(v@);
    let mut rest = v;
    let mut sorted: Vec<String> = Vec::new();
    let ghost mut taken: Seq<Seq<char>> = Seq::empty();
    assert(views(sorted@) =~= taken);
    assert(taken + views(rest@) =~= all);
    while rest.len() > 0
        invariant
            taken + views(rest@) == all,
            views(sorted@).to_multiset() == taken.to_multiset(),
            texts_sorted(views(sorted@)),
        decreases rest.len(),
    {
        let ghost before_rest = views(rest@);
        let x = rest.remove(0);
        let mut p: usize = 0;
        while p < sorted.len() && str_le(sorted[p].as_str(), x.as_str())
            invariant
                p <= sorted.len(),
                forall|k: int| 0 <= k < p ==> text_le(#[trigger] views(sorted@)[k], x@),
            decreases sorted.len() - p,
        {
            p = p + 1;
        }
        let ghost s0 = views(sorted@);
        proof {
            if p < sorted.len() {
                lemma_text_le_total(s0[p as int], x@);
            }
        }
        sorted.insert(p, x);
        proof {
            let s1 = views(sorted@);
            assert(s1 =~= s0.insert(p as int, x@));
            assert forall|i: int, j: int| 0 <= i < j < s1.len() implies text_le(#[trigger] s1[i], #[trigger] s1[j]) by {
                if j < p {
                    assert(s1[i] == s0[i] && s1[j] == s0[j]);
                } else if j == p {
                    assert(s1[i] == s0[i]);
                } else if i == p {
                    assert(s1[j] == s0[j - 1]);
                    if j - 1 > p {
                        lemma_text_le_transitive(x@, s0[p as int], s0[j - 1]);
                    }
                } else if i < p {
                    assert(s1[i] == s0[i] && s1[j] == s0[j - 1]);
                } else {
                    assert(s1[i] == s0[i - 1] && s1[j] == s0[j - 1]);
                }
            }
            s0.insert(p as int, x@).to_multiset_ensures();
            lemma_multiset_insert(s0, p as int, x@);
            assert(before_rest =~= seq![x@] + views(rest@));
            assert(taken.push(x@) + views(rest@) =~= taken + before_rest);
            lemma_multiset_push(taken, x@);
            taken = taken.push(x@);
        }
    }
    assert(taken =~= all);
    sorted
}

proof fn lemma_multiset_insert(s: Seq<Seq<char>>, p: int, x: Seq<char>)
    requires
        0 <= p <= s.len(),
    ensures
        s.insert(p, x).to_multiset() == s.to_multiset().insert(x),
{
    let t = s.insert(p, x);
    assert(t =~= s.subrange(0, p) + seq![x] + s.subrange(p, s.len() as int));
    assert(s =~= s.subrange(0, p) + s.subrange(p, s.len() as int));
    vstd::seq_lib::lemma_multiset_commutative(s.subrange(0, p) + seq![x], s.subrange(p, s.len() as int));
    vstd::seq_lib::lemma_multiset_commutative(s.subrange(0, p), seq![x]);
    vstd::seq_lib::lemma_multiset_commutative(s.subrange(0, p), s.subrange(p, s.len() as int));
    assert(seq![x].to_multiset() =~= vstd::multiset::Multiset::empty().insert(x)) by {
        assert(seq![x] =~= Seq::<Seq<char>>::empty().push(x));
        Seq::<Seq<char>>::empty().to_multiset_ensures();
        Seq::<Seq<char>>::empty().push(x).to_multiset_ensures();
    }
}

proof fn lemma_multiset_push(s: Seq<Seq<char>>, x: Seq<char>)
    ensures
        s.push(x).to_multiset() == s.to_multiset().insert(x),
{
    s.to_multiset_ensures();
}

/// Text made of `word` and then `rest` begins with the characters of `word`,
/// and `rest` is what follows them.
pub proof fn lemma_after_word(text: Seq<char>, word: Seq<char>, rest: Seq<char>)
    requires
        text == word + rest,
    ensures
        rest == text.skip(word.len() as int),
        forall|k: int| 0 <= k < word.len() ==> #[trigger] text[k] == word[k],
{
    assert(rest =~= text.skip(word.len() as int));
}

/// Joined text begins with the first item.
pub proof fn lemma_seq_join_starts_with_first(list: Seq<Seq<char>>, sep: Seq<char>)
    requires
        list.len() > 0,
    ensures
        seq_join(list, sep).len() >= list[0].len(),
        seq_join(list, sep).take(list[0].len() as int) == list[0],
    decreases list.len(),
{
    if list.len() > 1 {
        lemma_seq_join_starts_with_first(list.drop_last(), sep);
        let j = seq_join(list.drop_last(), sep);
        assert((j + sep + list.last()).take(list[0].len() as int) =~= j.take(list[0].len() as int));
    } else {
        assert(list[0].take(list[0].len() as int) =~= list[0]);
    }
}

} // verus!
