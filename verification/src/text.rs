//! Text as sequences of characters: the splitting, trimming, number reading
//! and number writing that the rest of the library is stated over.

use vstd::prelude::*;

verus! {

// ---- deep views of lists ---------------------------------------------------

/// The deep views of a list's elements, in order.
pub open spec fn deep<T: DeepView>(s: Seq<T>) -> Seq<T::V> {
    Seq::new(s.len(), |i: int| s[i].deep_view())
}

pub broadcast proof fn lemma_deep_push<T: DeepView>(s: Seq<T>, x: T)
    ensures
        #[trigger] deep(s.push(x)) == deep(s).push(x.deep_view()),
{
    assert(deep(s.push(x)) =~= deep(s).push(x.deep_view()));
}

pub broadcast proof fn lemma_deep_empty<T: DeepView>()
    ensures
        #[trigger] deep(Seq::<T>::empty()) == Seq::<T::V>::empty(),
{
    assert(deep(Seq::<T>::empty()) =~= Seq::<T::V>::empty());
}

pub broadcast group group_deep {
    lemma_deep_push,
    lemma_deep_empty,
}

// ---- growing and shrinking strings -----------------------------------------

/// `String::push` appends one character.
pub assume_specification[ String::push ](s: &mut String, c: char)
    ensures
        final(s)@ == old(s)@.push(c),
;

/// `String::pop` removes the last character and returns it, or returns `None`
/// where there is none.
pub assume_specification[ String::pop ](s: &mut String) -> (r: Option<char>)
    ensures
        old(s)@.len() == 0 ==> r is None && final(s)@ == old(s)@,
        old(s)@.len() > 0 ==> r == Some(old(s)@.last()) && final(s)@ == old(s)@.drop_last(),
;

/// `String::clear` removes every character.
pub assume_specification[ String::clear ](s: &mut String)
    ensures
        final(s)@ == Seq::<char>::empty(),
;

/// The characters of `s`.
pub fn chars_of(s: &str) -> (r: Vec<char>)
    ensures
        r@ == s@,
{
    let mut v: Vec<char> = Vec::new();
    for c in it: s.chars()
        invariant
            v@ == it.seq().take(it.index()),
            it.seq() == s@,
    {
        v.push(c);
        assert(v@ =~= it.seq().take(it.index() + 1));
    }
    assert(s@.take(s@.len() as int) =~= s@);
    v
}

/// The characters from `from` up to `to`, as a string.
pub fn string_of(v: &Vec<char>, from: usize, to: usize) -> (r: String)
    requires
        from <= to <= v@.len(),
    ensures
        r@ == v@.subrange(from as int, to as int),
{
    let mut s = String::new();
    let mut i: usize = from;
    while i < to
        invariant
            from <= i <= to <= v@.len(),
            s@ == v@.subrange(from as int, i as int),
        decreases to - i,
    {
        s.push(v[i]);
        i = i + 1;
        assert(s@ =~= v@.subrange(from as int, i as int));
    }
    s
}

/// A copy of a string slice.
pub fn owned(s: &str) -> (r: String)
    ensures
        r@ == s@,
{
    s.to_owned()
}

/// Whether two pieces of text hold the same characters.
pub fn same_text(a: &str, b: &str) -> (r: bool)
    ensures
        r == (a@ == b@),
{
    let x = chars_of(a);
    let y = chars_of(b);
    if x.len() != y.len() {
        return false;
    }
    for i in 0..x.len()
        invariant
            x@ == a@,
            y@ == b@,
            x@.len() == y@.len(),
            forall|j: int| 0 <= j < i ==> x@[j] == y@[j],
    {
        if x[i] != y[i] {
            assert(a@[i as int] != b@[i as int]);
            return false;
        }
    }
    assert(a@ =~= b@);
    true
}

// ---- prefixes ----------------------------------------------------------------

/// `s` without `prefix`, where it starts with it.
pub open spec fn without_prefix(s: Seq<char>, prefix: Seq<char>) -> Option<Seq<char>> {
    if prefix.len() <= s.len() && s.take(prefix.len() as int) == prefix {
        Some(s.skip(prefix.len() as int))
    } else {
        None
    }
}

/// What follows `prefix` in `s`, or `None` where `s` does not start with it.
pub fn strip_prefix(s: &str, prefix: &str) -> (r: Option<String>)
    ensures
        r.deep_view() == without_prefix(s@, prefix@),
{
    let x = chars_of(s);
    let p = chars_of(prefix);
    if p.len() > x.len() {
        return None;
    }
    for i in 0..p.len()
        invariant
            x@ == s@,
            p@ == prefix@,
            p@.len() <= x@.len(),
            forall|j: int| 0 <= j < i ==> x@[j] == p@[j],
    {
        if x[i] != p[i] {
            assert(s@.take(p@.len() as int)[i as int] != prefix@[i as int]);
            return None;
        }
    }
    assert(s@.take(p@.len() as int) =~= prefix@);
    let rest = string_of(&x, p.len(), x.len());
    assert(rest@ =~= s@.skip(p@.len() as int));
    Some(rest)
}

// ---- white space -------------------------------------------------------------

/// The characters with the Unicode `White_Space` property.
pub open spec fn is_white(c: char) -> bool {
    ||| '\u{9}' <= c <= '\u{d}'
    ||| c == ' '
    ||| c == '\u{85}'
    ||| c == '\u{a0}'
    ||| c == '\u{1680}'
    ||| '\u{2000}' <= c <= '\u{200a}'
    ||| c == '\u{2028}'
    ||| c == '\u{2029}'
    ||| c == '\u{202f}'
    ||| c == '\u{205f}'
    ||| c == '\u{3000}'
}

pub fn white(c: char) -> (r: bool)
    ensures
        r == is_white(c),
{
    ('\u{9}' <= c && c <= '\u{d}') || c == ' ' || c == '\u{85}' || c == '\u{a0}' || c == '\u{1680}'
        || ('\u{2000}' <= c && c <= '\u{200a}') || c == '\u{2028}' || c == '\u{2029}' || c
        == '\u{202f}' || c == '\u{205f}' || c == '\u{3000}'
}

/// `s` without its leading white space.
pub open spec fn trim_start(s: Seq<char>) -> Seq<char>
    decreases s.len(),
{
    if s.len() > 0 && is_white(s[0]) {
        trim_start(s.skip(1))
    } else {
        s
    }
}

/// `s` without its trailing white space.
pub open spec fn trim_end(s: Seq<char>) -> Seq<char>
    decreases s.len(),
{
    if s.len() > 0 && is_white(s.last()) {
        trim_end(s.drop_last())
    } else {
        s
    }
}

/// `s` without white space at either end.
pub open spec fn trimmed(s: Seq<char>) -> Seq<char> {
    trim_end(trim_start(s))
}

/// `s` without white space at either end.
pub fn trim(s: &str) -> (r: String)
    ensures
        r@ == trimmed(s@),
{
    let v = chars_of(s);
    let mut from: usize = 0;
    assert(s@.skip(0) =~= s@);
    while from < v.len() && white(v[from])
        invariant
            v@ == s@,
            from <= v@.len(),
            trim_start(s@) == trim_start(s@.skip(from as int)),
        decreases v@.len() - from,
    {
        assert(s@.skip(from as int).skip(1) =~= s@.skip(from + 1));
        from = from + 1;
    }
    let ghost t = s@.skip(from as int);
    let mut to: usize = v.len();
    assert(t.take(t.len() as int) =~= t);
    while to > from && white(v[to - 1])
        invariant
            v@ == s@,
            from <= to <= v@.len(),
            t == s@.skip(from as int),
            trim_end(t) == trim_end(t.take(to - from)),
        decreases to - from,
    {
        assert(t.take(to - from).drop_last() =~= t.take(to - from - 1));
        to = to - 1;
    }
    assert(t.take(to - from) =~= v@.subrange(from as int, to as int));
    string_of(&v, from, to)
}

// ---- lines and words ---------------------------------------------------------

/// The first position of `c` in `s`, or `s.len()`.
pub open spec fn find(s: Seq<char>, c: char) -> int
    decreases s.len(),
{
    if s.len() == 0 || s[0] == c {
        0
    } else {
        1 + find(s.skip(1), c)
    }
}

proof fn lemma_find(s: Seq<char>, c: char, j: int)
    requires
        0 <= j <= s.len(),
        forall|k: int| 0 <= k < j ==> s[k] != c,
        j == s.len() || s[j] == c,
    ensures
        find(s, c) == j,
    decreases s.len(),
{
    if s.len() > 0 && s[0] != c {
        lemma_find(s.skip(1), c, j - 1);
    }
}

/// A line without the carriage return that its line feed followed.
pub open spec fn without_cr(s: Seq<char>) -> Seq<char> {
    if s.len() > 0 && s.last() == '\r' {
        s.drop_last()
    } else {
        s
    }
}

/// The lines of `s`. A line ends at a line feed, which may follow a carriage
/// return; a line feed at the very end starts no further line.
pub open spec fn lines_of(s: Seq<char>) -> Seq<Seq<char>>
    decreases s.len(),
    via lines_of_shrinks
{
    if s.len() == 0 {
        Seq::empty()
    } else if find(s, '\n') < s.len() {
        seq![without_cr(s.take(find(s, '\n')))] + lines_of(s.skip(find(s, '\n') + 1))
    } else {
        seq![s]
    }
}

#[via_fn]
proof fn lines_of_shrinks(s: Seq<char>) {
    lemma_find_bounds(s, '\n');
}

proof fn lemma_find_bounds(s: Seq<char>, c: char)
    ensures
        0 <= find(s, c) <= s.len(),
    decreases s.len(),
{
    if s.len() > 0 && s[0] != c {
        lemma_find_bounds(s.skip(1), c);
    }
}

/// The lines of `s`, without their line ends.
pub fn lines(s: &str) -> (r: Vec<String>)
    ensures
        deep(r@) == lines_of(s@),
{
    broadcast use group_deep;

    let v = chars_of(s);
    let mut out: Vec<String> = Vec::new();
    let mut pos: usize = 0;
    assert(s@.skip(0) =~= s@);
    assert(deep(out@) + lines_of(s@) =~= lines_of(s@));
    while pos < v.len()
        invariant
            v@ == s@,
            pos <= v@.len(),
            deep(out@) + lines_of(s@.skip(pos as int)) == lines_of(s@),
        decreases v@.len() - pos,
    {
        let ghost t = s@.skip(pos as int);
        let mut j: usize = pos;
        while j < v.len() && v[j] != '\n'
            invariant
                v@ == s@,
                t == s@.skip(pos as int),
                pos <= j <= v@.len(),
                forall|k: int| 0 <= k < j - pos ==> t[k] != '\n',
            decreases v@.len() - j,
        {
            j = j + 1;
        }
        proof {
            lemma_find(t, '\n', j - pos);
        }
        let ghost before = deep(out@);
        if j < v.len() {
            let mut to: usize = j;
            if j > pos && v[j - 1] == '\r' {
                to = j - 1;
            }
            assert(v@.subrange(pos as int, to as int) =~= without_cr(t.take(j - pos)));
            out.push(string_of(&v, pos, to));
            assert(t.skip(j - pos + 1) =~= s@.skip(j + 1));
            assert(before + (seq![without_cr(t.take(j - pos))] + lines_of(s@.skip(j + 1)))
                =~= before.push(without_cr(t.take(j - pos))) + lines_of(s@.skip(j + 1)));
            pos = j + 1;
        } else {
            assert(v@.subrange(pos as int, j as int) =~= t);
            out.push(string_of(&v, pos, j));
            assert(before + seq![t] =~= before.push(t));
            assert(s@.skip(j as int) =~= Seq::<char>::empty());
            assert(before.push(t) + Seq::<Seq<char>>::empty() =~= before.push(t));
            pos = j;
        }
    }
    assert(s@.skip(pos as int) =~= Seq::<char>::empty());
    assert(deep(out@) + Seq::<Seq<char>>::empty() =~= deep(out@));
    out
}

/// Text that ends with a line feed, or is empty, keeps its lines when more
/// follows it.
pub(crate) proof fn lemma_lines_apart(a: Seq<char>, b: Seq<char>)
    requires
        a.len() == 0 || a.last() == '\n',
    ensures
        lines_of(a + b) == lines_of(a) + lines_of(b),
    decreases a.len(),
{
    if a.len() == 0 {
        assert(a + b =~= b);
        assert(lines_of(a) + lines_of(b) =~= lines_of(b));
    } else {
        let j = first_at(a, '\n', a.len() - 1);
        lemma_find(a, '\n', j);
        lemma_find(a + b, '\n', j);
        let rest = a.skip(j + 1);
        lemma_lines_apart(rest, b);
        assert((a + b).take(j) =~= a.take(j));
        assert((a + b).skip(j + 1) =~= rest + b);
        let first = seq![without_cr(a.take(j))];
        assert(first + (lines_of(rest) + lines_of(b)) =~= (first + lines_of(rest)) + lines_of(b));
    }
}

/// A line feed more ends the last line of text that has none there, which changes
/// nothing but white space at the end of that line.
pub(crate) proof fn lemma_last_line_ends(a: Seq<char>)
    requires
        a.len() > 0,
        a.last() != '\n',
    ensures
        lines_of(a.push('\n')).len() == lines_of(a).len(),
        forall|i: int|
            0 <= i < lines_of(a).len() ==> trimmed(#[trigger] lines_of(a.push('\n'))[i])
                == trimmed(lines_of(a)[i]),
    decreases a.len(),
{
    let t = a.push('\n');
    if exists|i: int| 0 <= i < a.len() && a[i] == '\n' {
        let i = choose|i: int| 0 <= i < a.len() && a[i] == '\n';
        let j = first_at(a, '\n', i);
        lemma_find(a, '\n', j);
        lemma_find(t, '\n', j);
        let rest = a.skip(j + 1);
        lemma_last_line_ends(rest);
        let first = seq![without_cr(a.take(j))];
        assert(t.take(j) =~= a.take(j));
        assert(t.skip(j + 1) =~= rest.push('\n'));
        assert(lines_of(a) == first + lines_of(rest));
        assert(lines_of(t) == first + lines_of(rest.push('\n')));
        assert forall|i: int| 0 <= i < lines_of(a).len() implies trimmed(#[trigger] lines_of(t)[i])
            == trimmed(lines_of(a)[i]) by {
            if i > 0 {
                assert(lines_of(t)[i] == lines_of(rest.push('\n'))[i - 1]);
                assert(lines_of(a)[i] == lines_of(rest)[i - 1]);
            }
        }
    } else {
        let n = a.len() as int;
        lemma_find(a, '\n', n);
        lemma_find(t, '\n', n);
        assert(t.take(n) =~= a);
        assert(t.skip(n + 1) =~= Seq::empty());
        assert(lines_of(t.skip(n + 1)) =~= Seq::empty());
        assert(lines_of(t) =~= seq![without_cr(a)]);
        if a.last() == '\r' {
            lemma_trimmed_push(a.drop_last(), '\r');
            assert(a.drop_last().push('\r') =~= a);
        }
    }
}

/// Text that ends with a line feed, or is empty, gets an empty line by one more.
pub(crate) proof fn lemma_empty_line_follows(a: Seq<char>)
    requires
        a.len() == 0 || a.last() == '\n',
    ensures
        lines_of(a.push('\n')) == lines_of(a).push(Seq::empty()),
{
    let feed = seq!['\n'];
    lemma_lines_apart(a, feed);
    lemma_find(feed, '\n', 0);
    assert(feed.take(0) =~= Seq::empty());
    assert(feed.skip(1) =~= Seq::empty());
    assert(lines_of(feed.skip(1)) =~= Seq::empty());
    assert(lines_of(feed) =~= seq![Seq::empty()]);
    assert(a + feed =~= a.push('\n'));
    assert(lines_of(a) + lines_of(feed) =~= lines_of(a).push(Seq::empty()));
}

proof fn lemma_trim_start_push(s: Seq<char>, c: char)
    requires
        is_white(c),
    ensures
        trim_start(s.push(c)) == (if trim_start(s).len() == 0 {
            Seq::empty()
        } else {
            trim_start(s).push(c)
        }),
    decreases s.len(),
{
    let t = s.push(c);
    if s.len() == 0 {
        assert(t.skip(1) =~= Seq::empty());
        assert(trim_start(t.skip(1)) =~= Seq::empty());
    } else if is_white(s[0]) {
        lemma_trim_start_push(s.skip(1), c);
        assert(t.skip(1) =~= s.skip(1).push(c));
    }
}

proof fn lemma_trimmed_push(s: Seq<char>, c: char)
    requires
        is_white(c),
    ensures
        trimmed(s.push(c)) == trimmed(s),
{
    lemma_trim_start_push(s, c);
    let t = trim_start(s);
    if t.len() > 0 {
        assert(t.push(c).drop_last() =~= t);
    } else {
        assert(t =~= Seq::empty());
    }
}

proof fn first_at(s: Seq<char>, c: char, i: int) -> (j: int)
    requires
        0 <= i < s.len(),
        s[i] == c,
    ensures
        0 <= j <= i,
        s[j] == c,
        forall|k: int| 0 <= k < j ==> s[k] != c,
    decreases i,
{
    if exists|k: int| 0 <= k < i && s[k] == c {
        let k = choose|k: int| 0 <= k < i && s[k] == c;
        first_at(s, c, k)
    } else {
        i
    }
}

/// One character more adds its bytes to the encoding.
pub(crate) proof fn lemma_encode_push(s: Seq<char>, c: char)
    ensures
        vstd::utf8::encode_utf8(s.push(c)) == vstd::utf8::encode_utf8(s)
            + vstd::utf8::encode_scalar(c as u32),
    decreases s.len(),
{
    let t = s.push(c);
    if s.len() == 0 {
        assert(t.drop_first() =~= Seq::empty());
        assert(vstd::utf8::encode_utf8(t.drop_first()) =~= Seq::empty());
        assert(vstd::utf8::encode_utf8(s) =~= Seq::empty());
    } else {
        lemma_encode_push(s.drop_first(), c);
        assert(t.drop_first() =~= s.drop_first().push(c));
    }
}

/// The first position of a white space character in `s`, or `s.len()`.
pub open spec fn find_white(s: Seq<char>) -> int
    decreases s.len(),
{
    if s.len() == 0 || is_white(s[0]) {
        0
    } else {
        1 + find_white(s.skip(1))
    }
}

proof fn lemma_find_white(s: Seq<char>, j: int)
    requires
        0 <= j <= s.len(),
        forall|k: int| 0 <= k < j ==> !is_white(#[trigger] s[k]),
        j == s.len() || is_white(s[j]),
    ensures
        find_white(s) == j,
    decreases s.len(),
{
    if s.len() > 0 && !is_white(s[0]) {
        assert forall|k: int| 0 <= k < j - 1 implies !is_white(#[trigger] s.skip(1)[k]) by {
            assert(s.skip(1)[k] == s[k + 1]);
        }
        lemma_find_white(s.skip(1), j - 1);
    }
}

proof fn lemma_find_white_bounds(s: Seq<char>)
    ensures
        0 <= find_white(s) <= s.len(),
        s.len() > 0 && !is_white(s[0]) ==> find_white(s) > 0,
    decreases s.len(),
{
    if s.len() > 0 && !is_white(s[0]) {
        lemma_find_white_bounds(s.skip(1));
    }
}

proof fn lemma_trim_start_shape(s: Seq<char>)
    ensures
        trim_start(s).len() <= s.len(),
        trim_start(s).len() > 0 ==> !is_white(trim_start(s)[0]),
    decreases s.len(),
{
    if s.len() > 0 && is_white(s[0]) {
        lemma_trim_start_shape(s.skip(1));
    }
}

/// The maximal runs of characters in `s` that are not white space, in order.
pub open spec fn words_of(s: Seq<char>) -> Seq<Seq<char>>
    decreases s.len(),
    via words_of_shrinks
{
    let t = trim_start(s);
    if t.len() == 0 {
        Seq::empty()
    } else {
        seq![t.take(find_white(t))] + words_of(t.skip(find_white(t)))
    }
}

#[via_fn]
proof fn words_of_shrinks(s: Seq<char>) {
    lemma_trim_start_shape(s);
    lemma_find_white_bounds(trim_start(s));
}

/// The words of `s`.
pub fn words(s: &str) -> (r: Vec<String>)
    ensures
        deep(r@) == words_of(s@),
{
    broadcast use group_deep;

    let v = chars_of(s);
    let mut out: Vec<String> = Vec::new();
    let mut pos: usize = 0;
    assert(s@.skip(0) =~= s@);
    assert(deep(out@) + words_of(s@) =~= words_of(s@));
    loop
        invariant
            v@ == s@,
            pos <= v@.len(),
            deep(out@) + words_of(s@.skip(pos as int)) == words_of(s@),
        ensures
            deep(out@) == words_of(s@),
        decreases v@.len() - pos,
    {
        let ghost here = s@.skip(pos as int);
        let mut from: usize = pos;
        while from < v.len() && white(v[from])
            invariant
                v@ == s@,
                pos <= from <= v@.len(),
                trim_start(here) == trim_start(s@.skip(from as int)),
            decreases v@.len() - from,
        {
            assert(s@.skip(from as int).skip(1) =~= s@.skip(from + 1));
            from = from + 1;
        }
        let ghost t = s@.skip(from as int);
        assert(trim_start(here) == t);
        if from >= v.len() {
            assert(deep(out@) + Seq::<Seq<char>>::empty() =~= deep(out@));
            break;
        }
        let mut j: usize = from;
        while j < v.len() && !white(v[j])
            invariant
                v@ == s@,
                t == s@.skip(from as int),
                from <= j <= v@.len(),
                forall|k: int| 0 <= k < j - from ==> !is_white(#[trigger] t[k]),
            decreases v@.len() - j,
        {
            assert(t[j - from] == v@[j as int]);
            j = j + 1;
        }
        proof {
            if j < v@.len() {
                assert(t[j - from] == v@[j as int]);
            }
            lemma_find_white(t, j - from);
            lemma_find_white_bounds(t);
            assert(t[0] == v@[from as int]);
        }
        let ghost before = deep(out@);
        assert(v@.subrange(from as int, j as int) =~= t.take(j - from));
        out.push(string_of(&v, from, j));
        assert(t.skip(j - from) =~= s@.skip(j as int));
        assert(before + (seq![t.take(j - from)] + words_of(s@.skip(j as int))) =~= before.push(
            t.take(j - from),
        ) + words_of(s@.skip(j as int)));
        pos = j;
    }
    out
}

// ---- laws ----------------------------------------------------------------------

/// Whether a text ends with another.
pub open spec fn ends_with(text: Seq<char>, end: Seq<char>) -> bool {
    end.len() <= text.len() && text.skip(text.len() - end.len()) == end
}

/// Whether a text starts with another.
pub open spec fn starts_with(text: Seq<char>, start: Seq<char>) -> bool {
    start.len() <= text.len() && text.take(start.len() as int) == start
}

/// Trimming cuts white space off both ends, all of it, and nothing else.
pub proof fn law_trimming_cuts_only_white_space(s: Seq<char>) -> (ends: (int, int))
    ensures
        0 <= ends.0 <= ends.1 <= s.len(),
        trimmed(s) == s.subrange(ends.0, ends.1),
        forall|i: int| 0 <= i < ends.0 ==> is_white(#[trigger] s[i]),
        forall|i: int| ends.1 <= i < s.len() ==> is_white(#[trigger] s[i]),
        ends.0 < ends.1 ==> !is_white(s[ends.0]) && !is_white(s[ends.1 - 1]),
        trimmed(s).len() == 0 <==> forall|i: int| 0 <= i < s.len() ==> is_white(#[trigger] s[i]),
{
    let from = lemma_trim_start(s);
    let t = s.skip(from);
    let to = lemma_trim_end(t);
    assert(t.take(to) =~= s.subrange(from, from + to));
    assert forall|i: int| from + to <= i < s.len() implies is_white(#[trigger] s[i]) by {
        assert(t[i - from] == s[i]);
    }
    if to > 0 {
        assert(t[0] == s[from]);
        assert(t[to - 1] == s[from + to - 1]);
    }
    (from, from + to)
}

proof fn lemma_trim_start(s: Seq<char>) -> (n: int)
    ensures
        0 <= n <= s.len(),
        trim_start(s) == s.skip(n),
        forall|i: int| 0 <= i < n ==> is_white(#[trigger] s[i]),
        n < s.len() ==> !is_white(s[n]),
    decreases s.len(),
{
    if s.len() > 0 && is_white(s[0]) {
        let n = lemma_trim_start(s.skip(1));
        assert(s.skip(1).skip(n) =~= s.skip(n + 1));
        assert forall|i: int| 0 <= i < n + 1 implies is_white(#[trigger] s[i]) by {
            if i > 0 {
                assert(s.skip(1)[i - 1] == s[i]);
            }
        }
        n + 1
    } else {
        assert(s.skip(0) =~= s);
        0
    }
}

proof fn lemma_trim_end(s: Seq<char>) -> (n: int)
    ensures
        0 <= n <= s.len(),
        trim_end(s) == s.take(n),
        forall|i: int| n <= i < s.len() ==> is_white(#[trigger] s[i]),
        n > 0 ==> !is_white(s[n - 1]),
    decreases s.len(),
{
    if s.len() > 0 && is_white(s.last()) {
        let n = lemma_trim_end(s.drop_last());
        assert(s.drop_last().take(n) =~= s.take(n));
        assert forall|i: int| n <= i < s.len() implies is_white(#[trigger] s[i]) by {
            if i < s.len() - 1 {
                assert(s.drop_last()[i] == s[i]);
            }
        }
        n
    } else {
        assert(s.take(s.len() as int) =~= s);
        s.len() as int
    }
}

/// A line goes up to its line feed, and what follows that is read on its own. The
/// last line needs none.
pub proof fn law_lines_end_at_line_feeds(line: Seq<char>, rest: Seq<char>)
    requires
        forall|i: int| 0 <= i < line.len() ==> #[trigger] line[i] != '\n',
    ensures
        lines_of(line.push('\n') + rest).len() == 1 + lines_of(rest).len(),
        line.len() == 0 || line.last() != '\r' ==> lines_of(line.push('\n') + rest) == seq![line]
            + lines_of(rest),
        lines_of(line + "\r\n"@ + rest) == seq![line] + lines_of(rest),
        line.len() > 0 ==> lines_of(line) == seq![line],
        lines_of(Seq::empty()).len() == 0,
{
    reveal_strlit("\r\n");
    let n = line.len() as int;
    let whole = line.push('\n') + rest;
    lemma_find(whole, '\n', n);
    assert(whole.take(n) =~= line);
    assert(whole.skip(n + 1) =~= rest);
    let dos = line + "\r\n"@ + rest;
    lemma_find(dos, '\n', n + 1);
    assert(dos.take(n + 1) =~= line.push('\r'));
    assert(line.push('\r').drop_last() =~= line);
    assert(dos.skip(n + 2) =~= rest);
    lemma_find(line, '\n', n);
}

/// A word goes up to the next white space, and white space around words does not
/// matter.
pub proof fn law_words_end_at_white_space(word: Seq<char>, gap: char, rest: Seq<char>)
    requires
        word.len() > 0,
        forall|i: int| 0 <= i < word.len() ==> !is_white(#[trigger] word[i]),
        is_white(gap),
    ensures
        words_of(word.push(gap) + rest) == seq![word] + words_of(rest),
        words_of(seq![gap] + rest) == words_of(rest),
        words_of(word) == seq![word],
        words_of(Seq::empty()).len() == 0,
{
    let n = word.len() as int;
    let whole = word.push(gap) + rest;
    assert(whole[0] == word[0]);
    assert(whole[n] == gap);
    assert forall|k: int| 0 <= k < n implies !is_white(#[trigger] whole[k]) by {
        assert(whole[k] == word[k]);
    }
    lemma_find_white(whole, n);
    assert(whole.take(n) =~= word);
    let tail = seq![gap] + rest;
    assert(whole.skip(n) =~= tail);
    assert(tail.skip(1) =~= rest);
    assert(trim_start(tail) == trim_start(rest));
    assert(words_of(tail) == words_of(rest));
    assert(trim_start(whole) == whole);
    assert(words_of(whole) == seq![whole.take(n)] + words_of(whole.skip(n)));
    lemma_find_white(word, n);
    assert(word.take(n) =~= word);
    assert(word.skip(n) =~= Seq::empty());
    assert(words_of(Seq::empty()) =~= Seq::empty());
}

} // verus!
