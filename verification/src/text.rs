use vstd::prelude::*;

verus! {

// ---------------------------------------------------------------------------
// Character classes
// ---------------------------------------------------------------------------

/// The Unicode `White_Space` property, which `char::is_whitespace`,
/// `str::trim` and `str::split_whitespace` use.
pub open spec fn is_ws(c: char) -> bool {
    let u = c as u32;
    (9 <= u && u <= 13) || u == 32 || u == 0x85 || u == 0xa0 || u == 0x1680 || (0x2000 <= u
        && u <= 0x200a) || u == 0x2028 || u == 0x2029 || u == 0x202f || u == 0x205f || u == 0x3000
}

pub fn is_ws_exec(c: char) -> (b: bool)
    ensures
        b == is_ws(c),
{
    let u = c as u32;
    (9 <= u && u <= 13) || u == 32 || u == 0x85 || u == 0xa0 || u == 0x1680 || (0x2000 <= u
        && u <= 0x200a) || u == 0x2028 || u == 0x2029 || u == 0x202f || u == 0x205f || u == 0x3000
}

/// The character sequences held by a vector of character vectors.
pub open spec fn vview(v: Seq<Vec<char>>) -> Seq<Seq<char>> {
    v.map_values(|x: Vec<char>| x@)
}

/// The character sequences held by a vector of strings.
pub open spec fn sview(v: Seq<String>) -> Seq<Seq<char>> {
    v.map_values(|x: String| x@)
}

// ---------------------------------------------------------------------------
// Conversions between strings and character vectors
// ---------------------------------------------------------------------------

/// Appends one character to a string (`String::push`).
/// Trusted: the string afterwards is the old one with `c` at its end.
#[verifier::external_body]
fn string_push(s: &mut String, c: char)
    ensures
        final(s)@ == old(s)@.push(c),
{
    s.push(c);
}

/// The characters of `s`, in order.
pub fn chars_of(s: &str) -> (v: Vec<char>)
    ensures
        v@ == s@,
{
    let mut v: Vec<char> = Vec::new();
    for c in it: s.chars()
        invariant
            v@ == it.seq().take(it.index() as int),
    {
        v.push(c);
    }
    v
}

/// A string made of the given characters.
pub fn string_from_chars(cs: &[char]) -> (s: String)
    ensures
        s@ == cs@,
{
    let mut s = String::new();
    let mut i: usize = 0;
    while i < cs.len()
        invariant
            i <= cs.len(),
            s@ == cs@.take(i as int),
        decreases cs.len() - i,
    {
        string_push(&mut s, cs[i]);
        i = i + 1;
        assert(s@ =~= cs@.take(i as int));
    }
    assert(cs@.take(cs.len() as int) =~= cs@);
    s
}

/// The string of the given literal.
pub fn lit(s: &str) -> (r: String)
    ensures
        r@ == s@,
{
    let cs = chars_of(s);
    string_from_chars(&cs)
}

/// `a`, then `b`, then `c`.
pub fn concat3(a: &str, b: &String, c: &str) -> (r: String)
    ensures
        r@ == a@ + b@ + c@,
{
    let mut x = chars_of(a);
    let y = chars_of(b.as_str());
    let z = chars_of(c);
    x.extend_from_slice(&y);
    x.extend_from_slice(&z);
    string_from_chars(&x)
}

/// Strings made of each character vector.
pub fn strings_from_pieces(ps: &Vec<Vec<char>>) -> (r: Vec<String>)
    ensures
        sview(r@) == vview(ps@),
{
    let mut r: Vec<String> = Vec::new();
    let mut i: usize = 0;
    while i < ps.len()
        invariant
            i <= ps.len(),
            sview(r@) =~= vview(ps@).take(i as int),
        decreases ps.len() - i,
    {
        let s = string_from_chars(ps[i].as_slice());
        assert(s@ == ps@[i as int]@);
        let ghost or = r@;
        r.push(s);
        assert(r@ == or.push(s));
        assert(sview(r@) =~= sview(or).push(s@));
        assert(vview(ps@).take(i + 1) =~= vview(ps@).take(i as int).push(ps@[i as int]@));
        i = i + 1;
        assert(sview(r@) =~= vview(ps@).take(i as int));
    }
    assert(vview(ps@).take(ps.len() as int) =~= vview(ps@));
    r
}

/// Character equality of two sequences.
pub fn chars_eq(a: &[char], b: &[char]) -> (r: bool)
    ensures
        r == (a@ == b@),
{
    if a.len() != b.len() {
        return false;
    }
    let mut i: usize = 0;
    while i < a.len()
        invariant
            a.len() == b.len(),
            i <= a.len(),
            forall|j: int| 0 <= j < i ==> a@[j] == b@[j],
        decreases a.len() - i,
    {
        if a[i] != b[i] {
            return false;
        }
        i = i + 1;
    }
    assert(a@ =~= b@);
    true
}

/// Whether the characters of `a` are those of the literal `s`.
pub fn chars_eq_str(a: &[char], s: &str) -> (r: bool)
    ensures
        r == (a@ == s@),
{
    let b = chars_of(s);
    chars_eq(a, &b)
}

/// Whether two strings hold the same characters.
pub fn string_eq(a: &String, b: &String) -> (r: bool)
    ensures
        r == (a@ == b@),
{
    let x = chars_of(a.as_str());
    let y = chars_of(b.as_str());
    chars_eq(&x, &y)
}

// ---------------------------------------------------------------------------
// Prefixes, suffixes, substrings
// ---------------------------------------------------------------------------

pub open spec fn starts_with(s: Seq<char>, p: Seq<char>) -> bool {
    p.len() <= s.len() && s.subrange(0, p.len() as int) == p
}

/// `p` occurs in `s` starting at `i`.
pub open spec fn occurs_at(s: Seq<char>, p: Seq<char>, i: int) -> bool {
    0 <= i && i + p.len() <= s.len() && s.subrange(i, i + p.len()) == p
}

/// `str::contains` with a string pattern.
pub open spec fn contains_sub(s: Seq<char>, p: Seq<char>) -> bool {
    exists|i: int| occurs_at(s, p, i)
}

pub fn starts_with_exec(s: &[char], p: &[char]) -> (r: bool)
    ensures
        r == starts_with(s@, p@),
{
    if p.len() > s.len() {
        return false;
    }
    let mut i: usize = 0;
    while i < p.len()
        invariant
            p.len() <= s.len(),
            i <= p.len(),
            forall|j: int| 0 <= j < i ==> s@[j] == p@[j],
        decreases p.len() - i,
    {
        if s[i] != p[i] {
            assert(s@.subrange(0, p.len() as int)[i as int] != p@[i as int]);
            return false;
        }
        i = i + 1;
    }
    assert(s@.subrange(0, p.len() as int) =~= p@);
    true
}

pub fn starts_with_str(s: &[char], p: &str) -> (r: bool)
    ensures
        r == starts_with(s@, p@),
{
    let pc = chars_of(p);
    starts_with_exec(s, &pc)
}

/// Whether `p` occurs in `s` at position `i`.
pub fn occurs_at_exec(s: &[char], p: &[char], i: usize) -> (r: bool)
    ensures
        r == occurs_at(s@, p@, i as int),
{
    if i > s.len() || p.len() > s.len() - i {
        return false;
    }
    let mut k: usize = 0;
    while k < p.len()
        invariant
            i + p.len() <= s.len(),
            k <= p.len(),
            forall|j: int| 0 <= j < k ==> s@[i + j] == p@[j],
        decreases p.len() - k,
    {
        if s[i + k] != p[k] {
            assert(s@.subrange(i as int, i + p.len())[k as int] != p@[k as int]);
            return false;
        }
        k = k + 1;
    }
    assert(s@.subrange(i as int, i + p.len()) =~= p@);
    true
}

pub fn contains_exec(s: &[char], p: &[char]) -> (r: bool)
    ensures
        r == contains_sub(s@, p@),
{
    if p.len() > s.len() {
        assert forall|i: int| !occurs_at(s@, p@, i) by {}
        return false;
    }
    let last = s.len() - p.len();
    let mut i: usize = 0;
    loop
        invariant
            p.len() <= s.len(),
            last == s.len() - p.len(),
            i <= last,
            forall|j: int| 0 <= j < i ==> !occurs_at(s@, p@, j),
        ensures
            forall|j: int| 0 <= j <= last ==> !occurs_at(s@, p@, j),
        decreases last - i,
    {
        if occurs_at_exec(s, p, i) {
            return true;
        }
        if i == last {
            break;
        }
        i = i + 1;
    }
    assert forall|j: int| !occurs_at(s@, p@, j) by {
        if 0 <= j <= last {
        }
    }
    false
}

pub fn contains_str(s: &[char], p: &str) -> (r: bool)
    ensures
        r == contains_sub(s@, p@),
{
    let pc = chars_of(p);
    contains_exec(s, &pc)
}

// ---------------------------------------------------------------------------
// Trimming
// ---------------------------------------------------------------------------

pub open spec fn trim_start(s: Seq<char>) -> Seq<char>
    decreases s.len(),
{
    if s.len() > 0 && is_ws(s[0]) {
        trim_start(s.drop_first())
    } else {
        s
    }
}

pub open spec fn trim_end(s: Seq<char>) -> Seq<char>
    decreases s.len(),
{
    if s.len() > 0 && is_ws(s.last()) {
        trim_end(s.drop_last())
    } else {
        s
    }
}

/// `str::trim`: leading and trailing white space removed.
pub open spec fn trim(s: Seq<char>) -> Seq<char> {
    trim_end(trim_start(s))
}

pub fn trim_chars(s: &[char]) -> (r: Vec<char>)
    ensures
        r@ == trim(s@),
{
    let mut a: usize = 0;
    assert(s@.skip(0) =~= s@);
    while a < s.len() && is_ws_exec(s[a])
        invariant
            a <= s.len(),
            trim_start(s@) == trim_start(s@.skip(a as int)),
        decreases s.len() - a,
    {
        assert(s@.skip(a as int).drop_first() =~= s@.skip(a + 1));
        a = a + 1;
    }
    let ghost t = s@.skip(a as int);
    assert(trim_start(s@) == t);
    let mut b: usize = s.len();
    assert(t.take(b - a) =~= t);
    while b > a && is_ws_exec(s[b - 1])
        invariant
            a <= b <= s.len(),
            t == s@.skip(a as int),
            trim_end(t) == trim_end(t.take(b - a)),
        decreases b,
    {
        assert(t.take(b - a).drop_last() =~= t.take(b - 1 - a));
        b = b - 1;
    }
    let mut r: Vec<char> = Vec::new();
    let mut i: usize = a;
    while i < b
        invariant
            a <= i <= b,
            b <= s.len(),
            r@ =~= s@.subrange(a as int, i as int),
        decreases b - i,
    {
        r.push(s[i]);
        i = i + 1;
    }
    assert(t.take(b - a) =~= s@.subrange(a as int, b as int));
    r
}

pub fn trim_string(s: &String) -> (r: String)
    ensures
        r@ == trim(s@),
{
    let cs = chars_of(s.as_str());
    let t = trim_chars(&cs);
    string_from_chars(&t)
}

// ---------------------------------------------------------------------------
// Splitting
// ---------------------------------------------------------------------------

/// The pieces of `s` between occurrences of `sep`, scanned from the left:
/// the pieces already closed, and the piece being read.
pub open spec fn split_state(s: Seq<char>, sep: char) -> (Seq<Seq<char>>, Seq<char>)
    decreases s.len(),
{
    if s.len() == 0 {
        (Seq::empty(), Seq::empty())
    } else {
        let (d, c) = split_state(s.drop_last(), sep);
        if s.last() == sep {
            (d.push(c), Seq::empty())
        } else {
            (d, c.push(s.last()))
        }
    }
}

/// `str::split` with a character pattern.
pub open spec fn split_char(s: Seq<char>, sep: char) -> Seq<Seq<char>> {
    split_state(s, sep).0.push(split_state(s, sep).1)
}

/// How often `c` occurs in `s`.
pub open spec fn count_char(s: Seq<char>, c: char) -> nat
    decreases s.len(),
{
    if s.len() == 0 {
        0
    } else {
        count_char(s.drop_last(), c) + if s.last() == c {
            1nat
        } else {
            0nat
        }
    }
}

/// Splitting at a character gives one piece more than it occurs.
pub proof fn lemma_split_char_count(s: Seq<char>, sep: char)
    ensures
        split_state(s, sep).0.len() == count_char(s, sep),
        split_char(s, sep).len() == count_char(s, sep) + 1,
    decreases s.len(),
{
    if s.len() > 0 {
        lemma_split_char_count(s.drop_last(), sep);
    }
}

/// Text without the separator, put after some text, only lengthens the
/// last piece.
pub proof fn lemma_split_state_append(a: Seq<char>, b: Seq<char>, sep: char)
    requires
        !b.contains(sep),
    ensures
        split_state(a + b, sep) == (split_state(a, sep).0, split_state(a, sep).1 + b),
    decreases b.len(),
{
    if b.len() == 0 {
        assert(a + b =~= a);
        assert(split_state(a, sep).1 + b =~= split_state(a, sep).1);
    } else {
        let b0 = b.drop_last();
        assert(!b0.contains(sep)) by {
            if b0.contains(sep) {
                let k = choose|k: int| 0 <= k < b0.len() && b0[k] == sep;
                assert(b[k] == sep);
            }
        }
        lemma_split_state_append(a, b0, sep);
        assert((a + b).drop_last() =~= a + b0);
        assert((a + b).last() == b.last());
        assert(b.last() != sep) by {
            assert(b[b.len() - 1] == b.last());
        }
        assert(split_state(a, sep).1 + b0 + seq![b.last()] =~= split_state(a, sep).1 + b);
    }
}

/// Two pieces without the separator, joined by it, split back into those
/// two pieces.
pub proof fn lemma_split_char_two(a: Seq<char>, b: Seq<char>, sep: char)
    requires
        !a.contains(sep),
        !b.contains(sep),
    ensures
        split_char(a + seq![sep] + b, sep) == seq![a, b],
{
    lemma_split_state_append(Seq::empty(), a, sep);
    assert(Seq::<char>::empty() + a =~= a);
    assert(split_state(Seq::<char>::empty(), sep) == (Seq::<Seq<char>>::empty(), Seq::<char>::empty()));
    let x = a + seq![sep];
    assert(x.drop_last() =~= a);
    assert(split_state(x, sep) == (seq![a], Seq::<char>::empty()));
    lemma_split_state_append(x, b, sep);
    assert(Seq::<char>::empty() + b =~= b);
    assert(split_char(a + seq![sep] + b, sep) =~= seq![a, b]);
}

/// `str::split` with a non-empty string pattern: the pieces between the
/// occurrences of `p` found from the left, without overlaps.
pub open spec fn split_str(s: Seq<char>, p: Seq<char>) -> Seq<Seq<char>>
    decreases s.len(),
{
    if s.len() == 0 {
        seq![Seq::<char>::empty()]
    } else if p.len() > 0 && starts_with(s, p) {
        seq![Seq::<char>::empty()] + split_str(s.skip(p.len() as int), p)
    } else {
        let r = split_str(s.drop_first(), p);
        r.update(0, seq![s[0]] + r[0])
    }
}

/// `r` with `c` put in front of its first piece.
pub open spec fn prepend_first(c: Seq<char>, r: Seq<Seq<char>>) -> Seq<Seq<char>> {
    r.update(0, c + r[0])
}

pub proof fn lemma_split_str_nonempty(s: Seq<char>, p: Seq<char>)
    ensures
        split_str(s, p).len() >= 1,
    decreases s.len(),
{
    if s.len() == 0 {
    } else if p.len() > 0 && starts_with(s, p) {
        lemma_split_str_nonempty(s.skip(p.len() as int), p);
    } else {
        lemma_split_str_nonempty(s.drop_first(), p);
    }
}

pub fn split_str_exec(s: &[char], p: &str) -> (r: Vec<Vec<char>>)
    requires
        p@.len() > 0,
    ensures
        vview(r@) == split_str(s@, p@),
{
    let pc = chars_of(p);
    let mut done: Vec<Vec<char>> = Vec::new();
    let mut cur: Vec<char> = Vec::new();
    let mut i: usize = 0;
    proof {
        lemma_split_str_nonempty(s@, p@);
        assert(s@.skip(0) =~= s@);
        assert(prepend_first(Seq::empty(), split_str(s@, p@)) =~= split_str(s@, p@));
        assert(vview(done@) + prepend_first(cur@, split_str(s@.skip(0), p@)) =~= split_str(s@, p@));
    }
    while i < s.len()
        invariant
            i <= s.len(),
            pc@ == p@,
            p@.len() > 0,
            vview(done@) + prepend_first(cur@, split_str(s@.skip(i as int), p@)) == split_str(s@, p@),
        decreases s.len() - i,
    {
        let ghost rest = s@.skip(i as int);
        proof {
            lemma_split_str_nonempty(rest, p@);
        }
        if occurs_at_exec(s, &pc, i) {
            let ghost after = s@.skip(i + p@.len());
            proof {
                assert(rest.subrange(0, p@.len() as int) =~= s@.subrange(i as int, i + p@.len()));
                assert(rest.skip(p@.len() as int) =~= after);
                lemma_split_str_nonempty(after, p@);
            }
            let ghost d0 = vview(done@);
            let ghost c0 = cur@;
            done.push(cur);
            cur = Vec::new();
            i = i + pc.len();
            proof {
                assert(vview(done@) =~= d0.push(c0));
                assert(prepend_first(Seq::empty(), split_str(after, p@)) =~= split_str(after, p@));
                assert(prepend_first(c0, split_str(rest, p@)) =~= seq![c0] + split_str(after, p@));
                assert(s@.skip(i as int) =~= after);
                assert(vview(done@) + prepend_first(cur@, split_str(s@.skip(i as int), p@)) =~= d0 + (
                seq![c0] + split_str(after, p@)));
            }
        } else {
            let ghost c0 = cur@;
            proof {
                if starts_with(rest, p@) {
                    assert(rest.subrange(0, p@.len() as int) =~= s@.subrange(i as int, i + p@.len()));
                }
                assert(rest.drop_first() =~= s@.skip(i + 1));
                lemma_split_str_nonempty(s@.skip(i + 1), p@);
            }
            let ghost x = s@[i as int];
            let ghost r1 = split_str(s@.skip(i + 1), p@);
            proof {
                assert(rest[0] == x);
                assert(split_str(rest, p@) == r1.update(0, seq![x] + r1[0]));
                assert(c0 + (seq![x] + r1[0]) =~= c0.push(x) + r1[0]);
                assert(prepend_first(c0, split_str(rest, p@)) =~= prepend_first(c0.push(x), r1));
            }
            cur.push(s[i]);
            i = i + 1;
        }
    }
    proof {
        assert(s@.skip(i as int) =~= Seq::<char>::empty());
        assert(prepend_first(cur@, split_str(s@.skip(i as int), p@)) =~= seq![cur@]);
    }
    let ghost d0 = vview(done@);
    done.push(cur);
    assert(vview(done@) =~= split_str(s@, p@));
    done
}

/// Closed tokens and the token being read, for `str::split_whitespace`.
pub open spec fn ws_state(s: Seq<char>) -> (Seq<Seq<char>>, Seq<char>)
    decreases s.len(),
{
    if s.len() == 0 {
        (Seq::empty(), Seq::empty())
    } else {
        let (d, c) = ws_state(s.drop_last());
        if is_ws(s.last()) {
            if c.len() > 0 {
                (d.push(c), Seq::empty())
            } else {
                (d, c)
            }
        } else {
            (d, c.push(s.last()))
        }
    }
}

/// Text without white space, put after some text, only lengthens the word
/// being read.
pub proof fn lemma_ws_state_append(a: Seq<char>, b: Seq<char>)
    requires
        forall|i: int| 0 <= i < b.len() ==> !is_ws(#[trigger] b[i]),
    ensures
        ws_state(a + b) == (ws_state(a).0, ws_state(a).1 + b),
    decreases b.len(),
{
    if b.len() == 0 {
        assert(a + b =~= a);
        assert(ws_state(a).1 + b =~= ws_state(a).1);
    } else {
        let b0 = b.drop_last();
        lemma_ws_state_append(a, b0);
        assert((a + b).drop_last() =~= a + b0);
        assert((a + b).last() == b[b.len() - 1]);
        assert(ws_state(a).1 + b0 + seq![b.last()] =~= ws_state(a).1 + b);
    }
}

/// After a separator, the next piece starts afresh.
pub proof fn lemma_split_state_piece(x: Seq<char>, b: Seq<char>, sep: char)
    requires
        !b.contains(sep),
    ensures
        split_state(x + seq![sep] + b, sep) == (split_state(x, sep).0.push(split_state(x, sep).1), b),
{
    let y = x + seq![sep];
    assert(y.drop_last() =~= x);
    assert(y.last() == sep);
    lemma_split_state_append(y, b, sep);
    assert(Seq::<char>::empty() + b =~= b);
}

/// Words written one after another with a single space between them.
pub open spec fn spaced(words: Seq<Seq<char>>) -> Seq<char>
    decreases words.len(),
{
    if words.len() == 0 {
        Seq::empty()
    } else if words.len() == 1 {
        words[0]
    } else {
        spaced(words.drop_last()) + seq![' '] + words.last()
    }
}

/// A word: not empty, and without white space.
pub open spec fn is_word(w: Seq<char>) -> bool {
    w.len() > 0 && forall|i: int| 0 <= i < w.len() ==> !is_ws(#[trigger] w[i])
}

/// Words joined by single spaces split back into those words.
pub proof fn lemma_split_ws_spaced(words: Seq<Seq<char>>)
    requires
        forall|i: int| 0 <= i < words.len() ==> is_word(#[trigger] words[i]),
    ensures
        words.len() > 0 ==> ws_state(spaced(words)) == (words.drop_last(), words.last()),
        split_ws(spaced(words)) == words,
    decreases words.len(),
{
    if words.len() == 0 {
        assert(split_ws(spaced(words)) =~= words);
    } else if words.len() == 1 {
        let w = words[0];
        lemma_ws_state_append(Seq::empty(), w);
        assert(Seq::<char>::empty() + w =~= w);
        assert(words.drop_last() =~= Seq::<Seq<char>>::empty());
        assert(split_ws(spaced(words)) =~= words);
    } else {
        let w0 = words.drop_last();
        assert forall|i: int| 0 <= i < w0.len() implies is_word(#[trigger] w0[i]) by {
            assert(w0[i] == words[i]);
        }
        lemma_split_ws_spaced(w0);
        let x = spaced(w0) + seq![' '];
        assert(x.drop_last() =~= spaced(w0));
        assert(is_ws(' '));
        assert(w0.last() == words[w0.len() - 1]);
        assert(w0.drop_last().push(w0.last()) =~= w0);
        assert(ws_state(x) == (w0, Seq::<char>::empty()));
        assert(is_word(words[words.len() - 1]));
        lemma_ws_state_append(x, words.last());
        assert(Seq::<char>::empty() + words.last() =~= words.last());
        assert(split_ws(spaced(words)) =~= words);
    }
}

/// `str::split_whitespace`: the maximal runs of non-white-space characters.
pub open spec fn split_ws(s: Seq<char>) -> Seq<Seq<char>> {
    let (d, c) = ws_state(s);
    if c.len() > 0 {
        d.push(c)
    } else {
        d
    }
}

/// A line with a carriage return before its line feed removed.
pub open spec fn strip_cr(l: Seq<char>) -> Seq<char> {
    if l.len() > 0 && l.last() == '\r' {
        l.drop_last()
    } else {
        l
    }
}

/// `str::lines`: pieces ended by `\n` (with a `\r` before it dropped), and a
/// last piece without a line feed when it is not empty.
pub open spec fn lines(s: Seq<char>) -> Seq<Seq<char>> {
    let (d, c) = split_state(s, '\n');
    let done = d.map_values(|l: Seq<char>| strip_cr(l));
    if c.len() > 0 {
        done.push(c)
    } else {
        done
    }
}

pub fn split_char_exec(s: &[char], sep: char) -> (r: Vec<Vec<char>>)
    ensures
        vview(r@) == split_char(s@, sep),
{
    let mut d: Vec<Vec<char>> = Vec::new();
    let mut c: Vec<char> = Vec::new();
    let mut i: usize = 0;
    while i < s.len()
        invariant
            i <= s.len(),
            (vview(d@), c@) == split_state(s@.take(i as int), sep),
        decreases s.len() - i,
    {
        assert(s@.take(i + 1).drop_last() =~= s@.take(i as int));
        let ghost od = vview(d@);
        if s[i] == sep {
            let done = c;
            d.push(done);
            c = Vec::new();
            assert(vview(d@) =~= od.push(done@));
        } else {
            c.push(s[i]);
        }
        i = i + 1;
    }
    assert(s@.take(s.len() as int) =~= s@);
    let ghost od = vview(d@);
    let last = c;
    d.push(last);
    assert(vview(d@) =~= od.push(last@));
    d
}

pub fn split_ws_exec(s: &[char]) -> (r: Vec<Vec<char>>)
    ensures
        vview(r@) == split_ws(s@),
{
    let mut d: Vec<Vec<char>> = Vec::new();
    let mut c: Vec<char> = Vec::new();
    let mut i: usize = 0;
    while i < s.len()
        invariant
            i <= s.len(),
            (vview(d@), c@) == ws_state(s@.take(i as int)),
        decreases s.len() - i,
    {
        assert(s@.take(i + 1).drop_last() =~= s@.take(i as int));
        let ghost od = vview(d@);
        if is_ws_exec(s[i]) {
            if c.len() > 0 {
                let done = c;
                d.push(done);
                c = Vec::new();
                assert(vview(d@) =~= od.push(done@));
            }
        } else {
            c.push(s[i]);
        }
        i = i + 1;
    }
    assert(s@.take(s.len() as int) =~= s@);
    if c.len() > 0 {
        let ghost od = vview(d@);
        let last = c;
        d.push(last);
        assert(vview(d@) =~= od.push(last@));
    }
    d
}

pub fn lines_exec(s: &[char]) -> (r: Vec<Vec<char>>)
    ensures
        vview(r@) == lines(s@),
{
    let mut d: Vec<Vec<char>> = Vec::new();
    let mut c: Vec<char> = Vec::new();
    let mut i: usize = 0;
    while i < s.len()
        invariant
            i <= s.len(),
            vview(d@) == split_state(s@.take(i as int), '\n').0.map_values(
                |l: Seq<char>| strip_cr(l),
            ),
            c@ == split_state(s@.take(i as int), '\n').1,
        decreases s.len() - i,
    {
        assert(s@.take(i + 1).drop_last() =~= s@.take(i as int));
        let ghost od = vview(d@);
        let ghost st = split_state(s@.take(i as int), '\n');
        if s[i] == '\n' {
            if c.len() > 0 && c[c.len() - 1] == '\r' {
                c.pop();
            }
            let done = c;
            d.push(done);
            c = Vec::new();
            assert(vview(d@) =~= od.push(done@));
            assert(st.0.push(st.1).map_values(|l: Seq<char>| strip_cr(l)) =~= st.0.map_values(
                |l: Seq<char>| strip_cr(l),
            ).push(strip_cr(st.1)));
        } else {
            c.push(s[i]);
        }
        i = i + 1;
    }
    assert(s@.take(s.len() as int) =~= s@);
    if c.len() > 0 {
        let ghost od = vview(d@);
        let last = c;
        d.push(last);
        assert(vview(d@) =~= od.push(last@));
    }
    d
}

} // verus!

verus! {

// ---------------------------------------------------------------------------
// Numbers written in decimal and hexadecimal
// ---------------------------------------------------------------------------

/// The decimal digit character for `d` (below ten).
pub open spec fn digit_char(d: nat) -> char {
    seq!['0', '1', '2', '3', '4', '5', '6', '7', '8', '9'][d as int]
}

/// The decimal numeral of `n`, as `to_string` writes an unsigned integer.
pub open spec fn dec(n: nat) -> Seq<char>
    decreases n,
{
    if n < 10 {
        seq![digit_char(n)]
    } else {
        dec(n / 10).push(digit_char(n % 10))
    }
}

fn digit_exec(d: u64) -> (c: char)
    requires
        d < 10,
    ensures
        c == digit_char(d as nat),
{
    match d {
        0 => '0',
        1 => '1',
        2 => '2',
        3 => '3',
        4 => '4',
        5 => '5',
        6 => '6',
        7 => '7',
        8 => '8',
        _ => '9',
    }
}

/// Appends the decimal numeral of `n`.
pub fn push_dec(out: &mut Vec<char>, n: u64)
    ensures
        final(out)@ == old(out)@ + dec(n as nat),
    decreases n,
{
    if n < 10 {
        out.push(digit_exec(n));
    } else {
        push_dec(out, n / 10);
        out.push(digit_exec(n % 10));
    }
}

/// The value of a digit in the given radix (10 or 16), as `char::to_digit`.
pub open spec fn digit_val(c: char, radix: nat) -> Option<nat> {
    let u = c as u32;
    if 48 <= u <= 57 && u - 48 < radix {
        Some((u - 48) as nat)
    } else if radix == 16 && 97 <= u <= 102 {
        Some((u - 87) as nat)
    } else if radix == 16 && 65 <= u <= 70 {
        Some((u - 55) as nat)
    } else {
        None
    }
}

/// The value of a non-empty run of digits.
pub open spec fn digits_value(s: Seq<char>, radix: nat) -> Option<nat>
    decreases s.len(),
{
    if s.len() == 0 {
        None
    } else if s.len() == 1 {
        digit_val(s[0], radix)
    } else {
        match (digits_value(s.drop_last(), radix), digit_val(s.last(), radix)) {
            (Some(v), Some(d)) => Some(v * radix + d),
            _ => None,
        }
    }
}

/// `from_str_radix` of an unsigned integer type whose largest value is
/// `max`: an optional `+`, then at least one digit, and a value that fits.
pub open spec fn parse_unsigned(s: Seq<char>, radix: nat, max: nat) -> Option<nat> {
    let body = if s.len() > 0 && s[0] == '+' {
        s.drop_first()
    } else {
        s
    };
    match digits_value(body, radix) {
        Some(v) => if v <= max {
            Some(v)
        } else {
            None
        },
        None => None,
    }
}

fn digit_val_exec(c: char, radix: u64) -> (r: Option<u64>)
    requires
        radix == 10 || radix == 16,
    ensures
        r matches Some(d) ==> digit_val(c, radix as nat) == Some(d as nat) && d < radix,
        r is None ==> digit_val(c, radix as nat) is None,
{
    let u = c as u32;
    if 48 <= u && u <= 57 && ((u - 48) as u64) < radix {
        Some((u - 48) as u64)
    } else if radix == 16 && 97 <= u && u <= 102 {
        Some((u - 87) as u64)
    } else if radix == 16 && 65 <= u && u <= 70 {
        Some((u - 55) as u64)
    } else {
        None
    }
}

proof fn lemma_digits_invalid(s: Seq<char>, radix: nat, k: int)
    requires
        0 <= k < s.len(),
        digit_val(s[k], radix) is None,
    ensures
        digits_value(s, radix) is None,
    decreases s.len(),
{
    if s.len() > 1 && k < s.len() - 1 {
        lemma_digits_invalid(s.drop_last(), radix, k);
    }
}

proof fn lemma_digits_monotone(s: Seq<char>, radix: nat, i: int, v: nat, w: nat)
    requires
        1 <= i <= s.len(),
        radix >= 1,
        digits_value(s.take(i), radix) == Some(v),
        digits_value(s, radix) == Some(w),
    ensures
        w >= v,
    decreases s.len(),
{
    if i < s.len() {
        assert(s.drop_last().take(i) =~= s.take(i));
        let p = digits_value(s.drop_last(), radix);
        let d = digit_val(s.last(), radix);
        assert(s.len() > 1);
        assert(p is Some && d is Some);
        lemma_digits_monotone(s.drop_last(), radix, i, v, p->0);
        assert(p->0 * radix >= p->0) by (nonlinear_arith)
            requires
                radix >= 1,
        ;
    } else {
        assert(s.take(i) =~= s);
    }
}

/// `from_str_radix` for a type whose largest value is `max`.
pub fn parse_unsigned_exec(s: &[char], radix: u64, max: u64) -> (r: Option<u64>)
    requires
        radix == 10 || radix == 16,
    ensures
        r matches Some(v) ==> parse_unsigned(s@, radix as nat, max as nat) == Some(v as nat),
        r is None ==> parse_unsigned(s@, radix as nat, max as nat) is None,
{
    let start: usize = if s.len() > 0 && s[0] == '+' {
        1
    } else {
        0
    };
    let ghost body = s@.skip(start as int);
    assert(body =~= (if s@.len() > 0 && s@[0] == '+' {
        s@.drop_first()
    } else {
        s@
    }));
    if start >= s.len() {
        return None;
    }
    let mut acc: u64 = 0;
    let mut i: usize = start;
    while i < s.len()
        invariant
            radix == 10 || radix == 16,
            start < s.len(),
            body == s@.skip(start as int),
            body == (if s@.len() > 0 && s@[0] == '+' {
                s@.drop_first()
            } else {
                s@
            }),
            start <= i <= s.len(),
            i == start ==> acc == 0,
            acc <= max,
            i > start ==> digits_value(body.take(i - start), radix as nat) == Some(acc as nat),
        decreases s.len() - i,
    {
        let d = match digit_val_exec(s[i], radix) {
            Some(d) => d,
            None => {
                proof {
                    assert(body[i - start] == s@[i as int]);
                    lemma_digits_invalid(body, radix as nat, i - start);
                }
                return None;
            },
        };
        let ghost prev = body.take(i - start);
        assert(body.take(i + 1 - start).drop_last() =~= prev);
        assert(body.take(i + 1 - start).last() == s@[i as int]);
        if i == start {
            assert(body.take(1)[0] == s@[i as int]);
        }
        let next = match acc.checked_mul(radix) {
            Some(m) => m.checked_add(d),
            None => None,
        };
        match next {
            Some(n) if n <= max => {
                acc = n;
            },
            _ => {
                proof {
                    let t = body.take(i + 1 - start);
                    assert(digits_value(t, radix as nat) == Some((acc * radix + d) as nat)) by {
                        if i == start {
                            assert(acc == 0);
                        }
                    }
                    assert(acc * radix + d > max);
                    if digits_value(body, radix as nat) is Some {
                        let w = digits_value(body, radix as nat)->0;
                        lemma_digits_monotone(body, radix as nat, i + 1 - start, (acc * radix
                            + d) as nat, w);
                    }
                }
                return None;
            },
        }
        i = i + 1;
    }
    assert(body.take(s.len() - start) =~= body);
    Some(acc)
}

/// Parses an unsigned decimal number as `str::parse` does for a type whose
/// largest value is `max`.
pub fn parse_dec_exec(s: &[char], max: u64) -> (r: Option<u64>)
    ensures
        r matches Some(v) ==> parse_unsigned(s@, 10, max as nat) == Some(v as nat),
        r is None ==> parse_unsigned(s@, 10, max as nat) is None,
{
    parse_unsigned_exec(s, 10, max)
}

} // verus!

verus! {

/// The pieces with `sep` between each two of them.
pub open spec fn join(list: Seq<Seq<char>>, sep: Seq<char>) -> Seq<char>
    decreases list.len(),
{
    if list.len() == 0 {
        Seq::empty()
    } else if list.len() == 1 {
        list[0]
    } else {
        join(list.drop_last(), sep) + sep + list.last()
    }
}

pub fn join_exec(list: &Vec<Vec<char>>, sep: &str) -> (r: Vec<char>)
    ensures
        r@ == join(vview(list@), sep@),
{
    let sc = chars_of(sep);
    let mut r: Vec<char> = Vec::new();
    let mut i: usize = 0;
    let ghost v = vview(list@);
    while i < list.len()
        invariant
            i <= list.len(),
            v == vview(list@),
            sc@ == sep@,
            r@ == join(v.take(i as int), sep@),
        decreases list.len() - i,
    {
        assert(v.take(i + 1).drop_last() =~= v.take(i as int));
        assert(v.take(i + 1).last() == list@[i as int]@);
        if i > 0 {
            r.extend_from_slice(&sc);
        }
        r.extend_from_slice(list[i].as_slice());
        i = i + 1;
        proof {
            if i == 1 {
                assert(r@ =~= v.take(1)[0]);
            } else {
                assert(r@ =~= join(v.take(i - 1), sep@) + sep@ + v.take(i as int).last());
            }
        }
    }
    assert(v.take(list.len() as int) =~= v);
    r
}

} // verus!
