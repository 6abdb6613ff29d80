//! Character-level text operations with exact specifications.
use vstd::prelude::*;
use vstd::string::*;

verus! {

/// The characters that `char::is_whitespace` accepts (Unicode `White_Space`).
pub open spec fn is_space(c: char) -> bool {
    let u = c as u32;
    (0x9 <= u && u <= 0xd) || u == 0x20 || u == 0x85 || u == 0xa0 || u == 0x1680
        || (0x2000 <= u && u <= 0x200a) || u == 0x2028 || u == 0x2029 || u == 0x202f
        || u == 0x205f || u == 0x3000
}

/// `s` with its leading whitespace removed.
pub open spec fn trim_start(s: Seq<char>) -> Seq<char>
    decreases s.len(),
{
    if s.len() > 0 && is_space(s[0]) {
        trim_start(s.drop_first())
    } else {
        s
    }
}

/// `s` with its trailing whitespace removed.
pub open spec fn trim_end(s: Seq<char>) -> Seq<char>
    decreases s.len(),
{
    if s.len() > 0 && is_space(s.last()) {
        trim_end(s.drop_last())
    } else {
        s
    }
}

/// `s` with whitespace removed at both ends.
pub open spec fn trim(s: Seq<char>) -> Seq<char> {
    trim_end(trim_start(s))
}

/// `p` occurs in `s` starting at position `i`.
pub open spec fn occurs_at(s: Seq<char>, p: Seq<char>, i: int) -> bool {
    0 <= i && i + p.len() <= s.len() && s.subrange(i, i + p.len()) == p
}

/// The first position at or after `k` where `p` occurs in `s`.
pub open spec fn first_from(s: Seq<char>, p: Seq<char>, k: int) -> Option<int>
    decreases s.len() + 1 - k,
{
    if k < 0 || k + p.len() > s.len() {
        None
    } else if occurs_at(s, p, k) {
        Some(k)
    } else {
        first_from(s, p, k + 1)
    }
}

/// The first position where `p` occurs in `s`.
pub open spec fn first_occurrence(s: Seq<char>, p: Seq<char>) -> Option<int> {
    first_from(s, p, 0)
}

/// `s` with every leading repetition of the non-empty `p` removed.
pub open spec fn strip_leading(s: Seq<char>, p: Seq<char>) -> Seq<char>
    decreases s.len(),
{
    if p.len() > 0 && occurs_at(s, p, 0) {
        strip_leading(s.skip(p.len() as int), p)
    } else {
        s
    }
}

/// `s` with every occurrence of the non-empty `p` deleted, scanning left to right.
pub open spec fn remove_all(s: Seq<char>, p: Seq<char>) -> Seq<char>
    decreases s.len(),
{
    if s.len() == 0 {
        s
    } else if p.len() > 0 && occurs_at(s, p, 0) {
        remove_all(s.skip(p.len() as int), p)
    } else {
        seq![s[0]] + remove_all(s.drop_first(), p)
    }
}

/// Whether `c` is whitespace.
pub fn is_space_char(c: char) -> (r: bool)
    ensures
        r == is_space(c),
{
    let u = c as u32;
    (0x9 <= u && u <= 0xd) || u == 0x20 || u == 0x85 || u == 0xa0 || u == 0x1680
        || (0x2000 <= u && u <= 0x200a) || u == 0x2028 || u == 0x2029 || u == 0x202f
        || u == 0x205f || u == 0x3000
}

/// The characters of `s`, in order.
pub fn chars_of(s: &str) -> (r: Vec<char>)
    ensures
        r@ == s@,
{
    let mut out: Vec<char> = Vec::new();
    for c in it: s.chars()
        invariant
            it.seq() == s@,
            out@ == it.seq().take(it.index() as int),
    {
        out.push(c);
    }
    out
}

/// Whether `p` occurs in `cs` at position `i`.
pub fn starts_at(cs: &Vec<char>, p: &Vec<char>, i: usize) -> (r: bool)
    requires
        i <= cs.len(),
    ensures
        r == occurs_at(cs@, p@, i as int),
{
    let n = cs.len();
    let m = p.len();
    if m > n - i {
        return false;
    }
    let mut j: usize = 0;
    while j < m
        invariant
            i + m <= n,
            n == cs.len(),
            m == p.len(),
            j <= m,
            forall|k: int| 0 <= k < j ==> cs@[i + k] == p@[k],
        decreases m - j,
    {
        if cs[i + j] != p[j] {
            assert(cs@.subrange(i as int, i + m)[j as int] != p@[j as int]);
            return false;
        }
        j = j + 1;
    }
    assert(cs@.subrange(i as int, i + m) =~= p@);
    true
}

/// The first position where `p` occurs in `cs`.
pub fn find_first(cs: &Vec<char>, p: &Vec<char>) -> (r: Option<usize>)
    ensures
        match r {
            Some(i) => first_occurrence(cs@, p@) == Some(i as int),
            None => first_occurrence(cs@, p@) is None,
        },
        r matches Some(i) ==> i + p.len() <= cs.len(),
{
    let n = cs.len();
    let m = p.len();
    if m == 0 {
        assert(cs@.subrange(0, 0) =~= p@);
        return Some(0);
    }
    let mut i: usize = 0;
    while m <= n - i
        invariant
            n == cs.len(),
            m == p.len(),
            m > 0,
            i <= n,
            first_from(cs@, p@, 0) == first_from(cs@, p@, i as int),
        decreases n - i,
    {
        if starts_at(cs, p, i) {
            return Some(i);
        }
        i = i + 1;
    }
    None
}

proof fn lemma_skip_step(s: Seq<char>, i: int)
    requires
        0 <= i < s.len(),
    ensures
        s.skip(i).drop_first() =~= s.skip(i + 1),
        s.skip(i)[0] == s[i],
{
}

proof fn lemma_occurs_skip(s: Seq<char>, p: Seq<char>, i: int)
    requires
        0 <= i <= s.len(),
    ensures
        occurs_at(s.skip(i), p, 0) == occurs_at(s, p, i),
        occurs_at(s, p, i) ==> s.skip(i).skip(p.len() as int) =~= s.skip(i + p.len()),
{
    if i + p.len() <= s.len() {
        assert(s.skip(i).subrange(0, p.len() as int) =~= s.subrange(i, i + p.len()));
    }
}

/// Returns the position just past the leading repetitions of `p` in `cs` from `k`.
pub fn skip_leading(cs: &Vec<char>, p: &Vec<char>, k: usize) -> (r: usize)
    requires
        k <= cs.len(),
    ensures
        k <= r <= cs.len(),
        strip_leading(cs@.skip(k as int), p@) == cs@.skip(r as int),
{
    let n = cs.len();
    let m = p.len();
    let mut i: usize = k;
    if m == 0 {
        return k;
    }
    while starts_at(cs, p, i)
        invariant
            n == cs.len(),
            m == p.len(),
            m > 0,
            k <= i <= n,
            strip_leading(cs@.skip(k as int), p@) == strip_leading(cs@.skip(i as int), p@),
        decreases n - i,
    {
        proof {
            lemma_occurs_skip(cs@, p@, i as int);
        }
        i = i + m;
    }
    proof {
        lemma_occurs_skip(cs@, p@, i as int);
    }
    i
}

/// `s` with whitespace removed at both ends.
pub fn trim_str(s: &str) -> (r: String)
    ensures
        r@ == trim(s@),
{
    let cs = chars_of(s);
    let n = cs.len();
    let mut a: usize = 0;
    assert(cs@.skip(0) =~= cs@);
    while a < n && is_space_char(cs[a])
        invariant
            n == cs.len(),
            cs@ == s@,
            a <= n,
            trim_start(s@) == trim_start(cs@.skip(a as int)),
        decreases n - a,
    {
        proof {
            lemma_skip_step(cs@, a as int);
        }
        a = a + 1;
    }
    assert(trim_start(s@) == cs@.subrange(a as int, n as int)) by {
        assert(cs@.skip(a as int) =~= cs@.subrange(a as int, n as int));
    }
    let mut b: usize = n;
    while b > a && is_space_char(cs[b - 1])
        invariant
            n == cs.len(),
            cs@ == s@,
            a <= b <= n,
            trim(s@) == trim_end(cs@.subrange(a as int, b as int)),
        decreases b,
    {
        assert(cs@.subrange(a as int, b as int).drop_last() =~= cs@.subrange(a as int, b - 1));
        b = b - 1;
    }
    String::from_str(s.substring_char(a, b))
}

/// `s` with every occurrence of `p` deleted, scanning left to right.
pub fn remove_all_str(s: &str, p: &str) -> (r: String)
    ensures
        r@ == remove_all(s@, p@),
{
    let cs = chars_of(s);
    let ps = chars_of(p);
    let n = cs.len();
    let m = ps.len();
    if m == 0 {
        assert(remove_all(s@, p@) == s@) by {
            lemma_remove_all_empty(s@, p@);
        }
        return String::from_str(s);
    }
    let mut out = String::new();
    let mut start: usize = 0;
    let mut i: usize = 0;
    assert(out@ + cs@.subrange(0, 0) + remove_all(cs@.skip(0), p@) =~= remove_all(s@, p@)) by {
        assert(cs@.skip(0) =~= cs@);
    }
    while i < n
        invariant
            n == cs.len(),
            m == ps.len(),
            m > 0,
            cs@ == s@,
            ps@ == p@,
            start <= i <= n,
            out@ + cs@.subrange(start as int, i as int) + remove_all(cs@.skip(i as int), p@)
                == remove_all(s@, p@),
        decreases n - i,
    {
        proof {
            lemma_occurs_skip(cs@, p@, i as int);
            lemma_skip_step(cs@, i as int);
        }
        if starts_at(&cs, &ps, i) {
            let run = s.substring_char(start, i);
            out.append(run);
            i = i + m;
            start = i;
            assert(cs@.subrange(start as int, i as int) =~= Seq::<char>::empty());
            assert(out@ + cs@.subrange(start as int, i as int) =~= out@);
        } else {
            let ghost before = out@ + cs@.subrange(start as int, i as int);
            assert(cs@.subrange(start as int, i + 1) =~= cs@.subrange(start as int, i as int)
                + seq![cs@[i as int]]);
            assert(before + seq![cs@[i as int]] + remove_all(cs@.skip(i + 1), p@) =~= before
                + (seq![cs@[i as int]] + remove_all(cs@.skip(i + 1), p@)));
            i = i + 1;
        }
    }
    let run = s.substring_char(start, n);
    out.append(run);
    assert(remove_all(cs@.skip(n as int), p@) =~= Seq::<char>::empty());
    assert(out@ + Seq::<char>::empty() =~= out@);
    out
}

proof fn lemma_remove_all_empty(s: Seq<char>, p: Seq<char>)
    requires
        p.len() == 0,
    ensures
        remove_all(s, p) == s,
    decreases s.len(),
{
    if s.len() > 0 {
        lemma_remove_all_empty(s.drop_first(), p);
        assert(seq![s[0]] + s.drop_first() =~= s);
    }
}

/// Whether two texts are the same.
pub fn same_text(a: &str, b: &str) -> (r: bool)
    ensures
        r == (a@ == b@),
{
    let x = chars_of(a);
    let y = chars_of(b);
    if x.len() != y.len() {
        return false;
    }
    let r = starts_at(&x, &y, 0);
    assert(x@.subrange(0, y@.len() as int) =~= x@);
    r
}

/// The concatenation of `a` and `b`.
pub fn concat2(a: &str, b: &str) -> (r: String)
    ensures
        r@ == a@ + b@,
{
    let mut s = String::from_str(a);
    s.append(b);
    s
}

/// The maximal runs of non-whitespace characters of `s`, in order.
pub open spec fn split_words(s: Seq<char>) -> Seq<Seq<char>>
    decreases s.len(),
{
    if s.len() == 0 {
        Seq::empty()
    } else {
        let rest = split_words(s.drop_last());
        if is_space(s.last()) {
            rest
        } else if s.len() >= 2 && !is_space(s[s.len() - 2]) {
            rest.drop_last().push(rest.last().push(s.last()))
        } else {
            rest.push(seq![s.last()])
        }
    }
}

/// The words of `ws` joined with one space between neighbours.
pub open spec fn join_words(ws: Seq<Seq<char>>) -> Seq<char>
    decreases ws.len(),
{
    if ws.len() == 0 {
        Seq::empty()
    } else if ws.len() == 1 {
        ws[0]
    } else {
        join_words(ws.drop_last()) + " "@ + ws.last()
    }
}

/// The views of a sequence of strings.
pub open spec fn strings_view(v: Seq<String>) -> Seq<Seq<char>> {
    v.map_values(|s: String| s@)
}

/// Splits `s` into its whitespace-separated words.
pub fn split_whitespace(s: &str) -> (r: Vec<String>)
    ensures
        strings_view(r@) == split_words(s@),
{
    let cs = chars_of(s);
    let n = cs.len();
    let mut out: Vec<String> = Vec::new();
    let mut start: usize = 0;
    let mut i: usize = 0;
    assert(cs@.take(0) =~= Seq::<char>::empty());
    while i < n
        invariant
            n == cs.len(),
            cs@ == s@,
            i <= n,
            start <= i,
            i > 0 && !is_space(cs@[i - 1]) ==> start < i && split_words(cs@.take(i as int))
                == strings_view(out@).push(cs@.subrange(start as int, i as int)),
            !(i > 0 && !is_space(cs@[i - 1])) ==> split_words(cs@.take(i as int)) == strings_view(
                out@,
            ),
        decreases n - i,
    {
        let ghost t = cs@.take(i + 1);
        assert(t.drop_last() =~= cs@.take(i as int));
        assert(t.last() == cs@[i as int]);
        if is_space_char(cs[i]) {
            if i > 0 && !is_space_char(cs[i - 1]) {
                let ghost before = out@;
                out.push(String::from_str(s.substring_char(start, i)));
                assert(strings_view(out@) =~= strings_view(before).push(
                    cs@.subrange(start as int, i as int),
                ));
            }
        } else {
            if i > 0 && !is_space_char(cs[i - 1]) {
                assert(t[t.len() - 2] == cs@[i - 1]);
                assert(cs@.subrange(start as int, i + 1) =~= cs@.subrange(start as int, i as int).push(
                    cs@[i as int],
                ));
                assert(strings_view(out@).push(cs@.subrange(start as int, i as int)).drop_last()
                    =~= strings_view(out@));
            } else {
                if i > 0 {
                    assert(t[t.len() - 2] == cs@[i - 1]);
                }
                assert(cs@.subrange(i as int, i + 1) =~= seq![cs@[i as int]]);
                start = i;
            }
        }
        i = i + 1;
    }
    assert(cs@.take(n as int) =~= cs@);
    if n > 0 && !is_space_char(cs[n - 1]) {
        let ghost before = out@;
        out.push(String::from_str(s.substring_char(start, n)));
        assert(strings_view(out@) =~= strings_view(before).push(
            cs@.subrange(start as int, n as int),
        ));
    }
    out
}

/// Joins the words of `ws` from position `from` on, one space between neighbours.
pub fn join_from(ws: &Vec<String>, from: usize) -> (r: String)
    requires
        from <= ws.len(),
    ensures
        r@ == join_words(strings_view(ws@).skip(from as int)),
{
    let n = ws.len();
    let mut out = String::new();
    let mut i: usize = from;
    assert(strings_view(ws@).skip(from as int).take(0) =~= Seq::<Seq<char>>::empty());
    while i < n
        invariant
            n == ws.len(),
            from <= i <= n,
            out@ == join_words(strings_view(ws@).skip(from as int).take(i - from)),
        decreases n - i,
    {
        let ghost w = strings_view(ws@).skip(from as int);
        assert(w.take(i - from + 1).drop_last() =~= w.take(i - from));
        assert(w.take(i - from + 1).last() == ws@[i as int]@);
        if i > from {
            out.append(" ");
        } else {
            assert(w.take(1) =~= seq![ws@[i as int]@]);
            assert(out@ + ws@[i as int]@ =~= ws@[i as int]@);
        }
        out.append(ws[i].as_str());
        i = i + 1;
    }
    assert(strings_view(ws@).skip(from as int).take(n - from) =~= strings_view(ws@).skip(from as int));
    out
}

proof fn lemma_trim_start_result(s: Seq<char>)
    ensures
        trim_start(s).len() > 0 ==> !is_space(trim_start(s)[0]),
        trim_start(trim_start(s)) == trim_start(s),
        trim_start(s).len() <= s.len(),
    decreases s.len(),
{
    if s.len() > 0 && is_space(s[0]) {
        lemma_trim_start_result(s.drop_first());
    }
}

proof fn lemma_trim_end_result(s: Seq<char>)
    ensures
        trim_end(s).len() > 0 ==> !is_space(trim_end(s).last()),
        trim_end(trim_end(s)) == trim_end(s),
        trim_end(s).len() <= s.len(),
        trim_end(s) == s.take(trim_end(s).len() as int),
    decreases s.len(),
{
    if s.len() > 0 && is_space(s.last()) {
        lemma_trim_end_result(s.drop_last());
        assert(s.drop_last().take(trim_end(s).len() as int) =~= s.take(trim_end(s).len() as int));
    } else {
        assert(s.take(s.len() as int) =~= s);
    }
}

/// Trimming a trimmed text changes nothing.
pub proof fn lemma_trim_idempotent(s: Seq<char>)
    ensures
        trim(trim(s)) == trim(s),
{
    let a = trim_start(s);
    let t = trim_end(a);
    lemma_trim_start_result(s);
    lemma_trim_end_result(a);
    if t.len() > 0 {
        assert(t == a.take(t.len() as int));
        assert(t[0] == a.take(t.len() as int)[0]);
        assert(t[0] == a[0]);
        assert(trim_start(t) == t);
    } else {
        assert(trim_start(t) == t);
    }
}

} // verus!
