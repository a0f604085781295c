//! Character-level helpers: comparison, whitespace tokens and joining.
use vstd::prelude::*;

verus! {

/// Whether two strings hold the same characters.
pub fn text_eq(a: &str, b: &str) -> (r: bool)
    ensures
        r == (a@ == b@),
{
    let n = a.unicode_len();
    if n != b.unicode_len() {
        return false;
    }
    let mut i: usize = 0;
    while i < n
        invariant
            n == a@.len(),
            n == b@.len(),
            i <= n,
            a@.subrange(0, i as int) == b@.subrange(0, i as int),
        decreases n - i,
    {
        if a.get_char(i) != b.get_char(i) {
            return false;
        }
        assert(a@.subrange(0, i + 1) =~= a@.subrange(0, i as int).push(a@[i as int]));
        assert(b@.subrange(0, i + 1) =~= b@.subrange(0, i as int).push(b@[i as int]));
        i = i + 1;
    }
    assert(a@ =~= a@.subrange(0, n as int));
    assert(b@ =~= b@.subrange(0, n as int));
    true
}

/// Whether `c` separates tokens: the characters of Unicode's `White_Space`
/// property, as `char::is_whitespace` defines them.
pub open spec fn is_space(c: char) -> bool {
    let u = c as u32;
    (0x09 <= u <= 0x0d) || u == 0x20 || u == 0x85 || u == 0xa0 || u == 0x1680 || (0x2000 <= u
        <= 0x200a) || u == 0x2028 || u == 0x2029 || u == 0x202f || u == 0x205f || u == 0x3000
}

/// Whether `c` is whitespace.
pub fn is_space_char(c: char) -> (r: bool)
    ensures
        r == is_space(c),
{
    let u = c as u32;
    (0x09 <= u && u <= 0x0d) || u == 0x20 || u == 0x85 || u == 0xa0 || u == 0x1680 || (0x2000 <= u
        && u <= 0x200a) || u == 0x2028 || u == 0x2029 || u == 0x202f || u == 0x205f || u == 0x3000
}

/// Reading `s` from the left: the tokens completed so far and the token
/// being read.
pub open spec fn scan(s: Seq<char>) -> (Seq<Seq<char>>, Seq<char>)
    decreases s.len(),
{
    if s.len() == 0 {
        (seq![], seq![])
    } else {
        let (done, cur) = scan(s.drop_last());
        let c = s.last();
        if !is_space(c) {
            (done, cur.push(c))
        } else if cur.len() == 0 {
            (done, cur)
        } else {
            (done.push(cur), seq![])
        }
    }
}

/// The maximal runs of non-whitespace characters of `s`, in order.
pub open spec fn tokens(s: Seq<char>) -> Seq<Seq<char>> {
    let (done, cur) = scan(s);
    if cur.len() == 0 {
        done
    } else {
        done.push(cur)
    }
}

/// The parts laid end to end with `sep` between neighbours.
pub open spec fn join_with<T>(parts: Seq<Seq<T>>, sep: T) -> Seq<T>
    decreases parts.len(),
{
    if parts.len() == 0 {
        seq![]
    } else if parts.len() == 1 {
        parts[0]
    } else {
        join_with(parts.drop_last(), sep).push(sep) + parts.last()
    }
}

/// The characters of each string.
pub open spec fn views(v: Seq<String>) -> Seq<Seq<char>> {
    v.map_values(|t: String| t@)
}

/// Relies on `String::push`: appends one character.
#[verifier::external_body]
fn push_char(s: &mut String, c: char)
    ensures
        final(s)@ == old(s)@.push(c),
{
    s.push(c)
}

/// Splits `s` on runs of whitespace.
pub fn split_tokens(s: &str) -> (r: Vec<String>)
    ensures
        views(r@) == tokens(s@),
{
    let n = s.unicode_len();
    let mut done: Vec<String> = Vec::new();
    let mut cur = String::new();
    let mut i: usize = 0;
    while i < n
        invariant
            n == s@.len(),
            i <= n,
            scan(s@.subrange(0, i as int)) == (views(done@), cur@),
        decreases n - i,
    {
        let c = s.get_char(i);
        assert(s@.subrange(0, i + 1).drop_last() =~= s@.subrange(0, i as int));
        if !is_space_char(c) {
            push_char(&mut cur, c);
        } else if cur.as_str().unicode_len() > 0 {
            let t = cur;
            cur = String::new();
            let ghost before = done@;
            done.push(t);
            assert(views(done@) =~= views(before).push(t@));
        }
        i = i + 1;
    }
    assert(s@ =~= s@.subrange(0, n as int));
    if cur.as_str().unicode_len() > 0 {
        let ghost before = done@;
        let ghost last = cur@;
        done.push(cur);
        assert(views(done@) =~= views(before).push(last));
    }
    done
}

/// Joins `ts[start..]` with single spaces.
pub fn join_tokens(ts: &Vec<String>, start: usize) -> (r: String)
    requires
        start <= ts@.len(),
    ensures
        r@ == join_with(views(ts@).subrange(start as int, ts@.len() as int), ' '),
{
    let n = ts.len();
    let mut r = String::new();
    if start == n {
        return r;
    }
    r.append(ts[start].as_str());
    let mut i: usize = start + 1;
    assert(views(ts@).subrange(start as int, i as int) =~= seq![ts@[start as int]@]);
    while i < n
        invariant
            n == ts@.len(),
            start < i <= n,
            r@ == join_with(views(ts@).subrange(start as int, i as int), ' '),
        decreases n - i,
    {
        push_char(&mut r, ' ');
        r.append(ts[i].as_str());
        assert(views(ts@).subrange(start as int, i + 1).drop_last() =~= views(ts@).subrange(
            start as int,
            i as int,
        ));
        i = i + 1;
    }
    r
}

} // verus!
