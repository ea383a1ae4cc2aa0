//! Whitespace trimming and line splitting over character sequences.
use vstd::prelude::*;
use vstd::std_specs::iter::IteratorSpec;

verus! {

/// Unicode `White_Space`, the set that `char::is_whitespace` tests.
pub open spec fn is_ws(c: char) -> bool {
    let n = c as u32;
    (0x09 <= n && n <= 0x0D) || n == 0x20 || n == 0x85 || n == 0xA0 || n == 0x1680
        || (0x2000 <= n && n <= 0x200A) || n == 0x2028 || n == 0x2029 || n == 0x202F
        || n == 0x205F || n == 0x3000
}

/// `s` without its trailing whitespace.
pub open spec fn trim_end_of(s: Seq<char>) -> Seq<char>
    decreases s.len(),
{
    if s.len() > 0 && is_ws(s.last()) {
        trim_end_of(s.drop_last())
    } else {
        s
    }
}

/// `s` without its leading whitespace.
pub open spec fn trim_start_of(s: Seq<char>) -> Seq<char>
    decreases s.len(),
{
    if s.len() > 0 && is_ws(s[0]) {
        trim_start_of(s.drop_first())
    } else {
        s
    }
}

/// `s` without leading and trailing whitespace.
pub open spec fn trim_of(s: Seq<char>) -> Seq<char> {
    trim_start_of(trim_end_of(s))
}

/// `true` when `s` holds only whitespace (or nothing).
pub open spec fn is_blank(s: Seq<char>) -> bool {
    trim_of(s).len() == 0
}

/// Exactly `char::is_whitespace`.
pub fn is_whitespace(c: char) -> (r: bool)
    ensures
        r == is_ws(c),
{
    let n = c as u32;
    (0x09 <= n && n <= 0x0D) || n == 0x20 || n == 0x85 || n == 0xA0 || n == 0x1680
        || (0x2000 <= n && n <= 0x200A) || n == 0x2028 || n == 0x2029 || n == 0x202F
        || n == 0x205F || n == 0x3000
}

/// The characters of `s`, in order.
pub fn chars_of(s: &str) -> (r: Vec<char>)
    ensures
        r@ == s@,
{
    let mut out: Vec<char> = Vec::new();
    let mut it = s.chars();
    proof {
        broadcast use vstd::string::axiom_spec_iter;
    }
    loop
        invariant
            it.obeys_prophetic_iter_laws(),
            out@.len() <= s@.len(),
            out@ == s@.subrange(0, out@.len() as int),
            it.remaining() == s@.subrange(out@.len() as int, s@.len() as int),
        decreases s@.len() - out@.len(),
    {
        let ghost before = it;
        let next = it.next();
        proof {
            broadcast use vstd::string::next_postcondition;
        }
        match next {
            Some(c) => {
                assert(before.remaining().len() > 0);
                out.push(c);
                assert(out@ =~= s@.subrange(0, out@.len() as int));
                assert(it.remaining() =~= s@.subrange(out@.len() as int, s@.len() as int));
            },
            None => {
                assert(out@ =~= s@);
                return out;
            },
        }
    }
}

/// End of `v[from..to]` once its trailing whitespace is removed.
fn trimmed_end_index(v: &Vec<char>, from: usize, to: usize) -> (e: usize)
    requires
        from <= to <= v@.len(),
    ensures
        from <= e <= to,
        trim_end_of(v@.subrange(from as int, to as int)) == v@.subrange(from as int, e as int),
{
    let mut e = to;
    while e > from && is_whitespace(v[e - 1])
        invariant
            from <= e <= to <= v@.len(),
            trim_end_of(v@.subrange(from as int, to as int)) == trim_end_of(
                v@.subrange(from as int, e as int),
            ),
        decreases e,
    {
        assert(v@.subrange(from as int, e as int).drop_last() =~= v@.subrange(
            from as int,
            e - 1,
        ));
        e = e - 1;
    }
    e
}

/// Start of `v[from..to]` once its leading whitespace is removed.
fn trimmed_start_index(v: &Vec<char>, from: usize, to: usize) -> (b: usize)
    requires
        from <= to <= v@.len(),
    ensures
        from <= b <= to,
        trim_start_of(v@.subrange(from as int, to as int)) == v@.subrange(b as int, to as int),
{
    let mut b = from;
    while b < to && is_whitespace(v[b])
        invariant
            from <= b <= to <= v@.len(),
            trim_start_of(v@.subrange(from as int, to as int)) == trim_start_of(
                v@.subrange(b as int, to as int),
            ),
        decreases to - b,
    {
        assert(v@.subrange(b as int, to as int).drop_first() =~= v@.subrange(
            b + 1,
            to as int,
        ));
        b = b + 1;
    }
    b
}

/// Bounds of `v[from..to]` with leading and trailing whitespace removed.
fn trimmed_bounds(v: &Vec<char>, from: usize, to: usize) -> (r: (usize, usize))
    requires
        from <= to <= v@.len(),
    ensures
        from <= r.0 <= r.1 <= to,
        trim_of(v@.subrange(from as int, to as int)) == v@.subrange(r.0 as int, r.1 as int),
{
    let e = trimmed_end_index(v, from, to);
    let b = trimmed_start_index(v, from, e);
    (b, e)
}

/// Copy of `s` without leading and trailing whitespace (`str::trim`).
pub fn trim(s: &str) -> (r: String)
    ensures
        r@ == trim_of(s@),
{
    let v = chars_of(s);
    let (b, e) = trimmed_bounds(&v, 0, v.len());
    assert(v@.subrange(0, v@.len() as int) =~= s@);
    String::from_str(s.substring_char(b, e))
}

/// Copy of `s` without trailing whitespace (`str::trim_end`).
pub fn trim_end(s: &str) -> (r: String)
    ensures
        r@ == trim_end_of(s@),
{
    let v = chars_of(s);
    let e = trimmed_end_index(&v, 0, v.len());
    assert(v@.subrange(0, v@.len() as int) =~= s@);
    String::from_str(s.substring_char(0, e))
}

/// `true` exactly when `s` is empty or all whitespace.
pub fn is_blank_str(s: &str) -> (r: bool)
    ensures
        r == is_blank(s@),
{
    let v = chars_of(s);
    let (b, e) = trimmed_bounds(&v, 0, v.len());
    assert(v@.subrange(0, v@.len() as int) =~= s@);
    b == e
}

/// The pieces of `s` between `'\n'` separators, in order; the text after
/// the last separator is a piece too, empty when `s` ends with one.
pub open spec fn split_newlines(s: Seq<char>) -> Seq<Seq<char>>
    decreases s.len(),
{
    if s.len() == 0 {
        seq![Seq::<char>::empty()]
    } else {
        let p = split_newlines(s.drop_last());
        if s.last() == '\n' {
            p.push(Seq::<char>::empty())
        } else {
            p.update(p.len() - 1, p.last().push(s.last()))
        }
    }
}

/// The pieces joined with one `'\n'` between neighbours.
pub open spec fn join_newlines(ls: Seq<Seq<char>>) -> Seq<char>
    decreases ls.len(),
{
    if ls.len() == 0 {
        Seq::<char>::empty()
    } else if ls.len() == 1 {
        ls[0]
    } else {
        join_newlines(ls.drop_last()) + seq!['\n'] + ls.last()
    }
}

/// What a sequence of strings holds, as character sequences.
pub open spec fn views(v: Seq<String>) -> Seq<Seq<char>> {
    v.map_values(|x: String| x@)
}

/// Splits `s` at each `'\n'`.
pub fn split_newlines_str(s: &str) -> (r: Vec<String>)
    ensures
        views(r@) == split_newlines(s@),
{
    let v = chars_of(s);
    let mut out: Vec<String> = Vec::new();
    let mut start: usize = 0;
    let mut i: usize = 0;
    assert(v@.subrange(0, 0) =~= Seq::<char>::empty());
    assert(views(out@).push(v@.subrange(0, 0)) =~= seq![Seq::<char>::empty()]);
    while i < v.len()
        invariant
            v@ == s@,
            start <= i <= v@.len(),
            split_newlines(v@.subrange(0, i as int)) == views(out@).push(
                v@.subrange(start as int, i as int),
            ),
        decreases v@.len() - i,
    {
        let ghost pre = v@.subrange(0, i as int);
        assert(v@.subrange(0, i + 1).drop_last() =~= pre);
        if v[i] == '\n' {
            let piece = String::from_str(s.substring_char(start, i));
            out.push(piece);
            start = i + 1;
            i = i + 1;
            assert(v@.subrange(start as int, i as int) =~= Seq::<char>::empty());
            assert(views(out@).push(v@.subrange(start as int, i as int)) =~= split_newlines(
                pre,
            ).push(Seq::<char>::empty()));
        } else {
            i = i + 1;
            assert(v@.subrange(start as int, i as int) =~= v@.subrange(
                start as int,
                i - 1,
            ).push(v@[i - 1]));
            assert(views(out@).push(v@.subrange(start as int, i as int)) =~= split_newlines(
                pre,
            ).update(split_newlines(pre).len() - 1, split_newlines(pre).last().push(v@[i - 1])));
        }
    }
    let last = String::from_str(s.substring_char(start, i));
    out.push(last);
    assert(v@.subrange(0, i as int) =~= s@);
    assert(views(out@) =~= split_newlines(s@));
    out
}

/// Joins `ls` with one `'\n'` between neighbours (`[String]::join("\n")`).
pub fn join_newlines_str(ls: &Vec<String>) -> (r: String)
    ensures
        r@ == join_newlines(views(ls@)),
{
    let mut out = String::new();
    let mut i: usize = 0;
    while i < ls.len()
        invariant
            i <= ls@.len(),
            out@ == join_newlines(views(ls@.subrange(0, i as int))),
        decreases ls@.len() - i,
    {
        let ghost pre = views(ls@.subrange(0, i as int));
        let ghost next = views(ls@.subrange(0, i + 1));
        assert(next.drop_last() =~= pre);
        assert(next.last() == ls@[i as int]@);
        if i > 0 {
            out.append("\n");
            proof {
                reveal_strlit("\n");
            }
        }
        out.append(ls[i].as_str());
        i = i + 1;
        proof {
            if i == 1 {
                assert(out@ =~= next[0]);
            } else {
                assert(out@ =~= join_newlines(pre) + seq!['\n'] + next.last());
            }
        }
    }
    assert(ls@.subrange(0, i as int) =~= ls@);
    out
}

} // verus!
