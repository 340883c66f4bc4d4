//! Paths as text: joining with `/` and taking the last component.

use vstd::prelude::*;
use vstd::string::*;

verus! {

/// The texts of a list of strings.
pub open spec fn texts(v: Seq<String>) -> Seq<Seq<char>> {
    v.map_values(|s: String| s@)
}

/// `a/b`.
pub open spec fn joined(a: Seq<char>, b: Seq<char>) -> Seq<char> {
    a + seq!['/'] + b
}

/// The path with its trailing separators removed.
pub open spec fn trim_separators(p: Seq<char>) -> Seq<char>
    decreases p.len(),
{
    if p.len() > 0 && p.last() == '/' {
        trim_separators(p.drop_last())
    } else {
        p
    }
}

/// What follows the last separator.
pub open spec fn last_segment(p: Seq<char>) -> Seq<char>
    decreases p.len(),
{
    if p.len() == 0 {
        p
    } else if p.last() == '/' {
        Seq::empty()
    } else {
        last_segment(p.drop_last()).push(p.last())
    }
}

/// The final component of a path, trailing separators aside; none where
/// that component is empty, `.` or `..`.
pub open spec fn file_name_of(p: Seq<char>) -> Option<Seq<char>> {
    let n = last_segment(trim_separators(p));
    if n.len() == 0 || n == seq!['.'] || n == seq!['.', '.'] {
        None
    } else {
        Some(n)
    }
}

/// A copy of a list of strings.
pub fn copy_strings(v: &Vec<String>) -> (r: Vec<String>)
    ensures
        r@ == v@,
{
    let mut r: Vec<String> = Vec::new();
    let mut k: usize = 0;
    while k < v.len()
        invariant
            k <= v@.len(),
            r@ == v@.subrange(0, k as int),
        decreases v@.len() - k,
    {
        r.push(v[k].clone());
        assert(r@ =~= v@.subrange(0, k + 1));
        k = k + 1;
    }
    assert(r@ =~= v@);
    r
}

/// Joins two paths with one separator.
pub fn join(a: &str, b: &str) -> (r: String)
    ensures
        r@ == joined(a@, b@),
{
    let mut r = a.to_owned();
    let sep = "/";
    proof {
        reveal_strlit("/");
    }
    r.append(sep);
    r.append(b);
    r
}

/// The final component of a path, as `file_name_of` describes it.
pub fn file_name(p: &str) -> (r: Option<String>)
    ensures
        r.is_some() == file_name_of(p@).is_some(),
        r.is_some() ==> r.unwrap()@ == file_name_of(p@).unwrap(),
{
    let len = p.unicode_len();
    let mut end: usize = len;
    assert(p@.subrange(0, len as int) =~= p@);
    while end > 0 && p.get_char(end - 1) == '/'
        invariant
            end <= len,
            len == p@.len(),
            trim_separators(p@) == trim_separators(p@.subrange(0, end as int)),
        decreases end,
    {
        assert(p@.subrange(0, end as int).drop_last() =~= p@.subrange(0, end - 1));
        end = end - 1;
    }
    assert(trim_separators(p@.subrange(0, end as int)) == p@.subrange(0, end as int));
    let mut start: usize = end;
    while start > 0 && p.get_char(start - 1) != '/'
        invariant
            start <= end <= len,
            len == p@.len(),
            last_segment(p@.subrange(0, end as int)) == last_segment(p@.subrange(0, start as int))
                + p@.subrange(start as int, end as int),
        decreases start,
    {
        let ghost s = p@.subrange(0, start as int);
        assert(s.drop_last() =~= p@.subrange(0, start - 1));
        assert(p@.subrange(start - 1, end as int) =~= seq![s.last()] + p@.subrange(
            start as int,
            end as int,
        ));
        assert(last_segment(s) == last_segment(s.drop_last()).push(s.last()));
        assert(last_segment(s.drop_last()).push(s.last()) + p@.subrange(start as int, end as int)
            =~= last_segment(s.drop_last()) + p@.subrange(start - 1, end as int));
        start = start - 1;
    }
    assert(last_segment(p@.subrange(0, start as int)) =~= Seq::<char>::empty());
    assert(last_segment(p@.subrange(0, end as int)) =~= p@.subrange(start as int, end as int));
    let n = end - start;
    if n == 0 {
        return None;
    }
    if n <= 2 && p.get_char(start) == '.' && (n == 1 || p.get_char(start + 1) == '.') {
        assert(n == 1 ==> p@.subrange(start as int, end as int) =~= seq!['.']);
        assert(n == 2 ==> p@.subrange(start as int, end as int) =~= seq!['.', '.']);
        return None;
    }
    let name = p.substring_char(start, end).to_owned();
    proof {
        if name@ == seq!['.'] {
            assert(name@[0] == p@[start as int]);
        }
        if name@ == seq!['.', '.'] {
            assert(name@[0] == p@[start as int]);
            assert(name@[1] == p@[start + 1]);
        }
    }
    Some(name)
}

} // verus!
