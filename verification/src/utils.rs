use vstd::prelude::*;
use vstd::string::StrSliceExecFns;

verus! {

/// Index of the last occurrence of `c` in `s`, if any.
pub open spec fn spec_rfind(s: Seq<char>, c: char) -> Option<int>
    decreases s.len(),
{
    if s.len() == 0 {
        None
    } else if s.last() == c {
        Some(s.len() - 1)
    } else {
        spec_rfind(s.drop_last(), c)
    }
}

fn rfind_char(s: &str, n: usize, c: char) -> (r: Option<usize>)
    requires
        n == s@.len(),
    ensures
        match r {
            Some(k) => spec_rfind(s@, c) == Some(k as int) && k < n,
            None => spec_rfind(s@, c) is None,
        },
{
    let mut i: usize = n;
    proof {
        assert(s@.take(n as int) =~= s@);
    }
    while i > 0
        invariant
            i <= n,
            n == s@.len(),
            spec_rfind(s@, c) == spec_rfind(s@.take(i as int), c),
        decreases i,
    {
        let ch = s.get_char(i - 1);
        proof {
            assert(s@.take(i as int).last() == s@[i - 1]);
            assert(s@.take(i as int).drop_last() =~= s@.take(i - 1));
        }
        if ch == c {
            return Some(i - 1);
        }
        i -= 1;
    }
    proof {
        assert(s@.take(0).len() == 0);
    }
    None
}

/// The final path component of `s`: everything after the last slash.
pub open spec fn spec_file_name(s: Seq<char>) -> Seq<char> {
    match spec_rfind(s, '/') {
        Some(k) => s.subrange(k + 1, s.len() as int),
        None => s,
    }
}

/// The extension of a filename: the part of its final component after
/// the last dot; absent when the component has no dot, or only a
/// leading one.
pub open spec fn spec_extension(s: Seq<char>) -> Option<Seq<char>> {
    let f = spec_file_name(s);
    match spec_rfind(f, '.') {
        None => None,
        Some(k) => {
            if k == 0 {
                None
            } else {
                Some(f.subrange(k + 1, f.len() as int))
            }
        },
    }
}

/// Extension of a filename, as `spec_extension` defines it.
pub fn get_extension_from_filename(filename: &str) -> (r: Option<&str>)
    ensures
        match r {
            Some(e) => spec_extension(filename@) == Some(e@),
            None => spec_extension(filename@) is None,
        },
{
    let n = filename.unicode_len();
    let f_start: usize = match rfind_char(filename, n, '/') {
        Some(k) => k + 1,
        None => 0,
    };
    let f = filename.substring_char(f_start, n);
    proof {
        assert(f@ =~= spec_file_name(filename@));
    }
    let m = f.unicode_len();
    match rfind_char(f, m, '.') {
        None => None,
        Some(k) => {
            if k == 0 {
                None
            } else {
                Some(f.substring_char(k + 1, m))
            }
        },
    }
}

} // verus!
