use vstd::prelude::*;
use vstd::string::*;

verus! {

/// Whether `n` occurs in `h` at position `i`.
pub open spec fn occurs_at(h: Seq<char>, n: Seq<char>, i: int) -> bool {
    0 <= i && i + n.len() <= h.len() && h.subrange(i, i + n.len()) == n
}

/// Whether `n` occurs anywhere in `h`.
pub open spec fn has_substring(h: Seq<char>, n: Seq<char>) -> bool {
    exists|i: int| occurs_at(h, n, i)
}

/// Whether `needle` occurs in `hay` (an empty needle occurs everywhere).
pub fn contains_text(hay: &str, needle: &str) -> (r: bool)
    ensures
        r == has_substring(hay@, needle@),
{
    let hl = hay.unicode_len();
    let nl = needle.unicode_len();
    if nl > hl {
        assert(!has_substring(hay@, needle@));
        return false;
    }
    let mut i: usize = 0;
    while i <= hl - nl
        invariant
            hl == hay@.len(),
            nl == needle@.len(),
            nl <= hl,
            i <= hl - nl + 1,
            forall|k: int| 0 <= k < i ==> !#[trigger] occurs_at(hay@, needle@, k),
        decreases hl - nl + 1 - i,
    {
        let mut j: usize = 0;
        let mut same = true;
        while j < nl
            invariant
                hl == hay@.len(),
                nl == needle@.len(),
                i + nl <= hl,
                j <= nl,
                same == forall|k: int| 0 <= k < j ==> hay@[i + k] == needle@[k],
            decreases nl - j,
        {
            if hay.get_char(i + j) != needle.get_char(j) {
                same = false;
            }
            j = j + 1;
        }
        if same {
            assert(hay@.subrange(i as int, i + nl) =~= needle@);
            assert(occurs_at(hay@, needle@, i as int));
            return true;
        }
        assert(!(hay@.subrange(i as int, i + nl) =~= needle@));
        i = i + 1;
    }
    assert forall|k: int| !#[trigger] occurs_at(hay@, needle@, k) by {
        if 0 <= k < i {
        }
    }
    false
}

/// Picks the port to listen on: the first whose name contains `device_name`.
pub fn find_port(port_names: &Vec<String>, device_name: &str) -> (r: Option<usize>)
    ensures
        match r {
            Some(i) => i < port_names@.len() && has_substring(port_names@[i as int]@, device_name@)
                && forall|k: int|
                0 <= k < i ==> !has_substring(#[trigger] port_names@[k]@, device_name@),
            None => forall|k: int|
                0 <= k < port_names@.len() ==> !has_substring(
                    #[trigger] port_names@[k]@,
                    device_name@,
                ),
        },
{
    let mut i: usize = 0;
    while i < port_names.len()
        invariant
            i <= port_names@.len(),
            forall|k: int| 0 <= k < i ==> !has_substring(#[trigger] port_names@[k]@, device_name@),
        decreases port_names@.len() - i,
    {
        if contains_text(port_names[i].as_str(), device_name) {
            return Some(i);
        }
        i = i + 1;
    }
    None
}

} // verus!
