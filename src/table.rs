use std::collections::HashMap;
use vstd::prelude::*;
use vstd::string::*;

use crate::action::Action;

verus! {

broadcast use vstd::std_specs::hash::group_hash_axioms;

/// The largest controller id.
pub const MAX_CONTROLLER_ID: u8 = 127;

/// The value of an ASCII digit.
pub open spec fn digit_value(c: char) -> nat {
    (c as int - '0' as int) as nat
}

/// Whether every character of `s` is an ASCII digit.
pub open spec fn all_digits(s: Seq<char>) -> bool {
    forall|i: int| 0 <= i < s.len() ==> '0' <= #[trigger] s[i] <= '9'
}

/// The number that the digits `s` spell in decimal.
pub open spec fn digits_value(s: Seq<char>) -> nat
    decreases s.len(),
{
    if s.len() == 0 {
        0
    } else {
        digits_value(s.drop_last()) * 10 + digit_value(s.last())
    }
}

/// The digits of a key: what follows an optional leading `+`.
pub open spec fn key_digits(s: Seq<char>) -> Seq<char> {
    if s.len() > 0 && s[0] == '+' {
        s.skip(1)
    } else {
        s
    }
}

/// The controller id a configuration key names: an optional `+` and one or
/// more decimal digits whose value is at most 127; `None` for any other key.
pub open spec fn controller_id_of(s: Seq<char>) -> Option<u8> {
    let d = key_digits(s);
    if d.len() > 0 && all_digits(d) && digits_value(d) <= MAX_CONTROLLER_ID {
        Some(digits_value(d) as u8)
    } else {
        None
    }
}

/// Parses a configuration key as a controller id in `0..=127`.
pub fn parse_controller_id(s: &str) -> (r: Option<u8>)
    ensures
        r == controller_id_of(s@),
{
    let n = s.unicode_len();
    let start: usize = if n > 0 && s.get_char(0) == '+' {
        1
    } else {
        0
    };
    let ghost d = key_digits(s@);
    assert(d =~= s@.skip(start as int));
    if start >= n {
        return None;
    }
    // `acc` saturates at 128: any larger value is rejected just the same.
    let mut acc: u32 = 0;
    let mut i: usize = start;
    while i < n
        invariant
            start <= i <= n,
            n == s@.len(),
            d =~= s@.skip(start as int),
            d == key_digits(s@),
            all_digits(s@.subrange(start as int, i as int)),
            acc as nat == if digits_value(s@.subrange(start as int, i as int)) < 128 {
                digits_value(s@.subrange(start as int, i as int))
            } else {
                128
            },
        decreases n - i,
    {
        let c = s.get_char(i);
        let ghost pre = s@.subrange(start as int, i as int);
        let ghost next = s@.subrange(start as int, i + 1);
        if c < '0' || c > '9' {
            assert(d[i - start] == c);
            assert(!all_digits(d));
            return None;
        }
        assert(next.drop_last() =~= pre);
        assert(next.last() == c);
        let dv = (c as u32) - ('0' as u32);
        assert(dv as nat == digit_value(c));
        acc = acc * 10 + dv;
        if acc > 128 {
            acc = 128;
        }
        proof {
            assert(digits_value(next) == digits_value(pre) * 10 + dv);
            if digits_value(pre) >= 128 {
                assert(digits_value(pre) * 10 >= 128) by (nonlinear_arith)
                    requires digits_value(pre) >= 128;
            }
            assert forall|j: int| 0 <= j < next.len() implies '0' <= #[trigger] next[j] <= '9' by {
                if j < pre.len() {
                    assert(next[j] == pre[j]);
                }
            }
        }
        i = i + 1;
    }
    assert(s@.subrange(start as int, n as int) =~= d);
    if acc <= 127 {
        Some(acc as u8)
    } else {
        None
    }
}

/// The table that a list of configuration entries gives: keys that name no
/// controller id are dropped, and of two keys naming the same id the later wins.
pub open spec fn table_of(entries: Seq<(Seq<char>, Action)>) -> Map<u8, Action>
    decreases entries.len(),
{
    if entries.len() == 0 {
        Map::empty()
    } else {
        let prev = table_of(entries.drop_last());
        match controller_id_of(entries.last().0) {
            Some(id) => prev.insert(id, entries.last().1),
            None => prev,
        }
    }
}

/// The keys of configuration entries as character sequences.
pub open spec fn entries_view(entries: Seq<(String, Action)>) -> Seq<(Seq<char>, Action)> {
    entries.map_values(|e: (String, Action)| (e.0@, e.1))
}

/// The codes of the `Key` actions of ids `0..n`, in increasing id order.
pub open spec fn key_codes_below(m: Map<u8, Action>, n: nat) -> Seq<Seq<char>>
    decreases n,
{
    if n == 0 {
        Seq::empty()
    } else {
        let prev = key_codes_below(m, (n - 1) as nat);
        let id = (n - 1) as u8;
        if m.contains_key(id) && m[id] is Key {
            prev.push(m[id]->Key_code@)
        } else {
            prev
        }
    }
}

/// The immutable association from controller id to action.
pub struct MappingTable {
    entries: HashMap<u8, Action>,
}

impl View for MappingTable {
    type V = Map<u8, Action>;

    closed spec fn view(&self) -> Map<u8, Action> {
        self.entries@
    }
}

impl MappingTable {
    /// Every id of the table is a controller id.
    pub open spec fn wf(&self) -> bool {
        forall|id: u8| #[trigger] self@.contains_key(id) ==> id <= MAX_CONTROLLER_ID
    }

    /// A table that maps nothing.
    pub fn new() -> (r: MappingTable)
        ensures
            r@ == Map::<u8, Action>::empty(),
            r.wf(),
    {
        MappingTable { entries: HashMap::new() }
    }

    /// Builds the table from configuration entries (key, action).
    pub fn from_entries(entries: Vec<(String, Action)>) -> (r: MappingTable)
        ensures
            r@ == table_of(entries_view(entries@)),
            r.wf(),
    {
        let ghost all = entries_view(entries@);
        let mut rest = entries;
        let mut built: HashMap<u8, Action> = HashMap::new();
        while rest.len() > 0
            invariant
                table_of(all) == table_of_with(entries_view(rest@), built@),
                forall|id: u8| #[trigger] built@.contains_key(id) ==> id <= MAX_CONTROLLER_ID,
            decreases rest.len(),
        {
            let ghost before = entries_view(rest@);
            let (key, action) = rest.pop().unwrap();
            let ghost after = entries_view(rest@);
            assert(before.drop_last() =~= after);
            let id = parse_controller_id(key.as_str());
            match id {
                Some(id) => {
                    if !built.contains_key(&id) {
                        built.insert(id, action);
                    }
                },
                None => {},
            }
            proof {
                assert(built@ =~= built@);
            }
        }
        assert(entries_view(rest@) =~= Seq::<(Seq<char>, Action)>::empty());
        assert(built@ =~= table_of_with(Seq::<(Seq<char>, Action)>::empty(), built@));
        MappingTable { entries: built }
    }

    /// The action mapped to controller `id`, if any.
    pub fn lookup(&self, id: u8) -> (r: Option<&Action>)
        ensures
            match r {
                Some(a) => self@.contains_key(id) && *a == self@[id],
                None => !self@.contains_key(id),
            },
    {
        self.entries.get(&id)
    }

    /// The number of mapped controllers.
    pub fn len(&self) -> (r: usize)
        ensures
            r == self@.len(),
    {
        self.entries.len()
    }

    /// The key codes of all `Key` actions, in increasing controller id order.
    pub fn key_codes(&self) -> (r: Vec<String>)
        ensures
            r.deep_view() == key_codes_below(self@, 128),
    {
        let mut out: Vec<String> = Vec::new();
        let mut id: u8 = 0;
        while id < 128
            invariant
                id <= 128,
                out.deep_view() == key_codes_below(self@, id as nat),
            decreases 128 - id,
        {
            match self.entries.get(&id) {
                Some(Action::Key { code }) => {
                    out.push(code.clone());
                },
                _ => {},
            }
            assert(out.deep_view() =~= key_codes_below(self@, (id + 1) as nat));
            id = id + 1;
        }
        out
    }
}

/// `table_of(entries)` overlaid with `built`, whose entries take precedence.
pub open spec fn table_of_with(
    entries: Seq<(Seq<char>, Action)>,
    built: Map<u8, Action>,
) -> Map<u8, Action> {
    table_of(entries).union_prefer_right(built)
}

} // verus!
