//! The table of human-readable thread names, keyed by a thread number.
use std::collections::HashMap;
use vstd::prelude::*;
use vstd::string::StringExecFns;

verus! {

/// Thread number to name.
pub struct ThreadNames {
    map: HashMap<u64, String>,
}

impl ThreadNames {
    /// The names as a map from thread number to name.
    pub closed spec fn view(&self) -> Map<u64, Seq<char>> {
        self.map@.map_values(|s: String| s@)
    }

    /// An empty table.
    pub fn new() -> (r: ThreadNames)
        ensures
            r.view() == Map::<u64, Seq<char>>::empty(),
    {
        let r = ThreadNames { map: HashMap::new() };
        assert(r.view() =~= Map::<u64, Seq<char>>::empty());
        r
    }

    /// The name of thread `id`, if it was named.
    pub fn get(&self, id: u64) -> (r: Option<String>)
        ensures
            r is Some <==> self.view().contains_key(id),
            r is Some ==> r.unwrap()@ == self.view()[id],
    {
        broadcast use vstd::std_specs::hash::group_hash_axioms;
        match self.map.get(&id) {
            Some(name) => Some(name.clone()),
            None => None,
        }
    }

    /// Names thread `id`, replacing any earlier name.
    pub fn set(&mut self, id: u64, name: String)
        ensures
            final(self).view() == old(self).view().insert(id, name@),
    {
        broadcast use vstd::std_specs::hash::group_hash_axioms;
        let ghost name_view = name@;
        self.map.insert(id, name);
        assert(self.view() =~= old(self).view().insert(id, name_view));
    }
}

/// The character of a decimal digit.
pub open spec fn digit_char(d: nat) -> char {
    if d == 0 { '0' } else if d == 1 { '1' } else if d == 2 { '2' } else if d == 3 { '3' }
    else if d == 4 { '4' } else if d == 5 { '5' } else if d == 6 { '6' } else if d == 7 { '7' }
    else if d == 8 { '8' } else { '9' }
}

/// Decimal notation of `n`, without leading zeros.
pub open spec fn decimal(n: nat) -> Seq<char>
    decreases n,
{
    if n < 10 {
        seq![digit_char(n)]
    } else {
        decimal(n / 10).push(digit_char(n % 10))
    }
}

/// The label of a thread that was never named: `Thread-` and its number.
pub open spec fn unnamed_label(id: u64) -> Seq<char> {
    seq!['T', 'h', 'r', 'e', 'a', 'd', '-'] + decimal(id as nat)
}

/// The label of thread `id` given the name found for it, if any.
pub open spec fn label_spec(found: Option<String>, id: u64) -> Seq<char> {
    match found {
        Some(n) => n@,
        None => unnamed_label(id),
    }
}

fn digit_str(d: u64) -> (r: &'static str)
    requires
        d < 10,
    ensures
        r@ == seq![digit_char(d as nat)],
{
    proof {
        reveal_strlit("0");
        reveal_strlit("1");
        reveal_strlit("2");
        reveal_strlit("3");
        reveal_strlit("4");
        reveal_strlit("5");
        reveal_strlit("6");
        reveal_strlit("7");
        reveal_strlit("8");
        reveal_strlit("9");
    }
    if d == 0 { "0" } else if d == 1 { "1" } else if d == 2 { "2" } else if d == 3 { "3" }
    else if d == 4 { "4" } else if d == 5 { "5" } else if d == 6 { "6" } else if d == 7 { "7" }
    else if d == 8 { "8" } else { "9" }
}

/// Appends the decimal notation of `n` to `out`.
fn push_decimal(out: &mut String, n: u64)
    ensures
        final(out)@ == old(out)@ + decimal(n as nat),
    decreases n,
{
    if n >= 10 {
        push_decimal(out, n / 10);
    }
    out.append(digit_str(n % 10));
    assert(out@ =~= old(out)@ + decimal(n as nat));
}

/// The label shown for thread `id`: its name if one was found, else
/// `Thread-` and its number.
pub fn label(found: Option<String>, id: u64) -> (r: String)
    ensures
        r@ == label_spec(found, id),
{
    match found {
        Some(n) => n,
        None => {
            proof { reveal_strlit("Thread-"); }
            let mut r = String::from_str("Thread-");
            push_decimal(&mut r, id);
            r
        },
    }
}

} // verus!
