use vstd::prelude::*;

verus! {

/// The character with an ASCII upper-case letter folded to lower case;
/// every other character is left alone.
pub open spec fn ascii_lower(c: char) -> char {
    if 65 <= c as u32 && c as u32 <= 90 {
        (((c as u32) + 32) as u8) as char
    } else {
        c
    }
}

/// The sequence with every ASCII upper-case letter folded to lower case.
pub open spec fn lower_seq(s: Seq<char>) -> Seq<char> {
    s.map_values(|c: char| ascii_lower(c))
}

/// The boolean a wire flag encodes: `true` and `1` (in any letter case)
/// mean true; everything else, the empty string included, means false.
pub open spec fn spec_bool_flag(s: Seq<char>) -> bool {
    lower_seq(s) == "true"@ || lower_seq(s) == "1"@
}

fn ascii_lower_char(c: char) -> (r: char)
    ensures
        r == ascii_lower(c),
{
    let code = c as u32;
    if 65 <= code && code <= 90 {
        ((code + 32) as u8) as char
    } else {
        c
    }
}

fn eq_ascii_lower(s: &str, target: &str) -> (r: bool)
    ensures
        r == (lower_seq(s@) == target@),
{
    let n = s.unicode_len();
    let m = target.unicode_len();
    if n != m {
        proof {
            assert(lower_seq(s@).len() == s@.len());
        }
        return false;
    }
    let mut i: usize = 0;
    while i < n
        invariant
            i <= n,
            n == s@.len(),
            n == target@.len(),
            forall|k: int| 0 <= k < i ==> ascii_lower(s@[k]) == target@[k],
        decreases n - i,
    {
        if ascii_lower_char(s.get_char(i)) != target.get_char(i) {
            proof {
                assert(lower_seq(s@)[i as int] != target@[i as int]);
            }
            return false;
        }
        i = i + 1;
    }
    proof {
        assert(lower_seq(s@) =~= target@);
    }
    true
}

/// Read a wire flag that servers send as text: `true` and `1` count as
/// true whatever their letter case; every other text, the empty string
/// included, counts as false.
pub fn parse_bool_flag(s: &str) -> (r: bool)
    ensures
        r == spec_bool_flag(s@),
{
    if eq_ascii_lower(s, "true") {
        true
    } else {
        eq_ascii_lower(s, "1")
    }
}

/// Arbitrary external key/value data attached to an employee.
#[derive(Debug, Clone)]
pub struct PublicExternalData {
    pub entries: Vec<KeyValueEntry>,
}

/// One entry of external data.
#[derive(Debug, Clone)]
pub struct KeyValueEntry {
    pub key: String,
    pub value: Option<String>,
}

} // verus!
