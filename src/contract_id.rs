use vstd::prelude::*;

verus! {

/// Length of the marker `New contract ID: ` that precedes an identifier.
pub const MARKER_LEN: usize = 17;

/// Number of hex digits in a contract identifier.
pub const CONTRACT_ID_LEN: usize = 64;

/// The bytes of `New contract ID: `.
pub open spec fn marker() -> Seq<u8> {
    seq![
        78u8, 101u8, 119u8, 32u8, 99u8, 111u8, 110u8, 116u8, 114u8, 97u8, 99u8, 116u8, 32u8,
        73u8, 68u8, 58u8, 32u8,
    ]
}

/// A lowercase hexadecimal digit: `0`-`9` or `a`-`f`.
pub open spec fn is_lower_hex(b: u8) -> bool {
    (48 <= b && b <= 57) || (97 <= b && b <= 102)
}

/// The marker followed by 64 lowercase hex digits starts at byte `i` of `s`.
pub open spec fn id_at(s: Seq<u8>, i: int) -> bool {
    &&& 0 <= i
    &&& i + MARKER_LEN + CONTRACT_ID_LEN <= s.len()
    &&& s.subrange(i, i + MARKER_LEN) == marker()
    &&& forall|k: int| i + MARKER_LEN <= k < i + MARKER_LEN + CONTRACT_ID_LEN ==> is_lower_hex(#[trigger] s[k])
}

/// The identifier that follows the marker at byte `i`, as text.
pub open spec fn id_text(s: Seq<u8>, i: int) -> Seq<char> {
    s.subrange(i + MARKER_LEN, i + MARKER_LEN + CONTRACT_ID_LEN).map_values(|b: u8| b as char)
}

/// `i` is the first byte at which the marker and an identifier start.
pub open spec fn first_id_at(s: Seq<u8>, i: int) -> bool {
    id_at(s, i) && forall|j: int| 0 <= j < i ==> !id_at(s, j)
}

/// The identifier after the first marker that is followed by 64 lowercase hex
/// digits; `None` where there is none.
pub open spec fn first_id(s: Seq<u8>) -> Option<Seq<char>> {
    if exists|i: int| id_at(s, i) {
        Some(id_text(s, choose|i: int| first_id_at(s, i)))
    } else {
        None
    }
}

pub open spec fn text_view(o: Option<String>) -> Option<Seq<char>> {
    match o {
        Some(v) => Some(v@),
        None => None,
    }
}

fn marker_bytes() -> (r: Vec<u8>)
    ensures
        r@ == marker(),
{
    vec![
        78u8, 101u8, 119u8, 32u8, 99u8, 111u8, 110u8, 116u8, 114u8, 97u8, 99u8, 116u8, 32u8,
        73u8, 68u8, 58u8, 32u8,
    ]
}

fn is_lower_hex_byte(b: u8) -> (r: bool)
    ensures
        r == is_lower_hex(b),
{
    (48 <= b && b <= 57) || (97 <= b && b <= 102)
}

/// Whether the marker and an identifier start at byte `i`.
fn id_starts_at(s: &[u8], pattern: &Vec<u8>, i: usize) -> (r: bool)
    requires
        pattern@ == marker(),
    ensures
        r == id_at(s@, i as int),
{
    if i > s.len() || s.len() - i < MARKER_LEN + CONTRACT_ID_LEN {
        return false;
    }
    let mut k: usize = 0;
    while k < MARKER_LEN
        invariant
            k <= MARKER_LEN,
            i + MARKER_LEN + CONTRACT_ID_LEN <= s@.len(),
            pattern@ == marker(),
            s@.len() == s.len(),
            forall|j: int| 0 <= j < k ==> s@[i + j] == marker()[j],
        decreases MARKER_LEN - k,
    {
        if s[i + k] != pattern[k] {
            return false;
        }
        k = k + 1;
    }
    assert(s@.subrange(i as int, i + MARKER_LEN) =~= marker());
    let mut k: usize = MARKER_LEN;
    while k < MARKER_LEN + CONTRACT_ID_LEN
        invariant
            MARKER_LEN <= k <= MARKER_LEN + CONTRACT_ID_LEN,
            i + MARKER_LEN + CONTRACT_ID_LEN <= s@.len(),
            s@.len() == s.len(),
            forall|j: int| i + MARKER_LEN <= j < i + k ==> is_lower_hex(#[trigger] s@[j]),
        decreases MARKER_LEN + CONTRACT_ID_LEN - k,
    {
        if !is_lower_hex_byte(s[i + k]) {
            return false;
        }
        k = k + 1;
    }
    true
}

/// The one-character text of a lowercase hex digit.
fn hex_digit_text(b: u8) -> (r: &'static str)
    requires
        is_lower_hex(b),
    ensures
        r@ == seq![b as char],
{
    proof {
        reveal_strlit("0");
        reveal_strlit("1");
        reveal_strlit("2");
        reveal_strlit("3");
        reveal_strlit("4");
        reveal_strlit("5");
        reveal_strlit("6");
        reveal_strlit("7");
        reveal_strlit("8");
        reveal_strlit("9");
        reveal_strlit("a");
        reveal_strlit("b");
        reveal_strlit("c");
        reveal_strlit("d");
        reveal_strlit("e");
        reveal_strlit("f");
    }
    match b {
        48u8 => "0",
        49u8 => "1",
        50u8 => "2",
        51u8 => "3",
        52u8 => "4",
        53u8 => "5",
        54u8 => "6",
        55u8 => "7",
        56u8 => "8",
        57u8 => "9",
        97u8 => "a",
        98u8 => "b",
        99u8 => "c",
        100u8 => "d",
        101u8 => "e",
        _ => "f",
    }
}

/// Copies the identifier that follows the marker at byte `i` into a `String`.
fn id_text_at(s: &[u8], i: usize) -> (r: String)
    requires
        id_at(s@, i as int),
    ensures
        r@ == id_text(s@, i as int),
{
    let mut r = String::new();
    let mut k: usize = 0;
    while k < CONTRACT_ID_LEN
        invariant
            k <= CONTRACT_ID_LEN,
            id_at(s@, i as int),
            s@.len() == s.len(),
            r@ == s@.subrange(i + MARKER_LEN, i + MARKER_LEN + k).map_values(|b: u8| b as char),
        decreases CONTRACT_ID_LEN - k,
    {
        let b = s[i + MARKER_LEN + k];
        assert(is_lower_hex(s@[i + MARKER_LEN + k]));
        r.append(hex_digit_text(b));
        k = k + 1;
        assert(r@ =~= s@.subrange(i + MARKER_LEN, i + MARKER_LEN + k).map_values(|b: u8| b as char));
    }
    r
}

/// Finds the contract identifier in the loan tool's output: the 64 lowercase hex
/// digits after the first occurrence of `New contract ID: ` that is followed by
/// such digits. `None` where no occurrence is.
pub fn extract_contract_id(output: &[u8]) -> (r: Option<String>)
    ensures
        text_view(r) == first_id(output@),
{
    let pattern = marker_bytes();
    let mut i: usize = 0;
    while i < output.len()
        invariant
            i <= output@.len(),
            pattern@ == marker(),
            forall|j: int| 0 <= j < i ==> !id_at(output@, j),
        decreases output@.len() - i,
    {
        if id_starts_at(output, &pattern, i) {
            let id = id_text_at(output, i);
            assert(first_id_at(output@, i as int));
            proof {
                let k = choose|k: int| first_id_at(output@, k);
                assert(k == i) by {
                    if k < i {
                        assert(!id_at(output@, k));
                    }
                    if k > i {
                        assert(!id_at(output@, i as int));
                    }
                }
            }
            return Some(id);
        }
        i = i + 1;
    }
    assert forall|j: int| !id_at(output@, j) by {
        if 0 <= j && j >= output@.len() {
            assert(!id_at(output@, j));
        }
    }
    None
}

} // verus!
