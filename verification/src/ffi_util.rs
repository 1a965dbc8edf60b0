//! Text helpers for messages handed to, and checks made before, the engine.
use vstd::prelude::*;
use vstd::string::StringSliceAdditionalSpecFns;

use crate::error::Error;

verus! {

/// The decimal digit for `d`.
pub open spec fn digit_char(d: nat) -> char {
    if d == 0 {
        '0'
    } else if d == 1 {
        '1'
    } else if d == 2 {
        '2'
    } else if d == 3 {
        '3'
    } else if d == 4 {
        '4'
    } else if d == 5 {
        '5'
    } else if d == 6 {
        '6'
    } else if d == 7 {
        '7'
    } else if d == 8 {
        '8'
    } else {
        '9'
    }
}

/// The decimal text of `n`, without sign or leading zeros.
pub open spec fn decimal(n: nat) -> Seq<char>
    decreases n,
{
    if n < 10 {
        seq![digit_char(n)]
    } else {
        decimal(n / 10) + seq![digit_char(n % 10)]
    }
}

fn digit_str(d: usize) -> (s: &'static str)
    requires
        d < 10,
    ensures
        s@ == seq![digit_char(d as nat)],
{
    if d == 0 {
        proof { reveal_strlit("0"); }
        "0"
    } else if d == 1 {
        proof { reveal_strlit("1"); }
        "1"
    } else if d == 2 {
        proof { reveal_strlit("2"); }
        "2"
    } else if d == 3 {
        proof { reveal_strlit("3"); }
        "3"
    } else if d == 4 {
        proof { reveal_strlit("4"); }
        "4"
    } else if d == 5 {
        proof { reveal_strlit("5"); }
        "5"
    } else if d == 6 {
        proof { reveal_strlit("6"); }
        "6"
    } else if d == 7 {
        proof { reveal_strlit("7"); }
        "7"
    } else if d == 8 {
        proof { reveal_strlit("8"); }
        "8"
    } else {
        proof { reveal_strlit("9"); }
        "9"
    }
}

/// Appends the decimal text of `n` to `s`.
pub fn push_decimal(s: &mut String, n: usize)
    ensures
        final(s)@ == old(s)@ + decimal(n as nat),
    decreases n,
{
    if n >= 10 {
        push_decimal(s, n / 10);
    }
    s.append(digit_str(n % 10));
    assert(decimal(n as nat) == if n < 10 {
        seq![digit_char(n as nat)]
    } else {
        decimal((n / 10) as nat) + seq![digit_char((n % 10) as nat)]
    });
}

/// Where the first zero byte of `b` stands, if it holds one.
pub open spec fn first_nul(b: Seq<u8>) -> Option<int>
    decreases b.len(),
{
    if b.len() == 0 {
        None
    } else if b[0] == 0 {
        Some(0)
    } else {
        match first_nul(b.drop_first()) {
            Some(i) => Some(i + 1),
            None => None,
        }
    }
}

proof fn lemma_first_nul_at(b: Seq<u8>, k: int)
    requires
        0 <= k <= b.len(),
        forall|j: int| 0 <= j < k ==> b[j] != 0,
    ensures
        k < b.len() && b[k] == 0 ==> first_nul(b) == Some(k),
        k == b.len() ==> first_nul(b) == None::<int>,
    decreases k,
{
    if k > 0 {
        assert forall|j: int| 0 <= j < k - 1 implies b.drop_first()[j] != 0 by {
            assert(b.drop_first()[j] == b[j + 1]);
        }
        lemma_first_nul_at(b.drop_first(), k - 1);
    }
}

/// Finds the first zero byte of `b`.
pub fn find_nul(b: &[u8]) -> (r: Option<usize>)
    ensures
        match r {
            Some(i) => first_nul(b@) == Some(i as int),
            None => first_nul(b@) == None::<int>,
        },
{
    let mut i: usize = 0;
    while i < b.len() && b[i] != 0
        invariant
            i <= b@.len(),
            forall|j: int| 0 <= j < i ==> b@[j] != 0,
        decreases b@.len() - i,
    {
        i = i + 1;
    }
    proof {
        lemma_first_nul_at(b@, i as int);
    }
    if i < b.len() {
        Some(i)
    } else {
        None
    }
}

/// The message of a C string conversion that met a zero byte at `pos`.
pub open spec fn nul_error_text(pos: nat) -> Seq<char> {
    "nul byte found in provided data at position: "@ + decimal(pos)
}

/// The message given when a path cannot become a C string.
pub open spec fn cpath_error_text(pos: nat) -> Seq<char> {
    "Failed to convert path to CString: "@ + nul_error_text(pos)
}

/// Checks that a path can be handed to the engine as a C string, and gives
/// back its bytes.
pub fn to_cpath(path: &str) -> (r: Result<Vec<u8>, Error>)
    ensures
        match first_nul(path.spec_bytes()) {
            None => r matches Ok(b) && b@ == path.spec_bytes(),
            Some(pos) => r matches Err(e) && e.view() == cpath_error_text(pos as nat),
        },
{
    let bytes = path.as_bytes();
    match find_nul(bytes) {
        None => Ok(vstd::slice::slice_to_vec(bytes)),
        Some(pos) => {
            let mut m = String::from_str("Failed to convert path to CString: ");
            m.append("nul byte found in provided data at position: ");
            push_decimal(&mut m, pos);
            Err(Error::new(m))
        },
    }
}

/// Builds the message `a ++ b ++ c`.
pub fn concat3(a: &str, b: &str, c: &str) -> (s: String)
    ensures
        s@ == a@ + b@ + c@,
{
    let mut s = String::from_str(a);
    s.append(b);
    s.append(c);
    s
}

} // verus!
