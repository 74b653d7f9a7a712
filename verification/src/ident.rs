//! Identifier validation.
//!
//! Table and column names are spliced into statement text verbatim, because a
//! bind parameter cannot stand for an identifier. Only names accepted here may
//! be spliced.

use vstd::prelude::*;
use vstd::string::*;

verus! {

/// A character that may open an identifier: an ASCII letter or an underscore.
pub open spec fn is_ident_start(c: char) -> bool {
    ('A' <= c && c <= 'Z') || ('a' <= c && c <= 'z') || c == '_'
}

/// A character that may follow the first one: an ASCII letter, an ASCII digit
/// or an underscore.
pub open spec fn is_ident_continue(c: char) -> bool {
    is_ident_start(c) || ('0' <= c && c <= '9')
}

/// The identifier grammar `^[A-Za-z_][A-Za-z0-9_]*$`: non-empty, opened by a
/// letter or underscore, continued by letters, digits and underscores.
pub open spec fn valid_ident(s: Seq<char>) -> bool {
    &&& s.len() > 0
    &&& is_ident_start(s[0])
    &&& forall|i: int| 1 <= i < s.len() ==> is_ident_continue(#[trigger] s[i])
}

fn is_start_byte(b: u8) -> (ok: bool)
    ensures
        ok == (b < 128 && is_ident_start(b as char)),
{
    (65 <= b && b <= 90) || (97 <= b && b <= 122) || b == 95
}

fn is_continue_byte(b: u8) -> (ok: bool)
    ensures
        ok == (b < 128 && is_ident_continue(b as char)),
{
    is_start_byte(b) || (48 <= b && b <= 57)
}

/// Decides whether `s` is safe to splice into statement text as a table or
/// column name.
pub fn is_valid_ident(s: &str) -> (ok: bool)
    ensures
        ok == valid_ident(s@),
{
    if !s.is_ascii() {
        proof {
            let i = choose|i: int| 0 <= i < s@.len() && !('\0' <= #[trigger] s@[i] <= '\u{7f}');
            assert(!is_ident_continue(s@[i]));
            assert(!is_ident_start(s@[i]));
        }
        return false;
    }
    let bytes = s.as_bytes();
    proof {
        is_ascii_spec_bytes(s);
    }
    let n: usize = bytes.len();
    if n == 0 {
        return false;
    }
    assert(bytes@[0] == s@[0] as u8);
    if !is_start_byte(bytes[0]) {
        return false;
    }
    let mut i: usize = 1;
    while i < n
        invariant
            1 <= i <= n,
            n == s@.len(),
            n == bytes@.len(),
            is_ascii(s),
            bytes@ =~= Seq::new(s@.len(), |k: int| s@[k] as u8),
            forall|j: int| 1 <= j < i ==> is_ident_continue(#[trigger] s@[j]),
        decreases n - i,
    {
        assert(bytes@[i as int] == s@[i as int] as u8);
        assert('\0' <= s@[i as int] <= '\u{7f}');
        if !is_continue_byte(bytes[i]) {
            return false;
        }
        i += 1;
    }
    true
}

} // verus!
