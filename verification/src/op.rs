//! The four arithmetic operations and their textual aliases.
//!
//! An operation may be written as a full word or as its symbol, in any
//! ASCII case: `add`/`+`, `sub`/`-`, `mul`/`*`, `div`/`/`. The canonical
//! mapping from alias to operation is stated once, as the spec function
//! [`op_of`], and both input validation and dispatch are proved against it,
//! so the accepted-alias list and the dispatch table cannot drift apart.

use vstd::prelude::*;
use vstd::string::StrSliceExecFns;

verus! {

/// The canonical arithmetic operation, to which every alias maps.
#[derive(Clone, Copy, Debug, PartialEq, Eq, Structural)]
pub enum Op {
    Add,
    Sub,
    Mul,
    Div,
}

/// ASCII case folding of one character's code point: the code points of
/// `A` through `Z` (65 through 90) map to the corresponding lower-case
/// letter, every other character is left as it is.
pub open spec fn lower_code(c: char) -> u32 {
    if 65 <= c as u32 <= 90 {
        (c as u32 + 32) as u32
    } else {
        c as u32
    }
}

/// The canonical mapping from alias to operation: `Some` exactly on the
/// eight accepted aliases — the words `add`, `sub`, `mul`, `div` in any
/// ASCII case, and the symbols `+`, `-`, `*`, `/` — and `None` on every
/// other token.
pub open spec fn op_of(s: Seq<char>) -> Option<Op> {
    if s.len() == 1 {
        let c = lower_code(s[0]);
        if c == '+' as u32 {
            Some(Op::Add)
        } else if c == '-' as u32 {
            Some(Op::Sub)
        } else if c == '*' as u32 {
            Some(Op::Mul)
        } else if c == '/' as u32 {
            Some(Op::Div)
        } else {
            None
        }
    } else if s.len() == 3 {
        let c0 = lower_code(s[0]);
        let c1 = lower_code(s[1]);
        let c2 = lower_code(s[2]);
        if c0 == 'a' as u32 && c1 == 'd' as u32 && c2 == 'd' as u32 {
            Some(Op::Add)
        } else if c0 == 's' as u32 && c1 == 'u' as u32 && c2 == 'b' as u32 {
            Some(Op::Sub)
        } else if c0 == 'm' as u32 && c1 == 'u' as u32 && c2 == 'l' as u32 {
            Some(Op::Mul)
        } else if c0 == 'd' as u32 && c1 == 'i' as u32 && c2 == 'v' as u32 {
            Some(Op::Div)
        } else {
            None
        }
    } else {
        None
    }
}

/// ASCII case folding of one character, as executable code.
fn fold_char(c: char) -> (r: u32)
    ensures
        r == lower_code(c),
{
    let u = c as u32;
    if 65 <= u && u <= 90 {
        u + 32
    } else {
        u
    }
}

/// Recognises an operation alias, case-insensitively: returns the
/// operation it names, or `None` for any token that is not an alias.
pub fn parse_op(token: &str) -> (r: Option<Op>)
    ensures
        r == op_of(token@),
{
    let n = token.unicode_len();
    if n == 1 {
        let l0 = fold_char(token.get_char(0));
        if l0 == '+' as u32 {
            Some(Op::Add)
        } else if l0 == '-' as u32 {
            Some(Op::Sub)
        } else if l0 == '*' as u32 {
            Some(Op::Mul)
        } else if l0 == '/' as u32 {
            Some(Op::Div)
        } else {
            None
        }
    } else if n == 3 {
        let l0 = fold_char(token.get_char(0));
        let l1 = fold_char(token.get_char(1));
        let l2 = fold_char(token.get_char(2));
        if l0 == 'a' as u32 && l1 == 'd' as u32 && l2 == 'd' as u32 {
            Some(Op::Add)
        } else if l0 == 's' as u32 && l1 == 'u' as u32 && l2 == 'b' as u32 {
            Some(Op::Sub)
        } else if l0 == 'm' as u32 && l1 == 'u' as u32 && l2 == 'l' as u32 {
            Some(Op::Mul)
        } else if l0 == 'd' as u32 && l1 == 'i' as u32 && l2 == 'v' as u32 {
            Some(Op::Div)
        } else {
            None
        }
    } else {
        None
    }
}

/// Case insensitivity: two tokens that agree character by character after
/// ASCII case folding name the same operation — or both name none.
pub proof fn lemma_case_insensitive(s: Seq<char>, t: Seq<char>)
    requires
        s.len() == t.len(),
        forall|i: int| 0 <= i < s.len() ==> #[trigger] lower_code(s[i]) == lower_code(t[i]),
    ensures
        op_of(s) == op_of(t),
{
    if s.len() == 1 {
        assert(lower_code(s[0]) == lower_code(t[0]));
    } else if s.len() == 3 {
        assert(lower_code(s[0]) == lower_code(t[0]));
        assert(lower_code(s[1]) == lower_code(t[1]));
        assert(lower_code(s[2]) == lower_code(t[2]));
    }
}

} // verus!
