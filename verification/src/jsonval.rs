//! Reading and skipping single JSON values in the tool's output text.
//!
//! The schema keeps unknown fields tolerated for forward compatibility, so
//! the reader must be able to step over an arbitrary well-formed JSON value
//! without interpreting it. The typed readers for string, boolean and count
//! values live here as well.

use vstd::prelude::*;
use crate::text::{
    sp_ws, sp_string_body, sp_number, sp_u32_of, lit_at, skip_ws, lex_string_body, lex_number,
    u32_of_digits, match_lit,
};

verus! {

/// The position after the JSON value starting at position `i` of `s`, or
/// `None` when no well-formed value starts there. `fuel` bounds the nesting
/// and field count and is given as at least the remaining text length.
pub open spec fn sp_skip_value(s: Seq<char>, i: nat, fuel: nat) -> Option<nat>
    decreases fuel, 0nat,
{
    if fuel == 0 || i >= s.len() {
        None
    } else {
        let c = s[i as int];
        if c == '"' {
            match sp_string_body(s, (i + 1) as nat) {
                Some((t, j)) => Some(j),
                None => None,
            }
        } else if c == 't' {
            if lit_at(s, i, "true"@) {
                Some((i + 4) as nat)
            } else {
                None
            }
        } else if c == 'f' {
            if lit_at(s, i, "false"@) {
                Some((i + 5) as nat)
            } else {
                None
            }
        } else if c == 'n' {
            if lit_at(s, i, "null"@) {
                Some((i + 4) as nat)
            } else {
                None
            }
        } else if c == '[' {
            let i1 = sp_ws(s, (i + 1) as nat);
            if i1 < s.len() && s[i1 as int] == ']' {
                Some((i1 + 1) as nat)
            } else {
                sp_skip_arr_rest(s, i1, (fuel - 1) as nat)
            }
        } else if c == '{' {
            let i1 = sp_ws(s, (i + 1) as nat);
            if i1 < s.len() && s[i1 as int] == '}' {
                Some((i1 + 1) as nat)
            } else {
                sp_skip_obj_rest(s, i1, (fuel - 1) as nat)
            }
        } else {
            match sp_number(s, i) {
                Some((t, j)) => Some(j),
                None => None,
            }
        }
    }
}

/// The position after the remaining elements of a JSON array, starting at
/// the first element, up to and including the closing bracket.
pub open spec fn sp_skip_arr_rest(s: Seq<char>, i: nat, fuel: nat) -> Option<nat>
    decreases fuel, 1nat,
{
    if fuel == 0 {
        None
    } else {
        match sp_skip_value(s, i, fuel) {
            None => None,
            Some(j) => {
                let j1 = sp_ws(s, j);
                if j1 >= s.len() {
                    None
                } else if s[j1 as int] == ']' {
                    Some((j1 + 1) as nat)
                } else if s[j1 as int] == ',' {
                    sp_skip_arr_rest(s, sp_ws(s, (j1 + 1) as nat), (fuel - 1) as nat)
                } else {
                    None
                }
            },
        }
    }
}

/// The position after the remaining members of a JSON object, starting at
/// the first key, up to and including the closing brace.
pub open spec fn sp_skip_obj_rest(s: Seq<char>, i: nat, fuel: nat) -> Option<nat>
    decreases fuel, 1nat,
{
    if fuel == 0 {
        None
    } else if i >= s.len() || s[i as int] != '"' {
        None
    } else {
        match sp_string_body(s, (i + 1) as nat) {
            None => None,
            Some((key, j0)) => {
                let j1 = sp_ws(s, j0);
                if j1 >= s.len() || s[j1 as int] != ':' {
                    None
                } else {
                    match sp_skip_value(s, sp_ws(s, (j1 + 1) as nat), fuel) {
                        None => None,
                        Some(j2) => {
                            let j3 = sp_ws(s, j2);
                            if j3 >= s.len() {
                                None
                            } else if s[j3 as int] == '}' {
                                Some((j3 + 1) as nat)
                            } else if s[j3 as int] == ',' {
                                sp_skip_obj_rest(s, sp_ws(s, (j3 + 1) as nat), (fuel - 1) as nat)
                            } else {
                                None
                            }
                        },
                    }
                }
            },
        }
    }
}

pub fn skip_value(v: &Vec<char>, i: usize, fuel: usize) -> (r: Option<usize>)
    requires
        i <= v@.len(),
        fuel >= v@.len() - i,
    ensures
        (match r {
            Some(p) => sp_skip_value(v@, i as nat, fuel as nat) == Some(p as nat) && i < p
                <= v@.len(),
            None => sp_skip_value(v@, i as nat, fuel as nat) is None,
        }),
    decreases fuel, 0nat,
{
    let vn = v.len();
    if i >= vn {
        return None;
    }
    let c = v[i];
    if c == '"' {
        match lex_string_body(v, i + 1) {
            Some((t, j)) => Some(j),
            None => None,
        }
    } else if c == 't' {
        proof {
            reveal_strlit("true");
        }
        if match_lit(v, i, "true") {
            Some(i + 4)
        } else {
            None
        }
    } else if c == 'f' {
        proof {
            reveal_strlit("false");
        }
        if match_lit(v, i, "false") {
            Some(i + 5)
        } else {
            None
        }
    } else if c == 'n' {
        proof {
            reveal_strlit("null");
        }
        if match_lit(v, i, "null") {
            Some(i + 4)
        } else {
            None
        }
    } else if c == '[' {
        let i1 = skip_ws(v, i + 1);
        if i1 < vn && v[i1] == ']' {
            Some(i1 + 1)
        } else {
            skip_arr_rest(v, i1, fuel - 1)
        }
    } else if c == '{' {
        let i1 = skip_ws(v, i + 1);
        if i1 < vn && v[i1] == '}' {
            Some(i1 + 1)
        } else {
            skip_obj_rest(v, i1, fuel - 1)
        }
    } else {
        match lex_number(v, i) {
            Some((t, j)) => Some(j),
            None => None,
        }
    }
}

pub fn skip_arr_rest(v: &Vec<char>, i: usize, fuel: usize) -> (r: Option<usize>)
    requires
        i <= v@.len(),
        fuel >= v@.len() - i,
    ensures
        (match r {
            Some(p) => sp_skip_arr_rest(v@, i as nat, fuel as nat) == Some(p as nat) && i < p
                <= v@.len(),
            None => sp_skip_arr_rest(v@, i as nat, fuel as nat) is None,
        }),
    decreases fuel, 1nat,
{
    if fuel == 0 {
        return None;
    }
    match skip_value(v, i, fuel) {
        None => None,
        Some(j) => {
            let j1 = skip_ws(v, j);
            if j1 >= v.len() {
                None
            } else if v[j1] == ']' {
                Some(j1 + 1)
            } else if v[j1] == ',' {
                skip_arr_rest(v, skip_ws(v, j1 + 1), fuel - 1)
            } else {
                None
            }
        },
    }
}

pub fn skip_obj_rest(v: &Vec<char>, i: usize, fuel: usize) -> (r: Option<usize>)
    requires
        i <= v@.len(),
        fuel >= v@.len() - i,
    ensures
        (match r {
            Some(p) => sp_skip_obj_rest(v@, i as nat, fuel as nat) == Some(p as nat) && i < p
                <= v@.len(),
            None => sp_skip_obj_rest(v@, i as nat, fuel as nat) is None,
        }),
    decreases fuel, 1nat,
{
    if fuel == 0 {
        return None;
    }
    if i >= v.len() {
        return None;
    }
    if v[i] != '"' {
        return None;
    }
    match lex_string_body(v, i + 1) {
        None => None,
        Some((key, j0)) => {
            let j1 = skip_ws(v, j0);
            if j1 >= v.len() {
                return None;
            }
            if v[j1] != ':' {
                return None;
            }
            match skip_value(v, skip_ws(v, j1 + 1), fuel) {
                None => None,
                Some(j2) => {
                    let j3 = skip_ws(v, j2);
                    if j3 >= v.len() {
                        None
                    } else if v[j3] == '}' {
                        Some(j3 + 1)
                    } else if v[j3] == ',' {
                        skip_obj_rest(v, skip_ws(v, j3 + 1), fuel - 1)
                    } else {
                        None
                    }
                },
            }
        },
    }
}

// --- typed values ---

/// The decoded JSON string starting (with its opening quote) at `i`.
pub open spec fn sp_json_string_at(s: Seq<char>, i: nat) -> Option<(Seq<char>, nat)> {
    if i < s.len() && s[i as int] == '"' {
        sp_string_body(s, (i + 1) as nat)
    } else {
        None
    }
}

pub fn json_string_at(v: &Vec<char>, i: usize) -> (r: Option<(Vec<char>, usize)>)
    requires
        i <= v@.len(),
    ensures
        (match r {
            Some((t, j)) => sp_json_string_at(v@, i as nat) == Some((t@, j as nat)) && i < j
                <= v@.len(),
            None => sp_json_string_at(v@, i as nat) is None,
        }),
{
    if i < v.len() && v[i] == '"' {
        lex_string_body(v, i + 1)
    } else {
        None
    }
}

/// The JSON boolean literal starting at `i`.
pub open spec fn sp_bool_at(s: Seq<char>, i: nat) -> Option<(bool, nat)> {
    if lit_at(s, i, "true"@) {
        Some((true, (i + 4) as nat))
    } else if lit_at(s, i, "false"@) {
        Some((false, (i + 5) as nat))
    } else {
        None
    }
}

pub fn json_bool_at(v: &Vec<char>, i: usize) -> (r: Option<(bool, usize)>)
    requires
        i <= v@.len(),
    ensures
        (match r {
            Some((b, j)) => sp_bool_at(v@, i as nat) == Some((b, j as nat)) && i < j <= v@.len(),
            None => sp_bool_at(v@, i as nat) is None,
        }),
{
    let _vn = v.len();
    proof {
        reveal_strlit("true");
        reveal_strlit("false");
    }
    if match_lit(v, i, "true") {
        Some((true, i + 4))
    } else if match_lit(v, i, "false") {
        Some((false, i + 5))
    } else {
        None
    }
}

/// The non-negative 32-bit count denoted by the JSON number starting at `i`:
/// defined exactly when a number starts there, is all decimal digits, and
/// its value fits in 32 bits.
pub open spec fn sp_u32_at(s: Seq<char>, i: nat) -> Option<(u32, nat)> {
    match sp_number(s, i) {
        Some((lex, j)) => match sp_u32_of(lex) {
            Some(u) => Some((u, j)),
            None => None,
        },
        None => None,
    }
}

pub fn json_u32_at(v: &Vec<char>, i: usize) -> (r: Option<(u32, usize)>)
    requires
        i <= v@.len(),
    ensures
        (match r {
            Some((u, j)) => sp_u32_at(v@, i as nat) == Some((u, j as nat)) && i < j <= v@.len(),
            None => sp_u32_at(v@, i as nat) is None,
        }),
{
    match lex_number(v, i) {
        Some((lex, j)) => match u32_of_digits(&lex) {
            Some(u) => Some((u, j)),
            None => None,
        },
        None => None,
    }
}

/// An optional string value: JSON `null` stands for an absent value.
pub open spec fn sp_opt_string_at(s: Seq<char>, i: nat) -> Option<(Option<Seq<char>>, nat)> {
    if lit_at(s, i, "null"@) {
        Some((None, (i + 4) as nat))
    } else {
        match sp_json_string_at(s, i) {
            Some((t, j)) => Some((Some(t), j)),
            None => None,
        }
    }
}

pub fn json_opt_string_at(v: &Vec<char>, i: usize) -> (r: Option<(Option<Vec<char>>, usize)>)
    requires
        i <= v@.len(),
    ensures
        (match r {
            Some((t, j)) => ({
                &&& sp_opt_string_at(v@, i as nat) matches Some((tv, jv))
                &&& jv == j as nat
                &&& (match t {
                    Some(tc) => tv == Some(tc@),
                    None => tv is None,
                })
                &&& i < j <= v@.len()
            }),
            None => sp_opt_string_at(v@, i as nat) is None,
        }),
{
    let _vn = v.len();
    proof {
        reveal_strlit("null");
    }
    if match_lit(v, i, "null") {
        Some((None, i + 4))
    } else {
        match json_string_at(v, i) {
            Some((t, j)) => Some((Some(t), j)),
            None => None,
        }
    }
}

/// An optional count value: JSON `null` stands for an absent value.
pub open spec fn sp_opt_u32_at(s: Seq<char>, i: nat) -> Option<(Option<u32>, nat)> {
    if lit_at(s, i, "null"@) {
        Some((None, (i + 4) as nat))
    } else {
        match sp_u32_at(s, i) {
            Some((u, j)) => Some((Some(u), j)),
            None => None,
        }
    }
}

pub fn json_opt_u32_at(v: &Vec<char>, i: usize) -> (r: Option<(Option<u32>, usize)>)
    requires
        i <= v@.len(),
    ensures
        (match r {
            Some((u, j)) => sp_opt_u32_at(v@, i as nat) == Some((u, j as nat)) && i < j
                <= v@.len(),
            None => sp_opt_u32_at(v@, i as nat) is None,
        }),
{
    let _vn = v.len();
    proof {
        reveal_strlit("null");
    }
    if match_lit(v, i, "null") {
        Some((None, i + 4))
    } else {
        match json_u32_at(v, i) {
            Some((u, j)) => Some((Some(u), j)),
            None => None,
        }
    }
}

} // verus!
