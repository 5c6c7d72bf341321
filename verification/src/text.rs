//! Character-level building blocks for reading the tool's output: character
//! classes, whitespace skipping, JSON string-body and number lexemes, and
//! conversions between character sequences and `String`s.

use vstd::prelude::*;
use vstd::string::StrSliceExecFns;

verus! {

// --- character classes ---

pub open spec fn is_ws(c: char) -> bool {
    c == ' ' || c == '\t' || c == '\n' || c == '\r'
}

pub open spec fn is_digit(c: char) -> bool {
    48 <= c as u32 <= 57
}

pub open spec fn digit_val(c: char) -> u32
    recommends
        is_digit(c),
{
    (c as u32 - 48) as u32
}

pub open spec fn is_hex_digit(c: char) -> bool {
    is_digit(c) || 97 <= c as u32 <= 102 || 65 <= c as u32 <= 70
}

pub open spec fn hex_val(c: char) -> u32
    recommends
        is_hex_digit(c),
{
    if is_digit(c) {
        (c as u32 - 48) as u32
    } else if 97 <= c as u32 {
        (c as u32 - 87) as u32
    } else {
        (c as u32 - 55) as u32
    }
}

pub fn ws_char(c: char) -> (r: bool)
    ensures
        r == is_ws(c),
{
    c == ' ' || c == '\t' || c == '\n' || c == '\r'
}

pub fn digit_char(c: char) -> (r: bool)
    ensures
        r == is_digit(c),
{
    let u = c as u32;
    48 <= u && u <= 57
}

pub fn hex_digit_char(c: char) -> (r: bool)
    ensures
        r == is_hex_digit(c),
{
    let u = c as u32;
    (48 <= u && u <= 57) || (97 <= u && u <= 102) || (65 <= u && u <= 70)
}

pub fn hex_digit_val(c: char) -> (r: u32)
    requires
        is_hex_digit(c),
    ensures
        r == hex_val(c),
        r <= 15,
{
    let u = c as u32;
    if 48 <= u && u <= 57 {
        u - 48
    } else if 97 <= u {
        u - 87
    } else {
        u - 55
    }
}

// --- whitespace ---

/// The first position at or after `i` that does not hold whitespace.
pub open spec fn sp_ws(s: Seq<char>, i: nat) -> nat
    decreases s.len() - i,
{
    if i < s.len() && is_ws(s[i as int]) {
        sp_ws(s, i + 1)
    } else {
        i
    }
}

pub fn skip_ws(v: &Vec<char>, i: usize) -> (r: usize)
    requires
        i <= v@.len(),
    ensures
        r == sp_ws(v@, i as nat),
        i <= r <= v@.len(),
    decreases v@.len() - i,
{
    if i < v.len() {
        let c = v[i];
        if ws_char(c) {
            return skip_ws(v, i + 1);
        }
    }
    i
}

// --- fixed literals ---

/// Whether the characters of `lit` stand at position `i` of `s`.
pub open spec fn lit_at(s: Seq<char>, i: nat, lit: Seq<char>) -> bool {
    i + lit.len() <= s.len() && s.subrange(i as int, i + lit.len() as int) == lit
}

pub fn match_lit(v: &Vec<char>, i: usize, lit: &str) -> (r: bool)
    requires
        i <= v@.len(),
    ensures
        r == lit_at(v@, i as nat, lit@),
{
    let n = lit.unicode_len();
    let vn = v.len();
    if n > vn - i {
        return false;
    }
    let mut k: usize = 0;
    while k < n
        invariant
            i + n <= vn,
            vn == v@.len(),
            n == lit@.len(),
            k <= n,
            forall|t: int| 0 <= t < k ==> v@[i + t] == lit@[t],
        decreases n - k,
    {
        if v[i + k] != lit.get_char(k) {
            proof {
                assert(v@.subrange(i as int, i + n as int)[k as int] != lit@[k as int]);
            }
            return false;
        }
        k += 1;
    }
    proof {
        assert(v@.subrange(i as int, i + n as int) =~= lit@);
    }
    true
}

// --- JSON string bodies ---

/// The decoded form of a single-character escape, if `e` is one.
pub open spec fn escape_char(e: char) -> Option<char> {
    if e == '"' {
        Some('"')
    } else if e == '\\' {
        Some('\\')
    } else if e == '/' {
        Some('/')
    } else if e == 'b' {
        Some('\u{0008}')
    } else if e == 'f' {
        Some('\u{000C}')
    } else if e == 'n' {
        Some('\n')
    } else if e == 'r' {
        Some('\r')
    } else if e == 't' {
        Some('\t')
    } else {
        None
    }
}

pub fn escape_char_of(e: char) -> (r: Option<char>)
    ensures
        r == escape_char(e),
{
    if e == '"' {
        Some('"')
    } else if e == '\\' {
        Some('\\')
    } else if e == '/' {
        Some('/')
    } else if e == 'b' {
        Some('\u{0008}')
    } else if e == 'f' {
        Some('\u{000C}')
    } else if e == 'n' {
        Some('\n')
    } else if e == 'r' {
        Some('\r')
    } else if e == 't' {
        Some('\t')
    } else {
        None
    }
}

/// Whether four hexadecimal digits stand at position `i` of `s`.
pub open spec fn hex4_at(s: Seq<char>, i: nat) -> bool {
    &&& i + 4 <= s.len()
    &&& is_hex_digit(s[i as int])
    &&& is_hex_digit(s[i as int + 1])
    &&& is_hex_digit(s[i as int + 2])
    &&& is_hex_digit(s[i as int + 3])
}

/// The value of the four hexadecimal digits at position `i` of `s`.
pub open spec fn hex4_val(s: Seq<char>, i: nat) -> u32
    recommends
        hex4_at(s, i),
{
    (hex_val(s[i as int]) * 4096 + hex_val(s[i as int + 1]) * 256 + hex_val(s[i as int + 2]) * 16
        + hex_val(s[i as int + 3])) as u32
}

pub fn hex4_check(v: &Vec<char>, i: usize) -> (r: bool)
    requires
        i <= v@.len(),
    ensures
        r == hex4_at(v@, i as nat),
{
    if v.len() - i < 4 {
        return false;
    }
    hex_digit_char(v[i]) && hex_digit_char(v[i + 1]) && hex_digit_char(v[i + 2])
        && hex_digit_char(v[i + 3])
}

pub fn hex4_value(v: &Vec<char>, i: usize) -> (r: u32)
    requires
        hex4_at(v@, i as nat),
    ensures
        r == hex4_val(v@, i as nat),
        r <= 0xFFFF,
{
    let vn = v.len();
    proof {
        assert(i + 4 <= vn);
    }
    hex_digit_val(v[i]) * 4096 + hex_digit_val(v[i + 1]) * 256 + hex_digit_val(v[i + 2]) * 16
        + hex_digit_val(v[i + 3])
}

/// Relies on `char::from_u32`: returns the character with the given code
/// point, and `None` exactly for surrogate code points and values above
/// `0x10FFFF`, as its documentation states.
pub assume_specification[ char::from_u32 ](v: u32) -> (r: Option<char>)
    ensures
        r is None <==> (0xD800 <= v < 0xE000 || v > 0x10FFFF),
        r matches Some(c) ==> c == v as char && c as u32 == v,
;

/// The decoded content of a JSON string whose opening quote stands just
/// before position `i`, together with the position after the closing quote.
pub open spec fn sp_string_body(s: Seq<char>, i: nat) -> Option<(Seq<char>, nat)>
    decreases s.len() - i,
{
    if i >= s.len() {
        None
    } else {
        let c = s[i as int];
        if c == '"' {
            Some((Seq::<char>::empty(), (i + 1) as nat))
        } else if c == '\\' {
            if i + 2 > s.len() {
                None
            } else {
                let e = s[i as int + 1];
                if e == 'u' {
                    if !hex4_at(s, (i + 2) as nat) {
                        None
                    } else {
                        let hi = hex4_val(s, (i + 2) as nat);
                        if 0xD800 <= hi < 0xDC00 {
                            if i + 12 > s.len() || s[i as int + 6] != '\\' || s[i as int + 7]
                                != 'u' || !hex4_at(s, (i + 8) as nat) {
                                None
                            } else {
                                let lo = hex4_val(s, (i + 8) as nat);
                                if !(0xDC00 <= lo < 0xE000) {
                                    None
                                } else {
                                    let code = (0x10000 + (hi - 0xD800) * 0x400 + (lo
                                        - 0xDC00)) as u32;
                                    match sp_string_body(s, (i + 12) as nat) {
                                        Some((t, j)) => Some((seq![code as char] + t, j)),
                                        None => None,
                                    }
                                }
                            }
                        } else if 0xDC00 <= hi < 0xE000 {
                            None
                        } else {
                            match sp_string_body(s, (i + 6) as nat) {
                                Some((t, j)) => Some((seq![hi as char] + t, j)),
                                None => None,
                            }
                        }
                    }
                } else {
                    match escape_char(e) {
                        Some(d) => match sp_string_body(s, (i + 2) as nat) {
                            Some((t, j)) => Some((seq![d] + t, j)),
                            None => None,
                        },
                        None => None,
                    }
                }
            }
        } else if (c as u32) < 32 {
            None
        } else {
            match sp_string_body(s, (i + 1) as nat) {
                Some((t, j)) => Some((seq![c] + t, j)),
                None => None,
            }
        }
    }
}

pub fn lex_string_body(v: &Vec<char>, i: usize) -> (r: Option<(Vec<char>, usize)>)
    requires
        i <= v@.len(),
    ensures
        (match r {
            Some((t, j)) => sp_string_body(v@, i as nat) == Some((t@, j as nat)) && i < j
                <= v@.len(),
            None => sp_string_body(v@, i as nat) is None,
        }),
    decreases v@.len() - i,
{
    if i >= v.len() {
        return None;
    }
    let c = v[i];
    if c == '"' {
        let t: Vec<char> = Vec::new();
        Some((t, i + 1))
    } else if c == '\\' {
        if v.len() - i < 2 {
            return None;
        }
        let e = v[i + 1];
        if e == 'u' {
            if !hex4_check(v, i + 2) {
                return None;
            }
            let hi = hex4_value(v, i + 2);
            if 0xD800 <= hi && hi < 0xDC00 {
                if v.len() - i < 12 || v[i + 6] != '\\' || v[i + 7] != 'u' || !hex4_check(
                    v,
                    i + 8,
                ) {
                    return None;
                }
                let lo = hex4_value(v, i + 8);
                if !(0xDC00 <= lo && lo < 0xE000) {
                    return None;
                }
                let code: u32 = 0x10000 + (hi - 0xD800) * 0x400 + (lo - 0xDC00);
                match char::from_u32(code) {
                    Some(ch) => match lex_string_body(v, i + 12) {
                        Some((t, j)) => {
                            let mut t2 = t;
                            t2.insert(0, ch);
                            proof {
                                assert(t2@ =~= seq![code as char] + t@);
                            }
                            Some((t2, j))
                        },
                        None => None,
                    },
                    None => {
                        proof {
                            assert(false);
                        }
                        None
                    },
                }
            } else if 0xDC00 <= hi && hi < 0xE000 {
                None
            } else {
                match char::from_u32(hi) {
                    Some(ch) => match lex_string_body(v, i + 6) {
                        Some((t, j)) => {
                            let mut t2 = t;
                            t2.insert(0, ch);
                            proof {
                                assert(t2@ =~= seq![hi as char] + t@);
                            }
                            Some((t2, j))
                        },
                        None => None,
                    },
                    None => {
                        proof {
                            assert(false);
                        }
                        None
                    },
                }
            }
        } else {
            match escape_char_of(e) {
                Some(d) => match lex_string_body(v, i + 2) {
                    Some((t, j)) => {
                        let mut t2 = t;
                        t2.insert(0, d);
                        proof {
                            assert(t2@ =~= seq![d] + t@);
                        }
                        Some((t2, j))
                    },
                    None => None,
                },
                None => None,
            }
        }
    } else if (c as u32) < 32 {
        None
    } else {
        match lex_string_body(v, i + 1) {
            Some((t, j)) => {
                let mut t2 = t;
                t2.insert(0, c);
                proof {
                    assert(t2@ =~= seq![c] + t@);
                }
                Some((t2, j))
            },
            None => None,
        }
    }
}

// --- numbers ---

/// The first position at or after `i` that does not hold a decimal digit.
pub open spec fn sp_digits_end(s: Seq<char>, i: nat) -> nat
    decreases s.len() - i,
{
    if i < s.len() && is_digit(s[i as int]) {
        sp_digits_end(s, i + 1)
    } else {
        i
    }
}

pub fn digits_end(v: &Vec<char>, i: usize) -> (r: usize)
    requires
        i <= v@.len(),
    ensures
        r == sp_digits_end(v@, i as nat),
        i <= r <= v@.len(),
        i < v@.len() && is_digit(v@[i as int]) ==> r >= i + 1,
    decreases v@.len() - i,
{
    if i < v.len() {
        let c = v[i];
        if digit_char(c) {
            return digits_end(v, i + 1);
        }
    }
    i
}

/// The position after the optional fraction part starting at `i`, or `None`
/// when a fraction starts there but is malformed.
pub open spec fn sp_frac_end(s: Seq<char>, i: nat) -> Option<nat> {
    if i < s.len() && s[i as int] == '.' {
        if i + 1 < s.len() && is_digit(s[i as int + 1]) {
            Some(sp_digits_end(s, (i + 1) as nat))
        } else {
            None
        }
    } else {
        Some(i)
    }
}

/// The position after the optional exponent part starting at `i`, or `None`
/// when an exponent starts there but is malformed.
pub open spec fn sp_exp_end(s: Seq<char>, i: nat) -> Option<nat> {
    if i < s.len() && (s[i as int] == 'e' || s[i as int] == 'E') {
        let j: nat = if i + 1 < s.len() && (s[i as int + 1] == '+' || s[i as int + 1] == '-') {
            (i + 2) as nat
        } else {
            (i + 1) as nat
        };
        if j < s.len() && is_digit(s[j as int]) {
            Some(sp_digits_end(s, j))
        } else {
            None
        }
    } else {
        Some(i)
    }
}

/// The lexeme of the JSON number starting at position `i` of `s`, together
/// with the position after it.
pub open spec fn sp_number(s: Seq<char>, i: nat) -> Option<(Seq<char>, nat)> {
    let i1: nat = if i < s.len() && s[i as int] == '-' {
        (i + 1) as nat
    } else {
        i
    };
    if i1 >= s.len() || !is_digit(s[i1 as int]) {
        None
    } else {
        let i2: nat = if s[i1 as int] == '0' {
            (i1 + 1) as nat
        } else {
            sp_digits_end(s, i1)
        };
        match sp_frac_end(s, i2) {
            None => None,
            Some(i3) => match sp_exp_end(s, i3) {
                None => None,
                Some(i4) => Some((s.subrange(i as int, i4 as int), i4)),
            },
        }
    }
}

pub fn copy_range(v: &Vec<char>, from: usize, to: usize) -> (r: Vec<char>)
    requires
        from <= to <= v@.len(),
    ensures
        r@ == v@.subrange(from as int, to as int),
{
    let mut r: Vec<char> = Vec::new();
    proof {
        assert(v@.subrange(from as int, from as int) =~= Seq::<char>::empty());
    }
    let mut k: usize = from;
    while k < to
        invariant
            from <= k <= to <= v@.len(),
            r@ == v@.subrange(from as int, k as int),
        decreases to - k,
    {
        r.push(v[k]);
        proof {
            assert(v@.subrange(from as int, k as int).push(v@[k as int]) =~= v@.subrange(
                from as int,
                k + 1,
            ));
        }
        k += 1;
    }
    r
}

pub fn lex_number(v: &Vec<char>, i: usize) -> (r: Option<(Vec<char>, usize)>)
    requires
        i <= v@.len(),
    ensures
        (match r {
            Some((t, j)) => sp_number(v@, i as nat) == Some((t@, j as nat)) && i < j <= v@.len(),
            None => sp_number(v@, i as nat) is None,
        }),
{
    let i1: usize = if i < v.len() && v[i] == '-' {
        i + 1
    } else {
        i
    };
    if i1 >= v.len() {
        return None;
    }
    let first = v[i1];
    if !digit_char(first) {
        return None;
    }
    let i2: usize = if first == '0' {
        i1 + 1
    } else {
        digits_end(v, i1)
    };
    // fraction part
    let i3: usize = if i2 < v.len() && v[i2] == '.' {
        if i2 + 1 < v.len() && digit_char(v[i2 + 1]) {
            digits_end(v, i2 + 1)
        } else {
            return None;
        }
    } else {
        i2
    };
    // exponent part
    let i4: usize = if i3 < v.len() && (v[i3] == 'e' || v[i3] == 'E') {
        let j: usize = if i3 + 1 < v.len() && (v[i3 + 1] == '+' || v[i3 + 1] == '-') {
            i3 + 2
        } else {
            i3 + 1
        };
        if j < v.len() && digit_char(v[j]) {
            digits_end(v, j)
        } else {
            return None;
        }
    } else {
        i3
    };
    Some((copy_range(v, i, i4), i4))
}

/// The numeric value of a sequence of decimal digits.
pub open spec fn sp_dec_val(s: Seq<char>) -> nat
    decreases s.len(),
{
    if s.len() == 0 {
        0
    } else {
        (sp_dec_val(s.drop_last()) * 10 + digit_val(s.last())) as nat
    }
}

/// The value a lexeme denotes for a non-negative 32-bit count field: defined
/// exactly when the lexeme is all decimal digits and its value fits.
pub open spec fn sp_u32_of(s: Seq<char>) -> Option<u32> {
    if s.len() > 0 && (forall|k: int| 0 <= k < s.len() ==> is_digit(s[k])) && sp_dec_val(s)
        <= u32::MAX {
        Some(sp_dec_val(s) as u32)
    } else {
        None
    }
}

proof fn lemma_dec_val_prefix(s: Seq<char>, n: int)
    requires
        0 <= n <= s.len(),
    ensures
        sp_dec_val(s.take(n)) <= sp_dec_val(s),
    decreases s.len(),
{
    if n < s.len() {
        assert(s.drop_last().take(n) =~= s.take(n));
        lemma_dec_val_prefix(s.drop_last(), n);
    } else {
        assert(s.take(n) =~= s);
    }
}

pub fn u32_of_digits(v: &Vec<char>) -> (r: Option<u32>)
    ensures
        r == sp_u32_of(v@),
{
    let n = v.len();
    if n == 0 {
        return None;
    }
    let mut acc: u64 = 0;
    let mut k: usize = 0;
    proof {
        assert(v@.take(0) =~= Seq::<char>::empty());
    }
    while k < n
        invariant
            0 < n == v@.len(),
            k <= n,
            forall|t: int| 0 <= t < k ==> is_digit(v@[t]),
            acc == sp_dec_val(v@.take(k as int)),
            acc <= u32::MAX,
        decreases n - k,
    {
        let c = v[k];
        if !digit_char(c) {
            return None;
        }
        let d: u32 = (c as u32) - 48;
        acc = acc * 10 + (d as u64);
        proof {
            assert(v@.take(k + 1).drop_last() =~= v@.take(k as int));
            assert(v@.take(k + 1).last() == v@[k as int]);
        }
        if acc > 0xFFFF_FFFF {
            proof {
                lemma_dec_val_prefix(v@, k + 1);
            }
            return None;
        }
        k += 1;
    }
    proof {
        assert(v@.take(n as int) =~= v@);
    }
    Some(acc as u32)
}

// --- strings and character vectors ---

/// Relies on `String::push`: appends exactly the given character.
#[verifier::external_body]
fn push_char(s: &mut String, c: char)
    ensures
        final(s)@ == old(s)@.push(c),
{
    s.push(c);
}

pub fn string_of_chars(v: &Vec<char>) -> (s: String)
    ensures
        s@ == v@,
{
    let mut s = String::new();
    proof {
        assert(v@.take(0) =~= Seq::<char>::empty());
    }
    let mut k: usize = 0;
    while k < v.len()
        invariant
            k <= v@.len(),
            s@ == v@.take(k as int),
        decreases v@.len() - k,
    {
        push_char(&mut s, v[k]);
        proof {
            assert(v@.take(k as int).push(v@[k as int]) =~= v@.take(k + 1));
        }
        k += 1;
    }
    proof {
        assert(v@.take(v@.len() as int) =~= v@);
    }
    s
}

pub fn chars_eq_lit(k: &Vec<char>, lit: &str) -> (r: bool)
    ensures
        r == (k@ == lit@),
{
    let n = lit.unicode_len();
    if n != k.len() {
        return false;
    }
    let mut t: usize = 0;
    while t < n
        invariant
            n == lit@.len() == k@.len(),
            t <= n,
            forall|q: int| 0 <= q < t ==> k@[q] == lit@[q],
        decreases n - t,
    {
        if k[t] != lit.get_char(t) {
            return false;
        }
        t += 1;
    }
    proof {
        assert(k@ =~= lit@);
    }
    true
}

pub fn chars_of_str(s: &str) -> (r: Vec<char>)
    ensures
        r@ == s@,
{
    let n = s.unicode_len();
    let mut r: Vec<char> = Vec::new();
    proof {
        assert(s@.take(0) =~= Seq::<char>::empty());
    }
    let mut k: usize = 0;
    while k < n
        invariant
            n == s@.len(),
            k <= n,
            r@ == s@.take(k as int),
        decreases n - k,
    {
        r.push(s.get_char(k));
        proof {
            assert(s@.take(k as int).push(s@[k as int]) =~= s@.take(k + 1));
        }
        k += 1;
    }
    proof {
        assert(s@.take(n as int) =~= s@);
    }
    r
}

} // verus!
