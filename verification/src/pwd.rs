//! Password-style generation: a string of a requested length drawn from
//! the enabled character classes, with one character of each enabled
//! class picked before the remainder is filled and the whole is shuffled.
//! The symmetric key generator draws its key material here.

use vstd::prelude::*;

use crate::error::TextError;
use crate::rng::rand_below;
use crate::rng::rand_below_u8;
use crate::strutil::push_char;

verus! {

/// Which character classes a generated password draws from, and how long
/// it is.
#[derive(Clone, Copy, Debug)]
pub struct PwdOpts {
    pub length: u8,
    pub uppercase: bool,
    pub lowercase: bool,
    pub numbers: bool,
    pub symbols: bool,
}

/// The symbol class, by code point.
pub const SYMBOL_CHARS: [u8; 26] = [
    33,
    64,
    35,
    36,
    37,
    94,
    38,
    42,
    40,
    41,
    45,
    95,
    61,
    43,
    91,
    93,
    123,
    125,
    124,
    59,
    58,
    44,
    46,
    60,
    62,
    63,
];

/// An upper-case letter, by code point.
pub open spec fn is_upper_code(v: int) -> bool {
    65 <= v <= 90
}

/// A lower-case letter, by code point.
pub open spec fn is_lower_code(v: int) -> bool {
    97 <= v <= 122
}

/// A decimal digit, by code point.
pub open spec fn is_digit_code(v: int) -> bool {
    48 <= v <= 57
}

/// A symbol, by code point.
pub open spec fn is_symbol_code(v: int) -> bool {
    exists|i: int| 0 <= i < 26 && SYMBOL_CHARS@[i] as int == v
}

/// How many character classes are enabled.
pub open spec fn class_count(opts: PwdOpts) -> int {
    (if opts.uppercase {
        1int
    } else {
        0int
    }) + (if opts.lowercase {
        1int
    } else {
        0int
    }) + (if opts.numbers {
        1int
    } else {
        0int
    }) + (if opts.symbols {
        1int
    } else {
        0int
    })
}

/// Whether a code point belongs to one of the enabled classes.
pub open spec fn allowed_code(opts: PwdOpts, v: int) -> bool {
    (opts.uppercase && is_upper_code(v)) || (opts.lowercase && is_lower_code(v)) || (opts.numbers
        && is_digit_code(v)) || (opts.symbols && is_symbol_code(v))
}

/// Push every code point of an inclusive range.
fn push_range(chars: &mut Vec<u8>, lo: u8, hi: u8)
    requires
        lo <= hi,
    ensures
        final(chars)@.len() == old(chars)@.len() + (hi - lo) + 1,
        forall|i: int| 0 <= i < old(chars)@.len() ==> final(chars)@[i] == old(chars)@[i],
        forall|i: int|
            old(chars)@.len() <= i < final(chars)@.len() ==> lo <= #[trigger] final(chars)@[i]
                <= hi,
{
    let ghost orig = chars@;
    let ghost n = chars@.len() as int;
    let mut c: u8 = lo;
    while c < hi
        invariant
            lo <= c <= hi,
            chars@.len() == n + (c - lo),
            orig.len() == n,
            forall|k: int| 0 <= k < n ==> chars@[k] == orig[k],
            forall|k: int| n <= k < chars@.len() ==> lo <= #[trigger] chars@[k] <= hi,
        decreases hi - c,
    {
        chars.push(c);
        c = c + 1;
    }
    chars.push(hi);
}

/// The generated password as raw bytes: exactly `opts.length` of them,
/// each from an enabled class. Fails only when the randomness source
/// does.
pub fn pwd_bytes(opts: &PwdOpts) -> (r: Result<Vec<u8>, TextError>)
    requires
        class_count(*opts) <= opts.length as int,
        opts.length > 0 ==> class_count(*opts) > 0,
    ensures
        r matches Ok(p) ==> p@.len() == opts.length as int && (forall|i: int|
            0 <= i < p@.len() ==> allowed_code(*opts, #[trigger] p@[i] as int)),
        r matches Err(e) ==> e == TextError::RngUnavailable,
{
    let mut chars: Vec<u8> = Vec::new();
    let mut password: Vec<u8> = Vec::new();
    if opts.uppercase {
        push_range(&mut chars, 65, 90);
        let j = rand_below_u8(26)?;
        password.push(65 + j);
    }
    if opts.lowercase {
        push_range(&mut chars, 97, 122);
        let j = rand_below_u8(26)?;
        password.push(97 + j);
    }
    if opts.numbers {
        push_range(&mut chars, 48, 57);
        let j = rand_below_u8(10)?;
        password.push(48 + j);
    }
    if opts.symbols {
        let ghost n = chars@.len() as int;
        let mut i: usize = 0;
        while i < 26
            invariant
                i <= 26,
                0 <= n,
                chars@.len() == n + i,
                forall|k: int| 0 <= k < n ==> allowed_code(*opts, #[trigger] chars@[k] as int),
                forall|k: int|
                    n <= k < chars@.len() ==> is_symbol_code(#[trigger] chars@[k] as int),
            decreases 26 - i,
        {
            let c = SYMBOL_CHARS[i];
            let ghost pre = chars@;
            proof {
                assert(SYMBOL_CHARS@[i as int] as int == c as int);
                assert(is_symbol_code(c as int));
            }
            chars.push(c);
            proof {
                assert(chars@ == pre.push(c));
                assert forall|k: int| n <= k < chars@.len() implies is_symbol_code(
                    #[trigger] chars@[k] as int,
                ) by {
                    if k < pre.len() {
                        assert(pre.push(c)[k] == pre[k]);
                    } else {
                        assert(pre.push(c)[k] == c);
                    }
                }
            }
            i = i + 1;
        }
        let j = rand_below(26)?;
        let c = SYMBOL_CHARS[j];
        proof {
            assert(SYMBOL_CHARS@[j as int] as int == c as int);
            assert(is_symbol_code(c as int));
        }
        password.push(c);
    }
    proof {
        assert(class_count(*opts) > 0 ==> chars@.len() > 0);
        assert(password@.len() <= class_count(*opts));
    }
    while password.len() < opts.length as usize
        invariant
            password@.len() <= opts.length as int,
            opts.length > 0 ==> chars@.len() > 0,
            forall|k: int|
                0 <= k < chars@.len() ==> allowed_code(*opts, #[trigger] chars@[k] as int),
            forall|k: int|
                0 <= k < password@.len() ==> allowed_code(*opts, #[trigger] password@[k] as int),
        decreases opts.length as int - password@.len(),
    {
        let j = rand_below(chars.len())?;
        password.push(chars[j]);
    }
    let mut k = password.len();
    while k > 1
        invariant
            k <= password@.len(),
            password@.len() == opts.length as int,
            forall|i: int|
                0 <= i < password@.len() ==> allowed_code(*opts, #[trigger] password@[i] as int),
        decreases k,
    {
        let j = rand_below(k)?;
        k = k - 1;
        let a = password[k];
        let b = password[j];
        password[k] = b;
        password[j] = a;
    }
    Result::Ok(password)
}

/// The generated password as text. Fails only when the randomness source
/// does.
pub fn process_pwd(opts: &PwdOpts) -> (r: Result<String, TextError>)
    requires
        class_count(*opts) <= opts.length as int,
        opts.length > 0 ==> class_count(*opts) > 0,
    ensures
        r matches Ok(s) ==> s@.len() == opts.length as int && (forall|i: int|
            0 <= i < s@.len() ==> allowed_code(*opts, #[trigger] s@[i] as int)),
        r matches Err(e) ==> e == TextError::RngUnavailable,
{
    let bytes = pwd_bytes(opts)?;
    let mut s = String::new();
    let mut i: usize = 0;
    while i < bytes.len()
        invariant
            i <= bytes@.len(),
            s@.len() == i as int,
            bytes@.len() == opts.length as int,
            forall|k: int|
                0 <= k < bytes@.len() ==> allowed_code(*opts, #[trigger] bytes@[k] as int),
            forall|k: int| 0 <= k < i ==> allowed_code(*opts, #[trigger] s@[k] as int),
        decreases bytes@.len() - i,
    {
        let b = bytes[i];
        let c = b as char;
        proof {
            assert(c as int == b as int);
        }
        push_char(&mut s, c);
        i = i + 1;
    }
    Result::Ok(s)
}

} // verus!
