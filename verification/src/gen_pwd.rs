//! Random password generation: the key-material source of the Blake3 scheme
//! and a command of its own. The character choices come from the `rand`
//! crate; everything around them is verified.

use vstd::prelude::*;
use rand::seq::SliceRandom;

use crate::error::Error;

verus! {

pub open spec fn is_upper_byte(b: int) -> bool {
    65 <= b <= 90
}

pub open spec fn is_lower_byte(b: int) -> bool {
    97 <= b <= 122
}

pub open spec fn is_number_byte(b: int) -> bool {
    48 <= b <= 57
}

/// One of the nine password symbols `!@#$%^&*_`.
pub open spec fn is_symbol_byte(b: int) -> bool {
    b == 33 || b == 64 || b == 35 || b == 36 || b == 37 || b == 94 || b == 38 || b == 42 || b == 95
}

/// A byte one of the enabled character classes admits.
pub open spec fn allowed_pwd_byte(
    b: int,
    no_upper: bool,
    lower: bool,
    number: bool,
    symbol: bool,
) -> bool {
    ||| (!no_upper && is_upper_byte(b))
    ||| (lower && is_lower_byte(b))
    ||| (number && is_number_byte(b))
    ||| (symbol && is_symbol_byte(b))
}

/// How many classes take part: one byte of each is guaranteed.
pub open spec fn enabled_class_count(
    no_upper: bool,
    lower: bool,
    number: bool,
    symbol: bool,
) -> int {
    (if no_upper { 0int } else { 1int }) + (if lower { 1int } else { 0int })
        + (if number { 1int } else { 0int }) + (if symbol { 1int } else { 0int })
}

/// The consecutive bytes from `lo` to `hi`.
fn byte_range(lo: u8, hi: u8) -> (r: Vec<u8>)
    requires
        lo <= hi < 255,
    ensures
        r@.len() == hi - lo + 1,
        forall|i: int| 0 <= i < r@.len() ==> r@[i] == lo + i,
{
    let mut v: Vec<u8> = Vec::new();
    let mut b: u8 = lo;
    while b <= hi
        invariant
            lo <= hi < 255,
            lo <= b <= hi + 1,
            v@.len() == b - lo,
            forall|i: int| 0 <= i < v@.len() ==> v@[i] == lo + i,
        decreases hi + 1 - b,
    {
        v.push(b);
        b = b + 1;
    }
    v
}

/// The nine password symbols, as bytes.
fn symbol_bytes() -> (r: Vec<u8>)
    ensures
        r@.len() == 9,
        forall|i: int| 0 <= i < r@.len() ==> is_symbol_byte((#[trigger] r@[i]) as int),
{
    let mut v: Vec<u8> = Vec::new();
    v.push(33); // !
    v.push(64); // @
    v.push(35); // #
    v.push(36); // $
    v.push(37); // %
    v.push(94); // ^
    v.push(38); // &
    v.push(42); // *
    v.push(95); // _
    v
}

/// Relies on rand's `SliceRandom::choose`: on a non-empty slice it returns
/// `Some` of one of the slice's elements.
#[verifier::external_body]
fn choose_byte(chars: &Vec<u8>) -> (r: u8)
    requires
        chars@.len() > 0,
    ensures
        chars@.contains(r),
{
    *chars.as_slice().choose(&mut rand::thread_rng()).unwrap()
}

/// Relies on rand's `SliceRandom::shuffle`: a Fisher-Yates pass of swaps,
/// so the slice afterwards holds the same bytes, reordered.
#[verifier::external_body]
fn shuffle_bytes(v: &mut Vec<u8>)
    ensures
        final(v)@.len() == old(v)@.len(),
        final(v)@.to_multiset() == old(v)@.to_multiset(),
{
    v.as_mut_slice().shuffle(&mut rand::thread_rng());
}

/// Relies on `String::from_utf8`: bytes below 128 are valid UTF-8 and decode
/// one byte to one character.
#[verifier::external_body]
fn ascii_bytes_to_string(v: Vec<u8>) -> (r: String)
    requires
        forall|i: int| 0 <= i < v@.len() ==> v@[i] < 128,
    ensures
        r@.len() == v@.len(),
        forall|i: int| 0 <= i < r@.len() ==> (#[trigger] r@[i]) as int == v@[i] as int,
{
    String::from_utf8(v).unwrap()
}

/// What the returned password looks like: every character comes from an
/// enabled class, and every enabled class put in at least one character.
pub open spec fn pwd_chars_ok(
    s: Seq<char>,
    no_upper: bool,
    lower: bool,
    number: bool,
    symbol: bool,
) -> bool {
    &&& forall|i: int|
        0 <= i < s.len() ==> allowed_pwd_byte(
            (#[trigger] s[i]) as int,
            no_upper,
            lower,
            number,
            symbol,
        )
    &&& !no_upper ==> exists|i: int| 0 <= i < s.len() && is_upper_byte((#[trigger] s[i]) as int)
    &&& lower ==> exists|i: int| 0 <= i < s.len() && is_lower_byte((#[trigger] s[i]) as int)
    &&& number ==> exists|i: int| 0 <= i < s.len() && is_number_byte((#[trigger] s[i]) as int)
    &&& symbol ==> exists|i: int| 0 <= i < s.len() && is_symbol_byte((#[trigger] s[i]) as int)
}

/// A class byte already present in a sequence is still present in any
/// extension that keeps the old elements in place.
proof fn lemma_classes_persist(a: Seq<u8>, b: Seq<u8>)
    requires
        a.len() <= b.len(),
        forall|i: int| 0 <= i < a.len() ==> b[i] == a[i],
    ensures
        (exists|i: int| 0 <= i < a.len() && is_upper_byte((#[trigger] a[i]) as int)) ==> (exists|
            i: int,
        | 0 <= i < b.len() && is_upper_byte((#[trigger] b[i]) as int)),
        (exists|i: int| 0 <= i < a.len() && is_lower_byte((#[trigger] a[i]) as int)) ==> (exists|
            i: int,
        | 0 <= i < b.len() && is_lower_byte((#[trigger] b[i]) as int)),
        (exists|i: int| 0 <= i < a.len() && is_number_byte((#[trigger] a[i]) as int)) ==> (exists|
            i: int,
        | 0 <= i < b.len() && is_number_byte((#[trigger] b[i]) as int)),
        (exists|i: int| 0 <= i < a.len() && is_symbol_byte((#[trigger] a[i]) as int)) ==> (exists|
            i: int,
        | 0 <= i < b.len() && is_symbol_byte((#[trigger] b[i]) as int)),
{
    if exists|i: int| 0 <= i < a.len() && is_upper_byte((#[trigger] a[i]) as int) {
        let i = choose|i: int| 0 <= i < a.len() && is_upper_byte((#[trigger] a[i]) as int);
        assert(0 <= i < b.len() && is_upper_byte(b[i] as int));
    }
    if exists|i: int| 0 <= i < a.len() && is_lower_byte((#[trigger] a[i]) as int) {
        let i = choose|i: int| 0 <= i < a.len() && is_lower_byte((#[trigger] a[i]) as int);
        assert(0 <= i < b.len() && is_lower_byte(b[i] as int));
    }
    if exists|i: int| 0 <= i < a.len() && is_number_byte((#[trigger] a[i]) as int) {
        let i = choose|i: int| 0 <= i < a.len() && is_number_byte((#[trigger] a[i]) as int);
        assert(0 <= i < b.len() && is_number_byte(b[i] as int));
    }
    if exists|i: int| 0 <= i < a.len() && is_symbol_byte((#[trigger] a[i]) as int) {
        let i = choose|i: int| 0 <= i < a.len() && is_symbol_byte((#[trigger] a[i]) as int);
        assert(0 <= i < b.len() && is_symbol_byte(b[i] as int));
    }
}

/// Generates a random password of exactly `length` characters drawn from the
/// enabled classes, with at least one character of each enabled class. At
/// least one class must be enabled, and `length` must leave room for the
/// guaranteed character of each.
pub fn process_genpwd(
    length: u8,
    no_upper: bool,
    lower: bool,
    number: bool,
    symbol: bool,
) -> (r: Result<String, Error>)
    requires
        !no_upper || lower || number || symbol,
        enabled_class_count(no_upper, lower, number, symbol) <= length as int,
    ensures
        r is Ok,
        r matches Ok(p) ==> p@.len() == length as int && pwd_chars_ok(
            p@,
            no_upper,
            lower,
            number,
            symbol,
        ),
{
    let mut chars: Vec<u8> = Vec::new();
    let mut password: Vec<u8> = Vec::new();

    if !no_upper {
        let mut cs = byte_range(65, 90);
        let c = choose_byte(&cs);
        proof {
            let j = choose|j: int| 0 <= j < cs@.len() && cs@[j] == c;
            assert(is_upper_byte(c as int));
        }
        password.push(c);
        proof {
            assert(password@[password@.len() - 1] == c);
            assert(exists|i: int|
                0 <= i < password@.len() && is_upper_byte((#[trigger] password@[i]) as int));
        }
        chars.append(&mut cs);
    }
    if lower {
        let ghost before = password@;
        let mut cs = byte_range(97, 122);
        let c = choose_byte(&cs);
        proof {
            let j = choose|j: int| 0 <= j < cs@.len() && cs@[j] == c;
            assert(is_lower_byte(c as int));
        }
        password.push(c);
        proof {
            assert(password@[password@.len() - 1] == c);
            assert(exists|i: int|
                0 <= i < password@.len() && is_lower_byte((#[trigger] password@[i]) as int));
            lemma_classes_persist(before, password@);
        }
        chars.append(&mut cs);
    }
    if number {
        let ghost before = password@;
        let mut cs = byte_range(48, 57);
        let c = choose_byte(&cs);
        proof {
            let j = choose|j: int| 0 <= j < cs@.len() && cs@[j] == c;
            assert(is_number_byte(c as int));
        }
        password.push(c);
        proof {
            assert(password@[password@.len() - 1] == c);
            assert(exists|i: int|
                0 <= i < password@.len() && is_number_byte((#[trigger] password@[i]) as int));
            lemma_classes_persist(before, password@);
        }
        chars.append(&mut cs);
    }
    if symbol {
        let ghost before = password@;
        let mut cs = symbol_bytes();
        let c = choose_byte(&cs);
        proof {
            let j = choose|j: int| 0 <= j < cs@.len() && cs@[j] == c;
            assert(is_symbol_byte(c as int));
        }
        password.push(c);
        proof {
            assert(password@[password@.len() - 1] == c);
            assert(exists|i: int|
                0 <= i < password@.len() && is_symbol_byte((#[trigger] password@[i]) as int));
            lemma_classes_persist(before, password@);
        }
        chars.append(&mut cs);
    }

    while password.len() < length as usize
        invariant
            chars@.len() > 0,
            password@.len() <= length as int,
            forall|i: int|
                0 <= i < chars@.len() ==> allowed_pwd_byte(
                    (#[trigger] chars@[i]) as int,
                    no_upper,
                    lower,
                    number,
                    symbol,
                ),
            forall|i: int|
                0 <= i < password@.len() ==> allowed_pwd_byte(
                    (#[trigger] password@[i]) as int,
                    no_upper,
                    lower,
                    number,
                    symbol,
                ),
            !no_upper ==> exists|i: int|
                0 <= i < password@.len() && is_upper_byte((#[trigger] password@[i]) as int),
            lower ==> exists|i: int|
                0 <= i < password@.len() && is_lower_byte((#[trigger] password@[i]) as int),
            number ==> exists|i: int|
                0 <= i < password@.len() && is_number_byte((#[trigger] password@[i]) as int),
            symbol ==> exists|i: int|
                0 <= i < password@.len() && is_symbol_byte((#[trigger] password@[i]) as int),
        decreases length as int - password@.len(),
    {
        let ghost before = password@;
        let c = choose_byte(&chars);
        proof {
            let j = choose|j: int| 0 <= j < chars@.len() && chars@[j] == c;
        }
        password.push(c);
        proof {
            lemma_classes_persist(before, password@);
        }
    }

    let ghost pw0 = password@;
    shuffle_bytes(&mut password);
    proof {
        broadcast use vstd::seq_lib::group_to_multiset_ensures;

        assert forall|i: int| 0 <= i < password@.len() implies allowed_pwd_byte(
            (#[trigger] password@[i]) as int,
            no_upper,
            lower,
            number,
            symbol,
        ) by {
            let b = password@[i];
            assert(password@.contains(b));
            assert(pw0.to_multiset().count(b) > 0);
            assert(pw0.contains(b));
            let j = choose|j: int| 0 <= j < pw0.len() && pw0[j] == b;
        };
        if !no_upper {
            let i = choose|i: int| 0 <= i < pw0.len() && is_upper_byte(pw0[i] as int);
            assert(pw0.contains(pw0[i]));
            assert(password@.to_multiset().count(pw0[i]) > 0);
            assert(password@.contains(pw0[i]));
        }
        if lower {
            let i = choose|i: int| 0 <= i < pw0.len() && is_lower_byte(pw0[i] as int);
            assert(pw0.contains(pw0[i]));
            assert(password@.to_multiset().count(pw0[i]) > 0);
            assert(password@.contains(pw0[i]));
        }
        if number {
            let i = choose|i: int| 0 <= i < pw0.len() && is_number_byte(pw0[i] as int);
            assert(pw0.contains(pw0[i]));
            assert(password@.to_multiset().count(pw0[i]) > 0);
            assert(password@.contains(pw0[i]));
        }
        if symbol {
            let i = choose|i: int| 0 <= i < pw0.len() && is_symbol_byte(pw0[i] as int);
            assert(pw0.contains(pw0[i]));
            assert(password@.to_multiset().count(pw0[i]) > 0);
            assert(password@.contains(pw0[i]));
        }
    }
    proof {
        assert forall|i: int| 0 <= i < password@.len() implies (#[trigger] password@[i]) < 128 by {
            assert(allowed_pwd_byte(password@[i] as int, no_upper, lower, number, symbol));
        };
    }
    let s = ascii_bytes_to_string(password);
    proof {
        assert forall|i: int| 0 <= i < s@.len() implies allowed_pwd_byte(
            (#[trigger] s@[i]) as int,
            no_upper,
            lower,
            number,
            symbol,
        ) by {
            assert(allowed_pwd_byte(password@[i] as int, no_upper, lower, number, symbol));
            assert(s@[i] as int == password@[i] as int);
        };
        if !no_upper {
            let i = choose|i: int|
                0 <= i < password@.len() && is_upper_byte((#[trigger] password@[i]) as int);
            assert(s@[i] as int == password@[i] as int);
            assert(0 <= i < s@.len() && is_upper_byte(s@[i] as int));
        }
        if lower {
            let i = choose|i: int|
                0 <= i < password@.len() && is_lower_byte((#[trigger] password@[i]) as int);
            assert(s@[i] as int == password@[i] as int);
            assert(0 <= i < s@.len() && is_lower_byte(s@[i] as int));
        }
        if number {
            let i = choose|i: int|
                0 <= i < password@.len() && is_number_byte((#[trigger] password@[i]) as int);
            assert(s@[i] as int == password@[i] as int);
            assert(0 <= i < s@.len() && is_number_byte(s@[i] as int));
        }
        if symbol {
            let i = choose|i: int|
                0 <= i < password@.len() && is_symbol_byte((#[trigger] password@[i]) as int);
            assert(s@[i] as int == password@[i] as int);
            assert(0 <= i < s@.len() && is_symbol_byte(s@[i] as int));
        }
    }
    Ok(s)
}

} // verus!
