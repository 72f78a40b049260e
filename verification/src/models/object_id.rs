//! MongoDB object ids and their 24-character hexadecimal form.
use vstd::prelude::*;

use crate::utils::text::{
    chars_of, digit_char, digit_value, digit_value_of, digits_value, fixed_digits,
    is_hex_digit, is_hex_digit_char, push_fixed_digits,
};

verus! {

/// A 12-byte object id: `high` holds its first 4 bytes and `low` its last 8,
/// both big-endian, so the hex form is `high` in 8 digits then `low` in 16.
#[derive(Clone, Copy, Debug, PartialEq, Eq, Structural, Hash)]
pub struct ObjectId {
    pub high: u32,
    pub low: u64,
}

/// `base` raised to `n`.
pub open spec fn power(base: nat, n: nat) -> nat
    decreases n,
{
    if n == 0 {
        1
    } else {
        base * power(base, (n - 1) as nat)
    }
}

/// The text that `ObjectId::parse_str` accepts: exactly 24 hexadecimal digits
/// of either case.
pub open spec fn is_object_id_text(s: Seq<char>) -> bool {
    &&& s.len() == 24
    &&& forall|i: int| 0 <= i < s.len() ==> is_hex_digit(#[trigger] s[i])
}

/// The id that a 24-digit hexadecimal text denotes, or none for any other text.
pub open spec fn object_id_from_text(s: Seq<char>) -> Option<ObjectId> {
    if is_object_id_text(s) {
        Some(
            ObjectId {
                high: digits_value(s.take(8), 16) as u32,
                low: digits_value(s.skip(8), 16) as u64,
            },
        )
    } else {
        None
    }
}

/// A hexadecimal digit written in lower case.
pub open spec fn lower_hex_digit(c: char) -> char {
    if 65 <= (c as u32) <= 70 {
        digit_char(digit_value(c))
    } else {
        c
    }
}

impl ObjectId {
    /// The lowercase 24-digit hexadecimal form (`ObjectId::to_hex`).
    pub open spec fn hex(self) -> Seq<char> {
        fixed_digits(self.high as nat, 16, 8) + fixed_digits(self.low as nat, 16, 16)
    }

    /// The 24-digit lower-case hexadecimal form.
    pub fn to_hex(&self) -> (s: String)
        ensures
            s@ == self.hex(),
    {
        let mut s = String::new();
        push_fixed_digits(&mut s, self.high as u64, 16, 8);
        push_fixed_digits(&mut s, self.low, 16, 16);
        assert(s@ =~= self.hex());
        s
    }

    /// Parses the 24-digit hexadecimal form, upper or lower case.
    pub fn parse_str(s: &str) -> (r: Option<ObjectId>)
        ensures
            r == object_id_from_text(s@),
    {
        let cs = chars_of(s);
        if cs.len() != 24 {
            return None;
        }
        let mut i: usize = 0;
        while i < 24
            invariant
                cs@ == s@,
                cs@.len() == 24,
                i <= 24,
                forall|j: int| 0 <= j < i ==> is_hex_digit(#[trigger] cs@[j]),
            decreases 24 - i,
        {
            if !is_hex_digit_char(cs[i]) {
                return None;
            }
            i += 1;
        }
        let high = hex_block(&cs, 0, 8);
        let low = hex_block(&cs, 8, 16);
        assert(cs@.subrange(0, 8) =~= s@.take(8));
        assert(cs@.subrange(8, 24) =~= s@.skip(8));
        proof {
            reveal_with_fuel(power, 17);
        }
        Some(ObjectId { high: high as u32, low })
    }
}

/// The value of the `n` hexadecimal digits of `cs` starting at `from`.
fn hex_block(cs: &Vec<char>, from: usize, n: usize) -> (v: u64)
    requires
        n <= 16,
        from + n <= cs@.len(),
        forall|j: int| from <= j < from + n ==> is_hex_digit(#[trigger] cs@[j]),
    ensures
        v == digits_value(cs@.subrange(from as int, from + n), 16),
        v < power(16, n as nat),
{
    let mut acc: u64 = 0;
    let mut k: usize = 0;
    assert(cs@.subrange(from as int, from as int) =~= Seq::<char>::empty());
    proof {
        lemma_power_monotone(16, 0, 16);
    }
    while k < n
        invariant
            k <= n <= 16,
            from + n <= cs@.len(),
            forall|j: int| from <= j < from + n ==> is_hex_digit(#[trigger] cs@[j]),
            acc == digits_value(cs@.subrange(from as int, from + k), 16),
            acc < power(16, k as nat),
            power(16, k as nat) <= power(16, 16),
        decreases n - k,
    {
        assert(from + k < cs.len());
        let d = digit_value_of(cs[from + k]);
        let ghost p = power(16, k as nat);
        proof {
            lemma_power_monotone(16, (k + 1) as nat, 16);
            reveal_with_fuel(power, 17);
        }
        assert(acc * 16 + d < p * 16) by (nonlinear_arith)
            requires
                acc < p,
                d < 16,
        ;
        assert(cs@.subrange(from as int, from + k + 1).drop_last() =~= cs@.subrange(
            from as int,
            from + k,
        ));
        acc = acc * 16 + d;
        k += 1;
    }
    acc
}

/// Powers of a base of at least 1 grow with the exponent.
pub proof fn lemma_power_monotone(base: nat, m: nat, n: nat)
    requires
        base >= 1,
        m <= n,
    ensures
        power(base, m) <= power(base, n),
    decreases n,
{
    if m < n {
        lemma_power_monotone(base, m, (n - 1) as nat);
        let p = power(base, (n - 1) as nat);
        assert(p <= base * p) by (nonlinear_arith)
            requires
                base >= 1,
        ;
    }
}


/// The value of a digit character is the digit.
proof fn lemma_digit_char_value(d: nat)
    requires
        d < 16,
    ensures
        is_hex_digit(digit_char(d)),
        digit_value(digit_char(d)) == d,
        !(65 <= (digit_char(d) as u32) <= 70),
{
}

/// The hex digits of `v` denote `v` when it fits in `n` digits.
proof fn lemma_fixed_digits_value(v: nat, n: nat)
    requires
        v < power(16, n),
    ensures
        fixed_digits(v, 16, n).len() == n,
        digits_value(fixed_digits(v, 16, n), 16) == v,
        forall|i: int|
            0 <= i < n ==> is_hex_digit(#[trigger] fixed_digits(v, 16, n)[i]),
    decreases n,
{
    if n > 0 {
        let q = v / 16;
        let r = v % 16;
        let p = power(16, (n - 1) as nat);
        assert(q < p && v == q * 16 + r && r < 16) by (nonlinear_arith)
            requires
                v < 16 * p,
                q == v / 16,
                r == v % 16,
        ;
        lemma_fixed_digits_value(q, (n - 1) as nat);
        lemma_digit_char_value(r);
        let f = fixed_digits(v, 16, n);
        assert(f.drop_last() =~= fixed_digits(q, 16, (n - 1) as nat));
        assert forall|i: int| 0 <= i < n implies is_hex_digit(#[trigger] f[i]) by {
            if i < n - 1 {
                assert(f[i] == fixed_digits(q, 16, (n - 1) as nat)[i]);
            }
        }
    }
}

/// Writing the value of lower-case hex digits gives back those digits.
proof fn lemma_value_fixed_digits(t: Seq<char>)
    requires
        forall|i: int| 0 <= i < t.len() ==> is_hex_digit(#[trigger] t[i]),
    ensures
        fixed_digits(digits_value(t, 16), 16, t.len()) == t.map_values(
            |c: char| lower_hex_digit(c),
        ),
        digits_value(t, 16) < power(16, t.len()),
    decreases t.len(),
{
    let lowered = t.map_values(|c: char| lower_hex_digit(c));
    if t.len() == 0 {
        assert(lowered =~= Seq::<char>::empty());
    } else {
        let init = t.drop_last();
        assert forall|i: int| 0 <= i < init.len() implies is_hex_digit(#[trigger] init[i]) by {
            assert(init[i] == t[i]);
        }
        lemma_value_fixed_digits(init);
        let v = digits_value(t, 16);
        let a = digits_value(init, 16);
        let d = digit_value(t.last());
        let p = power(16, init.len());
        assert(d < 16);
        assert(v / 16 == a && v % 16 == d && v < 16 * p) by (nonlinear_arith)
            requires
                v == a * 16 + d,
                d < 16,
                a < p,
        ;
        assert(digit_char(d) == lower_hex_digit(t.last()));
        assert(lowered =~= init.map_values(|c: char| lower_hex_digit(c)).push(
            lower_hex_digit(t.last()),
        ));
    }
}

/// Parsing the hex form of an id gives back the same id.
pub proof fn law_object_id_hex_round_trip(id: ObjectId)
    ensures
        object_id_from_text(id.hex()) == Some(id),
{
    reveal_with_fuel(power, 17);
    lemma_fixed_digits_value(id.high as nat, 8);
    lemma_fixed_digits_value(id.low as nat, 16);
    let h = id.hex();
    let a = fixed_digits(id.high as nat, 16, 8);
    let b = fixed_digits(id.low as nat, 16, 16);
    assert(h.take(8) =~= a);
    assert(h.skip(8) =~= b);
    assert forall|i: int| 0 <= i < h.len() implies is_hex_digit(#[trigger] h[i]) by {
        if i < 8 {
            assert(h[i] == a[i]);
        } else {
            assert(h[i] == b[i - 8]);
        }
    }
}

/// The hex form of a parsed id is the parsed text in lower case.
pub proof fn law_object_id_text_round_trip(s: Seq<char>)
    requires
        is_object_id_text(s),
    ensures
        object_id_from_text(s) matches Some(id) && id.hex() == s.map_values(
            |c: char| lower_hex_digit(c),
        ),
{
    reveal_with_fuel(power, 17);
    let a = s.take(8);
    let b = s.skip(8);
    assert forall|i: int| 0 <= i < a.len() implies is_hex_digit(#[trigger] a[i]) by {
        assert(a[i] == s[i]);
    }
    assert forall|i: int| 0 <= i < b.len() implies is_hex_digit(#[trigger] b[i]) by {
        assert(b[i] == s[i + 8]);
    }
    lemma_value_fixed_digits(a);
    lemma_value_fixed_digits(b);
    assert(s.map_values(|c: char| lower_hex_digit(c)) =~= a.map_values(
        |c: char| lower_hex_digit(c),
    ) + b.map_values(|c: char| lower_hex_digit(c)));
}


/// What a sequence of ids holds after a push.
pub proof fn lemma_push_contains_id(a: Seq<ObjectId>, p: ObjectId, x: ObjectId)
    ensures
        a.push(p).contains(x) == (a.contains(x) || p == x),
{
    if a.contains(x) {
        let j = choose|j: int| 0 <= j < a.len() && a[j] == x;
        assert(a.push(p)[j] == x);
    }
    if p == x {
        assert(a.push(p)[a.len() as int] == x);
    }
    if a.push(p).contains(x) {
        let j = choose|j: int| 0 <= j < a.push(p).len() && a.push(p)[j] == x;
        if j < a.len() {
            assert(a[j] == x);
        }
    }
}

} // verus!
