//! The number under which a project takes its advisory lock.

use vstd::prelude::*;

verus! {

/// The bytes as digits of a number in base 31, the first byte being the most
/// significant digit.
pub open spec fn base31(bytes: Seq<u8>) -> int
    decreases bytes.len(),
{
    if bytes.len() == 0 {
        0
    } else {
        31 * base31(bytes.drop_last()) + bytes.last()
    }
}

/// The 64-bit two's complement number that is congruent to `n`.
pub open spec fn wrapped(n: int) -> int {
    let low = n % 0x1_0000_0000_0000_0000;
    if low > i64::MAX {
        low - 0x1_0000_0000_0000_0000
    } else {
        low
    }
}

/// The hash of a project's name, of which the lock number is the magnitude.
pub open spec fn project_hash_spec(project: Seq<char>) -> int {
    wrapped(base31(vstd::utf8::encode_utf8(project)))
}

/// The magnitude of `n`.
pub open spec fn magnitude(n: int) -> int {
    if n < 0 {
        -n
    } else {
        n
    }
}

proof fn wrapped_step(n: int, b: int)
    requires
        0 <= b < 256,
    ensures
        wrapped(31 * wrapped(n) + b) == wrapped(31 * n + b),
        i64::MIN <= wrapped(n) <= i64::MAX,
{
    let m: int = 0x1_0000_0000_0000_0000;
    let q = n / m;
    let low = n % m;
    assert(n == m * q + low) by {
        vstd::arithmetic::div_mod::lemma_fundamental_div_mod(n, m);
    }
    let w = wrapped(n);
    let k = if low > i64::MAX {
        q + 1
    } else {
        q
    };
    assert(n == m * k + w) by (nonlinear_arith)
        requires
            n == m * q + low,
            (k == q && w == low) || (k == q + 1 && w == low - m),
    ;
    let x = 31 * w + b;
    let y = 31 * n + b;
    assert(y == m * (31 * k) + x) by (nonlinear_arith)
        requires
            n == m * k + w,
            x == 31 * w + b,
            y == 31 * n + b,
    ;
    vstd::arithmetic::div_mod::lemma_mod_multiples_vanish(31 * k, x, m);
}

/// The hash of the name of `project`.
pub fn project_hash(project: &str) -> (h: i64)
    ensures
        h == project_hash_spec(project@),
{
    let bytes = project.as_bytes();
    let mut h: i64 = 0;
    let mut i: usize = 0;
    assert(bytes@.take(0) =~= Seq::empty());
    while i < bytes.len()
        invariant
            i <= bytes@.len(),
            h == wrapped(base31(bytes@.take(i as int))),
        decreases bytes@.len() - i,
    {
        let ghost before = base31(bytes@.take(i as int));
        let b: i64 = bytes[i] as i64;
        assert(bytes@.take(i + 1).drop_last() =~= bytes@.take(i as int));
        proof {
            wrapped_step(before, b as int);
        }
        let ghost product = 31 * h;
        let p: i64 = h.wrapping_mul(31);
        assert(p == wrapped(product));
        proof {
            sum_wraps(product, b as int);
        }
        h = p.wrapping_add(b);
        i += 1;
    }
    assert(bytes@.take(i as int) =~= bytes@);
    h
}

proof fn sum_wraps(n: int, b: int)
    requires
        0 <= b < 256,
    ensures
        wrapped(n) + b <= i64::MAX ==> wrapped(n + b) == wrapped(n) + b,
        wrapped(n) + b > i64::MAX ==> wrapped(n + b) == wrapped(n) + b - 0x1_0000_0000_0000_0000,
        i64::MIN <= wrapped(n) <= i64::MAX,
{
}

/// The lock number of `project`. The one hash without a magnitude in 64 bits
/// is left out.
pub fn lock_id(project: &str) -> (id: i64)
    requires
        project_hash_spec(project@) != i64::MIN,
    ensures
        id == magnitude(project_hash_spec(project@)),
        id >= 0,
{
    let h = project_hash(project);
    if h < 0 {
        -h
    } else {
        h
    }
}

} // verus!
