use vstd::prelude::*;

verus! {

/// The `n` low-order base-256 digits of `x`, least significant first.
pub open spec fn le_digits(x: nat, n: nat) -> Seq<u8>
    decreases n,
{
    if n == 0 {
        Seq::empty()
    } else {
        seq![(x % 256) as u8] + le_digits(x / 256, (n - 1) as nat)
    }
}

/// The eight bytes of `x` in little-endian order.
pub open spec fn u64_le_bytes(x: u64) -> Seq<u8> {
    le_digits(x as nat, 8)
}

/// What is left of `x` after its `n` low-order base-256 digits are dropped.
pub open spec fn high_part(x: nat, n: nat) -> nat
    decreases n,
{
    if n == 0 {
        x
    } else {
        high_part(x / 256, (n - 1) as nat)
    }
}

/// `le_digits(x, n)` has `n` digits.
pub proof fn lemma_le_digits_len(x: nat, n: nat)
    ensures
        le_digits(x, n).len() == n,
    decreases n,
{
    if n > 0 {
        lemma_le_digits_len(x / 256, (n - 1) as nat);
    }
}

/// Two numbers with the same `n` low-order digits and the same remainder
/// above them are the same number.
pub proof fn lemma_le_digits_injective(x: nat, y: nat, n: nat)
    requires
        le_digits(x, n) == le_digits(y, n),
        high_part(x, n) == high_part(y, n),
    ensures
        x == y,
    decreases n,
{
    if n > 0 {
        let m = (n - 1) as nat;
        let dx = le_digits(x, n);
        let dy = le_digits(y, n);
        assert(dx[0] == (x % 256) as u8);
        assert(dy[0] == (y % 256) as u8);
        assert(le_digits(x / 256, m) =~= dx.drop_first());
        assert(le_digits(y / 256, m) =~= dy.drop_first());
        lemma_le_digits_injective(x / 256, y / 256, m);
    }
}

/// Distinct integers have distinct little-endian encodings.
pub proof fn lemma_u64_le_bytes_injective(x: u64, y: u64)
    requires
        u64_le_bytes(x) == u64_le_bytes(y),
    ensures
        x == y,
{
    reveal_with_fuel(high_part, 9);
    assert(high_part(x as nat, 8) == 0);
    assert(high_part(y as nat, 8) == 0);
    lemma_le_digits_injective(x as nat, y as nat, 8);
}

/// Encodes `x` as eight little-endian bytes.
pub fn u64_to_le_bytes(x: u64) -> (r: Vec<u8>)
    ensures
        r@ == u64_le_bytes(x),
{
    let mut r: Vec<u8> = Vec::new();
    let mut rest: u64 = x;
    let mut i: usize = 0;
    while i < 8
        invariant
            i <= 8,
            r@ + le_digits(rest as nat, (8 - i) as nat) == u64_le_bytes(x),
        decreases 8 - i,
    {
        let ghost before = r@;
        let digit: u8 = (rest % 256) as u8;
        r.push(digit);
        assert(before + le_digits(rest as nat, (8 - i) as nat) =~= before.push(digit) + le_digits(
            (rest / 256) as nat,
            (8 - i - 1) as nat,
        ));
        rest = rest / 256;
        i += 1;
    }
    assert(r@ + le_digits(rest as nat, 0) =~= r@);
    r
}

} // verus!
