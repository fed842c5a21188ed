use vstd::prelude::*;

verus! {

/// 256 raised to the given power.
pub open spec fn pow256(n: nat) -> nat
    decreases n,
{
    if n == 0 {
        1
    } else {
        256 * pow256((n - 1) as nat)
    }
}

/// Interprets a byte string as a big-endian natural number:
/// the first byte is the most significant.
pub open spec fn be_bytes_nat(s: Seq<u8>) -> nat
    decreases s.len(),
{
    if s.len() == 0 {
        0
    } else {
        (s.first() as nat) * pow256((s.len() - 1) as nat) + be_bytes_nat(s.drop_first())
    }
}

/// The order of the secp256k1 group, as its 32 big-endian bytes.
pub open spec fn curve_order_bytes() -> Seq<u8> {
    seq![
        0xffu8, 0xffu8, 0xffu8, 0xffu8, 0xffu8, 0xffu8, 0xffu8, 0xffu8,
        0xffu8, 0xffu8, 0xffu8, 0xffu8, 0xffu8, 0xffu8, 0xffu8, 0xfeu8,
        0xbau8, 0xaeu8, 0xdcu8, 0xe6u8, 0xafu8, 0x48u8, 0xa0u8, 0x3bu8,
        0xbfu8, 0xd2u8, 0x5eu8, 0x8cu8, 0xd0u8, 0x36u8, 0x41u8, 0x41u8,
    ]
}

/// The order of the secp256k1 group.
pub open spec fn curve_order() -> nat {
    be_bytes_nat(curve_order_bytes())
}

/// A byte string is a valid secret scalar when it is exactly 32 bytes long
/// and denotes a number that is neither zero nor at or above the curve order.
pub open spec fn valid_scalar_bytes(s: Seq<u8>) -> bool {
    &&& s.len() == 32
    &&& 0 < be_bytes_nat(s)
    &&& be_bytes_nat(s) < curve_order()
}

pub proof fn lemma_pow256_pos(n: nat)
    ensures
        pow256(n) >= 1,
    decreases n,
{
    if n > 0 {
        lemma_pow256_pos((n - 1) as nat);
    }
}

/// A byte string of length n denotes a number below 256^n.
pub proof fn lemma_be_bytes_nat_bound(s: Seq<u8>)
    ensures
        be_bytes_nat(s) < pow256(s.len()),
    decreases s.len(),
{
    if s.len() > 0 {
        let f = s.first() as nat;
        let p = pow256((s.len() - 1) as nat);
        let r = be_bytes_nat(s.drop_first());
        lemma_be_bytes_nat_bound(s.drop_first());
        lemma_pow256_pos((s.len() - 1) as nat);
        assert(f * p + r < 256 * p) by (nonlinear_arith)
            requires
                f <= 255,
                r < p,
                p >= 1,
        ;
    }
}

/// A byte string denotes zero exactly when every byte is zero.
pub proof fn lemma_be_bytes_nat_zero(s: Seq<u8>)
    ensures
        (be_bytes_nat(s) == 0) <==> (forall|j: int| 0 <= j < s.len() ==> s[j] == 0),
    decreases s.len(),
{
    if s.len() > 0 {
        let f = s.first() as nat;
        let p = pow256((s.len() - 1) as nat);
        let r = be_bytes_nat(s.drop_first());
        lemma_be_bytes_nat_zero(s.drop_first());
        lemma_pow256_pos((s.len() - 1) as nat);
        assert(f == 0 || f * p >= p) by (nonlinear_arith)
            requires
                p >= 1,
        ;
        if be_bytes_nat(s) == 0 {
            assert(f == 0 && r == 0);
            assert forall|j: int| 0 <= j < s.len() implies s[j] == 0 by {
                if j > 0 {
                    assert(s.drop_first()[j - 1] == 0);
                }
            }
        }
        if forall|j: int| 0 <= j < s.len() ==> s[j] == 0 {
            assert(s[0] == 0);
            assert forall|j: int| 0 <= j < s.drop_first().len() implies s.drop_first()[j] == 0 by {
                assert(s[j + 1] == 0);
            }
            assert(r == 0);
            assert(be_bytes_nat(s) == 0);
        }
    }
}

/// Two byte strings of equal length that agree up to an index where the first
/// holds the smaller byte are ordered as the numbers they denote.
pub proof fn lemma_be_bytes_nat_lt(a: Seq<u8>, b: Seq<u8>, i: int)
    requires
        a.len() == b.len(),
        0 <= i < a.len(),
        forall|j: int| 0 <= j < i ==> a[j] == b[j],
        a[i] < b[i],
    ensures
        be_bytes_nat(a) < be_bytes_nat(b),
    decreases a.len(),
{
    let p = pow256((a.len() - 1) as nat);
    let fa = a.first() as nat;
    let fb = b.first() as nat;
    let ra = be_bytes_nat(a.drop_first());
    let rb = be_bytes_nat(b.drop_first());
    lemma_pow256_pos((a.len() - 1) as nat);
    if i == 0 {
        lemma_be_bytes_nat_bound(a.drop_first());
        assert(fa * p + ra < fb * p) by (nonlinear_arith)
            requires
                fa < fb,
                ra < p,
                p >= 1,
        ;
    } else {
        assert(a[0] == b[0]);
        assert forall|j: int| 0 <= j < i - 1 implies a.drop_first()[j] == b.drop_first()[j] by {
            assert(a[j + 1] == b[j + 1]);
        }
        assert(a.drop_first()[i - 1] == a[i]);
        assert(b.drop_first()[i - 1] == b[i]);
        lemma_be_bytes_nat_lt(a.drop_first(), b.drop_first(), i - 1);
    }
}

/// The 32 big-endian bytes of the secp256k1 group order.
fn order_bytes() -> (r: Vec<u8>)
    ensures
        r@ == curve_order_bytes(),
{
    let v: Vec<u8> = vec![
        0xffu8, 0xffu8, 0xffu8, 0xffu8, 0xffu8, 0xffu8, 0xffu8, 0xffu8,
        0xffu8, 0xffu8, 0xffu8, 0xffu8, 0xffu8, 0xffu8, 0xffu8, 0xfeu8,
        0xbau8, 0xaeu8, 0xdcu8, 0xe6u8, 0xafu8, 0x48u8, 0xa0u8, 0x3bu8,
        0xbfu8, 0xd2u8, 0x5eu8, 0x8cu8, 0xd0u8, 0x36u8, 0x41u8, 0x41u8,
    ];
    proof {
        assert(v@ =~= curve_order_bytes());
    }
    v
}

/// Decides whether a byte string is a valid secret scalar: exactly 32 bytes
/// that denote a nonzero number strictly below the curve order.
pub fn scalar_is_valid(s: &Vec<u8>) -> (r: bool)
    ensures
        r == valid_scalar_bytes(s@),
{
    if s.len() != 32 {
        return false;
    }
    let order = order_bytes();
    let mut i: usize = 0;
    let mut diff_at: usize = 32;
    let mut below: bool = false;
    while i < 32
        invariant
            s@.len() == 32,
            order@ == curve_order_bytes(),
            order@.len() == 32,
            i <= 32,
            diff_at <= 32,
            diff_at == 32 ==> !below && (forall|j: int| 0 <= j < i ==> s@[j] == order@[j]),
            diff_at < 32 ==> (diff_at as int) < i
                && (forall|j: int| 0 <= j < diff_at ==> s@[j] == order@[j])
                && s@[diff_at as int] != order@[diff_at as int]
                && (below <==> s@[diff_at as int] < order@[diff_at as int]),
        decreases 32 - i,
    {
        if diff_at == 32 && s[i] != order[i] {
            diff_at = i;
            below = s[i] < order[i];
        }
        i += 1;
    }
    proof {
        if diff_at == 32 {
            assert(s@ =~= curve_order_bytes());
            assert(!(be_bytes_nat(s@) < curve_order()));
        } else if below {
            lemma_be_bytes_nat_lt(s@, curve_order_bytes(), diff_at as int);
        } else {
            lemma_be_bytes_nat_lt(curve_order_bytes(), s@, diff_at as int);
        }
    }
    let mut k: usize = 0;
    let mut nonzero: bool = false;
    while k < 32
        invariant
            s@.len() == 32,
            k <= 32,
            nonzero <==> !(forall|j: int| 0 <= j < k ==> s@[j] == 0),
        decreases 32 - k,
    {
        if s[k] != 0 {
            nonzero = true;
        }
        k += 1;
    }
    proof {
        lemma_be_bytes_nat_zero(s@);
    }
    nonzero && below
}

} // verus!
