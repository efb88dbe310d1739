//! Exponentiation in `Fp2` with a table of the odd powers of one base.
//!
//! The table is built once and serves every exponentiation of that base: an
//! exponentiation squares once for each bit of the exponent and multiplies
//! once for each window, a window being a run of at most `window_size` bits
//! that starts and ends in a set bit.
use vstd::prelude::*;
use vstd::arithmetic::power2::{
    lemma2_to64, lemma_pow2_pos, lemma_pow2_strictly_increases, lemma_pow2_unfold, pow2,
};
use crate::bigint::be_value;
use crate::bits::{bits_be, bits_value, lemma_bits_take_ends, lemma_bits_take_step};
use crate::fp2::{fp2_mul, fp2_one, fp2_pow, Ext2V, Extension2, Fp2};
use crate::fp2_laws::{lemma_fp2_pow_1, lemma_fp2_pow_add, lemma_fp2_pow_reduced};

verus! {

/// The widest window a table can be built for.
pub const MAX_WINDOW: usize = 16;

/// A base of `Fp2` with the table of its odd powers.
pub struct WindowExpBase {
    /// How many bits one window holds at most.
    pub window_size: usize,
    /// The multiplicative identity.
    pub one: Fp2,
    /// The base.
    pub base: Fp2,
    /// The powers `base^1, base^3, base^5, ...`, half as many as a window has values.
    pub bases: Vec<Fp2>,
}

impl WindowExpBase {
    /// The table holds the odd powers of the base, as many as the window asks for.
    pub open spec fn wf(&self, e: Ext2V) -> bool {
        &&& 1 <= self.window_size <= MAX_WINDOW
        &&& e.has(self.base@)
        &&& self.one@ == fp2_one(e.p)
        &&& self.bases.len() == pow2((self.window_size - 1) as nat)
        &&& forall|j: int|
            0 <= j < self.bases.len() ==> (#[trigger] self.bases[j])@ == fp2_pow(
                e,
                self.base@,
                (2 * j + 1) as nat,
            )
    }

    /// The table of `base` for windows of `window` bits.
    pub fn new(ext: &Extension2, base: &Fp2, one: Fp2, window: usize) -> (r: WindowExpBase)
        requires
            ext.wf(),
            ext.has(base),
            one@ == fp2_one(ext@.p),
            1 <= window <= MAX_WINDOW,
        ensures
            r.wf(ext@),
            r.base@ == base@,
            r.window_size == window,
    {
        let ghost e = ext@;
        let ghost b = base@;
        let mut count: usize = 1;
        let mut k: usize = 1;
        proof {
            lemma2_to64();
        }
        while k < window
            invariant
                1 <= k <= window <= MAX_WINDOW,
                count == pow2((k - 1) as nat),
                count < 0x10000,
            decreases window - k,
        {
            proof {
                lemma_pow2_unfold(k as nat);
                lemma2_to64();
                if k < 16 {
                    lemma_pow2_strictly_increases(k as nat, 16);
                }
            }
            count = count * 2;
            k = k + 1;
        }
        let square = ext.square(base);
        let mut bases: Vec<Fp2> = Vec::new();
        bases.push(base.clone());
        proof {
            lemma_fp2_pow_1(e, b);
            lemma_pow2_pos((window - 1) as nat);
        }
        while bases.len() < count
            invariant
                e == ext@,
                ext.wf(),
                b == base@,
                e.has(b),
                square@ == fp2_mul(e, b, b),
                1 <= bases.len() <= count,
                forall|j: int|
                    0 <= j < bases.len() ==> (#[trigger] bases[j])@ == fp2_pow(
                        e,
                        b,
                        (2 * j + 1) as nat,
                    ),
            decreases count - bases.len(),
        {
            let n = bases.len();
            let next = ext.mul(&bases[n - 1], &square);
            proof {
                // base^(2n+1) = base^(2n-1) * base^2
                lemma_fp2_pow_add(e, b, (2 * n - 1) as nat, 2);
                lemma_fp2_pow_add(e, b, 1, 1);
                lemma_fp2_pow_1(e, b);
                assert(fp2_pow(e, b, 2) == fp2_mul(e, b, b));
                assert((2 * (n - 1) + 1) as nat == (2 * n - 1) as nat);
                assert(((2 * n - 1) as nat + 2) as nat == (2 * n + 1) as nat);
            }
            bases.push(next);
        }
        WindowExpBase { window_size: window, one, base: base.clone(), bases }
    }

    /// The power of the base to the big-endian exponent `scalar`.
    pub fn exponentiate(&self, ext: &Extension2, scalar: &[u8]) -> (r: Fp2)
        requires
            ext.wf(),
            self.wf(ext@),
        ensures
            r@ == fp2_pow(ext@, self.base@, be_value(scalar@)),
            ext.has(&r),
    {
        let ghost e = ext@;
        let ghost b = self.base@;
        let bits = bits_be(scalar);
        let n = bits.len();
        let w = self.window_size;
        let mut acc = self.one.clone();
        let mut i: usize = 0;
        proof {
            lemma_bits_take_ends(bits@);
            lemma_fp2_pow_reduced(e, b, 0);
        }
        while i < n
            invariant
                e == ext@,
                b == self.base@,
                n == bits.len(),
                i <= n,
                ext.wf(),
                self.wf(e),
                w == self.window_size,
                acc@ == fp2_pow(e, b, bits_value(bits@.take(i as int))),
                e.has(acc@),
            decreases n - i,
        {
            let ghost m = bits_value(bits@.take(i as int));
            if !bits[i] {
                acc = ext.square(&acc);
                proof {
                    lemma_bits_take_step(bits@, i as int);
                    lemma_fp2_pow_add(e, b, m, m);
                }
                i = i + 1;
            } else {
                // The window ends behind the last set bit among the next `w` bits.
                let mut end: usize = if n - i > w {
                    i + w
                } else {
                    n
                };
                while !bits[end - 1]
                    invariant
                        i < end <= n,
                        n == bits.len(),
                        end - i <= w,
                        bits[i as int],
                    decreases end,
                {
                    end = end - 1;
                }
                let mut v: usize = 0;
                let mut j: usize = i;
                proof {
                    lemma2_to64();
                    assert(m * pow2(0) == m) by (nonlinear_arith)
                        requires
                            pow2(0) == 1,
                    ;
                }
                while j < end
                    invariant
                        e == ext@,
                        b == self.base@,
                        ext.wf(),
                        n == bits.len(),
                        m == bits_value(bits@.take(i as int)),
                        i <= j <= end <= n,
                        end - i <= w <= MAX_WINDOW,
                        bits_value(bits@.take(j as int)) == m * pow2((j - i) as nat) + v,
                        v < pow2((j - i) as nat) <= 0x10000,
                        acc@ == fp2_pow(e, b, m * pow2((j - i) as nat)),
                        e.has(acc@),
                    decreases end - j,
                {
                    let ghost half = pow2((j - i) as nat);
                    acc = ext.square(&acc);
                    proof {
                        lemma_bits_take_step(bits@, j as int);
                        lemma_fp2_pow_add(e, b, m * half, m * half);
                        lemma_pow2_unfold((j - i + 1) as nat);
                        assert(m * (2 * half) == m * half + m * half) by (nonlinear_arith);
                        lemma2_to64();
                        if j - i + 1 < 16 {
                            lemma_pow2_strictly_increases((j - i + 1) as nat, 16);
                        }
                    }
                    v = 2 * v + (if bits[j] {
                        1
                    } else {
                        0
                    });
                    j = j + 1;
                }
                proof {
                    // The last bit of the window is set, so its value `v` is odd.
                    let len = (end - i) as nat;
                    lemma_bits_take_step(bits@, end - 1);
                    lemma_pow2_unfold(len);
                    assert(m * (2 * pow2((len - 1) as nat)) == 2 * (m * pow2((len - 1) as nat)))
                        by (nonlinear_arith);
                    assert(v % 2 == 1);
                    // It is within the table.
                    lemma_pow2_unfold(w as nat);
                    if len < w {
                        lemma_pow2_strictly_increases(len, w as nat);
                    }
                    assert(v / 2 < self.bases.len());
                    assert((2 * (v / 2) + 1) as nat == v);
                    lemma_fp2_pow_add(e, b, m * pow2(len), v as nat);
                }
                acc = ext.mul(&acc, &self.bases[v / 2]);
                i = end;
            }
        }
        proof {
            lemma_bits_take_ends(bits@);
        }
        acc
    }
}

} // verus!
