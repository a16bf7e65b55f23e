use vstd::prelude::*;

verus! {

/// Number of words in the generator's state table.
pub const CMWC_SIZE: usize = 4096;

/// Odd constant that seeds the state table.
pub const PHI: u32 = 0x9e37_79b9;

/// Multiplier applied to the word under the cursor.
pub const CMWC_MULTIPLIER: u64 = 18782;

/// Carry a fresh generator starts with.
pub const CMWC_INITIAL_CARRY: u32 = 362436;

/// Value the low word of each product is reflected against.
pub const CMWC_REFLECT: u32 = 0xffff_fffe;

/// 2^32.
pub const WORD_RANGE: u64 = 0x1_0000_0000;

/// Mathematical state of a complementary-multiply-with-carry generator.
#[verifier::ext_equal]
pub struct CmwcState {
    pub q: Seq<u32>,
    pub c: u32,
    pub i: usize,
}

impl CmwcState {
    /// The table has its full size and the cursor points into it.
    pub open spec fn wf(self) -> bool {
        self.q.len() == CMWC_SIZE && self.i < CMWC_SIZE
    }
}

/// `n` reduced to a 32-bit word.
pub open spec fn wrap32(n: int) -> u32 {
    (n % (WORD_RANGE as int)) as u32
}

/// Word `k` of the state table that `seed` produces: the seed, then two steps of
/// adding `PHI`, then each word the XOR of the words three and two places back,
/// `PHI` and its own position.
pub open spec fn seed_word(seed: u32, k: nat) -> u32
    decreases k,
{
    if k == 0 {
        seed
    } else if k == 1 {
        wrap32(seed + PHI)
    } else if k == 2 {
        wrap32(seed + PHI + PHI)
    } else {
        seed_word(seed, (k - 3) as nat) ^ seed_word(seed, (k - 2) as nat) ^ PHI ^ (k as u32)
    }
}

/// The state a generator seeded with `seed` starts in.
pub open spec fn cmwc_initial(seed: u32) -> CmwcState {
    CmwcState {
        q: Seq::new(CMWC_SIZE as nat, |k: int| seed_word(seed, k as nat)),
        c: CMWC_INITIAL_CARRY,
        i: (CMWC_SIZE - 1) as usize,
    }
}

/// One draw: the next state and the value handed out. The cursor moves on
/// cyclically; the word under it is multiplied and the carry added; the high half
/// becomes the new carry (corrected by one where the low half wrapped below it); the
/// reflected low half is written back and returned.
pub open spec fn cmwc_next(s: CmwcState) -> (CmwcState, u32) {
    let i = (s.i + 1) % (CMWC_SIZE as int);
    let t = CMWC_MULTIPLIER * s.q[i] + s.c;
    let c0 = t / (WORD_RANGE as int);
    let x0 = (t + c0) % (WORD_RANGE as int);
    let x = if x0 < c0 { x0 + 1 } else { x0 };
    let c = if x0 < c0 { c0 + 1 } else { c0 };
    let out = wrap32(CMWC_REFLECT - x);
    (CmwcState { q: s.q.update(i, out), c: c as u32, i: i as usize }, out)
}

/// The state after `n` draws from `s`.
pub open spec fn cmwc_after(s: CmwcState, n: nat) -> CmwcState
    decreases n,
{
    if n == 0 {
        s
    } else {
        cmwc_next(cmwc_after(s, (n - 1) as nat)).0
    }
}

/// The values of the first `n` draws from `s`, in order.
pub open spec fn cmwc_draws(s: CmwcState, n: nat) -> Seq<u32>
    decreases n,
{
    if n == 0 {
        Seq::empty()
    } else {
        cmwc_draws(s, (n - 1) as nat).push(cmwc_next(cmwc_after(s, (n - 1) as nat)).1)
    }
}

/// Two generators built from the same seed hand out the same values, draw for
/// draw, and are in the same state after any number of draws.
pub proof fn lemma_same_seed_same_draws(a: CmwcState, b: CmwcState, seed: u32, n: nat)
    requires
        a == cmwc_initial(seed),
        b == cmwc_initial(seed),
    ensures
        cmwc_draws(a, n) == cmwc_draws(b, n),
        cmwc_after(a, n) == cmwc_after(b, n),
{
}

/// Deterministic complementary-multiply-with-carry pseudo-random generator.
pub struct ComplementaryMultiplyWithCarryGen {
    q: Vec<u32>,
    c: u32,
    i: usize,
}

impl View for ComplementaryMultiplyWithCarryGen {
    type V = CmwcState;

    closed spec fn view(&self) -> CmwcState {
        CmwcState { q: self.q@, c: self.c, i: self.i }
    }
}

impl ComplementaryMultiplyWithCarryGen {
    pub open spec fn wf(&self) -> bool {
        self@.wf()
    }

    /// A generator whose state is determined by `seed` alone.
    pub fn new(seed: u32) -> (r: Self)
        ensures
            r.wf(),
            r@ == cmwc_initial(seed),
    {
        let mut q: Vec<u32> = vec![0u32; CMWC_SIZE];
        q.set(0, seed);
        q.set(1, seed.wrapping_add(PHI));
        q.set(2, seed.wrapping_add(PHI).wrapping_add(PHI));
        assert(q@[1] == seed_word(seed, 1));
        assert(q@[2] == seed_word(seed, 2));
        let mut k: usize = 3;
        while k < CMWC_SIZE
            invariant
                q@.len() == CMWC_SIZE,
                3 <= k <= CMWC_SIZE,
                forall|j: int| 0 <= j < k ==> #[trigger] q@[j] == seed_word(seed, j as nat),
            decreases CMWC_SIZE - k,
        {
            let w = q[k - 3] ^ q[k - 2] ^ PHI ^ (k as u32);
            q.set(k, w);
            k = k + 1;
        }
        let r = ComplementaryMultiplyWithCarryGen { q, c: CMWC_INITIAL_CARRY, i: CMWC_SIZE - 1 };
        assert(r@.q =~= cmwc_initial(seed).q);
        r
    }

    /// Draws the next 32-bit value.
    pub fn random(&mut self) -> (r: u32)
        requires
            old(self).wf(),
        ensures
            final(self).wf(),
            (final(self)@, r) == cmwc_next(old(self)@),
    {
        let a: u64 = CMWC_MULTIPLIER;
        self.i = (self.i + 1) % CMWC_SIZE;
        let i = self.i;
        let qi = self.q[i];
        assert(a * qi <= CMWC_MULTIPLIER * 0xffff_ffff) by (nonlinear_arith)
            requires
                a == CMWC_MULTIPLIER,
                qi <= 0xffff_ffff,
        ;
        let t: u64 = a * (qi as u64) + (self.c as u64);
        let c0: u64 = t / WORD_RANGE;
        assert(c0 <= CMWC_MULTIPLIER + 1) by {
            vstd::arithmetic::div_mod::lemma_div_is_ordered(
                t as int, ((CMWC_MULTIPLIER + 1) * WORD_RANGE) as int, WORD_RANGE as int);
            vstd::arithmetic::div_mod::lemma_div_multiples_vanish(
                (CMWC_MULTIPLIER + 1) as int, WORD_RANGE as int);
        }
        self.c = c0 as u32;
        let mut x: u32 = ((t + c0) % WORD_RANGE) as u32;
        if x < self.c {
            x = x + 1;
            self.c = self.c + 1;
        }
        let out = CMWC_REFLECT.wrapping_sub(x);
        self.q.set(i, out);
        out
    }
}

} // verus!
