//! A fixed-size ring of samples and its integer mean.

use vstd::prelude::*;

verus! {

/// Sum of all elements of `s`.
pub open spec fn seq_sum(s: Seq<i64>) -> int
    decreases s.len(),
{
    if s.len() == 0 {
        0
    } else {
        seq_sum(s.drop_last()) + s.last()
    }
}

/// Quotient of `a` by a positive `b`, rounded toward zero.
pub open spec fn div_toward_zero(a: int, b: int) -> int
    recommends
        b > 0,
{
    if a >= 0 {
        a / b
    } else {
        -((-a) / b)
    }
}

/// The sum of `i` samples and one more stays within `i + 1` times the range
/// of a sample, and that product fits in 128 bits.
proof fn lemma_ring_bounds(i: int)
    requires
        0 <= i < 0xffff_ffff_ffff_ffff,
    ensures
        (i + 1) * 0x8000_0000_0000_0000 == i * 0x8000_0000_0000_0000 + 0x8000_0000_0000_0000,
        (i + 1) * 0x7fff_ffff_ffff_ffff == i * 0x7fff_ffff_ffff_ffff + 0x7fff_ffff_ffff_ffff,
        (i + 1) * 0x8000_0000_0000_0000 <= 0xffff_ffff_ffff_ffff * 0x8000_0000_0000_0000,
{
    assert((i + 1) * 0x8000_0000_0000_0000 == i * 0x8000_0000_0000_0000 + 0x8000_0000_0000_0000)
        by (nonlinear_arith);
    assert((i + 1) * 0x7fff_ffff_ffff_ffff == i * 0x7fff_ffff_ffff_ffff + 0x7fff_ffff_ffff_ffff)
        by (nonlinear_arith);
    assert((i + 1) * 0x8000_0000_0000_0000 <= 0xffff_ffff_ffff_ffff * 0x8000_0000_0000_0000)
        by (nonlinear_arith)
        requires
            0 <= i < 0xffff_ffff_ffff_ffff,
    ;
}

/// The mathematical state of a running average.
pub struct AverageState {
    /// The ring, one entry per slot.
    pub values: Seq<i64>,
    /// The slot that the next sample overwrites.
    pub cursor: nat,
    /// Whether a sample has been added since creation or the last `deinit`.
    pub initialized: bool,
}

impl AverageState {
    /// The state of a new ring of `n` slots.
    pub open spec fn fresh(n: nat) -> AverageState {
        AverageState { values: Seq::new(n, |i: int| 0i64), cursor: 0, initialized: false }
    }

    /// The cursor points into the ring (or is 0 for the empty ring).
    pub open spec fn wf(self) -> bool {
        if self.values.len() == 0 {
            self.cursor == 0
        } else {
            self.cursor < self.values.len()
        }
    }

    /// The state after `add(value)`.
    pub open spec fn add(self, value: i64) -> AverageState {
        if self.initialized {
            AverageState {
                values: self.values.update(self.cursor as int, value),
                cursor: (((self.cursor + 1) as int) % (self.values.len() as int)) as nat,
                initialized: true,
            }
        } else {
            AverageState {
                values: Seq::new(self.values.len(), |i: int| value),
                cursor: self.cursor,
                initialized: true,
            }
        }
    }

    /// The state after `deinit()`.
    pub open spec fn deinit(self) -> AverageState {
        AverageState { initialized: false, ..self }
    }

    /// The mean of all slots, rounded toward zero.
    pub open spec fn average(self) -> int {
        div_toward_zero(seq_sum(self.values), self.values.len() as int)
    }
}

/// Mean of the last `N` samples, kept in a ring of `N` slots.
pub struct RunningAverage<const N: usize> {
    values: [i64; N],
    current_position: usize,
    initialized: bool,
}

impl<const N: usize> View for RunningAverage<N> {
    type V = AverageState;

    closed spec fn view(&self) -> AverageState {
        AverageState {
            values: self.values@,
            cursor: self.current_position as nat,
            initialized: self.initialized,
        }
    }
}

impl<const N: usize> RunningAverage<N> {
    #[verifier::type_invariant]
    spec fn inv(self) -> bool {
        if N == 0 {
            self.current_position == 0
        } else {
            self.current_position < N
        }
    }

    /// A ring of `N` zeros, not yet initialized.
    pub fn new() -> (r: Self)
        ensures
            r@ == AverageState::fresh(N as nat),
            r@.wf(),
    {
        let r = Self { values: [0i64; N], current_position: 0, initialized: false };
        assert(r@.values =~= Seq::new(N as nat, |i: int| 0i64));
        r
    }

    fn init(&mut self, value: i64)
        ensures
            final(self)@.values == Seq::new(N as nat, |i: int| value),
            final(self)@.cursor == old(self)@.cursor,
            final(self)@.initialized,
    {
        proof {
            use_type_invariant(&*self);
        }
        self.values = [value; N];
        self.initialized = true;
        assert(self@.values =~= Seq::new(N as nat, |i: int| value));
    }

    /// Marks the ring uninitialized; the stored values stay.
    pub fn deinit(&mut self)
        ensures
            final(self)@ == old(self)@.deinit(),
            final(self)@.wf(),
    {
        proof {
            use_type_invariant(&*self);
        }
        self.initialized = false;
    }
}

impl<const N: usize> RunningAverage<N> {
    /// The mean of all `N` slots, rounded toward zero.
    pub fn get_average(&self) -> (r: i64)
        requires
            N > 0,
        ensures
            r == self@.average(),
    {
        let mut sum: i128 = 0;
        let mut i: usize = 0;
        while i < N
            invariant
                i <= N,
                sum == seq_sum(self.values@.take(i as int)),
                -(i as int) * 0x8000_0000_0000_0000 <= sum <= (i as int) * 0x7fff_ffff_ffff_ffff,
            decreases N - i,
        {
            proof {
                let next = self.values@.take(i + 1);
                assert(next.drop_last() =~= self.values@.take(i as int));
                assert(next.last() == self.values@[i as int]);
                lemma_ring_bounds(i as int);
            }
            sum = sum + self.values[i] as i128;
            i = i + 1;
        }
        assert(self.values@.take(N as int) =~= self.values@);
        let n: i128 = N as i128;
        if sum >= 0 {
            assert(sum / n <= 0x7fff_ffff_ffff_ffff) by (nonlinear_arith)
                requires
                    0 <= sum <= n * 0x7fff_ffff_ffff_ffff,
                    n > 0,
            ;
            (sum / n) as i64
        } else {
            let neg: i128 = -sum;
            assert(neg / n <= 0x8000_0000_0000_0000) by (nonlinear_arith)
                requires
                    0 <= neg <= n * 0x8000_0000_0000_0000,
                    n > 0,
            ;
            (-(neg / n)) as i64
        }
    }
}

impl<const N: usize> RunningAverage<N> {
    /// Adds a sample: the first one after creation or `deinit` fills every
    /// slot, a later one overwrites the slot at the cursor and moves the
    /// cursor on by one, modulo `N`.
    pub fn add(&mut self, value: i64)
        requires
            old(self)@.initialized ==> N > 0,
        ensures
            final(self)@ == old(self)@.add(value),
            final(self)@.wf(),
    {
        proof {
            use_type_invariant(&*self);
        }
        if self.initialized {
            self.values[self.current_position] = value;
            self.current_position = (self.current_position + 1) % N;
            assert(self@.values =~= old(self)@.add(value).values);
        } else {
            self.init(value)
        }
    }
}

/// A ring whose slots all hold `value` sums to the slot count times `value`.
pub proof fn lemma_sum_of_constant(n: nat, value: i64)
    ensures
        seq_sum(Seq::new(n, |i: int| value)) == n * value,
    decreases n,
{
    let s = Seq::new(n, |i: int| value);
    if n > 0 {
        lemma_sum_of_constant((n - 1) as nat, value);
        assert(s.drop_last() =~= Seq::new((n - 1) as nat, |i: int| value));
        assert(s.last() == value);
        assert(seq_sum(s) == seq_sum(s.drop_last()) + s.last());
        assert(n * value == (n - 1) * value + value) by (nonlinear_arith);
    } else {
        assert(seq_sum(s) == 0);
        assert(n * value == 0) by (nonlinear_arith)
            requires
                n == 0,
        ;
    }
}

/// The first sample added to a ring that is not initialized is the mean
/// afterwards, whatever the number of slots.
pub proof fn law_first_add_is_average(s: AverageState, value: i64)
    requires
        s.values.len() > 0,
        !s.initialized,
    ensures
        s.add(value).average() == value,
{
    let n = s.values.len();
    lemma_sum_of_constant(n, value);
    if value >= 0 {
        assert((n * value) / (n as int) == value) by (nonlinear_arith)
            requires
                n > 0,
        ;
        assert(n * value >= 0) by (nonlinear_arith)
            requires
                n > 0,
                value >= 0,
        ;
    } else {
        assert((-(n * value)) / (n as int) == -value) by (nonlinear_arith)
            requires
                n > 0,
        ;
        assert(n * value < 0) by (nonlinear_arith)
            requires
                n > 0,
                value < 0,
        ;
    }
}

/// After `deinit`, the next sample fills every slot, as the first sample does
/// on a new ring of the same size, wherever the cursor stood.
pub proof fn law_add_after_deinit_refills(s: AverageState, value: i64)
    ensures
        s.deinit().add(value).values == AverageState::fresh(s.values.len()).add(value).values,
        s.deinit().add(value).initialized,
        s.deinit().add(value).cursor == s.cursor,
        s.values.len() > 0 ==> s.deinit().add(value).average() == value,
{
    assert(s.deinit().add(value).values =~= AverageState::fresh(s.values.len()).add(
        value,
    ).values);
    if s.values.len() > 0 {
        law_first_add_is_average(s.deinit(), value);
    }
}

} // verus!
