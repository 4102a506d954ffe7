//! Reading the busy flag out of the status shift register: toggle the latch,
//! then clock out eight bits, most significant first. A zero in bit 7 means
//! that the panel is busy.
use vstd::prelude::*;

use vstd::arithmetic::power2::{lemma2_to64, lemma_pow2_unfold, pow2};

verus! {

/// The register bit that holds the panel's busy flag.
pub const IS_BUSY_FLAG: u8 = 7;

/// One step of reading the register.
#[derive(Clone, Copy, PartialEq, Eq, Debug, Structural)]
pub enum RegisterStep {
    /// Drive the latch line low.
    LatchLow,
    /// Drive the latch line high.
    LatchHigh,
    /// Drive the clock line low.
    ClockLow,
    /// Drive the clock line high.
    ClockHigh,
    /// Wait this many microseconds.
    DelayUs(u32),
    /// Read the data line and hand its level to `sample`.
    Sample,
}

/// One bit: sample the data line, then pulse the clock.
pub open spec fn bit_cycle() -> Seq<RegisterStep> {
    seq![
        RegisterStep::Sample,
        RegisterStep::ClockLow,
        RegisterStep::DelayUs(1),
        RegisterStep::ClockHigh,
        RegisterStep::DelayUs(1),
    ]
}

/// `n` bit cycles in a row.
pub open spec fn bit_cycles(n: nat) -> Seq<RegisterStep>
    decreases n,
{
    if n == 0 {
        seq![]
    } else {
        bit_cycles((n - 1) as nat) + bit_cycle()
    }
}

/// A whole register read: latch, then eight bits.
pub open spec fn read_plan() -> Seq<RegisterStep> {
    seq![
        RegisterStep::LatchLow,
        RegisterStep::DelayUs(1),
        RegisterStep::LatchHigh,
        RegisterStep::DelayUs(1),
    ] + bit_cycles(8)
}

/// The number whose binary digits, most significant first, are `bits`.
pub open spec fn bits_value(bits: Seq<bool>) -> nat
    decreases bits.len(),
{
    if bits.len() == 0 {
        0
    } else {
        2 * bits_value(bits.drop_last()) + if bits.last() {
            1nat
        } else {
            0nat
        }
    }
}

/// Whether a register reading says that the panel is busy: a failed read
/// counts as not busy.
pub open spec fn busy_reading(reading: Option<u8>) -> bool {
    match reading {
        Some(v) => v & 0x80 == 0,
        None => false,
    }
}

/// The value of `n` bits stays below two to the `n`.
proof fn lemma_bits_bound(bits: Seq<bool>)
    ensures
        bits_value(bits) < pow2(bits.len()),
    decreases bits.len(),
{
    if bits.len() > 0 {
        lemma_bits_bound(bits.drop_last());
        lemma_pow2_unfold(bits.len());
    } else {
        lemma2_to64();
    }
}

/// A register read in progress: the bits sampled so far.
pub struct InkyFrameShiftRegister {
    value: u8,
    count: u8,
    bits: Ghost<Seq<bool>>,
}

impl View for InkyFrameShiftRegister {
    type V = Seq<bool>;

    closed spec fn view(&self) -> Seq<bool> {
        self.bits@
    }
}

impl InkyFrameShiftRegister {
    /// The reader holds at most eight bits and their value.
    #[verifier::type_invariant]
    closed spec fn inv(self) -> bool {
        &&& self.count as int == self.bits@.len()
        &&& self.count <= 8
        &&& self.value as int == bits_value(self.bits@)
    }

    /// A reader with no bits sampled yet.
    pub fn new() -> (r: InkyFrameShiftRegister)
        ensures
            r@ == Seq::<bool>::empty(),
    {
        InkyFrameShiftRegister { value: 0, count: 0, bits: Ghost(Seq::empty()) }
    }

    /// The steps of one register read, in order.
    pub fn read_register() -> (r: Vec<RegisterStep>)
        ensures
            r@ == read_plan(),
    {
        let mut plan: Vec<RegisterStep> = Vec::new();
        plan.push(RegisterStep::LatchLow);
        plan.push(RegisterStep::DelayUs(1));
        plan.push(RegisterStep::LatchHigh);
        plan.push(RegisterStep::DelayUs(1));
        let mut k: u8 = 0;
        while k < 8
            invariant
                k <= 8,
                plan@ == seq![
                    RegisterStep::LatchLow,
                    RegisterStep::DelayUs(1),
                    RegisterStep::LatchHigh,
                    RegisterStep::DelayUs(1),
                ] + bit_cycles(k as nat),
            decreases 8 - k,
        {
            plan.push(RegisterStep::Sample);
            plan.push(RegisterStep::ClockLow);
            plan.push(RegisterStep::DelayUs(1));
            plan.push(RegisterStep::ClockHigh);
            plan.push(RegisterStep::DelayUs(1));
            k = k + 1;
            assert(plan@ =~= seq![
                RegisterStep::LatchLow,
                RegisterStep::DelayUs(1),
                RegisterStep::LatchHigh,
                RegisterStep::DelayUs(1),
            ] + bit_cycles(k as nat));
        }
        plan
    }

    /// Takes in the level of the data line as the next, less significant,
    /// bit. Once eight bits are in, further samples are ignored.
    pub fn sample(&mut self, high: bool)
        ensures
            final(self)@ == if old(self)@.len() < 8 {
                old(self)@.push(high)
            } else {
                old(self)@
            },
    {
        proof {
            use_type_invariant(&*self);
        }
        if self.count >= 8 {
            return;
        }
        let ghost bits = self.bits@.push(high);
        proof {
            lemma_bits_bound(self.bits@);
            let n = self.bits@.len();
            lemma2_to64();
            if n == 0 {} else if n == 1 {} else if n == 2 {} else if n == 3 {} else if n == 4 {
            } else if n == 5 {} else if n == 6 {} else {
                assert(n == 7);
            }
            assert(pow2(n) <= 128);
            assert(bits.drop_last() =~= self.bits@);
        }
        let value = self.value * 2 + if high {
            1
        } else {
            0
        };
        *self = InkyFrameShiftRegister { value, count: self.count + 1, bits: Ghost(bits) };
    }

    /// The register's value once all eight bits are in.
    pub fn value(&self) -> (r: Option<u8>)
        ensures
            r == (if self@.len() == 8 {
                Some(bits_value(self@) as u8)
            } else {
                None
            }),
    {
        proof {
            use_type_invariant(self);
        }
        if self.count == 8 {
            Some(self.value)
        } else {
            None
        }
    }

    /// One bit of a register value, left in place: `register` masked to
    /// bit `bit_index`.
    pub fn read_register_bit(register: u8, bit_index: u8) -> (r: u8)
        requires
            bit_index < 8,
        ensures
            r == register & (1u8 << bit_index),
    {
        register & (1u8 << bit_index)
    }

    /// Whether a reading says that the panel is busy: bit 7 clear. A failed
    /// read counts as not busy.
    pub fn is_busy(reading: Option<u8>) -> (r: bool)
        ensures
            r == busy_reading(reading),
    {
        match reading {
            Some(v) => {
                let bit = InkyFrameShiftRegister::read_register_bit(v, IS_BUSY_FLAG);
                assert((v & (1u8 << 7u8) == 0) == (v & 0x80 == 0)) by (bit_vector);
                bit == 0
            },
            None => false,
        }
    }
}

} // verus!
