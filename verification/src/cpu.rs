use vstd::prelude::*;
use vstd::arithmetic::power2::lemma2_to64;
use crate::bits::bit_at;

verus! {

/// A processor mode of the ARM7TDMI, as held in the low five bits of CPSR.
///
/// The variants carry no explicit discriminants: `mode as u32` gives the
/// declaration index (0 for `User` up to 6 for `System`), not the CPSR
/// encoding. Use [`Mode::to_bits`] for the CPSR encoding (0x10 for `User`,
/// 0x11 for `Fiq`, ..., 0x1F for `System`).
#[derive(Copy, Clone, Debug, PartialEq, Eq, Structural)]
pub enum Mode {
    User,
    Fiq,
    Irq,
    Supervisor,
    Abort,
    Undefined,
    System,
}

impl Mode {
    /// The five-bit CPSR encoding of the mode.
    pub open spec fn encoding(self) -> u32 {
        match self {
            Mode::User => 0x10,
            Mode::Fiq => 0x11,
            Mode::Irq => 0x12,
            Mode::Supervisor => 0x13,
            Mode::Abort => 0x17,
            Mode::Undefined => 0x1B,
            Mode::System => 0x1F,
        }
    }

    /// Returns the five-bit CPSR encoding of the mode.
    pub fn to_bits(self) -> (r: u32)
        ensures
            r == self.encoding(),
    {
        match self {
            Mode::User => 0x10,
            Mode::Fiq => 0x11,
            Mode::Irq => 0x12,
            Mode::Supervisor => 0x13,
            Mode::Abort => 0x17,
            Mode::Undefined => 0x1B,
            Mode::System => 0x1F,
        }
    }

    /// The register bank of the mode: User and System share the unbanked
    /// registers, each other mode has a bank of its own.
    pub open spec fn bank(self) -> Option<usize> {
        match self {
            Mode::User | Mode::System => None,
            Mode::Fiq => Some(0),
            Mode::Irq => Some(1),
            Mode::Supervisor => Some(2),
            Mode::Abort => Some(3),
            Mode::Undefined => Some(4),
        }
    }

    /// Returns the index of the mode's banked registers, or `None` for the
    /// modes that use the unbanked ones.
    pub fn bank_index(self) -> (r: Option<usize>)
        ensures
            r == self.bank(),
    {
        match self {
            Self::User | Self::System => None,
            Self::Fiq => Some(0),
            Self::Irq => Some(1),
            Self::Supervisor => Some(2),
            Self::Abort => Some(3),
            Self::Undefined => Some(4),
        }
    }
}

/// The mode named by the low five bits of `bits`, if those bits name one.
pub open spec fn mode_of(bits: u32) -> Option<Mode> {
    let m: u32 = bits % 32;
    if m == 0x10 {
        Some(Mode::User)
    } else if m == 0x11 {
        Some(Mode::Fiq)
    } else if m == 0x12 {
        Some(Mode::Irq)
    } else if m == 0x13 {
        Some(Mode::Supervisor)
    } else if m == 0x17 {
        Some(Mode::Abort)
    } else if m == 0x1B {
        Some(Mode::Undefined)
    } else if m == 0x1F {
        Some(Mode::System)
    } else {
        None
    }
}

/// Decodes the mode from the low five bits of a status register value; the
/// higher bits are ignored.
pub fn mode_from_bits(bits: u32) -> (r: Option<Mode>)
    ensures
        r == mode_of(bits),
{
    let m: u32 = bits & 0x1F;
    proof {
        assert(bits & 0x1F == bits % 32) by (bit_vector);
    }
    match m {
        0x10 => Some(Mode::User),
        0x11 => Some(Mode::Fiq),
        0x12 => Some(Mode::Irq),
        0x13 => Some(Mode::Supervisor),
        0x17 => Some(Mode::Abort),
        0x1B => Some(Mode::Undefined),
        0x1F => Some(Mode::System),
        _ => None,
    }
}

/// A physical general-purpose register.
pub enum RegSlot {
    /// One of r0..=r15 as seen by User and System mode.
    Shared(usize),
    /// The FIQ copy of r8 + i, for i below 5.
    FiqHigh(usize),
    /// The banked r13 (stack pointer) of bank i.
    BankedSp(usize),
    /// The banked r14 (link register) of bank i.
    BankedLr(usize),
}

impl RegSlot {
    pub open spec fn is_valid(self) -> bool {
        match self {
            RegSlot::Shared(i) => i < 16,
            RegSlot::FiqHigh(i) => i < 5,
            RegSlot::BankedSp(b) => b < 5,
            RegSlot::BankedLr(b) => b < 5,
        }
    }
}

/// The physical register that register number `idx` (below 16) names in
/// `mode`: r15 is never banked, FIQ has its own r8..=r12, and every mode but
/// User and System has its own r13 and r14.
pub open spec fn slot_for(mode: Mode, idx: nat) -> RegSlot {
    if idx == 15 {
        RegSlot::Shared(15)
    } else if 8 <= idx <= 12 && mode == Mode::Fiq {
        RegSlot::FiqHigh((idx - 8) as usize)
    } else if idx == 13 && mode.bank() is Some {
        RegSlot::BankedSp(mode.bank().unwrap())
    } else if idx == 14 && mode.bank() is Some {
        RegSlot::BankedLr(mode.bank().unwrap())
    } else {
        RegSlot::Shared(idx as usize)
    }
}

/// The abstract state of the register file.
#[verifier::ext_equal]
pub struct CpuView {
    /// The current program status register.
    pub cpsr: u32,
    /// The value of each physical register.
    pub regs: Map<RegSlot, u32>,
    /// The saved program status register of each bank.
    pub spsr: Seq<u32>,
}

impl CpuView {
    /// The state is well formed: CPSR names a mode, every physical register
    /// has a value and there is one SPSR per bank.
    pub open spec fn wf(self) -> bool {
        &&& mode_of(self.cpsr) is Some
        &&& forall|s: RegSlot| #[trigger] self.regs.contains_key(s) <==> s.is_valid()
        &&& self.spsr.len() == 5
    }

    pub open spec fn mode(self) -> Mode {
        mode_of(self.cpsr).unwrap()
    }

    /// The physical register that register number `index` names now; only
    /// the low four bits of `index` count.
    pub open spec fn slot(self, index: u32) -> RegSlot {
        slot_for(self.mode(), (index % 16) as nat)
    }

    pub open spec fn read(self, index: u32) -> u32 {
        self.regs[self.slot(index)]
    }

    pub open spec fn write(self, index: u32, value: u32) -> CpuView {
        CpuView { regs: self.regs.insert(self.slot(index), value), ..self }
    }

    pub open spec fn with_cpsr(self, cpsr: u32) -> CpuView {
        CpuView { cpsr, ..self }
    }
}

/// The state after a hardware reset: Supervisor mode with IRQ and FIQ
/// disabled (CPSR bits 7 and 6 set), every register, the PC included, zero.
pub open spec fn reset_state() -> CpuView {
    CpuView {
        cpsr: 0xD3,
        regs: Map::new(|s: RegSlot| s.is_valid(), |s: RegSlot| 0u32),
        spsr: Seq::new(5, |i: int| 0u32),
    }
}

/// The ARM7TDMI general-purpose register file with its banked copies.
pub struct Cpu {
    r: [u32; 16],
    cpsr: u32,
    r8_12_fiq: [u32; 5],
    r13_banked: [u32; 5],
    r14_banked: [u32; 5],
    spsr_banked: [u32; 5],
}

impl View for Cpu {
    type V = CpuView;

    closed spec fn view(&self) -> CpuView {
        CpuView {
            cpsr: self.cpsr,
            regs: Map::new(
                |s: RegSlot| s.is_valid(),
                |s: RegSlot|
                    match s {
                        RegSlot::Shared(i) => self.r@[i as int],
                        RegSlot::FiqHigh(i) => self.r8_12_fiq@[i as int],
                        RegSlot::BankedSp(b) => self.r13_banked@[b as int],
                        RegSlot::BankedLr(b) => self.r14_banked@[b as int],
                    },
            ),
            spsr: self.spsr_banked@,
        }
    }
}

impl Cpu {
    #[verifier::type_invariant]
    spec fn inv(self) -> bool {
        mode_of(self.cpsr) is Some
    }

    /// Initializes the CPU to the hardware reset state:
    /// Supervisor mode, interrupts disabled, PC at 0.
    pub fn new() -> (r: Self)
        ensures
            r@ == reset_state(),
            r@.wf(),
    {
        // Mode 0x13 (Supervisor) | I-bit (1<<7) | F-bit (1<<6)
        let cpsr: u32 = 0x13 | (1 << 7) | (1 << 6);
        proof {
            assert(0x13u32 | (1u32 << 7u32) | (1u32 << 6u32) == 0xD3) by (bit_vector);
        }
        let r = Self {
            r: [0; 16],
            cpsr,
            r8_12_fiq: [0; 5],
            r13_banked: [0; 5],
            r14_banked: [0; 5],
            spsr_banked: [0; 5],
        };
        proof {
            assert(r@.regs =~= reset_state().regs);
            assert(r@.spsr =~= reset_state().spsr);
        }
        r
    }

    /// The current program status register.
    pub fn cpsr(&self) -> (r: u32)
        ensures
            r == self@.cpsr,
            mode_of(r) is Some,
    {
        proof {
            use_type_invariant(self);
        }
        self.cpsr
    }

    /// Replaces the current program status register; the new value must name
    /// a mode.
    pub fn set_cpsr(&mut self, value: u32)
        requires
            mode_of(value) is Some,
        ensures
            final(self)@ == old(self)@.with_cpsr(value),
            final(self)@.wf(),
    {
        self.cpsr = value;
        proof {
            assert(self@.regs =~= old(self)@.regs);
        }
    }

    fn get_mode(&self) -> (r: Mode)
        ensures
            r == self@.mode(),
    {
        proof {
            use_type_invariant(self);
        }
        mode_from_bits(self.cpsr).expect("CPSR mode bits corrupted")
    }

    /// Reads register `index` (its low four bits) as seen in the current mode.
    pub fn read_reg(&self, index: u32) -> (r: u32)
        ensures
            r == self@.read(index),
            self@.wf(),
    {
        proof {
            use_type_invariant(self);
        }
        let idx: usize = (index & 0xF) as usize;
        proof {
            assert(index & 0xF == index % 16) by (bit_vector);
        }
        let mode = self.get_mode();

        if idx == 15 {
            return self.r[15];
        }

        if 8 <= idx && idx <= 12 && mode == Mode::Fiq {
            return self.r8_12_fiq[idx - 8];
        }

        if idx == 13 || idx == 14 {
            if let Some(bank) = mode.bank_index() {
                return if idx == 13 { self.r13_banked[bank] } else { self.r14_banked[bank] };
            }
        }

        self.r[idx]
    }

    /// Writes register `index` (its low four bits) as seen in the current mode.
    pub fn write_reg(&mut self, index: u32, value: u32)
        ensures
            final(self)@ == old(self)@.write(index, value),
            final(self)@.wf(),
    {
        proof {
            use_type_invariant(&*self);
        }
        let idx: usize = (index & 0xF) as usize;
        proof {
            assert(index & 0xF == index % 16) by (bit_vector);
        }
        let mode = self.get_mode();

        if idx == 15 {
            self.r[15] = value;
            assert(self@.regs =~= old(self)@.write(index, value).regs);
            return;
        }

        if 8 <= idx && idx <= 12 && mode == Mode::Fiq {
            self.r8_12_fiq[idx - 8] = value;
            assert(self@.regs =~= old(self)@.write(index, value).regs);
            return;
        }

        if idx == 13 || idx == 14 {
            if let Some(bank) = mode.bank_index() {
                if idx == 13 {
                    self.r13_banked[bank] = value;
                } else {
                    self.r14_banked[bank] = value;
                }
                assert(self@.regs =~= old(self)@.write(index, value).regs);
                return;
            }
        }

        self.r[idx] = value;
        assert(self@.regs =~= old(self)@.write(index, value).regs);
    }
}

/// Decoding a mode's own encoding gives the mode back, and a status value
/// decodes to a mode exactly when its low five bits are that mode's encoding;
/// the bits above them never matter.
pub proof fn lemma_mode_encoding_roundtrip(mode: Mode, bits: u32)
    ensures
        mode_of(mode.encoding()) == Some(mode),
        mode.encoding() < 32,
        mode_of(bits) == Some(mode) <==> bits % 32 == mode.encoding(),
        mode_of(bits) == mode_of(bits % 32),
{
}

/// A write reaches exactly one physical register: read back in any mode, the
/// register that names the same physical register gives the written value,
/// and every other register is unchanged.
pub proof fn lemma_write_then_read(s: CpuView, index: u32, value: u32, cpsr: u32, other: u32)
    requires
        s.wf(),
        mode_of(cpsr) is Some,
    ensures
        s.write(index, value).wf(),
        s.write(index, value).read(index) == value,
        s.write(index, value).with_cpsr(cpsr).read(other) == if s.slot(index)
            == s.with_cpsr(cpsr).slot(other) {
            value
        } else {
            s.with_cpsr(cpsr).read(other)
        },
{
}

/// Changing CPSR leaves every physical register as it was.
pub proof fn lemma_mode_switch_keeps_registers(s: CpuView, cpsr: u32)
    requires
        s.wf(),
        mode_of(cpsr) is Some,
    ensures
        s.with_cpsr(cpsr).wf(),
        s.with_cpsr(cpsr).regs == s.regs,
        s.with_cpsr(cpsr).spsr == s.spsr,
{
}

/// The program counter r15 is never banked: every mode reads the same one.
pub proof fn lemma_pc_not_banked(s: CpuView, cpsr: u32)
    requires
        s.wf(),
        mode_of(cpsr) is Some,
    ensures
        s.with_cpsr(cpsr).read(15) == s.read(15),
        forall|m1: Mode, m2: Mode| slot_for(m1, 15) == slot_for(m2, 15),
{
}

/// User and System mode see the very same registers.
pub proof fn lemma_user_system_share(idx: nat)
    requires
        idx < 16,
    ensures
        slot_for(Mode::User, idx) == slot_for(Mode::System, idx),
{
}

/// Banking: r8..=r12 of FIQ mode are registers of their own, and r13 and r14
/// of two modes are the same register only when both modes are User or
/// System. Every register number names a valid physical register.
pub proof fn lemma_banked_registers_distinct(m1: Mode, m2: Mode, idx: nat)
    requires
        idx < 16,
    ensures
        slot_for(m1, idx).is_valid(),
        8 <= idx <= 12 && m1 == Mode::Fiq && m2 != Mode::Fiq ==> slot_for(m1, idx) != slot_for(
            m2,
            idx,
        ),
        (idx == 13 || idx == 14) && m1 != m2 && (m1.bank() is Some || m2.bank() is Some)
            ==> slot_for(m1, idx) != slot_for(m2, idx),
        idx < 8 ==> slot_for(m1, idx) == slot_for(m2, idx),
{
}

/// The reset state is in Supervisor mode with IRQ (bit 7) and FIQ (bit 6)
/// disabled, and the PC is 0.
pub proof fn lemma_reset_state()
    ensures
        reset_state().wf(),
        reset_state().mode() == Mode::Supervisor,
        bit_at(reset_state().cpsr, 7),
        bit_at(reset_state().cpsr, 6),
        reset_state().read(15) == 0,
        reset_state().cpsr == 0xD3,
        forall|s: RegSlot| s.is_valid() ==> reset_state().regs[s] == 0,
        forall|i: int| 0 <= i < 5 ==> reset_state().spsr[i] == 0,
{
    lemma2_to64();
}

/// The mode field encoding of the ARM architecture, read from the low five
/// bits of a status value: User 0x10, FIQ 0x11, IRQ 0x12, Supervisor 0x13,
/// Abort 0x17, Undefined 0x1B, System 0x1F; every other value names no mode.
pub proof fn lemma_mode_encoding_table(bits: u32)
    ensures
        mode_of(bits) == Some(Mode::User) <==> bits % 32 == 0x10,
        mode_of(bits) == Some(Mode::Fiq) <==> bits % 32 == 0x11,
        mode_of(bits) == Some(Mode::Irq) <==> bits % 32 == 0x12,
        mode_of(bits) == Some(Mode::Supervisor) <==> bits % 32 == 0x13,
        mode_of(bits) == Some(Mode::Abort) <==> bits % 32 == 0x17,
        mode_of(bits) == Some(Mode::Undefined) <==> bits % 32 == 0x1B,
        mode_of(bits) == Some(Mode::System) <==> bits % 32 == 0x1F,
{
}

/// The banked modes are numbered 0 to 4 in the order of their encodings
/// (FIQ, IRQ, Supervisor, Abort, Undefined); User and System have no bank.
pub proof fn lemma_bank_numbering(m1: Mode, m2: Mode)
    ensures
        m1.bank() is None <==> (m1 == Mode::User || m1 == Mode::System),
        m1.bank() is Some ==> m1.bank().unwrap() < 5,
        m1.bank() is Some && m2.bank() is Some ==> (m1.encoding() < m2.encoding()
            <==> m1.bank().unwrap() < m2.bank().unwrap()),
        m1.bank() == m2.bank() <==> (m1 == m2 || (m1.bank() is None && m2.bank() is None)),
{
}

/// Distinct register numbers never share a physical register, whatever the
/// modes; and the same register number names the same physical register in
/// two modes exactly when it is r0-r7 or r15, or r8-r12 with neither or both
/// modes FIQ, or r13/r14 with the same bank.
pub proof fn lemma_register_sharing(m1: Mode, m2: Mode, i: nat, j: nat)
    requires
        i < 16,
        j < 16,
    ensures
        slot_for(m1, i) == slot_for(m2, j) ==> i == j,
        slot_for(m1, i) == slot_for(m2, i) <==> (i < 8 || i == 15 || (8 <= i <= 12 && ((m1
            == Mode::Fiq) == (m2 == Mode::Fiq))) || ((i == 13 || i == 14) && m1.bank()
            == m2.bank())),
{
}

} // verus!
