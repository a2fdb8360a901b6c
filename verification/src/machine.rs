use vstd::prelude::*;
use crate::mem::AddressingMode;

verus! {

/// Number of bytes in the address space: one for every 16-bit address.
pub const MEMORY_SIZE: usize = 0x10000;

/// Where a program image is placed by `load`.
pub const PROGRAM_START: u16 = 0x8000;

/// Address of the little-endian word that `reset` copies into the program counter.
pub const RESET_VECTOR: u16 = 0xFFFC;

/// Status bit 1: the last value produced was zero.
pub const ZERO_FLAG: u8 = 0b0000_0010;

/// Status bit 7: the last value produced had its high bit set.
pub const NEGATIVE_FLAG: u8 = 0b1000_0000;

/// BRK: stops the machine.
pub const OP_BRK: u8 = 0x00;

/// STA with a zero-page operand.
pub const OP_STA_ZERO_PAGE: u8 = 0x85;

/// STA with a zero-page operand indexed by X.
pub const OP_STA_ZERO_PAGE_X: u8 = 0x95;

/// LDX with an immediate operand.
pub const OP_LDX_IMMEDIATE: u8 = 0xA2;

/// LDA with a zero-page operand.
pub const OP_LDA_ZERO_PAGE: u8 = 0xA5;

/// LDA with an immediate operand.
pub const OP_LDA_IMMEDIATE: u8 = 0xA9;

/// TAX: copies A into X.
pub const OP_TAX: u8 = 0xAA;

/// LDA with an absolute operand.
pub const OP_LDA_ABSOLUTE: u8 = 0xAD;

/// INX: increments X.
pub const OP_INX: u8 = 0xE8;

/// NOP: does nothing.
pub const OP_NOP: u8 = 0xEA;

/// `base + index` inside the zero page: the carry out of bit 7 is dropped.
pub open spec fn zero_page_offset(base: u8, index: u8) -> u8 {
    ((base + index) % 0x100) as u8
}

/// `base + index` inside the address space: the carry out of bit 15 is dropped.
pub open spec fn address_offset(base: u16, index: int) -> u16 {
    ((base + index) % 0x10000) as u16
}

/// The little-endian word made of a low and a high byte.
pub open spec fn word(lo: u8, hi: u8) -> u16 {
    (lo + 0x100 * hi) as u16
}

/// The low byte of a word.
pub open spec fn low_byte(w: u16) -> u8 {
    (w % 0x100) as u8
}

/// The high byte of a word.
pub open spec fn high_byte(w: u16) -> u8 {
    (w / 0x100) as u8
}

/// The one flag rule of the processor: bit 1 of the result says whether
/// `value` is zero, bit 7 is bit 7 of `value`, and the six other bits are
/// those of `status`.
pub open spec fn updated_flags(status: u8, value: u8) -> u8 {
    (status & !(ZERO_FLAG | NEGATIVE_FLAG)) | (if value == 0 {
        ZERO_FLAG
    } else {
        0u8
    }) | (value & NEGATIVE_FLAG)
}

/// Interpreting `program` directly, starting at index `at`, comes to a BRK
/// without leaving the program: every opcode and every LDA operand on the way
/// lies inside it, at an index that a 16-bit program counter can step past.
pub open spec fn image_halts(program: Seq<u8>, at: int) -> bool
    decreases program.len() - at,
{
    if 0 <= at < program.len() && at < 0xFFFF {
        let opcode = program[at];
        if opcode == OP_BRK {
            true
        } else if opcode == OP_LDA_IMMEDIATE {
            at + 1 < program.len() && at + 1 < 0xFFFF && image_halts(program, at + 2)
        } else {
            image_halts(program, at + 1)
        }
    } else {
        false
    }
}

/// The processor and its address space as a mathematical value.
#[verifier::ext_equal]
pub struct Machine {
    pub register_a: u8,
    pub register_x: u8,
    pub register_y: u8,
    pub status: u8,
    pub program_counter: u16,
    pub memory: Seq<u8>,
}

impl Machine {
    /// The address space holds exactly one byte for every 16-bit address.
    pub open spec fn wf(self) -> bool {
        self.memory.len() == MEMORY_SIZE
    }

    /// A machine with every register and every byte of memory zero.
    pub open spec fn blank() -> Machine {
        Machine {
            register_a: 0,
            register_x: 0,
            register_y: 0,
            status: 0,
            program_counter: 0,
            memory: Seq::new(MEMORY_SIZE as nat, |i: int| 0u8),
        }
    }

    /// The byte at `addr`.
    pub open spec fn read(self, addr: u16) -> u8 {
        self.memory[addr as int]
    }

    /// The machine after `data` is stored at `addr`.
    pub open spec fn write(self, addr: u16, data: u8) -> Machine {
        Machine { memory: self.memory.update(addr as int, data), ..self }
    }

    /// The little-endian word whose low byte is at `pos`. The high byte is at
    /// the next address, which is 0 when `pos` is the last address.
    pub open spec fn read_u16(self, pos: u16) -> u16 {
        word(self.read(pos), self.read(address_offset(pos, 1)))
    }

    /// The machine after the word `data` is stored little-endian at `pos`
    /// and the address after it.
    pub open spec fn write_u16(self, pos: u16, data: u16) -> Machine {
        self.write(pos, low_byte(data)).write(address_offset(pos, 1), high_byte(data))
    }

    /// The address of the operand of an instruction with the given mode, when
    /// the program counter is at the first byte after the opcode.
    pub open spec fn operand_address(self, mode: AddressingMode) -> u16 {
        let pc = self.program_counter;
        match mode {
            AddressingMode::Immediate => pc,
            AddressingMode::ZeroPage => self.read(pc) as u16,
            AddressingMode::ZeroPage_X => zero_page_offset(self.read(pc), self.register_x) as u16,
            AddressingMode::ZeroPage_Y => zero_page_offset(self.read(pc), self.register_y) as u16,
            AddressingMode::Absolute => self.read_u16(pc),
            AddressingMode::Absolute_X => address_offset(self.read_u16(pc), self.register_x as int),
            AddressingMode::Absolute_Y => address_offset(self.read_u16(pc), self.register_y as int),
            AddressingMode::Indirect_X => {
                let ptr = zero_page_offset(self.read(pc), self.register_x);
                word(self.read(ptr as u16), self.read(zero_page_offset(ptr, 1) as u16))
            },
            AddressingMode::Indirect_Y => {
                let ptr = self.read(pc);
                let base = word(self.read(ptr as u16), self.read(zero_page_offset(ptr, 1) as u16));
                address_offset(base, self.register_y as int)
            },
        }
    }

    /// The machine with its status byte brought up to date for `value`.
    pub open spec fn with_flags(self, value: u8) -> Machine {
        Machine { status: updated_flags(self.status, value), ..self }
    }

    /// The machine with the program counter moved forward by `n` bytes,
    /// wrapping at the top of the address space.
    pub open spec fn advance(self, n: int) -> Machine {
        Machine { program_counter: address_offset(self.program_counter, n), ..self }
    }

    /// LDA: the operand goes into the accumulator and sets the flags.
    pub open spec fn lda(self, mode: AddressingMode) -> Machine {
        let value = self.read(self.operand_address(mode));
        Machine { register_a: value, ..self }.with_flags(value)
    }

    /// LDX: the operand goes into X and sets the flags.
    pub open spec fn ldx(self, mode: AddressingMode) -> Machine {
        let value = self.read(self.operand_address(mode));
        Machine { register_x: value, ..self }.with_flags(value)
    }

    /// STA: the accumulator is stored at the operand address. The status byte
    /// is not touched.
    pub open spec fn sta(self, mode: AddressingMode) -> Machine {
        self.write(self.operand_address(mode), self.register_a)
    }

    /// TAX: the accumulator is copied into X and sets the flags.
    pub open spec fn tax(self) -> Machine {
        Machine { register_x: self.register_a, ..self }.with_flags(self.register_a)
    }

    /// INX: X is incremented, 0xFF becoming 0, and sets the flags.
    pub open spec fn inx(self) -> Machine {
        let value = zero_page_offset(self.register_x, 1);
        Machine { register_x: value, ..self }.with_flags(value)
    }

    /// The byte at the program counter: the next opcode to be fetched.
    pub open spec fn opcode(self) -> u8 {
        self.read(self.program_counter)
    }

    /// The next opcode is BRK: the step that fetches it is the last one.
    pub open spec fn at_break(self) -> bool {
        self.opcode() == OP_BRK
    }

    /// The machine with the program counter moved past the operand of an
    /// instruction with the given mode.
    pub open spec fn skip_operand(self, mode: AddressingMode) -> Machine {
        self.advance(mode.operand_len())
    }

    /// One turn of the fetch-decode-execute cycle. The opcode is fetched and
    /// the program counter moves past it; then a known instruction is executed
    /// and the program counter moves past its operand. TAX and INX have no
    /// operand. NOP does nothing but is given one operand byte. BRK and every
    /// unknown opcode do nothing after the fetch.
    pub open spec fn step(self) -> Machine {
        let opcode = self.opcode();
        let fetched = self.advance(1);
        if opcode == OP_LDA_IMMEDIATE {
            fetched.lda(AddressingMode::Immediate).skip_operand(AddressingMode::Immediate)
        } else if opcode == OP_LDA_ZERO_PAGE {
            fetched.lda(AddressingMode::ZeroPage).skip_operand(AddressingMode::ZeroPage)
        } else if opcode == OP_LDA_ABSOLUTE {
            fetched.lda(AddressingMode::Absolute).skip_operand(AddressingMode::Absolute)
        } else if opcode == OP_LDX_IMMEDIATE {
            fetched.ldx(AddressingMode::Immediate).skip_operand(AddressingMode::Immediate)
        } else if opcode == OP_STA_ZERO_PAGE {
            fetched.sta(AddressingMode::ZeroPage).skip_operand(AddressingMode::ZeroPage)
        } else if opcode == OP_STA_ZERO_PAGE_X {
            fetched.sta(AddressingMode::ZeroPage_X).skip_operand(AddressingMode::ZeroPage_X)
        } else if opcode == OP_TAX {
            fetched.tax()
        } else if opcode == OP_INX {
            fetched.inx()
        } else if opcode == OP_NOP {
            fetched.advance(1)
        } else {
            fetched
        }
    }

    /// The machine after `n` turns of the cycle.
    pub open spec fn steps(self, n: nat) -> Machine
        decreases n,
    {
        if n == 0 {
            self
        } else {
            self.step().steps((n - 1) as nat)
        }
    }

    /// Exactly `n` instructions are executed before a BRK is fetched.
    pub open spec fn halts_in(self, n: nat) -> bool
        decreases n,
    {
        if self.at_break() {
            n == 0
        } else {
            n > 0 && self.step().halts_in((n - 1) as nat)
        }
    }

    /// A BRK is fetched after finitely many instructions.
    pub open spec fn halts(self) -> bool {
        exists|n: nat| self.halts_in(n)
    }

    /// The number of instructions executed before a BRK is fetched, for a
    /// machine that halts.
    pub open spec fn steps_to_halt(self) -> nat {
        choose|n: nat| self.halts_in(n)
    }

    /// The machine as `run` leaves it, for a machine that halts: every
    /// instruction before the first BRK has been executed, and the BRK has
    /// been fetched.
    pub open spec fn run(self) -> Machine {
        self.steps(self.steps_to_halt() + 1)
    }

    /// A program of this length fits between `PROGRAM_START` and the top of
    /// the address space.
    pub open spec fn program_fits(program: Seq<u8>) -> bool {
        PROGRAM_START + program.len() <= MEMORY_SIZE
    }

    /// The machine after `program` is placed at `PROGRAM_START` and the reset
    /// vector is pointed at it. The vector is written last, over whatever the
    /// program put there.
    pub open spec fn load(self, program: Seq<u8>) -> Machine {
        let end = PROGRAM_START + program.len();
        Machine {
            memory: self.memory.subrange(0, PROGRAM_START as int) + program + self.memory.subrange(
                end,
                MEMORY_SIZE as int,
            ),
            ..self
        }.write_u16(RESET_VECTOR, PROGRAM_START)
    }

    /// The machine after a reset: A, X and the status byte are zero and the
    /// program counter holds the reset vector. Y and the memory are kept.
    pub open spec fn reset(self) -> Machine {
        Machine {
            register_a: 0,
            register_x: 0,
            status: 0,
            program_counter: self.read_u16(RESET_VECTOR),
            ..self
        }
    }

    /// The machine after `program` is interpreted directly from the index in
    /// the program counter up to and including the first BRK: LDA immediate,
    /// TAX and INX are executed, any other opcode is skipped. The memory takes
    /// no part in it.
    pub open spec fn interpret_from(self, program: Seq<u8>) -> Machine
        decreases program.len() - self.program_counter,
    {
        let at = self.program_counter as int;
        if image_halts(program, at) {
            let opcode = program[at];
            let fetched = Machine { program_counter: (at + 1) as u16, ..self };
            if opcode == OP_BRK {
                fetched
            } else if opcode == OP_LDA_IMMEDIATE {
                Machine {
                    register_a: program[at + 1],
                    program_counter: (at + 2) as u16,
                    ..self
                }.with_flags(program[at + 1]).interpret_from(program)
            } else if opcode == OP_TAX {
                fetched.tax().interpret_from(program)
            } else if opcode == OP_INX {
                fetched.inx().interpret_from(program)
            } else {
                fetched.interpret_from(program)
            }
        } else {
            self
        }
    }

    /// The machine after `program` is interpreted directly from its first
    /// byte. The registers and the status byte start as they are.
    pub open spec fn interpret(self, program: Seq<u8>) -> Machine {
        Machine { program_counter: 0, ..self }.interpret_from(program)
    }
}

/// The flag rule, bit by bit: the zero flag is set exactly when the value is
/// zero, the negative flag exactly when bit 7 of the value is set, which is
/// when the value is 0x80 or more, and every other status bit is left as it
/// was.
pub proof fn lemma_updated_flags(status: u8, value: u8)
    ensures
        updated_flags(status, value) & ZERO_FLAG != 0 <==> value == 0,
        updated_flags(status, value) & NEGATIVE_FLAG != 0 <==> value & NEGATIVE_FLAG != 0,
        updated_flags(status, value) & !(ZERO_FLAG | NEGATIVE_FLAG) == status & !(ZERO_FLAG
            | NEGATIVE_FLAG),
        value & NEGATIVE_FLAG != 0 <==> value >= 0x80,
{
    assert(updated_flags(status, value) & ZERO_FLAG != 0 <==> value == 0) by (bit_vector);
    assert(updated_flags(status, value) & NEGATIVE_FLAG != 0 <==> value & NEGATIVE_FLAG != 0)
        by (bit_vector);
    assert(updated_flags(status, value) & !(ZERO_FLAG | NEGATIVE_FLAG) == status & !(ZERO_FLAG
        | NEGATIVE_FLAG)) by (bit_vector);
    assert(value & NEGATIVE_FLAG != 0 <==> value >= 0x80) by (bit_vector);
}

/// The number of instructions before the halt is unique.
pub proof fn lemma_halts_in_unique(s: Machine, n: nat, m: nat)
    requires
        s.halts_in(n),
        s.halts_in(m),
    ensures
        n == m,
    decreases n,
{
    if !s.at_break() {
        lemma_halts_in_unique(s.step(), (n - 1) as nat, (m - 1) as nat);
    }
}

/// A machine that halts in `n` instructions halts, and `n` is its number of
/// steps to the halt.
pub proof fn lemma_halts_in_is_steps_to_halt(s: Machine, n: nat)
    requires
        s.halts_in(n),
    ensures
        s.halts(),
        s.steps_to_halt() == n,
{
    lemma_halts_in_unique(s, n, s.steps_to_halt());
}

/// How one turn of the cycle relates to the rest of a run. At a BRK the run
/// is that one turn. Anywhere else the machine after the turn still halts, one
/// instruction sooner, and runs to the same end.
pub proof fn lemma_run_unfolds(s: Machine)
    requires
        s.halts(),
    ensures
        s.at_break() ==> s.steps_to_halt() == 0 && s.run() == s.step(),
        !s.at_break() ==> s.step().halts() && s.step().steps_to_halt() + 1 == s.steps_to_halt()
            && s.step().run() == s.run(),
{
    let n = s.steps_to_halt();
    assert(s.halts_in(n));
    if s.at_break() {
        assert(s.steps(1) == s.step().steps(0));
    } else {
        lemma_halts_in_is_steps_to_halt(s.step(), (n - 1) as nat);
        assert(s.steps(n + 1) == s.step().steps(n));
    }
}

/// A run in terms of single steps: a machine that halts comes to its first
/// BRK after `steps_to_halt` steps, no earlier step begins at a BRK, and the
/// run ends with the fetch of that BRK.
pub proof fn lemma_run_stops_at_first_break(s: Machine)
    requires
        s.halts(),
    ensures
        s.steps(s.steps_to_halt()).at_break(),
        forall|m: nat| m < s.steps_to_halt() ==> !(#[trigger] s.steps(m)).at_break(),
        s.run() == s.steps(s.steps_to_halt()).advance(1),
    decreases s.steps_to_halt(),
{
    let n = s.steps_to_halt();
    lemma_run_unfolds(s);
    if !s.at_break() {
        let t = s.step();
        lemma_run_stops_at_first_break(t);
        assert(s.steps(n) == t.steps((n - 1) as nat));
        assert forall|m: nat| m < n implies !(#[trigger] s.steps(m)).at_break() by {
            if m > 0 {
                assert(s.steps(m) == t.steps((m - 1) as nat));
            }
        }
    }
}

/// Stepping keeps the address space at its size.
pub proof fn lemma_steps_keep_wf(s: Machine, n: nat)
    requires
        s.wf(),
    ensures
        s.step().wf(),
        s.steps(n).wf(),
    decreases n,
{
    if n > 0 {
        lemma_steps_keep_wf(s.step(), (n - 1) as nat);
    }
}

/// A blank machine has an address space of the right size, and loading a
/// program that fits, resetting and direct interpretation keep it so.
pub proof fn lemma_load_and_reset_keep_wf(s: Machine, program: Seq<u8>)
    requires
        s.wf(),
    ensures
        Machine::blank().wf(),
        s.reset().wf(),
        s.interpret(program).wf(),
        Machine::program_fits(program) ==> s.load(program).wf(),
{
    lemma_interpret_keeps_memory(Machine { program_counter: 0, ..s }, program);
}

/// Direct interpretation never touches the memory.
pub proof fn lemma_interpret_keeps_memory(s: Machine, program: Seq<u8>)
    ensures
        s.interpret_from(program).memory == s.memory,
    decreases program.len() - s.program_counter,
{
    let at = s.program_counter as int;
    if image_halts(program, at) {
        let opcode = program[at];
        let fetched = Machine { program_counter: (at + 1) as u16, ..s };
        if opcode == OP_BRK {
        } else if opcode == OP_LDA_IMMEDIATE {
            lemma_interpret_keeps_memory(
                Machine {
                    register_a: program[at + 1],
                    program_counter: (at + 2) as u16,
                    ..s
                }.with_flags(program[at + 1]),
                program,
            );
        } else if opcode == OP_TAX {
            lemma_interpret_keeps_memory(fetched.tax(), program);
        } else if opcode == OP_INX {
            lemma_interpret_keeps_memory(fetched.inx(), program);
        } else {
            lemma_interpret_keeps_memory(fetched, program);
        }
    }
}

} // verus!
