use vstd::prelude::*;
use crate::machine::{
    address_offset, image_halts, lemma_run_unfolds, lemma_updated_flags, updated_flags, word,
    zero_page_offset, Machine, MEMORY_SIZE, NEGATIVE_FLAG, OP_BRK, OP_INX, OP_LDA_ABSOLUTE,
    OP_LDA_IMMEDIATE, OP_LDA_ZERO_PAGE, OP_LDX_IMMEDIATE, OP_NOP, OP_STA_ZERO_PAGE,
    OP_STA_ZERO_PAGE_X, OP_TAX, PROGRAM_START, RESET_VECTOR, ZERO_FLAG,
};
use crate::mem::AddressingMode;

verus! {

/// The executable machine: three registers, the status byte, the program
/// counter and the whole 64 KiB address space.
pub struct CPU {
    /// Accumulator.
    pub register_a: u8,
    /// Index register X.
    pub register_x: u8,
    /// Index register Y.
    pub register_y: u8,
    /// Status flags; only `ZERO_FLAG` and `NEGATIVE_FLAG` are ever changed.
    pub status: u8,
    /// Address of the next byte to fetch.
    pub program_counter: u16,
    /// One byte for every 16-bit address.
    pub memory: [u8; 0x10000],
}

impl View for CPU {
    type V = Machine;

    open spec fn view(&self) -> Machine {
        Machine {
            register_a: self.register_a,
            register_x: self.register_x,
            register_y: self.register_y,
            status: self.status,
            program_counter: self.program_counter,
            memory: self.memory@,
        }
    }
}

/// Why a program could not be loaded.
#[derive(Debug, Clone, Copy, PartialEq, Eq, Structural)]
pub enum LoadError {
    /// The program does not fit between `PROGRAM_START` and the top of the
    /// address space.
    ProgramTooLarge,
}

/// Joins a low and a high byte into a little-endian word.
fn join_bytes(lo: u8, hi: u8) -> (w: u16)
    ensures
        w == word(lo, hi),
{
    let w: u16 = ((hi as u16) << 8) | (lo as u16);
    assert(((hi as u16) << 8) | (lo as u16) == lo + 0x100 * hi) by (bit_vector);
    w
}

/// Adds an index to a zero-page address; the sum stays in the zero page.
fn zero_page_add(base: u8, index: u8) -> (sum: u8)
    ensures
        sum == zero_page_offset(base, index),
{
    base.wrapping_add(index)
}

/// Adds an index to an address; the sum wraps at the top of the address space.
fn address_add(base: u16, index: u16) -> (sum: u16)
    ensures
        sum == address_offset(base, index as int),
{
    base.wrapping_add(index)
}

impl CPU {
    /// A machine with every register and every byte of memory zero.
    pub fn new() -> (cpu: Self)
        ensures
            cpu@ == Machine::blank(),
    {
        CPU {
            register_a: 0,
            register_x: 0,
            register_y: 0,
            status: 0,
            program_counter: 0,
            memory: [0; 0x10000],
        }
    }

    /// Reads the byte at `addr`.
    pub fn mem_read(&self, addr: u16) -> (data: u8)
        ensures
            data == self@.read(addr),
    {
        self.memory[addr as usize]
    }

    /// Stores `data` at `addr`; nothing else changes.
    pub fn mem_write(&mut self, addr: u16, data: u8)
        ensures
            final(self)@ == old(self)@.write(addr, data),
    {
        self.memory[addr as usize] = data;
    }

    /// Reads the little-endian word at `pos`: low byte at `pos`, high byte at
    /// the address after it (address 0 after the last one).
    pub fn mem_read_u16(&self, pos: u16) -> (data: u16)
        ensures
            data == self@.read_u16(pos),
    {
        let lo: u8 = self.mem_read(pos);
        let hi: u8 = self.mem_read(address_add(pos, 1));
        join_bytes(lo, hi)
    }

    /// Stores the word `data` little-endian at `pos`: low byte at `pos`, high
    /// byte at the address after it (address 0 after the last one).
    pub fn mem_write_u16(&mut self, pos: u16, data: u16)
        ensures
            final(self)@ == old(self)@.write_u16(pos, data),
    {
        let hi: u8 = (data >> 8) as u8;
        let lo: u8 = (data & 0xff) as u8;
        assert((data >> 8) == data / 0x100 && (data >> 8) < 0x100) by (bit_vector);
        assert((data & 0xff) == data % 0x100) by (bit_vector);
        self.mem_write(pos, lo);
        self.mem_write(address_add(pos, 1), hi);
    }

    /// Resolves the address of the operand of an instruction with the given
    /// mode. The program counter must be at the first byte after the opcode;
    /// it is not moved.
    pub fn get_operand_address(&self, mode: &AddressingMode) -> (addr: u16)
        ensures
            addr == self@.operand_address(*mode),
            *mode is ZeroPage || *mode is ZeroPage_X || *mode is ZeroPage_Y ==> addr < 0x100,
    {
        let pc: u16 = self.program_counter;
        match mode {
            AddressingMode::Immediate => pc,
            AddressingMode::ZeroPage => self.mem_read(pc) as u16,
            AddressingMode::Absolute => self.mem_read_u16(pc),
            AddressingMode::ZeroPage_X => zero_page_add(self.mem_read(pc), self.register_x) as u16,
            AddressingMode::ZeroPage_Y => zero_page_add(self.mem_read(pc), self.register_y) as u16,
            AddressingMode::Absolute_X => address_add(self.mem_read_u16(pc), self.register_x as u16),
            AddressingMode::Absolute_Y => address_add(self.mem_read_u16(pc), self.register_y as u16),
            AddressingMode::Indirect_X => {
                let ptr: u8 = zero_page_add(self.mem_read(pc), self.register_x);
                let lo: u8 = self.mem_read(ptr as u16);
                let hi: u8 = self.mem_read(zero_page_add(ptr, 1) as u16);
                join_bytes(lo, hi)
            },
            AddressingMode::Indirect_Y => {
                let ptr: u8 = self.mem_read(pc);
                let lo: u8 = self.mem_read(ptr as u16);
                let hi: u8 = self.mem_read(zero_page_add(ptr, 1) as u16);
                address_add(join_bytes(lo, hi), self.register_y as u16)
            },
        }
    }

    /// Brings the zero and negative flags up to date for `register`: the zero
    /// flag is set exactly when `register` is 0, the negative flag exactly
    /// when bit 7 of `register` is set. The six other status bits keep their
    /// values.
    pub fn update_zero_and_negative_flags(&mut self, register: u8)
        ensures
            final(self)@ == old(self)@.with_flags(register),
            final(self).status & ZERO_FLAG != 0 <==> register == 0,
            final(self).status & NEGATIVE_FLAG != 0 <==> register & NEGATIVE_FLAG != 0,
            final(self).status & !(ZERO_FLAG | NEGATIVE_FLAG) == old(self).status & !(ZERO_FLAG
                | NEGATIVE_FLAG),
    {
        let before: u8 = self.status;
        let zero: u8 = if register == 0 {
            before | ZERO_FLAG
        } else {
            before & !ZERO_FLAG
        };
        let both: u8 = if register & NEGATIVE_FLAG != 0 {
            zero | NEGATIVE_FLAG
        } else {
            zero & !NEGATIVE_FLAG
        };
        assert(both == updated_flags(before, register)) by (bit_vector)
            requires
                zero == if register == 0u8 {
                    before | ZERO_FLAG
                } else {
                    before & !ZERO_FLAG
                },
                both == if register & NEGATIVE_FLAG != 0u8 {
                    zero | NEGATIVE_FLAG
                } else {
                    zero & !NEGATIVE_FLAG
                },
        ;
        proof {
            lemma_updated_flags(before, register);
        }
        self.status = both;
    }

    /// LDA: loads the operand into the accumulator and sets the flags from it.
    /// The program counter is not moved.
    pub fn lda(&mut self, mode: &AddressingMode)
        ensures
            final(self)@ == old(self)@.lda(*mode),
    {
        let addr: u16 = self.get_operand_address(mode);
        let value: u8 = self.mem_read(addr);
        self.register_a = value;
        self.update_zero_and_negative_flags(value);
    }

    /// LDX: loads the operand into X and sets the flags from it. The program
    /// counter is not moved.
    pub fn ldx(&mut self, mode: &AddressingMode)
        ensures
            final(self)@ == old(self)@.ldx(*mode),
    {
        let addr: u16 = self.get_operand_address(mode);
        let value: u8 = self.mem_read(addr);
        self.register_x = value;
        self.update_zero_and_negative_flags(value);
    }

    /// TAX: copies the accumulator into X and sets the flags from it.
    pub fn tax(&mut self)
        ensures
            final(self)@ == old(self)@.tax(),
    {
        self.register_x = self.register_a;
        self.update_zero_and_negative_flags(self.register_x);
    }

    /// INX: adds one to X, 0xFF becoming 0, and sets the flags from the sum.
    pub fn inx(&mut self)
        ensures
            final(self)@ == old(self)@.inx(),
            final(self).register_x == (if old(self).register_x == 0xFF {
                0
            } else {
                old(self).register_x + 1
            }),
    {
        self.register_x = zero_page_add(self.register_x, 1);
        self.update_zero_and_negative_flags(self.register_x);
    }

    /// STA: stores the accumulator at the operand address. Neither the status
    /// byte nor the program counter changes.
    pub fn sta(&mut self, mode: &AddressingMode)
        ensures
            final(self)@ == old(self)@.sta(*mode),
            final(self).status == old(self).status,
    {
        let addr: u16 = self.get_operand_address(mode);
        self.mem_write(addr, self.register_a);
    }

    /// Moves the program counter forward by `n` bytes, wrapping at the top of
    /// the address space.
    fn skip(&mut self, n: u16)
        ensures
            final(self)@ == old(self)@.advance(n as int),
    {
        self.program_counter = address_add(self.program_counter, n);
    }

    /// Runs one turn of the fetch-decode-execute cycle and says whether the
    /// machine is still running: `false` means that the opcode fetched was
    /// BRK.
    ///
    /// The program counter moves past the opcode, and past the operand of an
    /// instruction that has one. Three things differ from the real processor.
    /// NOP takes the byte after it as an operand. BRK only stops the machine:
    /// nothing is pushed, no vector is read and no flag is set. An opcode
    /// outside the subset is skipped as a single byte, so that an operand
    /// meant for it is decoded as the next opcode.
    pub fn step(&mut self) -> (running: bool)
        ensures
            final(self)@ == old(self)@.step(),
            running == !old(self)@.at_break(),
    {
        let opcode: u8 = self.mem_read(self.program_counter);
        self.skip(1);
        match opcode {
            OP_LDA_IMMEDIATE => {
                let mode = AddressingMode::Immediate;
                self.lda(&mode);
                self.skip(mode.operand_length());
            },
            OP_LDA_ZERO_PAGE => {
                let mode = AddressingMode::ZeroPage;
                self.lda(&mode);
                self.skip(mode.operand_length());
            },
            OP_LDA_ABSOLUTE => {
                let mode = AddressingMode::Absolute;
                self.lda(&mode);
                self.skip(mode.operand_length());
            },
            OP_LDX_IMMEDIATE => {
                let mode = AddressingMode::Immediate;
                self.ldx(&mode);
                self.skip(mode.operand_length());
            },
            OP_STA_ZERO_PAGE => {
                let mode = AddressingMode::ZeroPage;
                self.sta(&mode);
                self.skip(mode.operand_length());
            },
            OP_STA_ZERO_PAGE_X => {
                let mode = AddressingMode::ZeroPage_X;
                self.sta(&mode);
                self.skip(mode.operand_length());
            },
            OP_TAX => self.tax(),
            OP_INX => self.inx(),
            OP_BRK => {
                return false;
            },
            OP_NOP => self.skip(1),
            _ => {},
        }
        true
    }

    /// Places `program` in memory from `PROGRAM_START` on and points the reset
    /// vector at it. A program that does not fit below the top of the address
    /// space is refused, and the machine is left as it was.
    pub fn load(&mut self, program: Vec<u8>) -> (res: Result<(), LoadError>)
        ensures
            Machine::program_fits(program@) ==> res is Ok && final(self)@ == old(self)@.load(
                program@,
            ),
            !Machine::program_fits(program@) ==> res == Err::<(), LoadError>(
                LoadError::ProgramTooLarge,
            ) && final(self)@ == old(self)@,
    {
        let len: usize = program.len();
        if len > MEMORY_SIZE - PROGRAM_START as usize {
            return Err(LoadError::ProgramTooLarge);
        }
        let start: usize = PROGRAM_START as usize;
        let mut i: usize = 0;
        while i < len
            invariant
                i <= len,
                len == program@.len(),
                start == PROGRAM_START,
                start + len <= MEMORY_SIZE,
                self.memory@ == old(self).memory@.subrange(0, start as int) + program@.subrange(
                    0,
                    i as int,
                ) + old(self).memory@.subrange(start + i, MEMORY_SIZE as int),
                self.register_a == old(self).register_a,
                self.register_x == old(self).register_x,
                self.register_y == old(self).register_y,
                self.status == old(self).status,
                self.program_counter == old(self).program_counter,
            decreases len - i,
        {
            self.memory[start + i] = program[i];
            i += 1;
        }
        assert(program@.subrange(0, len as int) == program@);
        self.mem_write_u16(RESET_VECTOR, PROGRAM_START);
        Ok(())
    }

    /// Clears A, X and the status byte and sets the program counter to the
    /// word stored at the reset vector. Y and the memory are left as they are.
    pub fn reset(&mut self)
        ensures
            final(self)@ == old(self)@.reset(),
    {
        self.register_a = 0;
        self.register_x = 0;
        self.status = 0;
        self.program_counter = self.mem_read_u16(RESET_VECTOR);
    }

    /// Executes instructions from the program counter on until a BRK has been
    /// fetched.
    ///
    /// A machine that never reaches a BRK would be run forever; the contract
    /// speaks of the machines that halt. `step` drives any machine one
    /// instruction at a time.
    pub fn run(&mut self)
        requires
            old(self)@.halts(),
        ensures
            final(self)@ == old(self)@.run(),
    {
        loop
            invariant
                self@.halts(),
                self@.run() == old(self)@.run(),
            decreases self@.steps_to_halt(),
        {
            proof {
                lemma_run_unfolds(self@);
            }
            let running: bool = self.step();
            if !running {
                return;
            }
        }
    }

    /// Loads `program`, resets the machine and runs it until a BRK has been
    /// fetched. A program that does not fit is refused, and the machine is
    /// left as it was.
    pub fn load_and_run(&mut self, program: Vec<u8>) -> (res: Result<(), LoadError>)
        requires
            Machine::program_fits(program@) ==> old(self)@.load(program@).reset().halts(),
        ensures
            Machine::program_fits(program@) ==> res is Ok && final(self)@ == old(self)@.load(
                program@,
            ).reset().run(),
            !Machine::program_fits(program@) ==> res == Err::<(), LoadError>(
                LoadError::ProgramTooLarge,
            ) && final(self)@ == old(self)@,
    {
        match self.load(program) {
            Ok(()) => {
                self.reset();
                self.run();
                Ok(())
            },
            Err(e) => Err(e),
        }
    }

    /// Interprets `program` directly, without placing it in memory: starting
    /// at its first byte, LDA immediate, TAX and INX are executed and any other
    /// opcode is skipped, until a BRK has been fetched. The registers and the
    /// status byte start as they are; the program counter ends just past the
    /// BRK.
    ///
    /// The program must come to a BRK before its end.
    pub fn interpret(&mut self, program: Vec<u8>)
        requires
            image_halts(program@, 0),
        ensures
            final(self)@ == old(self)@.interpret(program@),
    {
        self.program_counter = 0;
        loop
            invariant
                image_halts(program@, self.program_counter as int),
                self@.interpret_from(program@) == old(self)@.interpret(program@),
            decreases program@.len() - self.program_counter,
        {
            let opcode: u8 = program[self.program_counter as usize];
            self.program_counter += 1;
            match opcode {
                OP_LDA_IMMEDIATE => {
                    let param: u8 = program[self.program_counter as usize];
                    self.program_counter += 1;
                    self.register_a = param;
                    self.update_zero_and_negative_flags(param);
                },
                OP_TAX => self.tax(),
                OP_INX => self.inx(),
                OP_BRK => {
                    return;
                },
                _ => {},
            }
        }
    }
}

} // verus!
