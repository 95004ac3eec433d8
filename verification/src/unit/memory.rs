//! The memory unit: SAR, SIR, the linear memory array and the
//! cycle-countdown model of memory access latency, plus the loaders.

use vstd::prelude::*;
use crate::types::{Instruction, Word, ADDRESS_SPACE_WORDS, LINEAR_ADDRESS_SPACE_WORDS};
use crate::assembly::{ObjectCode, Symbol, SymbolView};

verus! {

// The two types of memory:
#[derive(Copy, Clone, PartialEq, Eq, Structural, Debug)]
pub enum Type {
    Linear,
    DeviceIO,
}

/// The type of the memory behind an address: the lower three quarters of
/// the address space are linear memory, the upper quarter is device IO.
pub open spec fn spec_from_address(address: Word) -> Type {
    if address.0 < LINEAR_ADDRESS_SPACE_WORDS {
        Type::Linear
    } else {
        Type::DeviceIO
    }
}

impl Type {
    // Determine the type of a given memory address from its address:
    pub fn from_address(address: Word) -> (t: Type)
        requires
            address.0 < ADDRESS_SPACE_WORDS,
        ensures
            t == spec_from_address(address),
    {
        if (address.0 as usize) < LINEAR_ADDRESS_SPACE_WORDS {
            Type::Linear
        } else {
            Type::DeviceIO
        }
    }
}

// How many microcycles does the memory need to complete work?
pub const MICROCYCLES_PER_ACCESS: u8 = 3;

// The two ways of accessing memory:
#[derive(Copy, Clone, PartialEq, Eq, Structural, Debug)]
pub enum Access {
    Read,
    Write,
}

// A pending memory access.
// Each microcycle decrements the number of remaining cycles.
// As soon as it falls to 0, a read result is available in SIR.
// Work is executed on copies of SAR and SIR. Changing them during its
// progress won't change the outcome.
#[derive(Copy, Clone, PartialEq, Eq, Structural, Debug)]
pub struct Work {
    pub mem_type: Type,
    pub access: Access,
    pub sar: Word,
    pub sir: Word,
    pub remaining_cycles: u8,
}

// This error type occurs when we load object code with unknown symbols:
#[derive(Clone, PartialEq, Eq, Debug)]
pub enum LinkError {
    UnknownDevice(Vec<u8>),
    UnknownDeviceLabel(Vec<u8>, Vec<u8>),
}

/// The word every linear memory cell starts out with: a halt instruction,
/// so that accidental execution of uninitialized memory stops the machine.
pub open spec fn initial_word() -> Word {
    Instruction::Halt.spec_encode()
}

/// The stub word a device IO read places into SIR.
pub open spec fn device_stub_word() -> Word {
    Word(42)
}

/// The observable state of the memory unit: the two registers, the
/// pending work and the full linear memory as a sequence of
/// `LINEAR_ADDRESS_SPACE_WORDS` words.
pub struct State {
    pub sar: Word,
    pub sir: Word,
    pub work: Option<Work>,
    pub mem: Seq<Word>,
}

/// One poll of the memory unit: pending work counts down; work whose
/// counter already reached zero takes effect. A linear read places the
/// addressed word into SIR, a linear write places the captured SIR into
/// memory. A device IO read places the stub word into SIR, a device IO
/// write has no effect on this unit.
pub open spec fn spec_poll(s: State) -> State {
    match s.work {
        None => s,
        Some(w) => {
            if w.remaining_cycles > 0 {
                State {
                    work: Some(
                        Work { remaining_cycles: (w.remaining_cycles - 1) as u8, ..w },
                    ),
                    ..s
                }
            } else {
                match (w.mem_type, w.access) {
                    (Type::Linear, Access::Read) => State {
                        sir: s.mem[w.sar.0 as int],
                        work: None,
                        ..s
                    },
                    (Type::Linear, Access::Write) => State {
                        mem: s.mem.update(w.sar.0 as int, w.sir),
                        work: None,
                        ..s
                    },
                    (Type::DeviceIO, Access::Read) => State {
                        sir: device_stub_word(),
                        work: None,
                        ..s
                    },
                    (Type::DeviceIO, Access::Write) => State { work: None, ..s },
                }
            }
        },
    }
}

pub struct Unit {
    // "Speicheradressregister" (SAR)
    // Holds the memory address to fetch from / write to
    pub sar: Word,
    // "Speicherinhaltsregister" (SIR)
    // Holds a word that has been fetched from / will be written to memory
    pub sir: Word,
    // Pending work:
    pub work: Option<Work>,
    // The non-DMA memory. Only the prefix that has been written so far is
    // held in host memory; every cell beyond it reads as `initial_word()`.
    pub linear_memory: Vec<Word>,
}

impl Unit {
    /// The full linear memory as a sequence of
    /// `LINEAR_ADDRESS_SPACE_WORDS` words.
    pub open spec fn mem(self) -> Seq<Word> {
        Seq::new(
            LINEAR_ADDRESS_SPACE_WORDS as nat,
            |i: int|
                if i < self.linear_memory@.len() {
                    self.linear_memory@[i]
                } else {
                    initial_word()
                },
        )
    }

    /// The observable state of this unit.
    pub open spec fn state(self) -> State {
        State { sar: self.sar, sir: self.sir, work: self.work, mem: self.mem() }
    }

    /// Is the pending work consistent: a linear access holds an address
    /// inside linear memory?
    pub open spec fn work_wf(self) -> bool {
        match self.work {
            Some(w) => w.mem_type == Type::Linear ==> w.sar.0 < LINEAR_ADDRESS_SPACE_WORDS,
            None => true,
        }
    }

    pub fn new() -> (u: Unit)
        ensures
            u.state() == (State {
                sar: Word(0),
                sir: Word(0),
                work: None::<Work>,
                mem: Seq::new(LINEAR_ADDRESS_SPACE_WORDS as nat, |i: int| initial_word()),
            }),
    {
        let u = Unit { sar: Word(0), sir: Word(0), work: None, linear_memory: Vec::new() };
        proof {
            assert(u.mem() =~= Seq::new(
                LINEAR_ADDRESS_SPACE_WORDS as nat,
                |i: int| initial_word(),
            ));
        }
        u
    }

    /// The pending memory work, if any.
    pub fn work(&self) -> (w: Option<Work>)
        ensures
            w == self.work,
    {
        self.work
    }

    /// The prefix of linear memory that has been written so far. Every
    /// cell of memory beyond this prefix holds `initial_word()`.
    pub fn linear_memory(&self) -> (r: &Vec<Word>)
        ensures
            forall|i: int|
                0 <= i < r@.len() && i < LINEAR_ADDRESS_SPACE_WORDS ==> r@[i] == self.mem()[i],
    {
        &self.linear_memory
    }

    /// Read one word of linear memory.
    pub fn read_word(&self, address: usize) -> (w: Word)
        requires
            address < LINEAR_ADDRESS_SPACE_WORDS,
        ensures
            w == self.mem()[address as int],
    {
        if address < self.linear_memory.len() {
            self.linear_memory[address]
        } else {
            Instruction::Halt.encode()
        }
    }

    /// Write one word of linear memory.
    pub fn write_word(&mut self, address: usize, value: Word)
        requires
            address < LINEAR_ADDRESS_SPACE_WORDS,
        ensures
            final(self).state() == (State {
                mem: old(self).mem().update(address as int, value),
                ..old(self).state()
            }),
    {
        while self.linear_memory.len() <= address
            invariant
                address < LINEAR_ADDRESS_SPACE_WORDS,
                self.sar == old(self).sar,
                self.sir == old(self).sir,
                self.work == old(self).work,
                self.mem() == old(self).mem(),
            decreases address + 1 - self.linear_memory.len(),
        {
            let ghost prev = self.mem();
            self.linear_memory.push(Instruction::Halt.encode());
            proof {
                assert(self.mem() =~= prev);
            }
        }
        let ghost prev = self.mem();
        self.linear_memory[address] = value;
        proof {
            assert(self.mem() =~= prev.update(address as int, value));
        }
    }

    pub fn poll_work(&mut self)
        requires
            old(self).work_wf(),
        ensures
            final(self).state() == spec_poll(old(self).state()),
            final(self).work_wf(),
    {
        // Perform memory work if necessary:
        match self.work {
            Some(work) => {
                if work.remaining_cycles == 0 {
                    self.work = None;
                    // Linear memory or device I/O?
                    match work.mem_type {
                        Type::Linear => self.finalize_work_linear(work),
                        Type::DeviceIO => self.finalize_work_device_io(work),
                    }
                } else {
                    self.work = Some(
                        Work { remaining_cycles: work.remaining_cycles - 1, ..work },
                    );
                }
            },
            None => {},
        }
    }

    /// Start a memory access on snapshots of SAR and SIR. The memory must
    /// be idle, and SAR must hold a valid address.
    pub fn signal_memory(&mut self, access: Access)
        requires
            old(self).work matches None,
            old(self).sar.0 < ADDRESS_SPACE_WORDS,
        ensures
            final(self).state() == (State {
                work: Some(
                    Work {
                        mem_type: spec_from_address(old(self).sar),
                        access,
                        sar: old(self).sar,
                        sir: old(self).sir,
                        remaining_cycles: MICROCYCLES_PER_ACCESS,
                    },
                ),
                ..old(self).state()
            }),
            final(self).work_wf(),
    {
        self.work = Some(
            Work {
                mem_type: Type::from_address(self.sar),
                access,
                sar: self.sar,
                sir: self.sir,
                remaining_cycles: MICROCYCLES_PER_ACCESS,
            },
        );
    }

    fn finalize_work_linear(&mut self, work: Work)
        requires
            work.sar.0 < LINEAR_ADDRESS_SPACE_WORDS,
        ensures
            final(self).state() == (match work.access {
                Access::Read => State {
                    sir: old(self).mem()[work.sar.0 as int],
                    ..old(self).state()
                },
                Access::Write => State {
                    mem: old(self).mem().update(work.sar.0 as int, work.sir),
                    ..old(self).state()
                },
            }),
    {
        // Access the linear memory:
        match work.access {
            Access::Read => {
                self.sir = self.read_word(work.sar.0 as usize);
            },
            Access::Write => {
                self.write_word(work.sar.0 as usize, work.sir);
            },
        }
    }

    fn finalize_work_device_io(&mut self, work: Work)
        ensures
            final(self).state() == (match work.access {
                Access::Read => State { sir: device_stub_word(), ..old(self).state() },
                Access::Write => old(self).state(),
            }),
    {
        // The stub device: a read always yields the same word, a write is
        // dropped. Real device models plug in here.
        match work.access {
            Access::Read => {
                self.sir = Word(42);
            },
            Access::Write => {},
        }
    }

    /// Load raw machine words to offset 0 of linear memory. The rest of
    /// memory keeps its contents.
    pub fn load_raw_code(&mut self, raw_code: &Vec<Word>)
        requires
            raw_code@.len() <= LINEAR_ADDRESS_SPACE_WORDS,
        ensures
            final(self).state() == (State {
                mem: raw_code@ + old(self).mem().skip(raw_code@.len() as int),
                ..old(self).state()
            }),
    {
        let mut i: usize = 0;
        while i < raw_code.len()
            invariant
                raw_code@.len() <= LINEAR_ADDRESS_SPACE_WORDS,
                i <= raw_code@.len(),
                self.sar == old(self).sar,
                self.sir == old(self).sir,
                self.work == old(self).work,
                forall|j: int| 0 <= j < i ==> self.mem()[j] == raw_code@[j],
                forall|j: int|
                    i <= j < LINEAR_ADDRESS_SPACE_WORDS ==> self.mem()[j] == old(self).mem()[j],
            decreases raw_code@.len() - i,
        {
            self.write_word(i, raw_code[i]);
            i = i + 1;
        }
        proof {
            assert(self.mem() =~= raw_code@ + old(self).mem().skip(raw_code@.len() as int));
        }
    }

    /// Replace the whole linear memory with the given image.
    pub fn load_mem_image(&mut self, mem_image: Vec<Word>)
        requires
            mem_image@.len() == LINEAR_ADDRESS_SPACE_WORDS,
        ensures
            final(self).state() == (State { mem: mem_image@, ..old(self).state() }),
    {
        // Move the image into ours:
        self.linear_memory = mem_image;
        proof {
            assert(self.mem() =~= mem_image@);
        }
    }

    /// Assemble the instructions to offset 0 of linear memory. The rest
    /// of memory keeps its contents.
    pub fn load_instructions(&mut self, instructions: &Vec<Instruction>)
        requires
            instructions@.len() <= LINEAR_ADDRESS_SPACE_WORDS,
            forall|j: int|
                0 <= j < instructions@.len() ==> (#[trigger] instructions@[j]).payload_fits(),
        ensures
            final(self).state() == (State {
                mem: instructions@.map(|j: int, ins: Instruction| ins.spec_encode()) + old(
                    self,
                ).mem().skip(instructions@.len() as int),
                ..old(self).state()
            }),
    {
        let mut i: usize = 0;
        while i < instructions.len()
            invariant
                instructions@.len() <= LINEAR_ADDRESS_SPACE_WORDS,
                i <= instructions@.len(),
                forall|j: int|
                    0 <= j < instructions@.len() ==> (#[trigger] instructions@[j]).payload_fits(),
                self.sar == old(self).sar,
                self.sir == old(self).sir,
                self.work == old(self).work,
                forall|j: int| 0 <= j < i ==> self.mem()[j] == instructions@[j].spec_encode(),
                forall|j: int|
                    i <= j < LINEAR_ADDRESS_SPACE_WORDS ==> self.mem()[j] == old(self).mem()[j],
            decreases instructions@.len() - i,
        {
            self.write_word(i, instructions[i].encode());
            i = i + 1;
        }
        proof {
            assert(self.mem() =~= instructions@.map(|j: int, ins: Instruction| ins.spec_encode())
                + old(self).mem().skip(instructions@.len() as int));
        }
    }
}

} // verus!

verus! {

// Resolved symbols are generated from an object code symbol table:
struct ResolvedSymbol {
    instruction_address: Word,
    device_address: Word,
}

impl ResolvedSymbol {
    fn new(instruction_address: Word, device_address: Word) -> (r: ResolvedSymbol)
        ensures
            r == (ResolvedSymbol { instruction_address, device_address }),
    {
        ResolvedSymbol { instruction_address, device_address }
    }
}

/// The device address the default resolver binds every symbol to: the
/// top of the address space minus one.
pub open spec fn default_device_address() -> Word {
    Word(0x0FFFFFFF)
}

/// Overlay a resolved device address onto the low 28 bits of every word
/// the symbol table points at, in table order.
pub open spec fn spec_apply_symbols(mem: Seq<Word>, syms: Seq<SymbolView>, device: Word) -> Seq<
    Word,
>
    decreases syms.len(),
{
    if syms.len() == 0 {
        mem
    } else {
        let a = syms[0].instruction_address.0 as int;
        spec_apply_symbols(
            mem.update(a, Word((mem[a].0 & 0xF0000000) | (device.0 & 0x0FFFFFFF))),
            syms.skip(1),
            device,
        )
    }
}

impl Unit {
    /// Load object code: resolve the symbol table (the default resolver
    /// binds every symbol to `default_device_address()`), copy the raw
    /// code to offset 0, and overlay each resolved address onto the low
    /// 28 bits of the word its symbol points at.
    pub fn load_code(&mut self, code: &ObjectCode) -> (r: Result<(), LinkError>)
        requires
            code.raw_code@.len() <= LINEAR_ADDRESS_SPACE_WORDS,
            forall|k: int|
                0 <= k < code.symbol_table@.len()
                    ==> (#[trigger] code.symbol_table@[k]).instruction_address.0
                    < LINEAR_ADDRESS_SPACE_WORDS,
        ensures
            r == Ok::<(), LinkError>(()),
            final(self).state() == (State {
                mem: spec_apply_symbols(
                    code.raw_code@ + old(self).mem().skip(code.raw_code@.len() as int),
                    code@.symbol_table,
                    default_device_address(),
                ),
                ..old(self).state()
            }),
    {
        // Resolve the symbol table:
        let resolved_symbols = match self.resolve_symbol_table(&code.symbol_table) {
            Ok(v) => v,
            Err(e) => {
                return Err(e);
            },
        };
        // Load the raw object code:
        self.load_raw_code(&code.raw_code);
        let ghost loaded = self.mem();
        let ghost symsv = code@.symbol_table;
        proof {
            assert(symsv.skip(0) =~= symsv);
        }
        // Now insert the resolved symbols:
        let mut k: usize = 0;
        while k < resolved_symbols.len()
            invariant
                k <= resolved_symbols@.len(),
                resolved_symbols@.len() == symsv.len(),
                symsv == code@.symbol_table,
                forall|q: int|
                    0 <= q < symsv.len() ==> (#[trigger] symsv[q]).instruction_address.0
                        < LINEAR_ADDRESS_SPACE_WORDS,
                forall|q: int|
                    0 <= q < resolved_symbols@.len()
                        ==> (#[trigger] resolved_symbols@[q]).instruction_address == symsv[
                        q].instruction_address && resolved_symbols@[q].device_address
                        == default_device_address(),
                self.sar == old(self).sar,
                self.sir == old(self).sir,
                self.work == old(self).work,
                spec_apply_symbols(loaded, symsv, default_device_address()) == spec_apply_symbols(
                    self.mem(),
                    symsv.skip(k as int),
                    default_device_address(),
                ),
            decreases resolved_symbols@.len() - k,
        {
            proof {
                assert(symsv.skip(k as int)[0] == symsv[k as int]);
            }
            let address = resolved_symbols[k].instruction_address.0 as usize;
            let device = resolved_symbols[k].device_address;
            let current = self.read_word(address);
            self.write_word(address, Word((current.0 & 0xF0000000) | (device.0 & 0x0FFFFFFF)));
            k = k + 1;
            proof {
                assert(symsv.skip(k - 1).skip(1) =~= symsv.skip(k as int));
            }
        }
        proof {
            assert(symsv.skip(k as int).len() == 0);
        }
        Ok(())
    }

    fn resolve_symbol_table(&self, symbol_table: &Vec<Symbol>) -> (r: Result<
        Vec<ResolvedSymbol>,
        LinkError,
    >)
        ensures
            r matches Ok(v) && v@.len() == symbol_table@.len() && forall|q: int|
                0 <= q < v@.len() ==> (#[trigger] v@[q]).instruction_address == symbol_table@[
                q].instruction_address && v@[q].device_address == default_device_address(),
    {
        // The default resolver: every symbol is bound to the stub
        // device address. A real device registry plugs in here.
        let mut resolved: Vec<ResolvedSymbol> = Vec::new();
        let mut k: usize = 0;
        while k < symbol_table.len()
            invariant
                k <= symbol_table@.len(),
                resolved@.len() == k,
                forall|q: int|
                    0 <= q < k ==> (#[trigger] resolved@[q]).instruction_address == symbol_table@[
                    q].instruction_address && resolved@[q].device_address
                        == default_device_address(),
            decreases symbol_table@.len() - k,
        {
            resolved.push(
                ResolvedSymbol::new(symbol_table[k].instruction_address, Word(0x0FFFFFFF)),
            );
            k = k + 1;
        }
        Ok(resolved)
    }
}

} // verus!
