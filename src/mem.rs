//! The linear word store, with its register file and value stack.

use vstd::prelude::*;

verus! {

/// Number of addressable memory cells (addresses `0x0000..=0x7FFF`).
pub const MAX_ADDRESS: usize = 0x8000;

/// Number of general-purpose registers (raw operands `0x8000..=0x8007`).
pub const MAX_REGISTERS: usize = 8;

#[derive(Debug, PartialEq, Eq)]
pub enum MemoryError {
    DataIsTooLarge(usize),
    OverflowAddress(u16),
    OverflowRegister(u8),
}

/// A raw word that names a register.
pub open spec fn is_register_ref(raw: u16) -> bool {
    0x8000 <= raw < 0x8008
}

/// The register that a register reference names.
pub open spec fn register_index(raw: u16) -> int {
    raw - 0x8000
}

/// Memory after `data` replaced its prefix: the rest keeps its values.
pub open spec fn loaded(cells: Seq<u16>, data: Seq<u16>) -> Seq<u16> {
    data + cells.subrange(data.len() as int, cells.len() as int)
}

/// `n` zero words.
pub open spec fn zeros(n: nat) -> Seq<u16> {
    Seq::new(n, |i: int| 0u16)
}

/// Pushing a value and popping it gives the value back and leaves the stack
/// as it was.
pub proof fn lemma_push_pop(stack: Seq<u16>, x: u16)
    ensures
        stack.push(x).len() == stack.len() + 1,
        stack.push(x).last() == x,
        stack.push(x).drop_last() == stack,
{
    assert(stack.push(x).drop_last() =~= stack);
}

/// After loading `data` (at most `MAX_ADDRESS` words) cell `i` holds word `i`
/// of `data`; the cells past it keep their values, which are zero in a fresh
/// memory.
pub proof fn lemma_load_then_read(cells: Seq<u16>, data: Seq<u16>, i: int)
    requires
        cells.len() == MAX_ADDRESS,
        data.len() <= MAX_ADDRESS,
        0 <= i < MAX_ADDRESS,
    ensures
        loaded(cells, data).len() == MAX_ADDRESS,
        i < data.len() ==> loaded(cells, data)[i] == data[i],
        i >= data.len() ==> loaded(cells, data)[i] == cells[i],
        i >= data.len() && cells == zeros(MAX_ADDRESS as nat) ==> loaded(cells, data)[i] == 0,
{
}

/// The register number named by an address of the register range.
pub fn get_registry_from_address(address: u16) -> (r: Option<u8>)
    ensures
        r == if is_register_ref(address) {
            Some(register_index(address) as u8)
        } else {
            None::<u8>
        },
{
    if let Some(reg_num) = address.checked_sub(MAX_ADDRESS as u16) {
        if reg_num < MAX_REGISTERS as u16 {
            return Some(reg_num as u8);
        }
    }
    None
}

/// The model of a `Memory`: its cells, its registers and its stack (top last).
pub struct MemState {
    pub cells: Seq<u16>,
    pub registers: Seq<u16>,
    pub stack: Seq<u16>,
}

pub struct Memory {
    memory: Vec<u16>,
    registers: Vec<u16>,
    stack: Vec<u16>,
}

impl View for Memory {
    type V = MemState;

    closed spec fn view(&self) -> MemState {
        MemState { cells: self.memory@, registers: self.registers@, stack: self.stack@ }
    }
}

impl Default for Memory {
    /// All cells and registers zero, the stack empty.
    fn default() -> (r: Memory)
        ensures
            r.wf(),
            r@.cells == zeros(MAX_ADDRESS as nat),
            r@.registers == zeros(MAX_REGISTERS as nat),
            r@.stack == Seq::<u16>::empty(),
    {
        let mut memory: Vec<u16> = Vec::new();
        let mut i: usize = 0;
        while i < MAX_ADDRESS
            invariant
                i <= MAX_ADDRESS,
                memory@ == zeros(i as nat),
            decreases MAX_ADDRESS - i,
        {
            memory.push(0);
            i = i + 1;
            assert(memory@ =~= zeros(i as nat));
        }
        let registers: Vec<u16> = vec![0, 0, 0, 0, 0, 0, 0, 0];
        assert(registers@ =~= zeros(MAX_REGISTERS as nat));
        Memory { memory, registers, stack: Vec::new() }
    }
}

impl Memory {
    /// Exactly `MAX_ADDRESS` cells and `MAX_REGISTERS` registers.
    pub open spec fn wf(&self) -> bool {
        self@.cells.len() == MAX_ADDRESS && self@.registers.len() == MAX_REGISTERS
    }

    /// Copies `data` over the first cells; fails, changing nothing, when it
    /// does not fit.
    pub fn load_data(&mut self, data: &[u16]) -> (r: Result<(), MemoryError>)
        requires
            old(self).wf(),
        ensures
            final(self).wf(),
            data@.len() > MAX_ADDRESS ==> r == Err::<(), MemoryError>(
                MemoryError::DataIsTooLarge(data@.len() as usize),
            ) && final(self)@ == old(self)@,
            data@.len() <= MAX_ADDRESS ==> r == Ok::<(), MemoryError>(()) && final(self)@ == (
            MemState { cells: loaded(old(self)@.cells, data@), ..old(self)@ }),
    {
        if data.len() > self.memory.len() {
            return Err(MemoryError::DataIsTooLarge(data.len()));
        }
        let mut i: usize = 0;
        while i < data.len()
            invariant
                data@.len() <= MAX_ADDRESS,
                i <= data@.len(),
                self.wf(),
                self@.registers == old(self)@.registers,
                self@.stack == old(self)@.stack,
                forall|j: int| 0 <= j < i ==> self@.cells[j] == data@[j],
                forall|j: int| i <= j < MAX_ADDRESS ==> self@.cells[j] == old(self)@.cells[j],
            decreases data@.len() - i,
        {
            self.memory.set(i, data[i]);
            i = i + 1;
        }
        assert(self@.cells =~= loaded(old(self)@.cells, data@));
        Ok(())
    }

    /// Writes a cell (`0x0000..=0x7FFF`) or a register (`0x8000..=0x8007`) and
    /// returns the value it held; any other address fails.
    pub fn set_value(&mut self, address: u16, value: u16) -> (r: Result<u16, MemoryError>)
        requires
            old(self).wf(),
        ensures
            final(self).wf(),
            address < 0x8000 ==> r == Ok::<u16, MemoryError>(old(self)@.cells[address as int])
                && final(self)@ == (MemState {
                cells: old(self)@.cells.update(address as int, value),
                ..old(self)@
            }),
            is_register_ref(address) ==> r == Ok::<u16, MemoryError>(
                old(self)@.registers[register_index(address)],
            ) && final(self)@ == (MemState {
                registers: old(self)@.registers.update(register_index(address), value),
                ..old(self)@
            }),
            address >= 0x8008 ==> r == Err::<u16, MemoryError>(MemoryError::OverflowAddress(address))
                && final(self)@ == old(self)@,
    {
        if address < 0x8000 {
            self.write_memory(address, value)
        } else if address < 0x8008 {
            match get_registry_from_address(address) {
                Some(reg_num) => self.write_register(reg_num, value),
                None => Err(MemoryError::OverflowAddress(address)),
            }
        } else {
            Err(MemoryError::OverflowAddress(address))
        }
    }

    /// The cell at `address`, if it is a memory address.
    pub fn read_memory(&self, address: u16) -> (r: Option<u16>)
        requires
            self.wf(),
        ensures
            r == if address < 0x8000 {
                Some(self@.cells[address as int])
            } else {
                None::<u16>
            },
    {
        if address < 0x8000 {
            Some(self.memory[address as usize])
        } else {
            None
        }
    }

    /// Replaces the cell at `address` and returns the value it held.
    pub fn write_memory(&mut self, address: u16, value: u16) -> (r: Result<u16, MemoryError>)
        requires
            old(self).wf(),
        ensures
            final(self).wf(),
            address < 0x8000 ==> r == Ok::<u16, MemoryError>(old(self)@.cells[address as int])
                && final(self)@ == (MemState {
                cells: old(self)@.cells.update(address as int, value),
                ..old(self)@
            }),
            address >= 0x8000 ==> r == Err::<u16, MemoryError>(MemoryError::OverflowAddress(address))
                && final(self)@ == old(self)@,
    {
        if address < 0x8000 {
            let old_value = self.memory[address as usize];
            self.memory.set(address as usize, value);
            Ok(old_value)
        } else {
            Err(MemoryError::OverflowAddress(address))
        }
    }

    /// Register `number`, if there is one.
    pub fn read_register(&self, number: u8) -> (r: Option<u16>)
        requires
            self.wf(),
        ensures
            r == if number < 8 {
                Some(self@.registers[number as int])
            } else {
                None::<u16>
            },
    {
        if number < 8 {
            Some(self.registers[number as usize])
        } else {
            None
        }
    }

    /// Replaces register `number` and returns the value it held.
    pub fn write_register(&mut self, number: u8, value: u16) -> (r: Result<u16, MemoryError>)
        requires
            old(self).wf(),
        ensures
            final(self).wf(),
            number < 8 ==> r == Ok::<u16, MemoryError>(old(self)@.registers[number as int])
                && final(self)@ == (MemState {
                registers: old(self)@.registers.update(number as int, value),
                ..old(self)@
            }),
            number >= 8 ==> r == Err::<u16, MemoryError>(MemoryError::OverflowRegister(number))
                && final(self)@ == old(self)@,
    {
        if number < 8 {
            let old_value = self.registers[number as usize];
            self.registers.set(number as usize, value);
            Ok(old_value)
        } else {
            Err(MemoryError::OverflowRegister(number))
        }
    }

    pub fn push(&mut self, value: u16)
        requires
            old(self).wf(),
        ensures
            final(self).wf(),
            final(self)@ == (MemState { stack: old(self)@.stack.push(value), ..old(self)@ }),
    {
        self.stack.push(value);
    }

    /// Number of values on the stack.
    pub fn stack_len(&self) -> (r: usize)
        ensures
            r == self@.stack.len(),
    {
        self.stack.len()
    }

    /// Takes the top of the stack, or `None` when it is empty.
    pub fn pop(&mut self) -> (r: Option<u16>)
        requires
            old(self).wf(),
        ensures
            final(self).wf(),
            old(self)@.stack.len() == 0 ==> r == None::<u16> && final(self)@ == old(self)@,
            old(self)@.stack.len() > 0 ==> r == Some(old(self)@.stack.last()) && final(self)@ == (
            MemState { stack: old(self)@.stack.drop_last(), ..old(self)@ }),
    {
        self.stack.pop()
    }
}

} // verus!
