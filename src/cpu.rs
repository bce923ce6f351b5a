//! The execution context (memory, registers, stack, program counter and the
//! byte streams of the `in` and `out` opcodes) and the interpreter that steps
//! through it.

use vstd::prelude::*;
use crate::mem::{
    get_registry_from_address, is_register_ref, register_index, zeros, Memory, MemoryError,
    MAX_ADDRESS, MAX_REGISTERS,
};

verus! {

#[derive(Debug, PartialEq, Eq)]
pub enum CPUError {
    OverflowAddress(u16),
    OverflowRegister(u8),
    PopFromEmptyStack,
    UnknownOpCode { opcode: u16, address: u16 },
    /// `mod` with a zero divisor; holds the address of the instruction.
    DivisionByZero(u16),
}

/// What an instruction asks of the program counter.
pub enum ExecutionResult {
    /// Halt; the program counter stays where it is.
    Stop,
    /// Continue at the given address.
    Jump(u16),
    /// Continue after an instruction of the given number of words.
    Next(u16),
}

/// The model of a `CPU`.
pub struct Machine {
    pub cells: Seq<u16>,
    pub registers: Seq<u16>,
    /// Top of the stack last.
    pub stack: Seq<u16>,
    pub pc: u16,
    /// Bytes not yet consumed by `in`.
    pub input: Seq<u8>,
    /// Bytes written by `out` and not yet taken.
    pub output: Seq<u8>,
}

/// The value stored at an address of the unified address space.
pub open spec fn fetch_spec(m: Machine, addr: int) -> Result<u16, CPUError> {
    if 0 <= addr < 0x8000 {
        Ok(m.cells[addr])
    } else if 0x8000 <= addr < 0x8008 {
        Ok(m.registers[addr - 0x8000])
    } else {
        Err(CPUError::OverflowAddress(addr as u16))
    }
}

/// The value of a raw operand: a literal is itself, a register reference is
/// the register's contents.
pub open spec fn resolve_spec(m: Machine, raw: u16) -> Result<u16, CPUError> {
    if raw < 0x8000 {
        Ok(raw)
    } else {
        fetch_spec(m, raw as int)
    }
}

/// Writes `value` to a cell or a register.
pub open spec fn store_spec(m: Machine, addr: u16, value: u16) -> Result<Machine, CPUError> {
    if addr < 0x8000 {
        Ok(Machine { cells: m.cells.update(addr as int, value), ..m })
    } else if is_register_ref(addr) {
        Ok(Machine { registers: m.registers.update(register_index(addr), value), ..m })
    } else {
        Err(CPUError::OverflowAddress(addr))
    }
}

/// Writes `value` to the register that a destination operand names; any
/// other destination fails.
pub open spec fn put_spec(m: Machine, raw: u16, value: u16) -> Result<Machine, CPUError> {
    if is_register_ref(raw) {
        Ok(Machine { registers: m.registers.update(register_index(raw), value), ..m })
    } else {
        Err(CPUError::OverflowAddress(raw))
    }
}

/// Sum modulo 32768.
pub open spec fn add_spec(b: u16, c: u16) -> u16 {
    ((b + c) % 0x8000) as u16
}

/// Product modulo 32768.
pub open spec fn mult_spec(b: u16, c: u16) -> u16 {
    ((b * c) % 0x8000) as u16
}

/// 15-bit bitwise inverse.
pub open spec fn not_spec(b: u16) -> u16 {
    !b & 0x7FFF
}

/// The result of the three-operand opcodes `eq`, `gt`, `add`, `mult`, `mod`,
/// `and` and `or`.
pub open spec fn alu_spec(op: u16, b: u16, c: u16) -> u16 {
    if op == 4 {
        if b == c { 1 } else { 0 }
    } else if op == 5 {
        if b > c { 1 } else { 0 }
    } else if op == 9 {
        add_spec(b, c)
    } else if op == 10 {
        mult_spec(b, c)
    } else if op == 11 {
        (b % c) as u16
    } else if op == 12 {
        b & c
    } else {
        b | c
    }
}

/// Number of operand words that follow an opcode.
pub open spec fn arity(op: u16) -> int {
    if op == 0 || op == 18 || op == 21 {
        0
    } else if op == 2 || op == 3 || op == 6 || op == 17 || op == 19 || op == 20 {
        1
    } else if op == 1 || op == 7 || op == 8 || op == 14 || op == 15 || op == 16 {
        2
    } else {
        3
    }
}

/// The opcodes that write their result to a register named by their first operand.
pub open spec fn writes_register(op: u16) -> bool {
    op == 1 || op == 3 || op == 4 || op == 5 || (9 <= op <= 15) || op == 20
}

pub open spec fn advance(r: Result<Machine, CPUError>, size: u16) -> Result<
    (ExecutionResult, Machine),
    CPUError,
> {
    match r {
        Ok(m) => Ok((ExecutionResult::Next(size), m)),
        Err(e) => Err(e),
    }
}

/// The three-operand arithmetic, logic and comparison opcodes.
pub open spec fn binary_spec(m: Machine, op: u16, ra: u16, rb: u16, rc: u16) -> Result<
    (ExecutionResult, Machine),
    CPUError,
> {
    match resolve_spec(m, rb) {
        Err(e) => Err(e),
        Ok(b) => match resolve_spec(m, rc) {
            Err(e) => Err(e),
            Ok(c) => if op == 11 && c == 0 {
                Err(CPUError::DivisionByZero(m.pc))
            } else {
                advance(put_spec(m, ra, alu_spec(op, b, c)), 4)
            },
        },
    }
}

/// What the instruction `op ra rb rc` does, the program counter aside: the
/// request to the program counter and the new state, or the error, which
/// leaves the state as it was.
pub open spec fn effect_spec(m: Machine, op: u16, ra: u16, rb: u16, rc: u16) -> Result<
    (ExecutionResult, Machine),
    CPUError,
> {
    if op == 0 {
        Ok((ExecutionResult::Stop, m))
    } else if op == 1 {
        match resolve_spec(m, rb) {
            Err(e) => Err(e),
            Ok(b) => advance(put_spec(m, ra, b), 3),
        }
    } else if op == 2 {
        match resolve_spec(m, ra) {
            Err(e) => Err(e),
            Ok(a) => Ok((ExecutionResult::Next(2), Machine { stack: m.stack.push(a), ..m })),
        }
    } else if op == 3 {
        if m.stack.len() == 0 {
            Err(CPUError::PopFromEmptyStack)
        } else {
            advance(put_spec(Machine { stack: m.stack.drop_last(), ..m }, ra, m.stack.last()), 2)
        }
    } else if op == 6 {
        match resolve_spec(m, ra) {
            Err(e) => Err(e),
            Ok(a) => Ok((ExecutionResult::Jump(a), m)),
        }
    } else if op == 7 || op == 8 {
        match resolve_spec(m, ra) {
            Err(e) => Err(e),
            Ok(a) => match resolve_spec(m, rb) {
                Err(e) => Err(e),
                Ok(b) => if (a != 0) == (op == 7) {
                    Ok((ExecutionResult::Jump(b), m))
                } else {
                    Ok((ExecutionResult::Next(3), m))
                },
            },
        }
    } else if 4 <= op <= 13 {
        binary_spec(m, op, ra, rb, rc)
    } else if op == 14 {
        match resolve_spec(m, rb) {
            Err(e) => Err(e),
            Ok(b) => advance(put_spec(m, ra, not_spec(b)), 3),
        }
    } else if op == 15 {
        match resolve_spec(m, rb) {
            Err(e) => Err(e),
            Ok(b) => match fetch_spec(m, b as int) {
                Err(e) => Err(e),
                Ok(v) => advance(put_spec(m, ra, v), 3),
            },
        }
    } else if op == 16 {
        match resolve_spec(m, ra) {
            Err(e) => Err(e),
            Ok(a) => match resolve_spec(m, rb) {
                Err(e) => Err(e),
                Ok(b) => advance(store_spec(m, a, b), 3),
            },
        }
    } else if op == 17 {
        match resolve_spec(m, ra) {
            Err(e) => Err(e),
            Ok(a) => Ok(
                (ExecutionResult::Jump(a), Machine { stack: m.stack.push((m.pc + 2) as u16), ..m }),
            ),
        }
    } else if op == 18 {
        if m.stack.len() == 0 {
            Ok((ExecutionResult::Stop, m))
        } else {
            Ok((ExecutionResult::Jump(m.stack.last()), Machine { stack: m.stack.drop_last(), ..m }))
        }
    } else if op == 19 {
        match resolve_spec(m, ra) {
            Err(e) => Err(e),
            Ok(a) => Ok(
                (ExecutionResult::Next(2), Machine { output: m.output.push((a % 256) as u8), ..m }),
            ),
        }
    } else if op == 20 {
        if !is_register_ref(ra) {
            Err(CPUError::OverflowAddress(ra))
        } else if m.input.len() == 0 {
            Ok((ExecutionResult::Stop, m))
        } else {
            advance(put_spec(Machine { input: m.input.drop_first(), ..m }, ra, m.input[0] as u16), 2)
        }
    } else if op == 21 {
        Ok((ExecutionResult::Next(1), m))
    } else {
        Err(CPUError::UnknownOpCode { opcode: op, address: m.pc })
    }
}

/// The first error among the operand fetches that opcode `op` uses.
pub open spec fn operand_error(
    op: u16,
    a: Result<u16, CPUError>,
    b: Result<u16, CPUError>,
    c: Result<u16, CPUError>,
) -> Option<CPUError> {
    if arity(op) >= 1 && a is Err {
        Some(a->Err_0)
    } else if arity(op) >= 2 && b is Err {
        Some(b->Err_0)
    } else if arity(op) >= 3 && c is Err {
        Some(c->Err_0)
    } else {
        None
    }
}

pub open spec fn word_or_zero(r: Result<u16, CPUError>) -> u16 {
    match r {
        Ok(v) => v,
        Err(_) => 0,
    }
}

/// One instruction: `Ok((true, m))` on halt, `Ok((false, m))` when execution
/// goes on from state `m`, `Err` when the instruction fails, which leaves the
/// state as it was.
pub open spec fn step_spec(m: Machine) -> Result<(bool, Machine), CPUError> {
    match fetch_spec(m, m.pc as int) {
        Err(e) => Err(e),
        Ok(op) => {
            let a = fetch_spec(m, m.pc + 1);
            let b = fetch_spec(m, m.pc + 2);
            let c = fetch_spec(m, m.pc + 3);
            if op > 21 {
                Err(CPUError::UnknownOpCode { opcode: op, address: m.pc })
            } else if operand_error(op, a, b, c) is Some {
                Err(operand_error(op, a, b, c)->Some_0)
            } else {
                match effect_spec(m, op, word_or_zero(a), word_or_zero(b), word_or_zero(c)) {
                    Err(e) => Err(e),
                    Ok((ExecutionResult::Stop, m2)) => Ok((true, m2)),
                    Ok((ExecutionResult::Jump(t), m2)) => Ok((false, Machine { pc: t, ..m2 })),
                    Ok((ExecutionResult::Next(n), m2)) => Ok(
                        (false, Machine { pc: (m.pc + n) as u16, ..m2 }),
                    ),
                }
            }
        },
    }
}

/// The next instruction is `in` and no input is left for it.
pub open spec fn needs_input_spec(m: Machine) -> bool {
    fetch_spec(m, m.pc as int) == Ok::<u16, CPUError>(20) && m.input.len() == 0
}

/// The cells and registers have their fixed sizes.
pub open spec fn sized(m: Machine) -> bool {
    m.cells.len() == MAX_ADDRESS && m.registers.len() == MAX_REGISTERS
}

/// Every cell, register and stack value fits in 15 bits.
pub open spec fn values_in_range(m: Machine) -> bool {
    &&& forall|i: int| 0 <= i < m.cells.len() ==> m.cells[i] < 0x8000
    &&& forall|i: int| 0 <= i < m.registers.len() ==> m.registers[i] < 0x8000
    &&& forall|i: int| 0 <= i < m.stack.len() ==> m.stack[i] < 0x8000
}

/// `not` undoes itself on 15-bit values.
pub proof fn lemma_not_involutive(x: u16)
    requires
        x < 0x8000,
    ensures
        not_spec(not_spec(x)) == x,
{
    assert(!(!x & 0x7FFFu16) & 0x7FFFu16 == x) by (bit_vector)
        requires
            x < 0x8000u16,
    ;
}

/// Addition modulo 32768 is associative.
pub proof fn lemma_add_associative(a: u16, b: u16, c: u16)
    ensures
        add_spec(add_spec(a, b), c) == add_spec(a, add_spec(b, c)),
{
    let m: int = 0x8000;
    vstd::arithmetic::div_mod::lemma_add_mod_noop_right(c as int, a + b, m);
    vstd::arithmetic::div_mod::lemma_add_mod_noop_right(a as int, b + c, m);
    vstd::arithmetic::div_mod::lemma_mod_bound(a + b, m);
    vstd::arithmetic::div_mod::lemma_mod_bound(b + c, m);
    assert(a + b + c == c + (a + b));
}

/// `push x` then `pop d` writes the pushed value to register `d` and leaves
/// the stack as it was.
pub proof fn lemma_push_then_pop(m: Machine, x: u16, d: u16)
    requires
        sized(m),
        is_register_ref(d),
        resolve_spec(m, x) is Ok,
    ensures
        effect_spec(m, 2, x, 0, 0) matches Ok((_, m1)) && effect_spec(m1, 3, d, 0, 0) matches Ok(
            (ExecutionResult::Next(2), m2),
        ) && m2.stack == m.stack && m2.registers[register_index(d)] == resolve_spec(m, x)->Ok_0,
{
    let m1 = effect_spec(m, 2, x, 0, 0)->Ok_0.1;
    assert(m1.stack.drop_last() =~= m.stack);
}

/// `not a, x` then `not b, a` leaves `x` in register `b`.
pub proof fn lemma_not_twice(m: Machine, x: u16, a: u16, b: u16)
    requires
        sized(m),
        x < 0x8000,
        is_register_ref(a),
        is_register_ref(b),
    ensures
        effect_spec(m, 14, a, x, 0) matches Ok((_, m1)) && effect_spec(m1, 14, b, a, 0) matches Ok(
            (_, m2),
        ) && m2.registers[register_index(b)] == x,
{
    lemma_not_involutive(x);
}

/// `(x + y) + z` computed in register `a` equals `x + (y + z)` computed in
/// register `b`.
pub proof fn lemma_add_chain_associative(m: Machine, x: u16, y: u16, z: u16, a: u16, b: u16)
    requires
        sized(m),
        x < 0x8000,
        y < 0x8000,
        z < 0x8000,
        is_register_ref(a),
        is_register_ref(b),
        a != b,
    ensures
        effect_spec(m, 9, a, x, y) matches Ok((_, m1)) && effect_spec(m1, 9, a, a, z) matches Ok(
            (_, m2),
        ) && effect_spec(m2, 9, b, y, z) matches Ok((_, m3)) && effect_spec(m3, 9, b, x, b) matches Ok(
            (_, m4),
        ) && m4.registers[register_index(a)] == m4.registers[register_index(b)]
            && m4.registers[register_index(a)] == add_spec(add_spec(x, y), z),
{
    lemma_add_associative(x, y, z);
}

/// `mod` with a zero divisor fails with `DivisionByZero`, and so changes
/// nothing.
pub proof fn lemma_mod_by_zero_fails(m: Machine, a: u16, b: u16, c: u16)
    requires
        resolve_spec(m, b) is Ok,
        resolve_spec(m, c) == Ok::<u16, CPUError>(0),
    ensures
        effect_spec(m, 11, a, b, c) == Err::<(ExecutionResult, Machine), CPUError>(
            CPUError::DivisionByZero(m.pc),
        ),
{
}

/// An instruction that writes a register fails, and so changes nothing,
/// when its destination operand is a literal.
pub proof fn lemma_literal_destination_fails(m: Machine)
    requires
        sized(m),
        fetch_spec(m, m.pc as int) matches Ok(op) && writes_register(op),
        fetch_spec(m, m.pc + 1) matches Ok(a) && a < 0x8000,
    ensures
        step_spec(m) is Err,
{
}

/// `halt`, `ret` and `noop` take no operands, so they run at any address
/// they can be fetched from, also where the words after them cannot.
pub proof fn lemma_operandless_opcodes_run(m: Machine)
    requires
        sized(m),
        fetch_spec(m, m.pc as int) matches Ok(op) && (op == 0 || op == 18 || op == 21),
    ensures
        step_spec(m) is Ok,
{
}

/// A step from a state whose values all fit in 15 bits, below the last two
/// addresses (where `call` would push a return address past memory),
/// leaves every cell, register and stack value within 15 bits.
pub proof fn lemma_step_keeps_values_in_range(m: Machine)
    requires
        sized(m),
        values_in_range(m),
        m.pc < 0x7FFE,
    ensures
        step_spec(m) matches Ok((_, m2)) ==> values_in_range(m2),
{
    assert forall|raw: u16| #[trigger] resolve_spec(m, raw) is Ok implies resolve_spec(m, raw)->Ok_0
        < 0x8000 by {
    }
    assert forall|b: u16, c: u16| b < 0x8000 && c < 0x8000 implies (b & c) < 0x8000 && (b | c)
        < 0x8000 by {
        assert((b & c) < 0x8000u16 && (b | c) < 0x8000u16) by (bit_vector)
            requires
                b < 0x8000u16,
                c < 0x8000u16,
        ;
    }
    assert forall|b: u16| #[trigger] not_spec(b) < 0x8000 by {
        assert(!b & 0x7FFFu16 < 0x8000u16) by (bit_vector);
    }
    assert forall|b: u16, c: u16| c != 0 && b < 0x8000 implies #[trigger] (b % c) < 0x8000 by {
        vstd::arithmetic::div_mod::lemma_mod_decreases(b as nat, c as nat);
    }
}

/// `r` is the outcome `s` describes for an instruction run from `before`
/// that left `after`.
pub open spec fn outcome_holds(
    r: Result<ExecutionResult, CPUError>,
    s: Result<(ExecutionResult, Machine), CPUError>,
    before: Machine,
    after: Machine,
) -> bool {
    match s {
        Ok((e, m)) => r == Ok::<ExecutionResult, CPUError>(e) && after == m,
        Err(err) => r == Err::<ExecutionResult, CPUError>(err) && after == before,
    }
}

pub struct CPU {
    memory: Memory,
    current_address: u16,
    input: Vec<u8>,
    output: Vec<u8>,
}

impl View for CPU {
    type V = Machine;

    closed spec fn view(&self) -> Machine {
        Machine {
            cells: self.memory@.cells,
            registers: self.memory@.registers,
            stack: self.memory@.stack,
            pc: self.current_address,
            input: self.input@,
            output: self.output@,
        }
    }
}

impl CPU {
    pub open spec fn wf(&self) -> bool {
        self@.cells.len() == MAX_ADDRESS && self@.registers.len() == MAX_REGISTERS
    }

    /// A processor at address 0 over the cells of `mem`, with zeroed
    /// registers, an empty stack, no input and no output.
    pub fn new(mem: Memory) -> (r: CPU)
        requires
            mem.wf(),
        ensures
            r.wf(),
            r@ == (Machine {
                cells: mem@.cells,
                registers: zeros(MAX_REGISTERS as nat),
                stack: Seq::empty(),
                pc: 0,
                input: Seq::empty(),
                output: Seq::empty(),
            }),
    {
        let mut memory = mem;
        let mut number: u8 = 0;
        while number < 8
            invariant
                number <= 8,
                memory.wf(),
                memory@.cells == mem@.cells,
                memory@.stack == mem@.stack,
                forall|i: int| 0 <= i < number ==> memory@.registers[i] == 0,
            decreases 8 - number,
        {
            let _ = memory.write_register(number, 0);
            number = number + 1;
        }
        while memory.stack_len() > 0
            invariant
                memory.wf(),
                memory@.cells == mem@.cells,
                forall|i: int| 0 <= i < MAX_REGISTERS ==> memory@.registers[i] == 0,
            decreases memory@.stack.len(),
        {
            let _ = memory.pop();
        }
        assert(memory@.registers =~= zeros(MAX_REGISTERS as nat));
        assert(memory@.stack =~= Seq::<u16>::empty());
        CPU { memory, current_address: 0, input: Vec::new(), output: Vec::new() }
    }

    /// The memory, its registers and its stack.
    pub fn memory(&self) -> (r: &Memory)
        requires
            self.wf(),
        ensures
            r.wf(),
            r@.cells == self@.cells,
            r@.registers == self@.registers,
            r@.stack == self@.stack,
    {
        &self.memory
    }

    /// Copies `data` over the first memory cells, as `Memory::load_data`.
    pub fn load_data(&mut self, data: &[u16]) -> (r: Result<(), MemoryError>)
        requires
            old(self).wf(),
        ensures
            final(self).wf(),
            data@.len() > MAX_ADDRESS ==> r == Err::<(), MemoryError>(
                MemoryError::DataIsTooLarge(data@.len() as usize),
            ) && final(self)@ == old(self)@,
            data@.len() <= MAX_ADDRESS ==> r == Ok::<(), MemoryError>(()) && final(self)@ == (
            Machine { cells: crate::mem::loaded(old(self)@.cells, data@), ..old(self)@ }),
    {
        self.memory.load_data(data)
    }

    /// Reads a cell (`0x0000..=0x7FFF`) or a register (`0x8000..=0x8007`).
    pub fn get_value_from_address(&self, address: u16) -> (r: Result<u16, CPUError>)
        requires
            self.wf(),
        ensures
            r == fetch_spec(self@, address as int),
    {
        if address < 0x8000 {
            match self.memory.read_memory(address) {
                Some(v) => Ok(v),
                None => Err(CPUError::OverflowAddress(address)),
            }
        } else if address < 0x8008 {
            match get_registry_from_address(address) {
                Some(reg_num) => match self.read_register(reg_num) {
                    Some(v) => Ok(v),
                    None => Err(CPUError::OverflowRegister(reg_num)),
                },
                None => Err(CPUError::OverflowAddress(address)),
            }
        } else {
            Err(CPUError::OverflowAddress(address))
        }
    }

    pub fn get_current_address(&self) -> (r: u16)
        ensures
            r == self@.pc,
    {
        self.current_address
    }

    /// Writes a cell or a register and returns the value it held.
    pub fn set_value_in_address(&mut self, address: u16, value: u16) -> (r: Result<u16, CPUError>)
        requires
            old(self).wf(),
        ensures
            final(self).wf(),
            match store_spec(old(self)@, address, value) {
                Ok(m) => r == fetch_spec(old(self)@, address as int) && final(self)@ == m,
                Err(e) => r == Err::<u16, CPUError>(e) && final(self)@ == old(self)@,
            },
    {
        match self.memory.set_value(address, value) {
            Ok(v) => Ok(v),
            Err(_) => Err(CPUError::OverflowAddress(address)),
        }
    }

    /// Register `number`, if there is one.
    pub fn read_register(&self, number: u8) -> (r: Option<u16>)
        requires
            self.wf(),
        ensures
            r == if number < 8 {
                Some(self@.registers[number as int])
            } else {
                None::<u16>
            },
    {
        self.memory.read_register(number)
    }

    /// Replaces register `number` and returns the value it held.
    pub fn write_register(&mut self, number: u8, value: u16) -> (r: Result<u16, CPUError>)
        requires
            old(self).wf(),
        ensures
            final(self).wf(),
            number < 8 ==> r == Ok::<u16, CPUError>(old(self)@.registers[number as int])
                && final(self)@ == (Machine {
                registers: old(self)@.registers.update(number as int, value),
                ..old(self)@
            }),
            number >= 8 ==> r == Err::<u16, CPUError>(CPUError::OverflowRegister(number))
                && final(self)@ == old(self)@,
    {
        match self.memory.write_register(number, value) {
            Ok(v) => Ok(v),
            Err(_) => Err(CPUError::OverflowRegister(number)),
        }
    }

    /// The value of a raw operand.
    pub fn from_raw_to_u16(&self, raw: u16) -> (r: Result<u16, CPUError>)
        requires
            self.wf(),
        ensures
            r == resolve_spec(self@, raw),
            raw < 0x8000 ==> r == Ok::<u16, CPUError>(raw),
            is_register_ref(raw) ==> r == Ok::<u16, CPUError>(
                self@.registers[register_index(raw)],
            ),
            raw >= 0x8008 ==> r == Err::<u16, CPUError>(CPUError::OverflowAddress(raw)),
    {
        if raw < 0x8000 {
            Ok(raw)
        } else {
            self.get_value_from_address(raw)
        }
    }

    /// Appends bytes for the `in` opcode to consume.
    pub fn provide_input(&mut self, bytes: &[u8])
        requires
            old(self).wf(),
        ensures
            final(self).wf(),
            final(self)@ == (Machine { input: old(self)@.input + bytes@, ..old(self)@ }),
    {
        let mut i: usize = 0;
        while i < bytes.len()
            invariant
                i <= bytes@.len(),
                self.wf(),
                self@ == (Machine { input: old(self)@.input + bytes@.subrange(0, i as int), ..old(self)@ }),
            decreases bytes@.len() - i,
        {
            self.input.push(bytes[i]);
            i = i + 1;
            assert(self@.input =~= old(self)@.input + bytes@.subrange(0, i as int));
        }
        assert(bytes@.subrange(0, i as int) =~= bytes@);
    }

    /// Takes the bytes that `out` has written since the last call.
    pub fn take_output(&mut self) -> (r: Vec<u8>)
        requires
            old(self).wf(),
        ensures
            final(self).wf(),
            r@ == old(self)@.output,
            final(self)@ == (Machine { output: Seq::empty(), ..old(self)@ }),
    {
        let mut taken: Vec<u8> = Vec::new();
        std::mem::swap(&mut taken, &mut self.output);
        taken
    }

    /// Whether the next instruction is `in` with no input left to read.
    pub fn needs_input(&self) -> (r: bool)
        requires
            self.wf(),
        ensures
            r == needs_input_spec(self@),
    {
        match self.get_value_from_address(self.current_address) {
            Ok(op_code) => op_code == 20 && self.input.len() == 0,
            Err(_) => false,
        }
    }

    /// Writes `value` to the register that destination operand `raw` names.
    fn write_destination(&mut self, raw: u16, value: u16) -> (r: Result<(), CPUError>)
        requires
            old(self).wf(),
        ensures
            final(self).wf(),
            match put_spec(old(self)@, raw, value) {
                Ok(m) => r == Ok::<(), CPUError>(()) && final(self)@ == m,
                Err(e) => r == Err::<(), CPUError>(e) && final(self)@ == old(self)@,
            },
    {
        match get_registry_from_address(raw) {
            Some(reg_num) => {
                let _ = self.write_register(reg_num, value);
                Ok(())
            },
            None => Err(CPUError::OverflowAddress(raw)),
        }
    }
}

impl CPU {
    /// One instruction: fetch the opcode at the program counter, fetch the
    /// operands it uses, and execute it. Returns `Ok(true)` on halt. An error
    /// leaves the state as it was.
    pub fn execute(&mut self) -> (r: Result<bool, CPUError>)
        requires
            old(self).wf(),
        ensures
            final(self).wf(),
            match step_spec(old(self)@) {
                Ok((halted, m)) => r == Ok::<bool, CPUError>(halted) && final(self)@ == m,
                Err(e) => r == Err::<bool, CPUError>(e) && final(self)@ == old(self)@,
            },
    {
        let pc = self.current_address;
        let op_code = self.get_value_from_address(pc)?;
        // Operands past the end of the address space only fail when used.
        let a = self.get_value_from_address(pc + 1);
        let b = self.get_value_from_address(pc + 2);
        let c = self.get_value_from_address(pc + 3);

        let execution_result = match op_code {
            0 => self.halt(),
            1 => self.set(a?, b?),
            2 => self.push(a?),
            3 => self.pop(a?),
            4 => self.eq(a?, b?, c?),
            5 => self.gt(a?, b?, c?),
            6 => self.jmp(a?),
            7 => self.jt(a?, b?),
            8 => self.jf(a?, b?),
            9 => self.add(a?, b?, c?),
            10 => self.mult(a?, b?, c?),
            11 => self.modulo(a?, b?, c?),
            12 => self.and(a?, b?, c?),
            13 => self.or(a?, b?, c?),
            14 => self.not(a?, b?),
            15 => self.rmem(a?, b?),
            16 => self.wmem(a?, b?),
            17 => self.call(a?),
            18 => self.ret(),
            19 => self.out(a?),
            20 => self.read_input(a?),
            21 => self.noop(),
            _ => Err(CPUError::UnknownOpCode { opcode: op_code, address: pc }),
        };

        match execution_result? {
            ExecutionResult::Stop => Ok(true),
            ExecutionResult::Jump(address) => {
                self.current_address = address;
                Ok(false)
            },
            ExecutionResult::Next(size) => {
                self.current_address = pc + size;
                Ok(false)
            },
        }
    }

    // halt: 0 - stop execution
    fn halt(&self) -> (r: Result<ExecutionResult, CPUError>)
        ensures
            outcome_holds(r, effect_spec(self@, 0, 0, 0, 0), self@, self@),
    {
        Ok(ExecutionResult::Stop)
    }

    // set: 1 a b - set register <a> to the value of <b>
    fn set(&mut self, raw_a: u16, raw_b: u16) -> (r: Result<ExecutionResult, CPUError>)
        requires
            old(self).wf(),
        ensures
            final(self).wf(),
            outcome_holds(r, effect_spec(old(self)@, 1, raw_a, raw_b, 0), old(self)@, final(self)@),
    {
        let b = self.from_raw_to_u16(raw_b)?;
        self.write_destination(raw_a, b)?;
        Ok(ExecutionResult::Next(3))
    }

    // push: 2 a - push <a> onto the stack
    fn push(&mut self, raw_a: u16) -> (r: Result<ExecutionResult, CPUError>)
        requires
            old(self).wf(),
        ensures
            final(self).wf(),
            outcome_holds(r, effect_spec(old(self)@, 2, raw_a, 0, 0), old(self)@, final(self)@),
    {
        let a = self.from_raw_to_u16(raw_a)?;
        self.memory.push(a);
        Ok(ExecutionResult::Next(2))
    }

    // pop: 3 a - remove the top element from the stack and write it into <a>; empty stack = error
    fn pop(&mut self, raw_a: u16) -> (r: Result<ExecutionResult, CPUError>)
        requires
            old(self).wf(),
        ensures
            final(self).wf(),
            outcome_holds(r, effect_spec(old(self)@, 3, raw_a, 0, 0), old(self)@, final(self)@),
    {
        if self.memory.stack_len() == 0 {
            return Err(CPUError::PopFromEmptyStack);
        }
        // The destination is checked before the stack is touched.
        match get_registry_from_address(raw_a) {
            None => Err(CPUError::OverflowAddress(raw_a)),
            Some(reg_num) => {
                if let Some(value) = self.memory.pop() {
                    let _ = self.write_register(reg_num, value);
                }
                Ok(ExecutionResult::Next(2))
            },
        }
    }

    // eq: 4 a b c - set <a> to 1 if <b> is equal to <c>; set it to 0 otherwise
    fn eq(&mut self, raw_a: u16, raw_b: u16, raw_c: u16) -> (r: Result<ExecutionResult, CPUError>)
        requires
            old(self).wf(),
        ensures
            final(self).wf(),
            outcome_holds(r, effect_spec(old(self)@, 4, raw_a, raw_b, raw_c), old(self)@, final(self)@),
    {
        let b = self.from_raw_to_u16(raw_b)?;
        let c = self.from_raw_to_u16(raw_c)?;
        self.write_destination(raw_a, if b == c { 1 } else { 0 })?;
        Ok(ExecutionResult::Next(4))
    }

    // gt: 5 a b c - set <a> to 1 if <b> is greater than <c>; set it to 0 otherwise
    fn gt(&mut self, raw_a: u16, raw_b: u16, raw_c: u16) -> (r: Result<ExecutionResult, CPUError>)
        requires
            old(self).wf(),
        ensures
            final(self).wf(),
            outcome_holds(r, effect_spec(old(self)@, 5, raw_a, raw_b, raw_c), old(self)@, final(self)@),
    {
        let b = self.from_raw_to_u16(raw_b)?;
        let c = self.from_raw_to_u16(raw_c)?;
        self.write_destination(raw_a, if b > c { 1 } else { 0 })?;
        Ok(ExecutionResult::Next(4))
    }

    // jmp: 6 a - jump to <a>
    fn jmp(&self, raw_a: u16) -> (r: Result<ExecutionResult, CPUError>)
        requires
            self.wf(),
        ensures
            outcome_holds(r, effect_spec(self@, 6, raw_a, 0, 0), self@, self@),
    {
        let a = self.from_raw_to_u16(raw_a)?;
        Ok(ExecutionResult::Jump(a))
    }

    // jt: 7 a b - if <a> is nonzero, jump to <b>
    fn jt(&self, raw_a: u16, raw_b: u16) -> (r: Result<ExecutionResult, CPUError>)
        requires
            self.wf(),
        ensures
            outcome_holds(r, effect_spec(self@, 7, raw_a, raw_b, 0), self@, self@),
    {
        let a = self.from_raw_to_u16(raw_a)?;
        let b = self.from_raw_to_u16(raw_b)?;
        Ok(
            if a != 0 {
                ExecutionResult::Jump(b)
            } else {
                ExecutionResult::Next(3)
            },
        )
    }

    // jf: 8 a b - if <a> is zero, jump to <b>
    fn jf(&self, raw_a: u16, raw_b: u16) -> (r: Result<ExecutionResult, CPUError>)
        requires
            self.wf(),
        ensures
            outcome_holds(r, effect_spec(self@, 8, raw_a, raw_b, 0), self@, self@),
    {
        let a = self.from_raw_to_u16(raw_a)?;
        let b = self.from_raw_to_u16(raw_b)?;
        Ok(
            if a == 0 {
                ExecutionResult::Jump(b)
            } else {
                ExecutionResult::Next(3)
            },
        )
    }

    // add: 9 a b c - assign into <a> the sum of <b> and <c> (modulo 32768)
    fn add(&mut self, raw_a: u16, raw_b: u16, raw_c: u16) -> (r: Result<ExecutionResult, CPUError>)
        requires
            old(self).wf(),
        ensures
            final(self).wf(),
            outcome_holds(r, effect_spec(old(self)@, 9, raw_a, raw_b, raw_c), old(self)@, final(self)@),
    {
        let b = self.from_raw_to_u16(raw_b)?;
        let c = self.from_raw_to_u16(raw_c)?;
        let sum = ((b as u32 + c as u32) % 0x8000) as u16;
        self.write_destination(raw_a, sum)?;
        Ok(ExecutionResult::Next(4))
    }

    // mult: 10 a b c - store into <a> the product of <b> and <c> (modulo 32768)
    fn mult(&mut self, raw_a: u16, raw_b: u16, raw_c: u16) -> (r: Result<ExecutionResult, CPUError>)
        requires
            old(self).wf(),
        ensures
            final(self).wf(),
            outcome_holds(r, effect_spec(old(self)@, 10, raw_a, raw_b, raw_c), old(self)@, final(self)@),
    {
        let b = self.from_raw_to_u16(raw_b)?;
        let c = self.from_raw_to_u16(raw_c)?;
        assert((b as u32) * (c as u32) <= 0xFFFF * 0xFFFF) by (nonlinear_arith)
            requires
                b <= 0xFFFF,
                c <= 0xFFFF,
        ;
        let product = ((b as u32 * c as u32) % 0x8000) as u16;
        self.write_destination(raw_a, product)?;
        Ok(ExecutionResult::Next(4))
    }

    // mod: 11 a b c - store into <a> the remainder of <b> divided by <c>; a zero <c> is an error
    fn modulo(&mut self, raw_a: u16, raw_b: u16, raw_c: u16) -> (r: Result<ExecutionResult, CPUError>)
        requires
            old(self).wf(),
        ensures
            final(self).wf(),
            outcome_holds(r, effect_spec(old(self)@, 11, raw_a, raw_b, raw_c), old(self)@, final(self)@),
    {
        let b = self.from_raw_to_u16(raw_b)?;
        let c = self.from_raw_to_u16(raw_c)?;
        if c == 0 {
            return Err(CPUError::DivisionByZero(self.current_address));
        }
        self.write_destination(raw_a, b % c)?;
        Ok(ExecutionResult::Next(4))
    }

    // and: 12 a b c - stores into <a> the bitwise and of <b> and <c>
    fn and(&mut self, raw_a: u16, raw_b: u16, raw_c: u16) -> (r: Result<ExecutionResult, CPUError>)
        requires
            old(self).wf(),
        ensures
            final(self).wf(),
            outcome_holds(r, effect_spec(old(self)@, 12, raw_a, raw_b, raw_c), old(self)@, final(self)@),
    {
        let b = self.from_raw_to_u16(raw_b)?;
        let c = self.from_raw_to_u16(raw_c)?;
        self.write_destination(raw_a, b & c)?;
        Ok(ExecutionResult::Next(4))
    }

    // or: 13 a b c - stores into <a> the bitwise or of <b> and <c>
    fn or(&mut self, raw_a: u16, raw_b: u16, raw_c: u16) -> (r: Result<ExecutionResult, CPUError>)
        requires
            old(self).wf(),
        ensures
            final(self).wf(),
            outcome_holds(r, effect_spec(old(self)@, 13, raw_a, raw_b, raw_c), old(self)@, final(self)@),
    {
        let b = self.from_raw_to_u16(raw_b)?;
        let c = self.from_raw_to_u16(raw_c)?;
        self.write_destination(raw_a, b | c)?;
        Ok(ExecutionResult::Next(4))
    }

    // not: 14 a b - stores 15-bit bitwise inverse of <b> in <a>
    fn not(&mut self, raw_a: u16, raw_b: u16) -> (r: Result<ExecutionResult, CPUError>)
        requires
            old(self).wf(),
        ensures
            final(self).wf(),
            outcome_holds(r, effect_spec(old(self)@, 14, raw_a, raw_b, 0), old(self)@, final(self)@),
    {
        let b = self.from_raw_to_u16(raw_b)?;
        self.write_destination(raw_a, !b & 0x7FFF)?;
        Ok(ExecutionResult::Next(3))
    }

    // rmem: 15 a b - read memory at address <b> and write it to <a>
    fn rmem(&mut self, raw_a: u16, raw_b: u16) -> (r: Result<ExecutionResult, CPUError>)
        requires
            old(self).wf(),
        ensures
            final(self).wf(),
            outcome_holds(r, effect_spec(old(self)@, 15, raw_a, raw_b, 0), old(self)@, final(self)@),
    {
        let b = self.from_raw_to_u16(raw_b)?;
        let value = self.get_value_from_address(b)?;
        self.write_destination(raw_a, value)?;
        Ok(ExecutionResult::Next(3))
    }

    // wmem: 16 a b - write the value from <b> into memory at address <a>
    fn wmem(&mut self, raw_a: u16, raw_b: u16) -> (r: Result<ExecutionResult, CPUError>)
        requires
            old(self).wf(),
        ensures
            final(self).wf(),
            outcome_holds(r, effect_spec(old(self)@, 16, raw_a, raw_b, 0), old(self)@, final(self)@),
    {
        let a = self.from_raw_to_u16(raw_a)?;
        let b = self.from_raw_to_u16(raw_b)?;
        self.set_value_in_address(a, b)?;
        Ok(ExecutionResult::Next(3))
    }

    // call: 17 a - write the address of the next instruction to the stack and jump to <a>
    fn call(&mut self, raw_a: u16) -> (r: Result<ExecutionResult, CPUError>)
        requires
            old(self).wf(),
            old(self)@.pc < 0x8008,
        ensures
            final(self).wf(),
            outcome_holds(r, effect_spec(old(self)@, 17, raw_a, 0, 0), old(self)@, final(self)@),
    {
        let a = self.from_raw_to_u16(raw_a)?;
        self.memory.push(self.current_address + 2);
        Ok(ExecutionResult::Jump(a))
    }

    // ret: 18 - remove the top element from the stack and jump to it; empty stack = halt
    fn ret(&mut self) -> (r: Result<ExecutionResult, CPUError>)
        requires
            old(self).wf(),
        ensures
            final(self).wf(),
            outcome_holds(r, effect_spec(old(self)@, 18, 0, 0, 0), old(self)@, final(self)@),
    {
        match self.memory.pop() {
            Some(a) => Ok(ExecutionResult::Jump(a)),
            None => Ok(ExecutionResult::Stop),
        }
    }

    // out: 19 a - write the byte <a> (modulo 256) to the output
    fn out(&mut self, raw_a: u16) -> (r: Result<ExecutionResult, CPUError>)
        requires
            old(self).wf(),
        ensures
            final(self).wf(),
            outcome_holds(r, effect_spec(old(self)@, 19, raw_a, 0, 0), old(self)@, final(self)@),
    {
        let a = self.from_raw_to_u16(raw_a)?;
        self.output.push((a % 256) as u8);
        Ok(ExecutionResult::Next(2))
    }

    // in: 20 a - read a byte of input into <a>; with no input left, halt
    fn read_input(&mut self, raw_a: u16) -> (r: Result<ExecutionResult, CPUError>)
        requires
            old(self).wf(),
        ensures
            final(self).wf(),
            outcome_holds(r, effect_spec(old(self)@, 20, raw_a, 0, 0), old(self)@, final(self)@),
    {
        match get_registry_from_address(raw_a) {
            None => Err(CPUError::OverflowAddress(raw_a)),
            Some(reg_num) => {
                if self.input.len() == 0 {
                    return Ok(ExecutionResult::Stop);
                }
                let byte = self.input.remove(0);
                let _ = self.write_register(reg_num, byte as u16);
                Ok(ExecutionResult::Next(2))
            },
        }
    }

    // noop: 21 - no operation
    fn noop(&self) -> (r: Result<ExecutionResult, CPUError>)
        ensures
            outcome_holds(r, effect_spec(self@, 21, 0, 0, 0), self@, self@),
    {
        Ok(ExecutionResult::Next(1))
    }
}

} // verus!
