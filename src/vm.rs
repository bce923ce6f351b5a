//! The driver: single steps, runs to a halt or to an address, and the
//! program image format.

use vstd::prelude::*;
use crate::cpu::{needs_input_spec, step_spec, CPUError, Machine, CPU};
use crate::mem::{loaded, zeros, Memory, MAX_ADDRESS, MAX_REGISTERS};

verus! {

pub struct VirtualMachine {
    pub cpu: CPU,
}

#[derive(Debug, PartialEq, Eq)]
pub enum VirtualMachineError {
    CannotLoadFile(String),
    GeneralError,
}

/// A processor outcome as the driver reports it: every processor error is a
/// `GeneralError`.
pub open spec fn vm_result(r: Result<bool, CPUError>) -> Result<bool, VirtualMachineError> {
    match r {
        Ok(halted) => Ok(halted),
        Err(_) => Err(VirtualMachineError::GeneralError),
    }
}

/// At most `fuel` steps from `m`, stopping at a halt or an error: the last
/// outcome (`Ok(false)` when the steps ran out) and the state reached.
pub open spec fn run_spec(m: Machine, fuel: nat) -> (Result<bool, CPUError>, Machine)
    decreases fuel,
{
    if fuel == 0 {
        (Ok(false), m)
    } else {
        match step_spec(m) {
            Err(e) => (Err(e), m),
            Ok((true, m2)) => (Ok(true), m2),
            Ok((false, m2)) => run_spec(m2, (fuel - 1) as nat),
        }
    }
}

/// As `run_spec`, also stopping after a step that lands on `target`.
pub open spec fn until_spec(m: Machine, target: u16, fuel: nat) -> (Result<bool, CPUError>, Machine)
    decreases fuel,
{
    if fuel == 0 {
        (Ok(false), m)
    } else {
        match step_spec(m) {
            Err(e) => (Err(e), m),
            Ok((true, m2)) => (Ok(true), m2),
            Ok((false, m2)) => if m2.pc == target {
                (Ok(false), m2)
            } else {
                until_spec(m2, target, (fuel - 1) as nat)
            },
        }
    }
}

/// Why `run_session` stopped.
#[derive(Debug, PartialEq, Eq)]
pub enum RunStop {
    /// The program halted.
    Halted,
    /// A step left the program counter at the target.
    AtTarget,
    /// The next instruction is `in` and no input is buffered; it has not run.
    NeedsInput,
    /// The allowed number of steps ran out.
    OutOfSteps,
}

/// At most `fuel` steps from `m`, stopping at a halt, an error, a step that
/// lands on `target`, or before an `in` that has no input.
pub open spec fn session_spec(m: Machine, target: Option<u16>, fuel: nat) -> (
    Result<RunStop, CPUError>,
    Machine,
)
    decreases fuel,
{
    if fuel == 0 {
        (Ok(RunStop::OutOfSteps), m)
    } else if needs_input_spec(m) {
        (Ok(RunStop::NeedsInput), m)
    } else {
        match step_spec(m) {
            Err(e) => (Err(e), m),
            Ok((true, m2)) => (Ok(RunStop::Halted), m2),
            Ok((false, m2)) => if target == Some(m2.pc) {
                (Ok(RunStop::AtTarget), m2)
            } else {
                session_spec(m2, target, (fuel - 1) as nat)
            },
        }
    }
}

/// Word `i` of a program image: bytes `2i` (low) and `2i + 1` (high, zero
/// past the end).
pub open spec fn word_at(bytes: Seq<u8>, i: int) -> u16 {
    (bytes[2 * i] + 256 * (if 2 * i + 1 < bytes.len() { bytes[2 * i + 1] as int } else { 0 })) as u16
}

/// The words of a little-endian program image.
pub open spec fn words_of(bytes: Seq<u8>) -> Seq<u16> {
    Seq::new((bytes.len() + 1) / 2, |i: int| word_at(bytes, i))
}

/// A program image loaded into memory: cell `i` holds byte `2i` as its low
/// half and byte `2i + 1` (zero past the end of an odd image) as its high half.
pub proof fn lemma_image_round_trip(cells: Seq<u16>, bytes: Seq<u8>, i: int)
    requires
        cells.len() == MAX_ADDRESS,
        words_of(bytes).len() <= MAX_ADDRESS,
        0 <= i < words_of(bytes).len(),
    ensures
        loaded(cells, words_of(bytes))[i] == (bytes[2 * i] as u16 | ((if 2 * i + 1 < bytes.len() {
            bytes[2 * i + 1]
        } else {
            0u8
        }) as u16) << 8u16),
{
    let lo = bytes[2 * i];
    let hi: u8 = if 2 * i + 1 < bytes.len() {
        bytes[2 * i + 1]
    } else {
        0u8
    };
    assert((lo as u16 | (hi as u16) << 8u16) == (lo as u16) + 256 * (hi as u16)) by (bit_vector);
}

impl View for VirtualMachine {
    type V = Machine;

    open spec fn view(&self) -> Machine {
        self.cpu@
    }
}

impl Default for VirtualMachine {
    /// Zeroed memory and registers, an empty stack, at address 0.
    fn default() -> (r: VirtualMachine)
        ensures
            r.wf(),
            r@ == (Machine {
                cells: zeros(MAX_ADDRESS as nat),
                registers: zeros(MAX_REGISTERS as nat),
                stack: Seq::empty(),
                pc: 0,
                input: Seq::empty(),
                output: Seq::empty(),
            }),
    {
        VirtualMachine { cpu: CPU::new(Memory::default()) }
    }
}

impl VirtualMachine {
    pub open spec fn wf(&self) -> bool {
        self.cpu.wf()
    }

    /// Loads the words that `fn_get_binary` returns at address 0; fails,
    /// changing nothing, when they do not fit in memory.
    pub fn load_binary<F>(&mut self, fn_get_binary: F) -> (r: Result<(), VirtualMachineError>) where
        F: FnOnce() -> Vec<u16>,
        requires
            old(self).wf(),
            fn_get_binary.requires(()),
        ensures
            final(self).wf(),
            exists|data: Vec<u16>|
                #[trigger] fn_get_binary.ensures((), data) && if data@.len() <= MAX_ADDRESS {
                    r == Ok::<(), VirtualMachineError>(()) && final(self)@ == (Machine {
                        cells: loaded(old(self)@.cells, data@),
                        ..old(self)@
                    })
                } else {
                    r == Err::<(), VirtualMachineError>(VirtualMachineError::GeneralError)
                        && final(self)@ == old(self)@
                },
    {
        let u16_binary = fn_get_binary();
        match self.cpu.load_data(u16_binary.as_slice()) {
            Ok(()) => Ok(()),
            Err(_) => Err(VirtualMachineError::GeneralError),
        }
    }

    /// One instruction.
    pub fn next_step(&mut self) -> (r: Result<bool, VirtualMachineError>)
        requires
            old(self).wf(),
        ensures
            final(self).wf(),
            match step_spec(old(self)@) {
                Ok((halted, m)) => r == Ok::<bool, VirtualMachineError>(halted) && final(self)@ == m,
                Err(_) => r == Err::<bool, VirtualMachineError>(VirtualMachineError::GeneralError)
                    && final(self)@ == old(self)@,
            },
    {
        match self.cpu.execute() {
            Ok(to_stop) => Ok(to_stop),
            Err(_) => Err(VirtualMachineError::GeneralError),
        }
    }

    /// Steps until a halt, an error, or `max_steps` steps.
    pub fn run_for(&mut self, max_steps: u64) -> (r: Result<bool, VirtualMachineError>)
        requires
            old(self).wf(),
        ensures
            final(self).wf(),
            r == vm_result(run_spec(old(self)@, max_steps as nat).0),
            final(self)@ == run_spec(old(self)@, max_steps as nat).1,
    {
        let mut steps: u64 = 0;
        while steps < max_steps
            invariant
                self.wf(),
                steps <= max_steps,
                run_spec(old(self)@, max_steps as nat) == run_spec(self@, (max_steps - steps) as nat),
            decreases max_steps - steps,
        {
            match self.cpu.execute() {
                Err(_) => return Err(VirtualMachineError::GeneralError),
                Ok(true) => return Ok(true),
                Ok(false) => {},
            }
            steps = steps + 1;
        }
        Ok(false)
    }

    /// Steps until a halt or an error (or `u64::MAX` steps).
    pub fn run(&mut self)
        requires
            old(self).wf(),
        ensures
            final(self).wf(),
            final(self)@ == run_spec(old(self)@, u64::MAX as nat).1,
    {
        let _ = self.run_for(u64::MAX);
    }

    /// Steps until a halt, an error, `max_steps` steps, or a step that leaves
    /// the program counter at `target`.
    pub fn run_until_for(&mut self, target: u16, max_steps: u64) -> (r: Result<
        bool,
        VirtualMachineError,
    >)
        requires
            old(self).wf(),
        ensures
            final(self).wf(),
            r == vm_result(until_spec(old(self)@, target, max_steps as nat).0),
            final(self)@ == until_spec(old(self)@, target, max_steps as nat).1,
    {
        let mut steps: u64 = 0;
        while steps < max_steps
            invariant
                self.wf(),
                steps <= max_steps,
                until_spec(old(self)@, target, max_steps as nat) == until_spec(
                    self@,
                    target,
                    (max_steps - steps) as nat,
                ),
            decreases max_steps - steps,
        {
            match self.cpu.execute() {
                Err(_) => return Err(VirtualMachineError::GeneralError),
                Ok(true) => return Ok(true),
                Ok(false) => {
                    if self.cpu.get_current_address() == target {
                        return Ok(false);
                    }
                },
            }
            steps = steps + 1;
        }
        Ok(false)
    }

    /// Steps until a halt, an error, or a step that leaves the program
    /// counter at `target` (or `u64::MAX` steps).
    pub fn run_until(&mut self, target: u16) -> (r: Result<bool, VirtualMachineError>)
        requires
            old(self).wf(),
        ensures
            final(self).wf(),
            r == vm_result(until_spec(old(self)@, target, u64::MAX as nat).0),
            final(self)@ == until_spec(old(self)@, target, u64::MAX as nat).1,
    {
        self.run_until_for(target, u64::MAX)
    }

    /// Steps as an interactive session does: until a halt, an error, a step
    /// that lands on `target`, `max_steps` steps, or an `in` instruction that
    /// waits for input. Errors are reported as the processor gave them.
    pub fn run_session(&mut self, target: Option<u16>, max_steps: u64) -> (r: Result<
        RunStop,
        CPUError,
    >)
        requires
            old(self).wf(),
        ensures
            final(self).wf(),
            r == session_spec(old(self)@, target, max_steps as nat).0,
            final(self)@ == session_spec(old(self)@, target, max_steps as nat).1,
    {
        let mut steps: u64 = 0;
        while steps < max_steps
            invariant
                self.wf(),
                steps <= max_steps,
                session_spec(old(self)@, target, max_steps as nat) == session_spec(
                    self@,
                    target,
                    (max_steps - steps) as nat,
                ),
            decreases max_steps - steps,
        {
            if self.cpu.needs_input() {
                return Ok(RunStop::NeedsInput);
            }
            if self.cpu.execute()? {
                return Ok(RunStop::Halted);
            }
            if target == Some(self.cpu.get_current_address()) {
                return Ok(RunStop::AtTarget);
            }
            steps = steps + 1;
        }
        Ok(RunStop::OutOfSteps)
    }

    pub fn get_current_address(&self) -> (r: u16)
        ensures
            r == self@.pc,
    {
        self.cpu.get_current_address()
    }
}

/// Assembles a little-endian byte stream into words; an odd last byte makes a
/// word whose high byte is zero.
pub fn binary_to_memory(binary: &[u8]) -> (r: Vec<u16>)
    ensures
        r@ == words_of(binary@),
{
    let n = binary.len();
    let mut words: Vec<u16> = Vec::new();
    let mut i: usize = 0;
    while i < n
        invariant
            n == binary@.len(),
            i <= n,
            words@.len() == (i + 1) / 2,
            i < n ==> i == 2 * words@.len(),
            forall|j: int| 0 <= j < words@.len() ==> words@[j] == word_at(binary@, j),
        decreases n - i,
    {
        let lo = binary[i];
        let hi: u8 = if i + 1 < n {
            binary[i + 1]
        } else {
            0
        };
        words.push(hi as u16 * 256 + lo as u16);
        i = if i + 1 < n {
            i + 2
        } else {
            n
        };
    }
    assert(words@ =~= words_of(binary@));
    words
}

} // verus!
