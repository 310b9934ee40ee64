//! The virtual machine: its stack, its tasks and the loop that runs them.

use std::collections::HashMap;

use vstd::prelude::*;

use crate::bump::{aligned, aligned_is_least};
use crate::check_intrinsics::power_of_two;
use crate::opcodes::OpCode;

verus! {

/// Where the stack stood when a frame began.
#[derive(Clone, Copy, Debug, PartialEq, Eq, Structural)]
pub struct StackFrame {
    pub offset: usize,
}

#[derive(Clone, Copy, Debug, PartialEq, Eq, Structural)]
pub enum Value {
    Int(i32),
    UInt(u32),
    Long(i64),
    ULong(u64),
    /// A number of double precision, by its bits.
    Double(u64),
    /// A number of single precision, by its bits.
    Float(u32),
    Function(u32),
}

/// What a task runs in.
#[derive(Clone, Copy, Debug, PartialEq, Eq, Structural)]
pub struct ExecutionContext {
    pub id: usize,
}

/// A function that is to be run.
#[derive(Clone, Copy, Debug, PartialEq, Eq, Structural)]
pub struct Task {
    pub execution_context: ExecutionContext,
    pub function_id: usize,
}

#[derive(Debug)]
pub struct CallFrame {
    pub return_address: usize,
    pub locals: Vec<Value>,
    pub task: Task,
}

/// Memory that is handed out from front to back and given back frame by frame.
#[derive(Debug)]
pub struct BumpStack {
    buffer: Vec<u8>,
    offset: usize,
    frames: Vec<StackFrame>,
    function_frames: Vec<CallFrame>,
}

impl BumpStack {
    /// The size of the memory.
    pub closed spec fn size(self) -> nat {
        self.buffer@.len()
    }

    /// How much of it is used.
    pub closed spec fn used(self) -> nat {
        self.offset as nat
    }

    /// The frames that have begun.
    pub closed spec fn open_frames(self) -> Seq<StackFrame> {
        self.frames@
    }

    /// The functions that are being run.
    pub closed spec fn calls(self) -> Seq<CallFrame> {
        self.function_frames@
    }

    pub open spec fn wf(self) -> bool {
        self.used() <= self.size() <= usize::MAX
    }

    pub fn new(size: usize) -> (stack: BumpStack)
        ensures
            stack.wf(),
            stack.size() == size,
            stack.used() == 0,
            stack.open_frames() == Seq::<StackFrame>::empty(),
            stack.calls() == Seq::<CallFrame>::empty(),
    {
        BumpStack {
            buffer: vec![0u8; size],
            offset: 0,
            frames: Vec::new(),
            function_frames: Vec::new(),
        }
    }

    pub fn push_frame(&mut self)
        ensures
            final(self).open_frames() == old(self).open_frames().push(
                StackFrame { offset: old(self).used() as usize },
            ),
            final(self).used() == old(self).used(),
            final(self).size() == old(self).size(),
            final(self).calls() == old(self).calls(),
    {
        self.frames.push(StackFrame { offset: self.offset });
    }

    /// Gives back what was handed out since the last frame began.
    pub fn pop_frame(&mut self)
        ensures
            final(self).size() == old(self).size(),
            final(self).calls() == old(self).calls(),
            if old(self).open_frames().len() > 0 {
                &&& final(self).open_frames() == old(self).open_frames().drop_last()
                &&& final(self).used() == old(self).open_frames().last().offset
            } else {
                &&& final(self).open_frames() == old(self).open_frames()
                &&& final(self).used() == old(self).used()
            },
    {
        if let Some(frame) = self.frames.pop() {
            self.offset = frame.offset;
        }
    }

    /// Hands out memory of a size at the next multiple of an alignment and tells where it starts, if
    /// there is enough left.
    pub fn allocate(&mut self, size: usize, align: usize) -> (start: Option<usize>)
        requires
            old(self).wf(),
            power_of_two(align as int),
        ensures
            final(self).wf(),
            final(self).size() == old(self).size(),
            final(self).open_frames() == old(self).open_frames(),
            final(self).calls() == old(self).calls(),
            ({
                let place = aligned(old(self).used() as int, align as int);
                if place + size > old(self).size() {
                    start is None && *final(self) == *old(self)
                } else {
                    start matches Some(at) && at == place && final(self).used() == place + size
                }
            }),
    {
        proof {
            aligned_is_least(self.offset as int, align as int);
        }
        let rest: usize = self.offset % align;
        let gap: usize = if rest == 0 {
            0
        } else {
            align - rest
        };
        let free: usize = self.buffer.len() - self.offset;
        if gap > free || size > free - gap {
            return None;
        }
        let start: usize = self.offset + gap;
        self.offset = start + size;
        Some(start)
    }

    pub fn reset(&mut self)
        ensures
            final(self).used() == 0,
            final(self).size() == old(self).size(),
            final(self).open_frames() == old(self).open_frames(),
            final(self).calls() == old(self).calls(),
    {
        self.offset = 0;
    }
}

/// What a stack looks like to a frame: how much is used, and which frames have begun.
pub open spec fn after_push(used: nat, frames: Seq<StackFrame>) -> (nat, Seq<StackFrame>) {
    (used, frames.push(StackFrame { offset: used as usize }))
}

pub open spec fn after_pop(used: nat, frames: Seq<StackFrame>) -> (nat, Seq<StackFrame>) {
    if frames.len() > 0 {
        (frames.last().offset as nat, frames.drop_last())
    } else {
        (used, frames)
    }
}

/// Ending a frame undoes its beginning, whatever was handed out in between.
pub proof fn popping_undoes_pushing(used: nat, frames: Seq<StackFrame>, later: nat)
    requires
        used <= usize::MAX,
    ensures
        after_pop(later, after_push(used, frames).1) == (used, frames),
{
    assert(after_push(used, frames).1.drop_last() == frames);
}

/// How often functions were called.
#[derive(Debug)]
pub struct Profiler {
    pub call_counts: Vec<u64>,
}

#[derive(Debug)]
pub struct VirtualMachine {
    pub stack: BumpStack,
    pub program_counter: usize,
    pub bytecode: Vec<OpCode>,
    pub variables: HashMap<String, i64>,
    pub profiler: Profiler,
}

impl VirtualMachine {
    pub fn new(bytecode: Vec<OpCode>) -> (machine: VirtualMachine)
        ensures
            machine.stack.wf(),
            machine.stack.size() == 1024,
            machine.stack.used() == 0,
            machine.stack.open_frames() == Seq::<StackFrame>::empty(),
            machine.stack.calls() == Seq::<CallFrame>::empty(),
            machine.program_counter == 1024,
            machine.bytecode == bytecode,
            machine.variables@ == Map::<String, i64>::empty(),
            machine.profiler.call_counts@ == Seq::<u64>::empty(),
    {
        VirtualMachine {
            stack: BumpStack::new(1024),
            program_counter: 1024,
            bytecode,
            variables: HashMap::new(),
            profiler: Profiler { call_counts: Vec::new() },
        }
    }
}

/// Tasks that wait for a machine.
#[derive(Debug)]
pub struct EventLoop {
    function_queue: Vec<Task>,
    virtual_machine: VirtualMachine,
}

impl EventLoop {
    /// The tasks that wait, in the order in which they came.
    pub closed spec fn waiting(self) -> Seq<Task> {
        self.function_queue@
    }

    pub closed spec fn machine(self) -> VirtualMachine {
        self.virtual_machine
    }

    pub fn new(virtual_machine: VirtualMachine) -> (event_loop: EventLoop)
        ensures
            event_loop.waiting() == Seq::<Task>::empty(),
            event_loop.machine() == virtual_machine,
    {
        EventLoop { function_queue: Vec::new(), virtual_machine }
    }

    pub fn schedule(&mut self, task: Task)
        ensures
            final(self).waiting() == old(self).waiting().push(task),
            final(self).machine() == old(self).machine(),
    {
        self.function_queue.push(task);
    }

    /// Takes out all tasks in the order in which they are run: what came last is run first.
    pub fn run(&mut self) -> (order: Vec<Task>)
        ensures
            final(self).waiting() == Seq::<Task>::empty(),
            final(self).machine() == old(self).machine(),
            order@ == old(self).waiting().reverse(),
    {
        let mut order: Vec<Task> = Vec::new();
        while self.function_queue.len() > 0
            invariant
                self.virtual_machine == old(self).virtual_machine,
                order@ + self.function_queue@.reverse() == old(self).function_queue@.reverse(),
            decreases self.function_queue.len(),
        {
            let ghost before = self.function_queue@;
            if let Some(task) = self.function_queue.pop() {
                proof {
                    assert(before.reverse() == seq![task] + self.function_queue@.reverse());
                    assert(order@.push(task) + self.function_queue@.reverse() == order@
                        + before.reverse());
                }
                order.push(task);
            }
        }
        assert(order@ + self.function_queue@.reverse() == order@);
        order
    }
}

} // verus!
