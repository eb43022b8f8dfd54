//! The registers that a cooperative switch saves and restores.
use vstd::prelude::*;

verus! {

/// Registers in a saved context: the return address, the stack pointer and
/// the twelve callee-saved registers.
pub const CONTEXT_REGS: usize = 14;

/// What a saved context holds, part by part.
pub struct SavedRegisters {
    /// The address at which the task goes on.
    pub ra: usize,
    /// The top of the task's kernel stack.
    pub sp: usize,
    /// The callee-saved registers `s0` to `s11`.
    pub s: Seq<usize>,
}

/// The state that a switch must restore for a suspended task to go on: no
/// more than the return address, the stack pointer and the callee-saved
/// registers.
///
/// The registers lie in one array, in the order in which the switch
/// primitive stores them: the return address, the stack pointer, then `s0` to
/// `s11`.
#[derive(Clone, Copy)]
pub struct TaskContext {
    regs: [usize; CONTEXT_REGS],
}

impl TaskContext {
    /// The registers as the array in which they are stored.
    pub closed spec fn regs(&self) -> Seq<usize> {
        self.regs@
    }

    /// The registers, part by part.
    pub open spec fn view(&self) -> SavedRegisters {
        SavedRegisters {
            ra: self.regs()[0],
            sp: self.regs()[1],
            s: self.regs().subrange(2, 14),
        }
    }

    /// The registers of a task that has not run yet: it goes on at
    /// `trampoline`, on the stack whose top is `kernel_stack_ptr`, and its
    /// saved registers are zero.
    pub open spec fn restore_init_spec(kernel_stack_ptr: usize, trampoline: usize) -> SavedRegisters {
        SavedRegisters { ra: trampoline, sp: kernel_stack_ptr, s: Seq::new(12, |i: int| 0usize) }
    }

    /// The context of a task that has not run yet.  The first switch into it
    /// goes on at `trampoline`, the routine that loads the task's first
    /// state and enters it, on the kernel stack whose top is
    /// `kernel_stack_ptr`; the saved registers are zero.
    pub fn restore_init(kernel_stack_ptr: usize, trampoline: usize) -> (cx: Self)
        ensures
            cx@ == Self::restore_init_spec(kernel_stack_ptr, trampoline),
    {
        let mut regs = [0usize;14];
        regs[0] = trampoline;
        regs[1] = kernel_stack_ptr;
        let cx = Self { regs };
        assert(cx@.s =~= Seq::new(12, |i: int| 0usize));
        cx
    }

    /// The address at which the task goes on.
    pub fn ra(&self) -> (ra: usize)
        ensures
            ra == self@.ra,
    {
        self.regs[0]
    }

    /// The top of the task's kernel stack.
    pub fn sp(&self) -> (sp: usize)
        ensures
            sp == self@.sp,
    {
        self.regs[1]
    }

    /// The callee-saved register `s<index>`.
    pub fn s(&self, index: usize) -> (value: usize)
        requires
            index < 12,
        ensures
            value == self@.s[index as int],
    {
        self.regs[index + 2]
    }

    /// The stored registers, for the switch primitive to load.
    pub fn as_regs(&self) -> (regs: &[usize; 14])
        ensures
            regs@ == self.regs(),
    {
        &self.regs
    }

    /// The stored registers, for the switch primitive to save into.
    pub fn as_regs_mut(&mut self) -> (regs: &mut [usize; 14])
        ensures
            regs@ == old(self).regs(),
            final(self).regs() == final(regs)@,
    {
        &mut self.regs
    }
}

impl Default for TaskContext {
    /// The context whose registers are all zero.
    fn default() -> (cx: Self)
        ensures
            cx.regs() == Seq::new(14, |i: int| 0usize),
    {
        let cx = Self { regs: [0usize;14] };
        assert(cx.regs() =~= Seq::new(14, |i: int| 0usize));
        cx
    }
}

} // verus!
