use vstd::prelude::*;

verus! {

/// Saved processor state of a suspended control flow: the address to resume
/// at, the kernel stack pointer and the callee-saved registers `s0..s11`.
///
/// Only the context-switch primitive reads or writes it; to the scheduler it
/// is an opaque payload stored in each task control block.
#[derive(Clone, Copy, Debug)]
pub struct TaskContext {
    pub ra: usize,
    pub sp: usize,
    pub s: [usize; 12],
}

impl TaskContext {
    /// The all-zero context, a placeholder that is never resumed into.
    pub fn zero_init() -> (r: TaskContext)
        ensures
            r.ra == 0,
            r.sp == 0,
            forall|k: int| 0 <= k < 12 ==> r.s[k] == 0,
    {
        let s: [usize; 12] = [0usize; 12];
        TaskContext { ra: 0, sp: 0, s }
    }

    /// The initial context of an application: resuming it enters the trap
    /// return trampoline at `restore_entry` on the kernel stack `kstack_ptr`,
    /// with every callee-saved register zero.
    pub fn goto_restore(restore_entry: usize, kstack_ptr: usize) -> (r: TaskContext)
        ensures
            r.ra == restore_entry,
            r.sp == kstack_ptr,
            forall|k: int| 0 <= k < 12 ==> r.s[k] == 0,
    {
        let s: [usize; 12] = [0usize; 12];
        TaskContext { ra: restore_entry, sp: kstack_ptr, s }
    }
}

} // verus!
