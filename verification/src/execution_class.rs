//! The severity taxonomy: a fixed, ordered table of execution classes, with
//! exact lookup by short description and derivation from sanitizer check
//! names, access direction and near-null information.

use vstd::prelude::*;

use crate::error::Error;
use crate::text::str_eq;

verus! {

/// Classified information about a program's execution.
#[derive(Debug, Clone)]
pub struct ExecutionClass {
    /// Severity tier.
    pub severity: String,
    /// Class name, the unique lookup key of the table.
    pub short_description: String,
    /// Short human-readable label.
    pub description: String,
    /// Long-form rationale.
    pub explanation: String,
}

/// The mathematical model of an execution class: its four text fields.
pub struct ClassSpec {
    pub severity: Seq<char>,
    pub short_description: Seq<char>,
    pub description: Seq<char>,
    pub explanation: Seq<char>,
}

impl View for ExecutionClass {
    type V = ClassSpec;

    open spec fn view(&self) -> ClassSpec {
        ClassSpec {
            severity: self.severity@,
            short_description: self.short_description@,
            description: self.description@,
            explanation: self.explanation@,
        }
    }
}

impl PartialEq for ExecutionClass {
    fn eq(&self, other: &Self) -> (r: bool) {
        self.severity == other.severity && self.short_description == other.short_description
            && self.description == other.description && self.explanation == other.explanation
    }
}

impl vstd::std_specs::cmp::PartialEqSpecImpl for ExecutionClass {
    open spec fn obeys_eq_spec() -> bool {
        true
    }

    open spec fn eq_spec(&self, other: &Self) -> bool {
        self@ == other@
    }
}

/// The model of one taxonomy record built from its four text fields.
pub open spec fn entry(severity: &str, short: &str, descr: &str, expl: &str) -> ClassSpec {
    ClassSpec {
        severity: severity@,
        short_description: short@,
        description: descr@,
        explanation: expl@,
    }
}

/// The taxonomy table: ordered, fixed, never mutated at runtime.
pub open spec fn table() -> Seq<ClassSpec> {
    seq![
        entry("EXPLOITABLE", "SegFaultOnPc", "Segmentation fault on program counter", "The target tried to access data at an address that matches the program counter. This likely indicates that the program counter contents are tainted and can be controlled by an attacker."),
        entry("EXPLOITABLE", "ReturnAv", "Access violation during return instruction", "The target crashed on a return instruction, which likely indicates stack corruption."),
        entry("EXPLOITABLE", "BranchAv", "Access violation during branch instruction", "The target crashed on a branch instruction, which may indicate that the control flow is tainted."),
        entry("EXPLOITABLE", "CallAv", "Access violation during call instruction", "The target crashed on a call instruction, which may indicate that the control flow is tainted."),
        entry("EXPLOITABLE", "DestAv", "Access violation on destination operand", "The target crashed on an access violation at an address matching the destination operand of the instruction. This likely indicates a write access violation, which means the attacker may control the write address and/or value."),
        entry("EXPLOITABLE", "BranchAvTainted", "Access violation during branch instruction from tainted source", "The target crashed on loading from memory (SourceAv). After taint tracking, target operand of branch instruction could be tainted."),
        entry("EXPLOITABLE", "CallAvTainted", "Access violation during call instruction from tainted source", "The target crashed on loading from memory (SourceAv). After taint tracking, target operand of call instruction could be tainted."),
        entry("EXPLOITABLE", "DestAvTainted", "Access violation on destination operand from tainted source", "The target crashed on loading from memory (SourceAv). After taint tracking, addres operand of memory store instruction could be tainted. This likely indicates a write access violation, which means the attacker may control the write address and/or value."),
        entry("NOT_EXPLOITABLE", "AbortSignal", "Abort signal", "The target is stopped on a SIGABRT. SIGABRTs are often generated by libc and compiled check-code to indicate potentially exploitable conditions."),
        entry("NOT_EXPLOITABLE", "TrapSignal", "Trap signal", "The target is stopped on a SIGTRAP. The SIGTRAP signal is sent to a process when an exception (or trap) occurs: a condition that a debugger has requested to be informed of – for example, when a particular function is executed, or when a particular variable changes value. "),
        entry("NOT_EXPLOITABLE", "AccessViolation", "Access violation", "The target crashed due to an access violation but there is not enough additional information available to determine exploitability. Manual analysis is needed."),
        entry("NOT_EXPLOITABLE", "SourceAv", "Access violation on source operand", "The target crashed on an access violation at an address matching the source operand of the current instruction. This likely indicates a read access violation."),
        entry("PROBABLY_EXPLOITABLE", "BadInstruction", "Bad instruction", "The target tried to execute a malformed or privileged instruction. This may indicate that the control flow is tainted."),
        entry("PROBABLY_EXPLOITABLE", "SegFaultOnPcNearNull", "Segmentation fault on program counter near NULL", "The target tried to access data at an address that matches the program counter. This may indicate that the program counter contents are tainted, however, it may also indicate a simple NULL dereference."),
        entry("PROBABLY_EXPLOITABLE", "BranchAvNearNull", "Access violation near NULL during branch instruction", "The target crashed on a branch instruction, which may indicate that the control flow is tainted. However, there is a chance it could be a NULL dereference."),
        entry("PROBABLY_EXPLOITABLE", "CallAvNearNull", "Access violation near NULL during call instruction", "The target crashed on a call instruction, which may indicate that the control flow is tainted. However, there is a chance it could be a NULL dereference."),
        entry("PROBABLY_EXPLOITABLE", "DestAvNearNull", "Access violation near NULL on destination operand", "The target crashed on an access violation at an address matching the destination operand of the instruction. This likely indicates a write access violation, which means the attacker may control write address and/or value. However, it there is a chance it could be a NULL dereference."),
        entry("NOT_EXPLOITABLE", "SourceAvNearNull", "Access violation near NULL on source operand", "The target crashed on an access violation at an address matching the source operand of the current instruction. This likely indicates a read access violation, which may mean the application crashed on a simple NULL dereference to data structure that has no immediate effect on control of the processor."),
        entry("PROBABLY_EXPLOITABLE", "StackGuard", "Stack buffer overflow", "The target program is aborted due to stack cookie overwrite."),
        entry("NOT_EXPLOITABLE", "SafeFunctionCheck", "Safe function check guard", "The target program is aborted due to safe function check guard: _chk()."),
        entry("PROBABLY_EXPLOITABLE", "HeapError", "Heap error", "The target program is aborted due to error produced by heap allocator functions."),
        entry("NOT_EXPLOITABLE", "FPE", "Arithmetic exception", "The target crashed due to arithmetic floating point exception."),
        entry("NOT_EXPLOITABLE", "StackOverflow", "Stack overflow", "The target crashed on an access violation where the faulting instruction's mnemonic and the stack pointer seem to indicate a stack overflow."),
        entry("UNDEFINED", "Undefined", "Undefined class", "There is no execution class for this type of exception."),
        entry("NOT_EXPLOITABLE", "double-free", "Deallocation of freed memory", "The target crashed while trying to deallocate already freed memory."),
        entry("NOT_EXPLOITABLE", "bad-free", "Invalid memory deallocation", "The target crashed on attempting free on address which was not malloc()-ed."),
        entry("NOT_EXPLOITABLE", "alloc-dealloc-mismatch", "Invalid use of alloc/dealloc functions", "Mismatch between allocation and deallocation APIs."),
        entry("NOT_EXPLOITABLE", "unknown-crash", "Sanitizer check fail", "Invalid memory access."),
        entry("NOT_EXPLOITABLE", "heap-buffer-overflow(read)", "Heap buffer overflow", "The target reads data past the end, or before the beginning, of the intended heap buffer."),
        entry("PROBABLY_EXPLOITABLE", "heap-buffer-overflow", "Heap buffer overflow", "The target attempts to read or write data past the end, or before the beginning, of the intended heap buffer."),
        entry("EXPLOITABLE", "heap-buffer-overflow(write)", "Heap buffer overflow", "The target writes data past the end, or before the beginning, of the intended heap buffer."),
        entry("NOT_EXPLOITABLE", "global-buffer-overflow(read)", "Global buffer overflow", "The target reads data past the end, or before the beginning, of the intended global buffer."),
        entry("PROBABLY_EXPLOITABLE", "global-buffer-overflow", "Global buffer overflow", "The target attempts to read or write data past the end, or before the beginning, of the intended global buffer."),
        entry("EXPLOITABLE", "global-buffer-overflow(write)", "Global buffer overflow", "The target writes data past the end, or before the beginning, of the intended global buffer."),
        entry("NOT_EXPLOITABLE", "stack-use-after-scope(read)", "Use of out-of-scope stack memory", "The target crashed when reading from a stack address outside the lexical scope of a variable's lifetime."),
        entry("PROBABLY_EXPLOITABLE", "stack-use-after-scope", "Use of out-of-scope stack memory", "The target crashed when using a stack address outside the lexical scope of a variable's lifetime."),
        entry("EXPLOITABLE", "stack-use-after-scope(write)", "Use of out-of-scope stack memory", "The target crashed when writing on a stack address outside the lexical scope of a variable's lifetime."),
        entry("PROBABLY_EXPLOITABLE", "use-after-poison", "Using poisoned memory", "The target crashed on trying to use the memory that was previously poisoned."),
        entry("NOT_EXPLOITABLE", "stack-use-after-return(read)", "Use of stack memory after return", "The target crashed when reading from a stack memory of a returned function."),
        entry("PROBABLY_EXPLOITABLE", "stack-use-after-return", "Use of stack memory after return", "The target crashed when using a stack memory of a returned function."),
        entry("EXPLOITABLE", "stack-use-after-return(write)", "Use of stack memory after return", "The target crashed when writing to a stack memory of a returned function."),
        entry("NOT_EXPLOITABLE", "stack-buffer-overflow(read)", "Stack buffer overflow", "The target reads data past the end, or before the beginning, of the intended stack buffer."),
        entry("PROBABLY_EXPLOITABLE", "stack-buffer-overflow", "Stack buffer overflow", "The target attempts to read or write data past the end, or before the beginning, of the intended stack buffer."),
        entry("EXPLOITABLE", "stack-buffer-overflow(write)", "Stack buffer overflow", "The target writes data past the end, or before the beginning, of the intended stack buffer."),
        entry("NOT_EXPLOITABLE", "initialization-order-fiasco", "Bad initialization order", "Initializer for a global variable accesses dynamically initialized global from another translation unit, which is not yet initialized."),
        entry("NOT_EXPLOITABLE", "stack-buffer-underflow(read)", "Stack buffer underflow", "The target reads from a buffer using buffer access mechanisms such as indexes or pointers that reference memory locations prior to the targeted buffer."),
        entry("PROBABLY_EXPLOITABLE", "stack-buffer-underflow", "Stack buffer underflow", "The target is using buffer with an index or pointer that references a memory location prior to the beginning of the buffer."),
        entry("EXPLOITABLE", "stack-buffer-underflow(write)", "Stack buffer underflow", "The target writes to a buffer using an index or pointer that references a memory location prior to the beginning of the buffer."),
        entry("NOT_EXPLOITABLE", "heap-use-after-free(read)", "Use of deallocated memory", "The target crashed when reading from memory after it has been freed."),
        entry("PROBABLY_EXPLOITABLE", "heap-use-after-free", "Use of deallocated memory", "The target crashed when using memory after it has been freed."),
        entry("EXPLOITABLE", "heap-use-after-free(write)", "Use of deallocated memory", "The target crashed when writing to memory after it has been freed."),
        entry("NOT_EXPLOITABLE", "container-overflow(read)", "Container overflow", "The target crashed when reading from memory inside the allocated heap region but outside of the current container bounds."),
        entry("PROBABLY_EXPLOITABLE", "container-overflow", "Container overflow", "The target crashed when using memory inside the allocated heap region but outside of the current container bounds."),
        entry("EXPLOITABLE", "container-overflow(write)", "Container overflow", "The target crashed when writing to memory inside the allocated heap region but outside of the current container bounds."),
        entry("NOT_EXPLOITABLE", "new-delete-type-mismatch", "Invalid use of new/delete functions", "Deallocation size different from allocation size."),
        entry("NOT_EXPLOITABLE", "bad-malloc_usable_size", "Bad function use", "Invalid argument to malloc_usable_size."),
        entry("EXPLOITABLE", "param-overlap", "Overlapping memory ranges", "Call to function disallowing overlapping memory ranges."),
        entry("PROBABLY_EXPLOITABLE", "negative-size-param", "Use of negative size", "Negative size used when accessing memory."),
        entry("NOT_EXPLOITABLE", "odr-violation", "Multiple symbol definition", "Symbol defined in multiple translation units."),
        entry("NOT_EXPLOITABLE", "memory-leaks", "Memory leaks", "The target does not sufficiently track and release allocated memory after it has been used, which slowly consumes remaining memory."),
        entry("PROBABLY_EXPLOITABLE", "calloc-overflow", "Calloc parameters overflow", "Overflow in calloc parameters."),
        entry("PROBABLY_EXPLOITABLE", "reallocarray-overflow", "Realloc parameters overflow", "Overflow in realloc parameters."),
        entry("PROBABLY_EXPLOITABLE", "pvalloc-overflow", "Pvalloc parameters overflow", "Overflow in pvalloc parameters."),
        entry("NOT_EXPLOITABLE", "invalid-allocation-alignment", "Invalid alignment", "Invalid allocation alignment."),
        entry("NOT_EXPLOITABLE", "invalid-aligned-alloc-alignment", "Invalid alignment", "Invalid alignment requested in aligned_alloc."),
        entry("NOT_EXPLOITABLE", "invalid-posix-memalign-alignment", "Invalid alignment", "Invalid alignment requested in posix_memalign."),
        entry("NOT_EXPLOITABLE", "allocation-size-too-big", "Allocation size too big", "Requested allocation size exceeds maximum supported size."),
        entry("NOT_EXPLOITABLE", "out-of-memory", "Memory limit exceeded", "The target has exceeded the memory limit."),
        entry("NOT_EXPLOITABLE", "fuzz target exited", "Fuzz target exited", "Fuzz target exited."),
        entry("NOT_EXPLOITABLE", "timeout", "Target timeout expired", "Timeout after several seconds."),
        entry("PROBABLY_EXPLOITABLE", "overwrites-const-input", "Attempt to overwrite constant input", "Fuzz target overwrites its constant input."),
    ]
}

/// The taxonomy table as execution-class records, in table order.
#[verifier::rlimit(100)]
pub fn classes() -> (v: Vec<ExecutionClass>)
    ensures
        v@.len() == table().len(),
        forall|i: int| 0 <= i < v@.len() ==> #[trigger] v@[i]@ == table()[i],
{
    let mut v: Vec<ExecutionClass> = Vec::new();
    v.push(ExecutionClass::new(("EXPLOITABLE", "SegFaultOnPc", "Segmentation fault on program counter", "The target tried to access data at an address that matches the program counter. This likely indicates that the program counter contents are tainted and can be controlled by an attacker.")));
    v.push(ExecutionClass::new(("EXPLOITABLE", "ReturnAv", "Access violation during return instruction", "The target crashed on a return instruction, which likely indicates stack corruption.")));
    v.push(ExecutionClass::new(("EXPLOITABLE", "BranchAv", "Access violation during branch instruction", "The target crashed on a branch instruction, which may indicate that the control flow is tainted.")));
    v.push(ExecutionClass::new(("EXPLOITABLE", "CallAv", "Access violation during call instruction", "The target crashed on a call instruction, which may indicate that the control flow is tainted.")));
    v.push(ExecutionClass::new(("EXPLOITABLE", "DestAv", "Access violation on destination operand", "The target crashed on an access violation at an address matching the destination operand of the instruction. This likely indicates a write access violation, which means the attacker may control the write address and/or value.")));
    v.push(ExecutionClass::new(("EXPLOITABLE", "BranchAvTainted", "Access violation during branch instruction from tainted source", "The target crashed on loading from memory (SourceAv). After taint tracking, target operand of branch instruction could be tainted.")));
    v.push(ExecutionClass::new(("EXPLOITABLE", "CallAvTainted", "Access violation during call instruction from tainted source", "The target crashed on loading from memory (SourceAv). After taint tracking, target operand of call instruction could be tainted.")));
    v.push(ExecutionClass::new(("EXPLOITABLE", "DestAvTainted", "Access violation on destination operand from tainted source", "The target crashed on loading from memory (SourceAv). After taint tracking, addres operand of memory store instruction could be tainted. This likely indicates a write access violation, which means the attacker may control the write address and/or value.")));
    v.push(ExecutionClass::new(("NOT_EXPLOITABLE", "AbortSignal", "Abort signal", "The target is stopped on a SIGABRT. SIGABRTs are often generated by libc and compiled check-code to indicate potentially exploitable conditions.")));
    v.push(ExecutionClass::new(("NOT_EXPLOITABLE", "TrapSignal", "Trap signal", "The target is stopped on a SIGTRAP. The SIGTRAP signal is sent to a process when an exception (or trap) occurs: a condition that a debugger has requested to be informed of – for example, when a particular function is executed, or when a particular variable changes value. ")));
    v.push(ExecutionClass::new(("NOT_EXPLOITABLE", "AccessViolation", "Access violation", "The target crashed due to an access violation but there is not enough additional information available to determine exploitability. Manual analysis is needed.")));
    v.push(ExecutionClass::new(("NOT_EXPLOITABLE", "SourceAv", "Access violation on source operand", "The target crashed on an access violation at an address matching the source operand of the current instruction. This likely indicates a read access violation.")));
    v.push(ExecutionClass::new(("PROBABLY_EXPLOITABLE", "BadInstruction", "Bad instruction", "The target tried to execute a malformed or privileged instruction. This may indicate that the control flow is tainted.")));
    v.push(ExecutionClass::new(("PROBABLY_EXPLOITABLE", "SegFaultOnPcNearNull", "Segmentation fault on program counter near NULL", "The target tried to access data at an address that matches the program counter. This may indicate that the program counter contents are tainted, however, it may also indicate a simple NULL dereference.")));
    v.push(ExecutionClass::new(("PROBABLY_EXPLOITABLE", "BranchAvNearNull", "Access violation near NULL during branch instruction", "The target crashed on a branch instruction, which may indicate that the control flow is tainted. However, there is a chance it could be a NULL dereference.")));
    v.push(ExecutionClass::new(("PROBABLY_EXPLOITABLE", "CallAvNearNull", "Access violation near NULL during call instruction", "The target crashed on a call instruction, which may indicate that the control flow is tainted. However, there is a chance it could be a NULL dereference.")));
    v.push(ExecutionClass::new(("PROBABLY_EXPLOITABLE", "DestAvNearNull", "Access violation near NULL on destination operand", "The target crashed on an access violation at an address matching the destination operand of the instruction. This likely indicates a write access violation, which means the attacker may control write address and/or value. However, it there is a chance it could be a NULL dereference.")));
    v.push(ExecutionClass::new(("NOT_EXPLOITABLE", "SourceAvNearNull", "Access violation near NULL on source operand", "The target crashed on an access violation at an address matching the source operand of the current instruction. This likely indicates a read access violation, which may mean the application crashed on a simple NULL dereference to data structure that has no immediate effect on control of the processor.")));
    v.push(ExecutionClass::new(("PROBABLY_EXPLOITABLE", "StackGuard", "Stack buffer overflow", "The target program is aborted due to stack cookie overwrite.")));
    v.push(ExecutionClass::new(("NOT_EXPLOITABLE", "SafeFunctionCheck", "Safe function check guard", "The target program is aborted due to safe function check guard: _chk().")));
    v.push(ExecutionClass::new(("PROBABLY_EXPLOITABLE", "HeapError", "Heap error", "The target program is aborted due to error produced by heap allocator functions.")));
    v.push(ExecutionClass::new(("NOT_EXPLOITABLE", "FPE", "Arithmetic exception", "The target crashed due to arithmetic floating point exception.")));
    v.push(ExecutionClass::new(("NOT_EXPLOITABLE", "StackOverflow", "Stack overflow", "The target crashed on an access violation where the faulting instruction's mnemonic and the stack pointer seem to indicate a stack overflow.")));
    v.push(ExecutionClass::new(("UNDEFINED", "Undefined", "Undefined class", "There is no execution class for this type of exception.")));
    v.push(ExecutionClass::new(("NOT_EXPLOITABLE", "double-free", "Deallocation of freed memory", "The target crashed while trying to deallocate already freed memory.")));
    v.push(ExecutionClass::new(("NOT_EXPLOITABLE", "bad-free", "Invalid memory deallocation", "The target crashed on attempting free on address which was not malloc()-ed.")));
    v.push(ExecutionClass::new(("NOT_EXPLOITABLE", "alloc-dealloc-mismatch", "Invalid use of alloc/dealloc functions", "Mismatch between allocation and deallocation APIs.")));
    v.push(ExecutionClass::new(("NOT_EXPLOITABLE", "unknown-crash", "Sanitizer check fail", "Invalid memory access.")));
    v.push(ExecutionClass::new(("NOT_EXPLOITABLE", "heap-buffer-overflow(read)", "Heap buffer overflow", "The target reads data past the end, or before the beginning, of the intended heap buffer.")));
    v.push(ExecutionClass::new(("PROBABLY_EXPLOITABLE", "heap-buffer-overflow", "Heap buffer overflow", "The target attempts to read or write data past the end, or before the beginning, of the intended heap buffer.")));
    v.push(ExecutionClass::new(("EXPLOITABLE", "heap-buffer-overflow(write)", "Heap buffer overflow", "The target writes data past the end, or before the beginning, of the intended heap buffer.")));
    v.push(ExecutionClass::new(("NOT_EXPLOITABLE", "global-buffer-overflow(read)", "Global buffer overflow", "The target reads data past the end, or before the beginning, of the intended global buffer.")));
    v.push(ExecutionClass::new(("PROBABLY_EXPLOITABLE", "global-buffer-overflow", "Global buffer overflow", "The target attempts to read or write data past the end, or before the beginning, of the intended global buffer.")));
    v.push(ExecutionClass::new(("EXPLOITABLE", "global-buffer-overflow(write)", "Global buffer overflow", "The target writes data past the end, or before the beginning, of the intended global buffer.")));
    v.push(ExecutionClass::new(("NOT_EXPLOITABLE", "stack-use-after-scope(read)", "Use of out-of-scope stack memory", "The target crashed when reading from a stack address outside the lexical scope of a variable's lifetime.")));
    v.push(ExecutionClass::new(("PROBABLY_EXPLOITABLE", "stack-use-after-scope", "Use of out-of-scope stack memory", "The target crashed when using a stack address outside the lexical scope of a variable's lifetime.")));
    v.push(ExecutionClass::new(("EXPLOITABLE", "stack-use-after-scope(write)", "Use of out-of-scope stack memory", "The target crashed when writing on a stack address outside the lexical scope of a variable's lifetime.")));
    v.push(ExecutionClass::new(("PROBABLY_EXPLOITABLE", "use-after-poison", "Using poisoned memory", "The target crashed on trying to use the memory that was previously poisoned.")));
    v.push(ExecutionClass::new(("NOT_EXPLOITABLE", "stack-use-after-return(read)", "Use of stack memory after return", "The target crashed when reading from a stack memory of a returned function.")));
    v.push(ExecutionClass::new(("PROBABLY_EXPLOITABLE", "stack-use-after-return", "Use of stack memory after return", "The target crashed when using a stack memory of a returned function.")));
    v.push(ExecutionClass::new(("EXPLOITABLE", "stack-use-after-return(write)", "Use of stack memory after return", "The target crashed when writing to a stack memory of a returned function.")));
    v.push(ExecutionClass::new(("NOT_EXPLOITABLE", "stack-buffer-overflow(read)", "Stack buffer overflow", "The target reads data past the end, or before the beginning, of the intended stack buffer.")));
    v.push(ExecutionClass::new(("PROBABLY_EXPLOITABLE", "stack-buffer-overflow", "Stack buffer overflow", "The target attempts to read or write data past the end, or before the beginning, of the intended stack buffer.")));
    v.push(ExecutionClass::new(("EXPLOITABLE", "stack-buffer-overflow(write)", "Stack buffer overflow", "The target writes data past the end, or before the beginning, of the intended stack buffer.")));
    v.push(ExecutionClass::new(("NOT_EXPLOITABLE", "initialization-order-fiasco", "Bad initialization order", "Initializer for a global variable accesses dynamically initialized global from another translation unit, which is not yet initialized.")));
    v.push(ExecutionClass::new(("NOT_EXPLOITABLE", "stack-buffer-underflow(read)", "Stack buffer underflow", "The target reads from a buffer using buffer access mechanisms such as indexes or pointers that reference memory locations prior to the targeted buffer.")));
    v.push(ExecutionClass::new(("PROBABLY_EXPLOITABLE", "stack-buffer-underflow", "Stack buffer underflow", "The target is using buffer with an index or pointer that references a memory location prior to the beginning of the buffer.")));
    v.push(ExecutionClass::new(("EXPLOITABLE", "stack-buffer-underflow(write)", "Stack buffer underflow", "The target writes to a buffer using an index or pointer that references a memory location prior to the beginning of the buffer.")));
    v.push(ExecutionClass::new(("NOT_EXPLOITABLE", "heap-use-after-free(read)", "Use of deallocated memory", "The target crashed when reading from memory after it has been freed.")));
    v.push(ExecutionClass::new(("PROBABLY_EXPLOITABLE", "heap-use-after-free", "Use of deallocated memory", "The target crashed when using memory after it has been freed.")));
    v.push(ExecutionClass::new(("EXPLOITABLE", "heap-use-after-free(write)", "Use of deallocated memory", "The target crashed when writing to memory after it has been freed.")));
    v.push(ExecutionClass::new(("NOT_EXPLOITABLE", "container-overflow(read)", "Container overflow", "The target crashed when reading from memory inside the allocated heap region but outside of the current container bounds.")));
    v.push(ExecutionClass::new(("PROBABLY_EXPLOITABLE", "container-overflow", "Container overflow", "The target crashed when using memory inside the allocated heap region but outside of the current container bounds.")));
    v.push(ExecutionClass::new(("EXPLOITABLE", "container-overflow(write)", "Container overflow", "The target crashed when writing to memory inside the allocated heap region but outside of the current container bounds.")));
    v.push(ExecutionClass::new(("NOT_EXPLOITABLE", "new-delete-type-mismatch", "Invalid use of new/delete functions", "Deallocation size different from allocation size.")));
    v.push(ExecutionClass::new(("NOT_EXPLOITABLE", "bad-malloc_usable_size", "Bad function use", "Invalid argument to malloc_usable_size.")));
    v.push(ExecutionClass::new(("EXPLOITABLE", "param-overlap", "Overlapping memory ranges", "Call to function disallowing overlapping memory ranges.")));
    v.push(ExecutionClass::new(("PROBABLY_EXPLOITABLE", "negative-size-param", "Use of negative size", "Negative size used when accessing memory.")));
    v.push(ExecutionClass::new(("NOT_EXPLOITABLE", "odr-violation", "Multiple symbol definition", "Symbol defined in multiple translation units.")));
    v.push(ExecutionClass::new(("NOT_EXPLOITABLE", "memory-leaks", "Memory leaks", "The target does not sufficiently track and release allocated memory after it has been used, which slowly consumes remaining memory.")));
    v.push(ExecutionClass::new(("PROBABLY_EXPLOITABLE", "calloc-overflow", "Calloc parameters overflow", "Overflow in calloc parameters.")));
    v.push(ExecutionClass::new(("PROBABLY_EXPLOITABLE", "reallocarray-overflow", "Realloc parameters overflow", "Overflow in realloc parameters.")));
    v.push(ExecutionClass::new(("PROBABLY_EXPLOITABLE", "pvalloc-overflow", "Pvalloc parameters overflow", "Overflow in pvalloc parameters.")));
    v.push(ExecutionClass::new(("NOT_EXPLOITABLE", "invalid-allocation-alignment", "Invalid alignment", "Invalid allocation alignment.")));
    v.push(ExecutionClass::new(("NOT_EXPLOITABLE", "invalid-aligned-alloc-alignment", "Invalid alignment", "Invalid alignment requested in aligned_alloc.")));
    v.push(ExecutionClass::new(("NOT_EXPLOITABLE", "invalid-posix-memalign-alignment", "Invalid alignment", "Invalid alignment requested in posix_memalign.")));
    v.push(ExecutionClass::new(("NOT_EXPLOITABLE", "allocation-size-too-big", "Allocation size too big", "Requested allocation size exceeds maximum supported size.")));
    v.push(ExecutionClass::new(("NOT_EXPLOITABLE", "out-of-memory", "Memory limit exceeded", "The target has exceeded the memory limit.")));
    v.push(ExecutionClass::new(("NOT_EXPLOITABLE", "fuzz target exited", "Fuzz target exited", "Fuzz target exited.")));
    v.push(ExecutionClass::new(("NOT_EXPLOITABLE", "timeout", "Target timeout expired", "Timeout after several seconds.")));
    v.push(ExecutionClass::new(("PROBABLY_EXPLOITABLE", "overwrites-const-input", "Attempt to overwrite constant input", "Fuzz target overwrites its constant input.")));
    v
}

/// The first record of `t` whose short description is `name`, if any.
pub open spec fn find_in(t: Seq<ClassSpec>, name: Seq<char>) -> Option<ClassSpec>
    decreases t.len(),
{
    if t.len() == 0 {
        None
    } else if t[0].short_description == name {
        Some(t[0])
    } else {
        find_in(t.drop_first(), name)
    }
}

/// The first taxonomy record named `name`, if any.
pub open spec fn find_spec(name: Seq<char>) -> Option<ClassSpec> {
    find_in(table(), name)
}

/// `find_in` returns a record exactly when one matches, and what it
/// returns is a matching record of the searched sequence.
pub proof fn lemma_find_in_some(t: Seq<ClassSpec>, name: Seq<char>)
    ensures
        find_in(t, name) is Some <==> exists|i: int|
            0 <= i < t.len() && #[trigger] t[i].short_description == name,
        find_in(t, name) matches Some(c) ==> c.short_description == name && t.contains(c),
    decreases t.len(),
{
    if t.len() != 0 && t[0].short_description == name {
        assert(t.contains(t[0]));
    }
    if t.len() != 0 && t[0].short_description != name {
        lemma_find_in_some(t.drop_first(), name);
        if find_in(t, name) is Some {
            let i = choose|i: int|
                0 <= i < t.drop_first().len() && #[trigger] t.drop_first()[
                    i
                ].short_description == name;
            assert(t[i + 1].short_description == name);
            let c = find_in(t, name)->Some_0;
            let j = choose|j: int| 0 <= j < t.drop_first().len() && t.drop_first()[j] == c;
            assert(t[j + 1] == c);
        }
        if exists|i: int| 0 <= i < t.len() && #[trigger] t[i].short_description == name {
            let i = choose|i: int|
                0 <= i < t.len() && #[trigger] t[i].short_description == name;
            assert(t.drop_first()[i - 1].short_description == name);
        }
    }
}

/// A short fingerprint of a class name: its length and three of its
/// characters, packed into one integer. Names of the table with
/// distinct fingerprints are distinct.
spec fn name_key(s: Seq<char>) -> int {
    if s.len() == 0 {
        0
    } else {
        let l = s.len() as int;
        let a = if l - 1 < 10 { l - 1 } else { 10 };
        let b = if l - 1 < 16 { l - 1 } else { 16 };
        l * 0x1000000 + (s[0] as int) * 0x10000 + (s[a] as int) * 0x100 + (s[b] as int)
    }
}

/// The fingerprint of the table entry at each index.
spec fn key_at(i: int) -> int {
    if i == 0 {
        206786659
    } else if i == 1 {
        139622006
    } else if i == 2 {
        138573430
    } else if i == 3 {
        105084534
    } else if i == 4 {
        105150070
    } else if i == 5 {
        256010596
    } else if i == 6 {
        222524516
    } else if i == 7 {
        222590052
    } else if i == 8 {
        188836972
    } else if i == 9 {
        173304940
    } else if i == 10 {
        255943022
    } else if i == 11 {
        139687542
    } else if i == 12 {
        239236206
    } else if i == 13 {
        341004366
    } else if i == 14 {
        272785772
    } else if i == 15 {
        239292012
    } else if i == 16 {
        239357548
    } else if i == 17 {
        273899884
    } else if i == 18 {
        173237348
    } else if i == 19 {
        290680683
    } else if i == 20 {
        155742834
    } else if i == 21 {
        54936901
    } else if i == 22 {
        223571063
    } else if i == 23 {
        156591204
    } else if i == 24 {
        191128933
    } else if i == 25 {
        140666213
    } else if i == 26 {
        375483507
    } else if i == 27 {
        225796456
    } else if i == 28 {
        443052646
    } else if i == 29 {
        342389350
    } else if i == 30 {
        459829862
    } else if i == 31 {
        476538469
    } else if i == 32 {
        375875173
    } else if i == 33 {
        493315685
    } else if i == 34 {
        460546419
    } else if i == 35 {
        359883123
    } else if i == 36 {
        477323635
    } else if i == 37 {
        276131950
    } else if i == 38 {
        477323634
    } else if i == 39 {
        376660338
    } else if i == 40 {
        494100850
    } else if i == 41 {
        460547442
    } else if i == 42 {
        359884146
    } else if i == 43 {
        477324658
    } else if i == 44 {
        459895922
    } else if i == 45 {
        477324645
    } else if i == 46 {
        376661349
    } else if i == 47 {
        494101861
    } else if i == 48 {
        426272370
    } else if i == 49 {
        325609074
    } else if i == 50 {
        443049586
    } else if i == 51 {
        409169775
    } else if i == 52 {
        308506479
    } else if i == 53 {
        425946991
    } else if i == 54 {
        409873773
    } else if i == 55 {
        375545701
    } else if i == 56 {
        225471600
    } else if i == 57 {
        326003058
    } else if i == 58 {
        225405294
    } else if i == 59 {
        208497523
    } else if i == 60 {
        258175607
    } else if i == 61 {
        359817586
    } else if i == 62 {
        275801463
    } else if i == 63 {
        476671087
    } else if i == 64 {
        527001953
    } else if i == 65 {
        543781741
    } else if i == 66 {
        392244596
    } else if i == 67 {
        225406841
    } else if i == 68 {
        308704357
    } else if i == 69 {
        125072500
    } else if i == 70 {
        376384813
    } else {
        0
    }
}

/// Entries 0 to 17 carry their expected fingerprints.
#[verifier::rlimit(100)]
proof fn lemma_table_keys_a()
    ensures
        forall|i: int| 0 <= i < 18 ==> #[trigger] name_key(
            table()[i].short_description,
        ) == key_at(i),
{
    reveal_strlit("SegFaultOnPc");
    reveal_strlit("ReturnAv");
    reveal_strlit("BranchAv");
    reveal_strlit("CallAv");
    reveal_strlit("DestAv");
    reveal_strlit("BranchAvTainted");
    reveal_strlit("CallAvTainted");
    reveal_strlit("DestAvTainted");
    reveal_strlit("AbortSignal");
    reveal_strlit("TrapSignal");
    reveal_strlit("AccessViolation");
    reveal_strlit("SourceAv");
    reveal_strlit("BadInstruction");
    reveal_strlit("SegFaultOnPcNearNull");
    reveal_strlit("BranchAvNearNull");
    reveal_strlit("CallAvNearNull");
    reveal_strlit("DestAvNearNull");
    reveal_strlit("SourceAvNearNull");
    assert forall|i: int| 0 <= i < 18 implies #[trigger] name_key(
        table()[i].short_description,
    ) == key_at(i) by {
        if i == 0 {
            assert(table()[0].short_description == "SegFaultOnPc"@);
            assert("SegFaultOnPc"@.len() == 12);
            assert("SegFaultOnPc"@[0] == 'S');
            assert("SegFaultOnPc"@[10] == 'P');
            assert("SegFaultOnPc"@[11] == 'c');
            assert(name_key("SegFaultOnPc"@) == 206786659);
        
        } else if i == 1 {
            assert(table()[1].short_description == "ReturnAv"@);
            assert("ReturnAv"@.len() == 8);
            assert("ReturnAv"@[0] == 'R');
            assert("ReturnAv"@[7] == 'v');
            assert("ReturnAv"@[7] == 'v');
            assert(name_key("ReturnAv"@) == 139622006);
        
        } else if i == 2 {
            assert(table()[2].short_description == "BranchAv"@);
            assert("BranchAv"@.len() == 8);
            assert("BranchAv"@[0] == 'B');
            assert("BranchAv"@[7] == 'v');
            assert("BranchAv"@[7] == 'v');
            assert(name_key("BranchAv"@) == 138573430);
        
        } else if i == 3 {
            assert(table()[3].short_description == "CallAv"@);
            assert("CallAv"@.len() == 6);
            assert("CallAv"@[0] == 'C');
            assert("CallAv"@[5] == 'v');
            assert("CallAv"@[5] == 'v');
            assert(name_key("CallAv"@) == 105084534);
        
        } else if i == 4 {
            assert(table()[4].short_description == "DestAv"@);
            assert("DestAv"@.len() == 6);
            assert("DestAv"@[0] == 'D');
            assert("DestAv"@[5] == 'v');
            assert("DestAv"@[5] == 'v');
            assert(name_key("DestAv"@) == 105150070);
        
        } else if i == 5 {
            assert(table()[5].short_description == "BranchAvTainted"@);
            assert("BranchAvTainted"@.len() == 15);
            assert("BranchAvTainted"@[0] == 'B');
            assert("BranchAvTainted"@[10] == 'i');
            assert("BranchAvTainted"@[14] == 'd');
            assert(name_key("BranchAvTainted"@) == 256010596);
        
        } else if i == 6 {
            assert(table()[6].short_description == "CallAvTainted"@);
            assert("CallAvTainted"@.len() == 13);
            assert("CallAvTainted"@[0] == 'C');
            assert("CallAvTainted"@[10] == 't');
            assert("CallAvTainted"@[12] == 'd');
            assert(name_key("CallAvTainted"@) == 222524516);
        
        } else if i == 7 {
            assert(table()[7].short_description == "DestAvTainted"@);
            assert("DestAvTainted"@.len() == 13);
            assert("DestAvTainted"@[0] == 'D');
            assert("DestAvTainted"@[10] == 't');
            assert("DestAvTainted"@[12] == 'd');
            assert(name_key("DestAvTainted"@) == 222590052);
        
        } else if i == 8 {
            assert(table()[8].short_description == "AbortSignal"@);
            assert("AbortSignal"@.len() == 11);
            assert("AbortSignal"@[0] == 'A');
            assert("AbortSignal"@[10] == 'l');
            assert("AbortSignal"@[10] == 'l');
            assert(name_key("AbortSignal"@) == 188836972);
        
        } else if i == 9 {
            assert(table()[9].short_description == "TrapSignal"@);
            assert("TrapSignal"@.len() == 10);
            assert("TrapSignal"@[0] == 'T');
            assert("TrapSignal"@[9] == 'l');
            assert("TrapSignal"@[9] == 'l');
            assert(name_key("TrapSignal"@) == 173304940);
        
        } else if i == 10 {
            assert(table()[10].short_description == "AccessViolation"@);
            assert("AccessViolation"@.len() == 15);
            assert("AccessViolation"@[0] == 'A');
            assert("AccessViolation"@[10] == 'a');
            assert("AccessViolation"@[14] == 'n');
            assert(name_key("AccessViolation"@) == 255943022);
        
        } else if i == 11 {
            assert(table()[11].short_description == "SourceAv"@);
            assert("SourceAv"@.len() == 8);
            assert("SourceAv"@[0] == 'S');
            assert("SourceAv"@[7] == 'v');
            assert("SourceAv"@[7] == 'v');
            assert(name_key("SourceAv"@) == 139687542);
        
        } else if i == 12 {
            assert(table()[12].short_description == "BadInstruction"@);
            assert("BadInstruction"@.len() == 14);
            assert("BadInstruction"@[0] == 'B');
            assert("BadInstruction"@[10] == 't');
            assert("BadInstruction"@[13] == 'n');
            assert(name_key("BadInstruction"@) == 239236206);
        
        } else if i == 13 {
            assert(table()[13].short_description == "SegFaultOnPcNearNull"@);
            assert("SegFaultOnPcNearNull"@.len() == 20);
            assert("SegFaultOnPcNearNull"@[0] == 'S');
            assert("SegFaultOnPcNearNull"@[10] == 'P');
            assert("SegFaultOnPcNearNull"@[16] == 'N');
            assert(name_key("SegFaultOnPcNearNull"@) == 341004366);
        
        } else if i == 14 {
            assert(table()[14].short_description == "BranchAvNearNull"@);
            assert("BranchAvNearNull"@.len() == 16);
            assert("BranchAvNearNull"@[0] == 'B');
            assert("BranchAvNearNull"@[10] == 'a');
            assert("BranchAvNearNull"@[15] == 'l');
            assert(name_key("BranchAvNearNull"@) == 272785772);
        
        } else if i == 15 {
            assert(table()[15].short_description == "CallAvNearNull"@);
            assert("CallAvNearNull"@.len() == 14);
            assert("CallAvNearNull"@[0] == 'C');
            assert("CallAvNearNull"@[10] == 'N');
            assert("CallAvNearNull"@[13] == 'l');
            assert(name_key("CallAvNearNull"@) == 239292012);
        
        } else if i == 16 {
            assert(table()[16].short_description == "DestAvNearNull"@);
            assert("DestAvNearNull"@.len() == 14);
            assert("DestAvNearNull"@[0] == 'D');
            assert("DestAvNearNull"@[10] == 'N');
            assert("DestAvNearNull"@[13] == 'l');
            assert(name_key("DestAvNearNull"@) == 239357548);
        
        } else if i == 17 {
            assert(table()[17].short_description == "SourceAvNearNull"@);
            assert("SourceAvNearNull"@.len() == 16);
            assert("SourceAvNearNull"@[0] == 'S');
            assert("SourceAvNearNull"@[10] == 'a');
            assert("SourceAvNearNull"@[15] == 'l');
            assert(name_key("SourceAvNearNull"@) == 273899884);
        }
    }
}

/// Entries 18 to 35 carry their expected fingerprints.
#[verifier::rlimit(100)]
proof fn lemma_table_keys_b()
    ensures
        forall|i: int| 18 <= i < 36 ==> #[trigger] name_key(
            table()[i].short_description,
        ) == key_at(i),
{
    reveal_strlit("StackGuard");
    reveal_strlit("SafeFunctionCheck");
    reveal_strlit("HeapError");
    reveal_strlit("FPE");
    reveal_strlit("StackOverflow");
    reveal_strlit("Undefined");
    reveal_strlit("double-free");
    reveal_strlit("bad-free");
    reveal_strlit("alloc-dealloc-mismatch");
    reveal_strlit("unknown-crash");
    reveal_strlit("heap-buffer-overflow(read)");
    reveal_strlit("heap-buffer-overflow");
    reveal_strlit("heap-buffer-overflow(write)");
    reveal_strlit("global-buffer-overflow(read)");
    reveal_strlit("global-buffer-overflow");
    reveal_strlit("global-buffer-overflow(write)");
    reveal_strlit("stack-use-after-scope(read)");
    reveal_strlit("stack-use-after-scope");
    assert forall|i: int| 18 <= i < 36 implies #[trigger] name_key(
        table()[i].short_description,
    ) == key_at(i) by {
        if i == 18 {
            assert(table()[18].short_description == "StackGuard"@);
            assert("StackGuard"@.len() == 10);
            assert("StackGuard"@[0] == 'S');
            assert("StackGuard"@[9] == 'd');
            assert("StackGuard"@[9] == 'd');
            assert(name_key("StackGuard"@) == 173237348);
        
        } else if i == 19 {
            assert(table()[19].short_description == "SafeFunctionCheck"@);
            assert("SafeFunctionCheck"@.len() == 17);
            assert("SafeFunctionCheck"@[0] == 'S');
            assert("SafeFunctionCheck"@[10] == 'o');
            assert("SafeFunctionCheck"@[16] == 'k');
            assert(name_key("SafeFunctionCheck"@) == 290680683);
        
        } else if i == 20 {
            assert(table()[20].short_description == "HeapError"@);
            assert("HeapError"@.len() == 9);
            assert("HeapError"@[0] == 'H');
            assert("HeapError"@[8] == 'r');
            assert("HeapError"@[8] == 'r');
            assert(name_key("HeapError"@) == 155742834);
        
        } else if i == 21 {
            assert(table()[21].short_description == "FPE"@);
            assert("FPE"@.len() == 3);
            assert("FPE"@[0] == 'F');
            assert("FPE"@[2] == 'E');
            assert("FPE"@[2] == 'E');
            assert(name_key("FPE"@) == 54936901);
        
        } else if i == 22 {
            assert(table()[22].short_description == "StackOverflow"@);
            assert("StackOverflow"@.len() == 13);
            assert("StackOverflow"@[0] == 'S');
            assert("StackOverflow"@[10] == 'l');
            assert("StackOverflow"@[12] == 'w');
            assert(name_key("StackOverflow"@) == 223571063);
        
        } else if i == 23 {
            assert(table()[23].short_description == "Undefined"@);
            assert("Undefined"@.len() == 9);
            assert("Undefined"@[0] == 'U');
            assert("Undefined"@[8] == 'd');
            assert("Undefined"@[8] == 'd');
            assert(name_key("Undefined"@) == 156591204);
        
        } else if i == 24 {
            assert(table()[24].short_description == "double-free"@);
            assert("double-free"@.len() == 11);
            assert("double-free"@[0] == 'd');
            assert("double-free"@[10] == 'e');
            assert("double-free"@[10] == 'e');
            assert(name_key("double-free"@) == 191128933);
        
        } else if i == 25 {
            assert(table()[25].short_description == "bad-free"@);
            assert("bad-free"@.len() == 8);
            assert("bad-free"@[0] == 'b');
            assert("bad-free"@[7] == 'e');
            assert("bad-free"@[7] == 'e');
            assert(name_key("bad-free"@) == 140666213);
        
        } else if i == 26 {
            assert(table()[26].short_description == "alloc-dealloc-mismatch"@);
            assert("alloc-dealloc-mismatch"@.len() == 22);
            assert("alloc-dealloc-mismatch"@[0] == 'a');
            assert("alloc-dealloc-mismatch"@[10] == 'l');
            assert("alloc-dealloc-mismatch"@[16] == 's');
            assert(name_key("alloc-dealloc-mismatch"@) == 375483507);
        
        } else if i == 27 {
            assert(table()[27].short_description == "unknown-crash"@);
            assert("unknown-crash"@.len() == 13);
            assert("unknown-crash"@[0] == 'u');
            assert("unknown-crash"@[10] == 'a');
            assert("unknown-crash"@[12] == 'h');
            assert(name_key("unknown-crash"@) == 225796456);
        
        } else if i == 28 {
            assert(table()[28].short_description == "heap-buffer-overflow(read)"@);
            assert("heap-buffer-overflow(read)"@.len() == 26);
            assert("heap-buffer-overflow(read)"@[0] == 'h');
            assert("heap-buffer-overflow(read)"@[10] == 'r');
            assert("heap-buffer-overflow(read)"@[16] == 'f');
            assert(name_key("heap-buffer-overflow(read)"@) == 443052646);
        
        } else if i == 29 {
            assert(table()[29].short_description == "heap-buffer-overflow"@);
            assert("heap-buffer-overflow"@.len() == 20);
            assert("heap-buffer-overflow"@[0] == 'h');
            assert("heap-buffer-overflow"@[10] == 'r');
            assert("heap-buffer-overflow"@[16] == 'f');
            assert(name_key("heap-buffer-overflow"@) == 342389350);
        
        } else if i == 30 {
            assert(table()[30].short_description == "heap-buffer-overflow(write)"@);
            assert("heap-buffer-overflow(write)"@.len() == 27);
            assert("heap-buffer-overflow(write)"@[0] == 'h');
            assert("heap-buffer-overflow(write)"@[10] == 'r');
            assert("heap-buffer-overflow(write)"@[16] == 'f');
            assert(name_key("heap-buffer-overflow(write)"@) == 459829862);
        
        } else if i == 31 {
            assert(table()[31].short_description == "global-buffer-overflow(read)"@);
            assert("global-buffer-overflow(read)"@.len() == 28);
            assert("global-buffer-overflow(read)"@[0] == 'g');
            assert("global-buffer-overflow(read)"@[10] == 'f');
            assert("global-buffer-overflow(read)"@[16] == 'e');
            assert(name_key("global-buffer-overflow(read)"@) == 476538469);
        
        } else if i == 32 {
            assert(table()[32].short_description == "global-buffer-overflow"@);
            assert("global-buffer-overflow"@.len() == 22);
            assert("global-buffer-overflow"@[0] == 'g');
            assert("global-buffer-overflow"@[10] == 'f');
            assert("global-buffer-overflow"@[16] == 'e');
            assert(name_key("global-buffer-overflow"@) == 375875173);
        
        } else if i == 33 {
            assert(table()[33].short_description == "global-buffer-overflow(write)"@);
            assert("global-buffer-overflow(write)"@.len() == 29);
            assert("global-buffer-overflow(write)"@[0] == 'g');
            assert("global-buffer-overflow(write)"@[10] == 'f');
            assert("global-buffer-overflow(write)"@[16] == 'e');
            assert(name_key("global-buffer-overflow(write)"@) == 493315685);
        
        } else if i == 34 {
            assert(table()[34].short_description == "stack-use-after-scope(read)"@);
            assert("stack-use-after-scope(read)"@.len() == 27);
            assert("stack-use-after-scope(read)"@[0] == 's');
            assert("stack-use-after-scope(read)"@[10] == 'a');
            assert("stack-use-after-scope(read)"@[16] == 's');
            assert(name_key("stack-use-after-scope(read)"@) == 460546419);
        
        } else if i == 35 {
            assert(table()[35].short_description == "stack-use-after-scope"@);
            assert("stack-use-after-scope"@.len() == 21);
            assert("stack-use-after-scope"@[0] == 's');
            assert("stack-use-after-scope"@[10] == 'a');
            assert("stack-use-after-scope"@[16] == 's');
            assert(name_key("stack-use-after-scope"@) == 359883123);
        }
    }
}

/// Entries 36 to 53 carry their expected fingerprints.
#[verifier::rlimit(100)]
proof fn lemma_table_keys_c()
    ensures
        forall|i: int| 36 <= i < 54 ==> #[trigger] name_key(
            table()[i].short_description,
        ) == key_at(i),
{
    reveal_strlit("stack-use-after-scope(write)");
    reveal_strlit("use-after-poison");
    reveal_strlit("stack-use-after-return(read)");
    reveal_strlit("stack-use-after-return");
    reveal_strlit("stack-use-after-return(write)");
    reveal_strlit("stack-buffer-overflow(read)");
    reveal_strlit("stack-buffer-overflow");
    reveal_strlit("stack-buffer-overflow(write)");
    reveal_strlit("initialization-order-fiasco");
    reveal_strlit("stack-buffer-underflow(read)");
    reveal_strlit("stack-buffer-underflow");
    reveal_strlit("stack-buffer-underflow(write)");
    reveal_strlit("heap-use-after-free(read)");
    reveal_strlit("heap-use-after-free");
    reveal_strlit("heap-use-after-free(write)");
    reveal_strlit("container-overflow(read)");
    reveal_strlit("container-overflow");
    reveal_strlit("container-overflow(write)");
    assert forall|i: int| 36 <= i < 54 implies #[trigger] name_key(
        table()[i].short_description,
    ) == key_at(i) by {
        if i == 36 {
            assert(table()[36].short_description == "stack-use-after-scope(write)"@);
            assert("stack-use-after-scope(write)"@.len() == 28);
            assert("stack-use-after-scope(write)"@[0] == 's');
            assert("stack-use-after-scope(write)"@[10] == 'a');
            assert("stack-use-after-scope(write)"@[16] == 's');
            assert(name_key("stack-use-after-scope(write)"@) == 477323635);
        
        } else if i == 37 {
            assert(table()[37].short_description == "use-after-poison"@);
            assert("use-after-poison"@.len() == 16);
            assert("use-after-poison"@[0] == 'u');
            assert("use-after-poison"@[10] == 'p');
            assert("use-after-poison"@[15] == 'n');
            assert(name_key("use-after-poison"@) == 276131950);
        
        } else if i == 38 {
            assert(table()[38].short_description == "stack-use-after-return(read)"@);
            assert("stack-use-after-return(read)"@.len() == 28);
            assert("stack-use-after-return(read)"@[0] == 's');
            assert("stack-use-after-return(read)"@[10] == 'a');
            assert("stack-use-after-return(read)"@[16] == 'r');
            assert(name_key("stack-use-after-return(read)"@) == 477323634);
        
        } else if i == 39 {
            assert(table()[39].short_description == "stack-use-after-return"@);
            assert("stack-use-after-return"@.len() == 22);
            assert("stack-use-after-return"@[0] == 's');
            assert("stack-use-after-return"@[10] == 'a');
            assert("stack-use-after-return"@[16] == 'r');
            assert(name_key("stack-use-after-return"@) == 376660338);
        
        } else if i == 40 {
            assert(table()[40].short_description == "stack-use-after-return(write)"@);
            assert("stack-use-after-return(write)"@.len() == 29);
            assert("stack-use-after-return(write)"@[0] == 's');
            assert("stack-use-after-return(write)"@[10] == 'a');
            assert("stack-use-after-return(write)"@[16] == 'r');
            assert(name_key("stack-use-after-return(write)"@) == 494100850);
        
        } else if i == 41 {
            assert(table()[41].short_description == "stack-buffer-overflow(read)"@);
            assert("stack-buffer-overflow(read)"@.len() == 27);
            assert("stack-buffer-overflow(read)"@[0] == 's');
            assert("stack-buffer-overflow(read)"@[10] == 'e');
            assert("stack-buffer-overflow(read)"@[16] == 'r');
            assert(name_key("stack-buffer-overflow(read)"@) == 460547442);
        
        } else if i == 42 {
            assert(table()[42].short_description == "stack-buffer-overflow"@);
            assert("stack-buffer-overflow"@.len() == 21);
            assert("stack-buffer-overflow"@[0] == 's');
            assert("stack-buffer-overflow"@[10] == 'e');
            assert("stack-buffer-overflow"@[16] == 'r');
            assert(name_key("stack-buffer-overflow"@) == 359884146);
        
        } else if i == 43 {
            assert(table()[43].short_description == "stack-buffer-overflow(write)"@);
            assert("stack-buffer-overflow(write)"@.len() == 28);
            assert("stack-buffer-overflow(write)"@[0] == 's');
            assert("stack-buffer-overflow(write)"@[10] == 'e');
            assert("stack-buffer-overflow(write)"@[16] == 'r');
            assert(name_key("stack-buffer-overflow(write)"@) == 477324658);
        
        } else if i == 44 {
            assert(table()[44].short_description == "initialization-order-fiasco"@);
            assert("initialization-order-fiasco"@.len() == 27);
            assert("initialization-order-fiasco"@[0] == 'i');
            assert("initialization-order-fiasco"@[10] == 't');
            assert("initialization-order-fiasco"@[16] == 'r');
            assert(name_key("initialization-order-fiasco"@) == 459895922);
        
        } else if i == 45 {
            assert(table()[45].short_description == "stack-buffer-underflow(read)"@);
            assert("stack-buffer-underflow(read)"@.len() == 28);
            assert("stack-buffer-underflow(read)"@[0] == 's');
            assert("stack-buffer-underflow(read)"@[10] == 'e');
            assert("stack-buffer-underflow(read)"@[16] == 'e');
            assert(name_key("stack-buffer-underflow(read)"@) == 477324645);
        
        } else if i == 46 {
            assert(table()[46].short_description == "stack-buffer-underflow"@);
            assert("stack-buffer-underflow"@.len() == 22);
            assert("stack-buffer-underflow"@[0] == 's');
            assert("stack-buffer-underflow"@[10] == 'e');
            assert("stack-buffer-underflow"@[16] == 'e');
            assert(name_key("stack-buffer-underflow"@) == 376661349);
        
        } else if i == 47 {
            assert(table()[47].short_description == "stack-buffer-underflow(write)"@);
            assert("stack-buffer-underflow(write)"@.len() == 29);
            assert("stack-buffer-underflow(write)"@[0] == 's');
            assert("stack-buffer-underflow(write)"@[10] == 'e');
            assert("stack-buffer-underflow(write)"@[16] == 'e');
            assert(name_key("stack-buffer-underflow(write)"@) == 494101861);
        
        } else if i == 48 {
            assert(table()[48].short_description == "heap-use-after-free(read)"@);
            assert("heap-use-after-free(read)"@.len() == 25);
            assert("heap-use-after-free(read)"@[0] == 'h');
            assert("heap-use-after-free(read)"@[10] == 'f');
            assert("heap-use-after-free(read)"@[16] == 'r');
            assert(name_key("heap-use-after-free(read)"@) == 426272370);
        
        } else if i == 49 {
            assert(table()[49].short_description == "heap-use-after-free"@);
            assert("heap-use-after-free"@.len() == 19);
            assert("heap-use-after-free"@[0] == 'h');
            assert("heap-use-after-free"@[10] == 'f');
            assert("heap-use-after-free"@[16] == 'r');
            assert(name_key("heap-use-after-free"@) == 325609074);
        
        } else if i == 50 {
            assert(table()[50].short_description == "heap-use-after-free(write)"@);
            assert("heap-use-after-free(write)"@.len() == 26);
            assert("heap-use-after-free(write)"@[0] == 'h');
            assert("heap-use-after-free(write)"@[10] == 'f');
            assert("heap-use-after-free(write)"@[16] == 'r');
            assert(name_key("heap-use-after-free(write)"@) == 443049586);
        
        } else if i == 51 {
            assert(table()[51].short_description == "container-overflow(read)"@);
            assert("container-overflow(read)"@.len() == 24);
            assert("container-overflow(read)"@[0] == 'c');
            assert("container-overflow(read)"@[10] == 'o');
            assert("container-overflow(read)"@[16] == 'o');
            assert(name_key("container-overflow(read)"@) == 409169775);
        
        } else if i == 52 {
            assert(table()[52].short_description == "container-overflow"@);
            assert("container-overflow"@.len() == 18);
            assert("container-overflow"@[0] == 'c');
            assert("container-overflow"@[10] == 'o');
            assert("container-overflow"@[16] == 'o');
            assert(name_key("container-overflow"@) == 308506479);
        
        } else if i == 53 {
            assert(table()[53].short_description == "container-overflow(write)"@);
            assert("container-overflow(write)"@.len() == 25);
            assert("container-overflow(write)"@[0] == 'c');
            assert("container-overflow(write)"@[10] == 'o');
            assert("container-overflow(write)"@[16] == 'o');
            assert(name_key("container-overflow(write)"@) == 425946991);
        }
    }
}

/// Entries 54 to 70 carry their expected fingerprints.
#[verifier::rlimit(100)]
proof fn lemma_table_keys_d()
    ensures
        forall|i: int| 54 <= i < 71 ==> #[trigger] name_key(
            table()[i].short_description,
        ) == key_at(i),
{
    reveal_strlit("new-delete-type-mismatch");
    reveal_strlit("bad-malloc_usable_size");
    reveal_strlit("param-overlap");
    reveal_strlit("negative-size-param");
    reveal_strlit("odr-violation");
    reveal_strlit("memory-leaks");
    reveal_strlit("calloc-overflow");
    reveal_strlit("reallocarray-overflow");
    reveal_strlit("pvalloc-overflow");
    reveal_strlit("invalid-allocation-alignment");
    reveal_strlit("invalid-aligned-alloc-alignment");
    reveal_strlit("invalid-posix-memalign-alignment");
    reveal_strlit("allocation-size-too-big");
    reveal_strlit("out-of-memory");
    reveal_strlit("fuzz target exited");
    reveal_strlit("timeout");
    reveal_strlit("overwrites-const-input");
    assert forall|i: int| 54 <= i < 71 implies #[trigger] name_key(
        table()[i].short_description,
    ) == key_at(i) by {
        if i == 54 {
            assert(table()[54].short_description == "new-delete-type-mismatch"@);
            assert("new-delete-type-mismatch"@.len() == 24);
            assert("new-delete-type-mismatch"@[0] == 'n');
            assert("new-delete-type-mismatch"@[10] == '-');
            assert("new-delete-type-mismatch"@[16] == 'm');
            assert(name_key("new-delete-type-mismatch"@) == 409873773);
        
        } else if i == 55 {
            assert(table()[55].short_description == "bad-malloc_usable_size"@);
            assert("bad-malloc_usable_size"@.len() == 22);
            assert("bad-malloc_usable_size"@[0] == 'b');
            assert("bad-malloc_usable_size"@[10] == '_');
            assert("bad-malloc_usable_size"@[16] == 'e');
            assert(name_key("bad-malloc_usable_size"@) == 375545701);
        
        } else if i == 56 {
            assert(table()[56].short_description == "param-overlap"@);
            assert("param-overlap"@.len() == 13);
            assert("param-overlap"@[0] == 'p');
            assert("param-overlap"@[10] == 'l');
            assert("param-overlap"@[12] == 'p');
            assert(name_key("param-overlap"@) == 225471600);
        
        } else if i == 57 {
            assert(table()[57].short_description == "negative-size-param"@);
            assert("negative-size-param"@.len() == 19);
            assert("negative-size-param"@[0] == 'n');
            assert("negative-size-param"@[10] == 'i');
            assert("negative-size-param"@[16] == 'r');
            assert(name_key("negative-size-param"@) == 326003058);
        
        } else if i == 58 {
            assert(table()[58].short_description == "odr-violation"@);
            assert("odr-violation"@.len() == 13);
            assert("odr-violation"@[0] == 'o');
            assert("odr-violation"@[10] == 'i');
            assert("odr-violation"@[12] == 'n');
            assert(name_key("odr-violation"@) == 225405294);
        
        } else if i == 59 {
            assert(table()[59].short_description == "memory-leaks"@);
            assert("memory-leaks"@.len() == 12);
            assert("memory-leaks"@[0] == 'm');
            assert("memory-leaks"@[10] == 'k');
            assert("memory-leaks"@[11] == 's');
            assert(name_key("memory-leaks"@) == 208497523);
        
        } else if i == 60 {
            assert(table()[60].short_description == "calloc-overflow"@);
            assert("calloc-overflow"@.len() == 15);
            assert("calloc-overflow"@[0] == 'c');
            assert("calloc-overflow"@[10] == 'r');
            assert("calloc-overflow"@[14] == 'w');
            assert(name_key("calloc-overflow"@) == 258175607);
        
        } else if i == 61 {
            assert(table()[61].short_description == "reallocarray-overflow"@);
            assert("reallocarray-overflow"@.len() == 21);
            assert("reallocarray-overflow"@[0] == 'r');
            assert("reallocarray-overflow"@[10] == 'a');
            assert("reallocarray-overflow"@[16] == 'r');
            assert(name_key("reallocarray-overflow"@) == 359817586);
        
        } else if i == 62 {
            assert(table()[62].short_description == "pvalloc-overflow"@);
            assert("pvalloc-overflow"@.len() == 16);
            assert("pvalloc-overflow"@[0] == 'p');
            assert("pvalloc-overflow"@[10] == 'e');
            assert("pvalloc-overflow"@[15] == 'w');
            assert(name_key("pvalloc-overflow"@) == 275801463);
        
        } else if i == 63 {
            assert(table()[63].short_description == "invalid-allocation-alignment"@);
            assert("invalid-allocation-alignment"@.len() == 28);
            assert("invalid-allocation-alignment"@[0] == 'i');
            assert("invalid-allocation-alignment"@[10] == 'l');
            assert("invalid-allocation-alignment"@[16] == 'o');
            assert(name_key("invalid-allocation-alignment"@) == 476671087);
        
        } else if i == 64 {
            assert(table()[64].short_description == "invalid-aligned-alloc-alignment"@);
            assert("invalid-aligned-alloc-alignment"@.len() == 31);
            assert("invalid-aligned-alloc-alignment"@[0] == 'i');
            assert("invalid-aligned-alloc-alignment"@[10] == 'i');
            assert("invalid-aligned-alloc-alignment"@[16] == 'a');
            assert(name_key("invalid-aligned-alloc-alignment"@) == 527001953);
        
        } else if i == 65 {
            assert(table()[65].short_description == "invalid-posix-memalign-alignment"@);
            assert("invalid-posix-memalign-alignment"@.len() == 32);
            assert("invalid-posix-memalign-alignment"@[0] == 'i');
            assert("invalid-posix-memalign-alignment"@[10] == 's');
            assert("invalid-posix-memalign-alignment"@[16] == 'm');
            assert(name_key("invalid-posix-memalign-alignment"@) == 543781741);
        
        } else if i == 66 {
            assert(table()[66].short_description == "allocation-size-too-big"@);
            assert("allocation-size-too-big"@.len() == 23);
            assert("allocation-size-too-big"@[0] == 'a');
            assert("allocation-size-too-big"@[10] == '-');
            assert("allocation-size-too-big"@[16] == 't');
            assert(name_key("allocation-size-too-big"@) == 392244596);
        
        } else if i == 67 {
            assert(table()[67].short_description == "out-of-memory"@);
            assert("out-of-memory"@.len() == 13);
            assert("out-of-memory"@[0] == 'o');
            assert("out-of-memory"@[10] == 'o');
            assert("out-of-memory"@[12] == 'y');
            assert(name_key("out-of-memory"@) == 225406841);
        
        } else if i == 68 {
            assert(table()[68].short_description == "fuzz target exited"@);
            assert("fuzz target exited"@.len() == 18);
            assert("fuzz target exited"@[0] == 'f');
            assert("fuzz target exited"@[10] == 't');
            assert("fuzz target exited"@[16] == 'e');
            assert(name_key("fuzz target exited"@) == 308704357);
        
        } else if i == 69 {
            assert(table()[69].short_description == "timeout"@);
            assert("timeout"@.len() == 7);
            assert("timeout"@[0] == 't');
            assert("timeout"@[6] == 't');
            assert("timeout"@[6] == 't');
            assert(name_key("timeout"@) == 125072500);
        
        } else if i == 70 {
            assert(table()[70].short_description == "overwrites-const-input"@);
            assert("overwrites-const-input"@.len() == 22);
            assert("overwrites-const-input"@[0] == 'o');
            assert("overwrites-const-input"@[10] == '-');
            assert("overwrites-const-input"@[16] == '-');
            assert(name_key("overwrites-const-input"@) == 376384813);
        }
    }
}

/// Distinct table indices carry distinct fingerprints.
#[verifier::rlimit(100)]
proof fn lemma_key_at_distinct()
    ensures
        forall|i: int, j: int| 0 <= i < j < 71 ==> key_at(i) != key_at(j),
{
}

/// Law: the short names of the taxonomy table are unique — no two
/// entries share one, so an exact lookup has at most one match.
pub proof fn lemma_short_names_unique()
    ensures
        forall|i: int, j: int| 0 <= i < j < table().len()
            ==> #[trigger] table()[i].short_description != #[trigger] table()[
            j
        ].short_description,
{
    lemma_table_keys_a();
    lemma_table_keys_b();
    lemma_table_keys_c();
    lemma_table_keys_d();
    lemma_key_at_distinct();
    assert forall|i: int, j: int| 0 <= i < j < table().len()
        implies table()[i].short_description != table()[j].short_description by {
        assert(name_key(table()[i].short_description) == key_at(i));
        assert(name_key(table()[j].short_description) == key_at(j));
        assert(key_at(i) != key_at(j));
    }
}

/// Law: exact lookup returns the exact matching record — by short-name
/// uniqueness, every table entry bearing the looked-up name is the one
/// returned.
pub proof fn lemma_find_exact_record(name: Seq<char>)
    ensures
        find_spec(name) matches Some(c) ==> forall|i: int|
            0 <= i < table().len() && #[trigger] table()[i].short_description == name
                ==> table()[i] == c,
{
    lemma_find_in_some(table(), name);
    lemma_short_names_unique();
    match find_spec(name) {
        Some(c) => {
            let i0 = choose|k: int| 0 <= k < table().len() && table()[k] == c;
            assert forall|i: int|
                0 <= i < table().len() && #[trigger] table()[i].short_description == name
                    implies table()[i] == c by {
                if i < i0 {
                    assert(table()[i].short_description != table()[i0].short_description);
                } else if i0 < i {
                    assert(table()[i0].short_description != table()[i].short_description);
                }
            }
        },
        None => {},
    }
}

/// Law: exact lookup succeeds exactly on the names the table holds, and
/// what it returns is a table record bearing that name.
pub proof fn lemma_find_exact(name: Seq<char>)
    ensures
        find_spec(name) is Some <==> exists|i: int|
            0 <= i < table().len() && #[trigger] table()[i].short_description == name,
        find_spec(name) matches Some(c) ==> c.short_description == name && table().contains(c),
{
    lemma_find_in_some(table(), name);
}

/// Law: lookup is deterministic, so repeated calls return equal records —
/// every result of `find` has the view `find_spec` gives the name.
pub proof fn lemma_find_idempotent(name: Seq<char>, c1: ClassSpec, c2: ClassSpec)
    requires
        find_spec(name) == Some(c1),
        find_spec(name) == Some(c2),
    ensures
        c1 == c2,
{
}

/// The view of an optional access-direction token.
pub open spec fn rw_view(rw: Option<&str>) -> Option<Seq<char>> {
    match rw {
        Some(s) => Some(s@),
        None => None,
    }
}

/// The class name that `SEGV` derivation resolves to: access direction and
/// near-null combine through a fixed five-way rule.
pub open spec fn segv_target(rw: Option<Seq<char>>, near_null: bool) -> Seq<char> {
    if rw == Some("READ"@) && !near_null {
        "SourceAv"@
    } else if rw == Some("READ"@) && near_null {
        "SourceAvNearNull"@
    } else if rw == Some("WRITE"@) && !near_null {
        "DestAv"@
    } else if rw == Some("WRITE"@) && near_null {
        "DestAvNearNull"@
    } else {
        "AccessViolation"@
    }
}

/// The qualified variant of a check name: `(read)` or `(write)` appended
/// when the access direction is known, the bare name otherwise.
pub open spec fn qualified_name(name: Seq<char>, rw: Option<Seq<char>>) -> Seq<char> {
    if rw == Some("READ"@) {
        name + "(read)"@
    } else if rw == Some("WRITE"@) {
        name + "(write)"@
    } else {
        name
    }
}

/// Derived lookup: the record that `san_find` resolves, if any. Rules are
/// evaluated in order: the `SEGV` five-way table, then `stack-overflow`,
/// then `deadly`, then the qualified variant with fallback to the bare name.
pub open spec fn san_find_spec(name: Seq<char>, rw: Option<Seq<char>>, near_null: bool) -> Option<
    ClassSpec,
> {
    if name == "SEGV"@ {
        find_spec(segv_target(rw, near_null))
    } else if name == "stack-overflow"@ {
        find_spec("StackOverflow"@)
    } else if name == "deadly"@ {
        find_spec("AbortSignal"@)
    } else if find_spec(qualified_name(name, rw)) is Some {
        find_spec(qualified_name(name, rw))
    } else {
        find_spec(name)
    }
}

/// The name that a failed derived lookup reports.
pub open spec fn san_find_err_name(name: Seq<char>, rw: Option<Seq<char>>, near_null: bool) -> Seq<
    char,
> {
    if name == "SEGV"@ {
        segv_target(rw, near_null)
    } else if name == "stack-overflow"@ {
        "StackOverflow"@
    } else if name == "deadly"@ {
        "AbortSignal"@
    } else {
        name
    }
}

/// The class a report starts with: the taxonomy table's own `Undefined`
/// record, field for field.
pub open spec fn default_class() -> ClassSpec {
    entry(
        "UNDEFINED",
        "Undefined",
        "Undefined class",
        "There is no execution class for this type of exception.",
    )
}

/// The default class is a record of the taxonomy table.
pub proof fn lemma_default_is_table_entry()
    ensures
        exists|i: int| 0 <= i < table().len() && #[trigger] table()[i] == default_class(),
{
    assert(table()[23] == default_class());
}

impl Default for ExecutionClass {
    fn default() -> (c: Self)
        ensures
            c@ == default_class(),
    {
        ExecutionClass::new(
            (
                "UNDEFINED",
                "Undefined",
                "Undefined class",
                "There is no execution class for this type of exception.",
            ),
        )
    }
}

/// The lines a class renders to: severity, short description, description,
/// and the explanation when one is present.
pub open spec fn display_spec(c: ClassSpec) -> Seq<char> {
    let base = "Severity: "@ + c.severity + "\nShort description: "@ + c.short_description
        + "\nDescription: "@ + c.description;
    if c.explanation.len() != 0 {
        base + "\nExplanation: "@ + c.explanation
    } else {
        base
    }
}

impl ExecutionClass {
    /// Render the class as human-readable text.
    pub fn display_text(&self) -> (r: String)
        ensures
            r@ == display_spec(self@),
    {
        let mut m = String::from_str("Severity: ");
        m.append(self.severity.as_str());
        m.append("\nShort description: ");
        m.append(self.short_description.as_str());
        m.append("\nDescription: ");
        m.append(self.description.as_str());
        if self.explanation.as_str().unicode_len() != 0 {
            m.append("\nExplanation: ");
            m.append(self.explanation.as_str());
        }
        proof {
            assert(m@ =~= display_spec(self@));
        }
        m
    }

    /// Derived lookup by check name, access direction and near-null flag.
    /// Resolves `SEGV`, `stack-overflow` and `deadly` specially, then tries
    /// the qualified `(read)`/`(write)` variant before the bare name.
    pub fn san_find(short_desc: &str, rw: Option<&str>, near_null: bool) -> (r: Result<
        ExecutionClass,
        Error,
    >)
        ensures
            match r {
                Ok(c) => san_find_spec(short_desc@, rw_view(rw), near_null) == Some(c@),
                Err(e) => san_find_spec(short_desc@, rw_view(rw), near_null) is None && (
                e matches Error::ClassNotFound(n) && n@ == san_find_err_name(
                    short_desc@,
                    rw_view(rw),
                    near_null,
                )),
            },
    {
        let rw_is_read = match rw {
            Some(s) => str_eq(s, "READ"),
            None => false,
        };
        let rw_is_write = match rw {
            Some(s) => str_eq(s, "WRITE"),
            None => false,
        };
        if str_eq(short_desc, "SEGV") {
            let target = if rw_is_read && !near_null {
                "SourceAv"
            } else if rw_is_read {
                "SourceAvNearNull"
            } else if rw_is_write && !near_null {
                "DestAv"
            } else if rw_is_write {
                "DestAvNearNull"
            } else {
                "AccessViolation"
            };
            ExecutionClass::find(target)
        } else if str_eq(short_desc, "stack-overflow") {
            ExecutionClass::find("StackOverflow")
        } else if str_eq(short_desc, "deadly") {
            ExecutionClass::find("AbortSignal")
        } else if rw_is_read || rw_is_write {
            let qualified = if rw_is_read {
                String::from_str(short_desc).concat("(read)")
            } else {
                String::from_str(short_desc).concat("(write)")
            };
            match ExecutionClass::find(qualified.as_str()) {
                Ok(c) => Ok(c),
                Err(_) => ExecutionClass::find(short_desc),
            }
        } else {
            ExecutionClass::find(short_desc)
        }
    }

    /// Construct an `ExecutionClass` from a tuple of its four text fields.
    pub fn new(class: (&str, &str, &str, &str)) -> (c: Self)
        ensures
            c@ == entry(class.0, class.1, class.2, class.3),
    {
        ExecutionClass {
            severity: String::from_str(class.0),
            short_description: String::from_str(class.1),
            description: String::from_str(class.2),
            explanation: String::from_str(class.3),
        }
    }

    /// Exact lookup: the first table record whose short description equals
    /// `short_desc`, or `ClassNotFound` naming `short_desc` if none matches.
    pub fn find(short_desc: &str) -> (r: Result<ExecutionClass, Error>)
        ensures
            match r {
                Ok(c) => find_spec(short_desc@) == Some(c@),
                Err(e) => find_spec(short_desc@) is None && (e matches Error::ClassNotFound(n)
                    && n@ == short_desc@),
            },
    {
        let classes = classes();
        let n = classes.len();
        proof {
            assert(table().skip(0) =~= table());
        }
        let mut i: usize = 0;
        while i < n
            invariant
                n == classes@.len(),
                n == table().len(),
                forall|k: int| 0 <= k < n ==> #[trigger] classes@[k]@ == table()[k],
                i <= n,
                find_in(table().skip(i as int), short_desc@) == find_spec(short_desc@),
            decreases n - i,
        {
            let c = &classes[i];
            if str_eq(c.short_description.as_str(), short_desc) {
                proof {
                    assert(table().skip(i as int)[0] == table()[i as int]);
                }
                return Ok(
                    ExecutionClass {
                        severity: c.severity.clone(),
                        short_description: c.short_description.clone(),
                        description: c.description.clone(),
                        explanation: c.explanation.clone(),
                    },
                );
            }
            proof {
                assert(classes@[i as int]@ == table()[i as int]);
                assert(table()[i as int].short_description != short_desc@);
                assert(table().skip(i as int)[0] == table()[i as int]);
                assert(table().skip(i as int).drop_first() =~= table().skip(i as int + 1));
            }
            i = i + 1;
        }
        proof {
            assert(table().skip(n as int) =~= Seq::<ClassSpec>::empty());
        }
        Err(Error::ClassNotFound(String::from_str(short_desc)))
    }
}

} // verus!
