//! The instruction record model: one decoded bytecode operation with its
//! kind, operands and encoded byte length, plus the well-formedness
//! conditions the rest of the engine relies on.
use vstd::prelude::*;

verus! {

/// One operand of a push instruction: either a reference into the active
/// constant pool or an operand already rendered to text by the decoder.
#[derive(Debug, PartialEq, Eq)]
pub enum PushValue {
    PoolRef(u16),
    Literal(String),
}

/// A named function parameter of the extended function form, optionally
/// bound to a register.
#[derive(Debug, PartialEq, Eq)]
pub struct Param {
    pub name: String,
    pub register: Option<u8>,
}

/// One of the preload flags of the extended function form.
#[derive(Debug, Clone, Copy, PartialEq, Eq, Structural)]
pub enum Preload {
    Parent,
    Root,
    Super,
    Arguments,
    This,
    Global,
}

/// Payload of a plain named function definition.
#[derive(Debug, PartialEq, Eq)]
pub struct FunctionDef {
    pub name: String,
    pub params: Vec<String>,
    pub body: Vec<Instruction>,
}

/// Payload of the extended function form with preload flags and
/// per-parameter register slots.
#[derive(Debug, PartialEq, Eq)]
pub struct Function2 {
    pub name: String,
    pub params: Vec<Param>,
    pub preload_parent: bool,
    pub preload_root: bool,
    pub preload_super: bool,
    pub preload_arguments: bool,
    pub preload_this: bool,
    pub preload_global: bool,
    pub body: Vec<Instruction>,
}

/// The closed set of instruction kinds the renderer distinguishes; every
/// other decoded operation arrives as `Other` with its payload already
/// rendered to text for verbatim display.
#[derive(Debug, PartialEq, Eq)]
pub enum Opcode {
    ConstantPool(Vec<String>),
    Push(Vec<PushValue>),
    CondBranch(i32),
    Branch(i32),
    DefineFunction(FunctionDef),
    DefineFunction2(Function2),
    Other(String),
}

/// One decoded instruction: its kind with operands, and the exact number
/// of bytes its encoding occupies in the source buffer.
#[derive(Debug, PartialEq, Eq)]
pub struct Instruction {
    pub op: Opcode,
    pub size: usize,
}

/// A structural error found while disassembling. Each is fatal: a
/// partially wrong trace is worse than none, so the first of these aborts
/// the whole run.
#[derive(Debug, Clone, Copy, PartialEq, Eq, Structural)]
pub enum DisasmError {
    /// The branch at instruction `index` lands at a byte offset that is
    /// not an instruction boundary of its list.
    BranchTarget { index: usize },
    /// The push at instruction `index` references pool position
    /// `reference`, but the active pool holds only `pool_len` strings.
    PoolIndex { index: usize, reference: usize, pool_len: usize },
    /// Function definitions nest deeper than the renderer's limit.
    NestingLimit,
}

/// Sum of the encoded sizes of the first `n` instructions of `list`.
pub open spec fn total_size(list: Seq<Instruction>, n: int) -> int
    decreases n,
{
    if n <= 0 {
        0
    } else {
        total_size(list, n - 1) + list[n - 1].size
    }
}

/// A well-formed instruction list: every encoded size is at least one
/// byte, the sizes of each list sum to a value a `usize` byte position can
/// hold, and the same holds inside every nested function body.
pub open spec fn wf_list(list: Seq<Instruction>) -> bool
    decreases list, 1int,
{
    &&& total_size(list, list.len() as int) <= usize::MAX
    &&& wf_each(list)
}

/// Every instruction of `list` is well-formed.
pub open spec fn wf_each(list: Seq<Instruction>) -> bool
    decreases list, 0int,
{
    if list.len() == 0 {
        true
    } else {
        wf_instruction(list[0]) && wf_each(list.drop_first())
    }
}

/// Well-formedness of a single instruction record.
pub open spec fn wf_instruction(ins: Instruction) -> bool
    decreases ins,
{
    &&& ins.size >= 1
    &&& match ins.op {
        Opcode::DefineFunction(f) => wf_list(f.body@),
        Opcode::DefineFunction2(f) => wf_list(f.body@),
        _ => true,
    }
}

/// Each instruction of a well-formed list is itself well-formed.
pub proof fn lemma_wf_list_index(list: Seq<Instruction>, i: int)
    requires
        wf_list(list),
        0 <= i < list.len(),
    ensures
        wf_instruction(list[i]),
{
    lemma_wf_each_index(list, i);
}

proof fn lemma_wf_each_index(list: Seq<Instruction>, i: int)
    requires
        wf_each(list),
        0 <= i < list.len(),
    ensures
        wf_instruction(list[i]),
    decreases i,
{
    if i > 0 {
        assert(list.drop_first()[i - 1] == list[i]);
        lemma_wf_each_index(list.drop_first(), i - 1);
    }
}

/// In a well-formed list every encoded size is at least one byte.
pub proof fn lemma_wf_sizes(list: Seq<Instruction>)
    requires
        wf_list(list),
    ensures
        forall|k: int| 0 <= k < list.len() ==> (#[trigger] list[k]).size >= 1,
{
    assert forall|k: int| 0 <= k < list.len() implies (#[trigger] list[k]).size >= 1 by {
        lemma_wf_list_index(list, k);
    }
}

/// Partial sums of encoded sizes never decrease as more instructions are
/// included.
pub proof fn lemma_total_size_monotone(list: Seq<Instruction>, m: int, n: int)
    requires
        m <= n,
    ensures
        total_size(list, m) <= total_size(list, n),
    decreases n - m,
{
    if m < n {
        lemma_total_size_monotone(list, m, n - 1);
    }
}

/// Reports whether the encoded sizes of `list` sum to exactly
/// `buffer_len`, the length of the byte buffer the list was decoded from.
/// The decoder contract promises this equality for every decoded list, so
/// a caller holding the source buffer can check the contract it relies on.
pub fn sizes_match_buffer(list: &Vec<Instruction>, buffer_len: usize) -> (r: bool)
    ensures
        r <==> total_size(list@, list@.len() as int) == buffer_len,
{
    let mut acc: usize = 0;
    let mut i: usize = 0;
    while i < list.len()
        invariant
            i <= list@.len(),
            acc == total_size(list@, i as int),
        decreases list@.len() - i,
    {
        match acc.checked_add(list[i].size) {
            Some(a) => {
                acc = a;
            },
            None => {
                proof {
                    lemma_total_size_monotone(list@, i + 1, list@.len() as int);
                }
                return false;
            },
        }
        i += 1;
    }
    acc == buffer_len
}

} // verus!
