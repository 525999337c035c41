//! The constant pool context: the ordered string table in effect at each
//! instruction of a list, replaced wholesale by pool-definition
//! instructions and snapshotted into nested function bodies.
use vstd::prelude::*;
use crate::model::Instruction;
use crate::model::Opcode;
use crate::model::PushValue;
use crate::model::DisasmError;
use crate::trace::ResolvedValue;
use crate::trace::ResolvedValueV;

verus! {

/// The pool in effect immediately before instruction `i` of `list` when
/// the list was entered with pool `init`: the strings of the last
/// pool-definition instruction at an index below `i`, or `init` when
/// there is none. A pool definition replaces the whole table, so earlier
/// definitions and `init` contribute nothing once one is seen.
pub open spec fn active_pool(list: Seq<Instruction>, i: int, init: Seq<Seq<char>>) -> Seq<
    Seq<char>,
>
    decreases i,
{
    if i <= 0 {
        init
    } else {
        match list[i - 1].op {
            Opcode::ConstantPool(p) => p.deep_view(),
            _ => active_pool(list, i - 1, init),
        }
    }
}

/// Resolution of the push operands `vals` (of the push instruction at
/// index `idx` of its list) against the pool `pool`: a pool reference `k`
/// becomes the string stored at pool position `k`, an out-of-range
/// reference is a structural error, and every other operand is kept
/// verbatim.
pub open spec fn resolve_values_spec(
    vals: Seq<PushValue>,
    pool: Seq<Seq<char>>,
    idx: usize,
) -> Result<Seq<ResolvedValueV>, DisasmError>
    decreases vals.len(),
{
    if vals.len() == 0 {
        Ok(Seq::empty())
    } else {
        let head = match vals[0] {
            PushValue::PoolRef(k) => {
                if k < pool.len() {
                    Ok(ResolvedValueV::FromPool(pool[k as int]))
                } else {
                    Err(DisasmError::PoolIndex {
                        index: idx,
                        reference: k as usize,
                        pool_len: pool.len() as usize,
                    })
                }
            },
            PushValue::Literal(s) => Ok(ResolvedValueV::Verbatim(s@)),
        };
        match head {
            Ok(h) => match resolve_values_spec(vals.drop_first(), pool, idx) {
                Ok(rest) => Ok(seq![h] + rest),
                Err(e) => Err(e),
            },
            Err(e) => Err(e),
        }
    }
}

/// Resolves push operands against the active pool, left to right,
/// stopping at the first out-of-range pool reference.
pub fn resolve_values(vals: &Vec<PushValue>, pool: &Vec<String>, idx: usize, from: usize) -> (r:
    Result<Vec<ResolvedValue>, DisasmError>)
    requires
        from <= vals@.len(),
    ensures
        resolve_result_view(r) == resolve_values_spec(vals@.skip(from as int), pool.deep_view(), idx),
    decreases vals@.len() - from,
{
    if from == vals.len() {
        let r: Vec<ResolvedValue> = Vec::new();
        assert(vals@.skip(from as int) =~= Seq::<PushValue>::empty());
        assert(r.deep_view() =~= Seq::<ResolvedValueV>::empty());
        Ok(r)
    } else {
        let ghost tail_ghost = vals@.skip(from as int);
        assert(tail_ghost[0] == vals@[from as int]);
        assert(tail_ghost.drop_first() =~= vals@.skip(from as int + 1));
        let head: ResolvedValue = match &vals[from] {
            PushValue::PoolRef(k) => {
                if (*k as usize) < pool.len() {
                    ResolvedValue::FromPool(pool[*k as usize].clone())
                } else {
                    return Err(DisasmError::PoolIndex {
                        index: idx,
                        reference: *k as usize,
                        pool_len: pool.len(),
                    });
                }
            },
            PushValue::Literal(s) => ResolvedValue::Verbatim(s.clone()),
        };
        match resolve_values(vals, pool, idx, from + 1) {
            Ok(rest) => {
                let mut out: Vec<ResolvedValue> = Vec::new();
                out.push(head);
                let mut rest = rest;
                out.append(&mut rest);
                proof {
                    let s = resolve_values_spec(vals@.skip(from as int), pool.deep_view(), idx);
                    assert(out.deep_view() =~= s->Ok_0);
                }
                Ok(out)
            },
            Err(e) => Err(e),
        }
    }
}

/// Maps a resolution result to its mathematical twin.
pub open spec fn resolve_result_view(r: Result<Vec<ResolvedValue>, DisasmError>) -> Result<
    Seq<ResolvedValueV>,
    DisasmError,
> {
    match r {
        Ok(v) => Ok(v.deep_view()),
        Err(e) => Err(e),
    }
}

/// A copy of a string table, equal to the original element for element.
pub fn clone_strings(v: &Vec<String>) -> (r: Vec<String>)
    ensures
        r@ == v@,
{
    let mut r: Vec<String> = Vec::new();
    let mut i: usize = 0;
    while i < v.len()
        invariant
            i <= v@.len(),
            r@ =~= v@.subrange(0, i as int),
        decreases v@.len() - i,
    {
        r.push(v[i].clone());
        i += 1;
    }
    assert(r@ =~= v@);
    r
}

/// A pool reference made at instruction `j` resolves against the strings
/// of the pool definition at `d`, the last definition before `j`, exactly
/// as stored there: the definition replaced the whole table, so neither
/// the inherited pool nor any earlier definition contributes a position.
pub proof fn lemma_pool_definition_wins(
    list: Seq<Instruction>,
    d: int,
    j: int,
    init: Seq<Seq<char>>,
)
    requires
        0 <= d < j <= list.len(),
        list[d].op is ConstantPool,
        forall|k: int| d < k < j ==> !((#[trigger] list[k].op) is ConstantPool),
    ensures
        active_pool(list, j, init) == list[d].op->ConstantPool_0.deep_view(),
    decreases j,
{
    if j == d + 1 {
    } else {
        lemma_pool_definition_wins(list, d, j - 1, init);
    }
}

/// Two opcodes that agree on whether they define a pool, and on the
/// strings they define: their other operands, and in particular the
/// bodies of the functions they may define, are unconstrained.
pub open spec fn pools_agree(a: Opcode, b: Opcode) -> bool {
    &&& (a is ConstantPool <==> b is ConstantPool)
    &&& (a is ConstantPool ==> a->ConstantPool_0.deep_view() == b->ConstantPool_0.deep_view())
}

/// The pool active at any point of a list is determined by the list's own
/// pool-definition instructions alone: however the bodies of the nested
/// functions it defines are changed - including pool definitions made
/// inside those bodies - the pool that later instructions of the list
/// resolve against stays the same. Nested disassembly works on a snapshot
/// and never writes back.
pub proof fn lemma_nested_pools_isolated(
    a: Seq<Instruction>,
    b: Seq<Instruction>,
    j: int,
    init: Seq<Seq<char>>,
)
    requires
        a.len() == b.len(),
        j <= a.len(),
        forall|k: int| 0 <= k < a.len() ==> pools_agree(#[trigger] a[k].op, b[k].op),
    ensures
        active_pool(a, j, init) == active_pool(b, j, init),
    decreases j,
{
    if 0 < j <= a.len() {
        assert(pools_agree(a[j - 1].op, b[j - 1].op));
        lemma_nested_pools_isolated(a, b, j - 1, init);
    }
}

} // verus!
