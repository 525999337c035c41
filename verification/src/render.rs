//! The disassembly renderer: one strictly sequential walk over an
//! instruction list, resolving branch offsets and pool references,
//! emitting one (or, for the extended function form, four) trace lines
//! per instruction, and recursing into nested function bodies with a
//! snapshot of the active pool and a deeper indent.
use vstd::prelude::*;
use crate::model::DisasmError;
use crate::model::Function2;
use crate::model::Instruction;
use crate::model::Opcode;
use crate::model::Param;
use crate::model::Preload;
use crate::model::wf_list;
use crate::pool::active_pool;
use crate::pool::clone_strings;
use crate::pool::resolve_values;
use crate::pool::resolve_values_spec;
use crate::resolver::branch_dest;
use crate::resolver::compute_ends;
use crate::resolver::end_off;
use crate::resolver::resolve_branch;
use crate::trace::TraceLine;
use crate::trace::TraceLineV;
use crate::trace::line_depth;
use crate::BASE_INDENT;
use crate::INDENT_STEP;
use crate::NESTING_LIMIT;

verus! {

/// The active preload flags of an extended function definition, as the
/// fixed-order list of names the renderer prints: parent, root, super,
/// arguments, this, global, each present exactly when its flag is set.
pub open spec fn spec_preloads(f: Function2) -> Seq<Preload> {
    let s0 = Seq::<Preload>::empty();
    let s1 = if f.preload_parent {
        s0.push(Preload::Parent)
    } else {
        s0
    };
    let s2 = if f.preload_root {
        s1.push(Preload::Root)
    } else {
        s1
    };
    let s3 = if f.preload_super {
        s2.push(Preload::Super)
    } else {
        s2
    };
    let s4 = if f.preload_arguments {
        s3.push(Preload::Arguments)
    } else {
        s3
    };
    let s5 = if f.preload_this {
        s4.push(Preload::This)
    } else {
        s4
    };
    if f.preload_global {
        s5.push(Preload::Global)
    } else {
        s5
    }
}

/// Joins the lines of one instruction to the lines of the rest of its
/// list, unless the rest failed.
pub open spec fn prepend_lines(
    head: Seq<TraceLineV>,
    rest: Result<Seq<TraceLineV>, DisasmError>,
) -> Result<Seq<TraceLineV>, DisasmError> {
    match rest {
        Ok(t) => Ok(head + t),
        Err(e) => Err(e),
    }
}

/// The trace of `list` from instruction `i` onward, when the list was
/// entered with pool `init` at indentation `depth`, with `fuel` levels of
/// function nesting still allowed. Instructions are visited exactly once,
/// in index order; a pool reference resolves against the pool of the last
/// pool definition before the referencing instruction; a nested body is
/// rendered one indent step deeper against a snapshot of that same pool
/// and consumes one unit of fuel; the first structural error aborts the
/// whole trace.
pub open spec fn spec_render(
    list: Seq<Instruction>,
    i: int,
    init: Seq<Seq<char>>,
    depth: int,
    fuel: nat,
) -> Result<Seq<TraceLineV>, DisasmError>
    decreases fuel, list.len() - i,
{
    if i < 0 || i >= list.len() {
        Ok(Seq::empty())
    } else {
        let pool = active_pool(list, i, init);
        let tail = spec_render(list, i + 1, init, depth, fuel);
        match list[i].op {
            Opcode::ConstantPool(_) => prepend_lines(
                seq![TraceLineV::PoolLine { depth, index: i }],
                tail,
            ),
            Opcode::Push(vals) => match resolve_values_spec(vals@, pool, i as usize) {
                Ok(rv) => prepend_lines(
                    seq![TraceLineV::PushLine { depth, index: i, values: rv }],
                    tail,
                ),
                Err(e) => Err(e),
            },
            Opcode::CondBranch(off) => match branch_dest(list, i, off as int) {
                Some(d) => prepend_lines(
                    seq![TraceLineV::CondBranchLine { depth, index: i, dest: d }],
                    tail,
                ),
                None => Err(DisasmError::BranchTarget { index: i as usize }),
            },
            Opcode::Branch(off) => match branch_dest(list, i, off as int) {
                Some(d) => prepend_lines(
                    seq![TraceLineV::BranchLine { depth, index: i, dest: d }],
                    tail,
                ),
                None => Err(DisasmError::BranchTarget { index: i as usize }),
            },
            Opcode::DefineFunction(f) => {
                if fuel == 0 {
                    Err(DisasmError::NestingLimit)
                } else {
                    let head = TraceLineV::FunctionLine {
                        depth,
                        index: i,
                        name: f.name@,
                        params: f.params.deep_view(),
                    };
                    match spec_render(
                        f.body@,
                        0,
                        pool,
                        depth + INDENT_STEP as int,
                        (fuel - 1) as nat,
                    ) {
                        Ok(body_lines) => prepend_lines(seq![head] + body_lines, tail),
                        Err(e) => Err(e),
                    }
                }
            },
            Opcode::DefineFunction2(f) => {
                if fuel == 0 {
                    Err(DisasmError::NestingLimit)
                } else {
                    let heads = seq![
                        TraceLineV::Function2Line { depth, index: i },
                        TraceLineV::Function2NameLine { depth, name: f.name@ },
                        TraceLineV::Function2ParamsLine { depth, params: f.params.deep_view() },
                        TraceLineV::Function2PreloadsLine { depth, preloads: spec_preloads(f) },
                    ];
                    match spec_render(
                        f.body@,
                        0,
                        pool,
                        depth + INDENT_STEP as int,
                        (fuel - 1) as nat,
                    ) {
                        Ok(body_lines) => prepend_lines(heads + body_lines, tail),
                        Err(e) => Err(e),
                    }
                }
            },
            Opcode::Other(text) => prepend_lines(
                seq![TraceLineV::OtherLine { depth, index: i, text: text@ }],
                tail,
            ),
        }
    }
}

/// Maps a rendering result to its mathematical twin.
pub open spec fn render_result_view(r: Result<Vec<TraceLine>, DisasmError>) -> Result<
    Seq<TraceLineV>,
    DisasmError,
> {
    match r {
        Ok(v) => Ok(v.deep_view()),
        Err(e) => Err(e),
    }
}

/// The active preload flags of `f`, in the renderer's fixed order.
fn preload_names(f: &Function2) -> (r: Vec<Preload>)
    ensures
        r@ == spec_preloads(*f),
{
    let mut r: Vec<Preload> = Vec::new();
    if f.preload_parent {
        r.push(Preload::Parent);
    }
    if f.preload_root {
        r.push(Preload::Root);
    }
    if f.preload_super {
        r.push(Preload::Super);
    }
    if f.preload_arguments {
        r.push(Preload::Arguments);
    }
    if f.preload_this {
        r.push(Preload::This);
    }
    if f.preload_global {
        r.push(Preload::Global);
    }
    r
}

/// A copy of a parameter list, equal to the original element for element.
fn clone_params(v: &Vec<Param>) -> (r: Vec<Param>)
    ensures
        r@ == v@,
{
    let mut r: Vec<Param> = Vec::new();
    let mut i: usize = 0;
    while i < v.len()
        invariant
            i <= v@.len(),
            r@ =~= v@.subrange(0, i as int),
        decreases v@.len() - i,
    {
        r.push(Param { name: v[i].name.clone(), register: v[i].register });
        i += 1;
    }
    assert(r@ =~= v@);
    r
}

/// Renders `list` from instruction `i` onward against the current pool.
fn render_from(
    list: &Vec<Instruction>,
    ends: &Vec<usize>,
    i: usize,
    pool: &Vec<String>,
    Ghost(init): Ghost<Seq<Seq<char>>>,
    depth: usize,
    fuel: usize,
) -> (r: Result<Vec<TraceLine>, DisasmError>)
    requires
        wf_list(list@),
        ends@.len() == list@.len(),
        forall|j: int| 0 <= j < list@.len() ==> ends@[j] == end_off(list@, j),
        i <= list@.len(),
        pool.deep_view() == active_pool(list@, i as int, init),
        depth + INDENT_STEP * fuel <= usize::MAX,
    ensures
        render_result_view(r) == spec_render(list@, i as int, init, depth as int, fuel as nat),
    decreases fuel, list@.len() - i,
{
    if i == list.len() {
        let r: Vec<TraceLine> = Vec::new();
        assert(r.deep_view() =~= Seq::<TraceLineV>::empty());
        return Ok(r);
    }
    let ghost gi = i as int;
    let ghost spec_result = spec_render(list@, gi, init, depth as int, fuel as nat);
    proof {
        crate::model::lemma_wf_list_index(list@, gi);
    }
    match &list[i].op {
        Opcode::ConstantPool(p) => {
            let line = TraceLine::PoolLine { depth, index: i };
            assert(active_pool(list@, gi + 1, init) == p.deep_view());
            match render_from(list, ends, i + 1, p, Ghost(init), depth, fuel) {
                Ok(mut t) => {
                    let mut out: Vec<TraceLine> = Vec::new();
                    out.push(line);
                    out.append(&mut t);
                    proof {
                        assert(out.deep_view() =~= spec_result->Ok_0);
                    }
                    Ok(out)
                },
                Err(e) => Err(e),
            }
        },
        Opcode::Push(vals) => {
            assert(active_pool(list@, gi + 1, init) == active_pool(list@, gi, init));
            match resolve_values(vals, pool, i, 0) {
                Ok(rv) => {
                    assert(vals@.skip(0) =~= vals@);
                    let line = TraceLine::PushLine { depth, index: i, values: rv };
                    match render_from(list, ends, i + 1, pool, Ghost(init), depth, fuel) {
                        Ok(mut t) => {
                            let mut out: Vec<TraceLine> = Vec::new();
                            out.push(line);
                            out.append(&mut t);
                            proof {
                                assert(out.deep_view() =~= spec_result->Ok_0);
                            }
                            Ok(out)
                        },
                        Err(e) => Err(e),
                    }
                },
                Err(e) => {
                    assert(vals@.skip(0) =~= vals@);
                    Err(e)
                },
            }
        },
        Opcode::CondBranch(off) => {
            assert(active_pool(list@, gi + 1, init) == active_pool(list@, gi, init));
            match resolve_branch(ends, Ghost(list@), i, *off) {
                Some(d) => {
                    let line = TraceLine::CondBranchLine { depth, index: i, dest: d };
                    match render_from(list, ends, i + 1, pool, Ghost(init), depth, fuel) {
                        Ok(mut t) => {
                            let mut out: Vec<TraceLine> = Vec::new();
                            out.push(line);
                            out.append(&mut t);
                            proof {
                                assert(out.deep_view() =~= spec_result->Ok_0);
                            }
                            Ok(out)
                        },
                        Err(e) => Err(e),
                    }
                },
                None => Err(DisasmError::BranchTarget { index: i }),
            }
        },
        Opcode::Branch(off) => {
            assert(active_pool(list@, gi + 1, init) == active_pool(list@, gi, init));
            match resolve_branch(ends, Ghost(list@), i, *off) {
                Some(d) => {
                    let line = TraceLine::BranchLine { depth, index: i, dest: d };
                    match render_from(list, ends, i + 1, pool, Ghost(init), depth, fuel) {
                        Ok(mut t) => {
                            let mut out: Vec<TraceLine> = Vec::new();
                            out.push(line);
                            out.append(&mut t);
                            proof {
                                assert(out.deep_view() =~= spec_result->Ok_0);
                            }
                            Ok(out)
                        },
                        Err(e) => Err(e),
                    }
                },
                None => Err(DisasmError::BranchTarget { index: i }),
            }
        },
        Opcode::DefineFunction(f) => {
            assert(active_pool(list@, gi + 1, init) == active_pool(list@, gi, init));
            if fuel == 0 {
                return Err(DisasmError::NestingLimit);
            }
            let params_c = clone_strings(&f.params);
            proof {
                assert(params_c.deep_view() =~= f.params.deep_view());
            }
            let line = TraceLine::FunctionLine {
                depth,
                index: i,
                name: f.name.clone(),
                params: params_c,
            };
            assert(wf_list(f.body@));
            let body_ends = compute_ends(&f.body);
            let body_pool = clone_strings(pool);
            assert(body_pool.deep_view() == active_pool(f.body@, 0, pool.deep_view()));
            match render_from(
                &f.body,
                &body_ends,
                0,
                &body_pool,
                Ghost(pool.deep_view()),
                depth + INDENT_STEP,
                fuel - 1,
            ) {
                Ok(mut body_lines) => {
                    match render_from(list, ends, i + 1, pool, Ghost(init), depth, fuel) {
                        Ok(mut t) => {
                            let mut out: Vec<TraceLine> = Vec::new();
                            out.push(line);
                            out.append(&mut body_lines);
                            out.append(&mut t);
                            proof {
                                assert(out.deep_view() =~= spec_result->Ok_0);
                            }
                            Ok(out)
                        },
                        Err(e) => Err(e),
                    }
                },
                Err(e) => Err(e),
            }
        },
        Opcode::DefineFunction2(f) => {
            assert(active_pool(list@, gi + 1, init) == active_pool(list@, gi, init));
            if fuel == 0 {
                return Err(DisasmError::NestingLimit);
            }
            let params_c = clone_params(&f.params);
            let pre = preload_names(f);
            proof {
                assert(params_c.deep_view() =~= f.params.deep_view());
                assert(pre.deep_view() =~= spec_preloads(*f));
            }
            let mut out: Vec<TraceLine> = Vec::new();
            out.push(TraceLine::Function2Line { depth, index: i });
            out.push(TraceLine::Function2NameLine { depth, name: f.name.clone() });
            out.push(TraceLine::Function2ParamsLine { depth, params: params_c });
            out.push(TraceLine::Function2PreloadsLine { depth, preloads: pre });
            assert(wf_list(f.body@));
            let body_ends = compute_ends(&f.body);
            let body_pool = clone_strings(pool);
            assert(body_pool.deep_view() == active_pool(f.body@, 0, pool.deep_view()));
            match render_from(
                &f.body,
                &body_ends,
                0,
                &body_pool,
                Ghost(pool.deep_view()),
                depth + INDENT_STEP,
                fuel - 1,
            ) {
                Ok(mut body_lines) => {
                    match render_from(list, ends, i + 1, pool, Ghost(init), depth, fuel) {
                        Ok(mut t) => {
                            out.append(&mut body_lines);
                            out.append(&mut t);
                            proof {
                                assert(out.deep_view() =~= spec_result->Ok_0);
                            }
                            Ok(out)
                        },
                        Err(e) => Err(e),
                    }
                },
                Err(e) => Err(e),
            }
        },
        Opcode::Other(text) => {
            assert(active_pool(list@, gi + 1, init) == active_pool(list@, gi, init));
            let line = TraceLine::OtherLine { depth, index: i, text: text.clone() };
            match render_from(list, ends, i + 1, pool, Ghost(init), depth, fuel) {
                Ok(mut t) => {
                    let mut out: Vec<TraceLine> = Vec::new();
                    out.push(line);
                    out.append(&mut t);
                    proof {
                        assert(out.deep_view() =~= spec_result->Ok_0);
                    }
                    Ok(out)
                },
                Err(e) => Err(e),
            }
        },
    }
}

/// Renders one top-level instruction list: every instruction in order at
/// the base indent, starting from an empty constant pool, with the
/// nesting guard armed. The trace is exactly `spec_render` of the list;
/// the first structural error aborts the whole trace instead.
pub fn render_actions(list: &Vec<Instruction>) -> (r: Result<Vec<TraceLine>, DisasmError>)
    requires
        wf_list(list@),
    ensures
        render_result_view(r) == spec_render(
            list@,
            0,
            Seq::empty(),
            BASE_INDENT as int,
            NESTING_LIMIT as nat,
        ),
{
    let ends = compute_ends(list);
    let pool: Vec<String> = Vec::new();
    assert(pool.deep_view() =~= Seq::<Seq<char>>::empty());
    render_from(list, &ends, 0, &pool, Ghost(Seq::empty()), BASE_INDENT, NESTING_LIMIT)
}

/// Every line of a successful rendering is indented at least as far as
/// the indentation the list was entered at: recursion only ever indents
/// deeper.
pub proof fn lemma_lines_indented(
    list: Seq<Instruction>,
    i: int,
    init: Seq<Seq<char>>,
    depth: int,
    fuel: nat,
)
    requires
        spec_render(list, i, init, depth, fuel) is Ok,
    ensures
        forall|k: int|
            0 <= k < spec_render(list, i, init, depth, fuel)->Ok_0.len() ==> line_depth(
                #[trigger] spec_render(list, i, init, depth, fuel)->Ok_0[k],
            ) >= depth,
    decreases fuel, list.len() - i,
{
    if i < 0 || i >= list.len() {
    } else {
        let pool = active_pool(list, i, init);
        let tail = spec_render(list, i + 1, init, depth, fuel);
        if tail is Ok {
            lemma_lines_indented(list, i + 1, init, depth, fuel);
        }
        match list[i].op {
            Opcode::DefineFunction(f) => {
                if fuel > 0 {
                    let body = spec_render(f.body@, 0, pool, depth + INDENT_STEP as int, (fuel
                        - 1) as nat);
                    if body is Ok {
                        lemma_lines_indented(f.body@, 0, pool, depth + INDENT_STEP as int, (fuel
                            - 1) as nat);
                    }
                }
            },
            Opcode::DefineFunction2(f) => {
                if fuel > 0 {
                    let body = spec_render(f.body@, 0, pool, depth + INDENT_STEP as int, (fuel
                        - 1) as nat);
                    if body is Ok {
                        lemma_lines_indented(f.body@, 0, pool, depth + INDENT_STEP as int, (fuel
                            - 1) as nat);
                    }
                }
            },
            _ => {},
        }
    }
}

/// The nested body of a function definition rendered at `depth` is laid
/// out strictly deeper than its defining line: every line of the body's
/// trace is indented at least one full step further, and the instructions
/// of the surrounding list are untouched by the recursion - the rest of
/// the trace continues at instruction `i + 1` of the outer list.
pub proof fn lemma_function_body_deeper(
    body: Seq<Instruction>,
    pool: Seq<Seq<char>>,
    depth: int,
    fuel: nat,
)
    requires
        spec_render(body, 0, pool, depth + INDENT_STEP as int, fuel) is Ok,
    ensures
        forall|k: int|
            0 <= k < spec_render(body, 0, pool, depth + INDENT_STEP as int, fuel)->Ok_0.len()
                ==> line_depth(
                #[trigger] spec_render(body, 0, pool, depth + INDENT_STEP as int, fuel)->Ok_0[k],
            ) > depth,
{
    lemma_lines_indented(body, 0, pool, depth + INDENT_STEP as int, fuel);
}

} // verus!
