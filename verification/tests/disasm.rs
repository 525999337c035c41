use swf_disasm::model::DisasmError;
use swf_disasm::model::Function2;
use swf_disasm::model::FunctionDef;
use swf_disasm::model::Instruction;
use swf_disasm::model::Opcode;
use swf_disasm::model::Param;
use swf_disasm::model::Preload;
use swf_disasm::model::PushValue;
use swf_disasm::model::sizes_match_buffer;
use swf_disasm::render::render_actions;
use swf_disasm::trace::ResolvedValue;
use swf_disasm::trace::TraceLine;

fn other(size: usize) -> Instruction {
    Instruction { op: Opcode::Other(String::from("Pop")), size }
}

fn pool(strings: &[&str], size: usize) -> Instruction {
    Instruction {
        op: Opcode::ConstantPool(strings.iter().map(|s| String::from(*s)).collect()),
        size,
    }
}

fn push(values: Vec<PushValue>, size: usize) -> Instruction {
    Instruction { op: Opcode::Push(values), size }
}

fn function(name: &str, params: &[&str], body: Vec<Instruction>, size: usize) -> Instruction {
    Instruction {
        op: Opcode::DefineFunction(FunctionDef {
            name: String::from(name),
            params: params.iter().map(|s| String::from(*s)).collect(),
            body,
        }),
        size,
    }
}

#[test]
fn sizes_sum_to_buffer_length() {
    let list = vec![other(1), other(2), other(3)];
    assert!(sizes_match_buffer(&list, 6));
    assert!(!sizes_match_buffer(&list, 5));
    assert!(!sizes_match_buffer(&list, 7));
    let empty: Vec<Instruction> = Vec::new();
    assert!(sizes_match_buffer(&empty, 0));
    assert!(!sizes_match_buffer(&empty, 1));
}

#[test]
fn branch_at_boundary_resolves_to_following_instruction() {
    // Sizes [1, 2, 3] give cumulative ends [1, 3, 6]. A branch at index 0
    // with offset 2 lands at 1 + 2 = 3, the end of instruction 1, so the
    // displayed destination is 2 - the instruction after the boundary.
    let list = vec![
        Instruction { op: Opcode::CondBranch(2), size: 1 },
        other(2),
        other(3),
    ];
    let lines = render_actions(&list).unwrap();
    assert_eq!(lines[0], TraceLine::CondBranchLine { depth: 4, index: 0, dest: 2 });
}

#[test]
fn branch_landing_mid_instruction_fails() {
    // Ends are [1, 3, 6]; a branch at index 0 with offset 3 lands at 4,
    // which is the middle of instruction 2: a structural error, never a
    // nearest-boundary guess.
    let list = vec![
        Instruction { op: Opcode::CondBranch(3), size: 1 },
        other(2),
        other(3),
    ];
    assert_eq!(render_actions(&list), Err(DisasmError::BranchTarget { index: 0 }));
}

#[test]
fn backward_branch_resolves() {
    // Ends are [1, 1 + 2 = 3]. A branch at index 1 with offset -2 lands
    // at 3 - 2 = 1, the end of instruction 0, displayed as destination 1.
    let list = vec![other(1), Instruction { op: Opcode::Branch(-2), size: 2 }];
    let lines = render_actions(&list).unwrap();
    assert_eq!(lines[1], TraceLine::BranchLine { depth: 4, index: 1, dest: 1 });
}

#[test]
fn branch_to_own_end_reads_as_next_instruction() {
    // A branch with offset 0 lands at its own end offset, which reads as
    // a branch to the very next instruction, index 1.
    let list = vec![Instruction { op: Opcode::Branch(0), size: 1 }, other(1)];
    let lines = render_actions(&list).unwrap();
    assert_eq!(lines[0], TraceLine::BranchLine { depth: 4, index: 0, dest: 1 });
}

#[test]
fn pool_reference_returns_exact_string() {
    // Pool ["a", "b", "c"]: a push referencing position 1 renders the
    // literal "b".
    let list = vec![
        pool(&["a", "b", "c"], 8),
        push(vec![PushValue::PoolRef(1)], 3),
    ];
    let lines = render_actions(&list).unwrap();
    assert_eq!(lines[0], TraceLine::PoolLine { depth: 4, index: 0 });
    assert_eq!(
        lines[1],
        TraceLine::PushLine {
            depth: 4,
            index: 1,
            values: vec![ResolvedValue::FromPool(String::from("b"))],
        }
    );
}

#[test]
fn pool_reference_out_of_range_fails() {
    let list = vec![
        pool(&["a", "b", "c"], 8),
        push(vec![PushValue::PoolRef(5)], 3),
    ];
    assert_eq!(
        render_actions(&list),
        Err(DisasmError::PoolIndex { index: 1, reference: 5, pool_len: 3 })
    );
}

#[test]
fn pool_reference_before_any_definition_fails() {
    let list = vec![push(vec![PushValue::PoolRef(0)], 3)];
    assert_eq!(
        render_actions(&list),
        Err(DisasmError::PoolIndex { index: 0, reference: 0, pool_len: 0 })
    );
}

#[test]
fn second_pool_definition_replaces_first_wholesale() {
    // After the second definition, position 1 holds "y"; the earlier pool
    // contributes nothing, not even positions the new pool lacks.
    let list = vec![
        pool(&["a", "b", "c"], 8),
        pool(&["x", "y"], 6),
        push(vec![PushValue::PoolRef(1)], 3),
        push(vec![PushValue::PoolRef(2)], 3),
    ];
    assert_eq!(
        render_actions(&list),
        Err(DisasmError::PoolIndex { index: 3, reference: 2, pool_len: 2 })
    );
    let shorter = vec![
        pool(&["a", "b", "c"], 8),
        pool(&["x", "y"], 6),
        push(vec![PushValue::PoolRef(1)], 3),
    ];
    let lines = render_actions(&shorter).unwrap();
    assert_eq!(
        lines[2],
        TraceLine::PushLine {
            depth: 4,
            index: 2,
            values: vec![ResolvedValue::FromPool(String::from("y"))],
        }
    );
}

#[test]
fn mixed_push_keeps_verbatim_operands() {
    let list = vec![
        pool(&["only"], 5),
        push(
            vec![
                PushValue::Literal(String::from("Int(7)")),
                PushValue::PoolRef(0),
            ],
            5,
        ),
    ];
    let lines = render_actions(&list).unwrap();
    assert_eq!(
        lines[1],
        TraceLine::PushLine {
            depth: 4,
            index: 1,
            values: vec![
                ResolvedValue::Verbatim(String::from("Int(7)")),
                ResolvedValue::FromPool(String::from("only")),
            ],
        }
    );
}

#[test]
fn nested_pool_definition_does_not_leak_into_parent() {
    // The function body replaces its own pool copy; the reference after
    // the definition in the parent list still sees the parent pool.
    let body = vec![
        pool(&["inner"], 7),
        push(vec![PushValue::PoolRef(0)], 3),
    ];
    let list = vec![
        pool(&["outer_a", "outer_b"], 10),
        function("f", &[], body, 20),
        push(vec![PushValue::PoolRef(1)], 3),
    ];
    let lines = render_actions(&list).unwrap();
    // Parent lines: pool, function header, two body lines, then the push.
    assert_eq!(
        lines[4],
        TraceLine::PushLine {
            depth: 4,
            index: 2,
            values: vec![ResolvedValue::FromPool(String::from("outer_b"))],
        }
    );
    // The body's own reference saw its own replaced pool.
    assert_eq!(
        lines[3],
        TraceLine::PushLine {
            depth: 8,
            index: 1,
            values: vec![ResolvedValue::FromPool(String::from("inner"))],
        }
    );
}

#[test]
fn nested_body_inherits_pool_snapshot() {
    let body = vec![push(vec![PushValue::PoolRef(0)], 3)];
    let list = vec![pool(&["shared"], 6), function("g", &["p"], body, 15)];
    let lines = render_actions(&list).unwrap();
    assert_eq!(
        lines[2],
        TraceLine::PushLine {
            depth: 8,
            index: 0,
            values: vec![ResolvedValue::FromPool(String::from("shared"))],
        }
    );
}

#[test]
fn function_body_is_indented_strictly_deeper() {
    // A named function whose body holds a branch: the body line is
    // indented strictly deeper than the defining line, and the recursion
    // neither consumes nor duplicates instructions of the outer list.
    let body = vec![Instruction { op: Opcode::Branch(0), size: 1 }, other(1)];
    let list = vec![function("f", &["a", "b"], body, 10), other(2)];
    let lines = render_actions(&list).unwrap();
    assert_eq!(lines.len(), 4);
    assert_eq!(
        lines[0],
        TraceLine::FunctionLine {
            depth: 4,
            index: 0,
            name: String::from("f"),
            params: vec![String::from("a"), String::from("b")],
        }
    );
    // Body branch resolves against the body's own offsets and is deeper.
    assert_eq!(lines[1], TraceLine::BranchLine { depth: 8, index: 0, dest: 1 });
    assert_eq!(lines[2], TraceLine::OtherLine { depth: 8, index: 1, text: String::from("Pop") });
    // The outer list resumes after the function with its own instruction.
    assert_eq!(lines[3], TraceLine::OtherLine { depth: 4, index: 1, text: String::from("Pop") });
}

#[test]
fn function2_renders_header_params_and_preloads() {
    let body = vec![other(1)];
    let f2 = Function2 {
        name: String::from("h"),
        params: vec![
            Param { name: String::from("x"), register: Some(1) },
            Param { name: String::from("y"), register: None },
        ],
        preload_parent: false,
        preload_root: true,
        preload_super: false,
        preload_arguments: true,
        preload_this: true,
        preload_global: false,
        body,
    };
    let list = vec![Instruction { op: Opcode::DefineFunction2(f2), size: 30 }];
    let lines = render_actions(&list).unwrap();
    assert_eq!(lines.len(), 5);
    assert_eq!(lines[0], TraceLine::Function2Line { depth: 4, index: 0 });
    assert_eq!(lines[1], TraceLine::Function2NameLine { depth: 4, name: String::from("h") });
    assert_eq!(
        lines[2],
        TraceLine::Function2ParamsLine {
            depth: 4,
            params: vec![
                Param { name: String::from("x"), register: Some(1) },
                Param { name: String::from("y"), register: None },
            ],
        }
    );
    assert_eq!(
        lines[3],
        TraceLine::Function2PreloadsLine {
            depth: 4,
            preloads: vec![Preload::Root, Preload::Arguments, Preload::This],
        }
    );
    assert_eq!(lines[4], TraceLine::OtherLine { depth: 8, index: 0, text: String::from("Pop") });
}

#[test]
fn nesting_beyond_limit_fails_deterministically() {
    let mut inner: Vec<Instruction> = vec![other(1)];
    for _ in 0..70 {
        inner = vec![function("deep", &[], inner, 5)];
    }
    assert_eq!(render_actions(&inner), Err(DisasmError::NestingLimit));
}

#[test]
fn nesting_within_limit_succeeds() {
    let mut inner: Vec<Instruction> = vec![other(1)];
    for _ in 0..10 {
        inner = vec![function("deep", &[], inner, 5)];
    }
    let lines = render_actions(&inner).unwrap();
    assert_eq!(lines.len(), 11);
    assert_eq!(lines[10], TraceLine::OtherLine { depth: 44, index: 0, text: String::from("Pop") });
}

#[test]
fn empty_list_renders_no_lines() {
    let list: Vec<Instruction> = Vec::new();
    assert_eq!(render_actions(&list), Ok(Vec::new()));
}

#[test]
fn branch_to_list_start_is_not_a_boundary() {
    // No instruction ends at offset 0, so a branch landing there fails:
    // the position table keys are the end offsets alone.
    let list = vec![other(1), Instruction { op: Opcode::Branch(-3), size: 2 }];
    assert_eq!(render_actions(&list), Err(DisasmError::BranchTarget { index: 1 }));
}
