use swf_disasm::model::Instruction;
use swf_disasm::model::Opcode;
use swf_disasm::model::DisasmError;
use swf_disasm::trace::TraceLine;
use swf_disasm::walker::ButtonAction;
use swf_disasm::walker::OutputItem;
use swf_disasm::walker::Tag;
use swf_disasm::walker::disassemble_movie;

fn other(size: usize) -> Instruction {
    Instruction { op: Opcode::Other(String::from("Stop")), size }
}

#[test]
fn root_timeline_frames_are_counted_from_one() {
    let tags = vec![
        Tag::DoAction(vec![other(1)]),
        Tag::ShowFrame,
        Tag::ShowFrame,
        Tag::DoAction(vec![other(2)]),
        Tag::Other,
    ];
    let out = disassemble_movie(&tags).unwrap();
    assert_eq!(
        out,
        vec![
            OutputItem::RootHeader,
            OutputItem::FrameHeader { frame: 1 },
            OutputItem::Trace(TraceLine::OtherLine {
                depth: 4,
                index: 0,
                text: String::from("Stop"),
            }),
            OutputItem::FrameHeader { frame: 3 },
            OutputItem::Trace(TraceLine::OtherLine {
                depth: 4,
                index: 0,
                text: String::from("Stop"),
            }),
        ]
    );
}

#[test]
fn sprite_gets_its_own_frame_counter() {
    let tags = vec![
        Tag::ShowFrame,
        Tag::DefineSprite {
            id: 9,
            tags: vec![Tag::DoAction(vec![other(1)]), Tag::ShowFrame],
        },
    ];
    let out = disassemble_movie(&tags).unwrap();
    assert_eq!(
        out,
        vec![
            OutputItem::RootHeader,
            OutputItem::SpriteHeader { id: 9 },
            OutputItem::FrameHeader { frame: 1 },
            OutputItem::Trace(TraceLine::OtherLine {
                depth: 4,
                index: 0,
                text: String::from("Stop"),
            }),
        ]
    );
}

#[test]
fn button_entries_keep_their_condition_labels() {
    let tags = vec![Tag::DefineButton {
        id: 3,
        actions: vec![
            ButtonAction { conditions: String::from("over_down_to_over_up"), list: vec![other(1)] },
            ButtonAction { conditions: String::from("idle_to_over_up"), list: vec![] },
        ],
    }];
    let out = disassemble_movie(&tags).unwrap();
    assert_eq!(
        out,
        vec![
            OutputItem::RootHeader,
            OutputItem::ButtonHeader { id: 3 },
            OutputItem::ButtonCondHeader { conditions: String::from("over_down_to_over_up") },
            OutputItem::Trace(TraceLine::OtherLine {
                depth: 4,
                index: 0,
                text: String::from("Stop"),
            }),
            OutputItem::ButtonCondHeader { conditions: String::from("idle_to_over_up") },
        ]
    );
}

#[test]
fn structural_error_anywhere_aborts_the_run() {
    let tags = vec![
        Tag::DoAction(vec![other(1)]),
        Tag::DefineSprite {
            id: 1,
            tags: vec![Tag::DoAction(vec![Instruction {
                op: Opcode::CondBranch(99),
                size: 1,
            }])],
        },
    ];
    assert_eq!(disassemble_movie(&tags), Err(DisasmError::BranchTarget { index: 0 }));
}

#[test]
fn frame_and_definition_passes_keep_tag_order() {
    // All root frames come first, then sprites and buttons in tag order,
    // as one walk of the root timeline followed by one over definitions.
    let tags = vec![
        Tag::DefineSprite { id: 2, tags: vec![] },
        Tag::DoAction(vec![other(1)]),
    ];
    let out = disassemble_movie(&tags).unwrap();
    assert_eq!(out[0], OutputItem::RootHeader);
    assert_eq!(out[1], OutputItem::FrameHeader { frame: 1 });
    assert_eq!(
        out[2],
        OutputItem::Trace(TraceLine::OtherLine { depth: 4, index: 0, text: String::from("Stop") })
    );
    assert_eq!(out[3], OutputItem::SpriteHeader { id: 2 });
    assert_eq!(out.len(), 4);
}

#[test]
fn sprite_nested_inside_sprite_is_walked_too() {
    let inner = Tag::DefineSprite { id: 8, tags: vec![Tag::DoAction(vec![other(1)])] };
    let tags = vec![Tag::DefineSprite { id: 7, tags: vec![inner] }];
    let out = disassemble_movie(&tags).unwrap();
    assert_eq!(
        out,
        vec![
            OutputItem::RootHeader,
            OutputItem::SpriteHeader { id: 7 },
            OutputItem::SpriteHeader { id: 8 },
            OutputItem::FrameHeader { frame: 1 },
            OutputItem::Trace(TraceLine::OtherLine {
                depth: 4,
                index: 0,
                text: String::from("Stop"),
            }),
        ]
    );
}
