//! The structure walker: locates every instruction list embedded in a
//! movie's tag tree - the root timeline, nested sprite timelines and
//! button definitions - labels each with its owning context and frame
//! number, and hands each to the renderer with a fresh pool.
use vstd::prelude::*;
use crate::model::DisasmError;
use crate::model::Instruction;
use crate::model::wf_list;
use crate::render::render_actions;
use crate::render::spec_render;
use crate::trace::TraceLine;
use crate::trace::TraceLineV;
use crate::BASE_INDENT;
use crate::NESTING_LIMIT;

verus! {

/// One tag of a timeline: the kinds the walker reads, with every other
/// tag collapsed to `Other`. Instruction-bearing tags hold their list
/// already decoded.
#[derive(Debug, PartialEq, Eq)]
pub enum Tag {
    ShowFrame,
    DoAction(Vec<Instruction>),
    DefineSprite { id: u16, tags: Vec<Tag> },
    DefineButton { id: u16, actions: Vec<ButtonAction> },
    Other,
}

/// One action entry of a button: its trigger-condition set, already
/// rendered to text for display, and its decoded instruction list.
#[derive(Debug, PartialEq, Eq)]
pub struct ButtonAction {
    pub conditions: String,
    pub list: Vec<Instruction>,
}

/// One line of the whole disassembly: a context header or a trace line.
#[derive(Debug, PartialEq, Eq)]
pub enum OutputItem {
    RootHeader,
    FrameHeader { frame: usize },
    SpriteHeader { id: u16 },
    ButtonHeader { id: u16 },
    ButtonCondHeader { conditions: String },
    Trace(TraceLine),
}

/// Mathematical twin of [`OutputItem`].
pub ghost enum OutputItemV {
    RootHeader,
    FrameHeader { frame: int },
    SpriteHeader { id: u16 },
    ButtonHeader { id: u16 },
    ButtonCondHeader { conditions: Seq<char> },
    Trace(TraceLineV),
}

impl DeepView for OutputItem {
    type V = OutputItemV;

    open spec fn deep_view(&self) -> OutputItemV {
        match *self {
            OutputItem::RootHeader => OutputItemV::RootHeader,
            OutputItem::FrameHeader { frame } => OutputItemV::FrameHeader {
                frame: frame as int,
            },
            OutputItem::SpriteHeader { id } => OutputItemV::SpriteHeader { id },
            OutputItem::ButtonHeader { id } => OutputItemV::ButtonHeader { id },
            OutputItem::ButtonCondHeader { conditions } => OutputItemV::ButtonCondHeader {
                conditions: conditions@,
            },
            OutputItem::Trace(line) => OutputItemV::Trace(line.deep_view()),
        }
    }
}

/// A well-formed tag sequence: short enough for a `usize` frame counter,
/// and every instruction list anywhere inside it well-formed.
pub open spec fn wf_tags(tags: Seq<Tag>) -> bool
    decreases tags, 1int,
{
    &&& tags.len() < usize::MAX
    &&& wf_tags_each(tags)
}

/// Every tag of `tags` is well-formed.
pub open spec fn wf_tags_each(tags: Seq<Tag>) -> bool
    decreases tags, 0int,
{
    if tags.len() == 0 {
        true
    } else {
        wf_tag(tags[0]) && wf_tags_each(tags.drop_first())
    }
}

/// Well-formedness of a single tag.
pub open spec fn wf_tag(t: Tag) -> bool
    decreases t,
{
    match t {
        Tag::DoAction(l) => wf_list(l@),
        Tag::DefineSprite { id: _, tags } => wf_tags(tags@),
        Tag::DefineButton { id: _, actions } => wf_actions_each(actions@),
        _ => true,
    }
}

/// Every button action entry of `actions` holds a well-formed list.
pub open spec fn wf_actions_each(actions: Seq<ButtonAction>) -> bool
    decreases actions,
{
    if actions.len() == 0 {
        true
    } else {
        wf_list(actions[0].list@) && wf_actions_each(actions.drop_first())
    }
}

/// Each tag of a well-formed tag sequence is itself well-formed.
pub proof fn lemma_wf_tags_index(tags: Seq<Tag>, i: int)
    requires
        wf_tags(tags),
        0 <= i < tags.len(),
    ensures
        wf_tag(tags[i]),
{
    lemma_wf_tags_each_index(tags, i);
}

proof fn lemma_wf_tags_each_index(tags: Seq<Tag>, i: int)
    requires
        wf_tags_each(tags),
        0 <= i < tags.len(),
    ensures
        wf_tag(tags[i]),
    decreases i,
{
    if i > 0 {
        assert(tags.drop_first()[i - 1] == tags[i]);
        lemma_wf_tags_each_index(tags.drop_first(), i - 1);
    }
}

/// Each entry of a well-formed button action list holds a well-formed
/// instruction list.
pub proof fn lemma_wf_actions_index(actions: Seq<ButtonAction>, j: int)
    requires
        wf_actions_each(actions),
        0 <= j < actions.len(),
    ensures
        wf_list(actions[j].list@),
    decreases j,
{
    if j > 0 {
        assert(actions.drop_first()[j - 1] == actions[j]);
        lemma_wf_actions_index(actions.drop_first(), j - 1);
    }
}

/// The trace of one instruction list as the walker requests it: from its
/// first instruction, with a fresh empty pool, at the base indent, with
/// the nesting guard armed.
pub open spec fn spec_rendered(list: Seq<Instruction>) -> Result<Seq<TraceLineV>, DisasmError> {
    spec_render(list, 0, Seq::empty(), BASE_INDENT as int, NESTING_LIMIT as nat)
}

/// Trace lines wrapped as output items.
pub open spec fn wrap_trace(lines: Seq<TraceLineV>) -> Seq<OutputItemV> {
    lines.map_values(|t: TraceLineV| OutputItemV::Trace(t))
}

/// The frame pass over one timeline, from tag `i` onward with the frame
/// counter at `frame`: each frame-boundary marker advances the counter,
/// and each instruction-bearing tag contributes a frame header followed
/// by its trace.
pub open spec fn spec_walk_frames(tags: Seq<Tag>, i: int, frame: int) -> Result<
    Seq<OutputItemV>,
    DisasmError,
>
    decreases tags.len() - i,
{
    if i < 0 || i >= tags.len() {
        Ok(Seq::empty())
    } else {
        match tags[i] {
            Tag::ShowFrame => spec_walk_frames(tags, i + 1, frame + 1),
            Tag::DoAction(l) => match spec_rendered(l@) {
                Ok(lines) => match spec_walk_frames(tags, i + 1, frame) {
                    Ok(tail) => Ok(
                        seq![OutputItemV::FrameHeader { frame }] + wrap_trace(lines) + tail,
                    ),
                    Err(e) => Err(e),
                },
                Err(e) => Err(e),
            },
            _ => spec_walk_frames(tags, i + 1, frame),
        }
    }
}

/// The entries of one button definition, from entry `j` onward: each is
/// a trigger-condition header followed by the trace of its list.
pub open spec fn spec_button_entries(actions: Seq<ButtonAction>, j: int) -> Result<
    Seq<OutputItemV>,
    DisasmError,
>
    decreases actions.len() - j,
{
    if j < 0 || j >= actions.len() {
        Ok(Seq::empty())
    } else {
        match spec_rendered(actions[j].list@) {
            Ok(lines) => match spec_button_entries(actions, j + 1) {
                Ok(tail) => Ok(
                    seq![OutputItemV::ButtonCondHeader { conditions: actions[j].conditions@ }]
                        + wrap_trace(lines) + tail,
                ),
                Err(e) => Err(e),
            },
            Err(e) => Err(e),
        }
    }
}

/// The definition pass over one timeline, from tag `i` onward: each
/// sprite contributes its header and, recursively, both passes over its
/// own tags with a fresh frame counter; each button contributes its
/// header and its entries. `fuel` guards against unboundedly nested
/// sprite definitions.
pub open spec fn spec_walk_defs(tags: Seq<Tag>, i: int, fuel: nat) -> Result<
    Seq<OutputItemV>,
    DisasmError,
>
    decreases fuel, tags.len() - i,
{
    if i < 0 || i >= tags.len() {
        Ok(Seq::empty())
    } else {
        match tags[i] {
            Tag::DefineSprite { id, tags: sub } => {
                if fuel == 0 {
                    Err(DisasmError::NestingLimit)
                } else {
                    match spec_walk_frames(sub@, 0, 1) {
                        Ok(fr) => match spec_walk_defs(sub@, 0, (fuel - 1) as nat) {
                            Ok(ds) => match spec_walk_defs(tags, i + 1, fuel) {
                                Ok(tail) => Ok(
                                    seq![OutputItemV::SpriteHeader { id }] + fr + ds + tail,
                                ),
                                Err(e) => Err(e),
                            },
                            Err(e) => Err(e),
                        },
                        Err(e) => Err(e),
                    }
                }
            },
            Tag::DefineButton { id, actions } => match spec_button_entries(actions@, 0) {
                Ok(entries) => match spec_walk_defs(tags, i + 1, fuel) {
                    Ok(tail) => Ok(seq![OutputItemV::ButtonHeader { id }] + entries + tail),
                    Err(e) => Err(e),
                },
                Err(e) => Err(e),
            },
            _ => spec_walk_defs(tags, i + 1, fuel),
        }
    }
}

/// The whole disassembly of a movie: the root header, the frame pass
/// over the root timeline starting at frame 1, then the definition pass
/// over the root timeline.
pub open spec fn spec_disassemble(tags: Seq<Tag>) -> Result<Seq<OutputItemV>, DisasmError> {
    match spec_walk_frames(tags, 0, 1) {
        Ok(fr) => match spec_walk_defs(tags, 0, NESTING_LIMIT as nat) {
            Ok(ds) => Ok(seq![OutputItemV::RootHeader] + fr + ds),
            Err(e) => Err(e),
        },
        Err(e) => Err(e),
    }
}

/// Maps a walking result to its mathematical twin.
pub open spec fn output_result_view(r: Result<Vec<OutputItem>, DisasmError>) -> Result<
    Seq<OutputItemV>,
    DisasmError,
> {
    match r {
        Ok(v) => Ok(v.deep_view()),
        Err(e) => Err(e),
    }
}

/// Wraps rendered trace lines as output items.
fn wrap_lines(lines: Vec<TraceLine>) -> (r: Vec<OutputItem>)
    ensures
        r.deep_view() == wrap_trace(lines.deep_view()),
{
    let mut lines = lines;
    let mut r: Vec<OutputItem> = Vec::new();
    let ghost glines = lines.deep_view();
    while lines.len() > 0
        invariant
            r.deep_view() + wrap_trace(lines.deep_view()) =~= wrap_trace(glines),
        decreases lines@.len(),
    {
        let ghost before = lines.deep_view();
        let line = lines.remove(0);
        proof {
            assert(lines.deep_view() =~= before.drop_first());
            assert(wrap_trace(before) =~= seq![OutputItemV::Trace(before[0])] + wrap_trace(
                before.drop_first(),
            ));
        }
        r.push(OutputItem::Trace(line));
    }
    proof {
        assert(wrap_trace(lines.deep_view()) =~= Seq::<OutputItemV>::empty());
        assert(r.deep_view() =~= wrap_trace(glines));
    }
    r
}

/// The frame pass over one timeline (see [`spec_walk_frames`]).
fn walk_frames(tags: &Vec<Tag>, i: usize, frame: usize) -> (r: Result<
    Vec<OutputItem>,
    DisasmError,
>)
    requires
        wf_tags(tags@),
        i <= tags@.len(),
        frame + tags@.len() - i <= usize::MAX,
    ensures
        output_result_view(r) == spec_walk_frames(tags@, i as int, frame as int),
    decreases tags@.len() - i,
{
    if i == tags.len() {
        let r: Vec<OutputItem> = Vec::new();
        assert(r.deep_view() =~= Seq::<OutputItemV>::empty());
        return Ok(r);
    }
    let ghost gi = i as int;
    proof {
        lemma_wf_tags_index(tags@, gi);
    }
    match &tags[i] {
        Tag::ShowFrame => walk_frames(tags, i + 1, frame + 1),
        Tag::DoAction(l) => match render_actions(l) {
            Ok(lines) => match walk_frames(tags, i + 1, frame) {
                Ok(mut tail) => {
                    let mut out: Vec<OutputItem> = Vec::new();
                    out.push(OutputItem::FrameHeader { frame });
                    let mut wrapped = wrap_lines(lines);
                    out.append(&mut wrapped);
                    out.append(&mut tail);
                    proof {
                        assert(out.deep_view() =~= spec_walk_frames(
                            tags@,
                            gi,
                            frame as int,
                        )->Ok_0);
                    }
                    Ok(out)
                },
                Err(e) => Err(e),
            },
            Err(e) => Err(e),
        },
        _ => walk_frames(tags, i + 1, frame),
    }
}

/// The entries of one button definition (see [`spec_button_entries`]).
fn walk_button(actions: &Vec<ButtonAction>, j: usize) -> (r: Result<Vec<OutputItem>, DisasmError>)
    requires
        wf_actions_each(actions@),
        j <= actions@.len(),
    ensures
        output_result_view(r) == spec_button_entries(actions@, j as int),
    decreases actions@.len() - j,
{
    if j == actions.len() {
        let r: Vec<OutputItem> = Vec::new();
        assert(r.deep_view() =~= Seq::<OutputItemV>::empty());
        return Ok(r);
    }
    let ghost gj = j as int;
    proof {
        lemma_wf_actions_index(actions@, gj);
    }
    match render_actions(&actions[j].list) {
        Ok(lines) => match walk_button(actions, j + 1) {
            Ok(mut tail) => {
                let mut out: Vec<OutputItem> = Vec::new();
                out.push(OutputItem::ButtonCondHeader {
                    conditions: actions[j].conditions.clone(),
                });
                let mut wrapped = wrap_lines(lines);
                out.append(&mut wrapped);
                out.append(&mut tail);
                proof {
                    assert(out.deep_view() =~= spec_button_entries(actions@, gj)->Ok_0);
                }
                Ok(out)
            },
            Err(e) => Err(e),
        },
        Err(e) => Err(e),
    }
}

/// The definition pass over one timeline (see [`spec_walk_defs`]).
fn walk_defs(tags: &Vec<Tag>, i: usize, fuel: usize) -> (r: Result<Vec<OutputItem>, DisasmError>)
    requires
        wf_tags(tags@),
        i <= tags@.len(),
    ensures
        output_result_view(r) == spec_walk_defs(tags@, i as int, fuel as nat),
    decreases fuel, tags@.len() - i,
{
    if i == tags.len() {
        let r: Vec<OutputItem> = Vec::new();
        assert(r.deep_view() =~= Seq::<OutputItemV>::empty());
        return Ok(r);
    }
    let ghost gi = i as int;
    proof {
        lemma_wf_tags_index(tags@, gi);
    }
    match &tags[i] {
        Tag::DefineSprite { id, tags: sub } => {
            if fuel == 0 {
                return Err(DisasmError::NestingLimit);
            }
            match walk_frames(sub, 0, 1) {
                Ok(mut fr) => match walk_defs(sub, 0, fuel - 1) {
                    Ok(mut ds) => match walk_defs(tags, i + 1, fuel) {
                        Ok(mut tail) => {
                            let mut out: Vec<OutputItem> = Vec::new();
                            out.push(OutputItem::SpriteHeader { id: *id });
                            out.append(&mut fr);
                            out.append(&mut ds);
                            out.append(&mut tail);
                            proof {
                                assert(out.deep_view() =~= spec_walk_defs(
                                    tags@,
                                    gi,
                                    fuel as nat,
                                )->Ok_0);
                            }
                            Ok(out)
                        },
                        Err(e) => Err(e),
                    },
                    Err(e) => Err(e),
                },
                Err(e) => Err(e),
            }
        },
        Tag::DefineButton { id, actions } => match walk_button(actions, 0) {
            Ok(mut entries) => match walk_defs(tags, i + 1, fuel) {
                Ok(mut tail) => {
                    let mut out: Vec<OutputItem> = Vec::new();
                    out.push(OutputItem::ButtonHeader { id: *id });
                    out.append(&mut entries);
                    out.append(&mut tail);
                    proof {
                        assert(out.deep_view() =~= spec_walk_defs(tags@, gi, fuel as nat)->Ok_0);
                    }
                    Ok(out)
                },
                Err(e) => Err(e),
            },
            Err(e) => Err(e),
        },
        _ => walk_defs(tags, i + 1, fuel),
    }
}

/// Disassembles a whole decoded movie: the root header line, every
/// instruction-bearing tag of the root timeline under its frame number,
/// then every sprite and button definition with its own traces. The
/// first structural error anywhere aborts the whole run with that error.
pub fn disassemble_movie(tags: &Vec<Tag>) -> (r: Result<Vec<OutputItem>, DisasmError>)
    requires
        wf_tags(tags@),
    ensures
        output_result_view(r) == spec_disassemble(tags@),
{
    match walk_frames(tags, 0, 1) {
        Ok(mut fr) => match walk_defs(tags, 0, NESTING_LIMIT) {
            Ok(mut ds) => {
                let mut out: Vec<OutputItem> = Vec::new();
                out.push(OutputItem::RootHeader);
                out.append(&mut fr);
                out.append(&mut ds);
                proof {
                    assert(out.deep_view() =~= spec_disassemble(tags@)->Ok_0);
                }
                Ok(out)
            },
            Err(e) => Err(e),
        },
        Err(e) => Err(e),
    }
}

} // verus!
