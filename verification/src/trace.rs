//! The rendered output unit: one trace line with its indentation depth,
//! instruction index and variant-specific description, together with the
//! mathematical twin each line is specified through.
use vstd::prelude::*;
use crate::model::Param;
use crate::model::Preload;

verus! {

/// A push operand after pool resolution: either the string looked up at a
/// pool position, or an operand displayed verbatim.
#[derive(Debug, PartialEq, Eq)]
pub enum ResolvedValue {
    FromPool(String),
    Verbatim(String),
}

/// Mathematical twin of [`ResolvedValue`].
pub ghost enum ResolvedValueV {
    FromPool(Seq<char>),
    Verbatim(Seq<char>),
}

impl DeepView for ResolvedValue {
    type V = ResolvedValueV;

    open spec fn deep_view(&self) -> ResolvedValueV {
        match *self {
            ResolvedValue::FromPool(s) => ResolvedValueV::FromPool(s@),
            ResolvedValue::Verbatim(s) => ResolvedValueV::Verbatim(s@),
        }
    }
}

/// Mathematical twin of [`Param`].
pub ghost struct ParamV {
    pub name: Seq<char>,
    pub register: Option<u8>,
}

impl DeepView for Param {
    type V = ParamV;

    open spec fn deep_view(&self) -> ParamV {
        ParamV { name: self.name@, register: self.register }
    }
}

impl DeepView for Preload {
    type V = Preload;

    open spec fn deep_view(&self) -> Preload {
        *self
    }
}

/// One rendered trace line. `depth` is the number of indentation columns
/// the line is printed under; `index` is the position of the instruction
/// the line describes within its own list. The four `Function2*` detail
/// lines follow their header line and carry no instruction index.
#[derive(Debug, PartialEq, Eq)]
pub enum TraceLine {
    PoolLine { depth: usize, index: usize },
    PushLine { depth: usize, index: usize, values: Vec<ResolvedValue> },
    CondBranchLine { depth: usize, index: usize, dest: usize },
    BranchLine { depth: usize, index: usize, dest: usize },
    FunctionLine { depth: usize, index: usize, name: String, params: Vec<String> },
    Function2Line { depth: usize, index: usize },
    Function2NameLine { depth: usize, name: String },
    Function2ParamsLine { depth: usize, params: Vec<Param> },
    Function2PreloadsLine { depth: usize, preloads: Vec<Preload> },
    OtherLine { depth: usize, index: usize, text: String },
}

/// Mathematical twin of [`TraceLine`].
pub ghost enum TraceLineV {
    PoolLine { depth: int, index: int },
    PushLine { depth: int, index: int, values: Seq<ResolvedValueV> },
    CondBranchLine { depth: int, index: int, dest: int },
    BranchLine { depth: int, index: int, dest: int },
    FunctionLine { depth: int, index: int, name: Seq<char>, params: Seq<Seq<char>> },
    Function2Line { depth: int, index: int },
    Function2NameLine { depth: int, name: Seq<char> },
    Function2ParamsLine { depth: int, params: Seq<ParamV> },
    Function2PreloadsLine { depth: int, preloads: Seq<Preload> },
    OtherLine { depth: int, index: int, text: Seq<char> },
}

impl DeepView for TraceLine {
    type V = TraceLineV;

    open spec fn deep_view(&self) -> TraceLineV {
        match *self {
            TraceLine::PoolLine { depth, index } => TraceLineV::PoolLine {
                depth: depth as int,
                index: index as int,
            },
            TraceLine::PushLine { depth, index, values } => TraceLineV::PushLine {
                depth: depth as int,
                index: index as int,
                values: values.deep_view(),
            },
            TraceLine::CondBranchLine { depth, index, dest } => TraceLineV::CondBranchLine {
                depth: depth as int,
                index: index as int,
                dest: dest as int,
            },
            TraceLine::BranchLine { depth, index, dest } => TraceLineV::BranchLine {
                depth: depth as int,
                index: index as int,
                dest: dest as int,
            },
            TraceLine::FunctionLine { depth, index, name, params } => TraceLineV::FunctionLine {
                depth: depth as int,
                index: index as int,
                name: name@,
                params: params.deep_view(),
            },
            TraceLine::Function2Line { depth, index } => TraceLineV::Function2Line {
                depth: depth as int,
                index: index as int,
            },
            TraceLine::Function2NameLine { depth, name } => TraceLineV::Function2NameLine {
                depth: depth as int,
                name: name@,
            },
            TraceLine::Function2ParamsLine { depth, params } => TraceLineV::Function2ParamsLine {
                depth: depth as int,
                params: params.deep_view(),
            },
            TraceLine::Function2PreloadsLine { depth, preloads } => (
                TraceLineV::Function2PreloadsLine {
                    depth: depth as int,
                    preloads: preloads.deep_view(),
                }
            ),
            TraceLine::OtherLine { depth, index, text } => TraceLineV::OtherLine {
                depth: depth as int,
                index: index as int,
                text: text@,
            },
        }
    }
}

/// The indentation depth a trace line is printed under.
pub open spec fn line_depth(line: TraceLineV) -> int {
    match line {
        TraceLineV::PoolLine { depth, .. } => depth,
        TraceLineV::PushLine { depth, .. } => depth,
        TraceLineV::CondBranchLine { depth, .. } => depth,
        TraceLineV::BranchLine { depth, .. } => depth,
        TraceLineV::FunctionLine { depth, .. } => depth,
        TraceLineV::Function2Line { depth, .. } => depth,
        TraceLineV::Function2NameLine { depth, .. } => depth,
        TraceLineV::Function2ParamsLine { depth, .. } => depth,
        TraceLineV::Function2PreloadsLine { depth, .. } => depth,
        TraceLineV::OtherLine { depth, .. } => depth,
    }
}

} // verus!
