//! The core of a single-pass baseline compiler for WebAssembly function bodies.
//!
//! A function is compiled in one forward pass, in two stages:
//!
//! - *Lowering* ([`MicrowasmConv`]) rewrites the structured control flow of
//!   Wasm into a flat form: operators on a value stack, blocks that are
//!   declared before anything branches to them, and branches that say which
//!   stack slots to drop on the way. [`lower`] says what lowering does as a
//!   function on plain values, and [`discipline`] proves the discipline of the
//!   labels that it emits.
//! - *Translation* ([`Driver`]) takes the flat form in its order and keeps the
//!   table of declared blocks: how many branches reach each block and in what
//!   layout its values arrive. It brings the layouts of the targets of each
//!   branch together and puts an adaptor block on an edge that cannot agree.
//!   The driver emits no code itself: for each event it says what the backend
//!   has to do next. [`translate`] says what the driver does, and [`laws`]
//!   holds what follows from that.
//!
//! Function bodies are read with `wasmparser` ([`reader`]); the labels and
//! offsets of the assembler come from `dynasmrt` ([`backend`]).

pub mod backend;
pub mod blocks;
pub mod conv;
pub mod discipline;
pub mod driver;
pub mod error;
pub mod frames;
pub mod laws;
pub mod lower;
pub mod module;
pub mod operator;
pub mod plain;
pub mod primitive;
pub mod reader;
pub mod reconcile;
pub mod sig;
pub mod sinks;
pub mod text;
pub mod translate;
pub mod types;
pub mod wasm;

pub use backend::{
    BrAction, CCLoc, CallingConvention, Label, Locs, MaybeCCLoc, StackDepth, Target, TrapReason,
    ValueLocation, GPR,
};
pub use blocks::{Block, BlockTable};
pub use conv::MicrowasmConv;
pub use driver::{Action, Driver, Event, Listing};
pub use error::{error, Error, ErrorKind};
pub use module::{Function, ModuleContext, Signature};
pub use operator::{
    BrTarget, BrTargetDrop, DropRange, MakeInternalLabel, MemoryImmediate, NameTag, NumCallers,
    Operator, Params, SourceLoc, Targets, WasmLabel, WithLoc,
};
pub use primitive::Primitive;
pub use sig::{OpSig, SigT};
pub use sinks::{NullOffsetSink, OffsetSink};
pub use text::{dis, LabelText};
pub use types::{
    Ieee32, Ieee64, IntoType, Signedness, SignfulInt, SignfulType, SignlessType, Size, Type, Value,
};
pub use wasm::{BrTable, FunctionBody, TypeOrFuncType, WasmOperator, WasmType};
