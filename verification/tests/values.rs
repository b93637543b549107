use lightbeam::blocks::{Block, BlockTable};
use lightbeam::frames::{ControlFrame, ControlFrameKind, ControlFrames};
use lightbeam::reconcile::{cc_to_param_locs, compare_rows, drop_elements};
use lightbeam::sig::{apply, OpSig, SigT};
use lightbeam::{
    BrTarget, CCLoc, DropRange, Function, Ieee32, Ieee64, IntoType, MakeInternalLabel,
    ModuleContext, NameTag, NullOffsetSink, NumCallers, OffsetSink, Operator, Params, Signature,
    SignlessType, Size, SourceLoc, Type, Value, ValueLocation, WasmLabel, WasmType, GPR,
};

const I32: SignlessType = Type::Int(Size::_32);
const I64: SignlessType = Type::Int(Size::_64);
const F32: SignlessType = Type::Float(Size::_32);
const F64: SignlessType = Type::Float(Size::_64);

#[test]
fn float_bits_round_trip() {
    assert_eq!(Ieee32::from_bits(0x7fc0_0001).to_bits(), 0x7fc0_0001);
    assert_eq!(Ieee64::from_bits(u64::MAX).to_bits(), u64::MAX);
}

#[test]
fn value_is_read_by_its_type() {
    assert_eq!(Value::I32(-5).as_i32(), Some(-5));
    assert_eq!(Value::I32(-5).as_i64(), None);
    assert_eq!(Value::I32(-5).as_int(), Some(-5));
    assert_eq!(Value::I64(1 << 40).as_int(), Some(1 << 40));
    assert_eq!(Value::F32(Ieee32::from_bits(1)).as_int(), None);
    assert_eq!(Value::F32(Ieee32::from_bits(1)).as_f32(), Some(Ieee32::from_bits(1)));
    assert_eq!(Value::F64(Ieee64::from_bits(2)).as_f64(), Some(Ieee64::from_bits(2)));
    assert_eq!(Value::F64(Ieee64::from_bits(2)).as_f32(), None);
}

#[test]
fn value_bytes_are_widened_by_type() {
    assert_eq!(Value::I32(-1).as_bytes(), -1);
    assert_eq!(Value::I64(i64::MIN).as_bytes(), i64::MIN);
    assert_eq!(Value::F32(Ieee32::from_bits(0xffff_ffff)).as_bytes(), 0xffff_ffff);
    assert_eq!(Value::F64(Ieee64::from_bits(0x8000_0000_0000_0000)).as_bytes(), i64::MIN);
    assert_eq!(Value::F64(Ieee64::from_bits(7)).as_bytes(), 7);
}

#[test]
fn value_has_its_type_and_default() {
    assert_eq!(Value::I32(1).type_(), I32);
    assert_eq!(Value::I64(1).type_(), I64);
    assert_eq!(Value::F32(Ieee32::from_bits(1)).type_(), F32);
    assert_eq!(Value::F64(Ieee64::from_bits(1)).type_(), F64);
    assert_eq!(Value::default_for_type(I32), Value::I32(0));
    assert_eq!(Value::default_for_type(I64), Value::I64(0));
    assert_eq!(Value::default_for_type(F32), Value::F32(Ieee32::from_bits(0)));
    assert_eq!(Value::default_for_type(F64), Value::F64(Ieee64::from_bits(0)));
}

#[test]
fn value_from_unsigned_keeps_the_bits() {
    assert_eq!(Value::from(u32::MAX), Value::I32(-1));
    assert_eq!(Value::from(u64::MAX), Value::I64(-1));
    assert_eq!(Value::from(7i32), Value::I32(7));
    assert_eq!(Value::from(7i64), Value::I64(7));
    assert_eq!(Value::from(Ieee32::from_bits(3)), Value::F32(Ieee32::from_bits(3)));
    assert_eq!(Value::from(Ieee64::from_bits(3)), Value::F64(Ieee64::from_bits(3)));
}

#[test]
fn rust_types_stand_for_ground_types() {
    assert_eq!(Type::for_::<i32>(), I32);
    assert_eq!(Type::for_::<u32>(), I32);
    assert_eq!(Type::for_::<i64>(), I64);
    assert_eq!(Type::for_::<u64>(), I64);
    assert_eq!(Type::for_::<Ieee32>(), F32);
    assert_eq!(Type::for_::<Ieee64>(), F64);
    assert_eq!(<i64 as IntoType<SignlessType>>::into_type(), I64);
}

#[test]
fn wasm_types_become_ground_types() {
    assert_eq!(Type::from_wasm(WasmType::I32), Ok(I32));
    assert_eq!(Type::from_wasm(WasmType::F64), Ok(F64));
    assert_eq!(Type::from_wasm_block(WasmType::EmptyBlockType), Ok(None));
    assert_eq!(Type::from_wasm_block(WasmType::I64), Ok(Some(I64)));
    assert_eq!(
        Type::from_wasm(WasmType::EmptyBlockType),
        Err(lightbeam::Error::Input("Invalid type".to_string()))
    );
    assert_eq!(
        Type::from_wasm_block(WasmType::FuncRef),
        Err(lightbeam::Error::Input("Invalid type".to_string()))
    );
}

#[test]
fn caller_count_saturates() {
    assert!(NumCallers::default().is_zero());
    assert_eq!(NumCallers::Zero.incremented(), NumCallers::One);
    assert_eq!(NumCallers::One.incremented(), NumCallers::Many);
    assert_eq!(NumCallers::Many.incremented(), NumCallers::Many);
    let mut n = NumCallers::Zero;
    n.inc();
    n.inc();
    n.inc();
    assert!(n.is_many());
    assert!(!n.is_zero());
    assert_eq!(NumCallers::One.max(NumCallers::Zero), NumCallers::One);
    assert_eq!(NumCallers::Zero.max(NumCallers::Many), NumCallers::Many);
}

#[test]
fn drop_range_counts_its_depths() {
    assert_eq!(DropRange::new(0, 0).count(), 1);
    assert_eq!(DropRange::new(2, 5).count(), 4);
    assert_eq!(DropRange::new(3, 2).count(), 0);
    assert_eq!(DropRange::new(0, u32::MAX).count(), 1 << 32);
}

#[test]
fn target_label_and_operator_kinds() {
    assert_eq!(BrTarget::<WasmLabel>::Return.label(), None);
    assert_eq!(BrTarget::Label((1, NameTag::End)).label(), Some(&(1, NameTag::End)));
    assert_eq!(BrTarget::from((1, NameTag::End)), BrTarget::Label((1, NameTag::End)));
    let start: Operator<WasmLabel> = Operator::Start((0, NameTag::Header));
    assert!(start.is_label());
    assert!(!start.is_block());
    let declare = Operator::block(Params::new(vec![I32]), (0, NameTag::Header));
    assert!(declare.is_block());
    assert_eq!(
        declare,
        Operator::Declare {
            label: (0, NameTag::Header),
            params: Params::new(vec![I32]),
            has_backwards_callers: false,
            num_callers: NumCallers::One,
        }
    );
    assert_eq!(
        Operator::loop_(Params::new(vec![]), (0, NameTag::Header)),
        Operator::Declare {
            label: (0, NameTag::Header),
            params: Params::new(vec![]),
            has_backwards_callers: true,
            num_callers: NumCallers::Many,
        }
    );
    assert_eq!(
        Operator::end_wasm_block(Params::new(vec![]), (0, NameTag::End)),
        Operator::Declare {
            label: (0, NameTag::End),
            params: Params::new(vec![]),
            has_backwards_callers: false,
            num_callers: NumCallers::Many,
        }
    );
    assert_eq!(Params::new(vec![I32, I64, F32]).len(), 3);
}

#[test]
fn internal_labels_are_drawn_in_order() {
    let first = <WasmLabel as MakeInternalLabel>::first_id();
    assert_eq!(first, 0);
    assert_eq!(WasmLabel::new_internal(first), Some(((0, NameTag::Internal), 1)));
    assert_eq!(WasmLabel::new_internal(41), Some(((41, NameTag::Internal), 42)));
    assert_eq!(WasmLabel::new_internal(u32::MAX), None);
}

#[test]
fn source_position_defaults_to_all_ones() {
    assert!(SourceLoc::default().is_default());
    assert_eq!(SourceLoc::default().bits(), u32::MAX);
    assert!(!SourceLoc::new(0).is_default());
    assert_eq!(SourceLoc::new(17).bits(), 17);
}

#[test]
fn null_sink_takes_offsets() {
    let mut sink = NullOffsetSink;
    sink.offset(SourceLoc::new(1), 16);
}

#[test]
fn signature_pops_inputs_and_pushes_outputs() {
    let mut stack = vec![F64, I32, I32];
    let sig = OpSig::new(vec![SigT::Concrete(I32), SigT::Concrete(I32)], vec![SigT::Concrete(I64)]);
    apply(&mut stack, &sig).unwrap();
    assert_eq!(stack, vec![F64, I64]);
    // The first output ends up on top.
    let two = OpSig::new(vec![], vec![SigT::Concrete(F32), SigT::Concrete(I32)]);
    apply(&mut stack, &two).unwrap();
    assert_eq!(stack, vec![F64, I64, I32, F32]);
}

#[test]
fn type_variable_is_bound_by_the_top_of_the_stack() {
    let select = OpSig::new(vec![SigT::T, SigT::T, SigT::Concrete(I32)], vec![SigT::T]);
    let mut stack = vec![I64, F32, F32, I32];
    apply(&mut stack, &select).unwrap();
    assert_eq!(stack, vec![I64, F32]);
    let mut mixed = vec![F32, F64, I32];
    let failed = apply(&mut mixed, &select).unwrap_err();
    assert_eq!(
        failed,
        lightbeam::Error::Microwasm(
            "Error in params (sig ({any}, {any}, i32) -> ({any})): expected f64, found f32"
                .to_string()
        )
    );
    assert_eq!(mixed, vec![F32, F64, I32]);
    let unbound = OpSig::new(vec![], vec![SigT::T]);
    let mut stack = vec![I32];
    assert_eq!(
        apply(&mut stack, &unbound),
        Err(lightbeam::Error::Microwasm("Type parameter was not set".to_string()))
    );
}

#[test]
fn frame_says_what_a_branch_drops() {
    let block = ControlFrame {
        id: 3,
        arguments: 2,
        returns: vec![I32],
        kind: ControlFrameKind::Block { needs_end_label: false },
    };
    // Four values above the two that the block was entered with; one is passed on.
    assert_eq!(block.to_drop(6), Some(DropRange::new(1, 3)));
    assert_eq!(block.to_drop(3), None);
    assert_eq!(block.to_drop(2), None);
    assert_eq!(block.to_drop(0), None);
    let function = ControlFrame {
        id: u32::MAX,
        arguments: 2,
        returns: vec![I32],
        kind: ControlFrameKind::Function,
    };
    assert_eq!(function.to_drop(6), Some(DropRange::new(1, 5)));
    assert_eq!(function.to_drop(1), None);
    assert_eq!(function.br_target(), BrTarget::Return);
    assert_eq!(block.br_target(), BrTarget::Label((3, NameTag::End)));
    let looping = ControlFrame { id: 4, arguments: 0, returns: vec![], kind: ControlFrameKind::Loop };
    assert_eq!(looping.br_target(), BrTarget::Label((4, NameTag::Header)));
    assert!(!looping.needs_end_label());
}

#[test]
fn frames_are_counted_from_the_innermost() {
    let mut frames = ControlFrames::new();
    assert!(frames.is_empty());
    assert!(frames.top().is_none());
    for id in 0..3 {
        frames.push(ControlFrame {
            id,
            arguments: 0,
            returns: vec![],
            kind: ControlFrameKind::Block { needs_end_label: false },
        });
    }
    assert_eq!(frames.get(0).unwrap().id, 2);
    assert_eq!(frames.get(2).unwrap().id, 0);
    assert!(frames.get(3).is_none());
    assert_eq!(frames.function_block().id, 0);
    frames.mark_branched_to(1);
    assert!(frames.get(1).unwrap().needs_end_label());
    assert!(!frames.get(0).unwrap().needs_end_label());
    assert_eq!(frames.pop().unwrap().id, 2);
    assert_eq!(frames.len(), 2);
}

#[test]
fn module_answers_by_index() {
    let module = ModuleContext {
        signatures: vec![
            Signature { params: vec![I32], returns: vec![] },
            Signature { params: vec![], returns: vec![F64] },
        ],
        functions: vec![
            Function { type_index: 1, defined_index: None },
            Function { type_index: 0, defined_index: Some(0) },
            Function { type_index: 5, defined_index: Some(1) },
        ],
        globals: vec![I64],
    };
    assert_eq!(module.signature(1).unwrap().returns, vec![F64]);
    assert!(module.signature(2).is_none());
    assert_eq!(module.func_type(0).unwrap().returns, vec![F64]);
    assert_eq!(module.func_type(1).unwrap().params, vec![I32]);
    assert!(module.func_type(2).is_none());
    assert!(module.func_type(3).is_none());
    assert_eq!(module.global_type(0), Some(I64));
    assert_eq!(module.global_type(1), None);
    assert_eq!(module.defined_func_index(0), None);
    assert_eq!(module.defined_func_index(2), Some(1));
    assert_eq!(module.func_index(0), Some(1));
    assert_eq!(module.func_index(1), Some(2));
    assert_eq!(module.func_index(2), None);
    assert_eq!(module.defined_func_type(0).unwrap().params, vec![I32]);
    assert!(module.defined_func_type(1).is_none());
}

#[test]
fn table_of_blocks_keeps_one_block_for_a_target() {
    let mut table: BlockTable<WasmLabel> = BlockTable::new();
    let key = BrTarget::Label((1, NameTag::End));
    assert!(!table.contains_key(&key));
    let block = |params| Block {
        label: BrTarget::Return,
        calling_convention: None,
        params,
        is_next: false,
        already_emitted: false,
        num_callers: NumCallers::One,
        actual_num_callers: NumCallers::Zero,
        has_backwards_callers: false,
    };
    table.insert(key, block(1));
    table.insert(BrTarget::Return, block(0));
    table.insert(key, block(2));
    assert_eq!(table.get(&key).unwrap().params, 2);
    assert_eq!(table.get(&BrTarget::Return).unwrap().params, 0);
    assert_eq!(table.remove(&key).unwrap().params, 2);
    assert!(table.get(&key).is_none());
    assert!(table.remove(&key).is_none());
    assert!(table.contains_key(&BrTarget::Return));
}

#[test]
fn layout_is_seen_through_what_a_branch_drops() {
    let a = ValueLocation::Reg(GPR::Rq(1));
    let b = ValueLocation::Stack(8);
    let c = ValueLocation::Reg(GPR::Rx(0));
    // Five values and the selector; the block sees three, the branch drops depths 1 and 2.
    let row = cc_to_param_locs(5, &vec![a, b, c], Some(DropRange::new(1, 2))).unwrap();
    assert_eq!(row, vec![Some(a), Some(b), None, None, Some(c), None]);
    let short = cc_to_param_locs(3, &vec![c], None).unwrap();
    assert_eq!(short, vec![None, None, Some(c), None]);
    assert_eq!(cc_to_param_locs(2, &vec![a, b, c], None), None);
    assert_eq!(cc_to_param_locs(3, &vec![a, b], Some(DropRange::new(0, 1))), None);

    let other = vec![Some(a), None, Some(b), None, Some(c), None];
    assert_eq!(compare_rows(&row, &other), (true, 3, 3));
    let differing = vec![Some(b), None, None, None, Some(c), None];
    assert_eq!(compare_rows(&row, &differing), (false, 3, 2));
}

#[test]
fn dropped_depths_leave_the_layout() {
    let locs: Vec<ValueLocation> = (0..5).map(|i| ValueLocation::Stack(8 * i)).collect();
    let mut all = locs.clone();
    drop_elements(&mut all, Some(DropRange::new(1, 2)));
    assert_eq!(all, vec![locs[0], locs[1], locs[4]]);
    let mut top = locs.clone();
    drop_elements(&mut top, Some(DropRange::new(0, 0)));
    assert_eq!(top, locs[..4].to_vec());
    let mut untouched = locs.clone();
    drop_elements(&mut untouched, Some(DropRange::new(2, 5)));
    assert_eq!(untouched, locs);
    drop_elements(&mut untouched, None);
    assert_eq!(untouched, locs);
    assert_eq!(CCLoc::try_from(ValueLocation::Stack(4)), Some(CCLoc::Stack(4)));
    assert_eq!(CCLoc::try_from(ValueLocation::Cond(1)), None);
    assert_eq!(CCLoc::try_from(ValueLocation::Immediate(Value::I32(1))), None);
}
