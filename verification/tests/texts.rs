use lightbeam::{
    dis, BrTarget, BrTargetDrop, DropRange, Listing, MemoryImmediate, NameTag, NumCallers, OpSig,
    Operator, Params, SigT, Signedness, SignfulInt, SignlessType, Size, SourceLoc, Targets, Type,
    Value, WasmLabel, WithLoc,
};

const I32: SignlessType = Type::Int(Size::_32);
const I64: SignlessType = Type::Int(Size::_64);
const F32: SignlessType = Type::Float(Size::_32);
const F64: SignlessType = Type::Float(Size::_64);

fn text(op: Operator<WasmLabel>) -> String {
    op.text("")
}

#[test]
fn labels_and_targets_have_their_texts() {
    assert_eq!(BrTarget::<WasmLabel>::Return.text(), ".return");
    assert_eq!(BrTarget::Label((7, NameTag::Header)).text(), ".L7");
    assert_eq!(BrTarget::Label((12, NameTag::Else)).text(), ".L12_else");
    assert_eq!(BrTarget::Label((0, NameTag::End)).text(), ".L0_end");
    assert_eq!(BrTarget::Label((4294967295, NameTag::Internal)).text(), ".INTERNAL4294967295");
    let dropping =
        BrTargetDrop { target: BrTarget::Label((3, NameTag::End)), to_drop: Some(DropRange::new(1, 4)) };
    assert_eq!(dropping.text(), "(.L3_end, drop 1..=4)");
}

#[test]
fn string_labels_have_their_texts() {
    assert_eq!(BrTarget::Label("loop").text(), ".Lloop");
    assert_eq!(BrTarget::<&str>::Return.text(), ".return");
    let target = BrTargetDrop { target: BrTarget::Label("exit"), to_drop: Some(DropRange::new(0, 0)) };
    assert_eq!(target.text(), "(.Lexit, drop 0..=0)");
}

#[test]
fn control_operators_have_their_texts() {
    assert_eq!(text(Operator::Unreachable), "unreachable");
    assert_eq!(text(Operator::Start((2, NameTag::Else))), "start .L2_else:");
    assert_eq!(
        text(Operator::Declare {
            label: (1, NameTag::Header),
            params: Params::new(vec![I32, F64]),
            has_backwards_callers: true,
            num_callers: NumCallers::Many,
        }),
        "def .L1 :: [i32, f64] has_backwards_callers num_callers=??"
    );
    assert_eq!(
        text(Operator::Declare {
            label: (1, NameTag::End),
            params: Params::new(vec![]),
            has_backwards_callers: false,
            num_callers: NumCallers::One,
        }),
        "def .L1_end :: [] num_callers=1"
    );
    assert_eq!(text(Operator::End(Targets::to(BrTarget::Return))), "end .return");
    assert_eq!(
        text(Operator::End(Targets {
            targets: vec![
                BrTargetDrop { target: BrTarget::Label((0, NameTag::End)), to_drop: None },
                BrTargetDrop {
                    target: BrTarget::Label((1, NameTag::Header)),
                    to_drop: Some(DropRange::new(0, 0)),
                },
            ],
            default: BrTargetDrop { target: BrTarget::Return, to_drop: None },
        })),
        "end [.L0_end, (.L1, drop 0..=0)], .return"
    );
    assert_eq!(text(Operator::Call { function_index: 9 }), "call 9");
    assert_eq!(text(Operator::CallIndirect { type_index: 1, table_index: 0 }), "call_indirect");
}

#[test]
fn drop_leaves_out_the_top_of_the_stack() {
    assert_eq!(text(Operator::Drop(DropRange::new(0, 0))), "drop");
    assert_eq!(text(Operator::Drop(DropRange::new(3, 3))), "drop 3");
    assert_eq!(text(Operator::Drop(DropRange::new(1, 5))), "drop 1..=5");
}

#[test]
fn constants_have_their_digits_and_types() {
    assert_eq!(text(Operator::Const(Value::I32(-7))), "const -7i32");
    assert_eq!(text(Operator::Const(Value::I32(i32::MIN))), "const -2147483648i32");
    assert_eq!(text(Operator::Const(Value::I64(i64::MAX))), "const 9223372036854775807i64");
    assert_eq!(text(Operator::Const(Value::I64(0))), "const 0i64");
    let float: Operator<WasmLabel> = Operator::Const(Value::F32(lightbeam::Ieee32::from_bits(0)));
    assert_eq!(float.text("1.5"), "const 1.5f32");
    let float: Operator<WasmLabel> = Operator::Const(Value::F64(lightbeam::Ieee64::from_bits(0)));
    assert_eq!(float.text("NaN"), "const NaNf64");
}

#[test]
fn typed_operators_have_their_texts() {
    let memarg = MemoryImmediate { flags: 2, offset: 16 };
    let signed32 = SignfulInt(Signedness::Signed, Size::_32);
    let unsigned64 = SignfulInt(Signedness::Unsigned, Size::_64);
    assert_eq!(text(Operator::Load { ty: F32, memarg }), "f32.load 2, 16");
    assert_eq!(text(Operator::Load8 { ty: unsigned64, memarg }), "u64.load8 2, 16");
    assert_eq!(text(Operator::Load32 { sign: Signedness::Signed, memarg }), "i64.load32 2, 16");
    assert_eq!(text(Operator::Store { ty: I64, memarg }), "i64.store 2, 16");
    assert_eq!(text(Operator::Store16 { ty: Size::_32, memarg }), "u32.store16 2, 16");
    assert_eq!(text(Operator::Store32 { memarg }), "u64.store32 2, 16");
    assert_eq!(text(Operator::MemoryGrow { reserved: 0 }), "memory.grow");
    assert_eq!(text(Operator::Eq(I32)), "i32.eq");
    assert_eq!(text(Operator::Eqz(Size::_64)), "u64.eqz");
    assert_eq!(text(Operator::Lt(Type::Int(signed32))), "i32.lt");
    assert_eq!(text(Operator::Ge(Type::Float(Size::_64))), "f64.ge");
    assert_eq!(text(Operator::Div(Type::Int(unsigned64))), "u64.div");
    assert_eq!(text(Operator::Rem(signed32)), "i32.rem");
    assert_eq!(text(Operator::Rotl(Size::_32)), "u32.rotl");
    assert_eq!(text(Operator::Copysign(Size::_32)), "f32.copysign");
    assert_eq!(text(Operator::Nearest(Size::_64)), "f64.nearest");
    assert_eq!(text(Operator::I32WrapFromI64), "i32.wrap_from.i64");
    assert_eq!(
        text(Operator::ITruncFromF { input_ty: Size::_64, output_ty: signed32 }),
        "i32.truncate_from.f64"
    );
    assert_eq!(
        text(Operator::FConvertFromI { input_ty: unsigned64, output_ty: Size::_32 }),
        "f32.convert_from.u64"
    );
    assert_eq!(text(Operator::Extend32 { sign: Signedness::Unsigned }), "u64.extend_from.u32");
    assert_eq!(text(Operator::Extend8 { size: Size::_64 }), "i64.extend_from.i8");
    assert_eq!(text(Operator::Pick(3)), "pick 3");
    assert_eq!(text(Operator::GlobalSet(11)), "global.set 11");
}

#[test]
fn signature_has_its_text() {
    let sig = OpSig::new(vec![SigT::T, SigT::T, SigT::Concrete(I32)], vec![SigT::T]);
    assert_eq!(sig.text(), "({any}, {any}, i32) -> ({any})");
    assert_eq!(OpSig::none().text(), "() -> ()");
    assert_eq!(OpSig::new(vec![SigT::Concrete(F64)], vec![]).text(), "(f64) -> ()");
}

#[test]
fn listing_indents_all_but_labels_and_declarations() {
    let microwasm: Vec<Operator<WasmLabel>> = vec![
        Operator::Declare {
            label: (0, NameTag::End),
            params: Params::new(vec![I32]),
            has_backwards_callers: false,
            num_callers: NumCallers::Many,
        },
        Operator::Const(Value::F64(lightbeam::Ieee64::from_bits(0x4000_0000_0000_0000))),
        Operator::Const(Value::I32(0)),
        Operator::End(Targets::to(BrTarget::Label((0, NameTag::End)))),
        Operator::Start((0, NameTag::End)),
    ];
    let floats = vec![String::new(), "2".to_string()];
    let listing = dis("demo", &microwasm, &floats);
    assert_eq!(
        listing,
        ".fn_demo:\n\
         def .L0_end :: [i32] num_callers=??\n      \
         const 2f64\n      \
         const 0i32\n      \
         end .L0_end\n\
         start .L0_end:\n"
    );
}

#[test]
fn source_position_is_shown_in_base_sixteen() {
    assert_eq!(SourceLoc::default().text(), "@-");
    assert_eq!(SourceLoc::new(0).text(), "@0000");
    assert_eq!(SourceLoc::new(16).text(), "@0010");
    assert_eq!(SourceLoc::new(0xabcdef).text(), "@abcdef");
    assert_eq!(SourceLoc::new(0xfffe).text(), "@fffe");
}

#[test]
fn lines_of_a_listing_have_their_places() {
    let line = |op: Operator<WasmLabel>, offset: SourceLoc| {
        Listing::Op(WithLoc { op, offset }).text("2.5")
    };
    assert_eq!(Listing::<WasmLabel>::Function(3).text(""), "start .Fn3:");
    assert_eq!(line(Operator::Start((1, NameTag::End)), SourceLoc::new(9)), "start .L1_end:");
    assert_eq!(
        line(Operator::block(Params::new(vec![]), (1, NameTag::Header)), SourceLoc::new(9)),
        "     \tdef .L1 :: [] num_callers=1"
    );
    assert_eq!(line(Operator::Select, SourceLoc::new(0x2a)), "@002a\t  select");
    assert_eq!(line(Operator::Select, SourceLoc::default()), "     \t  select");
    assert_eq!(
        line(Operator::Const(Value::F32(lightbeam::Ieee32::from_bits(0))), SourceLoc::new(1)),
        "@0001\t  const 2.5f32"
    );
}
