use proto_ui::codec::{
    AlignContent, AlignContentInput, AlignSelf, AlignSelfInput, Display, DisplayInput,
    JustifyContent, JustifyContentInput, Scalar, UiRect, UiRectInput, Val, ValInput,
};
use proto_ui::components::{
    BackgroundColor, BackgroundColorInput, Color, FocusPolicy, FocusPolicyInput, Interaction,
    InteractionInput, Node, NodeInput, Vec2, ZIndex, ZIndexInput,
};

fn s(x: f32) -> Scalar {
    Scalar { bits: x.to_bits() }
}

#[test]
fn every_align_content_variant_round_trips() {
    let all = [
        AlignContentInput::Start,
        AlignContentInput::End,
        AlignContentInput::FlexStart,
        AlignContentInput::FlexEnd,
        AlignContentInput::Center,
        AlignContentInput::Stretch,
        AlignContentInput::SpaceBetween,
        AlignContentInput::SpaceEvenly,
        AlignContentInput::SpaceAround,
    ];
    for i in all {
        let c = AlignContent::from(i);
        assert_eq!(AlignContentInput::from(c), i);
    }
    assert_eq!(AlignContent::from(AlignContentInput::SpaceEvenly), AlignContent::SpaceEvenly);
}

#[test]
fn justify_content_keeps_each_variant() {
    assert_eq!(JustifyContent::from(JustifyContentInput::SpaceAround), JustifyContent::SpaceAround);
    assert_eq!(JustifyContent::from(JustifyContentInput::SpaceEvenly), JustifyContent::SpaceEvenly);
    assert_eq!(JustifyContentInput::from(JustifyContent::Center), JustifyContentInput::Center);
}

#[test]
fn codec_defaults_match_host_defaults() {
    assert_eq!(AlignContent::from(AlignContentInput::default()), AlignContent::default());
    assert_eq!(AlignContent::default(), AlignContent::Stretch);
    assert_eq!(AlignSelf::from(AlignSelfInput::default()), AlignSelf::Auto);
    assert_eq!(Display::from(DisplayInput::default()), Display::Flex);
    assert_eq!(Display::from(DisplayInput::Excluded), Display::Excluded);
    assert_eq!(Val::from(ValInput::default()), Val::default());
    assert_eq!(UiRect::from(UiRectInput::default()), UiRect::default());
}

#[test]
fn val_payload_is_copied_verbatim() {
    let v = Val::from(ValInput::Px(s(12.5)));
    assert_eq!(v, Val::Px(s(12.5)));
    assert_eq!(ValInput::from(v), ValInput::Px(s(12.5)));
    let nan = Scalar { bits: 0x7fc0_0001 };
    assert_eq!(Val::from(ValInput::Percent(nan)), Val::Percent(nan));
    assert_eq!(Val::from(ValInput::Auto), Val::Auto);
    assert_eq!(Val::from(ValInput::Undefined), Val::Undefined);
}

#[test]
fn ui_rect_converts_each_side() {
    let i = UiRectInput {
        left: ValInput::Px(s(1.0)),
        right: ValInput::Percent(s(50.0)),
        top: ValInput::Auto,
        bottom: ValInput::Undefined,
    };
    let r = UiRect::from(i);
    assert_eq!(r.left, Val::Px(s(1.0)));
    assert_eq!(r.right, Val::Percent(s(50.0)));
    assert_eq!(r.top, Val::Auto);
    assert_eq!(r.bottom, Val::Undefined);
    assert_eq!(UiRectInput::from(r), i);
    assert_eq!(UiRect::default().left, Val::Px(Scalar { bits: 0 }));
}

#[test]
fn component_defaults_round_trip() {
    assert_eq!(FocusPolicy::from(FocusPolicyInput::default()), FocusPolicy::Pass);
    assert_eq!(Interaction::from(InteractionInput::default()), Interaction::Idle);
    assert_eq!(ZIndex::from(ZIndexInput::default()), ZIndex::Local(0));
    assert_eq!(Node::from(NodeInput::default()), Node::default());
    let white = Color { r: s(1.0), g: s(1.0), b: s(1.0), a: s(1.0) };
    assert_eq!(BackgroundColor::from(BackgroundColorInput::default()), BackgroundColor(white));
}

#[test]
fn z_index_keeps_variant_and_order_value() {
    assert_eq!(ZIndex::from(ZIndexInput::Global(-7)), ZIndex::Global(-7));
    assert_eq!(ZIndex::from(ZIndexInput::Local(i32::MAX)), ZIndex::Local(i32::MAX));
    assert_eq!(ZIndexInput::from(ZIndex::Global(3)), ZIndexInput::Global(3));
    assert_eq!(Interaction::from(InteractionInput::Hovered), Interaction::Hovered);
    assert_eq!(FocusPolicy::from(FocusPolicyInput::Block), FocusPolicy::Block);
}

#[test]
fn node_input_gives_zero_sized_node() {
    let n = Node::from(NodeInput);
    assert_eq!(n.calculated_size, Vec2 { x: s(0.0), y: s(0.0) });
}
