use proto_ui::codec::{
    Display, DisplayInput, FlexDirection, FlexDirectionInput, Scalar, UiRect, UiRectInput, Val,
    ValInput,
};
use proto_ui::style::{GridPlacement, JustifySelf, Style, StyleInput};

fn s(x: f32) -> Scalar {
    Scalar { bits: x.to_bits() }
}

#[test]
fn style_default_input_converts_to_default_style() {
    let c: Style<u8, u16> = Style::from(StyleInput::default());
    assert_eq!(c, Style::default());
    assert_eq!(c.display, Display::Flex);
    assert_eq!(c.flex_shrink, s(1.0));
    assert_eq!(c.flex_grow, s(0.0));
    assert_eq!(c.row_gap, Val::Px(s(0.0)));
    assert_eq!(c.width, Val::Auto);
    assert_eq!(c.grid_row, GridPlacement { start: None, span: Some(1), end: None });
    assert!(c.grid_template_rows.is_empty());
}

#[test]
fn style_converts_field_by_field() {
    let mut i: StyleInput<u8, u16> = StyleInput::default();
    i.display = DisplayInput::Excluded;
    i.flex_direction = FlexDirectionInput::ColumnReverse;
    i.margin = UiRectInput {
        left: ValInput::Px(s(4.0)),
        right: ValInput::Auto,
        top: ValInput::Percent(s(10.0)),
        bottom: ValInput::Undefined,
    };
    i.flex_basis = ValInput::Percent(s(25.0));
    i.aspect_ratio = Some(s(1.5));
    i.justify_self = JustifySelf::Center;
    i.width = Val::Px(s(300.0));
    let c = Style::from(i.clone());
    assert_eq!(c.display, Display::Excluded);
    assert_eq!(c.flex_direction, FlexDirection::ColumnReverse);
    assert_eq!(c.margin, UiRect::from(i.margin));
    assert_eq!(c.margin.top, Val::Percent(s(10.0)));
    assert_eq!(c.flex_basis, Val::Percent(s(25.0)));
    assert_eq!(c.aspect_ratio, Some(s(1.5)));
    assert_eq!(c.justify_self, JustifySelf::Center);
    assert_eq!(c.width, Val::Px(s(300.0)));
    assert_eq!(StyleInput::from(c), i);
}

#[test]
fn style_track_lists_keep_length_and_order() {
    let mut i: StyleInput<u8, u16> = StyleInput::default();
    i.grid_template_rows = vec![3, 1, 2];
    i.grid_template_columns = vec![];
    i.grid_auto_rows = vec![9, 8];
    i.grid_auto_columns = vec![7];
    let c = Style::from(i);
    assert_eq!(c.grid_template_rows, vec![3, 1, 2]);
    assert!(c.grid_template_columns.is_empty());
    assert_eq!(c.grid_auto_rows, vec![9, 8]);
    assert_eq!(c.grid_auto_columns, vec![7]);
}
