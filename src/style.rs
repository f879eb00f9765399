//! The layout component: its input type, with proxy fields where the host's own types
//! cannot be read from prototype data, and the field-by-field conversion.
use vstd::prelude::*;
use vstd::std_specs::convert::FromSpecImpl;

use crate::codec::{
    align_content_from_input, align_content_to_input, align_items_from_input,
    align_items_to_input, align_self_from_input, align_self_to_input, direction_from_input,
    direction_to_input, display_from_input, display_to_input, flex_direction_from_input,
    flex_direction_to_input, flex_wrap_from_input, flex_wrap_to_input, justify_content_from_input,
    justify_content_to_input, overflow_from_input, overflow_to_input, position_type_from_input,
    position_type_to_input, ui_rect_default, ui_rect_from_input, ui_rect_to_input, val_from_input,
    val_to_input, AlignContent, AlignContentInput, AlignItems, AlignItemsInput, AlignSelf,
    AlignSelfInput, Direction, DirectionInput, Display, DisplayInput, FlexDirection,
    FlexDirectionInput, FlexWrap, FlexWrapInput, JustifyContent, JustifyContentInput, Overflow,
    OverflowInput, PositionType, PositionTypeInput, Scalar, UiRect, UiRectInput, Val, ValInput,
};

verus! {

/// How a node places itself on the inline axis of a grid cell.
#[derive(Clone, Copy, Debug, PartialEq, Eq, Structural)]
pub enum JustifySelf {
    Auto,
    Start,
    End,
    Center,
    Baseline,
    Stretch,
}

/// How a grid container places its children on the inline axis.
#[derive(Clone, Copy, Debug, PartialEq, Eq, Structural)]
pub enum JustifyItems {
    Start,
    End,
    Center,
    Baseline,
    Stretch,
}

/// How items that are not placed explicitly flow into a grid.
#[derive(Clone, Copy, Debug, PartialEq, Eq, Structural)]
pub enum GridAutoFlow {
    Row,
    Column,
    RowDense,
    ColumnDense,
}

/// Where a node sits on one grid axis: start line, span and end line, each optional.
#[derive(Clone, Copy, Debug, PartialEq, Eq, Structural)]
pub struct GridPlacement {
    pub start: Option<i16>,
    pub span: Option<u16>,
    pub end: Option<i16>,
}

/// The host's default placement: automatic start, a span of one.
pub open spec fn grid_placement_default() -> GridPlacement {
    GridPlacement { start: None, span: Some(1), end: None }
}

impl Default for GridPlacement {
    fn default() -> (r: Self)
        ensures
            r == grid_placement_default(),
    {
        GridPlacement { start: None, span: Some(1), end: None }
    }
}

/// Input of [`Style`]. `T` is the host's grid track and `R` its repeated grid track;
/// both are taken from prototype data as they are.
#[derive(Clone, Debug, PartialEq)]
pub struct StyleInput<T, R> {
    pub display: DisplayInput,
    pub position_type: PositionTypeInput,
    pub overflow: OverflowInput,
    pub direction: DirectionInput,
    pub flex_direction: FlexDirectionInput,
    pub flex_wrap: FlexWrapInput,
    pub align_items: AlignItemsInput,
    pub align_self: AlignSelfInput,
    pub align_content: AlignContentInput,
    pub justify_content: JustifyContentInput,
    pub justify_self: JustifySelf,
    pub justify_items: JustifyItems,
    pub margin: UiRectInput,
    pub padding: UiRectInput,
    pub border: UiRectInput,
    pub flex_grow: Scalar,
    pub flex_shrink: Scalar,
    pub flex_basis: ValInput,
    pub aspect_ratio: Option<Scalar>,
    pub left: Val,
    pub right: Val,
    pub top: Val,
    pub bottom: Val,
    pub width: Val,
    pub min_width: Val,
    pub max_width: Val,
    pub height: Val,
    pub min_height: Val,
    pub max_height: Val,
    pub row_gap: Val,
    pub column_gap: Val,
    pub grid_auto_flow: GridAutoFlow,
    pub grid_template_rows: Vec<R>,
    pub grid_template_columns: Vec<R>,
    pub grid_auto_rows: Vec<T>,
    pub grid_auto_columns: Vec<T>,
    pub grid_row: GridPlacement,
    pub grid_column: GridPlacement,
}

/// The layout of a node.
#[derive(Clone, Debug, PartialEq)]
pub struct Style<T, R> {
    pub display: Display,
    pub position_type: PositionType,
    pub overflow: Overflow,
    pub direction: Direction,
    pub flex_direction: FlexDirection,
    pub flex_wrap: FlexWrap,
    pub align_items: AlignItems,
    pub align_self: AlignSelf,
    pub align_content: AlignContent,
    pub justify_content: JustifyContent,
    pub justify_self: JustifySelf,
    pub justify_items: JustifyItems,
    pub margin: UiRect,
    pub padding: UiRect,
    pub border: UiRect,
    pub flex_grow: Scalar,
    pub flex_shrink: Scalar,
    pub flex_basis: Val,
    pub aspect_ratio: Option<Scalar>,
    pub left: Val,
    pub right: Val,
    pub top: Val,
    pub bottom: Val,
    pub width: Val,
    pub min_width: Val,
    pub max_width: Val,
    pub height: Val,
    pub min_height: Val,
    pub max_height: Val,
    pub row_gap: Val,
    pub column_gap: Val,
    pub grid_auto_flow: GridAutoFlow,
    pub grid_template_rows: Vec<R>,
    pub grid_template_columns: Vec<R>,
    pub grid_auto_rows: Vec<T>,
    pub grid_auto_columns: Vec<T>,
    pub grid_row: GridPlacement,
    pub grid_column: GridPlacement,
}

/// The host layout that an input stands for: each field converted on its own, in
/// field order. Fields without a proxy are taken over as they are.
pub open spec fn style_from_input<T, R>(i: StyleInput<T, R>) -> Style<T, R> {
    Style {
        display: display_from_input(i.display),
        position_type: position_type_from_input(i.position_type),
        overflow: overflow_from_input(i.overflow),
        direction: direction_from_input(i.direction),
        flex_direction: flex_direction_from_input(i.flex_direction),
        flex_wrap: flex_wrap_from_input(i.flex_wrap),
        align_items: align_items_from_input(i.align_items),
        align_self: align_self_from_input(i.align_self),
        align_content: align_content_from_input(i.align_content),
        justify_content: justify_content_from_input(i.justify_content),
        justify_self: i.justify_self,
        justify_items: i.justify_items,
        margin: ui_rect_from_input(i.margin),
        padding: ui_rect_from_input(i.padding),
        border: ui_rect_from_input(i.border),
        flex_grow: i.flex_grow,
        flex_shrink: i.flex_shrink,
        flex_basis: val_from_input(i.flex_basis),
        aspect_ratio: i.aspect_ratio,
        left: i.left,
        right: i.right,
        top: i.top,
        bottom: i.bottom,
        width: i.width,
        min_width: i.min_width,
        max_width: i.max_width,
        height: i.height,
        min_height: i.min_height,
        max_height: i.max_height,
        row_gap: i.row_gap,
        column_gap: i.column_gap,
        grid_auto_flow: i.grid_auto_flow,
        grid_template_rows: i.grid_template_rows,
        grid_template_columns: i.grid_template_columns,
        grid_auto_rows: i.grid_auto_rows,
        grid_auto_columns: i.grid_auto_columns,
        grid_row: i.grid_row,
        grid_column: i.grid_column,
    }
}

/// The input of a host layout: each field converted back on its own.
pub open spec fn style_to_input<T, R>(c: Style<T, R>) -> StyleInput<T, R> {
    StyleInput {
        display: display_to_input(c.display),
        position_type: position_type_to_input(c.position_type),
        overflow: overflow_to_input(c.overflow),
        direction: direction_to_input(c.direction),
        flex_direction: flex_direction_to_input(c.flex_direction),
        flex_wrap: flex_wrap_to_input(c.flex_wrap),
        align_items: align_items_to_input(c.align_items),
        align_self: align_self_to_input(c.align_self),
        align_content: align_content_to_input(c.align_content),
        justify_content: justify_content_to_input(c.justify_content),
        justify_self: c.justify_self,
        justify_items: c.justify_items,
        margin: ui_rect_to_input(c.margin),
        padding: ui_rect_to_input(c.padding),
        border: ui_rect_to_input(c.border),
        flex_grow: c.flex_grow,
        flex_shrink: c.flex_shrink,
        flex_basis: val_to_input(c.flex_basis),
        aspect_ratio: c.aspect_ratio,
        left: c.left,
        right: c.right,
        top: c.top,
        bottom: c.bottom,
        width: c.width,
        min_width: c.min_width,
        max_width: c.max_width,
        height: c.height,
        min_height: c.min_height,
        max_height: c.max_height,
        row_gap: c.row_gap,
        column_gap: c.column_gap,
        grid_auto_flow: c.grid_auto_flow,
        grid_template_rows: c.grid_template_rows,
        grid_template_columns: c.grid_template_columns,
        grid_auto_rows: c.grid_auto_rows,
        grid_auto_columns: c.grid_auto_columns,
        grid_row: c.grid_row,
        grid_column: c.grid_column,
    }
}

/// The host's default layout: a flex row with automatic sizes, no margins, and
/// empty grid templates.
pub open spec fn is_default_style<T, R>(c: Style<T, R>) -> bool {
    &&& c.display == Display::Flex
    &&& c.position_type == PositionType::Relative
    &&& c.overflow == Overflow::Visible
    &&& c.direction == Direction::Inherit
    &&& c.flex_direction == FlexDirection::Row
    &&& c.flex_wrap == FlexWrap::NoWrap
    &&& c.align_items == AlignItems::Stretch
    &&& c.align_self == AlignSelf::Auto
    &&& c.align_content == AlignContent::Stretch
    &&& c.justify_content == JustifyContent::FlexStart
    &&& c.justify_self == JustifySelf::Auto
    &&& c.justify_items == JustifyItems::Stretch
    &&& c.margin == ui_rect_default()
    &&& c.padding == ui_rect_default()
    &&& c.border == ui_rect_default()
    &&& c.flex_grow == Scalar { bits: 0 }
    &&& c.flex_shrink == Scalar { bits: 0x3f80_0000 }
    &&& c.flex_basis == Val::Auto
    &&& c.aspect_ratio is None
    &&& c.left == Val::Auto
    &&& c.right == Val::Auto
    &&& c.top == Val::Auto
    &&& c.bottom == Val::Auto
    &&& c.width == Val::Auto
    &&& c.min_width == Val::Auto
    &&& c.max_width == Val::Auto
    &&& c.height == Val::Auto
    &&& c.min_height == Val::Auto
    &&& c.max_height == Val::Auto
    &&& c.row_gap == Val::Px(Scalar { bits: 0 })
    &&& c.column_gap == Val::Px(Scalar { bits: 0 })
    &&& c.grid_auto_flow == GridAutoFlow::Row
    &&& c.grid_template_rows@.len() == 0
    &&& c.grid_template_columns@.len() == 0
    &&& c.grid_auto_rows@.len() == 0
    &&& c.grid_auto_columns@.len() == 0
    &&& c.grid_row == grid_placement_default()
    &&& c.grid_column == grid_placement_default()
}

impl<T, R> From<StyleInput<T, R>> for Style<T, R> {
    fn from(i: StyleInput<T, R>) -> Self {
        Style {
            display: Display::from(i.display),
            position_type: PositionType::from(i.position_type),
            overflow: Overflow::from(i.overflow),
            direction: Direction::from(i.direction),
            flex_direction: FlexDirection::from(i.flex_direction),
            flex_wrap: FlexWrap::from(i.flex_wrap),
            align_items: AlignItems::from(i.align_items),
            align_self: AlignSelf::from(i.align_self),
            align_content: AlignContent::from(i.align_content),
            justify_content: JustifyContent::from(i.justify_content),
            justify_self: i.justify_self,
            justify_items: i.justify_items,
            margin: UiRect::from(i.margin),
            padding: UiRect::from(i.padding),
            border: UiRect::from(i.border),
            flex_grow: i.flex_grow,
            flex_shrink: i.flex_shrink,
            flex_basis: Val::from(i.flex_basis),
            aspect_ratio: i.aspect_ratio,
            left: i.left,
            right: i.right,
            top: i.top,
            bottom: i.bottom,
            width: i.width,
            min_width: i.min_width,
            max_width: i.max_width,
            height: i.height,
            min_height: i.min_height,
            max_height: i.max_height,
            row_gap: i.row_gap,
            column_gap: i.column_gap,
            grid_auto_flow: i.grid_auto_flow,
            grid_template_rows: i.grid_template_rows,
            grid_template_columns: i.grid_template_columns,
            grid_auto_rows: i.grid_auto_rows,
            grid_auto_columns: i.grid_auto_columns,
            grid_row: i.grid_row,
            grid_column: i.grid_column,
        }
    }
}

impl<T, R> FromSpecImpl<StyleInput<T, R>> for Style<T, R> {
    open spec fn obeys_from_spec() -> bool {
        true
    }

    open spec fn from_spec(i: StyleInput<T, R>) -> Self {
        style_from_input(i)
    }
}

impl<T, R> From<Style<T, R>> for StyleInput<T, R> {
    fn from(c: Style<T, R>) -> Self {
        StyleInput {
            display: DisplayInput::from(c.display),
            position_type: PositionTypeInput::from(c.position_type),
            overflow: OverflowInput::from(c.overflow),
            direction: DirectionInput::from(c.direction),
            flex_direction: FlexDirectionInput::from(c.flex_direction),
            flex_wrap: FlexWrapInput::from(c.flex_wrap),
            align_items: AlignItemsInput::from(c.align_items),
            align_self: AlignSelfInput::from(c.align_self),
            align_content: AlignContentInput::from(c.align_content),
            justify_content: JustifyContentInput::from(c.justify_content),
            justify_self: c.justify_self,
            justify_items: c.justify_items,
            margin: UiRectInput::from(c.margin),
            padding: UiRectInput::from(c.padding),
            border: UiRectInput::from(c.border),
            flex_grow: c.flex_grow,
            flex_shrink: c.flex_shrink,
            flex_basis: ValInput::from(c.flex_basis),
            aspect_ratio: c.aspect_ratio,
            left: c.left,
            right: c.right,
            top: c.top,
            bottom: c.bottom,
            width: c.width,
            min_width: c.min_width,
            max_width: c.max_width,
            height: c.height,
            min_height: c.min_height,
            max_height: c.max_height,
            row_gap: c.row_gap,
            column_gap: c.column_gap,
            grid_auto_flow: c.grid_auto_flow,
            grid_template_rows: c.grid_template_rows,
            grid_template_columns: c.grid_template_columns,
            grid_auto_rows: c.grid_auto_rows,
            grid_auto_columns: c.grid_auto_columns,
            grid_row: c.grid_row,
            grid_column: c.grid_column,
        }
    }
}

impl<T, R> FromSpecImpl<Style<T, R>> for StyleInput<T, R> {
    open spec fn obeys_from_spec() -> bool {
        true
    }

    open spec fn from_spec(c: Style<T, R>) -> Self {
        style_to_input(c)
    }
}

impl<T, R> Default for Style<T, R> {
    fn default() -> (r: Self)
        ensures
            is_default_style(r),
    {
        Style {
            display: Display::Flex,
            position_type: PositionType::Relative,
            overflow: Overflow::Visible,
            direction: Direction::Inherit,
            flex_direction: FlexDirection::Row,
            flex_wrap: FlexWrap::NoWrap,
            align_items: AlignItems::Stretch,
            align_self: AlignSelf::Auto,
            align_content: AlignContent::Stretch,
            justify_content: JustifyContent::FlexStart,
            justify_self: JustifySelf::Auto,
            justify_items: JustifyItems::Stretch,
            margin: UiRect::default(),
            padding: UiRect::default(),
            border: UiRect::default(),
            flex_grow: Scalar::zero(),
            flex_shrink: Scalar::one(),
            flex_basis: Val::Auto,
            aspect_ratio: None,
            left: Val::Auto,
            right: Val::Auto,
            top: Val::Auto,
            bottom: Val::Auto,
            width: Val::Auto,
            min_width: Val::Auto,
            max_width: Val::Auto,
            height: Val::Auto,
            min_height: Val::Auto,
            max_height: Val::Auto,
            row_gap: Val::Px(Scalar::zero()),
            column_gap: Val::Px(Scalar::zero()),
            grid_auto_flow: GridAutoFlow::Row,
            grid_template_rows: Vec::new(),
            grid_template_columns: Vec::new(),
            grid_auto_rows: Vec::new(),
            grid_auto_columns: Vec::new(),
            grid_row: GridPlacement::default(),
            grid_column: GridPlacement::default(),
        }
    }
}

impl<T, R> Default for StyleInput<T, R> {
    /// The input of the host's default layout.
    fn default() -> (r: Self)
        ensures
            is_default_style(style_from_input(r)),
    {
        StyleInput::from(Style::default())
    }
}

/// Layouts convert both ways without loss.
pub proof fn lemma_style_round_trip<T, R>(i: StyleInput<T, R>, c: Style<T, R>)
    ensures
        style_to_input(style_from_input(i)) == i,
        style_from_input(style_to_input(c)) == c,
{
}

/// Converting a layout input equals converting each of its fields on its own: the
/// proxy fields by their own codecs, the others unchanged, and each side of a
/// rectangle by the length codec.
pub proof fn lemma_style_fieldwise<T, R>(i: StyleInput<T, R>)
    ensures

        style_from_input(i).display == display_from_input(i.display),
        style_from_input(i).position_type == position_type_from_input(i.position_type),
        style_from_input(i).overflow == overflow_from_input(i.overflow),
        style_from_input(i).direction == direction_from_input(i.direction),
        style_from_input(i).flex_direction == flex_direction_from_input(i.flex_direction),
        style_from_input(i).flex_wrap == flex_wrap_from_input(i.flex_wrap),
        style_from_input(i).align_items == align_items_from_input(i.align_items),
        style_from_input(i).align_self == align_self_from_input(i.align_self),
        style_from_input(i).align_content == align_content_from_input(i.align_content),
        style_from_input(i).justify_content == justify_content_from_input(i.justify_content),
        style_from_input(i).justify_self == i.justify_self,
        style_from_input(i).justify_items == i.justify_items,
        style_from_input(i).margin == ui_rect_from_input(i.margin),
        style_from_input(i).padding == ui_rect_from_input(i.padding),
        style_from_input(i).border == ui_rect_from_input(i.border),
        style_from_input(i).flex_grow == i.flex_grow,
        style_from_input(i).flex_shrink == i.flex_shrink,
        style_from_input(i).flex_basis == val_from_input(i.flex_basis),
        style_from_input(i).aspect_ratio == i.aspect_ratio,
        style_from_input(i).left == i.left,
        style_from_input(i).right == i.right,
        style_from_input(i).top == i.top,
        style_from_input(i).bottom == i.bottom,
        style_from_input(i).width == i.width,
        style_from_input(i).min_width == i.min_width,
        style_from_input(i).max_width == i.max_width,
        style_from_input(i).height == i.height,
        style_from_input(i).min_height == i.min_height,
        style_from_input(i).max_height == i.max_height,
        style_from_input(i).row_gap == i.row_gap,
        style_from_input(i).column_gap == i.column_gap,
        style_from_input(i).grid_auto_flow == i.grid_auto_flow,
        style_from_input(i).grid_template_rows == i.grid_template_rows,
        style_from_input(i).grid_template_columns == i.grid_template_columns,
        style_from_input(i).grid_auto_rows == i.grid_auto_rows,
        style_from_input(i).grid_auto_columns == i.grid_auto_columns,
        style_from_input(i).grid_row == i.grid_row,
        style_from_input(i).grid_column == i.grid_column,
        style_from_input(i).margin.left == val_from_input(i.margin.left),
        style_from_input(i).padding.top == val_from_input(i.padding.top),
        style_from_input(i).border.bottom == val_from_input(i.border.bottom),
{
}

/// The track lists of a layout keep their length and order under conversion.
pub proof fn lemma_style_tracks_kept<T, R>(i: StyleInput<T, R>)
    ensures
        style_from_input(i).grid_template_rows@.len() == i.grid_template_rows@.len(),
        style_from_input(i).grid_template_columns@.len() == i.grid_template_columns@.len(),
        style_from_input(i).grid_auto_rows@.len() == i.grid_auto_rows@.len(),
        style_from_input(i).grid_auto_columns@.len() == i.grid_auto_columns@.len(),
        forall|k: int|
            0 <= k < i.grid_template_rows@.len() ==> style_from_input(i).grid_template_rows@[k]
                == i.grid_template_rows@[k],
        forall|k: int|
            0 <= k < i.grid_template_columns@.len()
                ==> style_from_input(i).grid_template_columns@[k] == i.grid_template_columns@[k],
        forall|k: int|
            0 <= k < i.grid_auto_rows@.len() ==> style_from_input(i).grid_auto_rows@[k]
                == i.grid_auto_rows@[k],
        forall|k: int|
            0 <= k < i.grid_auto_columns@.len() ==> style_from_input(i).grid_auto_columns@[k]
                == i.grid_auto_columns@[k],
{
}

} // verus!
