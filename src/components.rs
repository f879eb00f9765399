//! Input types for the host's plain UI components, and their conversions.
use vstd::prelude::*;
use vstd::std_specs::convert::FromSpecImpl;

use crate::codec::Scalar;

verus! {

/// Proxy for [`FocusPolicy`]: whether a node stops pointer interaction from reaching nodes below it.
#[derive(Clone, Copy, Debug, PartialEq, Eq, Structural)]
pub enum FocusPolicyInput {
    Block,
    Pass,
}

/// Host value: whether a node stops pointer interaction from reaching nodes below it.
#[derive(Clone, Copy, Debug, PartialEq, Eq, Structural)]
pub enum FocusPolicy {
    Block,
    Pass,
}

/// The host value that a proxy stands for: the variant of the same name.
pub open spec fn focus_policy_from_input(i: FocusPolicyInput) -> FocusPolicy {
    match i {
        FocusPolicyInput::Block => FocusPolicy::Block,
        FocusPolicyInput::Pass => FocusPolicy::Pass,
    }
}

/// The proxy of a host value: the variant of the same name.
pub open spec fn focus_policy_to_input(c: FocusPolicy) -> FocusPolicyInput {
    match c {
        FocusPolicy::Block => FocusPolicyInput::Block,
        FocusPolicy::Pass => FocusPolicyInput::Pass,
    }
}

impl From<FocusPolicyInput> for FocusPolicy {
    fn from(i: FocusPolicyInput) -> Self {
        match i {
            FocusPolicyInput::Block => FocusPolicy::Block,
            FocusPolicyInput::Pass => FocusPolicy::Pass,
        }
    }
}

impl FromSpecImpl<FocusPolicyInput> for FocusPolicy {
    open spec fn obeys_from_spec() -> bool {
        true
    }

    open spec fn from_spec(i: FocusPolicyInput) -> Self {
        focus_policy_from_input(i)
    }
}

impl From<FocusPolicy> for FocusPolicyInput {
    fn from(c: FocusPolicy) -> Self {
        match c {
            FocusPolicy::Block => FocusPolicyInput::Block,
            FocusPolicy::Pass => FocusPolicyInput::Pass,
        }
    }
}

impl FromSpecImpl<FocusPolicy> for FocusPolicyInput {
    open spec fn obeys_from_spec() -> bool {
        true
    }

    open spec fn from_spec(c: FocusPolicy) -> Self {
        focus_policy_to_input(c)
    }
}

impl Default for FocusPolicy {
    fn default() -> (r: Self)
        ensures
            r == FocusPolicy::Pass,
    {
        FocusPolicy::Pass
    }
}

impl Default for FocusPolicyInput {
    /// The proxy of the host's default value.
    fn default() -> (r: Self)
        ensures
            r == focus_policy_to_input(FocusPolicy::Pass),
            focus_policy_from_input(r) == FocusPolicy::Pass,
    {
        FocusPolicyInput::from(FocusPolicy::default())
    }
}

/// Converting a proxy to its host value and back gives the proxy, and converting
/// a host value to its proxy and back gives the host value.
pub proof fn lemma_focus_policy_round_trip(i: FocusPolicyInput, c: FocusPolicy)
    ensures
        focus_policy_to_input(focus_policy_from_input(i)) == i,
        focus_policy_from_input(focus_policy_to_input(c)) == c,
{
}

/// Proxy for [`Interaction`]: the pointer state of a node.
#[derive(Clone, Copy, Debug, PartialEq, Eq, Structural)]
pub enum InteractionInput {
    Pressed,
    Hovered,
    Idle,
}

/// Host value: the pointer state of a node.
#[derive(Clone, Copy, Debug, PartialEq, Eq, Structural)]
pub enum Interaction {
    Pressed,
    Hovered,
    Idle,
}

/// The host value that a proxy stands for: the variant of the same name.
pub open spec fn interaction_from_input(i: InteractionInput) -> Interaction {
    match i {
        InteractionInput::Pressed => Interaction::Pressed,
        InteractionInput::Hovered => Interaction::Hovered,
        InteractionInput::Idle => Interaction::Idle,
    }
}

/// The proxy of a host value: the variant of the same name.
pub open spec fn interaction_to_input(c: Interaction) -> InteractionInput {
    match c {
        Interaction::Pressed => InteractionInput::Pressed,
        Interaction::Hovered => InteractionInput::Hovered,
        Interaction::Idle => InteractionInput::Idle,
    }
}

impl From<InteractionInput> for Interaction {
    fn from(i: InteractionInput) -> Self {
        match i {
            InteractionInput::Pressed => Interaction::Pressed,
            InteractionInput::Hovered => Interaction::Hovered,
            InteractionInput::Idle => Interaction::Idle,
        }
    }
}

impl FromSpecImpl<InteractionInput> for Interaction {
    open spec fn obeys_from_spec() -> bool {
        true
    }

    open spec fn from_spec(i: InteractionInput) -> Self {
        interaction_from_input(i)
    }
}

impl From<Interaction> for InteractionInput {
    fn from(c: Interaction) -> Self {
        match c {
            Interaction::Pressed => InteractionInput::Pressed,
            Interaction::Hovered => InteractionInput::Hovered,
            Interaction::Idle => InteractionInput::Idle,
        }
    }
}

impl FromSpecImpl<Interaction> for InteractionInput {
    open spec fn obeys_from_spec() -> bool {
        true
    }

    open spec fn from_spec(c: Interaction) -> Self {
        interaction_to_input(c)
    }
}

impl Default for Interaction {
    fn default() -> (r: Self)
        ensures
            r == Interaction::Idle,
    {
        Interaction::Idle
    }
}

impl Default for InteractionInput {
    /// The proxy of the host's default value.
    fn default() -> (r: Self)
        ensures
            r == interaction_to_input(Interaction::Idle),
            interaction_from_input(r) == Interaction::Idle,
    {
        InteractionInput::from(Interaction::default())
    }
}

/// Converting a proxy to its host value and back gives the proxy, and converting
/// a host value to its proxy and back gives the host value.
pub proof fn lemma_interaction_round_trip(i: InteractionInput, c: Interaction)
    ensures
        interaction_to_input(interaction_from_input(i)) == i,
        interaction_from_input(interaction_to_input(c)) == c,
{
}

/// A two-dimensional vector.
#[derive(Clone, Copy, Debug, PartialEq, Eq, Structural)]
pub struct Vec2 {
    pub x: Scalar,
    pub y: Scalar,
}

impl Vec2 {
    /// The zero vector.
    pub fn zero() -> (r: Vec2)
        ensures
            r == vec2_zero(),
    {
        Vec2 { x: Scalar::zero(), y: Scalar::zero() }
    }
}

/// The zero vector.
pub open spec fn vec2_zero() -> Vec2 {
    Vec2 { x: Scalar { bits: 0 }, y: Scalar { bits: 0 } }
}

/// An axis-aligned rectangle given by two corners.
#[derive(Clone, Copy, Debug, PartialEq, Eq, Structural)]
pub struct Rect {
    pub min: Vec2,
    pub max: Vec2,
}

/// A linear RGBA color.
#[derive(Clone, Copy, Debug, PartialEq, Eq, Structural)]
pub struct Color {
    pub r: Scalar,
    pub g: Scalar,
    pub b: Scalar,
    pub a: Scalar,
}

/// Opaque white, the host's default fill.
pub open spec fn color_white() -> Color {
    let one = Scalar { bits: 0x3f80_0000 };
    Color { r: one, g: one, b: one, a: one }
}

impl Color {
    /// Opaque white.
    pub fn white() -> (r: Color)
        ensures
            r == color_white(),
    {
        let one = Scalar::one();
        Color { r: one, g: one, b: one, a: one }
    }
}

/// Input of [`BackgroundColor`].
#[derive(Clone, Copy, Debug, PartialEq, Eq, Structural)]
pub struct BackgroundColorInput(pub Color);

/// The fill color of a node.
#[derive(Clone, Copy, Debug, PartialEq, Eq, Structural)]
pub struct BackgroundColor(pub Color);

impl From<BackgroundColorInput> for BackgroundColor {
    fn from(i: BackgroundColorInput) -> Self {
        BackgroundColor(i.0)
    }
}

impl FromSpecImpl<BackgroundColorInput> for BackgroundColor {
    open spec fn obeys_from_spec() -> bool {
        true
    }

    open spec fn from_spec(i: BackgroundColorInput) -> Self {
        BackgroundColor(i.0)
    }
}

impl Default for BackgroundColor {
    fn default() -> (r: Self)
        ensures
            r == BackgroundColor(color_white()),
    {
        BackgroundColor(Color::white())
    }
}

impl Default for BackgroundColorInput {
    fn default() -> (r: Self)
        ensures
            r == BackgroundColorInput(color_white()),
    {
        BackgroundColorInput(BackgroundColor::default().0)
    }
}

/// Input of [`BorderColor`].
#[derive(Clone, Copy, Debug, PartialEq, Eq, Structural)]
pub struct BorderColorInput(pub Color);

/// The color of a node's border.
#[derive(Clone, Copy, Debug, PartialEq, Eq, Structural)]
pub struct BorderColor(pub Color);

impl From<BorderColorInput> for BorderColor {
    fn from(i: BorderColorInput) -> Self {
        BorderColor(i.0)
    }
}

impl FromSpecImpl<BorderColorInput> for BorderColor {
    open spec fn obeys_from_spec() -> bool {
        true
    }

    open spec fn from_spec(i: BorderColorInput) -> Self {
        BorderColor(i.0)
    }
}

impl Default for BorderColor {
    fn default() -> (r: Self)
        ensures
            r == BorderColor(color_white()),
    {
        BorderColor(Color::white())
    }
}

impl Default for BorderColorInput {
    fn default() -> (r: Self)
        ensures
            r == BorderColorInput(color_white()),
    {
        BorderColorInput(BorderColor::default().0)
    }
}

/// Input of [`Button`]: a marker with no data.
#[derive(Clone, Copy, Debug, PartialEq, Eq, Structural)]
pub struct ButtonInput;

/// Marks a node as a button.
#[derive(Clone, Copy, Debug, PartialEq, Eq, Structural)]
pub struct Button;

impl From<ButtonInput> for Button {
    fn from(i: ButtonInput) -> Self {
        Button
    }
}

impl FromSpecImpl<ButtonInput> for Button {
    open spec fn obeys_from_spec() -> bool {
        true
    }

    open spec fn from_spec(i: ButtonInput) -> Self {
        Button
    }
}

impl Default for ButtonInput {
    fn default() -> (r: Self)
        ensures
            r == ButtonInput,
    {
        ButtonInput
    }
}

/// Input of [`Label`]: a marker with no data.
#[derive(Clone, Copy, Debug, PartialEq, Eq, Structural)]
pub struct LabelInput;

/// Marks a node as a text label.
#[derive(Clone, Copy, Debug, PartialEq, Eq, Structural)]
pub struct Label;

impl From<LabelInput> for Label {
    fn from(i: LabelInput) -> Self {
        Label
    }
}

impl FromSpecImpl<LabelInput> for Label {
    open spec fn obeys_from_spec() -> bool {
        true
    }

    open spec fn from_spec(i: LabelInput) -> Self {
        Label
    }
}

/// Input of [`CalculatedClip`].
#[derive(Clone, Copy, Debug, PartialEq, Eq, Structural)]
pub struct CalculatedClipInput {
    pub clip: Rect,
}

/// The rectangle that a node's content is clipped to.
#[derive(Clone, Copy, Debug, PartialEq, Eq, Structural)]
pub struct CalculatedClip {
    pub clip: Rect,
}

/// The zero rectangle.
pub open spec fn rect_zero() -> Rect {
    Rect { min: vec2_zero(), max: vec2_zero() }
}

impl From<CalculatedClipInput> for CalculatedClip {
    fn from(i: CalculatedClipInput) -> Self {
        CalculatedClip { clip: i.clip }
    }
}

impl FromSpecImpl<CalculatedClipInput> for CalculatedClip {
    open spec fn obeys_from_spec() -> bool {
        true
    }

    open spec fn from_spec(i: CalculatedClipInput) -> Self {
        CalculatedClip { clip: i.clip }
    }
}

impl Default for CalculatedClip {
    fn default() -> (r: Self)
        ensures
            r == (CalculatedClip { clip: rect_zero() }),
    {
        CalculatedClip { clip: Rect { min: Vec2::zero(), max: Vec2::zero() } }
    }
}

impl Default for CalculatedClipInput {
    fn default() -> (r: Self)
        ensures
            r == (CalculatedClipInput { clip: rect_zero() }),
    {
        CalculatedClipInput { clip: CalculatedClip::default().clip }
    }
}

/// Input of [`ContentSize`].
#[derive(Clone, Copy, Debug, PartialEq, Eq, Structural)]
pub struct ContentSizeInput {
    pub size: Vec2,
    pub preserve_aspect_ratio: bool,
}

/// The intrinsic size of a node's content.
#[derive(Clone, Copy, Debug, PartialEq, Eq, Structural)]
pub struct ContentSize {
    pub size: Vec2,
    pub preserve_aspect_ratio: bool,
}

impl From<ContentSizeInput> for ContentSize {
    fn from(i: ContentSizeInput) -> Self {
        ContentSize { size: i.size, preserve_aspect_ratio: i.preserve_aspect_ratio }
    }
}

impl FromSpecImpl<ContentSizeInput> for ContentSize {
    open spec fn obeys_from_spec() -> bool {
        true
    }

    open spec fn from_spec(i: ContentSizeInput) -> Self {
        ContentSize { size: i.size, preserve_aspect_ratio: i.preserve_aspect_ratio }
    }
}

impl Default for ContentSize {
    fn default() -> (r: Self)
        ensures
            r == (ContentSize { size: vec2_zero(), preserve_aspect_ratio: false }),
    {
        ContentSize { size: Vec2::zero(), preserve_aspect_ratio: false }
    }
}

impl Default for ContentSizeInput {
    fn default() -> (r: Self)
        ensures
            r == (ContentSizeInput { size: vec2_zero(), preserve_aspect_ratio: false }),
    {
        let base = ContentSize::default();
        ContentSizeInput { size: base.size, preserve_aspect_ratio: base.preserve_aspect_ratio }
    }
}

/// Input of [`Node`]: a marker; the node's layout results are computed by the host.
#[derive(Clone, Copy, Debug, PartialEq, Eq, Structural)]
pub struct NodeInput;

/// A UI node, holding the size that layout computed for it.
#[derive(Clone, Copy, Debug, PartialEq, Eq, Structural)]
pub struct Node {
    pub calculated_size: Vec2,
}

impl Default for Node {
    fn default() -> (r: Self)
        ensures
            r == (Node { calculated_size: vec2_zero() }),
    {
        Node { calculated_size: Vec2::zero() }
    }
}

impl From<NodeInput> for Node {
    fn from(i: NodeInput) -> Self {
        Node::default()
    }
}

impl FromSpecImpl<NodeInput> for Node {
    open spec fn obeys_from_spec() -> bool {
        true
    }

    open spec fn from_spec(i: NodeInput) -> Self {
        Node { calculated_size: vec2_zero() }
    }
}

impl Default for NodeInput {
    fn default() -> (r: Self)
        ensures
            r == NodeInput,
    {
        NodeInput
    }
}

/// Input of [`RelativeCursorPosition`].
#[derive(Clone, Copy, Debug, PartialEq, Eq, Structural)]
pub struct RelativeCursorPositionInput {
    pub normalized: Option<Vec2>,
}

/// The cursor position relative to a node, if the cursor is known.
#[derive(Clone, Copy, Debug, PartialEq, Eq, Structural)]
pub struct RelativeCursorPosition {
    pub normalized: Option<Vec2>,
}

impl From<RelativeCursorPositionInput> for RelativeCursorPosition {
    fn from(i: RelativeCursorPositionInput) -> Self {
        RelativeCursorPosition { normalized: i.normalized }
    }
}

impl FromSpecImpl<RelativeCursorPositionInput> for RelativeCursorPosition {
    open spec fn obeys_from_spec() -> bool {
        true
    }

    open spec fn from_spec(i: RelativeCursorPositionInput) -> Self {
        RelativeCursorPosition { normalized: i.normalized }
    }
}

impl Default for RelativeCursorPosition {
    fn default() -> (r: Self)
        ensures
            r == (RelativeCursorPosition { normalized: None }),
    {
        RelativeCursorPosition { normalized: None }
    }
}

impl Default for RelativeCursorPositionInput {
    fn default() -> (r: Self)
        ensures
            r == (RelativeCursorPositionInput { normalized: None }),
    {
        RelativeCursorPositionInput { normalized: RelativeCursorPosition::default().normalized }
    }
}

/// Input of [`ZIndex`].
#[derive(Clone, Copy, Debug, PartialEq, Eq, Structural)]
pub enum ZIndexInput {
    Local(i32),
    Global(i32),
}

/// The stacking order of a node, among its siblings or over the whole UI.
#[derive(Clone, Copy, Debug, PartialEq, Eq, Structural)]
pub enum ZIndex {
    Local(i32),
    Global(i32),
}

/// The host index that a proxy stands for: same variant, same order value.
pub open spec fn z_index_from_input(i: ZIndexInput) -> ZIndex {
    match i {
        ZIndexInput::Local(z) => ZIndex::Local(z),
        ZIndexInput::Global(z) => ZIndex::Global(z),
    }
}

/// The proxy of a host index: same variant, same order value.
pub open spec fn z_index_to_input(c: ZIndex) -> ZIndexInput {
    match c {
        ZIndex::Local(z) => ZIndexInput::Local(z),
        ZIndex::Global(z) => ZIndexInput::Global(z),
    }
}

impl From<ZIndexInput> for ZIndex {
    fn from(i: ZIndexInput) -> Self {
        match i {
            ZIndexInput::Local(z) => ZIndex::Local(z),
            ZIndexInput::Global(z) => ZIndex::Global(z),
        }
    }
}

impl FromSpecImpl<ZIndexInput> for ZIndex {
    open spec fn obeys_from_spec() -> bool {
        true
    }

    open spec fn from_spec(i: ZIndexInput) -> Self {
        z_index_from_input(i)
    }
}

impl From<ZIndex> for ZIndexInput {
    fn from(c: ZIndex) -> Self {
        match c {
            ZIndex::Local(z) => ZIndexInput::Local(z),
            ZIndex::Global(z) => ZIndexInput::Global(z),
        }
    }
}

impl FromSpecImpl<ZIndex> for ZIndexInput {
    open spec fn obeys_from_spec() -> bool {
        true
    }

    open spec fn from_spec(c: ZIndex) -> Self {
        z_index_to_input(c)
    }
}

impl Default for ZIndex {
    fn default() -> (r: Self)
        ensures
            r == ZIndex::Local(0),
    {
        ZIndex::Local(0)
    }
}

impl Default for ZIndexInput {
    fn default() -> (r: Self)
        ensures
            r == z_index_to_input(ZIndex::Local(0)),
            z_index_from_input(r) == ZIndex::Local(0),
    {
        ZIndexInput::from(ZIndex::default())
    }
}

/// Stacking indices convert both ways without loss.
pub proof fn lemma_z_index_round_trip(i: ZIndexInput, c: ZIndex)
    ensures
        z_index_to_input(z_index_from_input(i)) == i,
        z_index_from_input(z_index_to_input(c)) == c,
{
}

} // verus!
