//! Value codecs: proxy enumerations that mirror the host's layout values variant for
//! variant, with total conversions in both directions.
use vstd::prelude::*;
use vstd::std_specs::convert::FromSpecImpl;

verus! {

/// Proxy for [`AlignContent`]: how the lines of a wrapping flex container are distributed.
#[derive(Clone, Copy, Debug, PartialEq, Eq, Structural)]
pub enum AlignContentInput {
    Start,
    End,
    FlexStart,
    FlexEnd,
    Center,
    Stretch,
    SpaceBetween,
    SpaceEvenly,
    SpaceAround,
}

/// Host value: how the lines of a wrapping flex container are distributed.
#[derive(Clone, Copy, Debug, PartialEq, Eq, Structural)]
pub enum AlignContent {
    Start,
    End,
    FlexStart,
    FlexEnd,
    Center,
    Stretch,
    SpaceBetween,
    SpaceEvenly,
    SpaceAround,
}

/// The host value that a proxy stands for: the variant of the same name.
pub open spec fn align_content_from_input(i: AlignContentInput) -> AlignContent {
    match i {
        AlignContentInput::Start => AlignContent::Start,
        AlignContentInput::End => AlignContent::End,
        AlignContentInput::FlexStart => AlignContent::FlexStart,
        AlignContentInput::FlexEnd => AlignContent::FlexEnd,
        AlignContentInput::Center => AlignContent::Center,
        AlignContentInput::Stretch => AlignContent::Stretch,
        AlignContentInput::SpaceBetween => AlignContent::SpaceBetween,
        AlignContentInput::SpaceEvenly => AlignContent::SpaceEvenly,
        AlignContentInput::SpaceAround => AlignContent::SpaceAround,
    }
}

/// The proxy of a host value: the variant of the same name.
pub open spec fn align_content_to_input(c: AlignContent) -> AlignContentInput {
    match c {
        AlignContent::Start => AlignContentInput::Start,
        AlignContent::End => AlignContentInput::End,
        AlignContent::FlexStart => AlignContentInput::FlexStart,
        AlignContent::FlexEnd => AlignContentInput::FlexEnd,
        AlignContent::Center => AlignContentInput::Center,
        AlignContent::Stretch => AlignContentInput::Stretch,
        AlignContent::SpaceBetween => AlignContentInput::SpaceBetween,
        AlignContent::SpaceEvenly => AlignContentInput::SpaceEvenly,
        AlignContent::SpaceAround => AlignContentInput::SpaceAround,
    }
}

impl From<AlignContentInput> for AlignContent {
    fn from(i: AlignContentInput) -> Self {
        match i {
            AlignContentInput::Start => AlignContent::Start,
            AlignContentInput::End => AlignContent::End,
            AlignContentInput::FlexStart => AlignContent::FlexStart,
            AlignContentInput::FlexEnd => AlignContent::FlexEnd,
            AlignContentInput::Center => AlignContent::Center,
            AlignContentInput::Stretch => AlignContent::Stretch,
            AlignContentInput::SpaceBetween => AlignContent::SpaceBetween,
            AlignContentInput::SpaceEvenly => AlignContent::SpaceEvenly,
            AlignContentInput::SpaceAround => AlignContent::SpaceAround,
        }
    }
}

impl FromSpecImpl<AlignContentInput> for AlignContent {
    open spec fn obeys_from_spec() -> bool {
        true
    }

    open spec fn from_spec(i: AlignContentInput) -> Self {
        align_content_from_input(i)
    }
}

impl From<AlignContent> for AlignContentInput {
    fn from(c: AlignContent) -> Self {
        match c {
            AlignContent::Start => AlignContentInput::Start,
            AlignContent::End => AlignContentInput::End,
            AlignContent::FlexStart => AlignContentInput::FlexStart,
            AlignContent::FlexEnd => AlignContentInput::FlexEnd,
            AlignContent::Center => AlignContentInput::Center,
            AlignContent::Stretch => AlignContentInput::Stretch,
            AlignContent::SpaceBetween => AlignContentInput::SpaceBetween,
            AlignContent::SpaceEvenly => AlignContentInput::SpaceEvenly,
            AlignContent::SpaceAround => AlignContentInput::SpaceAround,
        }
    }
}

impl FromSpecImpl<AlignContent> for AlignContentInput {
    open spec fn obeys_from_spec() -> bool {
        true
    }

    open spec fn from_spec(c: AlignContent) -> Self {
        align_content_to_input(c)
    }
}

impl Default for AlignContent {
    fn default() -> (r: Self)
        ensures
            r == AlignContent::Stretch,
    {
        AlignContent::Stretch
    }
}

impl Default for AlignContentInput {
    /// The proxy of the host's default value.
    fn default() -> (r: Self)
        ensures
            r == align_content_to_input(AlignContent::Stretch),
            align_content_from_input(r) == AlignContent::Stretch,
    {
        AlignContentInput::from(AlignContent::default())
    }
}

/// Converting a proxy to its host value and back gives the proxy, and converting
/// a host value to its proxy and back gives the host value.
pub proof fn lemma_align_content_round_trip(i: AlignContentInput, c: AlignContent)
    ensures
        align_content_to_input(align_content_from_input(i)) == i,
        align_content_from_input(align_content_to_input(c)) == c,
{
}

/// Proxy for [`AlignItems`]: how the children of a node are aligned on the cross axis.
#[derive(Clone, Copy, Debug, PartialEq, Eq, Structural)]
pub enum AlignItemsInput {
    Start,
    End,
    FlexStart,
    FlexEnd,
    Center,
    Baseline,
    Stretch,
}

/// Host value: how the children of a node are aligned on the cross axis.
#[derive(Clone, Copy, Debug, PartialEq, Eq, Structural)]
pub enum AlignItems {
    Start,
    End,
    FlexStart,
    FlexEnd,
    Center,
    Baseline,
    Stretch,
}

/// The host value that a proxy stands for: the variant of the same name.
pub open spec fn align_items_from_input(i: AlignItemsInput) -> AlignItems {
    match i {
        AlignItemsInput::Start => AlignItems::Start,
        AlignItemsInput::End => AlignItems::End,
        AlignItemsInput::FlexStart => AlignItems::FlexStart,
        AlignItemsInput::FlexEnd => AlignItems::FlexEnd,
        AlignItemsInput::Center => AlignItems::Center,
        AlignItemsInput::Baseline => AlignItems::Baseline,
        AlignItemsInput::Stretch => AlignItems::Stretch,
    }
}

/// The proxy of a host value: the variant of the same name.
pub open spec fn align_items_to_input(c: AlignItems) -> AlignItemsInput {
    match c {
        AlignItems::Start => AlignItemsInput::Start,
        AlignItems::End => AlignItemsInput::End,
        AlignItems::FlexStart => AlignItemsInput::FlexStart,
        AlignItems::FlexEnd => AlignItemsInput::FlexEnd,
        AlignItems::Center => AlignItemsInput::Center,
        AlignItems::Baseline => AlignItemsInput::Baseline,
        AlignItems::Stretch => AlignItemsInput::Stretch,
    }
}

impl From<AlignItemsInput> for AlignItems {
    fn from(i: AlignItemsInput) -> Self {
        match i {
            AlignItemsInput::Start => AlignItems::Start,
            AlignItemsInput::End => AlignItems::End,
            AlignItemsInput::FlexStart => AlignItems::FlexStart,
            AlignItemsInput::FlexEnd => AlignItems::FlexEnd,
            AlignItemsInput::Center => AlignItems::Center,
            AlignItemsInput::Baseline => AlignItems::Baseline,
            AlignItemsInput::Stretch => AlignItems::Stretch,
        }
    }
}

impl FromSpecImpl<AlignItemsInput> for AlignItems {
    open spec fn obeys_from_spec() -> bool {
        true
    }

    open spec fn from_spec(i: AlignItemsInput) -> Self {
        align_items_from_input(i)
    }
}

impl From<AlignItems> for AlignItemsInput {
    fn from(c: AlignItems) -> Self {
        match c {
            AlignItems::Start => AlignItemsInput::Start,
            AlignItems::End => AlignItemsInput::End,
            AlignItems::FlexStart => AlignItemsInput::FlexStart,
            AlignItems::FlexEnd => AlignItemsInput::FlexEnd,
            AlignItems::Center => AlignItemsInput::Center,
            AlignItems::Baseline => AlignItemsInput::Baseline,
            AlignItems::Stretch => AlignItemsInput::Stretch,
        }
    }
}

impl FromSpecImpl<AlignItems> for AlignItemsInput {
    open spec fn obeys_from_spec() -> bool {
        true
    }

    open spec fn from_spec(c: AlignItems) -> Self {
        align_items_to_input(c)
    }
}

impl Default for AlignItems {
    fn default() -> (r: Self)
        ensures
            r == AlignItems::Stretch,
    {
        AlignItems::Stretch
    }
}

impl Default for AlignItemsInput {
    /// The proxy of the host's default value.
    fn default() -> (r: Self)
        ensures
            r == align_items_to_input(AlignItems::Stretch),
            align_items_from_input(r) == AlignItems::Stretch,
    {
        AlignItemsInput::from(AlignItems::default())
    }
}

/// Converting a proxy to its host value and back gives the proxy, and converting
/// a host value to its proxy and back gives the host value.
pub proof fn lemma_align_items_round_trip(i: AlignItemsInput, c: AlignItems)
    ensures
        align_items_to_input(align_items_from_input(i)) == i,
        align_items_from_input(align_items_to_input(c)) == c,
{
}

/// Proxy for [`AlignSelf`]: how a node overrides its parent's cross-axis alignment.
#[derive(Clone, Copy, Debug, PartialEq, Eq, Structural)]
pub enum AlignSelfInput {
    Auto,
    Start,
    End,
    FlexStart,
    FlexEnd,
    Center,
    Baseline,
    Stretch,
}

/// Host value: how a node overrides its parent's cross-axis alignment.
#[derive(Clone, Copy, Debug, PartialEq, Eq, Structural)]
pub enum AlignSelf {
    Auto,
    Start,
    End,
    FlexStart,
    FlexEnd,
    Center,
    Baseline,
    Stretch,
}

/// The host value that a proxy stands for: the variant of the same name.
pub open spec fn align_self_from_input(i: AlignSelfInput) -> AlignSelf {
    match i {
        AlignSelfInput::Auto => AlignSelf::Auto,
        AlignSelfInput::Start => AlignSelf::Start,
        AlignSelfInput::End => AlignSelf::End,
        AlignSelfInput::FlexStart => AlignSelf::FlexStart,
        AlignSelfInput::FlexEnd => AlignSelf::FlexEnd,
        AlignSelfInput::Center => AlignSelf::Center,
        AlignSelfInput::Baseline => AlignSelf::Baseline,
        AlignSelfInput::Stretch => AlignSelf::Stretch,
    }
}

/// The proxy of a host value: the variant of the same name.
pub open spec fn align_self_to_input(c: AlignSelf) -> AlignSelfInput {
    match c {
        AlignSelf::Auto => AlignSelfInput::Auto,
        AlignSelf::Start => AlignSelfInput::Start,
        AlignSelf::End => AlignSelfInput::End,
        AlignSelf::FlexStart => AlignSelfInput::FlexStart,
        AlignSelf::FlexEnd => AlignSelfInput::FlexEnd,
        AlignSelf::Center => AlignSelfInput::Center,
        AlignSelf::Baseline => AlignSelfInput::Baseline,
        AlignSelf::Stretch => AlignSelfInput::Stretch,
    }
}

impl From<AlignSelfInput> for AlignSelf {
    fn from(i: AlignSelfInput) -> Self {
        match i {
            AlignSelfInput::Auto => AlignSelf::Auto,
            AlignSelfInput::Start => AlignSelf::Start,
            AlignSelfInput::End => AlignSelf::End,
            AlignSelfInput::FlexStart => AlignSelf::FlexStart,
            AlignSelfInput::FlexEnd => AlignSelf::FlexEnd,
            AlignSelfInput::Center => AlignSelf::Center,
            AlignSelfInput::Baseline => AlignSelf::Baseline,
            AlignSelfInput::Stretch => AlignSelf::Stretch,
        }
    }
}

impl FromSpecImpl<AlignSelfInput> for AlignSelf {
    open spec fn obeys_from_spec() -> bool {
        true
    }

    open spec fn from_spec(i: AlignSelfInput) -> Self {
        align_self_from_input(i)
    }
}

impl From<AlignSelf> for AlignSelfInput {
    fn from(c: AlignSelf) -> Self {
        match c {
            AlignSelf::Auto => AlignSelfInput::Auto,
            AlignSelf::Start => AlignSelfInput::Start,
            AlignSelf::End => AlignSelfInput::End,
            AlignSelf::FlexStart => AlignSelfInput::FlexStart,
            AlignSelf::FlexEnd => AlignSelfInput::FlexEnd,
            AlignSelf::Center => AlignSelfInput::Center,
            AlignSelf::Baseline => AlignSelfInput::Baseline,
            AlignSelf::Stretch => AlignSelfInput::Stretch,
        }
    }
}

impl FromSpecImpl<AlignSelf> for AlignSelfInput {
    open spec fn obeys_from_spec() -> bool {
        true
    }

    open spec fn from_spec(c: AlignSelf) -> Self {
        align_self_to_input(c)
    }
}

impl Default for AlignSelf {
    fn default() -> (r: Self)
        ensures
            r == AlignSelf::Auto,
    {
        AlignSelf::Auto
    }
}

impl Default for AlignSelfInput {
    /// The proxy of the host's default value.
    fn default() -> (r: Self)
        ensures
            r == align_self_to_input(AlignSelf::Auto),
            align_self_from_input(r) == AlignSelf::Auto,
    {
        AlignSelfInput::from(AlignSelf::default())
    }
}

/// Converting a proxy to its host value and back gives the proxy, and converting
/// a host value to its proxy and back gives the host value.
pub proof fn lemma_align_self_round_trip(i: AlignSelfInput, c: AlignSelf)
    ensures
        align_self_to_input(align_self_from_input(i)) == i,
        align_self_from_input(align_self_to_input(c)) == c,
{
}

/// Proxy for [`Direction`]: the direction in which text flows.
#[derive(Clone, Copy, Debug, PartialEq, Eq, Structural)]
pub enum DirectionInput {
    Inherit,
    LeftToRight,
    RightToLeft,
}

/// Host value: the direction in which text flows.
#[derive(Clone, Copy, Debug, PartialEq, Eq, Structural)]
pub enum Direction {
    Inherit,
    LeftToRight,
    RightToLeft,
}

/// The host value that a proxy stands for: the variant of the same name.
pub open spec fn direction_from_input(i: DirectionInput) -> Direction {
    match i {
        DirectionInput::Inherit => Direction::Inherit,
        DirectionInput::LeftToRight => Direction::LeftToRight,
        DirectionInput::RightToLeft => Direction::RightToLeft,
    }
}

/// The proxy of a host value: the variant of the same name.
pub open spec fn direction_to_input(c: Direction) -> DirectionInput {
    match c {
        Direction::Inherit => DirectionInput::Inherit,
        Direction::LeftToRight => DirectionInput::LeftToRight,
        Direction::RightToLeft => DirectionInput::RightToLeft,
    }
}

impl From<DirectionInput> for Direction {
    fn from(i: DirectionInput) -> Self {
        match i {
            DirectionInput::Inherit => Direction::Inherit,
            DirectionInput::LeftToRight => Direction::LeftToRight,
            DirectionInput::RightToLeft => Direction::RightToLeft,
        }
    }
}

impl FromSpecImpl<DirectionInput> for Direction {
    open spec fn obeys_from_spec() -> bool {
        true
    }

    open spec fn from_spec(i: DirectionInput) -> Self {
        direction_from_input(i)
    }
}

impl From<Direction> for DirectionInput {
    fn from(c: Direction) -> Self {
        match c {
            Direction::Inherit => DirectionInput::Inherit,
            Direction::LeftToRight => DirectionInput::LeftToRight,
            Direction::RightToLeft => DirectionInput::RightToLeft,
        }
    }
}

impl FromSpecImpl<Direction> for DirectionInput {
    open spec fn obeys_from_spec() -> bool {
        true
    }

    open spec fn from_spec(c: Direction) -> Self {
        direction_to_input(c)
    }
}

impl Default for Direction {
    fn default() -> (r: Self)
        ensures
            r == Direction::Inherit,
    {
        Direction::Inherit
    }
}

impl Default for DirectionInput {
    /// The proxy of the host's default value.
    fn default() -> (r: Self)
        ensures
            r == direction_to_input(Direction::Inherit),
            direction_from_input(r) == Direction::Inherit,
    {
        DirectionInput::from(Direction::default())
    }
}

/// Converting a proxy to its host value and back gives the proxy, and converting
/// a host value to its proxy and back gives the host value.
pub proof fn lemma_direction_round_trip(i: DirectionInput, c: Direction)
    ensures
        direction_to_input(direction_from_input(i)) == i,
        direction_from_input(direction_to_input(c)) == c,
{
}

/// Proxy for [`Display`]: whether a node takes part in layout.
#[derive(Clone, Copy, Debug, PartialEq, Eq, Structural)]
pub enum DisplayInput {
    Excluded,
    Flex,
}

/// Host value: whether a node takes part in layout.
#[derive(Clone, Copy, Debug, PartialEq, Eq, Structural)]
pub enum Display {
    Excluded,
    Flex,
}

/// The host value that a proxy stands for: the variant of the same name.
pub open spec fn display_from_input(i: DisplayInput) -> Display {
    match i {
        DisplayInput::Excluded => Display::Excluded,
        DisplayInput::Flex => Display::Flex,
    }
}

/// The proxy of a host value: the variant of the same name.
pub open spec fn display_to_input(c: Display) -> DisplayInput {
    match c {
        Display::Excluded => DisplayInput::Excluded,
        Display::Flex => DisplayInput::Flex,
    }
}

impl From<DisplayInput> for Display {
    fn from(i: DisplayInput) -> Self {
        match i {
            DisplayInput::Excluded => Display::Excluded,
            DisplayInput::Flex => Display::Flex,
        }
    }
}

impl FromSpecImpl<DisplayInput> for Display {
    open spec fn obeys_from_spec() -> bool {
        true
    }

    open spec fn from_spec(i: DisplayInput) -> Self {
        display_from_input(i)
    }
}

impl From<Display> for DisplayInput {
    fn from(c: Display) -> Self {
        match c {
            Display::Excluded => DisplayInput::Excluded,
            Display::Flex => DisplayInput::Flex,
        }
    }
}

impl FromSpecImpl<Display> for DisplayInput {
    open spec fn obeys_from_spec() -> bool {
        true
    }

    open spec fn from_spec(c: Display) -> Self {
        display_to_input(c)
    }
}

impl Default for Display {
    fn default() -> (r: Self)
        ensures
            r == Display::Flex,
    {
        Display::Flex
    }
}

impl Default for DisplayInput {
    /// The proxy of the host's default value.
    fn default() -> (r: Self)
        ensures
            r == display_to_input(Display::Flex),
            display_from_input(r) == Display::Flex,
    {
        DisplayInput::from(Display::default())
    }
}

/// Converting a proxy to its host value and back gives the proxy, and converting
/// a host value to its proxy and back gives the host value.
pub proof fn lemma_display_round_trip(i: DisplayInput, c: Display)
    ensures
        display_to_input(display_from_input(i)) == i,
        display_from_input(display_to_input(c)) == c,
{
}

/// Proxy for [`FlexDirection`]: the main axis of a flex container.
#[derive(Clone, Copy, Debug, PartialEq, Eq, Structural)]
pub enum FlexDirectionInput {
    Row,
    Column,
    RowReverse,
    ColumnReverse,
}

/// Host value: the main axis of a flex container.
#[derive(Clone, Copy, Debug, PartialEq, Eq, Structural)]
pub enum FlexDirection {
    Row,
    Column,
    RowReverse,
    ColumnReverse,
}

/// The host value that a proxy stands for: the variant of the same name.
pub open spec fn flex_direction_from_input(i: FlexDirectionInput) -> FlexDirection {
    match i {
        FlexDirectionInput::Row => FlexDirection::Row,
        FlexDirectionInput::Column => FlexDirection::Column,
        FlexDirectionInput::RowReverse => FlexDirection::RowReverse,
        FlexDirectionInput::ColumnReverse => FlexDirection::ColumnReverse,
    }
}

/// The proxy of a host value: the variant of the same name.
pub open spec fn flex_direction_to_input(c: FlexDirection) -> FlexDirectionInput {
    match c {
        FlexDirection::Row => FlexDirectionInput::Row,
        FlexDirection::Column => FlexDirectionInput::Column,
        FlexDirection::RowReverse => FlexDirectionInput::RowReverse,
        FlexDirection::ColumnReverse => FlexDirectionInput::ColumnReverse,
    }
}

impl From<FlexDirectionInput> for FlexDirection {
    fn from(i: FlexDirectionInput) -> Self {
        match i {
            FlexDirectionInput::Row => FlexDirection::Row,
            FlexDirectionInput::Column => FlexDirection::Column,
            FlexDirectionInput::RowReverse => FlexDirection::RowReverse,
            FlexDirectionInput::ColumnReverse => FlexDirection::ColumnReverse,
        }
    }
}

impl FromSpecImpl<FlexDirectionInput> for FlexDirection {
    open spec fn obeys_from_spec() -> bool {
        true
    }

    open spec fn from_spec(i: FlexDirectionInput) -> Self {
        flex_direction_from_input(i)
    }
}

impl From<FlexDirection> for FlexDirectionInput {
    fn from(c: FlexDirection) -> Self {
        match c {
            FlexDirection::Row => FlexDirectionInput::Row,
            FlexDirection::Column => FlexDirectionInput::Column,
            FlexDirection::RowReverse => FlexDirectionInput::RowReverse,
            FlexDirection::ColumnReverse => FlexDirectionInput::ColumnReverse,
        }
    }
}

impl FromSpecImpl<FlexDirection> for FlexDirectionInput {
    open spec fn obeys_from_spec() -> bool {
        true
    }

    open spec fn from_spec(c: FlexDirection) -> Self {
        flex_direction_to_input(c)
    }
}

impl Default for FlexDirection {
    fn default() -> (r: Self)
        ensures
            r == FlexDirection::Row,
    {
        FlexDirection::Row
    }
}

impl Default for FlexDirectionInput {
    /// The proxy of the host's default value.
    fn default() -> (r: Self)
        ensures
            r == flex_direction_to_input(FlexDirection::Row),
            flex_direction_from_input(r) == FlexDirection::Row,
    {
        FlexDirectionInput::from(FlexDirection::default())
    }
}

/// Converting a proxy to its host value and back gives the proxy, and converting
/// a host value to its proxy and back gives the host value.
pub proof fn lemma_flex_direction_round_trip(i: FlexDirectionInput, c: FlexDirection)
    ensures
        flex_direction_to_input(flex_direction_from_input(i)) == i,
        flex_direction_from_input(flex_direction_to_input(c)) == c,
{
}

/// Proxy for [`FlexWrap`]: whether a flex container wraps its children onto several lines.
#[derive(Clone, Copy, Debug, PartialEq, Eq, Structural)]
pub enum FlexWrapInput {
    NoWrap,
    Wrap,
    WrapReverse,
}

/// Host value: whether a flex container wraps its children onto several lines.
#[derive(Clone, Copy, Debug, PartialEq, Eq, Structural)]
pub enum FlexWrap {
    NoWrap,
    Wrap,
    WrapReverse,
}

/// The host value that a proxy stands for: the variant of the same name.
pub open spec fn flex_wrap_from_input(i: FlexWrapInput) -> FlexWrap {
    match i {
        FlexWrapInput::NoWrap => FlexWrap::NoWrap,
        FlexWrapInput::Wrap => FlexWrap::Wrap,
        FlexWrapInput::WrapReverse => FlexWrap::WrapReverse,
    }
}

/// The proxy of a host value: the variant of the same name.
pub open spec fn flex_wrap_to_input(c: FlexWrap) -> FlexWrapInput {
    match c {
        FlexWrap::NoWrap => FlexWrapInput::NoWrap,
        FlexWrap::Wrap => FlexWrapInput::Wrap,
        FlexWrap::WrapReverse => FlexWrapInput::WrapReverse,
    }
}

impl From<FlexWrapInput> for FlexWrap {
    fn from(i: FlexWrapInput) -> Self {
        match i {
            FlexWrapInput::NoWrap => FlexWrap::NoWrap,
            FlexWrapInput::Wrap => FlexWrap::Wrap,
            FlexWrapInput::WrapReverse => FlexWrap::WrapReverse,
        }
    }
}

impl FromSpecImpl<FlexWrapInput> for FlexWrap {
    open spec fn obeys_from_spec() -> bool {
        true
    }

    open spec fn from_spec(i: FlexWrapInput) -> Self {
        flex_wrap_from_input(i)
    }
}

impl From<FlexWrap> for FlexWrapInput {
    fn from(c: FlexWrap) -> Self {
        match c {
            FlexWrap::NoWrap => FlexWrapInput::NoWrap,
            FlexWrap::Wrap => FlexWrapInput::Wrap,
            FlexWrap::WrapReverse => FlexWrapInput::WrapReverse,
        }
    }
}

impl FromSpecImpl<FlexWrap> for FlexWrapInput {
    open spec fn obeys_from_spec() -> bool {
        true
    }

    open spec fn from_spec(c: FlexWrap) -> Self {
        flex_wrap_to_input(c)
    }
}

impl Default for FlexWrap {
    fn default() -> (r: Self)
        ensures
            r == FlexWrap::NoWrap,
    {
        FlexWrap::NoWrap
    }
}

impl Default for FlexWrapInput {
    /// The proxy of the host's default value.
    fn default() -> (r: Self)
        ensures
            r == flex_wrap_to_input(FlexWrap::NoWrap),
            flex_wrap_from_input(r) == FlexWrap::NoWrap,
    {
        FlexWrapInput::from(FlexWrap::default())
    }
}

/// Converting a proxy to its host value and back gives the proxy, and converting
/// a host value to its proxy and back gives the host value.
pub proof fn lemma_flex_wrap_round_trip(i: FlexWrapInput, c: FlexWrap)
    ensures
        flex_wrap_to_input(flex_wrap_from_input(i)) == i,
        flex_wrap_from_input(flex_wrap_to_input(c)) == c,
{
}

/// Proxy for [`JustifyContent`]: how the children of a node are distributed on the main axis.
#[derive(Clone, Copy, Debug, PartialEq, Eq, Structural)]
pub enum JustifyContentInput {
    Start,
    End,
    FlexStart,
    FlexEnd,
    Center,
    SpaceBetween,
    SpaceAround,
    SpaceEvenly,
}

/// Host value: how the children of a node are distributed on the main axis.
#[derive(Clone, Copy, Debug, PartialEq, Eq, Structural)]
pub enum JustifyContent {
    Start,
    End,
    FlexStart,
    FlexEnd,
    Center,
    SpaceBetween,
    SpaceAround,
    SpaceEvenly,
}

/// The host value that a proxy stands for: the variant of the same name.
pub open spec fn justify_content_from_input(i: JustifyContentInput) -> JustifyContent {
    match i {
        JustifyContentInput::Start => JustifyContent::Start,
        JustifyContentInput::End => JustifyContent::End,
        JustifyContentInput::FlexStart => JustifyContent::FlexStart,
        JustifyContentInput::FlexEnd => JustifyContent::FlexEnd,
        JustifyContentInput::Center => JustifyContent::Center,
        JustifyContentInput::SpaceBetween => JustifyContent::SpaceBetween,
        JustifyContentInput::SpaceAround => JustifyContent::SpaceAround,
        JustifyContentInput::SpaceEvenly => JustifyContent::SpaceEvenly,
    }
}

/// The proxy of a host value: the variant of the same name.
pub open spec fn justify_content_to_input(c: JustifyContent) -> JustifyContentInput {
    match c {
        JustifyContent::Start => JustifyContentInput::Start,
        JustifyContent::End => JustifyContentInput::End,
        JustifyContent::FlexStart => JustifyContentInput::FlexStart,
        JustifyContent::FlexEnd => JustifyContentInput::FlexEnd,
        JustifyContent::Center => JustifyContentInput::Center,
        JustifyContent::SpaceBetween => JustifyContentInput::SpaceBetween,
        JustifyContent::SpaceAround => JustifyContentInput::SpaceAround,
        JustifyContent::SpaceEvenly => JustifyContentInput::SpaceEvenly,
    }
}

impl From<JustifyContentInput> for JustifyContent {
    fn from(i: JustifyContentInput) -> Self {
        match i {
            JustifyContentInput::Start => JustifyContent::Start,
            JustifyContentInput::End => JustifyContent::End,
            JustifyContentInput::FlexStart => JustifyContent::FlexStart,
            JustifyContentInput::FlexEnd => JustifyContent::FlexEnd,
            JustifyContentInput::Center => JustifyContent::Center,
            JustifyContentInput::SpaceBetween => JustifyContent::SpaceBetween,
            JustifyContentInput::SpaceAround => JustifyContent::SpaceAround,
            JustifyContentInput::SpaceEvenly => JustifyContent::SpaceEvenly,
        }
    }
}

impl FromSpecImpl<JustifyContentInput> for JustifyContent {
    open spec fn obeys_from_spec() -> bool {
        true
    }

    open spec fn from_spec(i: JustifyContentInput) -> Self {
        justify_content_from_input(i)
    }
}

impl From<JustifyContent> for JustifyContentInput {
    fn from(c: JustifyContent) -> Self {
        match c {
            JustifyContent::Start => JustifyContentInput::Start,
            JustifyContent::End => JustifyContentInput::End,
            JustifyContent::FlexStart => JustifyContentInput::FlexStart,
            JustifyContent::FlexEnd => JustifyContentInput::FlexEnd,
            JustifyContent::Center => JustifyContentInput::Center,
            JustifyContent::SpaceBetween => JustifyContentInput::SpaceBetween,
            JustifyContent::SpaceAround => JustifyContentInput::SpaceAround,
            JustifyContent::SpaceEvenly => JustifyContentInput::SpaceEvenly,
        }
    }
}

impl FromSpecImpl<JustifyContent> for JustifyContentInput {
    open spec fn obeys_from_spec() -> bool {
        true
    }

    open spec fn from_spec(c: JustifyContent) -> Self {
        justify_content_to_input(c)
    }
}

impl Default for JustifyContent {
    fn default() -> (r: Self)
        ensures
            r == JustifyContent::FlexStart,
    {
        JustifyContent::FlexStart
    }
}

impl Default for JustifyContentInput {
    /// The proxy of the host's default value.
    fn default() -> (r: Self)
        ensures
            r == justify_content_to_input(JustifyContent::FlexStart),
            justify_content_from_input(r) == JustifyContent::FlexStart,
    {
        JustifyContentInput::from(JustifyContent::default())
    }
}

/// Converting a proxy to its host value and back gives the proxy, and converting
/// a host value to its proxy and back gives the host value.
pub proof fn lemma_justify_content_round_trip(i: JustifyContentInput, c: JustifyContent)
    ensures
        justify_content_to_input(justify_content_from_input(i)) == i,
        justify_content_from_input(justify_content_to_input(c)) == c,
{
}

/// Proxy for [`Overflow`]: whether content beyond a node's bounds is shown.
#[derive(Clone, Copy, Debug, PartialEq, Eq, Structural)]
pub enum OverflowInput {
    Visible,
    Hidden,
}

/// Host value: whether content beyond a node's bounds is shown.
#[derive(Clone, Copy, Debug, PartialEq, Eq, Structural)]
pub enum Overflow {
    Visible,
    Hidden,
}

/// The host value that a proxy stands for: the variant of the same name.
pub open spec fn overflow_from_input(i: OverflowInput) -> Overflow {
    match i {
        OverflowInput::Visible => Overflow::Visible,
        OverflowInput::Hidden => Overflow::Hidden,
    }
}

/// The proxy of a host value: the variant of the same name.
pub open spec fn overflow_to_input(c: Overflow) -> OverflowInput {
    match c {
        Overflow::Visible => OverflowInput::Visible,
        Overflow::Hidden => OverflowInput::Hidden,
    }
}

impl From<OverflowInput> for Overflow {
    fn from(i: OverflowInput) -> Self {
        match i {
            OverflowInput::Visible => Overflow::Visible,
            OverflowInput::Hidden => Overflow::Hidden,
        }
    }
}

impl FromSpecImpl<OverflowInput> for Overflow {
    open spec fn obeys_from_spec() -> bool {
        true
    }

    open spec fn from_spec(i: OverflowInput) -> Self {
        overflow_from_input(i)
    }
}

impl From<Overflow> for OverflowInput {
    fn from(c: Overflow) -> Self {
        match c {
            Overflow::Visible => OverflowInput::Visible,
            Overflow::Hidden => OverflowInput::Hidden,
        }
    }
}

impl FromSpecImpl<Overflow> for OverflowInput {
    open spec fn obeys_from_spec() -> bool {
        true
    }

    open spec fn from_spec(c: Overflow) -> Self {
        overflow_to_input(c)
    }
}

impl Default for Overflow {
    fn default() -> (r: Self)
        ensures
            r == Overflow::Visible,
    {
        Overflow::Visible
    }
}

impl Default for OverflowInput {
    /// The proxy of the host's default value.
    fn default() -> (r: Self)
        ensures
            r == overflow_to_input(Overflow::Visible),
            overflow_from_input(r) == Overflow::Visible,
    {
        OverflowInput::from(Overflow::default())
    }
}

/// Converting a proxy to its host value and back gives the proxy, and converting
/// a host value to its proxy and back gives the host value.
pub proof fn lemma_overflow_round_trip(i: OverflowInput, c: Overflow)
    ensures
        overflow_to_input(overflow_from_input(i)) == i,
        overflow_from_input(overflow_to_input(c)) == c,
{
}

/// Proxy for [`PositionType`]: whether a node is placed by the layout or by its own offsets.
#[derive(Clone, Copy, Debug, PartialEq, Eq, Structural)]
pub enum PositionTypeInput {
    Relative,
    Absolute,
}

/// Host value: whether a node is placed by the layout or by its own offsets.
#[derive(Clone, Copy, Debug, PartialEq, Eq, Structural)]
pub enum PositionType {
    Relative,
    Absolute,
}

/// The host value that a proxy stands for: the variant of the same name.
pub open spec fn position_type_from_input(i: PositionTypeInput) -> PositionType {
    match i {
        PositionTypeInput::Relative => PositionType::Relative,
        PositionTypeInput::Absolute => PositionType::Absolute,
    }
}

/// The proxy of a host value: the variant of the same name.
pub open spec fn position_type_to_input(c: PositionType) -> PositionTypeInput {
    match c {
        PositionType::Relative => PositionTypeInput::Relative,
        PositionType::Absolute => PositionTypeInput::Absolute,
    }
}

impl From<PositionTypeInput> for PositionType {
    fn from(i: PositionTypeInput) -> Self {
        match i {
            PositionTypeInput::Relative => PositionType::Relative,
            PositionTypeInput::Absolute => PositionType::Absolute,
        }
    }
}

impl FromSpecImpl<PositionTypeInput> for PositionType {
    open spec fn obeys_from_spec() -> bool {
        true
    }

    open spec fn from_spec(i: PositionTypeInput) -> Self {
        position_type_from_input(i)
    }
}

impl From<PositionType> for PositionTypeInput {
    fn from(c: PositionType) -> Self {
        match c {
            PositionType::Relative => PositionTypeInput::Relative,
            PositionType::Absolute => PositionTypeInput::Absolute,
        }
    }
}

impl FromSpecImpl<PositionType> for PositionTypeInput {
    open spec fn obeys_from_spec() -> bool {
        true
    }

    open spec fn from_spec(c: PositionType) -> Self {
        position_type_to_input(c)
    }
}

impl Default for PositionType {
    fn default() -> (r: Self)
        ensures
            r == PositionType::Relative,
    {
        PositionType::Relative
    }
}

impl Default for PositionTypeInput {
    /// The proxy of the host's default value.
    fn default() -> (r: Self)
        ensures
            r == position_type_to_input(PositionType::Relative),
            position_type_from_input(r) == PositionType::Relative,
    {
        PositionTypeInput::from(PositionType::default())
    }
}

/// Converting a proxy to its host value and back gives the proxy, and converting
/// a host value to its proxy and back gives the host value.
pub proof fn lemma_position_type_round_trip(i: PositionTypeInput, c: PositionType)
    ensures
        position_type_to_input(position_type_from_input(i)) == i,
        position_type_from_input(position_type_to_input(c)) == c,
{
}

/// A 32-bit IEEE-754 number carried by its bit pattern. Conversions copy it verbatim:
/// no unit conversion and no rounding ever happens here.
#[derive(Clone, Copy, Debug, PartialEq, Eq, Structural)]
pub struct Scalar {
    pub bits: u32,
}

impl Scalar {
    /// The bit pattern of `0.0`.
    pub fn zero() -> (r: Scalar)
        ensures
            r.bits == 0,
    {
        Scalar { bits: 0 }
    }

    /// The bit pattern of `1.0`.
    pub fn one() -> (r: Scalar)
        ensures
            r.bits == 0x3f80_0000,
    {
        Scalar { bits: 0x3f80_0000 }
    }
}

/// Proxy for [`Val`]: a length that is undefined, automatic, in pixels or in percent.
#[derive(Clone, Copy, Debug, PartialEq, Eq, Structural)]
pub enum ValInput {
    Undefined,
    Auto,
    Px(Scalar),
    Percent(Scalar),
}

/// Host value: a length that is undefined, automatic, in pixels or in percent.
#[derive(Clone, Copy, Debug, PartialEq, Eq, Structural)]
pub enum Val {
    Undefined,
    Auto,
    Px(Scalar),
    Percent(Scalar),
}

/// The host length that a proxy stands for: same variant, same payload.
pub open spec fn val_from_input(i: ValInput) -> Val {
    match i {
        ValInput::Undefined => Val::Undefined,
        ValInput::Auto => Val::Auto,
        ValInput::Px(x) => Val::Px(x),
        ValInput::Percent(x) => Val::Percent(x),
    }
}

/// The proxy of a host length: same variant, same payload.
pub open spec fn val_to_input(c: Val) -> ValInput {
    match c {
        Val::Undefined => ValInput::Undefined,
        Val::Auto => ValInput::Auto,
        Val::Px(x) => ValInput::Px(x),
        Val::Percent(x) => ValInput::Percent(x),
    }
}

impl From<ValInput> for Val {
    fn from(i: ValInput) -> Self {
        match i {
            ValInput::Undefined => Val::Undefined,
            ValInput::Auto => Val::Auto,
            ValInput::Px(x) => Val::Px(x),
            ValInput::Percent(x) => Val::Percent(x),
        }
    }
}

impl FromSpecImpl<ValInput> for Val {
    open spec fn obeys_from_spec() -> bool {
        true
    }

    open spec fn from_spec(i: ValInput) -> Self {
        val_from_input(i)
    }
}

impl From<Val> for ValInput {
    fn from(c: Val) -> Self {
        match c {
            Val::Undefined => ValInput::Undefined,
            Val::Auto => ValInput::Auto,
            Val::Px(x) => ValInput::Px(x),
            Val::Percent(x) => ValInput::Percent(x),
        }
    }
}

impl FromSpecImpl<Val> for ValInput {
    open spec fn obeys_from_spec() -> bool {
        true
    }

    open spec fn from_spec(c: Val) -> Self {
        val_to_input(c)
    }
}

impl Default for Val {
    fn default() -> (r: Self)
        ensures
            r == Val::Undefined,
    {
        Val::Undefined
    }
}

impl Default for ValInput {
    /// The proxy of the host's default length.
    fn default() -> (r: Self)
        ensures
            r == val_to_input(Val::Undefined),
            val_from_input(r) == Val::Undefined,
    {
        ValInput::from(Val::default())
    }
}

/// Converting a proxy length to the host and back gives it unchanged, payload included,
/// and so does the reverse trip.
pub proof fn lemma_val_round_trip(i: ValInput, c: Val)
    ensures
        val_to_input(val_from_input(i)) == i,
        val_from_input(val_to_input(c)) == c,
{
}

/// Proxy for [`UiRect`]: four lengths, one per side.
#[derive(Clone, Copy, Debug, PartialEq, Eq, Structural)]
pub struct UiRectInput {
    pub left: ValInput,
    pub right: ValInput,
    pub top: ValInput,
    pub bottom: ValInput,
}

/// Host value: four lengths, one per side.
#[derive(Clone, Copy, Debug, PartialEq, Eq, Structural)]
pub struct UiRect {
    pub left: Val,
    pub right: Val,
    pub top: Val,
    pub bottom: Val,
}

/// Each side is converted on its own.
pub open spec fn ui_rect_from_input(i: UiRectInput) -> UiRect {
    UiRect {
        left: val_from_input(i.left),
        right: val_from_input(i.right),
        top: val_from_input(i.top),
        bottom: val_from_input(i.bottom),
    }
}

/// Each side is converted back on its own.
pub open spec fn ui_rect_to_input(c: UiRect) -> UiRectInput {
    UiRectInput {
        left: val_to_input(c.left),
        right: val_to_input(c.right),
        top: val_to_input(c.top),
        bottom: val_to_input(c.bottom),
    }
}

/// The host's default rectangle: zero pixels on every side.
pub open spec fn ui_rect_default() -> UiRect {
    let z = Val::Px(Scalar { bits: 0 });
    UiRect { left: z, right: z, top: z, bottom: z }
}

impl From<UiRectInput> for UiRect {
    fn from(i: UiRectInput) -> Self {
        UiRect {
            left: Val::from(i.left),
            right: Val::from(i.right),
            top: Val::from(i.top),
            bottom: Val::from(i.bottom),
        }
    }
}

impl FromSpecImpl<UiRectInput> for UiRect {
    open spec fn obeys_from_spec() -> bool {
        true
    }

    open spec fn from_spec(i: UiRectInput) -> Self {
        ui_rect_from_input(i)
    }
}

impl From<UiRect> for UiRectInput {
    fn from(c: UiRect) -> Self {
        UiRectInput {
            left: ValInput::from(c.left),
            right: ValInput::from(c.right),
            top: ValInput::from(c.top),
            bottom: ValInput::from(c.bottom),
        }
    }
}

impl FromSpecImpl<UiRect> for UiRectInput {
    open spec fn obeys_from_spec() -> bool {
        true
    }

    open spec fn from_spec(c: UiRect) -> Self {
        ui_rect_to_input(c)
    }
}

impl Default for UiRect {
    fn default() -> (r: Self)
        ensures
            r == ui_rect_default(),
    {
        let z = Val::Px(Scalar::zero());
        UiRect { left: z, right: z, top: z, bottom: z }
    }
}

impl Default for UiRectInput {
    /// The proxy of the host's default rectangle.
    fn default() -> (r: Self)
        ensures
            r == ui_rect_to_input(ui_rect_default()),
            ui_rect_from_input(r) == ui_rect_default(),
    {
        UiRectInput::from(UiRect::default())
    }
}

/// Rectangles convert both ways without loss.
pub proof fn lemma_ui_rect_round_trip(i: UiRectInput, c: UiRect)
    ensures
        ui_rect_to_input(ui_rect_from_input(i)) == i,
        ui_rect_from_input(ui_rect_to_input(c)) == c,
{
}

} // verus!
