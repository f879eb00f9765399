//! The registry of schematic types: written once at startup, then only read. A type
//! is registered at most once; a second registration is an error, never a silent
//! replacement.
use vstd::prelude::*;

verus! {

/// The identity of a registered type: a component that has a schematic input, or a
/// proxy type that prototype data may name on its own.
#[derive(Clone, Copy, Debug, PartialEq, Eq, Structural)]
pub enum TypeKey {
    BackgroundColor,
    BorderColor,
    Button,
    CalculatedClip,
    ContentSize,
    FocusPolicy,
    Interaction,
    Label,
    Node,
    RelativeCursorPosition,
    Style,
    UiImage,
    ZIndex,
    AlignContentInput,
    AlignItemsInput,
    AlignSelfInput,
    DirectionInput,
    DisplayInput,
    FlexDirectionInput,
    FlexWrapInput,
    JustifyContentInput,
    OverflowInput,
    PositionTypeInput,
    UiRectInput,
    ValInput,
}

/// The shape of a registered input type, as the host's reflection sees it.
#[derive(Clone, Copy, Debug, PartialEq, Eq, Structural)]
pub enum InputKind {
    Unit,
    Tuple,
    Struct,
    Enum,
}

/// The shape of the input type registered under `k`.
pub open spec fn input_kind_spec(k: TypeKey) -> InputKind {
    match k {
        TypeKey::BackgroundColor => InputKind::Tuple,
        TypeKey::BorderColor => InputKind::Tuple,
        TypeKey::Button => InputKind::Unit,
        TypeKey::CalculatedClip => InputKind::Struct,
        TypeKey::ContentSize => InputKind::Struct,
        TypeKey::FocusPolicy => InputKind::Enum,
        TypeKey::Interaction => InputKind::Enum,
        TypeKey::Label => InputKind::Unit,
        TypeKey::Node => InputKind::Unit,
        TypeKey::RelativeCursorPosition => InputKind::Struct,
        TypeKey::Style => InputKind::Struct,
        TypeKey::UiImage => InputKind::Struct,
        TypeKey::ZIndex => InputKind::Enum,
        TypeKey::AlignContentInput => InputKind::Enum,
        TypeKey::AlignItemsInput => InputKind::Enum,
        TypeKey::AlignSelfInput => InputKind::Enum,
        TypeKey::DirectionInput => InputKind::Enum,
        TypeKey::DisplayInput => InputKind::Enum,
        TypeKey::FlexDirectionInput => InputKind::Enum,
        TypeKey::FlexWrapInput => InputKind::Enum,
        TypeKey::JustifyContentInput => InputKind::Enum,
        TypeKey::OverflowInput => InputKind::Enum,
        TypeKey::PositionTypeInput => InputKind::Enum,
        TypeKey::UiRectInput => InputKind::Struct,
        TypeKey::ValInput => InputKind::Enum,
    }
}

/// The names that the input type registered under `k` exposes to reflection: its
/// fields in declaration order (positions for a tuple), or its variants.
pub open spec fn input_names_spec(k: TypeKey) -> Seq<&'static str> {
    match k {
        TypeKey::BackgroundColor => seq!["0"],
        TypeKey::BorderColor => seq!["0"],
        TypeKey::Button => seq![],
        TypeKey::CalculatedClip => seq!["clip"],
        TypeKey::ContentSize => seq!["size", "preserve_aspect_ratio"],
        TypeKey::FocusPolicy => seq!["Block", "Pass"],
        TypeKey::Interaction => seq!["Pressed", "Hovered", "Idle"],
        TypeKey::Label => seq![],
        TypeKey::Node => seq![],
        TypeKey::RelativeCursorPosition => seq!["normalized"],
        TypeKey::Style => seq![
            "display", "position_type", "overflow", "direction", "flex_direction", "flex_wrap",
            "align_items", "align_self", "align_content", "justify_content", "justify_self",
            "justify_items", "margin", "padding", "border", "flex_grow", "flex_shrink",
            "flex_basis", "aspect_ratio", "left", "right", "top", "bottom", "width", "min_width",
            "max_width", "height", "min_height", "max_height", "row_gap", "column_gap",
            "grid_auto_flow", "grid_template_rows", "grid_template_columns", "grid_auto_rows",
            "grid_auto_columns", "grid_row", "grid_column",
        ],
        TypeKey::UiImage => seq!["texture", "flip_x", "flip_y"],
        TypeKey::ZIndex => seq!["Local", "Global"],
        TypeKey::AlignContentInput => seq![
            "Start", "End", "FlexStart", "FlexEnd", "Center", "Stretch", "SpaceBetween",
            "SpaceEvenly", "SpaceAround",
        ],
        TypeKey::AlignItemsInput => seq![
            "Start", "End", "FlexStart", "FlexEnd", "Center", "Baseline", "Stretch",
        ],
        TypeKey::AlignSelfInput => seq![
            "Auto", "Start", "End", "FlexStart", "FlexEnd", "Center", "Baseline", "Stretch",
        ],
        TypeKey::DirectionInput => seq!["Inherit", "LeftToRight", "RightToLeft"],
        TypeKey::DisplayInput => seq!["Excluded", "Flex"],
        TypeKey::FlexDirectionInput => seq!["Row", "Column", "RowReverse", "ColumnReverse"],
        TypeKey::FlexWrapInput => seq!["NoWrap", "Wrap", "WrapReverse"],
        TypeKey::JustifyContentInput => seq![
            "Start", "End", "FlexStart", "FlexEnd", "Center", "SpaceBetween", "SpaceAround",
            "SpaceEvenly",
        ],
        TypeKey::OverflowInput => seq!["Visible", "Hidden"],
        TypeKey::PositionTypeInput => seq!["Relative", "Absolute"],
        TypeKey::UiRectInput => seq!["left", "right", "top", "bottom"],
        TypeKey::ValInput => seq!["Undefined", "Auto", "Px", "Percent"],
    }
}

impl TypeKey {
    /// The shape of this type's input.
    pub fn input_kind(self) -> (r: InputKind)
        ensures
            r == input_kind_spec(self),
    {
        match self {
            TypeKey::BackgroundColor => InputKind::Tuple,
            TypeKey::BorderColor => InputKind::Tuple,
            TypeKey::Button => InputKind::Unit,
            TypeKey::CalculatedClip => InputKind::Struct,
            TypeKey::ContentSize => InputKind::Struct,
            TypeKey::FocusPolicy => InputKind::Enum,
            TypeKey::Interaction => InputKind::Enum,
            TypeKey::Label => InputKind::Unit,
            TypeKey::Node => InputKind::Unit,
            TypeKey::RelativeCursorPosition => InputKind::Struct,
            TypeKey::Style => InputKind::Struct,
            TypeKey::UiImage => InputKind::Struct,
            TypeKey::ZIndex => InputKind::Enum,
            TypeKey::AlignContentInput => InputKind::Enum,
            TypeKey::AlignItemsInput => InputKind::Enum,
            TypeKey::AlignSelfInput => InputKind::Enum,
            TypeKey::DirectionInput => InputKind::Enum,
            TypeKey::DisplayInput => InputKind::Enum,
            TypeKey::FlexDirectionInput => InputKind::Enum,
            TypeKey::FlexWrapInput => InputKind::Enum,
            TypeKey::JustifyContentInput => InputKind::Enum,
            TypeKey::OverflowInput => InputKind::Enum,
            TypeKey::PositionTypeInput => InputKind::Enum,
            TypeKey::UiRectInput => InputKind::Struct,
            TypeKey::ValInput => InputKind::Enum,
        }
    }

    /// The field or variant names of this type's input, in declaration order.
    pub fn input_names(self) -> (r: Vec<&'static str>)
        ensures
            r@ == input_names_spec(self),
    {
        let r = match self {
            TypeKey::BackgroundColor => vec!["0"],
            TypeKey::BorderColor => vec!["0"],
            TypeKey::Button => vec![],
            TypeKey::CalculatedClip => vec!["clip"],
            TypeKey::ContentSize => vec!["size", "preserve_aspect_ratio"],
            TypeKey::FocusPolicy => vec!["Block", "Pass"],
            TypeKey::Interaction => vec!["Pressed", "Hovered", "Idle"],
            TypeKey::Label => vec![],
            TypeKey::Node => vec![],
            TypeKey::RelativeCursorPosition => vec!["normalized"],
            TypeKey::Style => vec![
                "display", "position_type", "overflow", "direction", "flex_direction", "flex_wrap",
                "align_items", "align_self", "align_content", "justify_content", "justify_self",
                "justify_items", "margin", "padding", "border", "flex_grow", "flex_shrink",
                "flex_basis", "aspect_ratio", "left", "right", "top", "bottom", "width",
                "min_width", "max_width", "height", "min_height", "max_height", "row_gap",
                "column_gap", "grid_auto_flow", "grid_template_rows", "grid_template_columns",
                "grid_auto_rows", "grid_auto_columns", "grid_row", "grid_column",
            ],
            TypeKey::UiImage => vec!["texture", "flip_x", "flip_y"],
            TypeKey::ZIndex => vec!["Local", "Global"],
            TypeKey::AlignContentInput => vec![
                "Start", "End", "FlexStart", "FlexEnd", "Center", "Stretch", "SpaceBetween",
                "SpaceEvenly", "SpaceAround",
            ],
            TypeKey::AlignItemsInput => vec![
                "Start", "End", "FlexStart", "FlexEnd", "Center", "Baseline", "Stretch",
            ],
            TypeKey::AlignSelfInput => vec![
                "Auto", "Start", "End", "FlexStart", "FlexEnd", "Center", "Baseline", "Stretch",
            ],
            TypeKey::DirectionInput => vec!["Inherit", "LeftToRight", "RightToLeft"],
            TypeKey::DisplayInput => vec!["Excluded", "Flex"],
            TypeKey::FlexDirectionInput => vec!["Row", "Column", "RowReverse", "ColumnReverse"],
            TypeKey::FlexWrapInput => vec!["NoWrap", "Wrap", "WrapReverse"],
            TypeKey::JustifyContentInput => vec![
                "Start", "End", "FlexStart", "FlexEnd", "Center", "SpaceBetween", "SpaceAround",
                "SpaceEvenly",
            ],
            TypeKey::OverflowInput => vec!["Visible", "Hidden"],
            TypeKey::PositionTypeInput => vec!["Relative", "Absolute"],
            TypeKey::UiRectInput => vec!["left", "right", "top", "bottom"],
            TypeKey::ValInput => vec!["Undefined", "Auto", "Px", "Percent"],
        };
        assert(r@ =~= input_names_spec(self));
        r
    }
}

/// What the registry records of a type: its input's shape and names.
#[derive(Clone, Debug, PartialEq, Eq)]
pub struct RegistryEntry {
    pub key: TypeKey,
    pub kind: InputKind,
    pub names: Vec<&'static str>,
}

/// Why a registration was refused.
#[derive(Clone, Copy, Debug, PartialEq, Eq, Structural)]
pub enum RegistrationError {
    Duplicate(TypeKey),
}

/// The registered types, in order of registration.
pub struct SchematicRegistry {
    keys: Vec<TypeKey>,
}

/// The types that the UI schematics register at startup: the components with a
/// schematic, then the proxy types of their fields.
pub open spec fn ui_types() -> Seq<TypeKey> {
    seq![
        TypeKey::BackgroundColor,
        TypeKey::Button,
        TypeKey::CalculatedClip,
        TypeKey::ContentSize,
        TypeKey::FocusPolicy,
        TypeKey::Interaction,
        TypeKey::Label,
        TypeKey::Node,
        TypeKey::RelativeCursorPosition,
        TypeKey::Style,
        TypeKey::UiImage,
        TypeKey::AlignContentInput,
        TypeKey::AlignItemsInput,
        TypeKey::AlignSelfInput,
        TypeKey::DirectionInput,
        TypeKey::DisplayInput,
        TypeKey::FlexDirectionInput,
        TypeKey::FlexWrapInput,
        TypeKey::JustifyContentInput,
        TypeKey::OverflowInput,
        TypeKey::PositionTypeInput,
        TypeKey::UiRectInput,
        TypeKey::ValInput,
    ]
}

/// The outcome of registering `k` where `s` is registered: refused if `k` is there
/// already, else appended.
pub open spec fn register_key_spec(s: Seq<TypeKey>, k: TypeKey) -> (Result<(), RegistrationError>, Seq<TypeKey>) {
    if s.contains(k) {
        (Err(RegistrationError::Duplicate(k)), s)
    } else {
        (Ok(()), s.push(k))
    }
}

impl SchematicRegistry {
    /// The registered types, in order of registration.
    pub closed spec fn view(&self) -> Seq<TypeKey> {
        self.keys@
    }

    /// No type is registered twice.
    pub open spec fn wf(&self) -> bool {
        self@.no_duplicates()
    }

    /// An empty registry.
    pub fn new() -> (r: SchematicRegistry)
        ensures
            r@ == Seq::<TypeKey>::empty(),
            r.wf(),
    {
        SchematicRegistry { keys: Vec::new() }
    }

    /// The number of registered types.
    pub fn len(&self) -> (r: usize)
        ensures
            r == self@.len(),
    {
        self.keys.len()
    }

    /// The `i`-th registered type.
    pub fn get(&self, i: usize) -> (r: TypeKey)
        requires
            i < self@.len(),
        ensures
            r == self@[i as int],
    {
        self.keys[i]
    }

    /// Whether `key` is registered.
    pub fn contains(&self, key: TypeKey) -> (r: bool)
        ensures
            r == self@.contains(key),
    {
        let mut i: usize = 0;
        while i < self.keys.len()
            invariant
                i <= self.keys@.len(),
                forall|j: int| 0 <= j < i ==> self.keys@[j] != key,
            decreases self.keys@.len() - i,
        {
            if self.keys[i] == key {
                return true;
            }
            i = i + 1;
        }
        false
    }

    /// What is recorded of `key`, if it is registered; `None` tells the caller that it
    /// asked for a type that nobody registered.
    pub fn lookup(&self, key: TypeKey) -> (r: Option<RegistryEntry>)
        ensures
            r is Some <==> self@.contains(key),
            r matches Some(e) ==> e.key == key && e.kind == input_kind_spec(key) && e.names@
                == input_names_spec(key),
    {
        if self.contains(key) {
            Some(RegistryEntry { key, kind: key.input_kind(), names: key.input_names() })
        } else {
            None
        }
    }

    /// Registers `key`, or refuses it if it is registered already; a refusal leaves
    /// the registry as it was.
    pub fn register_key(&mut self, key: TypeKey) -> (r: Result<(), RegistrationError>)
        requires
            old(self).wf(),
        ensures
            final(self).wf(),
            (r, final(self)@) == register_key_spec(old(self)@, key),
    {
        if self.contains(key) {
            Err(RegistrationError::Duplicate(key))
        } else {
            self.keys.push(key);
            proof {
                assert forall|a: int, b: int|
                    0 <= a < b < self.keys@.len() implies self.keys@[a] != self.keys@[b] by {
                    if b == self.keys@.len() - 1 && self.keys@[a] == key {
                        assert(old(self)@[a] == key);
                        assert(old(self)@.contains(key));
                    }
                }
            }
            Ok(())
        }
    }
}

/// Registers every UI schematic type and every proxy type. It succeeds exactly when
/// none of them was registered before, and then appends them in their fixed order;
/// otherwise it stops at the first one found registered and names it.
pub fn register(registry: &mut SchematicRegistry) -> (r: Result<(), RegistrationError>)
    requires
        old(registry).wf(),
    ensures
        final(registry).wf(),
        r is Ok <==> (forall|k: TypeKey| ui_types().contains(k) ==> !old(registry)@.contains(k)),
        r is Ok ==> final(registry)@ == old(registry)@ + ui_types(),
        r matches Err(RegistrationError::Duplicate(k)) ==> old(registry)@.contains(k)
            && ui_types().contains(k),
{
    let keys = vec![
        TypeKey::BackgroundColor,
        TypeKey::Button,
        TypeKey::CalculatedClip,
        TypeKey::ContentSize,
        TypeKey::FocusPolicy,
        TypeKey::Interaction,
        TypeKey::Label,
        TypeKey::Node,
        TypeKey::RelativeCursorPosition,
        TypeKey::Style,
        TypeKey::UiImage,
        TypeKey::AlignContentInput,
        TypeKey::AlignItemsInput,
        TypeKey::AlignSelfInput,
        TypeKey::DirectionInput,
        TypeKey::DisplayInput,
        TypeKey::FlexDirectionInput,
        TypeKey::FlexWrapInput,
        TypeKey::JustifyContentInput,
        TypeKey::OverflowInput,
        TypeKey::PositionTypeInput,
        TypeKey::UiRectInput,
        TypeKey::ValInput,
    ];
    assert(keys@ =~= ui_types());
    proof {
        lemma_ui_types_distinct();
    }
    let ghost start = registry@;
    let mut i: usize = 0;
    while i < keys.len()
        invariant
            i <= keys@.len(),
            keys@ == ui_types(),
            ui_types().no_duplicates(),
            registry.wf(),
            start == old(registry)@,
            registry@ == start + keys@.take(i as int),
            forall|j: int| 0 <= j < i ==> !start.contains(#[trigger] keys@[j]),
        decreases keys@.len() - i,
    {
        let k = keys[i];
        let res = registry.register_key(k);
        if res.is_err() {
            proof {
                let reg = start + keys@.take(i as int);
                assert(reg.contains(k));
                let w = choose|w: int| 0 <= w < reg.len() && reg[w] == k;
                if w >= start.len() {
                    assert(keys@[w - start.len()] == keys@[i as int]);
                    assert(false);
                }
                assert(start[w] == k);
                assert(start.contains(k));
                assert(keys@[i as int] == k);
                assert(ui_types().contains(k));
            }
            return Err(RegistrationError::Duplicate(k));
        }
        proof {
            assert(keys@.take(i + 1) =~= keys@.take(i as int).push(k));
            assert(!(start + keys@.take(i as int)).contains(k));
            if start.contains(k) {
                let w = choose|w: int| 0 <= w < start.len() && start[w] == k;
                assert((start + keys@.take(i as int))[w] == k);
            }
        }
        i = i + 1;
    }
    assert(keys@.take(i as int) =~= keys@);
    proof {
        assert forall|k: TypeKey| ui_types().contains(k) implies !start.contains(k) by {
            let j = choose|j: int| 0 <= j < keys@.len() && keys@[j] == k;
            assert(!start.contains(keys@[j]));
        }
    }
    Ok(())
}

/// No type is listed twice among the UI types.
proof fn lemma_ui_types_distinct()
    ensures
        ui_types().no_duplicates(),
{
    let s = ui_types();
    assert forall|a: int, b: int| 0 <= a < s.len() && 0 <= b < s.len() && a != b implies s[a] != s[b] by {
    }
}

/// A type that was registered once is refused the second time, and the refusal leaves
/// the first registration in place.
pub proof fn lemma_register_twice_rejected(s: Seq<TypeKey>, k: TypeKey)
    requires
        s.no_duplicates(),
    ensures
        register_key_spec(register_key_spec(s, k).1, k) == (
        Err::<(), RegistrationError>(RegistrationError::Duplicate(k)),
        register_key_spec(s, k).1,
        ),
{
    let t = register_key_spec(s, k).1;
    if !s.contains(k) {
        assert(t[t.len() - 1] == k);
    }
}

/// After the UI types were registered once, registering them again cannot succeed:
/// by the contract of [`register`], some UI type is then already present.
pub proof fn lemma_register_again_rejected(s: Seq<TypeKey>)
    ensures
        !(forall|k: TypeKey| ui_types().contains(k) ==> !(s + ui_types()).contains(k)),
{
    let t = s + ui_types();
    assert(t[s.len() as int] == TypeKey::BackgroundColor);
    assert(t.contains(TypeKey::BackgroundColor));
    assert(ui_types()[0] == TypeKey::BackgroundColor);
    assert(ui_types().contains(TypeKey::BackgroundColor));
}

} // verus!
