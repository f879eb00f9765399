//! Materializing an entity: every schematic input is converted to a component, or to a
//! component that waits for its asset; then each is attached or reported missing on
//! its own, so one missing asset costs only the component that needs it.
use vstd::prelude::*;

use crate::asset::{
    attach_image_spec, convert_image_spec, AssetHandle, ImageConversion, LoadedAssets,
    MissingDependency, PendingImage, ProtoAsset, Resolution, UiImage, UiImageInput,
    DEFAULT_IMAGE_HANDLE,
};
use crate::components::{
    focus_policy_from_input, interaction_from_input, z_index_from_input, BackgroundColor,
    BackgroundColorInput, BorderColor, BorderColorInput, Button, ButtonInput, CalculatedClip,
    CalculatedClipInput, ContentSize, ContentSizeInput, FocusPolicy, FocusPolicyInput,
    Interaction, InteractionInput, Label, LabelInput, Node, NodeInput, RelativeCursorPosition,
    RelativeCursorPositionInput, ZIndex, ZIndexInput, color_white, rect_zero, vec2_zero,
};
use crate::style::{is_default_style, style_from_input, Style, StyleInput};

verus! {

/// The input of any supported component, as read from prototype data.
#[derive(Clone, Debug, PartialEq)]
pub enum SchematicInput<T, R> {
    BackgroundColor(BackgroundColorInput),
    BorderColor(BorderColorInput),
    Button(ButtonInput),
    CalculatedClip(CalculatedClipInput),
    ContentSize(ContentSizeInput),
    FocusPolicy(FocusPolicyInput),
    Interaction(InteractionInput),
    Label(LabelInput),
    Node(NodeInput),
    RelativeCursorPosition(RelativeCursorPositionInput),
    Style(StyleInput<T, R>),
    UiImage(UiImageInput),
    ZIndex(ZIndexInput),
}

/// A component value, ready to be attached to an entity.
#[derive(Clone, Debug, PartialEq)]
pub enum Component<T, R> {
    BackgroundColor(BackgroundColor),
    BorderColor(BorderColor),
    Button(Button),
    CalculatedClip(CalculatedClip),
    ContentSize(ContentSize),
    FocusPolicy(FocusPolicy),
    Interaction(Interaction),
    Label(Label),
    Node(Node),
    RelativeCursorPosition(RelativeCursorPosition),
    Style(Style<T, R>),
    UiImage(UiImage),
    ZIndex(ZIndex),
}

/// A converted input: a finished component, or an image waiting for its texture.
#[derive(Clone, Debug, PartialEq)]
pub enum Staged<T, R> {
    Ready(Component<T, R>),
    AwaitingTexture(PendingImage),
}

/// The outcome of converting one input. Every input but an image converts on its
/// own; an image follows its texture's resolution policy.
pub open spec fn stage_spec<T, R>(
    i: SchematicInput<T, R>,
    policy: Resolution,
    es: Seq<(String, AssetHandle)>,
) -> Result<Staged<T, R>, MissingDependency> {
    match i {
        SchematicInput::BackgroundColor(x) => Ok(Staged::Ready(Component::BackgroundColor(BackgroundColor(x.0)))),
        SchematicInput::BorderColor(x) => Ok(Staged::Ready(Component::BorderColor(BorderColor(x.0)))),
        SchematicInput::Button(x) => Ok(Staged::Ready(Component::Button(Button))),
        SchematicInput::CalculatedClip(x) => Ok(Staged::Ready(Component::CalculatedClip(CalculatedClip { clip: x.clip }))),
        SchematicInput::ContentSize(x) => Ok(
            Staged::Ready(
                Component::ContentSize(
                    ContentSize { size: x.size, preserve_aspect_ratio: x.preserve_aspect_ratio },
                ),
            ),
        ),
        SchematicInput::FocusPolicy(x) => Ok(Staged::Ready(Component::FocusPolicy(focus_policy_from_input(x)))),
        SchematicInput::Interaction(x) => Ok(Staged::Ready(Component::Interaction(interaction_from_input(x)))),
        SchematicInput::Label(x) => Ok(Staged::Ready(Component::Label(Label))),
        SchematicInput::Node(x) => Ok(Staged::Ready(Component::Node(Node { calculated_size: vec2_zero() }))),
        SchematicInput::RelativeCursorPosition(x) => Ok(
            Staged::Ready(
                Component::RelativeCursorPosition(RelativeCursorPosition { normalized: x.normalized }),
            ),
        ),
        SchematicInput::Style(x) => Ok(Staged::Ready(Component::Style(style_from_input(x)))),
        SchematicInput::UiImage(x) => match convert_image_spec(x, policy, es) {
            Ok(ImageConversion::Resolved(img)) => Ok(Staged::Ready(Component::UiImage(img))),
            Ok(ImageConversion::Pending(p)) => Ok(Staged::AwaitingTexture(p)),
            Err(e) => Err(e),
        },
        SchematicInput::ZIndex(x) => Ok(Staged::Ready(Component::ZIndex(z_index_from_input(x)))),
    }
}

/// The outcome of attaching one converted input.
pub open spec fn attach_spec<T, R>(s: Staged<T, R>, es: Seq<(String, AssetHandle)>) -> Result<Component<T, R>, MissingDependency> {
    match s {
        Staged::Ready(c) => Ok(c),
        Staged::AwaitingTexture(p) => match attach_image_spec(p, es) {
            Ok(img) => Ok(Component::UiImage(img)),
            Err(e) => Err(e),
        },
    }
}

/// The components among some outcomes, in order.
pub open spec fn oks<T, R>(rs: Seq<Result<Component<T, R>, MissingDependency>>) -> Seq<Component<T, R>>
    decreases rs.len(),
{
    if rs.len() == 0 {
        Seq::empty()
    } else {
        let rest = oks(rs.drop_last());
        match rs.last() {
            Ok(c) => rest.push(c),
            Err(e) => rest,
        }
    }
}

/// The missing dependencies among some outcomes, in order.
pub open spec fn errs<T, R>(rs: Seq<Result<Component<T, R>, MissingDependency>>) -> Seq<MissingDependency>
    decreases rs.len(),
{
    if rs.len() == 0 {
        Seq::empty()
    } else {
        let rest = errs(rs.drop_last());
        match rs.last() {
            Ok(c) => rest,
            Err(e) => rest.push(e),
        }
    }
}

/// The outcome of attaching each converted input.
pub open spec fn attach_outcomes<T, R>(ss: Seq<Staged<T, R>>, es: Seq<(String, AssetHandle)>) -> Seq<Result<Component<T, R>, MissingDependency>> {
    ss.map_values(|s: Staged<T, R>| attach_spec(s, es))
}

/// The outcome of converting and then attaching one input.
pub open spec fn instantiate_spec<T, R>(
    i: SchematicInput<T, R>,
    policy: Resolution,
    es: Seq<(String, AssetHandle)>,
) -> Result<Component<T, R>, MissingDependency> {
    match stage_spec(i, policy, es) {
        Ok(s) => attach_spec(s, es),
        Err(e) => Err(e),
    }
}

/// The outcome of converting and then attaching each input.
pub open spec fn instantiate_outcomes<T, R>(
    is: Seq<SchematicInput<T, R>>,
    policy: Resolution,
    es: Seq<(String, AssetHandle)>,
) -> Seq<Result<Component<T, R>, MissingDependency>> {
    is.map_values(|i: SchematicInput<T, R>| instantiate_spec(i, policy, es))
}

/// Converts one input. An image texture with the eager policy is resolved here, and
/// its absence is an error here; with the lazy policy it is left for attachment.
pub fn stage<T, R>(input: SchematicInput<T, R>, policy: Resolution, loaded: &LoadedAssets) -> (r: Result<Staged<T, R>, MissingDependency>)
    ensures
        r == stage_spec(input, policy, loaded.entries@),
{
    match input {
        SchematicInput::BackgroundColor(x) => Ok(Staged::Ready(Component::BackgroundColor(BackgroundColor::from(x)))),
        SchematicInput::BorderColor(x) => Ok(Staged::Ready(Component::BorderColor(BorderColor::from(x)))),
        SchematicInput::Button(x) => Ok(Staged::Ready(Component::Button(Button::from(x)))),
        SchematicInput::CalculatedClip(x) => Ok(Staged::Ready(Component::CalculatedClip(CalculatedClip::from(x)))),
        SchematicInput::ContentSize(x) => Ok(Staged::Ready(Component::ContentSize(ContentSize::from(x)))),
        SchematicInput::FocusPolicy(x) => Ok(Staged::Ready(Component::FocusPolicy(FocusPolicy::from(x)))),
        SchematicInput::Interaction(x) => Ok(Staged::Ready(Component::Interaction(Interaction::from(x)))),
        SchematicInput::Label(x) => Ok(Staged::Ready(Component::Label(Label::from(x)))),
        SchematicInput::Node(x) => Ok(Staged::Ready(Component::Node(Node::from(x)))),
        SchematicInput::RelativeCursorPosition(x) => Ok(
            Staged::Ready(Component::RelativeCursorPosition(RelativeCursorPosition::from(x))),
        ),
        SchematicInput::Style(x) => Ok(Staged::Ready(Component::Style(Style::from(x)))),
        SchematicInput::UiImage(x) => match x.convert(policy, loaded) {
            Ok(ImageConversion::Resolved(img)) => Ok(Staged::Ready(Component::UiImage(img))),
            Ok(ImageConversion::Pending(p)) => Ok(Staged::AwaitingTexture(p)),
            Err(e) => Err(e),
        },
        SchematicInput::ZIndex(x) => Ok(Staged::Ready(Component::ZIndex(ZIndex::from(x)))),
    }
}

/// Attaches converted inputs in order: every finished component is kept, every
/// pending image is bound or reported, and one failure never touches the others.
pub fn attach_all<T, R>(staged: Vec<Staged<T, R>>, loaded: &LoadedAssets) -> (r: (Vec<Component<T, R>>, Vec<MissingDependency>))
    ensures
        r.0@ == oks(attach_outcomes(staged@, loaded.entries@)),
        r.1@ == errs(attach_outcomes(staged@, loaded.entries@)),
{
    let ghost all = staged@;
    let ghost outs = attach_outcomes(all, loaded.entries@);
    let mut rest = staged;
    let mut attached: Vec<Component<T, R>> = Vec::new();
    let mut missing: Vec<MissingDependency> = Vec::new();
    let ghost mut k: int = 0;
    while rest.len() > 0
        invariant
            0 <= k <= all.len(),
            k + rest@.len() == all.len(),
            rest@ == all.skip(k),
            outs == attach_outcomes(all, loaded.entries@),
            attached@ == oks(outs.take(k)),
            missing@ == errs(outs.take(k)),
        decreases rest.len(),
    {
        let s = rest.remove(0);
        proof {
            assert(outs.take(k + 1).drop_last() =~= outs.take(k));
            assert(outs.take(k + 1).last() == attach_spec(all[k], loaded.entries@));
            assert(rest@ =~= all.skip(k + 1));
        }
        match s {
            Staged::Ready(c) => attached.push(c),
            Staged::AwaitingTexture(p) => match p.attach(loaded) {
                Ok(img) => attached.push(Component::UiImage(img)),
                Err(e) => missing.push(e),
            },
        }
        proof {
            k = k + 1;
        }
    }
    assert(outs.take(k) =~= outs);
    (attached, missing)
}

/// Converts and attaches the inputs of one entity in order. Each input either gives
/// its component or one missing dependency, on its own: an eager texture that does
/// not resolve fails while converting, a lazy one while attaching.
pub fn instantiate<T, R>(
    inputs: Vec<SchematicInput<T, R>>,
    policy: Resolution,
    loaded: &LoadedAssets,
) -> (r: (Vec<Component<T, R>>, Vec<MissingDependency>))
    ensures
        r.0@ == oks(instantiate_outcomes(inputs@, policy, loaded.entries@)),
        r.1@ == errs(instantiate_outcomes(inputs@, policy, loaded.entries@)),
{
    let ghost all = inputs@;
    let ghost outs = instantiate_outcomes(all, policy, loaded.entries@);
    let mut rest = inputs;
    let mut attached: Vec<Component<T, R>> = Vec::new();
    let mut missing: Vec<MissingDependency> = Vec::new();
    let ghost mut k: int = 0;
    while rest.len() > 0
        invariant
            0 <= k <= all.len(),
            k + rest@.len() == all.len(),
            rest@ == all.skip(k),
            outs == instantiate_outcomes(all, policy, loaded.entries@),
            attached@ == oks(outs.take(k)),
            missing@ == errs(outs.take(k)),
        decreases rest.len(),
    {
        let i = rest.remove(0);
        proof {
            assert(outs.take(k + 1).drop_last() =~= outs.take(k));
            assert(outs.take(k + 1).last() == instantiate_spec(all[k], policy, loaded.entries@));
            assert(rest@ =~= all.skip(k + 1));
        }
        match stage(i, policy, loaded) {
            Ok(Staged::Ready(c)) => attached.push(c),
            Ok(Staged::AwaitingTexture(p)) => match p.attach(loaded) {
                Ok(img) => attached.push(Component::UiImage(img)),
                Err(e) => missing.push(e),
            },
            Err(e) => missing.push(e),
        }
        proof {
            k = k + 1;
        }
    }
    assert(outs.take(k) =~= outs);
    (attached, missing)
}

/// Splitting a sequence of outcomes in two splits its components and its missing
/// dependencies the same way.
pub proof fn lemma_outcomes_concat<T, R>(
    a: Seq<Result<Component<T, R>, MissingDependency>>,
    b: Seq<Result<Component<T, R>, MissingDependency>>,
)
    ensures
        oks(a + b) == oks(a) + oks(b),
        errs(a + b) == errs(a) + errs(b),
    decreases b.len(),
{
    if b.len() == 0 {
        assert(a + b =~= a);
        assert(oks(a) + oks(b) =~= oks(a));
        assert(errs(a) + errs(b) =~= errs(a));
    } else {
        lemma_outcomes_concat(a, b.drop_last());
        assert((a + b).drop_last() =~= a + b.drop_last());
        assert((a + b).last() == b.last());
        match b.last() {
            Ok(c) => {
                assert(oks(a) + oks(b.drop_last()).push(c) =~= (oks(a) + oks(b.drop_last())).push(c));
            },
            Err(e) => {
                assert(errs(a) + errs(b.drop_last()).push(e) =~= (errs(a) + errs(b.drop_last())).push(e));
            },
        }
    }
}

/// One failed outcome among others removes only its own component and adds only its
/// own missing dependency.
pub proof fn lemma_failure_is_local<T, R>(
    a: Seq<Result<Component<T, R>, MissingDependency>>,
    e: MissingDependency,
    b: Seq<Result<Component<T, R>, MissingDependency>>,
)
    ensures
        oks(a + seq![Err(e)] + b) == oks(a) + oks(b),
        errs(a + seq![Err(e)] + b) == errs(a) + seq![e] + errs(b),
{
    let one = seq![Err::<Component<T, R>, MissingDependency>(e)];
    lemma_outcomes_concat(a, one);
    lemma_outcomes_concat(a + one, b);
    assert(one.drop_last() =~= Seq::<Result<Component<T, R>, MissingDependency>>::empty());
    assert(one.last() == Err::<Component<T, R>, MissingDependency>(e));
    assert(oks(one.drop_last()) =~= Seq::<Component<T, R>>::empty());
    assert(errs(one.drop_last()) =~= Seq::<MissingDependency>::empty());
    assert(oks(one) =~= Seq::<Component<T, R>>::empty());
    assert(errs(one) =~= seq![e]);
    assert(oks(a) + oks(one) =~= oks(a));
}

/// A lazily referenced texture that never resolves fails alone: the entity gets every
/// other component it would have had, and one error that names the texture.
pub proof fn lemma_unresolved_fails_alone<T, R>(
    a: Seq<Staged<T, R>>,
    p: PendingImage,
    b: Seq<Staged<T, R>>,
    es: Seq<(String, AssetHandle)>,
)
    requires
        attach_image_spec(p, es) is Err,
    ensures
        oks(attach_outcomes(a + seq![Staged::AwaitingTexture(p)] + b, es)) == oks(attach_outcomes(a, es))
            + oks(attach_outcomes(b, es)),
        errs(attach_outcomes(a + seq![Staged::AwaitingTexture(p)] + b, es)) == errs(
            attach_outcomes(a, es),
        ) + seq![MissingDependency { asset: p.texture }] + errs(attach_outcomes(b, es)),
{
    let e = MissingDependency { asset: p.texture };
    let one = seq![Staged::<T, R>::AwaitingTexture(p)];
    assert(attach_outcomes(a + one + b, es) =~= attach_outcomes(a, es) + seq![Err(e)]
        + attach_outcomes(b, es));
    lemma_failure_is_local(attach_outcomes(a, es), e, attach_outcomes(b, es));
}

/// An input that fails to instantiate, for want of its texture under either policy,
/// fails alone: the other inputs of the entity give what they give without it.
pub proof fn lemma_instantiate_fails_alone<T, R>(
    a: Seq<SchematicInput<T, R>>,
    x: SchematicInput<T, R>,
    b: Seq<SchematicInput<T, R>>,
    policy: Resolution,
    es: Seq<(String, AssetHandle)>,
)
    requires
        instantiate_spec(x, policy, es) is Err,
    ensures
        oks(instantiate_outcomes(a + seq![x] + b, policy, es)) == oks(instantiate_outcomes(a, policy, es))
            + oks(instantiate_outcomes(b, policy, es)),
        errs(instantiate_outcomes(a + seq![x] + b, policy, es)) == errs(
            instantiate_outcomes(a, policy, es),
        ) + seq![instantiate_spec(x, policy, es)->Err_0] + errs(instantiate_outcomes(b, policy, es)),
{
    let e = instantiate_spec(x, policy, es)->Err_0;
    assert(instantiate_outcomes(a + seq![x] + b, policy, es) =~= instantiate_outcomes(a, policy, es)
        + seq![Err(e)] + instantiate_outcomes(b, policy, es));
    lemma_failure_is_local(instantiate_outcomes(a, policy, es), e, instantiate_outcomes(b, policy, es));
}

/// Every component's default input converts to the component's default value,
/// whatever the policy and whatever is loaded: the default image names its texture
/// by a handle that is already bound.
pub proof fn lemma_defaults_convert_to_defaults<T, R>(
    policy: Resolution,
    es: Seq<(String, AssetHandle)>,
    style: StyleInput<T, R>,
)
    requires
        is_default_style(style_from_input(style)),
    ensures
        stage_spec(SchematicInput::<T, R>::BackgroundColor(BackgroundColorInput(color_white())), policy, es)
            == Ok::<Staged<T, R>, MissingDependency>(Staged::Ready(Component::BackgroundColor(BackgroundColor(color_white())))),
        stage_spec(SchematicInput::<T, R>::BorderColor(BorderColorInput(color_white())), policy, es)
            == Ok::<Staged<T, R>, MissingDependency>(Staged::Ready(Component::BorderColor(BorderColor(color_white())))),
        stage_spec(SchematicInput::<T, R>::Button(ButtonInput), policy, es)
            == Ok::<Staged<T, R>, MissingDependency>(Staged::Ready(Component::Button(Button))),
        stage_spec(SchematicInput::<T, R>::CalculatedClip(CalculatedClipInput { clip: rect_zero() }), policy, es)
            == Ok::<Staged<T, R>, MissingDependency>(Staged::Ready(Component::CalculatedClip(CalculatedClip { clip: rect_zero() }))),
        stage_spec(
            SchematicInput::<T, R>::ContentSize(ContentSizeInput { size: vec2_zero(), preserve_aspect_ratio: false }),
            policy,
            es,
        ) == Ok::<Staged<T, R>, MissingDependency>(
            Staged::Ready(Component::ContentSize(ContentSize { size: vec2_zero(), preserve_aspect_ratio: false })),
        ),
        stage_spec(SchematicInput::<T, R>::FocusPolicy(FocusPolicyInput::Pass), policy, es)
            == Ok::<Staged<T, R>, MissingDependency>(Staged::Ready(Component::FocusPolicy(FocusPolicy::Pass))),
        stage_spec(SchematicInput::<T, R>::Interaction(InteractionInput::Idle), policy, es)
            == Ok::<Staged<T, R>, MissingDependency>(Staged::Ready(Component::Interaction(Interaction::Idle))),
        stage_spec(SchematicInput::<T, R>::Node(NodeInput), policy, es)
            == Ok::<Staged<T, R>, MissingDependency>(Staged::Ready(Component::Node(Node { calculated_size: vec2_zero() }))),
        stage_spec(SchematicInput::<T, R>::RelativeCursorPosition(RelativeCursorPositionInput { normalized: None }), policy, es)
            == Ok::<Staged<T, R>, MissingDependency>(
            Staged::Ready(Component::RelativeCursorPosition(RelativeCursorPosition { normalized: None })),
        ),
        stage_spec(SchematicInput::<T, R>::Style(style), policy, es) matches Ok(Staged::Ready(Component::Style(c)))
            && is_default_style(c),
        stage_spec(SchematicInput::<T, R>::ZIndex(ZIndexInput::Local(0)), policy, es)
            == Ok::<Staged<T, R>, MissingDependency>(Staged::Ready(Component::ZIndex(ZIndex::Local(0)))),
        attach_spec(
            stage_spec(
                SchematicInput::<T, R>::UiImage(
                    UiImageInput { texture: ProtoAsset::HandleId(DEFAULT_IMAGE_HANDLE), flip_x: false, flip_y: false },
                ),
                policy,
                es,
            )->Ok_0,
            es,
        ) == Ok::<Component<T, R>, MissingDependency>(
            Component::UiImage(UiImage { texture: AssetHandle { id: DEFAULT_IMAGE_HANDLE }, flip_x: false, flip_y: false }),
        ),
{
}

} // verus!
