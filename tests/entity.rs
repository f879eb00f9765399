use proto_ui::asset::{
    AssetHandle, LoadedAssets, MissingDependency, PendingImage, ProtoAsset, Resolution, UiImage,
    UiImageInput,
};
use proto_ui::components::{ButtonInput, Button, ZIndex, ZIndexInput};
use proto_ui::entity::{attach_all, instantiate, stage, Component, SchematicInput, Staged};
use proto_ui::style::{Style, StyleInput};

type Input = SchematicInput<u8, u8>;

#[test]
fn unresolved_texture_fails_only_the_image() {
    let loaded = LoadedAssets::new();
    let inputs: Vec<Input> = vec![
        SchematicInput::Style(StyleInput::default()),
        SchematicInput::UiImage(UiImageInput {
            texture: ProtoAsset::AssetPath("nowhere.png".to_string()),
            flip_x: true,
            flip_y: false,
        }),
    ];
    let mut staged = Vec::new();
    for i in inputs {
        staged.push(stage(i, Resolution::Lazy, &loaded).unwrap());
    }
    let (attached, missing) = attach_all(staged, &loaded);
    assert_eq!(attached, vec![Component::Style(Style::default())]);
    assert_eq!(
        missing,
        vec![MissingDependency { asset: ProtoAsset::AssetPath("nowhere.png".to_string()) }]
    );
}

#[test]
fn lazy_image_is_placeholder_with_flags() {
    let loaded = LoadedAssets::new();
    let i: Input = SchematicInput::UiImage(UiImageInput {
        texture: ProtoAsset::AssetPath("nowhere.png".to_string()),
        flip_x: true,
        flip_y: false,
    });
    match stage(i, Resolution::Lazy, &loaded) {
        Ok(Staged::AwaitingTexture(p)) => {
            assert!(p.flip_x);
            assert!(!p.flip_y);
        }
        other => panic!("unexpected {:?}", other),
    }
}

#[test]
fn eager_image_fails_at_staging() {
    let loaded = LoadedAssets::new();
    let i: Input = SchematicInput::UiImage(UiImageInput {
        texture: ProtoAsset::AssetPath("nowhere.png".to_string()),
        flip_x: true,
        flip_y: false,
    });
    assert_eq!(
        stage(i, Resolution::Eager, &loaded),
        Err(MissingDependency { asset: ProtoAsset::AssetPath("nowhere.png".to_string()) })
    );
}

#[test]
fn attach_keeps_input_order() {
    let mut loaded = LoadedAssets::new();
    loaded.insert("a.png".to_string(), AssetHandle { id: 10 });
    let staged: Vec<Staged<u8, u8>> = vec![
        Staged::Ready(Component::ZIndex(ZIndex::Global(2))),
        Staged::AwaitingTexture(PendingImage {
            texture: ProtoAsset::AssetPath("gone.png".to_string()),
            flip_x: false,
            flip_y: false,
        }),
        Staged::AwaitingTexture(PendingImage {
            texture: ProtoAsset::AssetPath("a.png".to_string()),
            flip_x: false,
            flip_y: true,
        }),
        Staged::Ready(Component::Button(Button)),
    ];
    let (attached, missing) = attach_all(staged, &loaded);
    assert_eq!(
        attached,
        vec![
            Component::ZIndex(ZIndex::Global(2)),
            Component::UiImage(UiImage { texture: AssetHandle { id: 10 }, flip_x: false, flip_y: true }),
            Component::Button(Button),
        ]
    );
    assert_eq!(missing.len(), 1);
    assert_eq!(missing[0].asset, ProtoAsset::AssetPath("gone.png".to_string()));
}

#[test]
fn plain_inputs_stage_ready() {
    let loaded = LoadedAssets::new();
    assert_eq!(
        stage::<u8, u8>(SchematicInput::ZIndex(ZIndexInput::Local(4)), Resolution::Eager, &loaded),
        Ok(Staged::Ready(Component::ZIndex(ZIndex::Local(4))))
    );
    assert_eq!(
        stage::<u8, u8>(SchematicInput::Button(ButtonInput), Resolution::Lazy, &loaded),
        Ok(Staged::Ready(Component::Button(Button)))
    );
}

fn entity_with_missing_texture() -> Vec<Input> {
    vec![
        SchematicInput::Style(StyleInput::default()),
        SchematicInput::UiImage(UiImageInput {
            texture: ProtoAsset::AssetPath("nowhere.png".to_string()),
            flip_x: true,
            flip_y: false,
        }),
        SchematicInput::ZIndex(ZIndexInput::Global(1)),
    ]
}

#[test]
fn instantiate_lazy_missing_texture_keeps_siblings() {
    let loaded = LoadedAssets::new();
    let (attached, missing) = instantiate(entity_with_missing_texture(), Resolution::Lazy, &loaded);
    assert_eq!(
        attached,
        vec![Component::Style(Style::default()), Component::ZIndex(ZIndex::Global(1))]
    );
    assert_eq!(
        missing,
        vec![MissingDependency { asset: ProtoAsset::AssetPath("nowhere.png".to_string()) }]
    );
}

#[test]
fn instantiate_eager_missing_texture_keeps_siblings() {
    let loaded = LoadedAssets::new();
    let (attached, missing) = instantiate(entity_with_missing_texture(), Resolution::Eager, &loaded);
    assert_eq!(attached.len(), 2);
    assert_eq!(missing.len(), 1);
    assert_eq!(missing[0].asset, ProtoAsset::AssetPath("nowhere.png".to_string()));
}

#[test]
fn instantiate_binds_loaded_texture() {
    let mut loaded = LoadedAssets::new();
    loaded.insert("nowhere.png".to_string(), AssetHandle { id: 9 });
    let (attached, missing) = instantiate(entity_with_missing_texture(), Resolution::Lazy, &loaded);
    assert!(missing.is_empty());
    assert_eq!(
        attached[1],
        Component::UiImage(UiImage { texture: AssetHandle { id: 9 }, flip_x: true, flip_y: false })
    );
    assert_eq!(attached.len(), 3);
}
