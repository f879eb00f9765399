use proto_ui::asset::{
    AssetHandle, ImageConversion, LoadedAssets, MissingDependency, PendingImage, ProtoAsset,
    Resolution, UiImage, UiImageInput, DEFAULT_IMAGE_HANDLE,
};

fn path(p: &str) -> ProtoAsset {
    ProtoAsset::AssetPath(p.to_string())
}

#[test]
fn lookup_takes_the_latest_entry_for_a_path() {
    let mut loaded = LoadedAssets::new();
    assert_eq!(loaded.lookup(&"a.png".to_string()), None);
    loaded.insert("a.png".to_string(), AssetHandle { id: 1 });
    loaded.insert("b.png".to_string(), AssetHandle { id: 2 });
    loaded.insert("a.png".to_string(), AssetHandle { id: 3 });
    assert_eq!(loaded.lookup(&"a.png".to_string()), Some(AssetHandle { id: 3 }));
    assert_eq!(loaded.lookup(&"b.png".to_string()), Some(AssetHandle { id: 2 }));
    assert_eq!(loaded.lookup(&"c.png".to_string()), None);
}

#[test]
fn bound_handle_resolves_without_lookup() {
    let loaded = LoadedAssets::new();
    assert_eq!(loaded.resolve(&ProtoAsset::HandleId(42)), Some(AssetHandle { id: 42 }));
    assert_eq!(loaded.resolve(&path("x.png")), None);
}

#[test]
fn unresolved_image_eager_fails_and_lazy_is_pending() {
    let loaded = LoadedAssets::new();
    let input = UiImageInput { texture: path("missing.png"), flip_x: true, flip_y: false };
    assert_eq!(
        input.clone().convert(Resolution::Eager, &loaded),
        Err(MissingDependency { asset: path("missing.png") })
    );
    let lazy = input.convert(Resolution::Lazy, &loaded);
    assert_eq!(
        lazy,
        Ok(ImageConversion::Pending(PendingImage {
            texture: path("missing.png"),
            flip_x: true,
            flip_y: false,
        }))
    );
}

#[test]
fn eager_image_binds_loaded_texture() {
    let mut loaded = LoadedAssets::new();
    loaded.insert("ok.png".to_string(), AssetHandle { id: 77 });
    let input = UiImageInput { texture: path("ok.png"), flip_x: false, flip_y: true };
    assert_eq!(
        input.convert(Resolution::Eager, &loaded),
        Ok(ImageConversion::Resolved(UiImage {
            texture: AssetHandle { id: 77 },
            flip_x: false,
            flip_y: true,
        }))
    );
}

#[test]
fn pending_image_attaches_once_loaded() {
    let pending = PendingImage { texture: path("late.png"), flip_x: true, flip_y: true };
    let mut loaded = LoadedAssets::new();
    assert_eq!(
        pending.clone().attach(&loaded),
        Err(MissingDependency { asset: path("late.png") })
    );
    loaded.insert("late.png".to_string(), AssetHandle { id: 5 });
    assert_eq!(
        pending.attach(&loaded),
        Ok(UiImage { texture: AssetHandle { id: 5 }, flip_x: true, flip_y: true })
    );
}

#[test]
fn default_image_input_names_default_handle() {
    let input = UiImageInput::default();
    assert_eq!(input.texture, ProtoAsset::HandleId(DEFAULT_IMAGE_HANDLE));
    let loaded = LoadedAssets::new();
    assert_eq!(
        input.convert(Resolution::Eager, &loaded),
        Ok(ImageConversion::Resolved(UiImage::default()))
    );
}
