//! Asset references: a field that names an external resource either by a handle that
//! is already bound or by a path that the host resolves later, and the image
//! component whose texture is such a reference.
use vstd::prelude::*;

verus! {

/// The handle id that the host gives its built-in default image.
pub const DEFAULT_IMAGE_HANDLE: u64 = 13148262314052771789;

/// A live handle to an asset, by the host's handle id.
#[derive(Clone, Copy, Debug, PartialEq, Eq, Structural)]
pub struct AssetHandle {
    pub id: u64,
}

/// When a reference is bound: while the input is converted, or when the owning
/// component is attached to its entity.
#[derive(Clone, Copy, Debug, PartialEq, Eq, Structural)]
pub enum Resolution {
    Eager,
    Lazy,
}

/// A reference to an external asset: a path to look up, or a handle already bound.
#[derive(Clone, Debug, PartialEq, Eq)]
pub enum ProtoAsset {
    AssetPath(String),
    HandleId(u64),
}

/// A reference that could not be resolved, with the identifier it held.
#[derive(Clone, Debug, PartialEq, Eq)]
pub struct MissingDependency {
    pub asset: ProtoAsset,
}

/// The assets that the host has loaded, as pairs of path and handle. A later pair
/// for the same path takes the place of an earlier one.
pub struct LoadedAssets {
    pub entries: Vec<(String, AssetHandle)>,
}

/// The handle of the last pair for `path`, if any.
pub open spec fn lookup_path(es: Seq<(String, AssetHandle)>, path: Seq<char>) -> Option<AssetHandle>
    decreases es.len(),
{
    if es.len() == 0 {
        None
    } else if es.last().0@ == path {
        Some(es.last().1)
    } else {
        lookup_path(es.drop_last(), path)
    }
}

/// What a reference resolves to: a bound handle as it is, a path by lookup.
pub open spec fn resolve_spec(a: ProtoAsset, es: Seq<(String, AssetHandle)>) -> Option<AssetHandle> {
    match a {
        ProtoAsset::AssetPath(p) => lookup_path(es, p@),
        ProtoAsset::HandleId(h) => Some(AssetHandle { id: h }),
    }
}

impl LoadedAssets {
    /// No asset loaded.
    pub fn new() -> (r: LoadedAssets)
        ensures
            r.entries@.len() == 0,
    {
        LoadedAssets { entries: Vec::new() }
    }

    /// Records that `path` is loaded under `handle`.
    pub fn insert(&mut self, path: String, handle: AssetHandle)
        ensures
            final(self).entries@ == old(self).entries@.push((path, handle)),
    {
        self.entries.push((path, handle));
    }

    /// The handle loaded for `path`, if any.
    pub fn lookup(&self, path: &String) -> (r: Option<AssetHandle>)
        ensures
            r == lookup_path(self.entries@, path@),
    {
        let mut k: usize = self.entries.len();
        assert(self.entries@.take(k as int) =~= self.entries@);
        while k > 0
            invariant
                k <= self.entries@.len(),
                lookup_path(self.entries@, path@) == lookup_path(self.entries@.take(k as int), path@),
            decreases k,
        {
            assert(self.entries@.take(k as int).drop_last() =~= self.entries@.take(k - 1));
            if self.entries[k - 1].0.eq(path) {
                return Some(self.entries[k - 1].1);
            }
            k = k - 1;
        }
        None
    }

    /// Resolves a reference: a bound handle as it is, a path by lookup.
    pub fn resolve(&self, asset: &ProtoAsset) -> (r: Option<AssetHandle>)
        ensures
            r == resolve_spec(*asset, self.entries@),
    {
        match asset {
            ProtoAsset::AssetPath(p) => self.lookup(p),
            ProtoAsset::HandleId(h) => Some(AssetHandle { id: *h }),
        }
    }
}

/// Input of [`UiImage`]: the texture is a reference, resolved lazily by default.
#[derive(Clone, Debug, PartialEq, Eq)]
pub struct UiImageInput {
    pub texture: ProtoAsset,
    pub flip_x: bool,
    pub flip_y: bool,
}

/// An image node: a bound texture and whether it is mirrored on each axis.
#[derive(Clone, Copy, Debug, PartialEq, Eq, Structural)]
pub struct UiImage {
    pub texture: AssetHandle,
    pub flip_x: bool,
    pub flip_y: bool,
}

/// An image whose flags are final and whose texture is still to be resolved.
#[derive(Clone, Debug, PartialEq, Eq)]
pub struct PendingImage {
    pub texture: ProtoAsset,
    pub flip_x: bool,
    pub flip_y: bool,
}

/// The result of converting an image input: done, or waiting for its texture.
#[derive(Clone, Debug, PartialEq, Eq)]
pub enum ImageConversion {
    Resolved(UiImage),
    Pending(PendingImage),
}

impl Default for UiImage {
    fn default() -> (r: Self)
        ensures
            r == (UiImage { texture: AssetHandle { id: DEFAULT_IMAGE_HANDLE }, flip_x: false, flip_y: false }),
    {
        UiImage { texture: AssetHandle { id: DEFAULT_IMAGE_HANDLE }, flip_x: false, flip_y: false }
    }
}

impl Default for UiImageInput {
    /// The input of the host's default image: its texture as a bound handle.
    fn default() -> (r: Self)
        ensures
            r == (UiImageInput {
                texture: ProtoAsset::HandleId(DEFAULT_IMAGE_HANDLE),
                flip_x: false,
                flip_y: false,
            }),
    {
        let base = UiImage::default();
        UiImageInput {
            texture: ProtoAsset::HandleId(base.texture.id),
            flip_x: base.flip_x,
            flip_y: base.flip_y,
        }
    }
}

/// The outcome of attaching a pending image: the image with its texture bound, or
/// the error naming the texture's path.
pub open spec fn attach_image_spec(p: PendingImage, es: Seq<(String, AssetHandle)>) -> Result<UiImage, MissingDependency> {
    match resolve_spec(p.texture, es) {
        Some(h) => Ok(UiImage { texture: h, flip_x: p.flip_x, flip_y: p.flip_y }),
        None => Err(MissingDependency { asset: p.texture }),
    }
}

/// The outcome of converting an image input under a policy: an eager reference is
/// resolved now or fails now; a lazy one leaves a pending image with its flags set.
pub open spec fn convert_image_spec(
    i: UiImageInput,
    policy: Resolution,
    es: Seq<(String, AssetHandle)>,
) -> Result<ImageConversion, MissingDependency> {
    let p = PendingImage { texture: i.texture, flip_x: i.flip_x, flip_y: i.flip_y };
    match policy {
        Resolution::Lazy => Ok(ImageConversion::Pending(p)),
        Resolution::Eager => match attach_image_spec(p, es) {
            Ok(img) => Ok(ImageConversion::Resolved(img)),
            Err(e) => Err(e),
        },
    }
}

impl PendingImage {
    /// Binds the texture now, or reports it missing.
    pub fn attach(self, loaded: &LoadedAssets) -> (r: Result<UiImage, MissingDependency>)
        ensures
            r == attach_image_spec(self, loaded.entries@),
    {
        match loaded.resolve(&self.texture) {
            Some(h) => Ok(UiImage { texture: h, flip_x: self.flip_x, flip_y: self.flip_y }),
            None => Err(MissingDependency { asset: self.texture }),
        }
    }
}

impl UiImageInput {
    /// Converts the input with the texture bound as `policy` says.
    pub fn convert(self, policy: Resolution, loaded: &LoadedAssets) -> (r: Result<ImageConversion, MissingDependency>)
        ensures
            r == convert_image_spec(self, policy, loaded.entries@),
    {
        let p = PendingImage { texture: self.texture, flip_x: self.flip_x, flip_y: self.flip_y };
        match policy {
            Resolution::Lazy => Ok(ImageConversion::Pending(p)),
            Resolution::Eager => match p.attach(loaded) {
                Ok(img) => Ok(ImageConversion::Resolved(img)),
                Err(e) => Err(e),
            },
        }
    }
}

} // verus!
