use vstd::prelude::*;
use crate::gpu::bind_group::{TextureBucket, TEXTURE_BUCKET_COUNT, texture_bucket, bucket_spec};
use crate::gpu::buffer::storage::material_index::{
    Data, DataView, TextureRef, WriteError, data_write, data_empty,
};
use crate::level::manifest::{Manifest, Material, TextureAddressing};
use crate::util::strings::{find_first, lemma_find_first, position_of};

verus! {

/// Texture addressing mode value for linear sampling.
pub const TEXTURE_ADDRESSING_LINEAR: u32 = 0;
/// Texture addressing mode value for nearest sampling.
pub const TEXTURE_ADDRESSING_NEAREST: u32 = 1;

/// What `image::load_from_memory` followed by `to_rgba8` gives for some bytes:
/// the width, height and RGBA8 pixels of the image, or the text of the error.
pub uninterp spec fn image_decode(data: Seq<u8>) -> Result<(u32, u32, Seq<u8>), Seq<char>>;

/// A decoded image in RGBA8.
pub struct Image {
    pub width: u32,
    pub height: u32,
    pub pixels: Vec<u8>,
}

/// Decodes an image with `image::load_from_memory` and converts it to RGBA8. The
/// contract names the result `image_decode` of the input bytes; which image
/// formats are recognised and how they decode is the image crate's and is not
/// stated.
#[verifier::external_body]
fn decode_rgba8(data: &[u8]) -> (res: Result<Image, String>)
    ensures
        match res {
            Ok(img) => image_decode(data@) == Ok::<(u32, u32, Seq<u8>), Seq<char>>((img.width, img.height, img.pixels@)),
            Err(e) => image_decode(data@) == Err::<(u32, u32, Seq<u8>), Seq<char>>(e@),
        },
{
    match image::load_from_memory(data) {
        Ok(img) => {
            let rgba = img.to_rgba8();
            let (width, height) = rgba.dimensions();
            Ok(Image { width, height, pixels: rgba.into_raw() })
        },
        Err(err) => Err(err.to_string()),
    }
}

/// Why a level's materials could not be loaded.
#[derive(Debug)]
pub enum LoadError {
    ImageDecode(String),
    TextureBucketMissing { width: u32, height: u32 },
    TextureBucketFull { width: u32, height: u32 },
    MaterialIndex(WriteError),
}

/// The mathematical content of a material load error.
pub enum LoadErrorView {
    ImageDecode(Seq<char>),
    TextureBucketMissing { width: u32, height: u32 },
    TextureBucketFull { width: u32, height: u32 },
    MaterialIndex(WriteError),
}

impl View for LoadError {
    type V = LoadErrorView;

    open spec fn view(&self) -> LoadErrorView {
        match self {
            LoadError::ImageDecode(m) => LoadErrorView::ImageDecode(m@),
            LoadError::TextureBucketMissing { width, height } =>
                LoadErrorView::TextureBucketMissing { width: *width, height: *height },
            LoadError::TextureBucketFull { width, height } =>
                LoadErrorView::TextureBucketFull { width: *width, height: *height },
            LoadError::MaterialIndex(e) => LoadErrorView::MaterialIndex(*e),
        }
    }
}

/// A frame image to copy into a layer of a texture bucket.
pub struct Upload {
    pub bucket: usize,
    pub layer: usize,
    pub image: Image,
}

/// The mathematical content of an upload.
pub struct UploadView {
    pub bucket: nat,
    pub layer: nat,
    pub width: u32,
    pub height: u32,
    pub pixels: Seq<u8>,
}

impl View for Upload {
    type V = UploadView;

    open spec fn view(&self) -> UploadView {
        UploadView {
            bucket: self.bucket as nat,
            layer: self.layer as nat,
            width: self.image.width,
            height: self.image.height,
            pixels: self.image.pixels@,
        }
    }
}

/// The outcome of loading a level's materials: the material index to upload and
/// the frame images to copy into the texture buckets.
pub struct LoadResult<P> {
    pub material_index: Data<P>,
    pub uploads: Vec<Upload>,
}

/// Where texture planning stands: the next free layer of each bucket, the
/// frames already placed (by href), and the uploads decided so far.
pub struct Plan {
    pub next_free: Seq<nat>,
    pub cache: Seq<(String, TextureRef)>,
    pub uploads: Seq<UploadView>,
}

/// Nothing placed yet.
pub open spec fn plan_empty() -> Plan {
    Plan {
        next_free: Seq::new(TEXTURE_BUCKET_COUNT as nat, |i: int| 0nat),
        cache: Seq::empty(),
        uploads: Seq::empty(),
    }
}

/// Whether bucket `ix` holds textures of the given size.
pub open spec fn bucket_fits(ix: int, w: u32, h: u32) -> bool {
    bucket_spec(ix).width == w && bucket_spec(ix).height == h
}

/// The first of the first `n` buckets that holds textures of the given size.
pub open spec fn find_bucket_upto(w: u32, h: u32, n: nat) -> Option<nat>
    decreases n,
{
    if n == 0 {
        None
    } else {
        match find_bucket_upto(w, h, (n - 1) as nat) {
            Some(b) => Some(b),
            None => if bucket_fits(n - 1, w, h) { Some((n - 1) as nat) } else { None },
        }
    }
}

/// The bucket that holds textures of the given size, if any.
pub open spec fn find_bucket(w: u32, h: u32) -> Option<nat> {
    find_bucket_upto(w, h, TEXTURE_BUCKET_COUNT as nat)
}

proof fn lemma_find_bucket_upto(w: u32, h: u32, n: nat)
    ensures
        find_bucket_upto(w, h, n) matches Some(b) ==> b < n && bucket_fits(b as int, w, h),
    decreases n,
{
    if n > 0 {
        lemma_find_bucket_upto(w, h, (n - 1) as nat);
    }
}

/// Once the first `b + 1` buckets find bucket `b`, more buckets find it too.
proof fn lemma_find_bucket_found(w: u32, h: u32, b: nat, n: nat)
    requires
        b < n,
        find_bucket_upto(w, h, b) is None,
        bucket_fits(b as int, w, h),
    ensures
        find_bucket_upto(w, h, n) == Some(b),
    decreases n,
{
    if n > b + 1 {
        lemma_find_bucket_found(w, h, b, (n - 1) as nat);
    }
}

/// The bucket whose textures have exactly the size `w` x `h`, if any.
pub fn find_texture_bucket(w: u32, h: u32) -> (res: Option<usize>)
    ensures
        res matches Some(b) ==> find_bucket(w, h) == Some(b as nat) && b < TEXTURE_BUCKET_COUNT,
        res is None ==> find_bucket(w, h) is None,
{
    proof {
        lemma_find_bucket_upto(w, h, TEXTURE_BUCKET_COUNT as nat);
    }
    let mut i: usize = 0;
    while i < TEXTURE_BUCKET_COUNT
        invariant
            i <= TEXTURE_BUCKET_COUNT,
            find_bucket_upto(w, h, i as nat) is None,
        decreases TEXTURE_BUCKET_COUNT - i,
    {
        let b = texture_bucket(i);
        if b.width == w && b.height == h {
            proof {
                lemma_find_bucket_found(w, h, i as nat, TEXTURE_BUCKET_COUNT as nat);
            }
            return Some(i);
        }
        i = i + 1;
    }
    None
}

/// The mode value of a texture addressing setting.
pub open spec fn addressing_mode(addressing: TextureAddressing) -> u32 {
    match addressing {
        TextureAddressing::Linear => TEXTURE_ADDRESSING_LINEAR,
        TextureAddressing::Nearest => TEXTURE_ADDRESSING_NEAREST,
    }
}

pub fn get_texture_addressing_mode(addressing: TextureAddressing) -> (res: u32)
    ensures
        res == addressing_mode(addressing),
{
    match addressing {
        TextureAddressing::Linear => TEXTURE_ADDRESSING_LINEAR,
        TextureAddressing::Nearest => TEXTURE_ADDRESSING_NEAREST,
    }
}

/// The addressing a material uses: its own, or linear when it names none.
pub open spec fn material_addressing<P>(m: Material<P>) -> TextureAddressing {
    match m.texture_addressing {
        Some(a) => a,
        None => TextureAddressing::Linear,
    }
}

/// The frame hrefs of a material (none when it lists none).
pub open spec fn material_frames<P>(m: Material<P>) -> Seq<String> {
    match m.frames {
        Some(v) => v@,
        None => Seq::empty(),
    }
}

/// The bytes of the asset fetched for `href` (empty when there is none).
pub open spec fn asset_bytes(assets: Seq<(String, Vec<u8>)>, href: Seq<char>) -> Seq<u8> {
    match find_first(assets, href) {
        Some(i) => assets[i].1@,
        None => Seq::empty(),
    }
}

/// Placing one frame: a frame already placed reuses its slot; otherwise its
/// image is decoded, the bucket of its size is found and its next free layer
/// taken. Fails when the image does not decode, no bucket has its size, or the
/// bucket is full.
pub open spec fn frame_step(
    assets: Seq<(String, Vec<u8>)>,
    st: Plan,
    path: String,
) -> Result<(Plan, TextureRef), LoadErrorView> {
    match find_first(st.cache, path@) {
        Some(i) => Ok((st, st.cache[i].1)),
        None => match image_decode(asset_bytes(assets, path@)) {
            Err(msg) => Err(LoadErrorView::ImageDecode(msg)),
            Ok((w, h, px)) => match find_bucket(w, h) {
                None => Err(LoadErrorView::TextureBucketMissing { width: w, height: h }),
                Some(b) => {
                    let layer = st.next_free[b as int];
                    let bucket = bucket_spec(b as int);
                    if layer >= bucket.layers {
                        Err(LoadErrorView::TextureBucketFull { width: bucket.width, height: bucket.height })
                    } else {
                        let r = TextureRef { bucket: b as u16, layer: layer as u16 };
                        Ok((
                            Plan {
                                next_free: st.next_free.update(b as int, layer + 1),
                                cache: st.cache.push((path, r)),
                                uploads: st.uploads.push(
                                    UploadView { bucket: b, layer: layer, width: w, height: h, pixels: px },
                                ),
                            },
                            r,
                        ))
                    }
                },
            },
        },
    }
}

/// Placing a list of frames in order, collecting their slots; the first
/// failure stops it.
pub open spec fn frames_plan(
    assets: Seq<(String, Vec<u8>)>,
    st: Plan,
    paths: Seq<String>,
) -> Result<(Plan, Seq<TextureRef>), LoadErrorView>
    decreases paths.len(),
{
    if paths.len() == 0 {
        Ok((st, Seq::empty()))
    } else {
        match frames_plan(assets, st, paths.drop_last()) {
            Err(e) => Err(e),
            Ok((st1, refs)) => match frame_step(assets, st1, paths.last()) {
                Err(e) => Err(e),
                Ok((st2, r)) => Ok((st2, refs.push(r))),
            },
        }
    }
}

/// Loading the materials of a mesh in order: each present material has its
/// frames placed and is written to the material index under its position;
/// the first failure stops it.
pub open spec fn materials_plan<P>(
    assets: Seq<(String, Vec<u8>)>,
    materials: Seq<Option<&Material<P>>>,
) -> Result<(Plan, DataView<P>), LoadErrorView>
    decreases materials.len(),
{
    if materials.len() == 0 {
        Ok((plan_empty(), data_empty()))
    } else {
        match materials_plan(assets, materials.drop_last()) {
            Err(e) => Err(e),
            Ok((st, d)) => match materials.last() {
                None => Ok((st, d)),
                Some(m) => match frames_plan(assets, st, material_frames(*m)) {
                    Err(e) => Err(e),
                    Ok((st2, refs)) => match data_write(
                        d,
                        ((materials.len() - 1) as u32) as nat,
                        m.style,
                        refs,
                        addressing_mode(material_addressing(*m)),
                    ) {
                        Err(e) => Err(LoadErrorView::MaterialIndex(e)),
                        Ok(d2) => Ok((st2, d2)),
                    },
                },
            },
        }
    }
}

/// Once planning a prefix of the frames fails, planning all of them fails the same way.
proof fn lemma_frames_plan_err(assets: Seq<(String, Vec<u8>)>, st: Plan, paths: Seq<String>, i: int)
    requires
        0 <= i <= paths.len(),
        frames_plan(assets, st, paths.take(i)) is Err,
    ensures
        frames_plan(assets, st, paths) == frames_plan(assets, st, paths.take(i)),
    decreases paths.len(),
{
    if i == paths.len() {
        assert(paths.take(i) =~= paths);
    } else {
        assert(paths.drop_last().take(i) =~= paths.take(i));
        lemma_frames_plan_err(assets, st, paths.drop_last(), i);
    }
}

/// Once loading a prefix of the materials fails, loading all of them fails the same way.
proof fn lemma_materials_plan_err<P>(
    assets: Seq<(String, Vec<u8>)>,
    materials: Seq<Option<&Material<P>>>,
    i: int,
)
    requires
        0 <= i <= materials.len(),
        materials_plan(assets, materials.take(i)) is Err,
    ensures
        materials_plan(assets, materials) == materials_plan(assets, materials.take(i)),
    decreases materials.len(),
{
    if i == materials.len() {
        assert(materials.take(i) =~= materials);
    } else {
        assert(materials.drop_last().take(i) =~= materials.take(i));
        lemma_materials_plan_err(assets, materials.drop_last(), i);
    }
}

/// The planning state that the planner's vectors hold.
pub open spec fn plan_of(next_free: Seq<usize>, cache: Seq<(String, TextureRef)>, uploads: Seq<Upload>) -> Plan {
    Plan {
        next_free: next_free.map_values(|n: usize| n as nat),
        cache: cache,
        uploads: uploads.map_values(|u: Upload| u@),
    }
}

/// Places the frames `frame_paths` in order, as `frames_plan` describes, and
/// returns their slots.
pub fn load_frame_refs<P>(
    manifest: &Manifest<P>,
    frame_paths: &[String],
    next_free: &mut Vec<usize>,
    texture_ref_cache: &mut Vec<(String, TextureRef)>,
    uploads: &mut Vec<Upload>,
) -> (res: Result<Vec<TextureRef>, LoadError>)
    requires
        old(next_free)@.len() == TEXTURE_BUCKET_COUNT,
        forall|k: int| 0 <= k < frame_paths@.len() ==> manifest.asset_spec((#[trigger] frame_paths@[k])@) is Some,
    ensures
        final(next_free)@.len() == TEXTURE_BUCKET_COUNT,
        match frames_plan(
            manifest.assets@,
            plan_of(old(next_free)@, old(texture_ref_cache)@, old(uploads)@),
            frame_paths@,
        ) {
            Ok((st, refs)) => (res matches Ok(v) && v@ == refs
                && plan_of(final(next_free)@, final(texture_ref_cache)@, final(uploads)@) == st),
            Err(e) => (res matches Err(err) && err@ == e),
        },
{
    let ghost assets = manifest.assets@;
    let ghost st0 = plan_of(next_free@, texture_ref_cache@, uploads@);
    let mut frames: Vec<TextureRef> = Vec::new();
    let mut i: usize = 0;
    while i < frame_paths.len()
        invariant
            i <= frame_paths@.len(),
            assets == manifest.assets@,
            st0 == plan_of(old(next_free)@, old(texture_ref_cache)@, old(uploads)@),
            next_free@.len() == TEXTURE_BUCKET_COUNT,
            forall|k: int| 0 <= k < frame_paths@.len() ==> manifest.asset_spec((#[trigger] frame_paths@[k])@) is Some,
            frames_plan(assets, st0, frame_paths@.take(i as int))
                == Ok::<(Plan, Seq<TextureRef>), LoadErrorView>((plan_of(next_free@, texture_ref_cache@, uploads@), frames@)),
        decreases frame_paths@.len() - i,
    {
        let ghost cur = plan_of(next_free@, texture_ref_cache@, uploads@);
        let ghost path = frame_paths@[i as int];
        assert(frame_paths@.take(i + 1).drop_last() =~= frame_paths@.take(i as int));
        assert(frame_paths@.take(i + 1).last() == path);
        match position_of(texture_ref_cache, frame_paths[i].as_str()) {
            Some(k) => {
                frames.push(texture_ref_cache[k].1);
                i = i + 1;
                continue;
            },
            None => {},
        }
        let data = manifest.asset(frame_paths[i].as_str()).unwrap();
        assert(data@ == asset_bytes(assets, path@));
        let img = match decode_rgba8(data) {
            Ok(img) => img,
            Err(e) => {
                proof {
                    assert(frame_step(assets, cur, path) == Err::<(Plan, TextureRef), LoadErrorView>(LoadErrorView::ImageDecode(e@)));
                    assert(frames_plan(assets, st0, frame_paths@.take(i + 1)) == Err::<(Plan, Seq<TextureRef>), LoadErrorView>(LoadErrorView::ImageDecode(e@)));
                    lemma_frames_plan_err(assets, st0, frame_paths@, i + 1);
                }
                return Err(LoadError::ImageDecode(e));
            },
        };
        let bucket_ix = match find_texture_bucket(img.width, img.height) {
            Some(b) => b,
            None => {
                proof {
                    let ew = LoadErrorView::TextureBucketMissing { width: img.width, height: img.height };
                    assert(frame_step(assets, cur, path) == Err::<(Plan, TextureRef), LoadErrorView>(ew));
                    assert(frames_plan(assets, st0, frame_paths@.take(i + 1)) == Err::<(Plan, Seq<TextureRef>), LoadErrorView>(ew));
                    lemma_frames_plan_err(assets, st0, frame_paths@, i + 1);
                }
                return Err(LoadError::TextureBucketMissing { width: img.width, height: img.height });
            },
        };
        let layer = next_free[bucket_ix];
        let bucket = texture_bucket(bucket_ix);
        assert(cur.next_free[bucket_ix as int] == layer as nat);
        assert(find_bucket(img.width, img.height) == Some(bucket_ix as nat));
        assert(image_decode(asset_bytes(assets, path@)) == Ok::<(u32, u32, Seq<u8>), Seq<char>>((img.width, img.height, img.pixels@)));
        assert(find_first(cur.cache, path@) is None);
        if layer >= bucket.layers {
            proof {
                let ew = LoadErrorView::TextureBucketFull { width: bucket.width, height: bucket.height };
                assert(frame_step(assets, cur, path) == Err::<(Plan, TextureRef), LoadErrorView>(ew));
                assert(frames_plan(assets, st0, frame_paths@.take(i + 1)) == Err::<(Plan, Seq<TextureRef>), LoadErrorView>(ew));
                lemma_frames_plan_err(assets, st0, frame_paths@, i + 1);
            }
            return Err(LoadError::TextureBucketFull { width: bucket.width, height: bucket.height });
        }
        let ghost old_nf = next_free@;
        let ghost old_up = uploads@;
        next_free.set(bucket_ix, layer + 1);
        let r = TextureRef { bucket: bucket_ix as u16, layer: layer as u16 };
        texture_ref_cache.push((frame_paths[i].clone(), r));
        let upload = Upload { bucket: bucket_ix, layer, image: img };
        uploads.push(upload);
        frames.push(r);
        proof {
            assert(next_free@.map_values(|n: usize| n as nat)
                =~= old_nf.map_values(|n: usize| n as nat).update(bucket_ix as int, (layer + 1) as nat));
            assert(uploads@.map_values(|u: Upload| u@) =~= old_up.map_values(|u: Upload| u@).push(upload@));
            let np = Plan {
                next_free: cur.next_free.update(bucket_ix as int, (layer + 1) as nat),
                cache: cur.cache.push((path, r)),
                uploads: cur.uploads.push(upload@),
            };
            assert(frame_step(assets, cur, path) == Ok::<(Plan, TextureRef), LoadErrorView>((np, r)));
            assert(plan_of(next_free@, texture_ref_cache@, uploads@) == np);
        }
        i = i + 1;
    }
    assert(frame_paths@.take(frame_paths@.len() as int) =~= frame_paths@);
    Ok(frames)
}

/// Every frame that a material lists has fetched bytes in the manifest.
pub open spec fn frames_fetched<P>(manifest: Manifest<P>, materials: Seq<Option<&Material<P>>>) -> bool {
    forall|i: int, k: int|
        0 <= i < materials.len() && (#[trigger] materials[i]) is Some
            && 0 <= k < material_frames(*materials[i]->0).len()
            ==> manifest.asset_spec((#[trigger] material_frames(*materials[i]->0)[k])@) is Some
}

/// Loads the materials of a level's mesh, as `materials_plan` describes:
/// `materials[ix]` is the manifest material of the mesh's material `ix`, if the
/// manifest has one. The result is the material index and the frame images to
/// copy into the texture buckets.
pub fn load<P: Copy>(manifest: &Manifest<P>, materials: &[Option<&Material<P>>]) -> (res: Result<LoadResult<P>, LoadError>)
    requires
        frames_fetched(*manifest, materials@),
    ensures
        match materials_plan(manifest.assets@, materials@) {
            Ok((st, d)) => (res matches Ok(r) && r.material_index@ == d
                && r.uploads@.map_values(|u: Upload| u@) == st.uploads),
            Err(e) => (res matches Err(err) && err@ == e),
        },
{
    let ghost assets = manifest.assets@;
    let mut material_index_data: Data<P> = Data::create();
    let mut next_free: Vec<usize> = Vec::new();
    let mut b: usize = 0;
    while b < TEXTURE_BUCKET_COUNT
        invariant
            b <= TEXTURE_BUCKET_COUNT,
            next_free@.len() == b,
            forall|k: int| 0 <= k < b ==> next_free@[k] == 0,
        decreases TEXTURE_BUCKET_COUNT - b,
    {
        next_free.push(0);
        b = b + 1;
    }
    let mut texture_ref_cache: Vec<(String, TextureRef)> = Vec::new();
    let mut uploads: Vec<Upload> = Vec::new();
    let empty: Vec<String> = Vec::new();
    assert(plan_of(next_free@, texture_ref_cache@, uploads@) =~= plan_empty()) by {
        assert(next_free@.map_values(|n: usize| n as nat) =~= plan_empty().next_free);
        assert(uploads@.map_values(|u: Upload| u@) =~= plan_empty().uploads);
    }
    assert(materials@.take(0) =~= Seq::<Option<&Material<P>>>::empty());
    let mut ix: usize = 0;
    while ix < materials.len()
        invariant
            ix <= materials@.len(),
            assets == manifest.assets@,
            empty@.len() == 0,
            frames_fetched(*manifest, materials@),
            next_free@.len() == TEXTURE_BUCKET_COUNT,
            material_index_data@.well_formed(),
            materials_plan(assets, materials@.take(ix as int)) == Ok::<(Plan, DataView<P>), LoadErrorView>(
                (plan_of(next_free@, texture_ref_cache@, uploads@), material_index_data@),
            ),
        decreases materials@.len() - ix,
    {
        let ghost cur = plan_of(next_free@, texture_ref_cache@, uploads@);
        let ghost d0 = material_index_data@;
        assert(materials@.take(ix + 1).drop_last() =~= materials@.take(ix as int));
        assert(materials@.take(ix + 1).last() == materials@[ix as int]);
        match materials[ix] {
            None => {},
            Some(material) => {
                let frame_paths: &[String] = match &material.frames {
                    Some(v) => v.as_slice(),
                    None => empty.as_slice(),
                };
                assert(frame_paths@ == material_frames(*material));
                assert forall|k: int| 0 <= k < frame_paths@.len() implies
                    manifest.asset_spec((#[trigger] frame_paths@[k])@) is Some by {
                    assert(materials@[ix as int] is Some);
                    assert(material_frames(*materials@[ix as int]->0)[k] == frame_paths@[k]);
                }
                let frames = match load_frame_refs(
                    manifest,
                    frame_paths,
                    &mut next_free,
                    &mut texture_ref_cache,
                    &mut uploads,
                ) {
                    Ok(f) => f,
                    Err(e) => {
                        proof {
                            lemma_materials_plan_err(assets, materials@, ix + 1);
                        }
                        return Err(e);
                    },
                };
                let addressing = match material.texture_addressing {
                    Some(a) => a,
                    None => TextureAddressing::Linear,
                };
                let mode = get_texture_addressing_mode(addressing);
                match material_index_data.write(ix as u32, material.style, frames.as_slice(), mode) {
                    Ok(()) => {},
                    Err(e) => {
                        proof {
                            lemma_materials_plan_err(assets, materials@, ix + 1);
                        }
                        return Err(LoadError::MaterialIndex(e));
                    },
                }
            },
        }
        ix = ix + 1;
    }
    assert(materials@.take(materials@.len() as int) =~= materials@);
    Ok(LoadResult { material_index: material_index_data, uploads })
}

/// Slot `(b, l)` is filled by some upload.
pub open spec fn slot_uploaded(st: Plan, b: int, l: int) -> bool {
    exists|k: int| 0 <= k < st.uploads.len() && st.uploads[k].bucket == b && st.uploads[k].layer == l
}

/// A texture reference points at a slot that planning has taken.
pub open spec fn ref_taken(st: Plan, r: TextureRef) -> bool {
    (r.bucket as int) < TEXTURE_BUCKET_COUNT && (r.layer as nat) < st.next_free[r.bucket as int]
}

/// The planning invariant: no bucket is filled past its layers; every upload
/// has the size of its bucket and lies below the bucket's next free layer; no
/// two uploads share a slot; every taken slot has its upload; every cached
/// reference points at a taken slot.
pub open spec fn plan_well_formed(st: Plan) -> bool {
    &&& st.next_free.len() == TEXTURE_BUCKET_COUNT
    &&& forall|b: int| 0 <= b < TEXTURE_BUCKET_COUNT ==> st.next_free[b] <= bucket_spec(b).layers
    &&& forall|k: int| 0 <= k < st.uploads.len() ==> {
        let u = #[trigger] st.uploads[k];
        &&& u.bucket < TEXTURE_BUCKET_COUNT
        &&& u.layer < st.next_free[u.bucket as int]
        &&& u.width == bucket_spec(u.bucket as int).width
        &&& u.height == bucket_spec(u.bucket as int).height
    }
    &&& forall|k1: int, k2: int| 0 <= k1 < k2 < st.uploads.len() ==>
        !((#[trigger] st.uploads[k1]).bucket == (#[trigger] st.uploads[k2]).bucket
            && st.uploads[k1].layer == st.uploads[k2].layer)
    &&& forall|b: int, l: int| 0 <= b < TEXTURE_BUCKET_COUNT && 0 <= l < st.next_free[b]
        ==> #[trigger] slot_uploaded(st, b, l)
    &&& forall|c: int| 0 <= c < st.cache.len() ==> ref_taken(st, (#[trigger] st.cache[c]).1)
}

proof fn lemma_frame_step_well_formed(assets: Seq<(String, Vec<u8>)>, st: Plan, path: String)
    requires
        plan_well_formed(st),
    ensures
        frame_step(assets, st, path) matches Ok((st2, r)) ==> plan_well_formed(st2) && ref_taken(st2, r)
            && forall|b: int| 0 <= b < TEXTURE_BUCKET_COUNT ==> st.next_free[b] <= #[trigger] st2.next_free[b],
{
    lemma_find_first(st.cache, path@);
    if let Ok((st2, r)) = frame_step(assets, st, path) {
        if find_first(st.cache, path@) is None {
            let (w, h, px) = image_decode(asset_bytes(assets, path@))->Ok_0;
            let b = find_bucket(w, h)->0;
            lemma_find_bucket_upto(w, h, TEXTURE_BUCKET_COUNT as nat);
            let layer = st.next_free[b as int];
            let n = st.uploads.len();
            assert(st2.uploads[n as int] == UploadView { bucket: b, layer: layer, width: w, height: h, pixels: px });
            assert forall|k: int| 0 <= k < st2.uploads.len() implies {
                let u = #[trigger] st2.uploads[k];
                &&& u.bucket < TEXTURE_BUCKET_COUNT
                &&& u.layer < st2.next_free[u.bucket as int]
                &&& u.width == bucket_spec(u.bucket as int).width
                &&& u.height == bucket_spec(u.bucket as int).height
            } by {
                if k < n {
                    assert(st2.uploads[k] == st.uploads[k]);
                }
            }
            assert forall|k1: int, k2: int| 0 <= k1 < k2 < st2.uploads.len() implies
                !((#[trigger] st2.uploads[k1]).bucket == (#[trigger] st2.uploads[k2]).bucket
                    && st2.uploads[k1].layer == st2.uploads[k2].layer) by {
                assert(st2.uploads[k1] == st.uploads[k1]);
                if k2 < n {
                    assert(st2.uploads[k2] == st.uploads[k2]);
                }
            }
            assert forall|bb: int, l: int| 0 <= bb < TEXTURE_BUCKET_COUNT && 0 <= l < st2.next_free[bb]
                implies #[trigger] slot_uploaded(st2, bb, l) by {
                if bb == b && l == layer {
                    assert(st2.uploads[n as int].bucket == bb && st2.uploads[n as int].layer == l);
                } else {
                    assert(slot_uploaded(st, bb, l));
                    let k = choose|k: int| 0 <= k < st.uploads.len() && st.uploads[k].bucket == bb && st.uploads[k].layer == l;
                    assert(st2.uploads[k] == st.uploads[k]);
                }
            }
            assert forall|c: int| 0 <= c < st2.cache.len() implies ref_taken(st2, (#[trigger] st2.cache[c]).1) by {
                if c < st.cache.len() {
                    assert(st2.cache[c] == st.cache[c]);
                    assert(ref_taken(st, st.cache[c].1));
                }
            }
        } else {
            let i = find_first(st.cache, path@)->0;
            assert(ref_taken(st, st.cache[i].1));
        }
    }
}

proof fn lemma_frames_plan_well_formed(assets: Seq<(String, Vec<u8>)>, st: Plan, paths: Seq<String>)
    requires
        plan_well_formed(st),
    ensures
        frames_plan(assets, st, paths) matches Ok((st2, refs)) ==> plan_well_formed(st2)
            && forall|k: int| 0 <= k < refs.len() ==> ref_taken(st2, #[trigger] refs[k]),
    decreases paths.len(),
{
    if paths.len() > 0 {
        lemma_frames_plan_well_formed(assets, st, paths.drop_last());
        if let Ok((st1, refs1)) = frames_plan(assets, st, paths.drop_last()) {
            lemma_frame_step_well_formed(assets, st1, paths.last());
            if let Ok((st2, r)) = frame_step(assets, st1, paths.last()) {
                let refs = refs1.push(r);
                assert forall|k: int| 0 <= k < refs.len() implies ref_taken(st2, #[trigger] refs[k]) by {
                    if k < refs1.len() {
                        assert(refs[k] == refs1[k]);
                        assert(ref_taken(st1, refs1[k]));
                    }
                }
            }
        }
    }
}

/// Texture planning law: whatever a successful material load plans, no bucket
/// is filled past its layers, every upload has its bucket's size, no two uploads
/// share a slot, every taken slot has its upload, and the material index stays
/// well formed.
pub proof fn lemma_materials_plan_well_formed<P>(
    assets: Seq<(String, Vec<u8>)>,
    materials: Seq<Option<&Material<P>>>,
)
    ensures
        materials_plan(assets, materials) matches Ok((st, d)) ==> plan_well_formed(st) && d.well_formed(),
    decreases materials.len(),
{
    if materials.len() == 0 {
        let st = plan_empty();
        assert forall|b: int, l: int| 0 <= b < TEXTURE_BUCKET_COUNT && 0 <= l < st.next_free[b]
            implies #[trigger] slot_uploaded(st, b, l) by {}
        let d = data_empty::<P>();
        assert(d.well_formed());
    } else {
        lemma_materials_plan_well_formed(assets, materials.drop_last());
        if let Ok((st, d)) = materials_plan(assets, materials.drop_last()) {
            if let Some(m) = materials.last() {
                lemma_frames_plan_well_formed(assets, st, material_frames(*m));
                if let Ok((st2, refs)) = frames_plan(assets, st, material_frames(*m)) {
                    crate::gpu::buffer::storage::material_index::lemma_write_keeps_well_formed(
                        d,
                        ((materials.len() - 1) as u32) as nat,
                        m.style,
                        refs,
                        addressing_mode(material_addressing(*m)),
                    );
                }
            }
        }
    }
}

} // verus!
