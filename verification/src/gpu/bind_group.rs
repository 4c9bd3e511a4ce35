use vstd::prelude::*;

verus! {

/// A texture array of one square size, with a fixed number of layers.
#[derive(Clone, Copy, Debug, PartialEq, Eq, Structural)]
pub struct TextureBucket {
    pub width: u32,
    pub height: u32,
    pub layers: usize,
}

/// Number of texture buckets a level's materials can use.
pub const TEXTURE_BUCKET_COUNT: usize = 6;

/// The buckets, from the largest texture size to the smallest.
pub open spec fn bucket_spec(ix: int) -> TextureBucket {
    if ix == 0 {
        TextureBucket { width: 0x800, height: 0x800, layers: 0x1 }
    } else if ix == 1 {
        TextureBucket { width: 0x400, height: 0x400, layers: 0x4 }
    } else if ix == 2 {
        TextureBucket { width: 0x200, height: 0x200, layers: 0x8 }
    } else if ix == 3 {
        TextureBucket { width: 0x100, height: 0x100, layers: 0x20 }
    } else if ix == 4 {
        TextureBucket { width: 0x80, height: 0x80, layers: 0x40 }
    } else {
        TextureBucket { width: 0x40, height: 0x40, layers: 0x100 }
    }
}

/// The bucket at position `ix` of the bucket table.
pub fn texture_bucket(ix: usize) -> (res: TextureBucket)
    requires
        ix < TEXTURE_BUCKET_COUNT,
    ensures
        res == bucket_spec(ix as int),
{
    if ix == 0 {
        TextureBucket { width: 0x800, height: 0x800, layers: 0x1 }
    } else if ix == 1 {
        TextureBucket { width: 0x400, height: 0x400, layers: 0x4 }
    } else if ix == 2 {
        TextureBucket { width: 0x200, height: 0x200, layers: 0x8 }
    } else if ix == 3 {
        TextureBucket { width: 0x100, height: 0x100, layers: 0x20 }
    } else if ix == 4 {
        TextureBucket { width: 0x80, height: 0x80, layers: 0x40 }
    } else {
        TextureBucket { width: 0x40, height: 0x40, layers: 0x100 }
    }
}

/// Bucket table law: the buckets hold square textures of 2048, 1024, 512,
/// 256, 128 and 64 pixels, with 1, 4, 8, 32, 64 and 256 layers; each size is
/// half the one before, so no two buckets share a size.
pub proof fn lemma_bucket_table()
    ensures
        bucket_spec(0) == (TextureBucket { width: 2048, height: 2048, layers: 1 }),
        bucket_spec(1) == (TextureBucket { width: 1024, height: 1024, layers: 4 }),
        bucket_spec(2) == (TextureBucket { width: 512, height: 512, layers: 8 }),
        bucket_spec(3) == (TextureBucket { width: 256, height: 256, layers: 32 }),
        bucket_spec(4) == (TextureBucket { width: 128, height: 128, layers: 64 }),
        bucket_spec(5) == (TextureBucket { width: 64, height: 64, layers: 256 }),
        forall|i: int| 0 <= i < TEXTURE_BUCKET_COUNT ==> (#[trigger] bucket_spec(i)).width == bucket_spec(i).height,
        forall|i: int| 0 < i < TEXTURE_BUCKET_COUNT ==> 2 * (#[trigger] bucket_spec(i)).width == bucket_spec(i - 1).width,
{
}

} // verus!
