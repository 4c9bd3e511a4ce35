use vstd::prelude::*;

verus! {

/// Why a GLTF mesh could not be decoded.
#[derive(Clone, Copy, Debug, PartialEq, Eq, Structural)]
pub enum Error {
    Decode,
    NoScene,
    MultipleScenes,
    MeshNotIndexed,
    MaterialUnnamed,
}

impl Error {
    /// The variant's name, as `{:?}` prints it.
    pub open spec fn debug_text(self) -> Seq<char> {
        match self {
            Error::Decode => "Decode"@,
            Error::NoScene => "NoScene"@,
            Error::MultipleScenes => "MultipleScenes"@,
            Error::MeshNotIndexed => "MeshNotIndexed"@,
            Error::MaterialUnnamed => "MaterialUnnamed"@,
        }
    }

    pub fn debug_name(&self) -> (res: &'static str)
        ensures
            res@ == self.debug_text(),
    {
        match self {
            Error::Decode => "Decode",
            Error::NoScene => "NoScene",
            Error::MultipleScenes => "MultipleScenes",
            Error::MeshNotIndexed => "MeshNotIndexed",
            Error::MaterialUnnamed => "MaterialUnnamed",
        }
    }
}

/// Which scene of a GLTF document to use: the only one; a document with none or
/// with several is refused.
pub fn select_scene(scene_count: usize) -> (res: Result<usize, Error>)
    ensures
        scene_count == 0 ==> res == Err::<usize, Error>(Error::NoScene),
        scene_count == 1 ==> res == Ok::<usize, Error>(0),
        scene_count > 1 ==> res == Err::<usize, Error>(Error::MultipleScenes),
{
    if scene_count == 0 {
        Err(Error::NoScene)
    } else if scene_count == 1 {
        Ok(0)
    } else {
        Err(Error::MultipleScenes)
    }
}

/// The indices of a primitive, shifted past the vertices already in the mesh.
pub open spec fn offset_indices(source: Seq<u32>, vertex_offset: u32) -> Seq<u32> {
    Seq::new(source.len(), |i: int| (source[i] + vertex_offset) as u32)
}

/// Appends the indices of a primitive, each shifted by `vertex_offset` (the
/// number of vertices already in the mesh).
pub fn push_offset_indices(indices: &mut Vec<u32>, source: &[u32], vertex_offset: u32)
    requires
        forall|i: int| 0 <= i < source@.len() ==> source@[i] + vertex_offset <= u32::MAX,
    ensures
        final(indices)@ == old(indices)@ + offset_indices(source@, vertex_offset),
{
    let ghost start = indices@;
    let mut i: usize = 0;
    while i < source.len()
        invariant
            i <= source@.len(),
            forall|k: int| 0 <= k < source@.len() ==> source@[k] + vertex_offset <= u32::MAX,
            indices@ == start + offset_indices(source@.take(i as int), vertex_offset),
        decreases source@.len() - i,
    {
        indices.push(source[i] + vertex_offset);
        assert(offset_indices(source@.take(i + 1), vertex_offset)
            =~= offset_indices(source@.take(i as int), vertex_offset).push((source@[i as int] + vertex_offset) as u32));
        i = i + 1;
    }
    assert(source@.take(source@.len() as int) =~= source@);
}

/// The names of a document's materials, in order; an unnamed material is an error.
pub fn material_names(names: Vec<Option<String>>) -> (res: Result<Vec<String>, Error>)
    ensures
        (exists|i: int| 0 <= i < names@.len() && names@[i] is None) ==> res == Err::<Vec<String>, Error>(Error::MaterialUnnamed),
        (forall|i: int| 0 <= i < names@.len() ==> names@[i] is Some) ==> (res matches Ok(v)
            && v@.len() == names@.len()
            && forall|i: int| 0 <= i < names@.len() ==> Some(#[trigger] v@[i]) == names@[i]),
{
    let mut out: Vec<String> = Vec::new();
    let mut i: usize = 0;
    while i < names.len()
        invariant
            i <= names@.len(),
            out@.len() == i,
            forall|k: int| 0 <= k < i ==> Some(#[trigger] out@[k]) == names@[k],
            forall|k: int| 0 <= k < i ==> (#[trigger] names@[k]) is Some,
        decreases names@.len() - i,
    {
        match &names[i] {
            Some(name) => {
                out.push(name.clone());
            },
            None => {
                return Err(Error::MaterialUnnamed);
            },
        }
        i = i + 1;
    }
    assert(!(exists|k: int| 0 <= k < names@.len() && (#[trigger] names@[k]) is None));
    Ok(out)
}

} // verus!
