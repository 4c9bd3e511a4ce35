use vstd::prelude::*;

verus! {

/// Highest material id the material index can describe.
pub const MAX_MATERIAL_ID: usize = 0x1FF;
/// Number of frame slots shared by all materials.
pub const MAX_FRAMES: usize = 0x1000;

/// Why a material could not be written to the material index.
#[derive(Clone, Copy, Debug, PartialEq, Eq, Structural)]
pub enum WriteError {
    TooManyMaterials,
    TooManyFrames,
}

/// Where one animation frame lives: a texture bucket and a layer within it.
#[derive(Clone, Copy, Debug, PartialEq, Eq, Structural)]
pub struct TextureRef {
    pub bucket: u16,
    pub layer: u16,
}

/// The frame reference that an unwritten frame slot holds.
pub open spec fn empty_ref() -> TextureRef {
    TextureRef { bucket: 0, layer: 0 }
}

/// The description of one material: how many frames it animates through,
/// where they start in the frame table, its texture addressing mode, and the
/// style values (animation speed, color) that the renderer reads as they are.
#[derive(Clone, Copy)]
pub struct Entry<P> {
    pub num_frames: u32,
    pub offset: u32,
    pub texture_addressing: u32,
    pub style: P,
}

/// The material index table: one optional entry per material id, the shared
/// frame table, and the first free frame slot.
pub struct Data<P> {
    entries: Vec<Option<Entry<P>>>,
    frames: Vec<TextureRef>,
    next_free_frame: u32,
}

/// The mathematical content of a material index table.
pub struct DataView<P> {
    pub entries: Seq<Option<Entry<P>>>,
    pub frames: Seq<TextureRef>,
    pub next_free: nat,
}

/// The frame slots that two entries use do not overlap.
pub open spec fn ranges_disjoint<P>(a: Entry<P>, b: Entry<P>) -> bool {
    a.offset + a.num_frames <= b.offset || b.offset + b.num_frames <= a.offset
}

impl<P> DataView<P> {
    /// Sizes are those of the table, every entry's frames lie among the
    /// allocated slots, and no two entries share a frame slot.
    pub open spec fn well_formed(self) -> bool {
        &&& self.entries.len() == MAX_MATERIAL_ID + 1
        &&& self.frames.len() == MAX_FRAMES
        &&& self.next_free <= MAX_FRAMES
        &&& forall|i: int|
            0 <= i < self.entries.len() && (#[trigger] self.entries[i]) is Some
                ==> self.entries[i]->0.offset + self.entries[i]->0.num_frames <= self.next_free
        &&& forall|i: int, j: int|
            0 <= i < self.entries.len() && 0 <= j < self.entries.len() && i != j
                && (#[trigger] self.entries[i]) is Some && (#[trigger] self.entries[j]) is Some
                ==> ranges_disjoint(self.entries[i]->0, self.entries[j]->0)
    }
}

/// The table with no material written.
pub open spec fn data_empty<P>() -> DataView<P> {
    DataView {
        entries: Seq::new((MAX_MATERIAL_ID + 1) as nat, |i: int| None),
        frames: Seq::new(MAX_FRAMES as nat, |i: int| empty_ref()),
        next_free: 0,
    }
}

/// `frames` with `refs` written from slot `at` on.
pub open spec fn splice(frames: Seq<TextureRef>, at: int, refs: Seq<TextureRef>) -> Seq<TextureRef> {
    frames.take(at) + refs + frames.skip(at + refs.len())
}

/// Writing material `ix` with the frames `refs`: refused when the id is past the
/// table or the frames do not fit in the free slots; otherwise the entry is
/// replaced by one that points at fresh slots holding `refs`.
pub open spec fn data_write<P>(
    d: DataView<P>,
    ix: nat,
    style: P,
    refs: Seq<TextureRef>,
    texture_addressing: u32,
) -> Result<DataView<P>, WriteError> {
    if ix > MAX_MATERIAL_ID {
        Err(WriteError::TooManyMaterials)
    } else if d.next_free + refs.len() > MAX_FRAMES {
        Err(WriteError::TooManyFrames)
    } else {
        Ok(DataView {
            entries: d.entries.update(
                ix as int,
                Some(Entry {
                    num_frames: refs.len() as u32,
                    offset: d.next_free as u32,
                    texture_addressing: texture_addressing,
                    style: style,
                }),
            ),
            frames: splice(d.frames, d.next_free as int, refs),
            next_free: d.next_free + refs.len(),
        })
    }
}

/// Every write keeps a well-formed table well formed: entries stay inside the
/// allocated slots and never share a frame slot.
pub proof fn lemma_write_keeps_well_formed<P>(
    d: DataView<P>,
    ix: nat,
    style: P,
    refs: Seq<TextureRef>,
    texture_addressing: u32,
)
    requires
        d.well_formed(),
    ensures
        data_write(d, ix, style, refs, texture_addressing) matches Ok(d2) ==> d2.well_formed(),
{
    if let Ok(d2) = data_write(d, ix, style, refs, texture_addressing) {
        assert forall|i: int|
            0 <= i < d2.entries.len() && (#[trigger] d2.entries[i]) is Some implies
                d2.entries[i]->0.offset + d2.entries[i]->0.num_frames <= d2.next_free by {
            if i != ix {
                assert(d2.entries[i] == d.entries[i]);
            }
        }
        assert forall|i: int, j: int|
            0 <= i < d2.entries.len() && 0 <= j < d2.entries.len() && i != j
                && (#[trigger] d2.entries[i]) is Some && (#[trigger] d2.entries[j]) is Some implies
                ranges_disjoint(d2.entries[i]->0, d2.entries[j]->0) by {
            if i != ix {
                assert(d2.entries[i] == d.entries[i]);
                assert(d.entries[i] is Some);
            }
            if j != ix {
                assert(d2.entries[j] == d.entries[j]);
                assert(d.entries[j] is Some);
            }
        }
    }
}

impl<P> View for Data<P> {
    type V = DataView<P>;

    closed spec fn view(&self) -> DataView<P> {
        DataView { entries: self.entries@, frames: self.frames@, next_free: self.next_free_frame as nat }
    }
}

impl<P: Copy> Data<P> {
    /// The entry of material `ix`.
    pub fn entry(&self, ix: usize) -> (res: Option<Entry<P>>)
        requires
            ix < self@.entries.len(),
        ensures
            res == self@.entries[ix as int],
    {
        self.entries[ix]
    }

    /// The frame reference in slot `i` of the frame table.
    pub fn frame(&self, i: usize) -> (res: TextureRef)
        requires
            i < self@.frames.len(),
        ensures
            res == self@.frames[i as int],
    {
        self.frames[i]
    }

    /// The first free slot of the frame table.
    pub fn next_free_frame(&self) -> (res: u32)
        ensures
            res as nat == self@.next_free,
    {
        self.next_free_frame
    }

    /// The table with no material written.
    pub fn create() -> (res: Self)
        ensures
            res@ == data_empty::<P>(),
            res@.well_formed(),
    {
        let mut entries: Vec<Option<Entry<P>>> = Vec::new();
        let mut i: usize = 0;
        while i <= MAX_MATERIAL_ID
            invariant
                i <= MAX_MATERIAL_ID + 1,
                entries@.len() == i,
                forall|k: int| 0 <= k < i ==> (#[trigger] entries@[k]) is None,
            decreases MAX_MATERIAL_ID + 1 - i,
        {
            entries.push(None);
            i = i + 1;
        }
        let mut frames: Vec<TextureRef> = Vec::new();
        let mut j: usize = 0;
        while j < MAX_FRAMES
            invariant
                j <= MAX_FRAMES,
                frames@.len() == j,
                forall|k: int| 0 <= k < j ==> (#[trigger] frames@[k]) == empty_ref(),
            decreases MAX_FRAMES - j,
        {
            frames.push(TextureRef { bucket: 0, layer: 0 });
            j = j + 1;
        }
        let res = Data { entries, frames, next_free_frame: 0 };
        assert(res@.entries =~= data_empty::<P>().entries);
        assert(res@.frames =~= data_empty::<P>().frames);
        res
    }

    /// Writes material `material_ix` with the frames `texture_refs`, as
    /// `data_write` describes; a refused write leaves the table unchanged.
    pub fn write(
        &mut self,
        material_ix: u32,
        style: P,
        texture_refs: &[TextureRef],
        texture_addressing: u32,
    ) -> (res: Result<(), WriteError>)
        requires
            old(self)@.well_formed(),
        ensures
            match data_write(old(self)@, material_ix as nat, style, texture_refs@, texture_addressing) {
                Ok(d) => res is Ok && final(self)@ == d,
                Err(e) => res == Err::<(), WriteError>(e) && final(self)@ == old(self)@,
            },
            final(self)@.well_formed(),
    {
        let material_id = material_ix as usize;
        if material_id > MAX_MATERIAL_ID {
            return Err(WriteError::TooManyMaterials);
        }
        if texture_refs.len() > MAX_FRAMES - self.next_free_frame as usize {
            return Err(WriteError::TooManyFrames);
        }
        let ghost old_view = self@;
        let offset = self.next_free_frame;
        let count = texture_refs.len();
        let entry = Entry { num_frames: count as u32, offset, texture_addressing, style };
        proof {
            lemma_write_keeps_well_formed(old_view, material_ix as nat, style, texture_refs@, texture_addressing);
        }
        let ghost target = data_write(old_view, material_ix as nat, style, texture_refs@, texture_addressing)->Ok_0;
        let next = offset + count as u32;
        self.next_free_frame = next;
        self.entries.set(material_id, Some(entry));
        assert(self@.entries =~= target.entries);
        let mut i: usize = 0;
        while i < count
            invariant
                i <= count,
                count == texture_refs@.len(),
                offset as nat == old_view.next_free,
                old_view.next_free + count <= MAX_FRAMES,
                self@.entries == target.entries,
                self@.next_free == target.next_free,
                target.well_formed(),
                self@.frames == splice(old_view.frames, offset as int, texture_refs@.take(i as int)),
                old_view.frames.len() == MAX_FRAMES,
            decreases count - i,
        {
            self.frames.set(offset as usize + i, texture_refs[i]);
            assert(self@.frames =~= splice(old_view.frames, offset as int, texture_refs@.take(i + 1)));
            i = i + 1;
        }
        assert(texture_refs@.take(count as int) =~= texture_refs@);
        assert(self@.frames =~= target.frames);
        Ok(())
    }
}

} // verus!
