use vstd::prelude::*;
use crate::util::strings::{str_eq, find_first, position_of, lemma_find_first, keys_unique, lemma_find_unique};
use vstd::utf8::valid_utf8;
use vstd::string::StringSliceAdditionalSpecFns;

pub mod fetch;

verus! {

/// The manifest format version this game reads.
pub const MANIFEST_VERSION: &'static str = "coco";
/// Most portals a level may have.
pub const MAX_PORTALS: usize = 4;

/// How a material's texture is sampled.
#[derive(Clone, Copy, Debug, PartialEq, Eq, Structural)]
pub enum TextureAddressing {
    Linear,
    Nearest,
}

/// A material of a level: the hrefs of its animation frames, how its texture is
/// sampled, and its style values (animation speed, color), which the renderer
/// reads as they are.
pub struct Material<P> {
    pub frames: Option<Vec<String>>,
    pub texture_addressing: Option<TextureAddressing>,
    pub style: P,
}

/// Where a portal leads: a level manifest (relative to this one) and a portal in it.
pub struct Target {
    pub href: String,
    pub name: String,
}

/// A portal of a level: its collider mesh and, if it leads anywhere, its target.
pub struct Portal {
    pub collider: String,
    pub target: Option<Target>,
}

/// A level manifest as decoded from its JSON document, before it is checked.
pub struct ManifestData<P> {
    pub version: String,
    pub model: String,
    pub collider: Option<String>,
    pub track: Option<String>,
    pub materials: Vec<(String, Material<P>)>,
    pub portals: Vec<(String, Portal)>,
}

/// A checked level manifest with the bytes of the assets it names.
pub struct Manifest<P> {
    pub model: String,
    pub collider: Option<String>,
    pub track: Option<String>,
    pub materials: Vec<(String, Material<P>)>,
    pub portals: Vec<(String, Portal)>,
    pub assets: Vec<(String, Vec<u8>)>,
}

/// Why a level manifest could not be loaded; text payloads are the texts of the
/// underlying errors.
#[derive(Debug)]
pub enum LoadError {
    Fetch(fetch::Error),
    UTF8(String),
    Decode(String),
    TooManyPortals,
    InvalidVersion,
}

/// The text of the `std::str::Utf8Error` that `std::str::from_utf8` reports for
/// some bytes.
pub uninterp spec fn utf8_error_text(data: Seq<u8>) -> Seq<char>;

/// Reads bytes as UTF-8 text with `std::str::from_utf8`. As std documents, it
/// succeeds exactly on valid UTF-8, with a string of those bytes; the text of
/// the error otherwise is named `utf8_error_text` of the bytes.
#[verifier::external_body]
fn utf8_text(data: &[u8]) -> (res: Result<&str, String>)
    ensures
        res is Ok <==> valid_utf8(data@),
        res matches Ok(s) ==> s.spec_bytes() == data@,
        res matches Err(e) ==> e@ == utf8_error_text(data@),
{
    match std::str::from_utf8(data) {
        Ok(s) => Ok(s),
        Err(err) => Err(err.to_string()),
    }
}

/// The text of a fetched manifest: its bytes must be valid UTF-8.
pub fn manifest_text(data: &[u8]) -> (res: Result<&str, LoadError>)
    ensures
        valid_utf8(data@) ==> (res matches Ok(s) && s.spec_bytes() == data@),
        !valid_utf8(data@) ==> (res matches Err(LoadError::UTF8(e)) && e@ == utf8_error_text(data@)),
{
    match utf8_text(data) {
        Ok(s) => Ok(s),
        Err(e) => Err(LoadError::UTF8(e)),
    }
}

/// The characters of each string.
pub open spec fn views(v: Seq<String>) -> Seq<Seq<char>> {
    v.map_values(|s: String| s@)
}

/// The href of an optional asset, as a list of zero or one hrefs.
pub open spec fn opt_href(o: Option<String>) -> Seq<Seq<char>> {
    match o {
        Some(s) => seq![s@],
        None => Seq::empty(),
    }
}

/// The frame hrefs of a material, in order.
pub open spec fn frame_hrefs(frames: Option<Vec<String>>) -> Seq<Seq<char>> {
    match frames {
        Some(v) => views(v@),
        None => Seq::empty(),
    }
}

/// The frame hrefs of all materials, material after material.
pub open spec fn material_hrefs<P>(ms: Seq<(String, Material<P>)>) -> Seq<Seq<char>>
    decreases ms.len(),
{
    if ms.len() == 0 {
        Seq::empty()
    } else {
        material_hrefs(ms.drop_last()) + frame_hrefs(ms.last().1.frames)
    }
}

/// The collider hrefs of all portals.
pub open spec fn portal_hrefs(ps: Seq<(String, Portal)>) -> Seq<Seq<char>> {
    ps.map_values(|p: (String, Portal)| p.1.collider@)
}

/// `s` without repeats, each href kept where it first occurs.
pub open spec fn dedup(s: Seq<Seq<char>>) -> Seq<Seq<char>>
    decreases s.len(),
{
    if s.len() == 0 {
        s
    } else {
        let d = dedup(s.drop_last());
        if d.contains(s.last()) {
            d
        } else {
            d.push(s.last())
        }
    }
}

/// Lookup law: when the manifest names each material once, as the decoded
/// JSON object does, looking up a material's name gives that material.
pub proof fn lemma_material_lookup<P>(m: Manifest<P>, i: int)
    requires
        keys_unique(m.spec_materials()),
        0 <= i < m.spec_materials().len(),
    ensures
        m.material_spec(m.spec_materials()[i].0@) == Some(m.spec_materials()[i].1),
{
    lemma_find_unique(m.spec_materials(), i);
}

/// A list joined from two holds exactly what either part holds.
proof fn lemma_concat_contains(a: Seq<Seq<char>>, b: Seq<Seq<char>>, x: Seq<char>)
    ensures
        (a + b).contains(x) <==> a.contains(x) || b.contains(x),
{
    if a.contains(x) {
        let k = choose|k: int| 0 <= k < a.len() && a[k] == x;
        assert((a + b)[k] == x);
    }
    if b.contains(x) {
        let k = choose|k: int| 0 <= k < b.len() && b[k] == x;
        assert((a + b)[a.len() + k] == x);
    }
    if (a + b).contains(x) {
        let k = choose|k: int| 0 <= k < (a + b).len() && (a + b)[k] == x;
        if k < a.len() {
            assert(a[k] == x);
        } else {
            assert(b[k - a.len()] == x);
        }
    }
}

/// Every frame that a material lists is among the materials' frame hrefs.
proof fn lemma_material_hrefs_has<P>(ms: Seq<(String, Material<P>)>, i: int, k: int)
    requires
        0 <= i < ms.len(),
        0 <= k < frame_hrefs(ms[i].1.frames).len(),
    ensures
        material_hrefs(ms).contains(frame_hrefs(ms[i].1.frames)[k]),
    decreases ms.len(),
{
    let t = ms.drop_last();
    let x = frame_hrefs(ms[i].1.frames)[k];
    lemma_concat_contains(material_hrefs(t), frame_hrefs(ms.last().1.frames), x);
    if i < ms.len() - 1 {
        assert(t[i] == ms[i]);
        lemma_material_hrefs_has(t, i, k);
    } else {
        assert(frame_hrefs(ms.last().1.frames)[k] == x);
    }
}

/// Every one of the materials' frame hrefs is a frame that some material lists.
proof fn lemma_material_hrefs_from<P>(ms: Seq<(String, Material<P>)>, x: Seq<char>)
    requires
        material_hrefs(ms).contains(x),
    ensures
        exists|i: int, k: int| 0 <= i < ms.len() && 0 <= k < frame_hrefs(ms[i].1.frames).len()
            && #[trigger] frame_hrefs(ms[i].1.frames)[k] == x,
    decreases ms.len(),
{
    let t = ms.drop_last();
    let last = frame_hrefs(ms.last().1.frames);
    lemma_concat_contains(material_hrefs(t), last, x);
    if material_hrefs(t).contains(x) {
        lemma_material_hrefs_from(t, x);
        let (i, k) = choose|i: int, k: int| 0 <= i < t.len() && 0 <= k < frame_hrefs(t[i].1.frames).len()
            && #[trigger] frame_hrefs(t[i].1.frames)[k] == x;
        assert(t[i] == ms[i]);
        assert(frame_hrefs(ms[i].1.frames)[k] == x);
    } else {
        let k = choose|k: int| 0 <= k < last.len() && last[k] == x;
        assert(frame_hrefs(ms[ms.len() - 1].1.frames)[k] == x);
    }
}

/// Asset list law: the hrefs a manifest needs fetched are exactly the hrefs it
/// names (its model, its collider and track if any, every portal's collider and
/// every frame every material lists), each once, starting with the model.
pub proof fn lemma_asset_hrefs<P>(m: Manifest<P>)
    ensures
        dedup(m.referenced_hrefs()).len() > 0 && dedup(m.referenced_hrefs())[0] == m.model@,
        dedup(m.referenced_hrefs()).contains(m.model@),
        m.collider matches Some(c) ==> dedup(m.referenced_hrefs()).contains(c@),
        m.track matches Some(t) ==> dedup(m.referenced_hrefs()).contains(t@),
        forall|i: int| 0 <= i < m.portals@.len()
            ==> dedup(m.referenced_hrefs()).contains((#[trigger] m.portals@[i]).1.collider@),
        forall|i: int, k: int| 0 <= i < m.materials@.len() && 0 <= k < frame_hrefs(m.materials@[i].1.frames).len()
            ==> dedup(m.referenced_hrefs()).contains(#[trigger] frame_hrefs(m.materials@[i].1.frames)[k]),
        forall|x: Seq<char>| #[trigger] dedup(m.referenced_hrefs()).contains(x) ==> {
            ||| x == m.model@
            ||| (m.collider matches Some(c) && c@ == x)
            ||| (m.track matches Some(t) && t@ == x)
            ||| exists|i: int| 0 <= i < m.portals@.len() && (#[trigger] m.portals@[i]).1.collider@ == x
            ||| exists|i: int, k: int| 0 <= i < m.materials@.len() && 0 <= k < frame_hrefs(m.materials@[i].1.frames).len()
                && #[trigger] frame_hrefs(m.materials@[i].1.frames)[k] == x
        },
        forall|i: int, j: int| 0 <= i < j < dedup(m.referenced_hrefs()).len()
            ==> dedup(m.referenced_hrefs())[i] != dedup(m.referenced_hrefs())[j],
{
    let r = m.referenced_hrefs();
    let a = seq![m.model@];
    let b = opt_href(m.collider);
    let c = opt_href(m.track);
    let p = portal_hrefs(m.spec_portals());
    let f = material_hrefs(m.spec_materials());
    assert(r == a + b + c + p + f);
    lemma_dedup(r);
    lemma_dedup_first(r);
    assert forall|x: Seq<char>| r.contains(x) <==> (a.contains(x) || b.contains(x) || c.contains(x) || p.contains(x) || f.contains(x)) by {
        lemma_concat_contains(a + b + c + p, f, x);
        lemma_concat_contains(a + b + c, p, x);
        lemma_concat_contains(a + b, c, x);
        lemma_concat_contains(a, b, x);
    }
    assert(a[0] == m.model@);
    if let Some(cl) = m.collider {
        assert(b[0] == cl@);
        assert(b.contains(cl@));
        assert(r.contains(cl@));
    }
    if let Some(t) = m.track {
        assert(c[0] == t@);
        assert(c.contains(t@));
        assert(r.contains(t@));
    }
    assert forall|i: int| 0 <= i < m.portals@.len()
        implies dedup(r).contains((#[trigger] m.portals@[i]).1.collider@) by {
        assert(p[i] == m.portals@[i].1.collider@);
        assert(p.contains(m.portals@[i].1.collider@));
        assert(r.contains(m.portals@[i].1.collider@));
    }
    assert forall|i: int, k: int| 0 <= i < m.materials@.len() && 0 <= k < frame_hrefs(m.materials@[i].1.frames).len()
        implies dedup(r).contains(#[trigger] frame_hrefs(m.materials@[i].1.frames)[k]) by {
        lemma_material_hrefs_has(m.spec_materials(), i, k);
    }
    assert forall|x: Seq<char>| #[trigger] dedup(r).contains(x) implies {
        ||| x == m.model@
        ||| (m.collider matches Some(cl) && cl@ == x)
        ||| (m.track matches Some(t) && t@ == x)
        ||| exists|i: int| 0 <= i < m.portals@.len() && (#[trigger] m.portals@[i]).1.collider@ == x
        ||| exists|i: int, k: int| 0 <= i < m.materials@.len() && 0 <= k < frame_hrefs(m.materials@[i].1.frames).len()
            && #[trigger] frame_hrefs(m.materials@[i].1.frames)[k] == x
    } by {
        if p.contains(x) {
            let i = choose|i: int| 0 <= i < p.len() && p[i] == x;
            assert(m.portals@[i].1.collider@ == x);
        }
        if f.contains(x) {
            lemma_material_hrefs_from(m.spec_materials(), x);
        }
    }
}

/// The first href of a list is the first of its de-duplicated list.
proof fn lemma_dedup_first(s: Seq<Seq<char>>)
    requires
        s.len() > 0,
    ensures
        dedup(s).len() > 0 && dedup(s)[0] == s[0],
    decreases s.len(),
{
    if s.len() > 1 {
        let t = s.drop_last();
        lemma_dedup_first(t);
        assert(t[0] == s[0]);
    } else {
        assert(dedup(s.drop_last()) =~= Seq::<Seq<char>>::empty());
    }
}

/// A de-duplicated list holds every href of the list it came from and no href twice.
pub proof fn lemma_dedup(s: Seq<Seq<char>>)
    ensures
        forall|x: Seq<char>| dedup(s).contains(x) <==> s.contains(x),
        forall|i: int, j: int| 0 <= i < j < dedup(s).len() ==> dedup(s)[i] != dedup(s)[j],
    decreases s.len(),
{
    if s.len() > 0 {
        let t = s.drop_last();
        lemma_dedup(t);
        assert forall|x: Seq<char>| dedup(s).contains(x) <==> s.contains(x) by {
            if t.contains(x) {
                let k = choose|k: int| 0 <= k < t.len() && t[k] == x;
                assert(s[k] == x);
            }
            if s.contains(x) {
                let k = choose|k: int| 0 <= k < s.len() && s[k] == x;
                if k < s.len() - 1 {
                    assert(t[k] == x);
                }
            }
            if dedup(s).contains(x) && !dedup(t).contains(x) {
                assert(dedup(s) == dedup(t).push(s.last()));
                let k = choose|k: int| 0 <= k < dedup(s).len() && dedup(s)[k] == x;
                assert(k == dedup(t).len());
                assert(s[s.len() - 1] == x);
            }
            if dedup(t).contains(x) {
                let k = choose|k: int| 0 <= k < dedup(t).len() && dedup(t)[k] == x;
                if !dedup(t).contains(s.last()) {
                    assert(dedup(s)[k] == x);
                }
            }
            if x == s.last() && !dedup(t).contains(x) {
                assert(dedup(s)[dedup(t).len() as int] == x);
            }
        }
    }
}

/// Whether `s` is one of the strings of `v`.
fn contains_str(v: &Vec<String>, s: &str) -> (res: bool)
    ensures
        res == views(v@).contains(s@),
{
    let mut i: usize = 0;
    while i < v.len()
        invariant
            i <= v@.len(),
            forall|k: int| 0 <= k < i ==> v@[k]@ != s@,
        decreases v@.len() - i,
    {
        if str_eq(v[i].as_str(), s) {
            assert(views(v@)[i as int] == s@);
            return true;
        }
        i = i + 1;
    }
    assert forall|k: int| 0 <= k < views(v@).len() implies views(v@)[k] != s@ by {}
    false
}

/// The strings of `v` without repeats, each kept where it first occurs.
pub fn dedup_strings(v: &Vec<String>) -> (res: Vec<String>)
    ensures
        views(res@) == dedup(views(v@)),
{
    let mut out: Vec<String> = Vec::new();
    let mut i: usize = 0;
    while i < v.len()
        invariant
            i <= v@.len(),
            views(out@) == dedup(views(v@).take(i as int)),
        decreases v@.len() - i,
    {
        let ghost prefix = views(v@).take(i + 1);
        assert(prefix.drop_last() =~= views(v@).take(i as int));
        assert(prefix.last() == v@[i as int]@);
        if !contains_str(&out, v[i].as_str()) {
            let s = v[i].clone();
            out.push(s);
            assert(views(out@) =~= dedup(views(v@).take(i as int)).push(v@[i as int]@));
        }
        i = i + 1;
    }
    assert(views(v@).take(v@.len() as int) =~= views(v@));
    out
}

impl<P> Manifest<P> {
    /// The materials, by name, as the manifest lists them.
    pub open spec fn spec_materials(&self) -> Seq<(String, Material<P>)> {
        self.materials@
    }

    /// The portals, by name, as the manifest lists them.
    pub open spec fn spec_portals(&self) -> Seq<(String, Portal)> {
        self.portals@
    }

    /// The fetched assets, by href.
    pub open spec fn spec_assets(&self) -> Seq<(String, Vec<u8>)> {
        self.assets@
    }

    /// Every asset href the manifest refers to, in this order: the model, the
    /// collider, the track, the portal colliders, the material frames.
    pub open spec fn referenced_hrefs(&self) -> Seq<Seq<char>> {
        seq![self.model@] + opt_href(self.collider) + opt_href(self.track)
            + portal_hrefs(self.spec_portals()) + material_hrefs(self.spec_materials())
    }

    /// The bytes of the asset fetched for `href`, if any.
    pub open spec fn asset_spec(&self, href: Seq<char>) -> Option<Seq<u8>> {
        match find_first(self.spec_assets(), href) {
            Some(i) => Some(self.spec_assets()[i].1@),
            None => None,
        }
    }

    /// The material named `name`, if any.
    pub open spec fn material_spec(&self, name: Seq<char>) -> Option<Material<P>> {
        match find_first(self.spec_materials(), name) {
            Some(i) => Some(self.spec_materials()[i].1),
            None => None,
        }
    }

    /// Checks a decoded manifest: its version must be this game's and it may
    /// have at most `MAX_PORTALS` portals. The checked manifest has no assets yet.
    pub fn from_data(data: ManifestData<P>) -> (res: Result<Manifest<P>, LoadError>)
        ensures
            data.version@ != MANIFEST_VERSION@ ==> res matches Err(LoadError::InvalidVersion),
            data.version@ == MANIFEST_VERSION@ && data.portals@.len() > MAX_PORTALS
                ==> res matches Err(LoadError::TooManyPortals),
            data.version@ == MANIFEST_VERSION@ && data.portals@.len() <= MAX_PORTALS ==> (res matches Ok(m)
                && m.model == data.model && m.collider == data.collider && m.track == data.track
                && m.spec_materials() == data.materials@ && m.spec_portals() == data.portals@
                && m.spec_assets().len() == 0),
    {
        if !str_eq(data.version.as_str(), MANIFEST_VERSION) {
            return Err(LoadError::InvalidVersion);
        }
        if data.portals.len() > MAX_PORTALS {
            return Err(LoadError::TooManyPortals);
        }
        Ok(Manifest {
            model: data.model,
            collider: data.collider,
            track: data.track,
            materials: data.materials,
            portals: data.portals,
            assets: Vec::new(),
        })
    }

    /// The hrefs of every asset the level needs, each once, in the order of
    /// `referenced_hrefs`.
    pub fn asset_hrefs(&self) -> (res: Vec<String>)
        ensures
            views(res@) == dedup(self.referenced_hrefs()),
            res@.len() > 0 && res@[0]@ == self.model@,
            self.collider matches Some(c) ==> views(res@).contains(c@),
            self.track matches Some(t) ==> views(res@).contains(t@),
            forall|i: int| 0 <= i < self.portals@.len()
                ==> views(res@).contains((#[trigger] self.portals@[i]).1.collider@),
            forall|i: int, k: int| 0 <= i < self.materials@.len() && 0 <= k < frame_hrefs(self.materials@[i].1.frames).len()
                ==> views(res@).contains(#[trigger] frame_hrefs(self.materials@[i].1.frames)[k]),
            forall|i: int, j: int| 0 <= i < j < res@.len() ==> res@[i]@ != res@[j]@,
    {
        proof {
            lemma_asset_hrefs(*self);
        }
        let mut all: Vec<String> = Vec::new();
        all.push(self.model.clone());
        match &self.collider {
            Some(c) => {
                all.push(c.clone());
            },
            None => {},
        }
        let ghost h1 = all@;
        match &self.track {
            Some(t) => {
                all.push(t.clone());
                assert(views(all@) =~= views(h1).push(t@));
            },
            None => {},
        }
        let ghost head = seq![self.model@] + opt_href(self.collider) + opt_href(self.track);
        assert(views(all@) =~= head);
        let mut i: usize = 0;
        while i < self.portals.len()
            invariant
                i <= self.portals@.len(),
                views(all@) == head + portal_hrefs(self.portals@.take(i as int)),
            decreases self.portals@.len() - i,
        {
            let ghost old_all = all@;
            all.push(self.portals[i].1.collider.clone());
            assert(views(all@) =~= views(old_all).push(self.portals@[i as int].1.collider@));
            assert(portal_hrefs(self.portals@.take(i + 1)) =~= portal_hrefs(self.portals@.take(i as int)).push(self.portals@[i as int].1.collider@));
            assert(views(all@) =~= head + portal_hrefs(self.portals@.take(i + 1)));
            i = i + 1;
        }
        assert(self.portals@.take(self.portals@.len() as int) =~= self.portals@);
        let ghost head2 = head + portal_hrefs(self.portals@);
        let mut k: usize = 0;
        while k < self.materials.len()
            invariant
                k <= self.materials@.len(),
                views(all@) == head2 + material_hrefs(self.materials@.take(k as int)),
            decreases self.materials@.len() - k,
        {
            let ghost before = views(all@);
            assert(self.materials@.take(k + 1).drop_last() =~= self.materials@.take(k as int));
            match &self.materials[k].1.frames {
                Some(frames) => {
                    let mut j: usize = 0;
                    while j < frames.len()
                        invariant
                            j <= frames@.len(),
                            views(all@) == before + views(frames@.take(j as int)),
                        decreases frames@.len() - j,
                    {
                        let ghost old_all = all@;
                        all.push(frames[j].clone());
                        assert(views(all@) =~= views(old_all).push(frames@[j as int]@));
                        assert(views(frames@.take(j + 1)) =~= views(frames@.take(j as int)).push(frames@[j as int]@));
                        assert(views(all@) =~= before + views(frames@.take(j + 1)));
                        j = j + 1;
                    }
                    assert(frames@.take(frames@.len() as int) =~= frames@);
                },
                None => {},
            }
            assert(views(all@) =~= head2 + material_hrefs(self.materials@.take(k + 1)));
            k = k + 1;
        }
        assert(self.materials@.take(self.materials@.len() as int) =~= self.materials@);
        assert(views(all@) =~= self.referenced_hrefs());
        let res = dedup_strings(&all);
        assert(views(res@)[0] == res@[0]@);
        assert forall|i: int, j: int| 0 <= i < j < res@.len() implies res@[i]@ != res@[j]@ by {
            assert(views(res@)[i] == res@[i]@ && views(res@)[j] == res@[j]@);
        }
        res
    }

    /// Attaches the fetched assets, by href.
    pub fn attach_assets(&mut self, assets: Vec<(String, Vec<u8>)>)
        ensures
            final(self).spec_assets() == assets@,
            keys_unique(assets@) ==> forall|i: int| 0 <= i < assets@.len()
                ==> final(self).asset_spec((#[trigger] assets@[i]).0@) == Some(assets@[i].1@),
            final(self).model == old(self).model,
            final(self).collider == old(self).collider,
            final(self).track == old(self).track,
            final(self).spec_materials() == old(self).spec_materials(),
            final(self).spec_portals() == old(self).spec_portals(),
    {
        self.assets = assets;
        proof {
            assert forall|i: int| keys_unique(assets@) && 0 <= i < assets@.len()
                implies self.asset_spec((#[trigger] assets@[i]).0@) == Some(assets@[i].1@) by {
                lemma_find_unique(assets@, i);
            }
        }
    }

    /// The bytes fetched for `href`, if any.
    pub fn asset(&self, href: &str) -> (res: Option<&[u8]>)
        ensures
            match self.asset_spec(href@) {
                Some(b) => res matches Some(r) && r@ == b,
                None => res is None,
            },
    {
        match position_of(&self.assets, href) {
            Some(i) => {
                assert(find_first(self.spec_assets(), href@) == Some(i as int));
                let r = self.assets[i].1.as_slice();
                assert(r@ == self.spec_assets()[i as int].1@);
                Some(r)
            },
            None => None,
        }
    }

    /// The material named `name`, if any.
    pub fn material(&self, name: &str) -> (res: Option<&Material<P>>)
        ensures
            match self.material_spec(name@) {
                Some(m) => res == Some(&m),
                None => res is None,
            },
    {
        match position_of(&self.materials, name) {
            Some(i) => Some(&self.materials[i].1),
            None => None,
        }
    }

    /// The materials, by name.
    pub fn materials(&self) -> (res: &[(String, Material<P>)])
        ensures
            res@ == self.spec_materials(),
    {
        self.materials.as_slice()
    }

    /// The portals, by name.
    pub fn portals(&self) -> (res: &[(String, Portal)])
        ensures
            res@ == self.spec_portals(),
    {
        self.portals.as_slice()
    }
}

} // verus!
