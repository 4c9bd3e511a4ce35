use vstd::prelude::*;
use crate::level::manifest::{Manifest, Material};
use crate::util::strings::position_of;

pub mod cache;
pub mod error;
pub mod manifest;
pub mod material;
pub mod model;
pub mod portal;

verus! {

/// For each material name of a mesh, the manifest material of that name, if any.
pub fn build_material_index<'a, P>(manifest: &'a Manifest<P>, names: &[String]) -> (res: Vec<Option<&'a Material<P>>>)
    ensures
        res@.len() == names@.len(),
        forall|i: int| 0 <= i < names@.len() ==> match manifest.material_spec(names@[i]@) {
            Some(m) => (#[trigger] res@[i]) == Some(&m),
            None => res@[i] is None,
        },
{
    let mut mapped: Vec<Option<&'a Material<P>>> = Vec::new();
    let mut i: usize = 0;
    while i < names.len()
        invariant
            i <= names@.len(),
            mapped@.len() == i,
            forall|k: int| 0 <= k < i ==> match manifest.material_spec(names@[k]@) {
                Some(m) => (#[trigger] mapped@[k]) == Some(&m),
                None => mapped@[k] is None,
            },
        decreases names@.len() - i,
    {
        let material = manifest.material(names[i].as_str());
        mapped.push(material);
        i = i + 1;
    }
    mapped
}

/// The href of the mesh that levels collide with: the manifest's collider, or
/// its render model when it names none.
pub fn collider_href<P>(manifest: &Manifest<P>) -> (res: &str)
    ensures
        match manifest.collider {
            Some(c) => res@ == c@,
            None => res@ == manifest.model@,
        },
{
    match &manifest.collider {
        Some(collider) => collider.as_str(),
        None => manifest.model.as_str(),
    }
}

} // verus!
