use vstd::prelude::*;

use crate::material::Material;
use crate::vertex::{Mesh, Vertex};

verus! {

/// The batch of one material key.
pub struct MeshEntry {
    pub key: String,
    pub mesh: Mesh,
}

/// The catalog record of one material key.
pub struct MaterialEntry {
    pub key: String,
    pub material: Material,
}

/// An imported scene: one batch per material key and the material records,
/// each kept in the order in which its key first appeared.
pub struct Model {
    pub meshes: Vec<MeshEntry>,
    pub materials: Vec<MaterialEntry>,
}

/// Key and vertices of each batch, in order.
pub open spec fn batches_view(s: Seq<MeshEntry>) -> Seq<(Seq<char>, Seq<Vertex>)> {
    s.map_values(|e: MeshEntry| (e.key@, e.mesh.verts@))
}

pub open spec fn has_batch(v: Seq<(Seq<char>, Seq<Vertex>)>, k: Seq<char>) -> bool {
    exists|j: int| 0 <= j < v.len() && (#[trigger] v[j]).0 == k
}

/// Batch keys are pairwise distinct.
pub open spec fn batch_keys_unique(v: Seq<(Seq<char>, Seq<Vertex>)>) -> bool {
    forall|i: int, j: int| 0 <= i < v.len() && 0 <= j < v.len() && i != j ==> (#[trigger] v[i]).0 != (#[trigger] v[j]).0
}

/// Adding `verts` under key `k`: appended to the batch of that key if there is
/// one, else a new batch at the end.
pub open spec fn merged(v: Seq<(Seq<char>, Seq<Vertex>)>, k: Seq<char>, verts: Seq<Vertex>) -> Seq<(Seq<char>, Seq<Vertex>)> {
    if has_batch(v, k) {
        let j = choose|j: int| 0 <= j < v.len() && (#[trigger] v[j]).0 == k;
        v.update(j, (k, v[j].1 + verts))
    } else {
        v.push((k, verts))
    }
}

pub open spec fn material_keys_unique(s: Seq<MaterialEntry>) -> bool {
    forall|i: int, j: int| 0 <= i < s.len() && 0 <= j < s.len() && i != j ==> (#[trigger] s[i]).key@ != (#[trigger] s[j]).key@
}

/// The record under key `k`, if any.
pub open spec fn material_of(s: Seq<MaterialEntry>, k: Seq<char>) -> Option<Material> {
    if exists|j: int| 0 <= j < s.len() && (#[trigger] s[j]).key@ == k {
        let j = choose|j: int| 0 <= j < s.len() && (#[trigger] s[j]).key@ == k;
        Some(s[j].material)
    } else {
        None
    }
}

/// Two batches added under a key that the model does not hold yet end up as one
/// batch under that key, holding the vertices of both in the order added, so
/// its vertex count is the sum of theirs; every other batch is unchanged.
pub proof fn lemma_shared_key_single_batch(
    v: Seq<(Seq<char>, Seq<Vertex>)>,
    k: Seq<char>,
    a: Seq<Vertex>,
    b: Seq<Vertex>,
)
    requires
        batch_keys_unique(v),
        !has_batch(v, k),
    ensures
        batch_keys_unique(merged(merged(v, k, a), k, b)),
        merged(merged(v, k, a), k, b).len() == v.len() + 1,
        merged(merged(v, k, a), k, b).last() == (k, a + b),
        merged(merged(v, k, a), k, b).last().1.len() == a.len() + b.len(),
        forall|j: int| 0 <= j < v.len() ==> #[trigger] merged(merged(v, k, a), k, b)[j] == v[j],
{
    let v1 = merged(v, k, a);
    assert(v1 == v.push((k, a)));
    let n = v.len() as int;
    assert(v1[n].0 == k);
    assert(has_batch(v1, k));
    let c = choose|c: int| 0 <= c < v1.len() && (#[trigger] v1[c]).0 == k;
    if c != n {
        assert(v1[c] == v[c]);
        assert(false);
    }
    let v2 = merged(v1, k, b);
    assert(v2 == v1.update(n, (k, a + b)));
    assert forall|i: int, j: int| 0 <= i < v2.len() && 0 <= j < v2.len() && i != j implies (#[trigger] v2[i]).0 != (#[trigger] v2[j]).0 by {
        if i < n && j < n {
            assert(v2[i] == v[i] && v2[j] == v[j]);
        } else if i < n {
            assert(v2[i] == v[i]);
        } else {
            assert(v2[j] == v[j]);
        }
    }
}

/// With distinct keys, the record under a key is the one stored at its position.
pub proof fn lemma_material_at(s: Seq<MaterialEntry>, j: int)
    requires
        material_keys_unique(s),
        0 <= j < s.len(),
    ensures
        material_of(s, s[j].key@) == Some(s[j].material),
{
    let k = s[j].key@;
    let c = choose|c: int| 0 <= c < s.len() && (#[trigger] s[c]).key@ == k;
    assert(c == j);
}

impl Model {
    pub open spec fn wf(&self) -> bool {
        &&& batch_keys_unique(batches_view(self.meshes@))
        &&& material_keys_unique(self.materials@)
    }

    pub fn new() -> (m: Model)
        ensures
            m.wf(),
            m.meshes@.len() == 0,
            m.materials@.len() == 0,
    {
        Model { meshes: Vec::new(), materials: Vec::new() }
    }

    /// Whether batch keys and material keys are each pairwise distinct.
    pub fn check_wf(&self) -> (r: bool)
        ensures
            r == self.wf(),
    {
        let ghost v = batches_view(self.meshes@);
        let mut i: usize = 0;
        while i < self.meshes.len()
            invariant
                v == batches_view(self.meshes@),
                i <= self.meshes@.len(),
                forall|a: int, b: int| 0 <= a < i && 0 <= b < i && a != b ==> (#[trigger] v[a]).0 != (#[trigger] v[b]).0,
            decreases self.meshes@.len() - i,
        {
            let mut j: usize = 0;
            while j < i
                invariant
                    v == batches_view(self.meshes@),
                    i < self.meshes@.len(),
                    j <= i,
                    forall|b: int| 0 <= b < j ==> v[i as int].0 != (#[trigger] v[b]).0,
                decreases i - j,
            {
                if self.meshes[i].key == self.meshes[j].key {
                    assert(v[i as int].0 == v[j as int].0);
                    return false;
                }
                j = j + 1;
            }
            i = i + 1;
        }
        let mut i: usize = 0;
        while i < self.materials.len()
            invariant
                batch_keys_unique(v),
                v == batches_view(self.meshes@),
                i <= self.materials@.len(),
                forall|a: int, b: int| 0 <= a < i && 0 <= b < i && a != b ==> (#[trigger] self.materials@[a]).key@ != (#[trigger] self.materials@[b]).key@,
            decreases self.materials@.len() - i,
        {
            let mut j: usize = 0;
            while j < i
                invariant
                    i < self.materials@.len(),
                    j <= i,
                    forall|b: int| 0 <= b < j ==> self.materials@[i as int].key@ != (#[trigger] self.materials@[b]).key@,
                decreases i - j,
            {
                if self.materials[i].key == self.materials[j].key {
                    return false;
                }
                j = j + 1;
            }
            i = i + 1;
        }
        true
    }

    fn find_batch(&self, key: &String) -> (r: Option<usize>)
        ensures
            r matches Some(j) ==> j < self.meshes@.len() && self.meshes@[j as int].key@ == key@,
            r is None ==> !has_batch(batches_view(self.meshes@), key@),
    {
        let mut i: usize = 0;
        while i < self.meshes.len()
            invariant
                i <= self.meshes@.len(),
                forall|j: int| 0 <= j < i ==> (#[trigger] self.meshes@[j]).key@ != key@,
            decreases self.meshes@.len() - i,
        {
            if self.meshes[i].key == *key {
                return Some(i);
            }
            i = i + 1;
        }
        proof {
            let v = batches_view(self.meshes@);
            assert forall|j: int| 0 <= j < v.len() implies (#[trigger] v[j]).0 != key@ by {
                assert(self.meshes@[j].key@ != key@);
            }
        }
        None
    }

    /// Adds a primitive's batch under its material key: appended to the batch
    /// already held under that key, or stored as a new batch. Batches already
    /// held keep their device buffers.
    pub fn merge_mesh(&mut self, key: String, batch: Mesh)
        requires
            old(self).wf(),
        ensures
            final(self).wf(),
            batches_view(final(self).meshes@) == merged(batches_view(old(self).meshes@), key@, batch.verts@),
            final(self).materials@ == old(self).materials@,
            forall|j: int| 0 <= j < old(self).meshes@.len() ==> #[trigger] final(self).meshes@[j].mesh.buffer == old(self).meshes@[j].mesh.buffer,
            !has_batch(batches_view(old(self).meshes@), key@) ==> final(self).meshes@.last().mesh.buffer == batch.buffer,
    {
        let ghost v = batches_view(self.meshes@);
        match self.find_batch(&key) {
            Some(j) => {
                let mut batch = batch;
                let ghost added = batch.verts@;
                self.meshes[j].mesh.verts.append(&mut batch.verts);
                proof {
                    assert(v[j as int].0 == key@);
                    let c = choose|c: int| 0 <= c < v.len() && (#[trigger] v[c]).0 == key@;
                    assert(c == j);
                    assert(batches_view(self.meshes@) =~= v.update(j as int, (key@, v[j as int].1 + added)));
                }
            },
            None => {
                self.meshes.push(MeshEntry { key, mesh: batch });
                proof {
                    assert(batches_view(self.meshes@) =~= v.push((key@, batch.verts@)));
                }
            },
        }
    }

    /// Stores a material record under its key, replacing the record held under
    /// that key if there is one.
    pub fn insert_material(&mut self, key: String, material: Material)
        requires
            old(self).wf(),
        ensures
            final(self).wf(),
            final(self).meshes@ == old(self).meshes@,
            material_of(final(self).materials@, key@) == Some(material),
            forall|k: Seq<char>| k != key@ ==> material_of(final(self).materials@, k) == material_of(old(self).materials@, k),
    {
        let ghost s0 = self.materials@;
        let mut i: usize = 0;
        while i < self.materials.len()
            invariant
                i <= self.materials@.len(),
                self.wf(),
                self.meshes@ == old(self).meshes@,
                self.materials@ == s0,
                s0 == old(self).materials@,
                forall|j: int| 0 <= j < i ==> (#[trigger] self.materials@[j]).key@ != key@,
            decreases self.materials@.len() - i,
        {
            if self.materials[i].key == key {
                self.materials[i].material = material;
                proof {
                    let s1 = self.materials@;
                    assert(forall|j: int| 0 <= j < s1.len() ==> (#[trigger] s1[j]).key@ == s0[j].key@);
                    assert(material_keys_unique(s1));
                    lemma_material_at(s1, i as int);
                    assert forall|k: Seq<char>| k != key@ implies material_of(s1, k) == material_of(s0, k) by {
                        if exists|j: int| 0 <= j < s0.len() && (#[trigger] s0[j]).key@ == k {
                            let j = choose|j: int| 0 <= j < s0.len() && (#[trigger] s0[j]).key@ == k;
                            lemma_material_at(s0, j);
                            lemma_material_at(s1, j);
                        } else {
                            assert forall|j: int| 0 <= j < s1.len() implies (#[trigger] s1[j]).key@ != k by {
                                assert(s1[j].key@ == s0[j].key@);
                            }
                        }
                    }
                }
                return;
            }
            i = i + 1;
        }
        self.materials.push(MaterialEntry { key, material });
        proof {
            let s1 = self.materials@;
            assert(forall|j: int| 0 <= j < s0.len() ==> #[trigger] s1[j] == s0[j]);
            assert(material_keys_unique(s1));
            lemma_material_at(s1, s0.len() as int);
            assert forall|k: Seq<char>| k != key@ implies material_of(s1, k) == material_of(s0, k) by {
                if exists|j: int| 0 <= j < s0.len() && (#[trigger] s0[j]).key@ == k {
                    let j = choose|j: int| 0 <= j < s0.len() && (#[trigger] s0[j]).key@ == k;
                    lemma_material_at(s0, j);
                    lemma_material_at(s1, j);
                } else {
                    assert forall|j: int| 0 <= j < s1.len() implies (#[trigger] s1[j]).key@ != k by {
                        if j < s0.len() {
                            assert(s1[j] == s0[j]);
                        }
                    }
                }
            }
        }
    }

    /// The material record under `key`, if any.
    pub fn material(&self, key: &String) -> (r: Option<Material>)
        requires
            material_keys_unique(self.materials@),
        ensures
            r == material_of(self.materials@, key@),
    {
        let mut i: usize = 0;
        while i < self.materials.len()
            invariant
                i <= self.materials@.len(),
                material_keys_unique(self.materials@),
                forall|j: int| 0 <= j < i ==> (#[trigger] self.materials@[j]).key@ != key@,
            decreases self.materials@.len() - i,
        {
            if self.materials[i].key == *key {
                proof {
                    lemma_material_at(self.materials@, i as int);
                }
                return Some(self.materials[i].material);
            }
            i = i + 1;
        }
        None
    }
}

} // verus!
