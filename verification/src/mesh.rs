//! The quads that bars are drawn on, shared between bars of one size.
//!
//! Every bar is drawn on a rectangle of its width and height. Bars of the
//! same size share one rectangle: [`MeshHandles`] remembers, for each size
//! seen so far, the handle of the mesh that was made for it.

use crate::scalar::Scalar;
use bevy::asset::{AssetId, Handle};
use bevy::mesh::Mesh;
use std::collections::HashMap;
use vstd::prelude::*;

verus! {

/// Which asset a handle refers to: a slot of the running asset store, given
/// by the bits of its generational index, or an asset known by a fixed
/// 128-bit identifier.
#[derive(Debug, Clone, Copy, PartialEq, Eq, Structural)]
pub enum MeshId {
    Index { bits: u64 },
    Uuid { value: u128 },
}

/// A handle of a mesh asset, as the engine gives it out. While a strong
/// handle is held the engine keeps the mesh alive.
///
/// Verification sees no more of a handle than [`mesh_id`] tells: it is
/// carried through, duplicated and compared, never looked into.
#[verifier::external_body]
pub struct MeshHandle(pub Handle<Mesh>);

/// The asset that a handle refers to: what `Handle::id` reports of the
/// engine's handle, as a [`MeshId`].
pub uninterp spec fn mesh_id(handle: MeshHandle) -> MeshId;

impl View for MeshHandle {
    type V = MeshId;

    open spec fn view(&self) -> MeshId {
        mesh_id(*self)
    }
}

impl MeshHandle {
    /// Calls `Handle::id` and writes the `AssetId` it returns as a
    /// [`MeshId`]: an `AssetId::Index` by `AssetIndex::to_bits`, which packs
    /// generation and index into 64 bits without loss, an `AssetId::Uuid` by
    /// the 128 bits of its identifier. The contract claims only that the
    /// outcome is a function of the handle.
    #[verifier::external_body]
    pub(crate) fn id(&self) -> (id: MeshId)
        ensures
            id == mesh_id(*self),
    {
        match self.0.id() {
            AssetId::Index { index, .. } => MeshId::Index { bits: index.to_bits() },
            AssetId::Uuid { uuid } => MeshId::Uuid { value: uuid.as_u128() },
        }
    }

    /// Calls `Handle::clone`. A clone of a strong handle shares the
    /// reference-counted record of the handle it was made from and a clone of a fixed identifier copies it,
    /// so the contract claims that the clone refers to the same asset.
    #[verifier::external_body]
    fn duplicate(&self) -> (copy: MeshHandle)
        ensures
            mesh_id(copy) == mesh_id(*self),
    {
        MeshHandle(self.0.clone())
    }

    /// Whether two handles refer to the same asset.
    pub fn same_asset(&self, other: &MeshHandle) -> (same: bool)
        ensures
            same == (self@ == other@),
    {
        self.id() == other.id()
    }
}

impl Clone for MeshHandle {
    fn clone(&self) -> (copy: Self)
        ensures
            copy@ == self@,
    {
        self.duplicate()
    }
}

/// The size under which a quad is remembered: the representative patterns
/// of its width and of its height. Two sizes have the same key exactly when
/// their widths are the same number and their heights are.
pub open spec fn mesh_key(width: Scalar, height: Scalar) -> (u32, u32) {
    (width.spec_canonical_bits(), height.spec_canonical_bits())
}

/// A key as one 64-bit number: the width's pattern in the upper half, the
/// height's in the lower.
pub open spec fn packed(key: (u32, u32)) -> u64 {
    (key.0 as int * 0x1_0000_0000 + key.1 as int) as u64
}

/// The key is one that [`mesh_key`] gives: each half is the representative
/// pattern of a number.
pub open spec fn is_mesh_key(key: (u32, u32)) -> bool {
    &&& (Scalar { bits: key.0 }).spec_canonical_bits() == key.0
    &&& (Scalar { bits: key.1 }).spec_canonical_bits() == key.1
}

/// The meshes made so far, by size.
pub struct MeshHandles {
    by_size: HashMap<u64, MeshHandle>,
}

impl View for MeshHandles {
    type V = Map<(u32, u32), MeshId>;

    /// For each remembered size, the asset that its handle refers to.
    closed spec fn view(&self) -> Map<(u32, u32), MeshId> {
        Map::new(
            |key: (u32, u32)| self.by_size@.contains_key(packed(key)),
            |key: (u32, u32)| self.by_size@[packed(key)]@,
        )
    }
}

impl MeshHandles {
    /// Nothing is remembered but under the key of a size.
    #[verifier::type_invariant]
    spec fn keyed_by_size(self) -> bool {
        forall|key: (u32, u32)| #[trigger]
            self.by_size@.contains_key(packed(key)) ==> is_mesh_key(key)
    }

    /// Remembers nothing yet.
    pub fn new() -> (mesh_handles: Self)
        ensures
            mesh_handles@ == Map::<(u32, u32), MeshId>::empty(),
    {
        let mesh_handles = MeshHandles { by_size: HashMap::new() };
        assert(mesh_handles@ =~= Map::<(u32, u32), MeshId>::empty());
        mesh_handles
    }

    fn key(width: Scalar, height: Scalar) -> (key: u64)
        ensures
            key == packed(mesh_key(width, height)),
    {
        let upper: u64 = width.canonical_bits() as u64;
        let lower: u64 = height.canonical_bits() as u64;
        upper * 0x1_0000_0000 + lower
    }

    /// A handle of the mesh remembered for the size, if there is one.
    pub fn get(&self, width: Scalar, height: Scalar) -> (found: Option<MeshHandle>)
        ensures
            match found {
                Some(handle) => self@.contains_key(mesh_key(width, height)) && handle@ == self@[mesh_key(
                    width,
                    height,
                )],
                None => !self@.contains_key(mesh_key(width, height)),
            },
    {
        broadcast use vstd::std_specs::hash::group_hash_axioms;

        let key = MeshHandles::key(width, height);
        match self.by_size.get(&key) {
            Some(handle) => Some(handle.clone()),
            None => None,
        }
    }

    /// Remembers the handle for the size, in place of any remembered for it
    /// before, and hands it back.
    pub fn insert(&mut self, width: Scalar, height: Scalar, handle: MeshHandle) -> (kept: MeshHandle)
        ensures
            final(self)@ == old(self)@.insert(mesh_key(width, height), handle@),
            kept@ == handle@,
    {
        broadcast use vstd::std_specs::hash::group_hash_axioms;

        let key = MeshHandles::key(width, height);
        let copy = handle.clone();
        proof {
            use_type_invariant(&*self);
            crate::scalar::lemma_canonical_bits_is_idempotent(width);
            crate::scalar::lemma_canonical_bits_is_idempotent(height);
            assert forall|a: (u32, u32), b: (u32, u32)| packed(a) == packed(b) implies a == b by {
                lemma_packed_is_injective(a, b);
            }
        }
        let mut by_size: HashMap<u64, MeshHandle> = HashMap::new();
        std::mem::swap(&mut self.by_size, &mut by_size);
        by_size.insert(key, copy);
        std::mem::swap(&mut self.by_size, &mut by_size);
        assert(self@ =~= old(self)@.insert(mesh_key(width, height), handle@));
        handle
    }

    /// Tells the caller's proof what holds of every cache: each remembered
    /// size is a key that [`mesh_key`] gives, so a mesh is found under the
    /// numbers it was remembered for and under no pattern besides.
    pub fn sizes_are_keys(&self)
        ensures
            forall|key: (u32, u32)| #[trigger] self@.contains_key(key) ==> is_mesh_key(key),
    {
        proof {
            use_type_invariant(self);
        }
    }
}

impl Default for MeshHandles {
    fn default() -> (mesh_handles: Self)
        ensures
            mesh_handles@ == Map::<(u32, u32), MeshId>::empty(),
    {
        MeshHandles::new()
    }
}

/// Different keys pack to different numbers.
pub proof fn lemma_packed_is_injective(a: (u32, u32), b: (u32, u32))
    requires
        packed(a) == packed(b),
    ensures
        a == b,
{
}

/// Two sizes share a key exactly when they are the same size as numbers:
/// the sign of a zero and the payload of a not-a-number make no difference,
/// anything else does.
pub proof fn lemma_mesh_key_is_size(
    width: Scalar,
    height: Scalar,
    other_width: Scalar,
    other_height: Scalar,
)
    ensures
        mesh_key(width, height) == mesh_key(other_width, other_height) <==> width.spec_same_number(
            other_width,
        ) && height.spec_same_number(other_height),
{
    crate::scalar::lemma_same_number_is_same_canonical_bits(width, other_width);
    crate::scalar::lemma_same_number_is_same_canonical_bits(height, other_height);
}

/// Once a mesh is remembered for a size, it is found under every size that
/// is the same as numbers, and what is remembered for other sizes stays as
/// it was.
pub proof fn lemma_insert_then_get(
    before: Map<(u32, u32), MeshId>,
    width: Scalar,
    height: Scalar,
    id: MeshId,
    other_width: Scalar,
    other_height: Scalar,
)
    ensures
        ({
            let after = before.insert(mesh_key(width, height), id);
            let other = mesh_key(other_width, other_height);
            if width.spec_same_number(other_width) && height.spec_same_number(other_height) {
                after.contains_key(other) && after[other] == id
            } else {
                &&& after.contains_key(other) == before.contains_key(other)
                &&& after.contains_key(other) ==> after[other] == before[other]
            }
        }),
{
    lemma_mesh_key_is_size(width, height, other_width, other_height);
}

} // verus!
