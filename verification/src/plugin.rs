//! What is decided when a bar appears, when its value changes and when its
//! settings change.
//!
//! The engine around this crate finds the entities concerned, makes meshes
//! and stores materials. Each function here is handed what the engine found
//! and answers what the bar's material holds and where its mesh comes from.

use crate::configuration::{BarOrientation, BarSettings, ColorScheme, Percentage};
use crate::material::{BarMaterial, BarMaterialKey, ShaderDef, Vector4};
use crate::mesh::{mesh_key, MeshHandle, MeshHandles, MeshId};
use crate::scalar::Scalar;
use vstd::prelude::*;

verus! {

/// Where the mesh of a bar comes from.
pub enum MeshSource {
    /// A mesh of the bar's size was made before: this is a handle of it.
    Cached(MeshHandle),
    /// No mesh of the bar's size is known: a rectangle of this width and
    /// height is to be made and remembered.
    Create { width: Scalar, height: Scalar },
}

impl MeshSource {
    /// The source is the one to use for a quad of the given size, with the
    /// given meshes remembered: the remembered mesh where there is one for
    /// the size, else an order for a rectangle of exactly that size.
    pub open spec fn serves(
        self,
        remembered: Map<(u32, u32), MeshId>,
        width: Scalar,
        height: Scalar,
    ) -> bool {
        match self {
            MeshSource::Cached(handle) => remembered.contains_key(mesh_key(width, height))
                && handle@ == remembered[mesh_key(width, height)],
            MeshSource::Create { width: w, height: h } => !remembered.contains_key(
                mesh_key(width, height),
            ) && w == width && h == height,
        }
    }
}

/// What a new bar is made of.
pub struct BarPlan {
    pub mesh: MeshSource,
    pub material: BarMaterial,
}

/// What becomes of the mesh of a bar whose settings changed.
pub enum MeshChange {
    /// The bar keeps the mesh it has.
    Keep,
    /// The bar gets another mesh.
    Replace(MeshSource),
}

/// The material of a new bar that shows `value`: the quad's normalized
/// extents and the border's width beside the value, the colours of the
/// scheme with a static foreground in all three places of the spectrum, and
/// offset, border colour and orientation as the settings give them.
pub open spec fn spec_bar_material(
    value: Scalar,
    relative: Scalar,
    settings: BarSettings,
    color_scheme: ColorScheme,
) -> BarMaterial {
    BarMaterial {
        value_and_dimensions: Vector4 {
            x: value,
            y: settings.spec_normalized_width(relative),
            z: settings.spec_normalized_height(relative),
            w: settings.border.width,
        },
        background_color: color_scheme.background_color,
        high_color: color_scheme.foreground_color.spec_spectrum().0,
        moderate_color: color_scheme.foreground_color.spec_spectrum().1,
        low_color: color_scheme.foreground_color.spec_spectrum().2,
        offset: settings.spec_normalized_offset(),
        border_color: settings.border.color,
        vertical: settings.orientation == BarOrientation::Vertical,
    }
}

/// Whether a bar needs another mesh than the one it has: it does unless the
/// mesh remembered for the size is the very asset the bar already uses.
pub open spec fn spec_mesh_changed(
    remembered: Map<(u32, u32), MeshId>,
    width: Scalar,
    height: Scalar,
    current: MeshId,
) -> bool {
    !(remembered.contains_key(mesh_key(width, height)) && remembered[mesh_key(width, height)]
        == current)
}

/// Whether a bar that uses the asset `current` needs another mesh, where
/// `remembered` is what is remembered for the bar's size, if anything.
pub fn mesh_changed(remembered: Option<MeshId>, current: MeshId) -> (changed: bool)
    ensures
        changed == (remembered != Some(current)),
{
    match remembered {
        Some(id) => id != current,
        None => true,
    }
}

/// The material of a bar after its settings changed. Offset, border and
/// orientation always follow the settings. The quad's extents follow them
/// only where the mesh changed. Value and colours stay.
pub open spec fn spec_updated_material(
    material: BarMaterial,
    relative: Scalar,
    settings: BarSettings,
    mesh_changed: bool,
) -> BarMaterial {
    BarMaterial {
        value_and_dimensions: Vector4 {
            x: material.value_and_dimensions.x,
            y: if mesh_changed {
                settings.spec_normalized_width(relative)
            } else {
                material.value_and_dimensions.y
            },
            z: if mesh_changed {
                settings.spec_normalized_height(relative)
            } else {
                material.value_and_dimensions.z
            },
            w: settings.border.width,
        },
        offset: settings.spec_normalized_offset(),
        border_color: settings.border.color,
        vertical: settings.orientation == BarOrientation::Vertical,
        ..material
    }
}

/// The material of a new bar.
pub fn bar_material(
    value: Scalar,
    relative: Scalar,
    settings: &BarSettings,
    color_scheme: &ColorScheme,
) -> (material: BarMaterial)
    ensures
        material == spec_bar_material(value, relative, *settings, *color_scheme),
{
    let (high, moderate, low) = color_scheme.foreground_color.spectrum();
    BarMaterial {
        value_and_dimensions: Vector4 {
            x: value,
            y: settings.normalized_width(relative),
            z: settings.normalized_height(relative),
            w: settings.border.width,
        },
        background_color: color_scheme.background_color,
        high_color: high,
        moderate_color: moderate,
        low_color: low,
        offset: settings.normalized_offset(),
        border_color: settings.border.color,
        vertical: settings.orientation == BarOrientation::Vertical,
    }
}

/// Where the mesh of a quad of the given size comes from.
pub fn mesh_source(mesh_handles: &MeshHandles, width: Scalar, height: Scalar) -> (source:
    MeshSource)
    ensures
        source.serves(mesh_handles@, width, height),
{
    match mesh_handles.get(width, height) {
        Some(handle) => MeshSource::Cached(handle),
        None => MeshSource::Create { width, height },
    }
}

/// Plans the bar of an entity that shows `value`. `relative` is the height
/// that a relative setting asks for, the product of its fraction and the
/// width; a static height ignores it.
pub fn spawn_with_value(
    mesh_handles: &MeshHandles,
    value: Scalar,
    relative: Scalar,
    settings: &BarSettings,
    color_scheme: &ColorScheme,
) -> (plan: BarPlan)
    ensures
        plan.material == spec_bar_material(value, relative, *settings, *color_scheme),
        plan.mesh.serves(
            mesh_handles@,
            settings.spec_normalized_width(relative),
            settings.spec_normalized_height(relative),
        ),
{
    let width = settings.normalized_width(relative);
    let height = settings.normalized_height(relative);
    BarPlan {
        mesh: mesh_source(mesh_handles, width, height),
        material: bar_material(value, relative, settings, color_scheme),
    }
}

/// Plans the bar of an entity that got the tracked component: the plan of
/// [`spawn_with_value`] for a value that the component reports.
pub fn spawn<T: Percentage>(
    mesh_handles: &MeshHandles,
    percentage: &T,
    relative: Scalar,
    settings: &BarSettings,
    color_scheme: &ColorScheme,
) -> (plan: BarPlan)
    ensures
        call_ensures(T::value, (percentage,), plan.material.value_and_dimensions.x),
        plan.material == spec_bar_material(
            plan.material.value_and_dimensions.x,
            relative,
            *settings,
            *color_scheme,
        ),
        plan.mesh.serves(
            mesh_handles@,
            settings.spec_normalized_width(relative),
            settings.spec_normalized_height(relative),
        ),
{
    spawn_with_value(mesh_handles, percentage.value(), relative, settings, color_scheme)
}

/// Shows another value on a bar: nothing but the value changes.
pub fn update_with_value(material: &mut BarMaterial, value: Scalar)
    ensures
        *final(material) == (BarMaterial {
            value_and_dimensions: Vector4 { x: value, ..old(material).value_and_dimensions },
            ..*old(material)
        }),
{
    material.value_and_dimensions.x = value;
}

/// Shows on a bar the value that the changed component reports: one that
/// its `value` answers with. Nothing but the value changes.
pub fn update<T: Percentage>(material: &mut BarMaterial, percentage: &T)
    ensures
        call_ensures(T::value, (percentage,), final(material).value_and_dimensions.x),
        *final(material) == (BarMaterial {
            value_and_dimensions: Vector4 {
                x: final(material).value_and_dimensions.x,
                ..old(material).value_and_dimensions
            },
            ..*old(material)
        }),
{
    update_with_value(material, percentage.value());
}

/// Applies changed settings to a bar that uses the mesh `current`. The
/// material is rewritten in place; the answer says whether the bar keeps
/// its mesh and, if not, where the new one comes from.
pub fn update_settings(
    material: &mut BarMaterial,
    mesh_handles: &MeshHandles,
    current: &MeshHandle,
    relative: Scalar,
    settings: &BarSettings,
) -> (change: MeshChange)
    ensures
        ({
            let width = settings.spec_normalized_width(relative);
            let height = settings.spec_normalized_height(relative);
            let changed = spec_mesh_changed(mesh_handles@, width, height, current@);
            &&& *final(material) == spec_updated_material(
                *old(material),
                relative,
                *settings,
                changed,
            )
            &&& match change {
                MeshChange::Keep => !changed,
                MeshChange::Replace(source) => changed && source.serves(
                    mesh_handles@,
                    width,
                    height,
                ),
            }
        }),
{
    let offset = settings.normalized_offset();
    let width = settings.normalized_width(relative);
    let height = settings.normalized_height(relative);

    let mesh_for_settings_dimensions = mesh_handles.get(width, height);
    let remembered = match &mesh_for_settings_dimensions {
        Some(handle) => Some(handle.id()),
        None => None,
    };

    let change = if mesh_changed(remembered, current.id()) {
        material.value_and_dimensions.y = width;
        material.value_and_dimensions.z = height;
        MeshChange::Replace(
            match mesh_for_settings_dimensions {
                Some(handle) => MeshSource::Cached(handle),
                None => MeshSource::Create { width, height },
            },
        )
    } else {
        MeshChange::Keep
    };

    material.offset = offset;
    material.border_color = settings.border.color;
    material.value_and_dimensions.w = settings.border.width;
    material.vertical = settings.orientation == BarOrientation::Vertical;
    change
}

/// Settings that are applied to a bar whose mesh changes leave the bar as
/// if it had been made with them: the material is the one a new bar of the
/// same value and colours would get.
pub proof fn lemma_update_with_new_mesh_is_respawn(
    value: Scalar,
    relative: Scalar,
    settings: BarSettings,
    new_relative: Scalar,
    new_settings: BarSettings,
    color_scheme: ColorScheme,
)
    ensures
        spec_updated_material(
            spec_bar_material(value, relative, settings, color_scheme),
            new_relative,
            new_settings,
            true,
        ) == spec_bar_material(value, new_relative, new_settings, color_scheme),
{
}

/// Applying to a bar the settings it was made with changes nothing,
/// whether or not its mesh is replaced.
pub proof fn lemma_update_with_same_settings_is_identity(
    value: Scalar,
    relative: Scalar,
    settings: BarSettings,
    color_scheme: ColorScheme,
    mesh_changed: bool,
)
    ensures
        spec_updated_material(
            spec_bar_material(value, relative, settings, color_scheme),
            relative,
            settings,
            mesh_changed,
        ) == spec_bar_material(value, relative, settings, color_scheme),
{
}

/// A bar whose mesh is the one remembered for its size keeps it. So once
/// the mesh made for a new bar is remembered under the bar's size, settings
/// of the same size, as numbers, ask for no other mesh.
pub proof fn lemma_remembered_mesh_is_kept(
    remembered: Map<(u32, u32), MeshId>,
    width: Scalar,
    height: Scalar,
    id: MeshId,
    new_width: Scalar,
    new_height: Scalar,
)
    requires
        width.spec_same_number(new_width),
        height.spec_same_number(new_height),
    ensures
        !spec_mesh_changed(
            remembered.insert(mesh_key(width, height), id),
            new_width,
            new_height,
            id,
        ),
{
    crate::mesh::lemma_mesh_key_is_size(width, height, new_width, new_height);
}

/// Bars of one size share one mesh: once a mesh is remembered for a size,
/// whatever serves a quad of the same size, as numbers, is that mesh and
/// no order for a new one.
pub proof fn lemma_same_size_shares_mesh(
    remembered: Map<(u32, u32), MeshId>,
    width: Scalar,
    height: Scalar,
    id: MeshId,
    other_width: Scalar,
    other_height: Scalar,
    source: MeshSource,
)
    requires
        width.spec_same_number(other_width),
        height.spec_same_number(other_height),
        source.serves(remembered.insert(mesh_key(width, height), id), other_width, other_height),
    ensures
        source matches MeshSource::Cached(handle) && handle@ == id,
{
    crate::mesh::lemma_mesh_key_is_size(width, height, other_width, other_height);
}

/// A mesh remembered for one size serves no other: for a quad of another
/// size the source is what it was before the mesh was remembered.
pub proof fn lemma_other_size_is_untouched(
    remembered: Map<(u32, u32), MeshId>,
    width: Scalar,
    height: Scalar,
    id: MeshId,
    other_width: Scalar,
    other_height: Scalar,
    source: MeshSource,
)
    requires
        !(width.spec_same_number(other_width) && height.spec_same_number(other_height)),
    ensures
        source.serves(remembered.insert(mesh_key(width, height), id), other_width, other_height)
            <==> source.serves(remembered, other_width, other_height),
{
    crate::mesh::lemma_mesh_key_is_size(width, height, other_width, other_height);
}

/// The shader variant of a new bar follows its settings alone: upright
/// bars get the upright variant, and the border is drawn exactly when its
/// width is strictly greater than zero. The value shown plays no part.
pub proof fn lemma_key_follows_settings(
    value: Scalar,
    relative: Scalar,
    settings: BarSettings,
    color_scheme: ColorScheme,
)
    ensures
        spec_bar_material(value, relative, settings, color_scheme).spec_key().vertical == (
        settings.orientation == BarOrientation::Vertical),
        spec_bar_material(value, relative, settings, color_scheme).spec_key().border
            == settings.border.width.spec_is_positive(),
{
}

/// A bar with default settings lies flat and has no border, so it is drawn
/// by the plain variant of the shader.
pub proof fn lemma_default_bar_is_plain(value: Scalar, relative: Scalar, color_scheme: ColorScheme)
    ensures
        spec_bar_material(value, relative, BarSettings::spec_default(), color_scheme).spec_key()
            == (BarMaterialKey { vertical: false, border: false }),
        (BarMaterialKey { vertical: false, border: false }).spec_shader_defs()
            == Seq::<ShaderDef>::empty(),
{
    crate::scalar::lemma_classes_as_ranges(crate::scalar::ZERO_BITS);
}

} // verus!
