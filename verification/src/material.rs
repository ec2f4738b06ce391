//! What the shader of a bar is given, and which variant of it is compiled.

use crate::color::Color;
use crate::scalar::Scalar;
use bevy::shader::ShaderDefVal;
use vstd::prelude::*;
use vstd::std_specs::convert::FromSpecImpl;

verus! {

/// Four numbers, named as the axes of a four-dimensional vector.
#[derive(Debug, Clone, Copy, PartialEq, Eq, Structural)]
pub struct Vector4 {
    pub x: Scalar,
    pub y: Scalar,
    pub z: Scalar,
    pub w: Scalar,
}

/// The uniforms of one bar.
#[derive(Debug, Clone, Copy, PartialEq, Eq, Structural)]
pub struct BarMaterial {
    /// The shown value, the quad's width, its height and the border's width,
    /// as `x`, `y`, `z` and `w`.
    pub value_and_dimensions: Vector4,
    pub background_color: Color,
    pub high_color: Color,
    pub moderate_color: Color,
    pub low_color: Color,
    pub offset: Vector4,
    pub border_color: Color,
    pub vertical: bool,
}

/// What decides which variant of the shader a material needs.
#[derive(Debug, Clone, Copy, PartialEq, Eq, Hash, Structural)]
pub struct BarMaterialKey {
    pub vertical: bool,
    pub border: bool,
}

impl BarMaterial {
    /// The key of the material: whether the bar stands upright, and whether
    /// it has a border, which it has when the border's width is strictly
    /// greater than zero.
    pub open spec fn spec_key(&self) -> BarMaterialKey {
        BarMaterialKey {
            vertical: self.vertical,
            border: self.value_and_dimensions.w.spec_is_positive(),
        }
    }
}

impl<'a> From<&'a BarMaterial> for BarMaterialKey {
    fn from(material: &'a BarMaterial) -> (key: Self) {
        BarMaterialKey {
            vertical: material.vertical,
            border: material.value_and_dimensions.w.is_positive(),
        }
    }
}

impl<'a> FromSpecImpl<&'a BarMaterial> for BarMaterialKey {
    open spec fn obeys_from_spec() -> bool {
        true
    }

    open spec fn from_spec(material: &'a BarMaterial) -> Self {
        material.spec_key()
    }
}

#[verifier::external_type_specification]
#[verifier::external_body]
pub struct ExShaderDefVal(ShaderDefVal);

/// The definition that turns on the switch of the given name: what
/// `ShaderDefVal::from` makes of the name, a boolean definition set to true.
pub uninterp spec fn switched_on(name: Seq<char>) -> ShaderDefVal;

/// Calls `ShaderDefVal::from` on the name. The contract claims only that
/// the definition is a function of the name.
#[verifier::external_body]
fn switch_on(name: &str) -> (definition: ShaderDefVal)
    ensures
        definition == switched_on(name@),
{
    ShaderDefVal::from(name)
}

/// A switch that the shader's source tests.
#[derive(Debug, Clone, Copy, PartialEq, Eq, Structural)]
pub enum ShaderDef {
    IsVertical,
    HasBorder,
}

impl ShaderDef {
    /// The identifier under which the shader's source knows the switch.
    pub open spec fn spec_name(self) -> Seq<char> {
        match self {
            ShaderDef::IsVertical => "IS_VERTICAL"@,
            ShaderDef::HasBorder => "HAS_BORDER"@,
        }
    }

    pub fn name(self) -> (name: &'static str)
        ensures
            name@ == self.spec_name(),
    {
        match self {
            ShaderDef::IsVertical => "IS_VERTICAL",
            ShaderDef::HasBorder => "HAS_BORDER",
        }
    }
}

impl BarMaterialKey {
    /// The switches that the key turns on: the one for upright bars first,
    /// then the one for borders, each only where the key says so.
    pub open spec fn spec_shader_defs(&self) -> Seq<ShaderDef> {
        let upright = if self.vertical {
            seq![ShaderDef::IsVertical]
        } else {
            Seq::<ShaderDef>::empty()
        };
        if self.border {
            upright.push(ShaderDef::HasBorder)
        } else {
            upright
        }
    }

    /// The switches of the key.
    pub fn shader_defs(&self) -> (shader_defs: Vec<ShaderDef>)
        ensures
            shader_defs@ == self.spec_shader_defs(),
    {
        let mut shader_defs: Vec<ShaderDef> = Vec::new();
        if self.vertical {
            shader_defs.push(ShaderDef::IsVertical);
        }
        if self.border {
            shader_defs.push(ShaderDef::HasBorder);
        }
        assert(shader_defs@ =~= self.spec_shader_defs());
        shader_defs
    }

    /// Specializes a fragment stage for the key: appends to the stage's
    /// definitions, in order, the one that turns each of the key's switches
    /// on. What the stage held before stays in front.
    pub fn specialize(&self, shader_defs: &mut Vec<ShaderDefVal>)
        ensures
            final(shader_defs)@ == old(shader_defs)@ + self.spec_shader_defs().map_values(
                |switch: ShaderDef| switched_on(switch.spec_name()),
            ),
    {
        let switches = self.shader_defs();
        let ghost definitions = switches@.map_values(
            |switch: ShaderDef| switched_on(switch.spec_name()),
        );
        let mut done: usize = 0;
        while done < switches.len()
            invariant
                done <= switches.len(),
                switches@ == self.spec_shader_defs(),
                definitions == switches@.map_values(
                    |switch: ShaderDef| switched_on(switch.spec_name()),
                ),
                shader_defs@ == old(shader_defs)@ + definitions.take(done as int),
            decreases switches.len() - done,
        {
            shader_defs.push(switch_on(switches[done].name()));
            assert(definitions.take(done + 1) =~= definitions.take(done as int).push(
                definitions[done as int],
            ));
            assert(shader_defs@ =~= old(shader_defs)@ + definitions.take(done + 1));
            done = done + 1;
        }
        assert(definitions.take(done as int) =~= definitions);
    }
}

/// A bar without a border and lying flat needs the plain shader; every
/// switch that is on is there once, and no other is.
pub proof fn lemma_shader_defs_follow_key(key: BarMaterialKey)
    ensures
        key.spec_shader_defs().len() == (if key.vertical { 1int } else { 0 }) + (if key.border {
            1int
        } else {
            0
        }),
        key.spec_shader_defs().contains(ShaderDef::IsVertical) <==> key.vertical,
        key.spec_shader_defs().contains(ShaderDef::HasBorder) <==> key.border,
        key.spec_shader_defs().no_duplicates(),
{
    let defs = key.spec_shader_defs();
    if key.vertical {
        assert(defs[0] == ShaderDef::IsVertical);
    }
    if key.border {
        assert(defs[defs.len() - 1] == ShaderDef::HasBorder);
    }
}

} // verus!
