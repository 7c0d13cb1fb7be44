//! Classifying level-editor layers from their metadata.
//!
//! Each layer of a level file carries its game meaning in its identifier,
//! written as `Variant_Name`: the text before the first underscore names
//! what the game builds from the layer, the rest names the layer. Which
//! variants are admissible depends on the editor's layer type: entity
//! layers carry particle emitters or ramps, tile-based layers carry walls.
//! Reading the level file itself stays outside this crate; this module
//! decides, from plain values, what a layer is or why it is rejected.

use vstd::prelude::*;

use crate::position::GridPosition;
use crate::text::str_eq;

verus! {

/// The level editor's layer types.
#[derive(Clone, Copy, Debug, PartialEq, Eq, Structural)]
pub enum LayerKind {
    /// Free-standing entity instances.
    Entities,
    /// An integer grid with auto-placed tiles.
    IntGrid,
    /// A rule-driven auto-layer of tiles.
    AutoLayer,
    /// Hand-placed tiles.
    Tiles,
}

/// What the game builds from a layer.
#[derive(Clone, Copy, Debug, PartialEq, Eq, Structural)]
pub enum LayerVariant {
    /// Particle-effect emitters, from an entity layer.
    Particles,
    /// Solid wall blocks, from a tile-based layer.
    Walls,
    /// Ramps with a facing, from an entity layer.
    Ramps,
}

/// Why a layer was rejected.
#[derive(Clone, Debug, PartialEq, Eq)]
pub enum ParseLayerError {
    /// The identifier has no underscore to split a variant from a name;
    /// carries the layer's unique instance id.
    Title(String),
    /// The variant text is not one the layer's type admits; carries that
    /// text.
    Variant(String),
}

/// A classified layer: its name, its sprite cell size, and what to build.
#[derive(Clone, Debug, PartialEq, Eq)]
pub struct LayerData {
    pub name: String,
    pub sprite_width: i32,
    pub sprite_height: i32,
    pub variant: LayerVariant,
}

/// The position of the first underscore at or after `k`, if any.
pub open spec fn first_underscore_from(id: Seq<char>, k: int) -> Option<int>
    decreases id.len() - k,
{
    if k < 0 || k >= id.len() {
        None
    } else if id[k] == '_' {
        Some(k)
    } else {
        first_underscore_from(id, k + 1)
    }
}

/// The position of the first underscore in `id`, if any.
pub open spec fn first_underscore(id: Seq<char>) -> Option<int> {
    first_underscore_from(id, 0)
}

/// The variant text and the name an identifier splits into at its first
/// underscore, or nothing when it has none.
pub open spec fn spec_split_identifier(id: Seq<char>) -> Option<(Seq<char>, Seq<char>)> {
    match first_underscore(id) {
        Some(i) => Some((id.take(i), id.skip(i + 1))),
        None => None,
    }
}

/// The layer variant admissible for `kind` under the given variant text:
/// entity layers admit `Particles` and `Ramps`, the three tile-based layer
/// types admit `Walls`.
pub open spec fn spec_layer_variant(kind: LayerKind, variant_name: Seq<char>) -> Option<
    LayerVariant,
> {
    match kind {
        LayerKind::Entities => if variant_name == "Particles"@ {
            Some(LayerVariant::Particles)
        } else if variant_name == "Ramps"@ {
            Some(LayerVariant::Ramps)
        } else {
            None
        },
        LayerKind::IntGrid => if variant_name == "Walls"@ {
            Some(LayerVariant::Walls)
        } else {
            None
        },
        LayerKind::AutoLayer => if variant_name == "Walls"@ {
            Some(LayerVariant::Walls)
        } else {
            None
        },
        LayerKind::Tiles => if variant_name == "Walls"@ {
            Some(LayerVariant::Walls)
        } else {
            None
        },
    }
}

/// Finds the first underscore of `s`.
fn find_underscore(s: &str) -> (r: Option<usize>)
    ensures
        match r {
            Some(i) => i < s@.len() && first_underscore(s@) == Some(i as int),
            None => first_underscore(s@) is None,
        },
{
    let n = s.unicode_len();
    let mut i: usize = 0;
    while i < n
        invariant
            i <= n,
            n == s@.len(),
            first_underscore(s@) == first_underscore_from(s@, i as int),
        decreases n - i,
    {
        if s.get_char(i) == '_' {
            return Some(i);
        }
        i = i + 1;
    }
    None
}

/// Splits an identifier at its first underscore into the variant text and
/// the layer name; the name keeps any further underscores.
pub fn split_identifier(identifier: &str) -> (r: Option<(String, String)>)
    ensures
        match r {
            Some((variant_name, name)) => spec_split_identifier(identifier@) == Some(
                (variant_name@, name@),
            ),
            None => spec_split_identifier(identifier@) is None,
        },
{
    match find_underscore(identifier) {
        Some(i) => {
            let n = identifier.unicode_len();
            let variant_name = identifier.substring_char(0, i).to_owned();
            let name = identifier.substring_char(i + 1, n).to_owned();
            proof {
                assert(identifier@.subrange(0, i as int) =~= identifier@.take(i as int));
                assert(identifier@.subrange(i + 1, identifier@.len() as int) =~= identifier@.skip(
                    i + 1,
                ));
            }
            Some((variant_name, name))
        },
        None => None,
    }
}

/// Classifies one layer from its identifier, unique instance id, layer type
/// and sprite cell size. Returns the layer's name and variant, or says
/// exactly why the layer is rejected: an identifier without an underscore
/// is a title error carrying the instance id, an inadmissible variant text
/// is a variant error carrying that text.
pub fn parse_layer_data(
    identifier: &str,
    iid: &str,
    kind: LayerKind,
    sprite_width: i32,
    sprite_height: i32,
) -> (r: Result<LayerData, ParseLayerError>)
    ensures
        match spec_split_identifier(identifier@) {
            None => r matches Err(ParseLayerError::Title(t)) && t@ == iid@,
            Some((variant_name, layer_name)) => match spec_layer_variant(kind, variant_name) {
                Some(v) => r matches Ok(d) && d.name@ == layer_name && d.variant == v
                    && d.sprite_width == sprite_width && d.sprite_height == sprite_height,
                None => r matches Err(ParseLayerError::Variant(s)) && s@ == variant_name,
            },
        },
{
    let split = split_identifier(identifier);
    match split {
        None => Err(ParseLayerError::Title(iid.to_owned())),
        Some((variant_name, name)) => {
            let variant = layer_variant(variant_name.as_str(), kind);
            match variant {
                Some(v) => Ok(
                    LayerData { name, sprite_width, sprite_height, variant: v },
                ),
                None => Err(ParseLayerError::Variant(variant_name)),
            }
        },
    }
}

/// The lattice cell a level-editor instance occupies: its pixel coordinates
/// shifted by the level's world offset and divided by the sprite cell size;
/// altitude comes straight from the level's depth. Editor levels keep their
/// shifted pixel coordinates non-negative, so the division is the plain
/// quotient.
pub fn grid_position_from_pixels(
    px_x: i32,
    px_y: i32,
    offset: GridPosition,
    sprite_size: i32,
) -> (r: GridPosition)
    requires
        sprite_size > 0,
        0 <= px_x + offset.x <= i32::MAX,
        0 <= px_y + offset.z <= i32::MAX,
    ensures
        r.x == (px_x + offset.x) / sprite_size as int,
        r.y == offset.y,
        r.z == (px_y + offset.z) / sprite_size as int,
{
    GridPosition {
        x: (px_x + offset.x) / sprite_size,
        y: offset.y,
        z: (px_y + offset.z) / sprite_size,
    }
}

/// Decides the admissible variant for a layer type and variant text.
fn layer_variant(variant_name: &str, kind: LayerKind) -> (r: Option<LayerVariant>)
    ensures
        r == spec_layer_variant(kind, variant_name@),
{
    match kind {
        LayerKind::Entities => {
            if str_eq(variant_name, "Particles") {
                Some(LayerVariant::Particles)
            } else if str_eq(variant_name, "Ramps") {
                Some(LayerVariant::Ramps)
            } else {
                None
            }
        },
        _ => {
            if str_eq(variant_name, "Walls") {
                Some(LayerVariant::Walls)
            } else {
                None
            }
        },
    }
}

} // verus!
