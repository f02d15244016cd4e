//! Shader-variant composition.
//!
//! The external material emits fragment-stage source text that doubles as a
//! negotiation document: fixed declaration substrings signal which inputs
//! the material expects. The composer scans for those signals, selects the
//! color variant from the available buffers, and concatenates the particle
//! marker, the feature flags, the shared fragment-stage utility block and
//! the vertex-stage template, in that exact order.

use vstd::prelude::*;
use vstd::string::{StrSliceExecFns, StringExecFns};
use crate::error::RendererError;

verus! {

/// True when `needle` occurs in `haystack` starting at position `at`.
pub open spec fn matches_at(haystack: Seq<char>, needle: Seq<char>, at: int) -> bool {
    &&& 0 <= at
    &&& at + needle.len() <= haystack.len()
    &&& forall|j: int| 0 <= j < needle.len() ==> haystack[at + j] == needle[j]
}

/// True when `needle` occurs somewhere in `haystack`.
pub open spec fn contains_seq(haystack: Seq<char>, needle: Seq<char>) -> bool {
    exists|at: int| matches_at(haystack, needle, at)
}

/// Decides whether `needle` occurs in `haystack` starting at `at`.
fn matches_at_exec(haystack: &str, needle: &str, at: usize) -> (r: bool)
    requires
        at + needle@.len() <= haystack@.len(),
    ensures
        r == matches_at(haystack@, needle@, at as int),
{
    let haystack_len = haystack.unicode_len();
    let needle_len = needle.unicode_len();
    let mut j: usize = 0;
    while j < needle_len
        invariant
            at + needle@.len() <= haystack@.len(),
            haystack_len == haystack@.len(),
            needle_len == needle@.len(),
            j <= needle_len,
            forall|l: int| 0 <= l < j ==> haystack@[at + l] == needle@[l],
        decreases needle_len - j,
    {
        if haystack.get_char(at + j) != needle.get_char(j) {
            return false;
        }
        j = j + 1;
    }
    true
}

/// Decides whether `needle` occurs anywhere in `haystack`.
pub fn contains_substring(haystack: &str, needle: &str) -> (r: bool)
    ensures
        r == contains_seq(haystack@, needle@),
{
    let haystack_len = haystack.unicode_len();
    let needle_len = needle.unicode_len();
    if needle_len > haystack_len {
        assert(forall|at: int| !matches_at(haystack@, needle@, at));
        return false;
    }
    let mut at: usize = 0;
    while at <= haystack_len - needle_len
        invariant
            needle_len <= haystack_len,
            haystack_len == haystack@.len(),
            needle_len == needle@.len(),
            at <= haystack_len - needle_len + 1,
            forall|k: int| 0 <= k < at ==> !matches_at(haystack@, needle@, k),
        decreases haystack_len - needle_len + 1 - at,
    {
        if matches_at_exec(haystack, needle, at) {
            assert(contains_seq(haystack@, needle@));
            return true;
        }
        at = at + 1;
    }
    assert(forall|k: int| at <= k ==> !matches_at(haystack@, needle@, k));
    false
}

/// The declaration substrings found in a fragment-stage source, one flag
/// per optional data channel the material asks for.
#[derive(Clone, Copy, Debug, PartialEq, Eq, Structural)]
pub struct FragmentSignals {
    pub positions: bool,
    pub normals: bool,
    pub tangents: bool,
    pub bitangents: bool,
    pub uvs: bool,
    pub colors: bool,
}

/// The signals a fragment-stage source emits, as the scanner reads them.
pub open spec fn spec_scan(source: Seq<char>) -> FragmentSignals {
    FragmentSignals {
        positions: contains_seq(source, "in vec3 pos;"@),
        normals: contains_seq(source, "in vec3 nor;"@),
        tangents: contains_seq(source, "in vec3 tang;"@),
        bitangents: contains_seq(source, "in vec3 bitang;"@),
        uvs: contains_seq(source, "in vec2 uvs;"@),
        colors: contains_seq(source, "in vec4 col;"@),
    }
}

/// Scans a fragment-stage source for the fixed declaration substrings that
/// make up the material's signaling contract.
pub fn scan_fragment_signals(source: &str) -> (s: FragmentSignals)
    ensures
        s == spec_scan(source@),
{
    FragmentSignals {
        positions: contains_substring(source, "in vec3 pos;"),
        normals: contains_substring(source, "in vec3 nor;"),
        tangents: contains_substring(source, "in vec3 tang;"),
        bitangents: contains_substring(source, "in vec3 bitang;"),
        uvs: contains_substring(source, "in vec2 uvs;"),
        colors: contains_substring(source, "in vec4 col;"),
    }
}

/// Which color sources feed the color channel when the material asks for
/// color: the base geometry's vertex colors, the per-instance colors, or
/// both.
#[derive(Clone, Copy, Debug, PartialEq, Eq, Structural)]
pub enum ColorVariant {
    VertexOnly,
    InstanceOnly,
    VertexAndInstance,
}

/// The color variant selected from the available buffers: both flavors when
/// an instance color buffer and a vertex color buffer exist, instance alone
/// when only the instance buffer exists, and vertex alone otherwise.
pub open spec fn spec_color_variant(has_vertex_color: bool, has_instance_color: bool) -> ColorVariant {
    if has_instance_color && has_vertex_color {
        ColorVariant::VertexAndInstance
    } else if has_instance_color {
        ColorVariant::InstanceOnly
    } else {
        ColorVariant::VertexOnly
    }
}

/// Selects the color variant from the available color buffers.
pub fn select_color_variant(has_vertex_color: bool, has_instance_color: bool) -> (r: ColorVariant)
    ensures
        r == spec_color_variant(has_vertex_color, has_instance_color),
{
    if has_instance_color && has_vertex_color {
        ColorVariant::VertexAndInstance
    } else if has_instance_color {
        ColorVariant::InstanceOnly
    } else {
        ColorVariant::VertexOnly
    }
}

/// Selecting a color variant is a total function of the two buffer
/// availability flags: for every combination exactly one variant is chosen,
/// and it is the one the table in the module documentation gives.
pub proof fn lemma_color_variant_total(has_vertex_color: bool, has_instance_color: bool)
    ensures
        has_instance_color && has_vertex_color ==> spec_color_variant(
            has_vertex_color,
            has_instance_color,
        ) is VertexAndInstance,
        has_instance_color && !has_vertex_color ==> spec_color_variant(
            has_vertex_color,
            has_instance_color,
        ) is InstanceOnly,
        !has_instance_color ==> spec_color_variant(has_vertex_color, has_instance_color)
            is VertexOnly,
{
}

/// The preprocessor flags emitted for a color variant.
pub open spec fn spec_color_flags(variant: ColorVariant) -> Seq<char> {
    match variant {
        ColorVariant::VertexAndInstance => (
        "#define USE_COLORS\n#define USE_VERTEX_COLORS\n#define USE_INSTANCE_COLORS\n"@),
        ColorVariant::InstanceOnly => "#define USE_COLORS\n#define USE_INSTANCE_COLORS\n"@,
        ColorVariant::VertexOnly => "#define USE_COLORS\n#define USE_VERTEX_COLORS\n"@,
    }
}

/// The full flag block for a set of fragment signals, a color variant and
/// the presence of per-instance texture transforms.
pub open spec fn spec_feature_flags(
    signals: FragmentSignals,
    variant: ColorVariant,
    has_instance_texture_transform: bool,
) -> Seq<char> {
    (if signals.positions {
        "#define USE_POSITIONS\n"@
    } else {
        Seq::<char>::empty()
    }) + (if signals.normals {
        "#define USE_NORMALS\n"@
    } else {
        Seq::<char>::empty()
    }) + (if signals.tangents {
        "#define USE_TANGENTS\n"@
    } else {
        Seq::<char>::empty()
    }) + (if signals.uvs {
        "#define USE_UVS\n"@
    } else {
        Seq::<char>::empty()
    }) + (if signals.colors {
        spec_color_flags(variant)
    } else {
        Seq::<char>::empty()
    }) + (if has_instance_texture_transform {
        "#define USE_INSTANCE_TEXTURE_TRANSFORMATION\n"@
    } else {
        Seq::<char>::empty()
    })
}

/// A composed vertex-stage source: the particle marker, the feature flags,
/// the shared fragment-stage utility block and the vertex-stage template,
/// in that exact order.
pub open spec fn spec_composed_source(
    signals: FragmentSignals,
    variant: ColorVariant,
    has_instance_texture_transform: bool,
    shared_block: Seq<char>,
    vertex_template: Seq<char>,
) -> Seq<char> {
    "#define PARTICLES\n"@ + spec_feature_flags(signals, variant, has_instance_texture_transform)
        + shared_block + vertex_template
}

/// Composes the vertex-stage source for a set of fragment signals.
///
/// Fails exactly when the signals declare the tangent input without the
/// bitangent input, which breaks the material's signaling contract; on
/// success the result is the concatenation [`spec_composed_source`] gives.
pub fn compose_vertex_source(
    signals: FragmentSignals,
    variant: ColorVariant,
    has_instance_texture_transform: bool,
    shared_block: &str,
    vertex_template: &str,
) -> (r: Result<String, RendererError>)
    ensures
        r is Err <==> signals.tangents && !signals.bitangents,
        r matches Err(e) ==> e == RendererError::TangentWithoutBitangent,
        r matches Ok(src) ==> src@ == spec_composed_source(
            signals,
            variant,
            has_instance_texture_transform,
            shared_block@,
            vertex_template@,
        ),
{
    if signals.tangents && !signals.bitangents {
        return Err(RendererError::TangentWithoutBitangent);
    }
    let mut flags = String::new();
    if signals.positions {
        flags.append("#define USE_POSITIONS\n");
    }
    if signals.normals {
        flags.append("#define USE_NORMALS\n");
    }
    if signals.tangents {
        flags.append("#define USE_TANGENTS\n");
    }
    if signals.uvs {
        flags.append("#define USE_UVS\n");
    }
    if signals.colors {
        match variant {
            ColorVariant::VertexAndInstance => flags.append(
                "#define USE_COLORS\n#define USE_VERTEX_COLORS\n#define USE_INSTANCE_COLORS\n",
            ),
            ColorVariant::InstanceOnly => flags.append(
                "#define USE_COLORS\n#define USE_INSTANCE_COLORS\n",
            ),
            ColorVariant::VertexOnly => flags.append(
                "#define USE_COLORS\n#define USE_VERTEX_COLORS\n",
            ),
        }
    }
    if has_instance_texture_transform {
        flags.append("#define USE_INSTANCE_TEXTURE_TRANSFORMATION\n");
    }
    proof {
        assert(flags@ =~= spec_feature_flags(signals, variant, has_instance_texture_transform));
    }
    let mut src = String::from_str("#define PARTICLES\n");
    src.append(flags.as_str());
    src.append(shared_block);
    src.append(vertex_template);
    proof {
        assert(src@ =~= spec_composed_source(
            signals,
            variant,
            has_instance_texture_transform,
            shared_block@,
            vertex_template@,
        ));
    }
    Ok(src)
}

/// For a fragment-stage source that signals positions and texture
/// coordinates and nothing else, and with no per-instance texture
/// transforms, the composed feature set is exactly positions and texture
/// coordinates: no color, tangent, normal or instance-texture-transform
/// flag appears, whatever color variant would have been selected.
pub proof fn lemma_minimal_feature_set(
    source: Seq<char>,
    variant: ColorVariant,
    shared_block: Seq<char>,
    vertex_template: Seq<char>,
)
    requires
        contains_seq(source, "in vec3 pos;"@),
        contains_seq(source, "in vec2 uvs;"@),
        !contains_seq(source, "in vec3 nor;"@),
        !contains_seq(source, "in vec3 tang;"@),
        !contains_seq(source, "in vec4 col;"@),
    ensures
        spec_composed_source(spec_scan(source), variant, false, shared_block, vertex_template)
            =~= "#define PARTICLES\n"@ + "#define USE_POSITIONS\n"@ + "#define USE_UVS\n"@
            + shared_block + vertex_template,
{
}

} // verus!
