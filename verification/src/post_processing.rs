use vstd::prelude::*;
use vstd::string::*;
use crate::shader_source::{
    compose_shader_source, composed_source, contains_text, decimal, format_signed, format_unsigned, hash_line,
    digits_value, lemma_decimal_digits, lemma_found, lemma_skip_line, lemma_skip_segment, law_decimal_reads_back,
    signed_decimal,
};

verus! {

/// Most point lights the compose shader takes.
pub const MAX_POINT_LIGHTS: usize = 32;

/// What the final pass shows: the lit image, or one of the G-buffer
/// channels for debugging.
#[derive(Clone, Copy, PartialEq, Eq, Structural, Debug, Hash)]
pub enum DebugMode {
    Off,
    Depth,
    Normals,
    SSAO,
}

/// The number a debug mode has in the shaders (`DEBUG_MODE`).
pub open spec fn debug_code(m: DebugMode) -> i32 {
    match m {
        DebugMode::Off => 0,
        DebugMode::Depth => 1,
        DebugMode::Normals => 2,
        DebugMode::SSAO => 3,
    }
}

impl DebugMode {
    /// The number of this mode in the shaders.
    pub fn code(self) -> (c: i32)
        ensures
            c == debug_code(self),
    {
        match self {
            DebugMode::Off => 0,
            DebugMode::Depth => 1,
            DebugMode::Normals => 2,
            DebugMode::SSAO => 3,
        }
    }
}

/// Debug modes are numbered 0 to 3 in declaration order, the lit image
/// (no debugging) being 0, so different modes select different shader
/// branches.
pub proof fn law_debug_codes_distinct(a: DebugMode, b: DebugMode)
    ensures
        debug_code(DebugMode::Off) == 0,
        0 <= debug_code(a) <= 3,
        a != DebugMode::Off ==> debug_code(a) > 0,
        a != b ==> debug_code(a) != debug_code(b),
        debug_code(DebugMode::Depth) < debug_code(DebugMode::Normals) < debug_code(DebugMode::SSAO),
{
}

/// The switches of the post-processing chain (the numeric parameters
/// live beside them, with the GPU code).
#[derive(Clone, Copy, PartialEq, Eq, Structural, Debug)]
pub struct PostProcessingToggles {
    pub enabled: bool,
    pub debug_mode: DebugMode,
    pub ssao_enabled: bool,
    pub fog_enabled: bool,
    pub tone_mapping_enabled: bool,
    pub vignette_enabled: bool,
}

impl Default for PostProcessingToggles {
    /// Post-processing on with SSAO, fog and tone mapping, vignette off,
    /// no debug view.
    fn default() -> (t: Self)
        ensures
            t.enabled,
            t.debug_mode == DebugMode::Off,
            t.ssao_enabled,
            t.fog_enabled,
            t.tone_mapping_enabled,
            !t.vignette_enabled,
    {
        PostProcessingToggles {
            enabled: true,
            debug_mode: DebugMode::Off,
            ssao_enabled: true,
            fog_enabled: true,
            tone_mapping_enabled: true,
            vignette_enabled: false,
        }
    }
}

/// The compile-time switches of one variant of the compose shader;
/// one program is built per distinct value.
#[derive(Clone, Copy, PartialEq, Eq, Structural, Debug, Hash)]
pub struct ShaderDefines {
    pub debug_mode: i32,
    pub ssao_enabled: bool,
    pub fog_enabled: bool,
    pub tone_mapping_enabled: bool,
    pub vignette_enabled: bool,
}

/// The `#define` lines of a variant: its debug mode, then one line per
/// enabled effect, in a fixed order.
pub open spec fn define_block_text(d: ShaderDefines) -> Seq<char> {
    "#define DEBUG_MODE "@ + signed_decimal(d.debug_mode as int) + "\n"@
        + (if d.ssao_enabled { "#define ENABLE_SSAO\n"@ } else { Seq::empty() })
        + (if d.fog_enabled { "#define ENABLE_FOG\n"@ } else { Seq::empty() })
        + (if d.tone_mapping_enabled { "#define ENABLE_TONEMAP\n"@ } else { Seq::empty() })
        + (if d.vignette_enabled { "#define ENABLE_VIGNETTE\n"@ } else { Seq::empty() })
}

/// The debug-mode line of a variant's `#define` block.
pub open spec fn debug_line(d: ShaderDefines) -> Seq<char> {
    "#define DEBUG_MODE "@ + signed_decimal(d.debug_mode as int) + "\n"@
}

proof fn lemma_debug_line_shape(d: ShaderDefines)
    ensures
        debug_line(d).len() > 8,
        debug_line(d)[0] == '#',
        debug_line(d)[8] == 'D',
        forall|m: int| 0 < m < debug_line(d).len() ==> #[trigger] debug_line(d)[m] != '#',
{
    reveal_strlit("#define DEBUG_MODE ");
    reveal_strlit("\n");
    let lit = "#define DEBUG_MODE "@;
    let n = d.debug_mode as int;
    let sd = signed_decimal(n);
    if n < 0 {
        lemma_decimal_digits((-n) as nat);
    } else {
        lemma_decimal_digits(n as nat);
    }
    assert forall|m: int| 0 <= m < sd.len() implies #[trigger] sd[m] != '#' by {
        if n < 0 {
            if m > 0 {
                assert(sd[m] == decimal((-n) as nat)[m - 1]);
            }
        }
    }
    let dl = debug_line(d);
    assert forall|m: int| 0 < m < dl.len() implies #[trigger] dl[m] != '#' by {
        if m < lit.len() {
            assert(dl[m] == lit[m]);
        } else if m < lit.len() + sd.len() {
            assert(dl[m] == sd[m - lit.len()]);
        } else {
            assert(dl[m] == '\n');
        }
    }
}

/// The text of `d`'s block is its debug line followed by the four
/// optional effect lines, and a pattern line that differs from the
/// debug line at position 8 and from every other effect line at
/// position 15 occurs in it exactly when it is one of the lines present.
proof fn lemma_block_holds_line(d: ShaderDefines, x1: Seq<char>, x2: Seq<char>, x3: Seq<char>, x4: Seq<char>, pat: Seq<char>)
    requires
        define_block_text(d) == debug_line(d) + x1 + x2 + x3 + x4,
        pat.len() > 15,
        pat[0] == '#',
        pat[8] != 'D',
        x1.len() == 0 || x1 == pat || (hash_line(x1) && x1[15] != pat[15]),
        x2.len() == 0 || x2 == pat || (hash_line(x2) && x2[15] != pat[15]),
        x3.len() == 0 || x3 == pat || (hash_line(x3) && x3[15] != pat[15]),
        x4.len() == 0 || x4 == pat || (hash_line(x4) && x4[15] != pat[15]),
    ensures
        contains_text(define_block_text(d), pat) <==> (x1 == pat || x2 == pat || x3 == pat || x4 == pat),
{
    let dl = debug_line(d);
    lemma_debug_line_shape(d);
    let t = define_block_text(d);
    if x1 == pat {
        assert(t =~= dl + pat + (x2 + x3 + x4));
        lemma_found(dl, pat, x2 + x3 + x4);
    } else if x2 == pat {
        assert(t =~= (dl + x1) + pat + (x3 + x4));
        lemma_found(dl + x1, pat, x3 + x4);
    } else if x3 == pat {
        assert(t =~= (dl + x1 + x2) + pat + x4);
        lemma_found(dl + x1 + x2, pat, x4);
    } else if x4 == pat {
        assert(t =~= (dl + x1 + x2 + x3) + pat + Seq::<char>::empty());
        lemma_found(dl + x1 + x2 + x3, pat, Seq::empty());
    } else {
        let e = Seq::<char>::empty();
        let r4 = x4 + e;
        let r3 = x3 + r4;
        let r2 = x2 + r3;
        let r1 = x1 + r2;
        assert(t =~= dl + r1);
        lemma_skip_segment(dl, r1, pat, 8);
        lemma_skip_line(x1, r2, pat);
        lemma_skip_line(x2, r3, pat);
        lemma_skip_line(x3, r4, pat);
        lemma_skip_line(x4, e, pat);
        assert(!contains_text(e, pat)) by {
            if contains_text(e, pat) {
                let i = choose|i: int| #[trigger] crate::shader_source::occurs_at(e, pat, i);
                assert(crate::shader_source::occurs_at(e, pat, i));
            }
        }
    }
}

/// The `#define` block of a variant defines each effect exactly when the
/// variant has it on: the line `#define ENABLE_SSAO` occurs in the text
/// exactly when SSAO is enabled, and likewise `ENABLE_FOG` for fog,
/// `ENABLE_TONEMAP` for tone mapping and `ENABLE_VIGNETTE` for the
/// vignette. The block starts with the line `#define DEBUG_MODE m`,
/// `m` being the variant's debug mode in decimal.
pub proof fn law_define_block_lines(d: ShaderDefines)
    ensures
        contains_text(define_block_text(d), "#define ENABLE_SSAO\n"@) <==> d.ssao_enabled,
        contains_text(define_block_text(d), "#define ENABLE_FOG\n"@) <==> d.fog_enabled,
        contains_text(define_block_text(d), "#define ENABLE_TONEMAP\n"@) <==> d.tone_mapping_enabled,
        contains_text(define_block_text(d), "#define ENABLE_VIGNETTE\n"@) <==> d.vignette_enabled,
        define_block_text(d).subrange(0, debug_line(d).len() as int)
            == "#define DEBUG_MODE "@ + signed_decimal(d.debug_mode as int) + "\n"@,
{
    reveal_strlit("#define ENABLE_SSAO\n");
    reveal_strlit("#define ENABLE_FOG\n");
    reveal_strlit("#define ENABLE_TONEMAP\n");
    reveal_strlit("#define ENABLE_VIGNETTE\n");
    let ssao = "#define ENABLE_SSAO\n"@;
    let fog = "#define ENABLE_FOG\n"@;
    let tone = "#define ENABLE_TONEMAP\n"@;
    let vig = "#define ENABLE_VIGNETTE\n"@;
    assert(hash_line(ssao));
    assert(hash_line(fog));
    assert(hash_line(tone));
    assert(hash_line(vig));
    assert(ssao != fog && ssao != tone && ssao != vig && fog != tone && fog != vig && tone != vig) by {
        assert(ssao[15] != fog[15] && ssao[15] != tone[15] && ssao[15] != vig[15]);
        assert(fog[15] != tone[15] && fog[15] != vig[15] && tone[15] != vig[15]);
    }
    let e = Seq::<char>::empty();
    let x1 = if d.ssao_enabled { ssao } else { e };
    let x2 = if d.fog_enabled { fog } else { e };
    let x3 = if d.tone_mapping_enabled { tone } else { e };
    let x4 = if d.vignette_enabled { vig } else { e };
    assert(define_block_text(d) == debug_line(d) + x1 + x2 + x3 + x4);
    lemma_block_holds_line(d, x1, x2, x3, x4, ssao);
    lemma_block_holds_line(d, x1, x2, x3, x4, fog);
    lemma_block_holds_line(d, x1, x2, x3, x4, tone);
    lemma_block_holds_line(d, x1, x2, x3, x4, vig);
    assert(define_block_text(d).subrange(0, debug_line(d).len() as int) =~= debug_line(d));
}

impl ShaderDefines {
    /// The variant the current settings need.
    pub fn from_settings(settings: &PostProcessingToggles) -> (d: Self)
        ensures
            d.debug_mode == debug_code(settings.debug_mode),
            d.ssao_enabled == settings.ssao_enabled,
            d.fog_enabled == settings.fog_enabled,
            d.tone_mapping_enabled == settings.tone_mapping_enabled,
            d.vignette_enabled == settings.vignette_enabled,
    {
        ShaderDefines {
            debug_mode: settings.debug_mode.code(),
            ssao_enabled: settings.ssao_enabled,
            fog_enabled: settings.fog_enabled,
            tone_mapping_enabled: settings.tone_mapping_enabled,
            vignette_enabled: settings.vignette_enabled,
        }
    }

    /// The `#define` lines of this variant.
    pub fn define_block(&self) -> (s: String)
        ensures
            s@ == define_block_text(*self),
    {
        let mut s = String::from_str("#define DEBUG_MODE ");
        let n = format_signed(self.debug_mode);
        s.append(n.as_str());
        s.append("\n");
        let ghost head = s@;
        if self.ssao_enabled {
            s.append("#define ENABLE_SSAO\n");
        }
        let ghost after_ssao = s@;
        if self.fog_enabled {
            s.append("#define ENABLE_FOG\n");
        }
        let ghost after_fog = s@;
        if self.tone_mapping_enabled {
            s.append("#define ENABLE_TONEMAP\n");
        }
        let ghost after_tone = s@;
        if self.vignette_enabled {
            s.append("#define ENABLE_VIGNETTE\n");
        }
        assert(s@ =~= define_block_text(*self));
        s
    }

    /// The fragment source of this variant: its `#define` lines and the
    /// shared code inserted after the version line of `frag_src`.
    pub fn fragment_source(&self, frag_src: &str, common: &str) -> (s: String)
        ensures
            s@ == composed_source(frag_src@, define_block_text(*self), common@),
    {
        let defines = self.define_block();
        compose_shader_source(frag_src, defines.as_str(), common)
    }
}

/// Half of a screen extent for the half-resolution SSAO targets, never
/// below one pixel (`(size / 2).max(1)`).
pub fn half_extent(size: i32) -> (h: i32)
    ensures
        h == (if size < 2 { 1 } else { size / 2 }),
        h >= 1,
{
    if size < 2 {
        1
    } else {
        size / 2
    }
}

/// The size an off-screen target was allocated with.
#[derive(Clone, Copy, PartialEq, Eq, Structural, Debug)]
pub struct TargetSize {
    pub width: i32,
    pub height: i32,
}

impl TargetSize {
    /// Takes the new size; returns whether the storage must be
    /// reallocated (it need not when the size is unchanged).
    pub fn resize(&mut self, width: i32, height: i32) -> (realloc: bool)
        ensures
            realloc == !(old(self).width == width && old(self).height == height),
            final(self).width == width,
            final(self).height == height,
    {
        if self.width == width && self.height == height {
            return false;
        }
        self.width = width;
        self.height = height;
        true
    }
}

/// What the final post-processing pass does in one frame.
#[derive(Clone, Copy, PartialEq, Eq, Structural, Debug)]
pub struct ComposePlan {
    /// Run the SSAO pass and its two blur passes.
    pub ssao_passes: bool,
    /// The compose shader variant to use.
    pub defines: ShaderDefines,
    /// Bind the blurred SSAO texture to the compose pass.
    pub bind_ssao_texture: bool,
    /// Value of the directional light's `enabled` uniform.
    pub directional_enabled: bool,
    /// Value of the point light count uniform.
    pub reported_point_lights: i32,
    /// Number of point lights whose uniforms are set.
    pub uploaded_point_lights: usize,
    /// Set the fog uniforms.
    pub set_fog: bool,
    /// Set the vignette uniforms.
    pub set_vignette: bool,
}

/// Plans the end of a frame's post-processing from the switches, whether
/// a directional light is set and how many point lights there are. No
/// plan when post-processing is off: the frame was drawn directly.
pub fn compose_plan(
    toggles: &PostProcessingToggles,
    has_directional: bool,
    point_lights: usize,
) -> (plan: Option<ComposePlan>)
    ensures
        !toggles.enabled ==> plan is None,
        toggles.enabled ==> (plan matches Some(p) && {
            &&& p.ssao_passes == toggles.ssao_enabled
            &&& p.defines.debug_mode == debug_code(toggles.debug_mode)
            &&& p.defines.ssao_enabled == toggles.ssao_enabled
            &&& p.defines.fog_enabled == toggles.fog_enabled
            &&& p.defines.tone_mapping_enabled == toggles.tone_mapping_enabled
            &&& p.defines.vignette_enabled == toggles.vignette_enabled
            &&& p.bind_ssao_texture == toggles.ssao_enabled
            &&& p.directional_enabled == has_directional
            &&& p.reported_point_lights == point_lights as i32
            &&& p.uploaded_point_lights == (if point_lights < MAX_POINT_LIGHTS { point_lights } else { MAX_POINT_LIGHTS })
            &&& p.set_fog == toggles.fog_enabled
            &&& p.set_vignette == toggles.vignette_enabled
        }),
{
    if !toggles.enabled {
        return None;
    }
    let uploaded = if point_lights < MAX_POINT_LIGHTS { point_lights } else { MAX_POINT_LIGHTS };
    Some(ComposePlan {
        ssao_passes: toggles.ssao_enabled,
        defines: ShaderDefines::from_settings(toggles),
        bind_ssao_texture: toggles.ssao_enabled,
        directional_enabled: has_directional,
        reported_point_lights: #[verifier::truncate] (point_lights as i32),
        uploaded_point_lights: uploaded,
        set_fog: toggles.fog_enabled,
        set_vignette: toggles.vignette_enabled,
    })
}

/// Name of a field of point light `index` in the compose shader's
/// uniform array: `u_PointLights[<index>].<field>`.
pub open spec fn point_light_uniform_text(index: nat, field: Seq<char>) -> Seq<char> {
    "u_PointLights["@ + decimal(index) + "]."@ + field
}

/// The uniform name of `field` of point light `index`.
pub fn point_light_uniform(index: usize, field: &str) -> (name: String)
    ensures
        name@ == point_light_uniform_text(index as nat, field@),
{
    let mut name = String::from_str("u_PointLights[");
    let digits = format_unsigned(index as u64);
    name.append(digits.as_str());
    name.append("].");
    name.append(field);
    assert(name@ =~= point_light_uniform_text(index as nat, field@));
    name
}

/// A point light's uniform name is `u_PointLights[`, then the light's
/// index as digits that read back as the index, then `].`, then the
/// field's name.
pub proof fn law_point_light_uniform_names(index: nat, field: Seq<char>)
    ensures
        ({
            let t = point_light_uniform_text(index, field);
            let k = decimal(index).len() as int;
            &&& k > 0
            &&& t.len() == 16 + k + field.len()
            &&& t.subrange(0, 14) == "u_PointLights["@
            &&& forall|m: int| 14 <= m < 14 + k ==> '0' <= #[trigger] t[m] <= '9'
            &&& digits_value(t.subrange(14, 14 + k)) == index
            &&& t.subrange(14 + k, 16 + k) == "]."@
            &&& t.subrange(16 + k, t.len() as int) == field
        }),
{
    reveal_strlit("u_PointLights[");
    reveal_strlit("].");
    law_decimal_reads_back(index, 0);
    let t = point_light_uniform_text(index, field);
    let d = decimal(index);
    let k = d.len() as int;
    assert(t.subrange(0, 14) =~= "u_PointLights["@);
    assert(t.subrange(14, 14 + k) =~= d);
    assert forall|m: int| 14 <= m < 14 + k implies '0' <= #[trigger] t[m] <= '9' by {
        assert(t[m] == d[m - 14]);
    }
    assert(t.subrange(14 + k, 16 + k) =~= "]."@);
    assert(t.subrange(16 + k, t.len() as int) =~= field);
}

/// The shader variants built so far, by the position of their program.
pub struct VariantCache {
    keys: Vec<ShaderDefines>,
}

/// No variant is built twice.
pub open spec fn variants_distinct(keys: Seq<ShaderDefines>) -> bool {
    forall|i: int, j: int| 0 <= i < j < keys.len() ==> #[trigger] keys[i] != #[trigger] keys[j]
}

impl View for VariantCache {
    type V = Seq<ShaderDefines>;

    closed spec fn view(&self) -> Seq<ShaderDefines> {
        self.keys@
    }
}

impl VariantCache {
    #[verifier::type_invariant]
    spec fn well_formed(self) -> bool {
        variants_distinct(self.keys@)
    }

    /// No variant built yet.
    pub fn new() -> (c: Self)
        ensures
            c@ == Seq::<ShaderDefines>::empty(),
    {
        VariantCache { keys: Vec::new() }
    }

    /// The position of the program built for `defines`, if it was built.
    pub fn slot_of(&self, defines: &ShaderDefines) -> (r: Option<usize>)
        ensures
            variants_distinct(self@),
            match r {
                Some(i) => i < self@.len() && self@[i as int] == *defines,
                None => !self@.contains(*defines),
            },
    {
        proof {
            use_type_invariant(self);
        }
        let mut i: usize = 0;
        while i < self.keys.len()
            invariant
                i <= self.keys@.len(),
                variants_distinct(self.keys@),
                forall|k: int| 0 <= k < i ==> self.keys@[k] != *defines,
            decreases self.keys.len() - i,
        {
            if self.keys[i] == *defines {
                return Some(i);
            }
            i = i + 1;
        }
        None
    }

    /// Records that the program for `defines` was built; it takes the
    /// next position.
    pub fn insert(&mut self, defines: ShaderDefines) -> (slot: usize)
        requires
            !old(self)@.contains(defines),
        ensures
            slot == old(self)@.len(),
            final(self)@ == old(self)@.push(defines),
            variants_distinct(final(self)@),
    {
        proof {
            use_type_invariant(&*self);
        }
        let slot = self.keys.len();
        let ghost before = self.keys@;
        let mut taken = VariantCache::new();
        std::mem::swap(&mut taken, self);
        let VariantCache { mut keys } = taken;
        keys.push(defines);
        assert forall|i: int, j: int| 0 <= i < j < keys@.len() implies #[trigger] keys@[i] != #[trigger] keys@[j] by {
            if j == before.len() {
                assert(keys@[i] == before[i]);
            }
        }
        *self = VariantCache { keys };
        slot
    }
}

/// A variant, once built, is found again at the position it was given,
/// and the variants already built keep their positions.
pub proof fn law_variant_built_once(keys: Seq<ShaderDefines>, d: ShaderDefines, e: ShaderDefines)
    requires
        variants_distinct(keys),
        !keys.contains(d),
        keys.contains(e),
    ensures
        variants_distinct(keys.push(d)),
        keys.push(d).contains(d),
        keys.push(d)[keys.len() as int] == d,
        forall|i: int| 0 <= i < keys.len() ==> #[trigger] keys.push(d)[i] == keys[i],
        d != e,
{
    assert(keys.push(d)[keys.len() as int] == d);
}

} // verus!
