//! What the graphics-unit words mean: each law reads the words back through
//! their command and argument fields and says what they set.

use vstd::prelude::*;
use crate::sys::display::DisplayPixelFormat;
use crate::sys::ge::{
    lemma_command_word_fields, spec_command_word, word_argument, word_command, Command,
};
use crate::sys::gu::{
    begin_object_words, clear_filter, clear_vertices_bytes, lemma_clear_vertices_bytes_len, fast_clear_count, finish_words, light_kind, matrix_4x3_element,
    signal_words, spec_morph_weight_command, Context, SignalBehavior, clear_vertex_bytes, clamp_level_offset, corner_arg, depth_center,
    depth_range_fits, frame_buffer_words, list_memory, rounded_size, tex_addr_command,
    tex_buf_width_command, tex_image_words, tex_size_arg, tex_size_command, tex_size_log2, ClearVertex,
    GuDrawBuffer, MipmapLevel, light_color_words, material_words, spec_light_commands, disable_words, draw_array_words, object_jump_words,
    vertex_source_words, Primitive, VertexType, dither_row, enable_words, toggle_command, State, fast_clear_vertex, first_start_words, spec_default_dither_matrix, GuState,
    CLEAR_FAST_CLEAR_BIT, FLOAT24_ONE, LIGHT_COMPONENT_AMBIENT, LIGHT_COMPONENT_DIFFUSE,
    LIGHT_COMPONENT_SPECULAR,
};

verus! {

/// A clear paints the clear colour unchanged: the low 24 bits of the colour
/// it writes are those of the clear colour, and the bits above hold only the
/// clear stencil, in the alpha bits of the draw buffer's format (none for
/// 565, the top bit for 5551, the top four bits for 4444, the top byte for
/// 8888).
pub proof fn lemma_clear_filter_keeps_color(pixel_size: DisplayPixelFormat, color: u32, stencil: u32)
    ensures
        clear_filter(pixel_size, color, stencil) & 0xffffff == color & 0xffffff,
        pixel_size == DisplayPixelFormat::_565 ==> clear_filter(pixel_size, color, stencil) >> 24u32 == 0,
        pixel_size == DisplayPixelFormat::_5551 ==> clear_filter(pixel_size, color, stencil) >> 24u32
            == (stencil & 1) << 7u32,
        pixel_size == DisplayPixelFormat::_4444 ==> clear_filter(pixel_size, color, stencil) >> 24u32
            == (stencil & 0xf) << 4u32,
        pixel_size == DisplayPixelFormat::_8888 ==> clear_filter(pixel_size, color, stencil) >> 24u32
            == stencil & 0xff,
{
    let c = color;
    let t = stencil;
    assert({
        &&& (c & 0xffffff) & 0xffffff == c & 0xffffff
        &&& (c & 0xffffff) >> 24u32 == 0
        &&& ((c & 0xffffff) | (t << 31u32)) & 0xffffff == c & 0xffffff
        &&& ((c & 0xffffff) | (t << 31u32)) >> 24u32 == (t & 1) << 7u32
        &&& ((c & 0xffffff) | (t << 28u32)) & 0xffffff == c & 0xffffff
        &&& ((c & 0xffffff) | (t << 28u32)) >> 24u32 == (t & 0xf) << 4u32
        &&& ((c & 0xffffff) | (t << 24u32)) & 0xffffff == c & 0xffffff
        &&& ((c & 0xffffff) | (t << 24u32)) >> 24u32 == t & 0xff
    }) by (bit_vector);
}

/// Every sprite corner that a clear draws in the clear colour carries the
/// clear colour's low 24 bits and the clear depth: for a fast clear every
/// vertex, for a normal clear the far corner, whose position is the draw
/// buffer's size.
pub proof fn lemma_clear_vertices_carry_color(s: GuState, flags: u32)
    ensures
        forall|i: int|
            0 <= i < s.clear_vertices(flags).len() ==> #[trigger] s.clear_vertices(flags)[i].z
                == s.current().clear_depth as u16,
        forall|i: int|
            0 <= i < s.clear_vertices(flags).len() && (flags & CLEAR_FAST_CLEAR_BIT != 0 || i == 1)
                ==> #[trigger] s.clear_vertices(flags)[i].color & 0xffffff == s.current().clear_color
                & 0xffffff,
        flags & CLEAR_FAST_CLEAR_BIT == 0 ==> s.clear_vertices(flags).len() == 2
            && s.clear_vertices(flags)[1].x == s.draw_buffer.width as u16
            && s.clear_vertices(flags)[1].y == s.draw_buffer.height as u16
            && s.clear_vertices(flags)[0].x == 0 && s.clear_vertices(flags)[0].y == 0,
{
    lemma_clear_filter_keeps_color(s.draw_buffer.pixel_size, s.current().clear_color, s.current().clear_stencil);
}

/// The strips of a fast clear: vertex pairs `2j`, `2j + 1` span the strip of
/// 64 pixels that starts at x = 64j, from the top edge (y = 0) to the bottom
/// edge (y = height), and neighbouring strips meet.
pub proof fn lemma_fast_clear_strips(i: int, filter: u32, height: i32, depth: u32)
    requires
        0 <= i,
        2 * i + 1 < 2046,
    ensures
        fast_clear_vertex(2 * i, filter, height, depth).x == 64 * i,
        fast_clear_vertex(2 * i, filter, height, depth).y == 0,
        fast_clear_vertex(2 * i + 1, filter, height, depth).x == 64 * (i + 1),
        fast_clear_vertex(2 * i + 1, filter, height, depth).y == height as u16,
{
    assert((2 * i) / 2 == i && (2 * i) % 2 == 0);
    assert((2 * i + 1) / 2 == i && (2 * i + 1) % 2 == 1);
    assert(0 <= 64 * (i + 1) < 65536);
    assert(((i + 1) as u16) * 64 == 64 * (i + 1));
}

/// A dither row keeps the low four bits of each of its four entries, the
/// first entry lowest.
pub proof fn lemma_dither_row_entries(v: crate::sys::types::IVector4)
    ensures
        0 <= dither_row(v) < 0x10000,
        (dither_row(v) as u32) & 0xf == (v.x as u32) & 0xf,
        ((dither_row(v) as u32) >> 4u32) & 0xf == (v.y as u32) & 0xf,
        ((dither_row(v) as u32) >> 8u32) & 0xf == (v.z as u32) & 0xf,
        ((dither_row(v) as u32) >> 12u32) & 0xf == (v.w as u32) & 0xf,
{
    let a = v.x as u32;
    let b = v.y as u32;
    let c = v.z as u32;
    let d = v.w as u32;
    let r = (a & 0xf) | ((b & 0xf) << 4u32) | ((c & 0xf) << 8u32) | ((d & 0xf) << 12u32);
    assert(r < 0x10000 && r & 0xf == a & 0xf && (r >> 4u32) & 0xf == b & 0xf && (r >> 8u32) & 0xf == c
        & 0xf && (r >> 12u32) & 0xf == d & 0xf) by (bit_vector)
        requires
            r == (a & 0xf) | ((b & 0xf) << 4u32) | ((c & 0xf) << 8u32) | ((d & 0xf) << 12u32),
    ;
    assert((r as i32) as u32 == r);
}

/// On first use a list starts with the defaults of the graphics unit: the
/// default dither matrix, 16 by 16 patch divisions, colour material for the
/// ambient, diffuse and specular components, and a specular power and a
/// texture scale of 1.0 in both directions (0x3F8000, the top 24 bits of
/// the float 1.0).
pub proof fn lemma_first_start_defaults()
    ensures
        first_start_words().len() == 9,
        word_command(first_start_words()[0]) == Command::Dith0.spec_to_u32(),
        word_command(first_start_words()[3]) == Command::Dith3.spec_to_u32(),
        word_command(first_start_words()[4]) == Command::PatchDivision.spec_to_u32(),
        word_argument(first_start_words()[4]) == (16u32 << 8u32) | 16u32,
        word_command(first_start_words()[5]) == Command::MaterialUpdate.spec_to_u32(),
        word_argument(first_start_words()[5]) == 7,
        word_command(first_start_words()[6]) == Command::MaterialSpecularCoef.spec_to_u32(),
        word_argument(first_start_words()[6]) == 0x3F8000,
        word_command(first_start_words()[7]) == Command::TexScaleU.spec_to_u32(),
        word_argument(first_start_words()[7]) == 0x3F8000,
        word_command(first_start_words()[8]) == Command::TexScaleV.spec_to_u32(),
        word_argument(first_start_words()[8]) == 0x3F8000,
{
    let m = spec_default_dither_matrix();
    let w = first_start_words();
    lemma_command_word_fields(Command::Dith0, dither_row(m.x));
    lemma_command_word_fields(Command::Dith1, dither_row(m.y));
    lemma_command_word_fields(Command::Dith2, dither_row(m.z));
    lemma_command_word_fields(Command::Dith3, dither_row(m.w));
    lemma_dither_row_entries(m.x);
    lemma_dither_row_entries(m.y);
    lemma_dither_row_entries(m.z);
    lemma_dither_row_entries(m.w);
    lemma_command_word_fields(Command::PatchDivision, 0x1010i32);
    lemma_command_word_fields(
        Command::MaterialUpdate,
        LIGHT_COMPONENT_AMBIENT | LIGHT_COMPONENT_DIFFUSE | LIGHT_COMPONENT_SPECULAR,
    );
    lemma_command_word_fields(Command::MaterialSpecularCoef, FLOAT24_ONE);
    lemma_command_word_fields(Command::TexScaleU, FLOAT24_ONE);
    lemma_command_word_fields(Command::TexScaleV, FLOAT24_ONE);
    assert((1i32 | 2i32 | 4i32) == 7i32 && ((16u32 << 8u32) | 16u32) == 0x1010u32 && (0x1010u32
        & 0xffffffu32) == 0x1010u32 && (7u32 & 0xffffffu32) == 7u32 && (0x3F8000u32 & 0xffffffu32)
        == 0x3F8000u32) by (bit_vector);
}


/// The enable register of each state: depth test by the depth-test enable,
/// stencil test by the stencil-test enable, and so on for every state that
/// one register switches (all but the scissor test and doubled fragments).
pub proof fn lemma_toggle_registers()
    ensures
        toggle_command(State::AlphaTest) == Command::AlphaTestEnable,
        toggle_command(State::DepthTest) == Command::ZTestEnable,
        toggle_command(State::StencilTest) == Command::StencilTestEnable,
        toggle_command(State::Blend) == Command::AlphaBlendEnable,
        toggle_command(State::CullFace) == Command::CullFaceEnable,
        toggle_command(State::Dither) == Command::DitherEnable,
        toggle_command(State::Fog) == Command::FogEnable,
        toggle_command(State::ClipPlanes) == Command::DepthClampEnable,
        toggle_command(State::Texture2D) == Command::TextureMapEnable,
        toggle_command(State::Lighting) == Command::LightingEnable,
        toggle_command(State::Light0) == Command::LightEnable0,
        toggle_command(State::Light1) == Command::LightEnable1,
        toggle_command(State::Light2) == Command::LightEnable2,
        toggle_command(State::Light3) == Command::LightEnable3,
        toggle_command(State::LineSmooth) == Command::AntiAliasEnable,
        toggle_command(State::PatchCullFace) == Command::PatchCullEnable,
        toggle_command(State::ColorTest) == Command::ColorTestEnable,
        toggle_command(State::ColorLogicOp) == Command::LogicOpEnable,
        toggle_command(State::FaceNormalReverse) == Command::ReverseNormal,
        toggle_command(State::PatchFace) == Command::PatchFacing,
{
}

/// Distinct states are switched by distinct registers, so switching one state
/// never writes another state's register.
pub proof fn lemma_toggle_registers_distinct(a: State, b: State)
    ensures
        a != b ==> toggle_command(a) != toggle_command(b),
{
}

/// Enabling and disabling a state that one register switches write that
/// register alone: 1 to enable, 0 to disable.
pub proof fn lemma_enable_disable_same_register(s: GuState, state: State)
    requires
        state != State::ScissorTest,
        state != State::Fragment2X,
    ensures
        enable_words(s, state).len() == 1,
        disable_words(s, state).len() == 1,
        word_command(enable_words(s, state)[0]) == toggle_command(state).spec_to_u32(),
        word_command(disable_words(s, state)[0]) == toggle_command(state).spec_to_u32(),
        word_argument(enable_words(s, state)[0]) == 1,
        word_argument(disable_words(s, state)[0]) == 0,
{
    lemma_command_word_fields(toggle_command(state), 1);
    lemma_command_word_fields(toggle_command(state), 0);
    assert((1u32 & 0xffffffu32) == 1u32 && (0u32 & 0xffffffu32) == 0u32) by (bit_vector);
}

/// `base` and `low` together point the graphics engine at address `addr`:
/// a Base word holding bits 24 to 27 of the address, then a word of command
/// `cmd` holding its low 24 bits.
pub open spec fn addresses(base: u32, low: u32, cmd: Command, addr: u32) -> bool {
    &&& word_command(base) == Command::Base.spec_to_u32()
    &&& word_command(low) == cmd.spec_to_u32()
    &&& word_argument(base) & 0xfff0ffff == 0
    &&& (word_argument(base) << 8u32) | word_argument(low) == addr & 0x0fffffff
}

/// The Base word and the address word that the library writes for `addr`
/// address it.
pub proof fn lemma_address_words(cmd: Command, addr: u32)
    ensures
        addresses(
            spec_command_word(Command::Base, ((addr >> 8u32) & 0xf0000) as i32),
            spec_command_word(cmd, (addr & 0xffffff) as i32),
            cmd,
            addr,
        ),
{
    let hi = (addr >> 8u32) & 0xf0000;
    let lo = addr & 0xffffff;
    assert(hi <= 0xf0000 && lo <= 0xffffff && (hi & 0xffffff) & 0xfff0ffff == 0 && (((hi & 0xffffff)
        << 8u32) | (lo & 0xffffff)) == addr & 0x0fffffff) by (bit_vector)
        requires
            hi == (addr >> 8u32) & 0xf0000,
            lo == addr & 0xffffff,
    ;
    assert((hi as i32) as u32 == hi);
    assert((lo as i32) as u32 == lo);
    lemma_command_word_fields(Command::Base, hi as i32);
    lemma_command_word_fields(cmd, lo as i32);
}

/// The words that select a vertex source: the vertex type (when not empty)
/// in a word of its own, then the words that address the index list (when
/// there is one) and the vertices (when given).
pub open spec fn selects_sources(w: Seq<u32>, vtype: VertexType, indices: u32, vertices: u32) -> bool {
    let a = if vtype.spec_bits() != 0 { 1int } else { 0int };
    let b = a + if indices != 0 { 2int } else { 0int };
    &&& w.len() == b + if vertices != 0 { 2int } else { 0int }
    &&& vtype.spec_bits() != 0 ==> word_command(w[0]) == Command::VertexType.spec_to_u32() && word_argument(
        w[0],
    ) == (vtype.spec_bits() as u32) & 0xffffff
    &&& indices != 0 ==> addresses(w[a], w[a + 1], Command::Iaddr, indices)
    &&& vertices != 0 ==> addresses(w[b], w[b + 1], Command::Vaddr, vertices)
}

/// The source words of a draw, a patch or an object select exactly the vertex
/// type and address the index list and the vertices given.
pub proof fn lemma_vertex_source_words(vtype: VertexType, indices: u32, vertices: u32)
    ensures
        selects_sources(vertex_source_words(vtype, indices, vertices), vtype, indices, vertices),
{
    lemma_command_word_fields(Command::VertexType, vtype.spec_bits());
    lemma_address_words(Command::Iaddr, indices);
    lemma_address_words(Command::Vaddr, vertices);
}

/// Drawing an array selects its sources, then draws the vertices as
/// primitives `prim` in a last word; for a count that fits its 16 bits, that
/// word holds the primitive above bit 16 and the count below.
pub proof fn lemma_draw_array_words(prim: Primitive, vtype: VertexType, count: i32, indices: u32, vertices: u32)
    ensures
        ({
            let w = draw_array_words(prim, vtype, count, indices, vertices);
            &&& w.len() >= 1
            &&& selects_sources(w.drop_last(), vtype, indices, vertices)
            &&& word_command(w.last()) == Command::Prim.spec_to_u32()
            &&& 0 <= count < 0x10000 ==> word_argument(w.last()) >> 16u32 == prim.spec_to_u32()
                && word_argument(w.last()) & 0xffff == count
        }),
{
    let w = draw_array_words(prim, vtype, count, indices, vertices);
    lemma_vertex_source_words(vtype, indices, vertices);
    assert(w.drop_last() =~= vertex_source_words(vtype, indices, vertices));
    lemma_prim_argument(prim, count);
}

/// The argument of a primitive word: the primitive above bit 16, the count
/// below, for a count that fits 16 bits.
proof fn lemma_prim_argument(prim: Primitive, count: i32)
    ensures
        word_command(spec_command_word(Command::Prim, ((prim.spec_to_u32() << 16u32) | (count as u32)) as i32))
            == Command::Prim.spec_to_u32(),
        0 <= count < 0x10000 ==> ({
            let a = word_argument(
                spec_command_word(Command::Prim, ((prim.spec_to_u32() << 16u32) | (count as u32)) as i32),
            );
            a >> 16u32 == prim.spec_to_u32() && a & 0xffff == count
        }),
{
    let p = prim.spec_to_u32();
    let c = count as u32;
    lemma_command_word_fields(Command::Prim, ((p << 16u32) | c) as i32);
    if 0 <= count < 0x10000 {
        assert(c == count);
        assert((p << 16u32) | c < 0x80000 && (((p << 16u32) | c) & 0xffffff) >> 16u32 == p
            && (((p << 16u32) | c) & 0xffffff) & 0xffff == c) by (bit_vector)
            requires
                p < 8,
                c < 0x10000,
        ;
        assert((((p << 16u32) | c) as i32) as u32 == (p << 16u32) | c);
    }
}

/// Beginning an object selects its sources, then bounds `count` vertices,
/// and leaves a jump to be patched.
pub proof fn lemma_begin_object_words(vtype: i32, count: i32, indices: u32, vertices: u32)
    ensures
        ({
            let w = begin_object_words(vtype, count, indices, vertices);
            &&& w.len() >= 1
            &&& selects_sources(w.drop_last(), VertexType::from_bits_spec(vtype), indices, vertices)
            &&& word_command(w.last()) == Command::BoundingBox.spec_to_u32()
            &&& word_argument(w.last()) == (count as u32) & 0xffffff
        }),
{
    VertexType::lemma_from_bits_spec(vtype);
    lemma_vertex_source_words(VertexType::from_bits_spec(vtype), indices, vertices);
    assert(begin_object_words(vtype, count, indices, vertices).drop_last() =~= vertex_source_words(
        VertexType::from_bits_spec(vtype),
        indices,
        vertices,
    ));
    lemma_command_word_fields(Command::BoundingBox, count);
}

/// The jump that ends an object addresses its target.
pub proof fn lemma_object_jump_words(target: u32)
    ensures
        object_jump_words(target).len() == 2,
        addresses(object_jump_words(target)[0], object_jump_words(target)[1], Command::BJump, target),
{
    lemma_address_words(Command::BJump, target);
}

/// `w` sets colour `color` on the registers named by `components`: every
/// colour word carries the full 24-bit colour, an alpha word its top byte;
/// there is a word for each component asked for and none for the others.
pub open spec fn sets_colors(
    w: Seq<u32>,
    components: i32,
    color: u32,
    ambient: Command,
    diffuse: Command,
    specular: Command,
) -> bool {
    &&& forall|i: int|
        0 <= i < w.len() ==> {
            ||| word_command(#[trigger] w[i]) == ambient.spec_to_u32() && components & LIGHT_COMPONENT_AMBIENT != 0
                && word_argument(w[i]) == color & 0xffffff
            ||| word_command(w[i]) == diffuse.spec_to_u32() && components & LIGHT_COMPONENT_DIFFUSE != 0
                && word_argument(w[i]) == color & 0xffffff
            ||| word_command(w[i]) == specular.spec_to_u32() && components & LIGHT_COMPONENT_SPECULAR != 0
                && word_argument(w[i]) == color & 0xffffff
            ||| word_command(w[i]) == Command::MaterialAlpha.spec_to_u32() && ambient == Command::MaterialAmbient
                && components & LIGHT_COMPONENT_AMBIENT != 0 && word_argument(w[i]) == color >> 24u32
        }
    &&& components & LIGHT_COMPONENT_AMBIENT != 0 ==> exists|i: int|
        0 <= i < w.len() && word_command(#[trigger] w[i]) == ambient.spec_to_u32()
    &&& components & LIGHT_COMPONENT_DIFFUSE != 0 ==> exists|i: int|
        0 <= i < w.len() && word_command(#[trigger] w[i]) == diffuse.spec_to_u32()
    &&& components & LIGHT_COMPONENT_SPECULAR != 0 ==> exists|i: int|
        0 <= i < w.len() && word_command(#[trigger] w[i]) == specular.spec_to_u32()
}

/// A colour word carries the colour's low 24 bits.
pub proof fn lemma_color_word(cmd: Command, color: u32)
    ensures
        word_command(spec_command_word(cmd, (color & 0xffffff) as i32)) == cmd.spec_to_u32(),
        word_argument(spec_command_word(cmd, (color & 0xffffff) as i32)) == color & 0xffffff,
{
    let rgb = color & 0xffffff;
    assert(rgb <= 0xffffff && rgb & 0xffffff == rgb) by (bit_vector)
        requires
            rgb == color & 0xffffff,
    ;
    assert((rgb as i32) as u32 == rgb);
    lemma_command_word_fields(cmd, rgb as i32);
}

/// An alpha word carries the colour's top byte.
pub proof fn lemma_alpha_word(cmd: Command, color: u32)
    ensures
        word_command(spec_command_word(cmd, (color >> 24u32) as i32)) == cmd.spec_to_u32(),
        word_argument(spec_command_word(cmd, (color >> 24u32) as i32)) == color >> 24u32,
{
    let top = color >> 24u32;
    assert(top <= 0xff && top & 0xffffff == top) by (bit_vector)
        requires
            top == color >> 24u32,
    ;
    assert((top as i32) as u32 == top);
    lemma_command_word_fields(cmd, top as i32);
}

/// `w` is a word of `cmd` whose argument holds the bytes `a`, `b` and `c`,
/// lowest first.
pub open spec fn holds_bytes(w: u32, cmd: Command, a: u32, b: u32, c: u32) -> bool {
    &&& word_command(w) == cmd.spec_to_u32()
    &&& word_argument(w) & 0xff == a
    &&& (word_argument(w) >> 8u32) & 0xff == b
    &&& (word_argument(w) >> 16u32) & 0xff == c
}

/// A word whose argument packs three bytes holds them.
pub proof fn lemma_byte_fields_word(cmd: Command, a: u32, b: u32, c: u32)
    requires
        a < 256,
        b < 256,
        c < 256,
    ensures
        holds_bytes(spec_command_word(cmd, (a | (b << 8u32) | (c << 16u32)) as i32), cmd, a, b, c),
{
    let x = a | (b << 8u32) | (c << 16u32);
    assert(x <= 0xffffff && x & 0xffffff == x && x & 0xff == a && (x >> 8u32) & 0xff == b && (x >> 16u32) & 0xff
        == c) by (bit_vector)
        requires
            x == a | (b << 8u32) | (c << 16u32),
            a < 256,
            b < 256,
            c < 256,
    ;
    assert((x as i32) as u32 == x);
    lemma_command_word_fields(cmd, x as i32);
}

/// The low byte of a value is below 256.
pub proof fn lemma_low_byte(x: u32)
    ensures
        x & 0xff < 256,
{
    assert(x & 0xff < 256) by (bit_vector);
}

/// Setting the material colour sets each component asked for to the full
/// 24-bit colour, and the material alpha, with the ambient colour, to the
/// colour's top byte.
pub proof fn lemma_material_words(components: i32, color: u32)
    ensures
        sets_colors(
            material_words(components, color),
            components,
            color,
            Command::MaterialAmbient,
            Command::MaterialDiffuse,
            Command::MaterialSpecular,
        ),
        components & LIGHT_COMPONENT_AMBIENT != 0 ==> exists|i: int|
            0 <= i < material_words(components, color).len() && word_command(
                #[trigger] material_words(components, color)[i],
            ) == Command::MaterialAlpha.spec_to_u32(),
{
    let w = material_words(components, color);
    lemma_color_word(Command::MaterialAmbient, color);
    lemma_color_word(Command::MaterialDiffuse, color);
    lemma_color_word(Command::MaterialSpecular, color);
    lemma_alpha_word(Command::MaterialAlpha, color);
    let a: int = if components & LIGHT_COMPONENT_AMBIENT != 0 { 2 } else { 0 };
    let d: int = a + if components & LIGHT_COMPONENT_DIFFUSE != 0 { 1int } else { 0int };
    if components & LIGHT_COMPONENT_AMBIENT != 0 {
        assert(word_command(w[0]) == Command::MaterialAmbient.spec_to_u32());
        assert(word_command(w[1]) == Command::MaterialAlpha.spec_to_u32());
    }
    if components & LIGHT_COMPONENT_DIFFUSE != 0 {
        assert(word_command(w[a]) == Command::MaterialDiffuse.spec_to_u32());
    }
    if components & LIGHT_COMPONENT_SPECULAR != 0 {
        assert(word_command(w[d]) == Command::MaterialSpecular.spec_to_u32());
    }
}

/// Setting the colour of a light sets each component asked for to the full
/// 24-bit colour, on that light's own registers.
pub proof fn lemma_light_color_words(light: i32, components: i32, color: u32)
    ensures
        sets_colors(
            light_color_words(light, components, color),
            components,
            color,
            spec_light_commands(light).ambient,
            spec_light_commands(light).diffuse,
            spec_light_commands(light).specular,
        ),
{
    let l = spec_light_commands(light);
    let w = light_color_words(light, components, color);
    lemma_color_word(l.ambient, color);
    lemma_color_word(l.diffuse, color);
    lemma_color_word(l.specular, color);
    let a: int = if components & LIGHT_COMPONENT_AMBIENT != 0 { 1 } else { 0 };
    let d: int = a + if components & LIGHT_COMPONENT_DIFFUSE != 0 { 1int } else { 0int };
    if components & LIGHT_COMPONENT_AMBIENT != 0 {
        assert(word_command(w[0]) == l.ambient.spec_to_u32());
    }
    if components & LIGHT_COMPONENT_DIFFUSE != 0 {
        assert(word_command(w[a]) == l.diffuse.spec_to_u32());
    }
    if components & LIGHT_COMPONENT_SPECULAR != 0 {
        assert(word_command(w[d]) == l.specular.spec_to_u32());
    }
}

/// The registers of each light are its own: light `n`'s type, position,
/// direction, colour and attenuation commands are those numbered for `n`.
pub proof fn lemma_light_registers(light: i32)
    requires
        0 <= light < 4,
    ensures
        ({
            let l = spec_light_commands(light);
            let n = light as u32;
            &&& l.type_.spec_to_u32() == Command::LightType0.spec_to_u32() + n
            &&& l.xpos.spec_to_u32() == Command::Light0X.spec_to_u32() + 3 * n
            &&& l.ypos.spec_to_u32() == Command::Light0Y.spec_to_u32() + 3 * n
            &&& l.zpos.spec_to_u32() == Command::Light0Z.spec_to_u32() + 3 * n
            &&& l.xdir.spec_to_u32() == Command::Light0DirectionX.spec_to_u32() + 3 * n
            &&& l.ydir.spec_to_u32() == Command::Light0DirectionY.spec_to_u32() + 3 * n
            &&& l.zdir.spec_to_u32() == Command::Light0DirectionZ.spec_to_u32() + 3 * n
            &&& l.ambient.spec_to_u32() == Command::Light0Ambient.spec_to_u32() + 3 * n
            &&& l.diffuse.spec_to_u32() == Command::Light0Diffuse.spec_to_u32() + 3 * n
            &&& l.specular.spec_to_u32() == Command::Light0Specular.spec_to_u32() + 3 * n
            &&& l.constant.spec_to_u32() == Command::Light0ConstantAtten.spec_to_u32() + 3 * n
            &&& l.linear.spec_to_u32() == Command::Light0LinearAtten.spec_to_u32() + 3 * n
            &&& l.quadratic.spec_to_u32() == Command::Light0QuadtraticAtten.spec_to_u32() + 3 * n
            &&& l.exponent.spec_to_u32() == Command::Light0ExponentAtten.spec_to_u32() + n
            &&& l.cutoff.spec_to_u32() == Command::Light0CutoffAtten.spec_to_u32() + n
        }),
{
}

/// A signed OR read as unsigned bits is the OR of the operands' bits.
proof fn lemma_or_bits(a: i32, b: i32)
    ensures
        ((a | b) as u32) == (a as u32) | (b as u32),
{
    assert(((a | b) as u32) == (a as u32) | (b as u32)) by (bit_vector);
}

/// Taking `size` bytes from a display list: the block starts right after
/// the two words that skip it, holds the size rounded up to whole words
/// (none for a negative size), and the two words jump to where the list goes
/// on, just past the block.
pub proof fn lemma_list_memory(current: u32, size: i32)
    requires
        -6 <= size <= i32::MAX - 3,
        current + rounded_size(size) + 8 <= u32::MAX,
    ensures
        ({
            let m = list_memory(current, size);
            &&& m.block == current + 8
            &&& m.block <= m.next
            &&& (m.next - m.block) % 4 == 0
            &&& size <= 0 ==> m.next == m.block
            &&& size > 0 ==> size <= m.next - m.block < size + 4
            &&& addresses(m.words.0, m.words.1, Command::Jump, m.next)
        }),
{
    let m = list_memory(current, size);
    let next = m.next;
    let hi = (next >> 8u32) & 0xf0000;
    let lo = next & 0xffffff;
    lemma_address_words(Command::Jump, next);
    assert(hi <= 0xf0000 && lo <= 0xffffff && hi & 0xffffff == hi && lo & 0xffffff == lo && (16u32 << 24u32) | hi == (16u32
        << 24u32) | (hi & 0xffffff) && (8u32 << 24u32) | lo == (8u32 << 24u32) | (lo & 0xffffff)) by (bit_vector)
        requires
            hi == (next >> 8u32) & 0xf0000,
            lo == next & 0xffffff,
    ;
    assert((hi as i32) as u32 == hi);
    assert((lo as i32) as u32 == lo);
    if size > 0 {
        assert(((size + 3) / 4) * 4 >= size && ((size + 3) / 4) * 4 < size + 4);
    }
}

/// `ptr` and `wide` point at `addr` and give its row width: a word of
/// `ptr_cmd` holding the address's low 24 bits, and a word of `width_cmd`
/// holding the address's top byte in bits 16 to 23 and `width` below.
pub open spec fn points_with_width(
    ptr: u32,
    wide: u32,
    ptr_cmd: Command,
    width_cmd: Command,
    addr: u32,
    width: i32,
) -> bool {
    &&& word_command(ptr) == ptr_cmd.spec_to_u32()
    &&& word_command(wide) == width_cmd.spec_to_u32()
    &&& word_argument(ptr) | ((word_argument(wide) >> 16u32) << 24u32) == addr
    &&& word_argument(wide) & 0xffff == width
}

/// The pointer and width words that the library writes for a buffer at
/// `addr`, `width` wide, point at it and give its width.
pub proof fn lemma_pointer_width_words(ptr_cmd: Command, width_cmd: Command, addr: u32, width: i32)
    requires
        0 <= width < 0x10000,
    ensures
        points_with_width(
            spec_command_word(ptr_cmd, (addr & 0xffffff) as i32),
            spec_command_word(width_cmd, (((addr & 0xff000000) >> 8u32) as i32) | width),
            ptr_cmd,
            width_cmd,
            addr,
            width,
        ),
{
    let f = width as u32;
    let lo = addr & 0xffffff;
    let hiw = (addr & 0xff000000) >> 8u32;
    assert(lo <= 0xffffff && lo & 0xffffff == lo && hiw <= 0xffffff && ((lo & 0xffffff) | ((((hiw | f)
        & 0xffffff) >> 16u32) << 24u32)) == addr && ((hiw | f) & 0xffffff) & 0xffff == f) by (bit_vector)
        requires
            lo == addr & 0xffffff,
            hiw == (addr & 0xff000000) >> 8u32,
            f < 0x10000,
    ;
    assert((lo as i32) as u32 == lo);
    assert((hiw as i32) as u32 == hiw);
    lemma_or_bits(hiw as i32, width);
    lemma_command_word_fields(ptr_cmd, lo as i32);
    lemma_command_word_fields(width_cmd, (hiw as i32) | width);
}

/// The width word written with the OR taken on unsigned bits is the same
/// word.
pub proof fn lemma_width_word_unsigned(width_cmd: Command, addr: u32, width: i32)
    ensures
        spec_command_word(width_cmd, (((addr & 0xff000000) >> 8u32) | (width as u32)) as i32) == spec_command_word(
            width_cmd,
            (((addr & 0xff000000) >> 8u32) as i32) | width,
        ),
{
    let hiw = (addr & 0xff000000) >> 8u32;
    let y = hiw | (width as u32);
    assert(hiw <= 0xffffff && ((y as i32) as u32) == y) by (bit_vector)
        requires
            hiw == (addr & 0xff000000) >> 8u32,
    ;
    assert((hiw as i32) as u32 == hiw);
    lemma_or_bits(hiw as i32, width);
}

/// The draw buffer's words point at its address and give its width.
pub proof fn lemma_frame_buffer_words(d: GuDrawBuffer)
    requires
        0 <= d.frame_width < 0x10000,
    ensures
        frame_buffer_words(d).len() == 2,
        points_with_width(
            frame_buffer_words(d)[0],
            frame_buffer_words(d)[1],
            Command::FrameBufPtr,
            Command::FrameBufWidth,
            d.frame_buffer,
            d.frame_width,
        ),
{
    lemma_pointer_width_words(Command::FrameBufPtr, Command::FrameBufWidth, d.frame_buffer, d.frame_width);
}

/// `k` is the base-2 logarithm of the low 10 bits of `size`: the index of
/// their highest set bit.
pub open spec fn is_log2_of(k: i32, size: i32) -> bool {
    0 <= k < 10 && ((size & 0x3ff) as u32) >> (k as u32) == 1
}

/// The logarithm that the texture-size command takes is that of the
/// dimension's low 10 bits, for a dimension whose low 10 bits are not all
/// zero.
pub proof fn lemma_tex_size_log2(size: i32)
    requires
        size & 0x3ff != 0,
    ensures
        is_log2_of(tex_size_log2(size), size),
{
    let s = (size & 0x3ff) as u32;
    assert(s < 1024 && s != 0) by (bit_vector)
        requires
            s == (size & 0x3ff) as u32,
            size & 0x3ff != 0,
    ;
    vstd::std_specs::bits::axiom_u32_leading_zeros(s);
    let lz = vstd::std_specs::bits::u32_leading_zeros(s);
    let k = (31 - lz) as u32;
    assert(lz < 32);
    assert(32 - lz == k + 1);
    assert((s >> k) & 1u32 != 0u32 && s >> (k + 1) == 0 && s < 1024 && k < 32 ==> s >> k == 1 && k < 10)
        by (bit_vector);
}

/// Setting a texture: the commands are those of its mipmap level; the
/// address and row-width words point at `tbp`, its low 24 bits in the first
/// and bits 24 to 27 in bits 16 to 19 of the second, whose low 16 bits hold
/// `tbw`; the size word holds the height's logarithm from bit 8 and the
/// width's below; a flush ends it.
pub proof fn lemma_tex_image_words(mipmap: MipmapLevel, width: i32, height: i32, tbw: i32, tbp: u32)
    requires
        0 <= tbw < 0x10000,
        width & 0x3ff != 0,
        height & 0x3ff != 0,
    ensures
        ({
            let w = tex_image_words(mipmap, width, height, tbw, tbp);
            let n = mipmap.spec_to_u32();
            &&& w.len() == 4
            &&& word_command(w[0]) == Command::TexAddr0.spec_to_u32() + n
            &&& word_command(w[1]) == Command::TexBufWidth0.spec_to_u32() + n
            &&& word_command(w[2]) == Command::TexSize0.spec_to_u32() + n
            &&& word_command(w[3]) == Command::TexFlush.spec_to_u32()
            &&& word_argument(w[0]) | (((word_argument(w[1]) >> 16u32) & 0xf) << 24u32) == tbp & 0x0fffffff
            &&& word_argument(w[1]) & 0xffff == tbw
            &&& is_log2_of((word_argument(w[2]) >> 8u32) as i32, height)
            &&& is_log2_of((word_argument(w[2]) & 0xff) as i32, width)
        }),
{
    lemma_tex_size_log2(width);
    lemma_tex_size_log2(height);
    let lw = tex_size_log2(width);
    let lh = tex_size_log2(height);
    let a = (lh * 256) as i32;
    assert(a == lh * 256);
    lemma_or_bits(a, lw);
    let ua = a as u32;
    let uw = lw as u32;
    let ul = lh as u32;
    assert(ua == ul * 256);
    assert(ul < 10 && uw < 10 ==> (ul << 8u32) == ul * 256 && ((ul << 8u32) | uw) & 0xffffff == (ul << 8u32)
        | uw && ((ul << 8u32) | uw) >> 8u32 == ul && ((ul << 8u32) | uw) & 0xff == uw) by (bit_vector);
    lemma_command_word_fields(tex_size_command(mipmap), tex_size_arg(width, height));
    let lo = tbp & 0xffffff;
    let hi = (tbp >> 8u32) & 0x0f0000;
    let t = tbw as u32;
    assert(lo <= 0xffffff && lo & 0xffffff == lo && hi <= 0x0f0000 && (lo | ((((hi | t) & 0xffffff) >> 16u32) & 0xf) << 24u32)
        == tbp & 0x0fffffff && ((hi | t) & 0xffffff) & 0xffff == t) by (bit_vector)
        requires
            lo == tbp & 0xffffff,
            hi == (tbp >> 8u32) & 0x0f0000,
            t < 0x10000,
    ;
    assert((lo as i32) as u32 == lo);
    assert((hi as i32) as u32 == hi);
    lemma_or_bits(hi as i32, tbw);
    lemma_command_word_fields(tex_addr_command(mipmap), lo as i32);
    lemma_command_word_fields(tex_buf_width_command(mipmap), (hi as i32) | tbw);
    lemma_command_word_fields(Command::TexFlush, 0);
}

/// A scissor corner holds y from bit 10 and x below, for coordinates of
/// up to 10 bits.
pub proof fn lemma_corner_arg(x: i32, y: i32)
    requires
        0 <= x < 1024,
        0 <= y < 1024,
    ensures
        (corner_arg(x, y) as u32) & 0x3ff == x,
        ((corner_arg(x, y) as u32) >> 10u32) & 0x3ff == y,
        (corner_arg(x, y) as u32) < 0x100000,
        (corner_arg(x, y) as u32) & 0xffffff == corner_arg(x, y) as u32,
{
    let ux = x as u32;
    let uy = y as u32;
    assert((uy << 10u32) | ux < 0x100000 && ((uy << 10u32) | ux) & 0xffffff == (uy << 10u32) | ux && ((uy
        << 10u32) | ux) & 0x3ff == ux && (((uy << 10u32) | ux) >> 10u32) & 0x3ff == uy) by (bit_vector)
        requires
            ux < 1024,
            uy < 1024,
    ;
}

/// `w` is a word of `cmd` whose argument holds the point (`x`, `y`): y from
/// bit 10, x below.
pub open spec fn holds_point(w: u32, cmd: Command, x: i32, y: i32) -> bool {
    &&& word_command(w) == cmd.spec_to_u32()
    &&& word_argument(w) & 0x3ff == x
    &&& (word_argument(w) >> 10u32) & 0x3ff == y
}

/// A word of `cmd` with a point argument holds that point, for coordinates
/// of up to 10 bits.
pub proof fn lemma_point_word(cmd: Command, x: i32, y: i32)
    requires
        0 <= x < 1024,
        0 <= y < 1024,
    ensures
        holds_point(spec_command_word(cmd, corner_arg(x, y)), cmd, x, y),
{
    lemma_corner_arg(x, y);
    lemma_command_word_fields(cmd, corner_arg(x, y));
}

/// The midpoint of a depth range within 0 to 65535 is the sum of its ends
/// halved, rounded down.
pub proof fn lemma_depth_center(near: i32, far: i32)
    requires
        0 <= near <= 65535,
        0 <= far <= 65535,
    ensures
        depth_range_fits(near, far),
        depth_center(near, far) == (near + far) / 2,
{
    let max = (near + far) as u32;
    assert(max >> 31u32 == 0 && max >> 1u32 == max / 2) by (bit_vector)
        requires
            max <= 131070,
    ;
    let v = max as i32;
    assert(v >> 1i32 == v / 2) by (bit_vector)
        requires
            0 <= v <= 131070,
    ;
}

/// The level offset of a texture level mode stays within -128 to 128 and
/// is the offset given whenever that lies in the range.
pub proof fn lemma_clamp_level_offset(offset: i32)
    ensures
        -128 <= clamp_level_offset(offset) <= 128,
        -128 <= offset <= 128 ==> clamp_level_offset(offset) == offset,
        offset > 128 ==> clamp_level_offset(offset) == 128,
        offset < -128 ==> clamp_level_offset(offset) == -128,
{
}

/// The bytes of a clear vertex read back, little-endian, as its colour, x,
/// y and z, in twelve bytes.
pub proof fn lemma_clear_vertex_bytes(v: ClearVertex)
    ensures
        ({
            let b = clear_vertex_bytes(v);
            &&& b.len() == 12
            &&& (b[0] as u32) | ((b[1] as u32) << 8u32) | ((b[2] as u32) << 16u32) | ((b[3] as u32) << 24u32)
                == v.color
            &&& (b[4] as u16) | ((b[5] as u16) << 8u16) == v.x
            &&& (b[6] as u16) | ((b[7] as u16) << 8u16) == v.y
            &&& (b[8] as u16) | ((b[9] as u16) << 8u16) == v.z
        }),
{
    let b = clear_vertex_bytes(v);
    crate::screenshot::lemma_le_bytes_u32(v.color);
    crate::screenshot::lemma_le_bytes_u16(v.x);
    crate::screenshot::lemma_le_bytes_u16(v.y);
    crate::screenshot::lemma_le_bytes_u16(v.z);
    assert(b.subrange(0, 4) =~= crate::screenshot::le_bytes_u32(v.color));
    assert(b.subrange(4, 6) =~= crate::screenshot::le_bytes_u16(v.x));
    assert(b.subrange(6, 8) =~= crate::screenshot::le_bytes_u16(v.y));
    assert(b.subrange(8, 10) =~= crate::screenshot::le_bytes_u16(v.z));
}

/// A fast clear covers the buffer's width with strips of 64 pixels: two
/// vertices per strip, as many strips as it takes to reach the width, and
/// not one more.
pub proof fn lemma_fast_clear_covers_width(width: i32)
    requires
        0 < width <= i32::MAX - 63,
    ensures
        fast_clear_count(width) % 2 == 0,
        64 * (fast_clear_count(width) / 2) >= width,
        64 * (fast_clear_count(width) / 2 - 1) < width,
{
}

/// Morph weight `index` is set by the `index`-th morph-weight command.
pub proof fn lemma_morph_weight_commands(index: i32)
    requires
        0 <= index < 8,
    ensures
        spec_morph_weight_command(index).spec_to_u32() == Command::MorphWeight0.spec_to_u32() + index,
{
}

/// The elements of a 4x3 matrix are the first three columns of each row of
/// the 4x4 matrix, row by row: element `k` is row `k / 3`, column `k % 3`.
pub proof fn lemma_matrix_4x3_elements(k: int)
    requires
        0 <= k < 12,
    ensures
        matrix_4x3_element(k) < 16,
        matrix_4x3_element(k) / 4 == k / 3,
        matrix_4x3_element(k) % 4 == k % 3,
{
}

/// A signal carries its 8-bit value above bit 16 and the behaviour below,
/// stops the list until resumed, and a signal of 3 also finishes it.
pub proof fn lemma_signal_words(behavior: SignalBehavior, signal: i32)
    ensures
        ({
            let w = signal_words(behavior, signal);
            &&& w.len() == if signal == 3 { 5int } else { 3int }
            &&& word_command(w[0]) == Command::Signal.spec_to_u32()
            &&& word_argument(w[0]) >> 16u32 == (signal as u32) & 0xff
            &&& word_argument(w[0]) & 0xffff == behavior.spec_to_u32()
            &&& word_command(w[1]) == Command::End.spec_to_u32()
            &&& signal == 3 ==> word_command(w[2]) == Command::Finish.spec_to_u32() && word_command(w[3])
                == Command::End.spec_to_u32()
            &&& word_command(w.last()) == Command::Nop.spec_to_u32()
        }),
{
    let b = behavior.spec_to_u32();
    let v = signal as u32;
    let a = ((v & 0xff) << 16u32) | (b & 0xffff);
    assert(b < 3);
    assert(b < 3 ==> a <= 0xffffff && a >> 16u32 == v & 0xff && a & 0xffff == b && (a & 0xffffff) == a) by (bit_vector)
        requires
            a == ((v & 0xff) << 16u32) | (b & 0xffff),
    ;
    assert((a as i32) as u32 == a);
    lemma_command_word_fields(Command::Signal, a as i32);
    lemma_command_word_fields(Command::End, 0);
    lemma_command_word_fields(Command::Finish, 0);
    lemma_command_word_fields(Command::Nop, 0);
}

/// Finishing a list ends it as its context asks: a direct or sent list with
/// Finish (carrying the finish callback's argument) and End; a called list
/// returns to its caller, or, in signal call mode, signals, ends and waits.
pub proof fn lemma_finish_words(context: Context, call_mode: i32, id: i32)
    requires
        0 <= id <= 0xffff,
    ensures
        ({
            let w = finish_words(context, call_mode, id).0;
            &&& context != Context::Call ==> w.len() == 2 && word_command(w[0]) == Command::Finish.spec_to_u32()
                && word_argument(w[0]) == id && word_command(w[1]) == Command::End.spec_to_u32()
            &&& context == Context::Call && call_mode != 1 ==> w.len() == 1 && word_command(w[0])
                == Command::Ret.spec_to_u32()
            &&& context == Context::Call && call_mode == 1 ==> w.len() == 3 && word_command(w[0])
                == Command::Signal.spec_to_u32() && word_argument(w[0]) == 0x120000 && word_command(w[1])
                == Command::End.spec_to_u32() && word_command(w[2]) == Command::Nop.spec_to_u32()
        }),
{
    let u = id as u32;
    assert(u <= 0xffff ==> u & 0xffffff == u && (0x120000u32 & 0xffffff) == 0x120000u32) by (bit_vector);
    lemma_command_word_fields(Command::Finish, id);
    lemma_command_word_fields(Command::End, 0);
    lemma_command_word_fields(Command::Ret, 0);
    lemma_command_word_fields(Command::Signal, 0x120000);
    lemma_command_word_fields(Command::Nop, 0);
}

/// The kind of a light: 2 for the fourth component bit alone, 1 for the
/// diffuse and specular components together, 0 for any single one of the
/// three components or all three.
pub proof fn lemma_light_kind()
    ensures
        light_kind(8) == 2,
        light_kind(LIGHT_COMPONENT_DIFFUSE | LIGHT_COMPONENT_SPECULAR) == 1,
        light_kind(LIGHT_COMPONENT_AMBIENT) == 0,
        light_kind(LIGHT_COMPONENT_DIFFUSE) == 0,
        light_kind(LIGHT_COMPONENT_SPECULAR) == 0,
        light_kind(LIGHT_COMPONENT_AMBIENT | LIGHT_COMPONENT_DIFFUSE | LIGHT_COMPONENT_SPECULAR) == 0,
{
    assert((2i32 | 4i32) == 6i32 && (1i32 | 2i32 | 4i32) == 7i32 && (6i32 ^ 6i32) == 0i32 && (1i32 ^ 6i32) == 7i32
        && (2i32 ^ 6i32) == 4i32 && (4i32 ^ 6i32) == 2i32 && (7i32 ^ 6i32) == 1i32) by (bit_vector);
}

/// The clear vertices lie in list memory one after another, twelve bytes
/// each: bytes `12k` to `12k + 12` are those of vertex `k`.
pub proof fn lemma_clear_vertices_in_order(vertices: Seq<ClearVertex>, k: int)
    requires
        0 <= k < vertices.len(),
    ensures
        clear_vertices_bytes(vertices).len() == 12 * vertices.len(),
        clear_vertices_bytes(vertices).subrange(12 * k, 12 * k + 12) == clear_vertex_bytes(vertices[k]),
    decreases vertices.len(),
{
    lemma_clear_vertices_bytes_len(vertices);
    let init = vertices.drop_last();
    lemma_clear_vertices_bytes_len(init);
    if k < vertices.len() - 1 {
        lemma_clear_vertices_in_order(init, k);
        assert(clear_vertices_bytes(vertices).subrange(12 * k, 12 * k + 12) =~= clear_vertices_bytes(init).subrange(
            12 * k,
            12 * k + 12,
        ));
    } else {
        assert(clear_vertices_bytes(vertices).subrange(12 * k, 12 * k + 12) =~= clear_vertex_bytes(vertices.last()));
    }
}

} // verus!
