use psp::sys::display::DisplayPixelFormat;
use psp::sys::ge::{command_word, Command};
use psp::sys::gu::{
    init_list, sce_gu_draw_array, sce_gu_get_memory, sce_gu_set_dither, sce_gu_tex_image,
    ClearVertex, Context, GuState, MipmapLevel, Primitive, State, VertexType,
    CLEAR_COLOR_BUFFER_BIT, CLEAR_DEPTH_BUFFER_BIT, CLEAR_FAST_CLEAR_BIT, INIT_LIST_LEN,
};
use psp::sys::types::{IMatrix4, IVector4};

#[test]
fn command_words_pack_command_and_argument() {
    assert_eq!(command_word(Command::ZTest, 3), 0xDE00_0003);
    assert_eq!(command_word(Command::Nop, -1), 0x00FF_FFFF);
    assert_eq!(command_word(Command::Vscv, 0x1234_5678), 0xF934_5678);
    assert_eq!(Command::Jump.to_u32(), 8);
    assert_eq!(Command::Base.to_u32(), 16);
}

#[test]
fn init_list_holds_every_register_command() {
    let l = init_list();
    assert_eq!(l.len(), INIT_LIST_LEN);
    assert_eq!(l[0], Command::Vaddr.to_u32() << 24);
    assert_eq!(l[2], Command::Base.to_u32() << 24);
    assert_eq!(l[219], Command::Finish.to_u32() << 24);
    assert_eq!(l[220], Command::End.to_u32() << 24);
    assert_eq!(l[221], 0);
    assert_eq!(l[222], 0);
}

#[test]
fn reset_values_restores_defaults() {
    let mut gu = GuState::new();
    gu.states = 0xff;
    gu.contexts[1].far_plane = 9;
    gu.contexts[1].list.start = 0x4000;
    gu.reset_values();
    assert_eq!(gu.states, 0);
    assert_eq!(gu.draw_buffer.width, 480);
    assert_eq!(gu.draw_buffer.height, 272);
    assert_eq!(gu.draw_buffer.pixel_size, DisplayPixelFormat::_5551);
    for c in gu.contexts.iter() {
        assert_eq!(c.far_plane, 1);
        assert_eq!(c.clear_depth, 0xffff);
    }
    assert_eq!(gu.contexts[1].list.start, 0x4000);
}

#[test]
fn enable_and_disable_track_status() {
    let mut gu = GuState::new();
    gu.reset_values();
    let w = gu.sce_gu_enable(State::Blend);
    assert_eq!(w, vec![command_word(Command::AlphaBlendEnable, 1)]);
    assert!(gu.sce_gu_get_status(State::Blend));
    assert!(!gu.sce_gu_get_status(State::Fog));
    assert_eq!(gu.sce_gu_get_all_status(), 1 << 4);
    let w = gu.sce_gu_disable(State::Blend);
    assert_eq!(w, vec![command_word(Command::AlphaBlendEnable, 0)]);
    assert!(!gu.sce_gu_get_status(State::Blend));
    let w = gu.sce_gu_set_status(State::Fog, 1);
    assert_eq!(w, vec![command_word(Command::FogEnable, 1)]);
    assert_eq!(gu.sce_gu_get_all_status(), 1 << 7);
}

#[test]
fn scissor_and_fragment_states() {
    let mut gu = GuState::new();
    gu.reset_values();
    gu.contexts[0].scissor_start = [10, 20];
    gu.contexts[0].scissor_end = [100, 200];
    let w = gu.sce_gu_enable(State::ScissorTest);
    assert_eq!(
        w,
        vec![
            command_word(Command::Scissor1, (20 << 10) | 10),
            command_word(Command::Scissor2, (200 << 10) | 100)
        ]
    );
    assert_eq!(gu.contexts[0].scissor_enable, 1);
    let w = gu.sce_gu_disable(State::ScissorTest);
    assert_eq!(
        w,
        vec![command_word(Command::Scissor1, 0), command_word(Command::Scissor2, (271 << 10) | 479)]
    );
    assert_eq!(gu.contexts[0].scissor_enable, 0);
    gu.contexts[0].texture_function = 3;
    let w = gu.sce_gu_enable(State::Fragment2X);
    assert_eq!(w, vec![command_word(Command::TexFunc, 0x10003)]);
    assert_eq!(gu.contexts[0].fragment_2x, 0x10000);
}

#[test]
fn tex_image_words() {
    let w = sce_gu_tex_image(MipmapLevel::Level1, 512, 256, 480, 0x0412_3456);
    assert_eq!(
        w,
        vec![
            command_word(Command::TexAddr1, 0x12_3456),
            command_word(Command::TexBufWidth1, 0x04_0000 | 480),
            command_word(Command::TexSize1, (8 << 8) | 9),
            command_word(Command::TexFlush, 0),
        ]
    );
    let w = sce_gu_tex_image(MipmapLevel::NoLevel, 1024, 1, 0, 0);
    assert_eq!(w[2], command_word(Command::TexSize0, (0 << 8) | -1));
}

#[test]
fn dither_words() {
    let m = IMatrix4 {
        x: IVector4 { x: -4, y: 0, z: -3, w: 1 },
        y: IVector4 { x: 2, y: -2, z: 3, w: -1 },
        z: IVector4 { x: -3, y: 1, z: -4, w: 0 },
        w: IVector4 { x: 3, y: -1, z: 2, w: -2 },
    };
    let w = sce_gu_set_dither(&m);
    assert_eq!(w[0], command_word(Command::Dith0, 0x1d0c));
    assert_eq!(w[3], command_word(Command::Dith3, 0xe2f3));
}

#[test]
fn start_records_list_and_emits_defaults_once() {
    let mut gu = GuState::new();
    gu.reset_values();
    gu.draw_buffer.frame_width = 512;
    gu.draw_buffer.frame_buffer = 0x0108_8000;
    let step = gu.sce_gu_start(Context::Direct, 0x0800_0000);
    assert!(step.enqueue);
    assert_eq!(gu.curr_context, Context::Direct);
    assert_eq!(gu.contexts[0].list.start, 0x4800_0000);
    assert_eq!(step.words.len(), 11);
    assert_eq!(step.words[4], command_word(Command::PatchDivision, 0x1010));
    assert_eq!(step.words[9], command_word(Command::FrameBufPtr, 0x08_8000));
    assert_eq!(step.words[10], command_word(Command::FrameBufWidth, 0x01_0000 | 512));
    assert_eq!(gu.init, 1);
    let step = gu.sce_gu_start(Context::Call, 0x0900_0000);
    assert!(!step.enqueue);
    assert!(step.words.is_empty());
    assert_eq!(gu.contexts[1].list.parent_context, Context::Direct);
}

#[test]
fn clear_normal_and_fast() {
    let mut gu = GuState::new();
    gu.reset_values();
    gu.draw_buffer.pixel_size = DisplayPixelFormat::_8888;
    gu.contexts[0].clear_color = 0xff11_2233;
    gu.contexts[0].clear_stencil = 1;
    let plan = gu.clear_plan(CLEAR_COLOR_BUFFER_BIT | CLEAR_DEPTH_BUFFER_BIT);
    assert_eq!(plan.filter, 0x0111_2233);
    assert_eq!(plan.begin, command_word(Command::ClearMode, (5 << 8) | 1));
    assert_eq!(plan.end, command_word(Command::ClearMode, 0));
    assert_eq!(
        plan.vertices,
        vec![
            ClearVertex { color: 0, x: 0, y: 0, z: 0xffff },
            ClearVertex { color: 0x0111_2233, x: 480, y: 272, z: 0xffff },
        ]
    );
    let plan = gu.clear_plan(CLEAR_FAST_CLEAR_BIT);
    assert_eq!(plan.vertices.len(), 16);
    assert_eq!(plan.vertices[0], ClearVertex { color: 0x0111_2233, x: 0, y: 0, z: 0xffff });
    assert_eq!(plan.vertices[1], ClearVertex { color: 0x0111_2233, x: 64, y: 272, z: 0xffff });
    assert_eq!(plan.vertices[15], ClearVertex { color: 0x0111_2233, x: 512, y: 272, z: 0xffff });
}

#[test]
fn draw_array_and_list_memory() {
    let vt = VertexType::from_bits_truncate(VertexType::COLOR_8888 | VertexType::VERTEX_16BIT);
    let w = sce_gu_draw_array(Primitive::Sprites, vt, 2, 0, 0x0412_3456);
    assert_eq!(
        w,
        vec![
            command_word(Command::VertexType, vt.bits()),
            command_word(Command::Base, 0x04_0000),
            command_word(Command::Vaddr, 0x12_3456),
            command_word(Command::Prim, (6 << 16) | 2),
        ]
    );
    let m = sce_gu_get_memory(0x1000, 21);
    assert_eq!(m.block, 0x1008);
    assert_eq!(m.next, 0x1000 + 24 + 8);
    assert_eq!(m.words, ((16 << 24) | ((0x1020 >> 8) & 0xf0000), (8 << 24) | 0x1020));
}
