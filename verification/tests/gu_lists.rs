use psp::sys::display::DisplayPixelFormat;
use psp::sys::ge::{command_word, Command, GeListState};
use psp::sys::gu::{
    light_commands, light_type_word, morph_weight_command, sce_gu_bone_matrix, sce_gu_copy_image, sce_gu_set_matrix, tex_level_word, sce_gu_draw_array_n, sce_gu_draw_bezier, sce_gu_draw_spline,
    sce_gu_get_memory, sce_gu_light_color, sce_gu_light_mode, sce_gu_signal, Context, GuState,
    LightMode, LightType, MatrixMode, Primitive, SignalBehavior, TextureLevelMode, VertexType, CLEAR_COLOR_BUFFER_BIT,
    CLEAR_FAST_CLEAR_BIT, CLEAR_STENCIL_BUFFER_BIT, LIGHT_COMPONENT_AMBIENT,
    LIGHT_COMPONENT_SPECULAR,
};

fn ready_state() -> GuState {
    let mut gu = GuState::new();
    gu.reset_values();
    gu.draw_buffer.pixel_size = DisplayPixelFormat::_8888;
    gu
}

#[test]
fn clear_commands_draw_two_sprite_corners() {
    let mut gu = ready_state();
    gu.sce_gu_clear_color(0xaa33_2211);
    gu.sce_gu_clear_stencil(2);
    gu.sce_gu_clear_depth(0x1234);
    let out = gu.sce_gu_clear(CLEAR_COLOR_BUFFER_BIT | CLEAR_STENCIL_BUFFER_BIT, 0x1000);
    // Two vertices of twelve bytes: the list jumps over 24 bytes.
    assert_eq!(out.memory.block, 0x1008);
    assert_eq!(out.memory.next, 0x1000 + 8 + 24);
    assert_eq!(out.memory.words, (0x1000_0000, 0x0800_1020));
    assert_eq!(
        out.vertex_bytes,
        vec![
            0, 0, 0, 0, 0, 0, 0, 0, 0x34, 0x12, 0, 0, //
            0x11, 0x22, 0x33, 0x02, 0xe0, 0x01, 0x10, 0x01, 0x34, 0x12, 0, 0,
        ]
    );
    assert_eq!(
        out.words,
        vec![
            0xD300_0301,
            0x1200_0000 | 0x80_011C,
            0x1000_0000,
            0x0100_1008,
            0x0400_0000 | (6 << 16) | 2,
            0xD300_0000,
        ]
    );
}

#[test]
fn fast_clear_commands_draw_strips_of_sprites() {
    let gu = ready_state();
    let out = gu.sce_gu_clear(CLEAR_FAST_CLEAR_BIT | CLEAR_COLOR_BUFFER_BIT, 0x2000);
    // 480 pixels wide: eight strips of 64 pixels, sixteen vertices.
    assert_eq!(out.vertex_bytes.len(), 16 * 12);
    assert_eq!(out.memory.next, 0x2000 + 8 + 16 * 12);
    assert_eq!(out.words.len(), 6);
    assert_eq!(out.words[0], command_word(Command::ClearMode, (1 << 8) | 1));
    assert_eq!(out.words[4], command_word(Command::Prim, (6 << 16) | 16));
    assert_eq!(out.words[5], command_word(Command::ClearMode, 0));
    // The second vertex: x 64, y 272 at the bottom edge, depth 0xffff.
    assert_eq!(&out.vertex_bytes[12..24], &[0, 0, 0, 0, 64, 0, 0x10, 0x01, 0xff, 0xff, 0, 0]);
}

#[test]
fn list_memory_of_small_negative_size_is_empty() {
    let m = sce_gu_get_memory(0x3000, -3);
    assert_eq!(m.block, 0x3008);
    assert_eq!(m.next, 0x3008);
    let m = sce_gu_get_memory(0x3000, 0);
    assert_eq!(m.next, 0x3008);
    let m = sce_gu_get_memory(0x3000, 1);
    assert_eq!(m.next, 0x300c);
}

#[test]
fn nested_objects_patch_their_own_jumps() {
    let mut gu = ready_state();
    let mut stack: Vec<u32> = Vec::new();
    let outer = gu.sce_gu_begin_object(&mut stack, 0x11c, 8, 0, 0x0412_3450, 0x1000);
    assert_eq!(
        outer,
        vec![
            command_word(Command::VertexType, 0x11c),
            command_word(Command::Base, 0x04_0000),
            command_word(Command::Vaddr, 0x12_3450),
            command_word(Command::BoundingBox, 8),
            command_word(Command::Base, 0),
            command_word(Command::BJump, 0),
        ]
    );
    assert_eq!(stack, vec![0x1010]);
    assert_eq!(gu.object_stack_depth, 1);
    let inner = gu.sce_gu_begin_object(&mut stack, 0, 4, 0, 0, 0x1100);
    assert_eq!(inner.len(), 3);
    assert_eq!(stack, vec![0x1010, 0x1104]);
    let patch = gu.sce_gu_end_object(&mut stack, 0x1200);
    assert_eq!(patch.address, 0x1104);
    assert_eq!(patch.words, vec![command_word(Command::Base, 0), command_word(Command::BJump, 0x1200)]);
    let patch = gu.sce_gu_end_object(&mut stack, 0x0123_4568);
    assert_eq!(patch.address, 0x1010);
    assert_eq!(patch.words, vec![0x1001_0000, 0x0923_4568]);
    assert!(stack.is_empty());
    assert_eq!(gu.object_stack_depth, 0);
}

#[test]
fn finish_ends_list_and_returns_to_parent() {
    let mut gu = ready_state();
    gu.sce_gu_start(Context::Direct, 0x0800_0000);
    gu.sce_gu_start(Context::Call, 0x0900_0000);
    assert_eq!(gu.curr_context, Context::Call);
    let step = gu.sce_gu_finish(0x4900_0010);
    assert_eq!(step.words, vec![command_word(Command::Ret, 0)]);
    assert!(!step.update_stall);
    assert_eq!(step.size, 0x14);
    assert_eq!(gu.curr_context, Context::Direct);
    let step = gu.sce_gu_finish_id(0x1_0007, 0x4800_0100);
    assert_eq!(step.words, vec![0x0F00_0007, 0x0C00_0000]);
    assert!(step.update_stall);
    assert_eq!(step.size, 0x108);
    assert_eq!(gu.sce_gu_check_list(0x4800_0020), 0x20);
}

#[test]
fn call_mode_changes_call_and_finish_words() {
    let mut gu = ready_state();
    let w = gu.sce_gu_call_list(0x0812_3456);
    assert_eq!(w, vec![command_word(Command::Base, 0x08_0000), command_word(Command::Call, 0x12_3456)]);
    gu.sce_gu_call_mode(1);
    let w = gu.sce_gu_call_list(0x0812_3456);
    assert_eq!(
        w,
        vec![
            command_word(Command::Signal, 0x11_0812),
            command_word(Command::End, 0x3456),
            command_word(Command::Nop, 0),
        ]
    );
    gu.sce_gu_start(Context::Call, 0x0900_0000);
    let step = gu.sce_gu_finish(0x4900_0000);
    assert_eq!(step.words.len(), 3);
    assert_eq!(step.words[0], command_word(Command::Signal, 0x12_0000));
}

#[test]
fn signal_words_end_list_on_signal_three() {
    let w = sce_gu_signal(SignalBehavior::Continue, 2);
    assert_eq!(
        w,
        vec![
            command_word(Command::Signal, 0x02_0000 | 2),
            command_word(Command::End, 0),
            command_word(Command::Nop, 0),
        ]
    );
    let w = sce_gu_signal(SignalBehavior::Suspend, 3);
    assert_eq!(w.len(), 5);
    assert_eq!(w[2], command_word(Command::Finish, 0));
}

#[test]
fn swap_buffers_exchanges_draw_and_display() {
    let mut gu = ready_state();
    gu.draw_buffer.frame_buffer = 0x0;
    gu.draw_buffer.disp_buffer = 0x8_8000;
    let draw = gu.sce_gu_swap_buffers(false);
    assert_eq!(draw, 0x8_8000);
    assert_eq!(gu.draw_buffer.disp_buffer, 0);
    assert_eq!(gu.current_frame, 1);
    let draw = gu.sce_gu_swap_buffers(true);
    assert_eq!(draw, 0x8_8000);
    assert_eq!(gu.current_frame, 0);
}

#[test]
fn set_all_status_sets_every_state_bit() {
    let mut gu = ready_state();
    let w = gu.sce_gu_set_all_status(0x3f_ffff);
    assert_eq!(gu.states, 0x3f_ffff);
    assert!(!w.is_empty());
    let w = gu.sce_gu_set_all_status(0);
    assert_eq!(gu.states, 0);
    assert!(!w.is_empty());
}

#[test]
fn light_words() {
    assert_eq!(
        sce_gu_light_mode(LightMode::SeparateSpecularColor),
        vec![command_word(Command::LightMode, 1)]
    );
    let w = sce_gu_light_color(2, LIGHT_COMPONENT_AMBIENT | LIGHT_COMPONENT_SPECULAR, 0xff12_3456);
    assert_eq!(
        w,
        vec![
            command_word(Command::Light2Ambient, 0x12_3456),
            command_word(Command::Light2Specular, 0x12_3456),
        ]
    );
    assert!(sce_gu_light_color(0, 0, 0xffff_ffff).is_empty());
}

#[test]
fn patch_and_repeated_draw_words() {
    let vt = VertexType::from_bits_truncate(VertexType::VERTEX_32BITF);
    let w = sce_gu_draw_bezier(vt, 4, 3, 0, 0x0010_0000);
    assert_eq!(
        w,
        vec![
            command_word(Command::VertexType, vt.bits()),
            command_word(Command::Base, 0),
            command_word(Command::Vaddr, 0x10_0000),
            command_word(Command::Bezier, 0x0304),
        ]
    );
    let w = sce_gu_draw_spline(VertexType::from_bits_truncate(0), 4, 5, 1, 2, 0, 0);
    assert_eq!(w, vec![command_word(Command::Spline, (2 << 18) | (1 << 16) | 0x0504)]);
    let w = sce_gu_draw_array_n(Primitive::Triangles, VertexType::from_bits_truncate(0), 3, 3, 0, 0);
    assert_eq!(w, vec![command_word(Command::Prim, (3 << 16) | 3); 3]);
    assert!(sce_gu_draw_array_n(Primitive::Triangles, VertexType::from_bits_truncate(0), 3, 0, 0, 0)
        .is_empty());
}

#[test]
fn copy_image_words() {
    let w = sce_gu_copy_image(
        DisplayPixelFormat::_8888,
        1,
        2,
        480,
        272,
        512,
        0x0400_0000,
        3,
        4,
        512,
        0x0408_8000,
    );
    assert_eq!(
        w,
        vec![
            command_word(Command::TransferSrc, 0),
            command_word(Command::TransferSrcW, 0x04_0000 | 512),
            command_word(Command::TransferSrcPos, (2 << 10) | 1),
            command_word(Command::TransferDst, 0x08_8000),
            command_word(Command::TransferDstW, 0x04_0000 | 512),
            command_word(Command::TransferDstPos, (4 << 10) | 3),
            command_word(Command::TransferSize, (271 << 10) | 479),
            command_word(Command::TransferStart, 1),
        ]
    );
    let w = sce_gu_copy_image(DisplayPixelFormat::_565, 0, 0, 1, 1, 1, 0, 0, 0, 1, 0);
    assert_eq!(w[7], command_word(Command::TransferStart, 0));
}

#[test]
fn depth_range_orders_bounds_and_keeps_center() {
    let mut gu = ready_state();
    let step = gu.sce_gu_depth_range(65535, 0);
    assert_eq!(step.center, 32767);
    assert_eq!(step.near, 65535);
    assert_eq!(step.offset, 0);
    assert_eq!(step.words, vec![command_word(Command::MinZ, 0), command_word(Command::MaxZ, 65535)]);
    assert_eq!(gu.contexts[0].near_plane, 65535);
    assert_eq!(gu.contexts[0].far_plane, 0);
    let step = gu.sce_gu_depth_offset(10);
    assert_eq!(step.offset, 10);
    assert_eq!(step.center, 32767);
    assert_eq!(gu.contexts[0].depth_offset, 10);
    let step = gu.sce_gu_depth_range(6, 3);
    assert_eq!(step.center, 4);
    assert_eq!(step.words, vec![command_word(Command::MinZ, 3), command_word(Command::MaxZ, 6)]);
    let step = gu.sce_gu_depth_range(i32::MIN, 0);
    assert_eq!(step.center, -1_073_741_824);
    assert_eq!(step.words[0], command_word(Command::MinZ, i32::MIN));
}

#[test]
fn list_states_by_value() {
    assert_eq!(GeListState::from_i32(3), Some(GeListState::StallReached));
    assert_eq!(GeListState::from_i32(0), Some(GeListState::Done));
    assert_eq!(GeListState::from_i32(5), None);
    assert_eq!(GeListState::from_i32(-1), None);
}

#[test]
fn light_type_and_command_tables() {
    let s = light_commands(3);
    assert_eq!(s.type_, Command::LightType3);
    assert_eq!(s.zdir, Command::Light3DirectionZ);
    assert_eq!(s.cutoff, Command::Light3CutoffAtten);
    assert_eq!(light_commands(0).ambient, Command::Light0Ambient);
    assert_eq!(
        light_type_word(1, LightType::Spotlight, 6),
        command_word(Command::LightType1, 0x201)
    );
    assert_eq!(
        light_type_word(0, LightType::Pointlight, 8),
        command_word(Command::LightType0, 0x102)
    );
    assert_eq!(
        light_type_word(2, LightType::Directional, 1),
        command_word(Command::LightType2, 0)
    );
}

#[test]
fn tex_level_offset_is_clamped() {
    assert_eq!(
        tex_level_word(TextureLevelMode::Const, 200),
        command_word(Command::TexLevel, (128 << 16) | 1)
    );
    assert_eq!(
        tex_level_word(TextureLevelMode::Slope, -300),
        command_word(Command::TexLevel, (-128 << 16) | 2)
    );
    assert_eq!(
        tex_level_word(TextureLevelMode::Auto, -5),
        command_word(Command::TexLevel, -5 << 16)
    );
    assert_eq!(morph_weight_command(5), Command::MorphWeight5);
}

#[test]
fn matrix_uploads_pick_elements() {
    let u = sce_gu_set_matrix(MatrixMode::Projection);
    assert_eq!(u.number, Command::ProjMatrixNumber);
    assert_eq!(u.data, Command::ProjMatrixData);
    assert_eq!(u.elements, (0..16).collect::<Vec<usize>>());
    let u = sce_gu_set_matrix(MatrixMode::Model);
    assert_eq!(u.number, Command::WorldMatrixNumber);
    assert_eq!(u.elements, vec![0, 1, 2, 4, 5, 6, 8, 9, 10, 12, 13, 14]);
    let (word, u) = sce_gu_bone_matrix(2);
    assert_eq!(word, command_word(Command::BoneMatrixNumber, 24));
    assert_eq!(u.data, Command::BoneMatrixData);
    assert_eq!(u.elements.len(), 12);
}

#[test]
fn swapping_twice_restores_buffers() {
    let mut gu = ready_state();
    gu.draw_buffer.frame_buffer = 0x1000;
    gu.draw_buffer.disp_buffer = 0x8_8000;
    let before = gu;
    gu.sce_gu_swap_buffers(false);
    gu.sce_gu_swap_buffers(false);
    assert_eq!(gu.draw_buffer, before.draw_buffer);
    assert_eq!(gu.current_frame, before.current_frame);
}

#[test]
fn start_then_finish_returns_to_previous_context() {
    let mut gu = ready_state();
    gu.sce_gu_start(Context::Send, 0x0a00_0000);
    assert_eq!(gu.curr_context, Context::Send);
    gu.sce_gu_finish(0x4a00_0000);
    assert_eq!(gu.curr_context, Context::Direct);
}
