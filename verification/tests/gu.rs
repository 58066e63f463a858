use psp::sys::gu::{abgr, argb, rgba, State, TexturePixelFormat, VertexType};
use psp::sys::gu::{LogicalOperation, MipmapLevel, Primitive, BlendDst, CallbackId};

#[test]
fn abgr_packs_alpha_high_red_low() {
    assert_eq!(abgr(0x11, 0x22, 0x33, 0x44), 0x1122_3344);
    assert_eq!(abgr(0xff, 0, 0, 0), 0xff00_0000);
    assert_eq!(abgr(0, 0, 0, 0xff), 0x0000_00ff);
}

#[test]
fn argb_and_rgba_reorder_arguments() {
    assert_eq!(argb(0x11, 0x44, 0x33, 0x22), 0x1122_3344);
    assert_eq!(rgba(0x44, 0x33, 0x22, 0x11), 0x1122_3344);
    assert_eq!(rgba(0xff, 0x80, 0x01, 0xfe), abgr(0xfe, 0x01, 0x80, 0xff));
}

#[test]
fn packed_channels_read_back() {
    let c = rgba(12, 34, 56, 78);
    assert_eq!((c & 0xff) as u8, 12);
    assert_eq!(((c >> 8) & 0xff) as u8, 34);
    assert_eq!(((c >> 16) & 0xff) as u8, 56);
    assert_eq!((c >> 24) as u8, 78);
}

#[test]
fn num_weights_and_vertices_fields() {
    assert_eq!(VertexType::num_weights(1), 0);
    assert_eq!(VertexType::num_weights(2), 1 << 14);
    assert_eq!(VertexType::num_weights(8), 7 << 14);
    assert_eq!(VertexType::num_weights(9), 0);
    assert_eq!(VertexType::num_vertices(1), 0);
    assert_eq!(VertexType::num_vertices(4), 3 << 18);
    assert_eq!(VertexType::num_vertices(8), 7 << 18);
    assert_eq!(VertexType::num_vertices(10), 1 << 18);
}

#[test]
fn weight_and_vertex_constants_match_encoders() {
    let ws = [
        VertexType::WEIGHTS1, VertexType::WEIGHTS2, VertexType::WEIGHTS3, VertexType::WEIGHTS4,
        VertexType::WEIGHTS5, VertexType::WEIGHTS6, VertexType::WEIGHTS7, VertexType::WEIGHTS8,
    ];
    let vs = [
        VertexType::VERTICES1, VertexType::VERTICES2, VertexType::VERTICES3, VertexType::VERTICES4,
        VertexType::VERTICES5, VertexType::VERTICES6, VertexType::VERTICES7, VertexType::VERTICES8,
    ];
    for n in 1..=8u32 {
        assert_eq!(ws[(n - 1) as usize], VertexType::num_weights(n));
        assert_eq!(vs[(n - 1) as usize], VertexType::num_vertices(n));
    }
}

#[test]
fn vertex_type_bits() {
    let v = VertexType::from_bits_truncate(VertexType::TEXTURE_32BITF | VertexType::COLOR_8888);
    assert_eq!(v.bits(), 3 | (7 << 2));
    assert!(!v.is_empty());
    assert!(VertexType::empty().is_empty());
    let w = v.union(VertexType::from_bits_truncate(VertexType::VERTEX_32BITF));
    assert_eq!(w.bits(), 3 | (7 << 2) | (3 << 7));
    assert!(w.contains(v));
    assert!(!v.contains(w));
    assert_eq!(VertexType::from_bits_truncate(1 << 13).bits(), 0);
    assert_eq!(VertexType::from_bits_truncate(-1).bits(), VertexType::ALL_BITS);
}

#[test]
fn state_values_decode_back() {
    for v in 0..22u32 {
        let s = State::from_u32(v).unwrap();
        assert_eq!(s.to_u32(), v);
    }
    assert_eq!(State::from_u32(9), Some(State::Texture2D));
    assert_eq!(State::from_u32(21), Some(State::Fragment2X));
    assert_eq!(State::from_u32(22), None);
    assert_eq!(State::from_u32(u32::MAX), None);
}

#[test]
fn enum_values() {
    assert_eq!(TexturePixelFormat::PsmDxt5.to_u32(), 10);
    assert_eq!(TexturePixelFormat::Psm8888.to_u32(), 3);
    assert_eq!(LogicalOperation::SetAll.to_u32(), 15);
    assert_eq!(MipmapLevel::NoLevel.to_u32(), 0);
    assert_eq!(MipmapLevel::Level7.to_u32(), 7);
    assert_eq!(Primitive::Sprites.to_u32(), 6);
    assert_eq!(BlendDst::OneMinusDstAlpha.to_u32(), 5);
    assert_eq!(CallbackId::Finish.to_u32(), 4);
}
