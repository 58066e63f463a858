use psp::sys::gu::TexturePixelFormat;
use psp::vram_alloc::{
    get_memory_size, get_vram_allocator, vram_start_addr_zero, VramAllocatorSingleton,
};

#[test]
fn singleton_hands_out_allocator_once() {
    let mut singleton = VramAllocatorSingleton::new(0x20_0000);
    let first = get_vram_allocator(&mut singleton);
    assert!(first.is_ok());
    assert_eq!(first.unwrap().total_mem(), 0x20_0000);
    assert!(get_vram_allocator(&mut singleton).is_err());
    assert!(singleton.get_vram_alloc().is_none());
}

#[test]
fn get_vram_alloc_takes_the_allocator() {
    let mut singleton = VramAllocatorSingleton::new(1024);
    assert!(singleton.get_vram_alloc().is_some());
    assert!(singleton.get_vram_alloc().is_none());
}

#[test]
fn successive_allocations_are_adjacent() {
    let mut singleton = VramAllocatorSingleton::new(0x20_0000);
    let mut a = get_vram_allocator(&mut singleton).unwrap();
    let c1 = a.allocate(100);
    let c2 = a.allocate(28);
    let c3 = a.allocate(0);
    assert_eq!(c1.addr_from_zero(), 0);
    assert_eq!(c1.len(), 100);
    assert_eq!(c2.addr_from_zero(), 100);
    assert_eq!(c2.len(), 28);
    assert_eq!(c3.addr_from_zero(), 128);
    assert!(c3.is_empty());
    assert!(!c1.is_empty());
    assert_eq!(c2.addr_direct_to_vram(0x0400_0000), 0x0400_0064);
}

#[test]
fn free_all_restarts_at_zero() {
    let mut singleton = VramAllocatorSingleton::new(4096);
    let mut a = get_vram_allocator(&mut singleton).unwrap();
    let _ = a.allocate(4000);
    assert!(!a.can_alloc(97));
    assert!(a.can_alloc(96));
    a.free_all();
    assert!(a.can_alloc(4096));
    let c = a.allocate(16);
    assert_eq!(c.addr_from_zero(), 0);
}

#[test]
fn allocation_may_fill_vram_exactly() {
    let mut singleton = VramAllocatorSingleton::new(64);
    let mut a = get_vram_allocator(&mut singleton).unwrap();
    let c = a.allocate(64);
    assert_eq!(c.len(), 64);
    assert!(a.can_alloc(0));
    assert!(!a.can_alloc(1));
}

#[test]
fn alloc_sized_uses_type_size() {
    let mut singleton = VramAllocatorSingleton::new(4096);
    let mut a = get_vram_allocator(&mut singleton).unwrap();
    let c1 = a.alloc_sized::<u32>(10);
    assert_eq!(c1.len(), 40);
    let c2 = a.alloc_sized::<[u16; 3]>(2);
    assert_eq!(c2.addr_from_zero(), 40);
    assert_eq!(c2.len(), 12);
}

#[test]
fn alloc_texture_pixels_sizes() {
    let mut singleton = VramAllocatorSingleton::new(0x20_0000);
    let mut a = get_vram_allocator(&mut singleton).unwrap();
    let c1 = a.alloc_texture_pixels(512, 272, TexturePixelFormat::Psm8888);
    assert_eq!(c1.len(), 512 * 272 * 4);
    let c2 = a.alloc_texture_pixels(64, 64, TexturePixelFormat::PsmT4);
    assert_eq!(c2.addr_from_zero(), 512 * 272 * 4);
    assert_eq!(c2.len(), 2048);
}

#[test]
fn memory_size_per_format() {
    assert_eq!(get_memory_size(3, 5, TexturePixelFormat::PsmT4), 7);
    assert_eq!(get_memory_size(3, 5, TexturePixelFormat::PsmT8), 15);
    assert_eq!(get_memory_size(3, 5, TexturePixelFormat::Psm5650), 30);
    assert_eq!(get_memory_size(3, 5, TexturePixelFormat::Psm5551), 30);
    assert_eq!(get_memory_size(3, 5, TexturePixelFormat::Psm4444), 30);
    assert_eq!(get_memory_size(3, 5, TexturePixelFormat::PsmT16), 30);
    assert_eq!(get_memory_size(3, 5, TexturePixelFormat::Psm8888), 60);
    assert_eq!(get_memory_size(3, 5, TexturePixelFormat::PsmT32), 60);
    assert_eq!(get_memory_size(0, 5, TexturePixelFormat::Psm8888), 0);
}

#[test]
fn vram_counted_from_zero() {
    assert_eq!(vram_start_addr_zero(), 0);
}
