use libgfxinit::{FramebufferInfo, FramebufferState};

fn info(bytes_per_line: u32, bits_per_pixel: u8) -> FramebufferInfo {
    FramebufferInfo {
        base_addr: 0x1000,
        width: 1024,
        height: 768,
        bytes_per_line,
        bits_per_pixel,
    }
}

#[test]
fn stride_pixels_uses_bytes_per_line() {
    let info = FramebufferInfo {
        base_addr: 0x1000,
        width: 1024,
        height: 768,
        bytes_per_line: 4096,
        bits_per_pixel: 32,
    };
    assert_eq!(info.stride_pixels(), Some(1024));
}

#[test]
fn stride_pixels_without_bits_per_pixel_is_none() {
    assert_eq!(info(4096, 0).stride_pixels(), None);
    assert_eq!(info(0, 0).stride_pixels(), None);
}

#[test]
fn stride_pixels_rounds_partial_bytes_up() {
    // 24 bits take 3 bytes, 15 bits take 2, 1 bit takes a whole byte.
    assert_eq!(info(3072, 24).stride_pixels(), Some(1024));
    assert_eq!(info(2048, 15).stride_pixels(), Some(1024));
    assert_eq!(info(1000, 1).stride_pixels(), Some(1000));
    assert_eq!(info(u32::MAX, 255).stride_pixels(), None);
    assert_eq!(info(64, 255).stride_pixels(), Some(2));
}

#[test]
fn stride_pixels_rejects_partial_pixels() {
    assert_eq!(info(4098, 32).stride_pixels(), None);
    assert_eq!(info(3073, 24).stride_pixels(), None);
    assert_eq!(info(0, 32).stride_pixels(), Some(0));
}

#[test]
fn framebuffer_callback_records_last_info() {
    let mut state = FramebufferState::new();
    assert_eq!(state.take_framebuffer_info(), None);
    let accepted = state.fb_add_framebuffer_info_simple(0xfeed_0000, 800, 600, 3200, 32);
    assert_eq!(accepted, 1);
    assert_eq!(
        state.framebuffer_info(),
        Some(FramebufferInfo {
            base_addr: 0xfeed_0000,
            width: 800,
            height: 600,
            bytes_per_line: 3200,
            bits_per_pixel: 32,
        })
    );
}

#[test]
fn take_empties_the_store() {
    let mut state = FramebufferState::new();
    state.fb_add_framebuffer_info_simple(0x2000, 640, 480, 2560, 32);
    let expected = FramebufferInfo {
        base_addr: 0x2000,
        width: 640,
        height: 480,
        bytes_per_line: 2560,
        bits_per_pixel: 32,
    };
    assert_eq!(state.framebuffer_info(), Some(expected));
    assert_eq!(state.take_framebuffer_info(), Some(expected));
    assert_eq!(state.framebuffer_info(), None);
    assert_eq!(state.take_framebuffer_info(), None);
}

#[test]
fn last_announcement_wins() {
    let mut state = FramebufferState::new();
    state.fb_add_framebuffer_info_simple(0x2000, 640, 480, 2560, 32);
    state.fb_add_framebuffer_info_simple(0x3000, 1920, 1080, 7680, 32);
    assert_eq!(
        state.framebuffer_info(),
        Some(FramebufferInfo {
            base_addr: 0x3000,
            width: 1920,
            height: 1080,
            bytes_per_line: 7680,
            bits_per_pixel: 32,
        })
    );
    assert_eq!(state.framebuffer_info().unwrap().stride_pixels(), Some(1920));
}
