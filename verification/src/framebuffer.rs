//! The framebuffer description handed over by the Ada `hires_fb` bridge, and
//! the store that keeps the last one announced.

use vstd::prelude::*;

verus! {

/// Framebuffer description passed by the Ada `hires_fb` bridge.
#[derive(Debug, Clone, Copy, PartialEq, Eq, Structural)]
pub struct FramebufferInfo {
    /// Physical address of the linear framebuffer.
    pub base_addr: usize,
    /// Horizontal visible pixels.
    pub width: u32,
    /// Vertical visible pixels.
    pub height: u32,
    /// Bytes between two adjacent scanlines.
    pub bytes_per_line: u32,
    /// Bits per pixel.  libgfxinit's coreboot `hires_fb` path currently passes
    /// 32 for XRGB8888-like linear framebuffer output.
    pub bits_per_pixel: u8,
}

/// Whole bytes that one pixel of `bits` bits occupies: `bits / 8`, rounded up.
pub open spec fn bytes_per_pixel(bits: u8) -> int {
    (bits + 7) / 8
}

impl FramebufferInfo {
    /// Pixels per scanline: `None` when there are no bits per pixel, or when
    /// the line stride is not a whole number of pixels.
    pub open spec fn pixels_per_line(self) -> Option<u32> {
        if self.bits_per_pixel == 0 {
            None
        } else if (self.bytes_per_line as int) % bytes_per_pixel(self.bits_per_pixel) != 0 {
            None
        } else {
            Some(((self.bytes_per_line as int) / bytes_per_pixel(self.bits_per_pixel)) as u32)
        }
    }

    /// Pixels per scanline, if the line stride is a whole number of pixels:
    /// a pixel takes `bits_per_pixel / 8` bytes, rounded up, and that must
    /// divide `bytes_per_line`.
    pub fn stride_pixels(self) -> (stride: Option<u32>)
        ensures
            stride == self.pixels_per_line(),
            self.bits_per_pixel == 0 ==> stride is None,
            self.bits_per_pixel != 0 ==> (stride is Some <==> (self.bytes_per_line as int) % ((
            self.bits_per_pixel as int + 7) / 8) == 0),
            stride matches Some(pixels) ==> self.bits_per_pixel != 0 && pixels as int == (
            self.bytes_per_line as int) / ((self.bits_per_pixel as int + 7) / 8),
    {
        if self.bits_per_pixel == 0 {
            return None;
        }
        let bits: u32 = self.bits_per_pixel as u32;
        let bytes_per_pixel: u32 = (bits + 7) / 8;
        if bytes_per_pixel == 0 || !self.bytes_per_line.is_multiple_of(bytes_per_pixel) {
            None
        } else {
            Some(self.bytes_per_line / bytes_per_pixel)
        }
    }
}

/// A line stride that is a whole number of pixels is that many pixels, and
/// whatever stride comes out times the pixel size gives back the line stride.
pub proof fn lemma_stride_pixels_exact(info: FramebufferInfo, pixels: u32)
    ensures
        info.bits_per_pixel != 0 && info.bytes_per_line == pixels * bytes_per_pixel(
            info.bits_per_pixel,
        ) ==> info.pixels_per_line() == Some(pixels),
        info.pixels_per_line() matches Some(stride) ==> stride * bytes_per_pixel(
            info.bits_per_pixel,
        ) == info.bytes_per_line,
{
    if info.bits_per_pixel != 0 {
        let b = bytes_per_pixel(info.bits_per_pixel);
        let n = info.bytes_per_line as int;
        assert(1 <= b <= 32);
        assert(n == (n / b) * b + n % b) by (nonlinear_arith)
            requires
                b > 0,
        ;
        if n == pixels * b {
            assert((pixels * b) % b == 0 && (pixels * b) / b == pixels) by (nonlinear_arith)
                requires
                    b > 0,
                    pixels >= 0,
            ;
        }
        assert(0 <= n / b <= n) by (nonlinear_arith)
            requires
                b >= 1,
                n >= 0,
        ;
    }
}

/// The framebuffer description that the Ada bridge announces with these
/// arguments.
pub open spec fn announced_info(
    fb_addr: usize,
    x_resolution: u32,
    y_resolution: u32,
    bytes_per_line: u32,
    bits_per_pixel: u8,
) -> FramebufferInfo {
    FramebufferInfo {
        base_addr: fb_addr,
        width: x_resolution,
        height: y_resolution,
        bytes_per_line,
        bits_per_pixel,
    }
}

/// The last framebuffer description announced by the Ada bridge, if any.
pub struct FramebufferState {
    last: Option<FramebufferInfo>,
}

impl View for FramebufferState {
    type V = Option<FramebufferInfo>;

    closed spec fn view(&self) -> Option<FramebufferInfo> {
        self.last
    }
}

/// What the store holds after an announcement: the announced description,
/// whatever it held before.
pub open spec fn after_announce(
    held: Option<FramebufferInfo>,
    info: FramebufferInfo,
) -> Option<FramebufferInfo> {
    Some(info)
}

/// What the store holds after the description was taken out: nothing.
pub open spec fn after_take(held: Option<FramebufferInfo>) -> Option<FramebufferInfo> {
    None
}

impl FramebufferState {
    /// An empty store: nothing has been announced yet.
    pub fn new() -> (state: Self)
        ensures
            state@ == None::<FramebufferInfo>,
    {
        FramebufferState { last: None }
    }

    /// The last announced description, left in place.
    pub fn framebuffer_info(&self) -> (info: Option<FramebufferInfo>)
        ensures
            info == self@,
    {
        self.last
    }

    /// The last announced description, taken out of the store.
    pub fn take_framebuffer_info(&mut self) -> (info: Option<FramebufferInfo>)
        ensures
            info == old(self)@,
            final(self)@ == after_take(old(self)@),
    {
        self.last.take()
    }

    /// Record the description that the Ada `hires_fb` bridge passes to its
    /// imported `fb_add_framebuffer_info_simple` callback.
    ///
    /// Returning non-zero tells the Ada side that the framebuffer was accepted.
    pub fn fb_add_framebuffer_info_simple(
        &mut self,
        fb_addr: usize,
        x_resolution: u32,
        y_resolution: u32,
        bytes_per_line: u32,
        bits_per_pixel: u8,
    ) -> (accepted: i32)
        ensures
            accepted == 1,
            final(self)@ == after_announce(
                old(self)@,
                announced_info(fb_addr, x_resolution, y_resolution, bytes_per_line, bits_per_pixel),
            ),
            final(self)@ == Some(
                FramebufferInfo {
                    base_addr: fb_addr,
                    width: x_resolution,
                    height: y_resolution,
                    bytes_per_line: bytes_per_line,
                    bits_per_pixel: bits_per_pixel,
                },
            ),
    {
        let info = FramebufferInfo {
            base_addr: fb_addr,
            width: x_resolution,
            height: y_resolution,
            bytes_per_line,
            bits_per_pixel,
        };
        self.last = Some(info);
        1
    }
}

/// The stride is counted in pixels of `bits_per_pixel / 8` bytes, rounded
/// up: with no bits per pixel there is none; otherwise there is one exactly
/// when that pixel size divides the line stride, and it is the quotient.
pub proof fn lemma_stride_pixels_pixel_size(info: FramebufferInfo)
    ensures
        info.bits_per_pixel == 0 ==> info.pixels_per_line() is None,
        info.bits_per_pixel != 0 ==> (info.pixels_per_line() is Some <==> (info.bytes_per_line as int)
            % ((info.bits_per_pixel as int + 7) / 8) == 0),
        info.bits_per_pixel != 0 && (info.bytes_per_line as int) % ((info.bits_per_pixel as int + 7)
            / 8) == 0 ==> info.pixels_per_line() == Some(
            ((info.bytes_per_line as int) / ((info.bits_per_pixel as int + 7) / 8)) as u32,
        ),
{
}

/// An announcement stores each argument in its own field, unchanged, and a
/// read or a take after it hands exactly that description back.
pub proof fn lemma_announce_keeps_arguments(
    held: Option<FramebufferInfo>,
    fb_addr: usize,
    x_resolution: u32,
    y_resolution: u32,
    bytes_per_line: u32,
    bits_per_pixel: u8,
)
    ensures
        after_announce(
            held,
            announced_info(fb_addr, x_resolution, y_resolution, bytes_per_line, bits_per_pixel),
        ) == Some(
            FramebufferInfo {
                base_addr: fb_addr,
                width: x_resolution,
                height: y_resolution,
                bytes_per_line: bytes_per_line,
                bits_per_pixel: bits_per_pixel,
            },
        ),
        announced_info(fb_addr, x_resolution, y_resolution, bytes_per_line, bits_per_pixel).base_addr
            == fb_addr,
        announced_info(fb_addr, x_resolution, y_resolution, bytes_per_line, bits_per_pixel).width
            == x_resolution,
        announced_info(fb_addr, x_resolution, y_resolution, bytes_per_line, bits_per_pixel).height
            == y_resolution,
        announced_info(
            fb_addr,
            x_resolution,
            y_resolution,
            bytes_per_line,
            bits_per_pixel,
        ).bytes_per_line == bytes_per_line,
        announced_info(
            fb_addr,
            x_resolution,
            y_resolution,
            bytes_per_line,
            bits_per_pixel,
        ).bits_per_pixel == bits_per_pixel,
{
}

/// A read after an announcement gives back the announced description, and so
/// does a take; after a take the store is empty, and a second take gives
/// nothing.
pub proof fn lemma_store_read_after_announce(held: Option<FramebufferInfo>, info: FramebufferInfo)
    ensures
        after_announce(held, info) == Some(info),
        after_take(after_announce(held, info)) == None::<FramebufferInfo>,
        after_take(after_take(held)) == None::<FramebufferInfo>,
{
}

/// An announcement replaces whatever was announced before it: two stores
/// that saw different histories agree after the same announcement.
pub proof fn lemma_store_last_announce_wins(
    first: Option<FramebufferInfo>,
    second: Option<FramebufferInfo>,
    info: FramebufferInfo,
)
    ensures
        after_announce(first, info) == after_announce(second, info),
{
}

} // verus!
