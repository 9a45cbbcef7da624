use porcelain::error::RenderError;
use porcelain::render::TextureHandle;
use porcelain::texture::{PixelFormat, TextureContext};

#[test]
fn register_rgba8_accepts_matching_buffer() {
    let mut tc = TextureContext::new();
    let pixels = [0u8; 16];

    let handle = tc.register_texture_rgba8(2, 2, &pixels).unwrap();
    assert_eq!(handle, TextureHandle { id: 1 });
    assert_eq!(tc.pending_count(), 1);

    let batch = tc.take_pending();
    assert_eq!(batch.len(), 1);
    assert_eq!(batch[0].handle, handle);
    assert_eq!(batch[0].width, 2);
    assert_eq!(batch[0].height, 2);
    assert_eq!(batch[0].format, PixelFormat::Rgba8);
    assert_eq!(batch[0].bytes.len(), 16);
    assert_eq!(tc.pending_count(), 0);
}

#[test]
fn register_rgba8_rejects_short_buffer() {
    let mut tc = TextureContext::new();
    let pixels = [0u8; 10];

    let result = tc.register_texture_rgba8(2, 2, &pixels);
    assert_eq!(result, Err(RenderError::TextureSizeMismatch));
    assert_eq!(tc.pending_count(), 0);

    // no handle was consumed by the failure
    let good = tc.register_texture_rgba8(2, 2, &[0u8; 16]).unwrap();
    assert_eq!(good, TextureHandle { id: 1 });
}

#[test]
fn register_rgb8_checks_three_bytes_per_pixel() {
    let mut tc = TextureContext::new();

    let ok = tc.register_texture_rgb8(2, 2, &[0u8; 12]);
    assert_eq!(ok, Ok(TextureHandle { id: 1 }));

    let bad = tc.register_texture_rgb8(2, 2, &[0u8; 16]);
    assert_eq!(bad, Err(RenderError::TextureSizeMismatch));
    assert_eq!(tc.pending_count(), 1);
}

#[test]
fn handles_increment_and_skip_the_white_sentinel() {
    let mut tc = TextureContext::new();

    let first = tc.register_texture_rgba8(1, 1, &[0u8; 4]).unwrap();
    let second = tc.register_texture_rgb8(1, 1, &[0u8; 3]).unwrap();
    assert_eq!(first, TextureHandle { id: 1 });
    assert_eq!(second, TextureHandle { id: 2 });
    assert_ne!(first, TextureHandle::white());

    let batch = tc.take_pending();
    assert_eq!(batch.len(), 2);
    assert_eq!(batch[0].handle, first);
    assert_eq!(batch[1].handle, second);

    // ids are never reused, even after the queue was drained
    let third = tc.register_texture_rgba8(1, 2, &[0u8; 8]).unwrap();
    assert_eq!(third, TextureHandle { id: 3 });
}

#[test]
fn pixel_formats_know_their_size() {
    assert_eq!(PixelFormat::Rgba8.bytes_per_pixel(), 4);
    assert_eq!(PixelFormat::Rgb8.bytes_per_pixel(), 3);
}

#[test]
fn zero_sized_texture_takes_empty_buffer() {
    let mut tc = TextureContext::new();
    let ok = tc.register_texture_rgba8(0, 4, &[]);
    assert_eq!(ok, Ok(TextureHandle { id: 1 }));
    let bad = tc.register_texture_rgba8(0, 4, &[0u8; 4]);
    assert_eq!(bad, Err(RenderError::TextureSizeMismatch));
}
