//! The texture registry.
//!
//! User code registers textures during the update phase; the GPU backend
//! must only be touched between phases. The registry therefore validates
//! each request, issues the handle at once, and queues the pixel data; the
//! orchestrator drains the queue and performs the backend uploads before
//! the next draw phase begins. Handle 0 stays reserved for the built-in
//! 1x1 white texture, so issued ids start at 1.

use vstd::prelude::*;

use crate::error::RenderError;
use crate::render::TextureHandle;

verus! {

/// Pixel layout of a registered texture.
#[derive(Clone, Copy, PartialEq, Eq, Structural, Debug)]
pub enum PixelFormat {
    Rgba8,
    Rgb8,
}

impl PixelFormat {
    /// Bytes per pixel: 4 for RGBA, 3 for RGB.
    pub open spec fn spec_bytes_per_pixel(self) -> int {
        match self {
            PixelFormat::Rgba8 => 4,
            PixelFormat::Rgb8 => 3,
        }
    }

    /// Bytes per pixel: 4 for RGBA, 3 for RGB.
    pub fn bytes_per_pixel(&self) -> (n: usize)
        ensures
            n == self.spec_bytes_per_pixel(),
    {
        match self {
            PixelFormat::Rgba8 => 4,
            PixelFormat::Rgb8 => 3,
        }
    }
}

/// One validated registration waiting for its backend upload: the issued
/// handle, the declared dimensions and format, and the pixel bytes, whose
/// length is known to match.
pub struct PendingTexture {
    pub handle: TextureHandle,
    pub width: u16,
    pub height: u16,
    pub format: PixelFormat,
    pub bytes: Vec<u8>,
}

/// The mathematical model of the registry: the next id to issue and the
/// queued registrations.
#[verifier::ext_equal]
pub ghost struct TextureContextView {
    pub next_texture_id: u64,
    pub pending: Seq<PendingTexture>,
}

impl TextureContextView {
    /// Well-formedness: ids are issued from 1 (0 is the white sentinel),
    /// every queued entry carries an already-issued id and a pixel buffer
    /// whose length matches its declared dimensions and format, and queued
    /// ids are strictly increasing, hence unique.
    pub open spec fn wf(self) -> bool {
        &&& 1 <= self.next_texture_id
        &&& forall|i: int|
            0 <= i < self.pending.len() ==> {
                let entry = #[trigger] self.pending[i];
                &&& 1 <= entry.handle.id < self.next_texture_id
                &&& entry.bytes@.len() == entry.width * entry.height
                    * entry.format.spec_bytes_per_pixel()
            }
        &&& forall|i: int, j: int|
            0 <= i < j < self.pending.len() ==> (#[trigger] self.pending[i]).handle.id < (
            #[trigger] self.pending[j]).handle.id
    }
}

/// The texture registry: validates registrations against their declared
/// size, issues opaque handles, and queues the uploads for the
/// orchestrator.
pub struct TextureContext {
    next_texture_id: u64,
    pending: Vec<PendingTexture>,
}

impl View for TextureContext {
    type V = TextureContextView;

    closed spec fn view(&self) -> TextureContextView {
        TextureContextView { next_texture_id: self.next_texture_id, pending: self.pending@ }
    }
}

impl TextureContext {
    /// A fresh registry: nothing queued, ids issued from 1.
    pub fn new() -> (tc: TextureContext)
        ensures
            tc@ == (TextureContextView { next_texture_id: 1u64, pending: Seq::<
                PendingTexture,
            >::empty() }),
            tc@.wf(),
    {
        let tc = TextureContext { next_texture_id: 1, pending: Vec::new() };
        proof {
            assert(tc@ =~= (TextureContextView { next_texture_id: 1u64, pending: Seq::<
                PendingTexture,
            >::empty() }));
        }
        tc
    }

    /// The shared registration step: validates the buffer length against
    /// width * height * bytes-per-pixel, and either queues the upload under
    /// a fresh handle or reports the mismatch with nothing changed.
    fn register(&mut self, width: u16, height: u16, buffer: &[u8], format: PixelFormat) -> (result:
        Result<TextureHandle, RenderError>)
        requires
            old(self)@.wf(),
            old(self)@.next_texture_id < u64::MAX,
        ensures
            final(self)@.wf(),
            final(self)@.next_texture_id <= old(self)@.next_texture_id + 1,
            buffer@.len() == width * height * format.spec_bytes_per_pixel() ==> {
                &&& result == Ok::<TextureHandle, RenderError>(TextureHandle {
                    id: old(self)@.next_texture_id,
                })
                &&& final(self)@.next_texture_id == old(self)@.next_texture_id + 1
                &&& final(self)@.pending.len() == old(self)@.pending.len() + 1
                &&& final(self)@.pending.last().handle == (TextureHandle {
                    id: old(self)@.next_texture_id,
                })
                &&& final(self)@.pending.last().width == width
                &&& final(self)@.pending.last().height == height
                &&& final(self)@.pending.last().format == format
                &&& final(self)@.pending.last().bytes@ == buffer@
                &&& forall|i: int|
                    0 <= i < old(self)@.pending.len() ==> final(self)@.pending[i] == old(
                        self,
                    )@.pending[i]
            },
            buffer@.len() != width * height * format.spec_bytes_per_pixel() ==> {
                &&& result == Err::<TextureHandle, RenderError>(RenderError::TextureSizeMismatch)
                &&& final(self)@ == old(self)@
            },
    {
        let bpp = format.bytes_per_pixel();
        proof {
            assert((width as int) * (height as int) <= 0xffff * 0xffff) by (nonlinear_arith)
                requires
                    0 <= width as int <= 0xffff,
                    0 <= height as int <= 0xffff,
            ;
            assert(((width as int) * (height as int)) * (bpp as int) <= 0xfffe0001 * 4)
                by (nonlinear_arith)
                requires
                    0 <= (width as int) * (height as int) <= 0xfffe0001,
                    0 <= bpp as int <= 4,
            ;
        }
        let expected: u64 = (width as u64) * (height as u64) * (bpp as u64);
        if (buffer.len() as u64) != expected {
            return Err(RenderError::TextureSizeMismatch);
        }
        let handle = TextureHandle { id: self.next_texture_id };
        self.next_texture_id = self.next_texture_id + 1;
        let bytes = vstd::slice::slice_to_vec(buffer);
        self.pending.push(PendingTexture { handle, width, height, format, bytes });
        Ok(handle)
    }

    /// Registers a texture of `width * height` RGBA pixels, 4 bytes each.
    /// Fails with a size mismatch, creating nothing, when the buffer
    /// length does not equal width * height * 4.
    pub fn register_texture_rgba8(&mut self, width: u16, height: u16, buffer: &[u8]) -> (result:
        Result<TextureHandle, RenderError>)
        requires
            old(self)@.wf(),
            old(self)@.next_texture_id < u64::MAX,
        ensures
            final(self)@.wf(),
            buffer@.len() == width * height * 4 ==> {
                &&& result == Ok::<TextureHandle, RenderError>(TextureHandle {
                    id: old(self)@.next_texture_id,
                })
                &&& final(self)@.next_texture_id == old(self)@.next_texture_id + 1
                &&& final(self)@.pending.len() == old(self)@.pending.len() + 1
                &&& final(self)@.pending.last().handle == (TextureHandle {
                    id: old(self)@.next_texture_id,
                })
                &&& final(self)@.pending.last().width == width
                &&& final(self)@.pending.last().height == height
                &&& final(self)@.pending.last().format == PixelFormat::Rgba8
                &&& final(self)@.pending.last().bytes@ == buffer@
                &&& forall|i: int|
                    0 <= i < old(self)@.pending.len() ==> final(self)@.pending[i] == old(
                        self,
                    )@.pending[i]
            },
            buffer@.len() != width * height * 4 ==> {
                &&& result == Err::<TextureHandle, RenderError>(RenderError::TextureSizeMismatch)
                &&& final(self)@ == old(self)@
            },
    {
        self.register(width, height, buffer, PixelFormat::Rgba8)
    }

    /// Registers a texture of `width * height` RGB pixels, 3 bytes each.
    /// Fails with a size mismatch, creating nothing, when the buffer
    /// length does not equal width * height * 3.
    pub fn register_texture_rgb8(&mut self, width: u16, height: u16, buffer: &[u8]) -> (result:
        Result<TextureHandle, RenderError>)
        requires
            old(self)@.wf(),
            old(self)@.next_texture_id < u64::MAX,
        ensures
            final(self)@.wf(),
            buffer@.len() == width * height * 3 ==> {
                &&& result == Ok::<TextureHandle, RenderError>(TextureHandle {
                    id: old(self)@.next_texture_id,
                })
                &&& final(self)@.next_texture_id == old(self)@.next_texture_id + 1
                &&& final(self)@.pending.len() == old(self)@.pending.len() + 1
                &&& final(self)@.pending.last().handle == (TextureHandle {
                    id: old(self)@.next_texture_id,
                })
                &&& final(self)@.pending.last().width == width
                &&& final(self)@.pending.last().height == height
                &&& final(self)@.pending.last().format == PixelFormat::Rgb8
                &&& final(self)@.pending.last().bytes@ == buffer@
                &&& forall|i: int|
                    0 <= i < old(self)@.pending.len() ==> final(self)@.pending[i] == old(
                        self,
                    )@.pending[i]
            },
            buffer@.len() != width * height * 3 ==> {
                &&& result == Err::<TextureHandle, RenderError>(RenderError::TextureSizeMismatch)
                &&& final(self)@ == old(self)@
            },
    {
        self.register(width, height, buffer, PixelFormat::Rgb8)
    }

    /// Number of registrations still waiting for their backend upload.
    pub fn pending_count(&self) -> (n: usize)
        ensures
            n == self@.pending.len(),
    {
        self.pending.len()
    }

    /// Hands the queued registrations, in registration order, to the
    /// orchestrator for upload, leaving the queue empty. Issued ids are
    /// not reused.
    pub fn take_pending(&mut self) -> (batch: Vec<PendingTexture>)
        ensures
            batch@ == old(self)@.pending,
            final(self)@.pending.len() == 0,
            final(self)@.next_texture_id == old(self)@.next_texture_id,
            old(self)@.wf() ==> final(self)@.wf(),
    {
        let mut batch: Vec<PendingTexture> = Vec::new();
        core::mem::swap(&mut batch, &mut self.pending);
        batch
    }
}

} // verus!
