//! Renderer bookkeeping: device description, swapchain state and the
//! per-surface texture registry.

use std::collections::HashMap;
use vstd::prelude::*;
use vstd::slice::slice_to_vec;

use crate::error::CompositorError;
use crate::error::ErrorKind;

verus! {

/// `ash::vk::api_version_major`: bits 22..29 of a packed Vulkan version.
pub assume_specification[ ash::vk::api_version_major ](version: u32) -> (r: u32)
    ensures
        r == (version >> 22) & 0x7fu32,
;

/// `ash::vk::api_version_minor`: bits 12..22 of a packed Vulkan version.
pub assume_specification[ ash::vk::api_version_minor ](version: u32) -> (r: u32)
    ensures
        r == (version >> 12) & 0x3ffu32,
;

/// `ash::vk::api_version_patch`: the low 12 bits of a packed Vulkan version.
pub assume_specification[ ash::vk::api_version_patch ](version: u32) -> (r: u32)
    ensures
        r == version & 0xfffu32,
;

/// Description of the GPU a renderer runs on.
#[derive(Debug, Clone)]
pub struct RendererInfo {
    pub api_version: u32,
    pub device_name: String,
    pub vendor_id: u32,
    pub device_type: String,
}

impl RendererInfo {
    /// The (major, minor, patch) triple packed in `api_version`.
    pub open spec fn spec_api_version_triple(&self) -> (u32, u32, u32) {
        (
            (self.api_version >> 22) & 0x7fu32,
            (self.api_version >> 12) & 0x3ffu32,
            self.api_version & 0xfffu32,
        )
    }

    pub fn api_version_triple(&self) -> (t: (u32, u32, u32))
        ensures
            t == self.spec_api_version_triple(),
            t.0 <= 0x7f,
            t.1 <= 0x3ff,
            t.2 <= 0xfff,
    {
        let v: u32 = self.api_version;
        assert(((v >> 22) & 0x7fu32) <= 0x7f) by (bit_vector);
        assert(((v >> 12) & 0x3ffu32) <= 0x3ff) by (bit_vector);
        assert((v & 0xfffu32) <= 0xfff) by (bit_vector);
        (
            ash::vk::api_version_major(v),
            ash::vk::api_version_minor(v),
            ash::vk::api_version_patch(v),
        )
    }
}

/// Pixel layout of a client buffer as the GPU API names it.
#[derive(Clone, Copy, Debug, PartialEq, Eq, Structural)]
pub enum TextureFormat {
    B8G8R8A8Unorm,
    B8G8R8Unorm,
    R8G8B8A8Unorm,
    R8G8B8Unorm,
    /// Any other layout; it is sampled as `B8G8R8A8Unorm`.
    Other,
}

/// Pixel layout of a texture as the shared-memory protocol names it.
#[derive(Clone, Copy, Debug, PartialEq, Eq, Structural)]
pub enum ShmFormat {
    Argb8888,
    Xrgb8888,
    Rgba8888,
    Rgbx8888,
}

/// The texture layout that holds a buffer of the given format.
pub open spec fn shm_format_for(format: TextureFormat) -> ShmFormat {
    match format {
        TextureFormat::B8G8R8A8Unorm => ShmFormat::Argb8888,
        TextureFormat::B8G8R8Unorm => ShmFormat::Xrgb8888,
        TextureFormat::R8G8B8A8Unorm => ShmFormat::Rgba8888,
        TextureFormat::R8G8B8Unorm => ShmFormat::Rgbx8888,
        TextureFormat::Other => ShmFormat::Argb8888,
    }
}

/// The buffer format that a numeric Vulkan format code stands for.
pub open spec fn texture_format_of_code(code: i32) -> TextureFormat {
    if code == 44 {
        TextureFormat::B8G8R8A8Unorm
    } else if code == 30 {
        TextureFormat::B8G8R8Unorm
    } else if code == 37 {
        TextureFormat::R8G8B8A8Unorm
    } else if code == 23 {
        TextureFormat::R8G8B8Unorm
    } else {
        TextureFormat::Other
    }
}

impl TextureFormat {
    /// Decodes a numeric Vulkan format code.
    pub fn from_raw(code: i32) -> (f: Self)
        ensures
            f == texture_format_of_code(code),
    {
        if code == 44 {
            TextureFormat::B8G8R8A8Unorm
        } else if code == 30 {
            TextureFormat::B8G8R8Unorm
        } else if code == 37 {
            TextureFormat::R8G8B8A8Unorm
        } else if code == 23 {
            TextureFormat::R8G8B8Unorm
        } else {
            TextureFormat::Other
        }
    }

    /// The texture layout used for buffers of this format.
    pub fn shm_format(self) -> (f: ShmFormat)
        ensures
            f == shm_format_for(self),
    {
        match self {
            TextureFormat::B8G8R8A8Unorm => ShmFormat::Argb8888,
            TextureFormat::B8G8R8Unorm => ShmFormat::Xrgb8888,
            TextureFormat::R8G8B8A8Unorm => ShmFormat::Rgba8888,
            TextureFormat::R8G8B8Unorm => ShmFormat::Rgbx8888,
            TextureFormat::Other => ShmFormat::Argb8888,
        }
    }
}

/// The most recently uploaded content of one surface.
#[derive(Debug)]
pub struct SurfaceTexture {
    pub width: u32,
    pub height: u32,
    /// Bytes per row: four per pixel.
    pub stride: u32,
    pub format: ShmFormat,
    pub data: Vec<u8>,
}

/// Whether `texture` is exactly what an upload of `data` with the given
/// dimensions and format leaves behind.
pub open spec fn texture_holds(
    texture: SurfaceTexture,
    data: Seq<u8>,
    width: u32,
    height: u32,
    format: TextureFormat,
) -> bool {
    &&& texture.width == width
    &&& texture.height == height
    &&& texture.stride == width * 4
    &&& texture.format == shm_format_for(format)
    &&& texture.data@ == data
}

/// Dimensions and layout of a stored texture.
#[derive(Clone, Copy, Debug, PartialEq, Eq, Structural)]
pub struct TextureInfo {
    pub width: u32,
    pub height: u32,
    pub format: ShmFormat,
}

/// Largest width whose four-byte-per-pixel stride fits in 32 bits.
pub const MAX_TEXTURE_WIDTH: u32 = 0x3fff_ffff;

/// The texture registry and the per-swapchain resources that drawing needs.
pub struct CompositorRenderer {
    /// Textures by surface id.
    pub textures: HashMap<u32, SurfaceTexture>,
    /// Extent of the swapchain images; `(0, 0)` before initialization.
    pub swapchain_extent: (u32, u32),
    /// Number of swapchain images, each with a framebuffer and a command
    /// buffer; zero before initialization.
    pub image_count: u32,
}

impl CompositorRenderer {
    /// The textures currently held, by surface id.
    pub open spec fn textures_view(&self) -> Map<u32, SurfaceTexture> {
        self.textures@
    }

    /// A renderer with no textures and no swapchain resources.
    pub fn new() -> (r: Self)
        ensures
            r.textures_view() == Map::<u32, SurfaceTexture>::empty(),
            r.swapchain_extent == (0u32, 0u32),
            r.image_count == 0,
    {
        CompositorRenderer { textures: HashMap::new(), swapchain_extent: (0, 0), image_count: 0 }
    }

    /// Records the swapchain that frames are drawn for. Fails, changing
    /// nothing, when the swapchain has no image or an empty extent.
    pub fn initialize_swapchain(&mut self, image_count: u32, width: u32, height: u32) -> (r: Result<
        (),
        CompositorError,
    >)
        ensures
            r is Ok <==> image_count > 0 && width > 0 && height > 0,
            r is Ok ==> final(self).image_count == image_count && final(self).swapchain_extent == (
                width,
                height,
            ) && final(self).textures == old(self).textures,
            r is Err ==> *final(self) == *old(self) && r->Err_0.kind == ErrorKind::Graphics
                && r->Err_0.message@ == "Swapchain has no image to render to"@,
    {
        if image_count == 0 || width == 0 || height == 0 {
            return Err(CompositorError::graphics("Swapchain has no image to render to"));
        }
        self.image_count = image_count;
        self.swapchain_extent = (width, height);
        Ok(())
    }

    /// The surfaces drawn for a stacking order: those that have a
    /// texture, bottom first.
    pub open spec fn draw_list(&self, stacking: Seq<u32>) -> Seq<u32> {
        stacking.filter(|id: u32| self.textures_view().contains_key(id))
    }

    /// Records the draw work of one frame: one quad per surface of
    /// `stacking` that has a texture, back to front.
    ///
    /// Fails with a recoverable error when no swapchain resources exist or
    /// when `frame_index` or `image_index` names no swapchain image.
    pub fn render_frame(&self, frame_index: usize, image_index: u32, stacking: &Vec<u32>) -> (r:
        Result<Vec<u32>, CompositorError>)
        ensures
            r is Ok <==> frame_index < self.image_count && image_index < self.image_count,
            r is Ok ==> r->Ok_0@ == self.draw_list(stacking@),
            r is Err ==> r->Err_0.kind == ErrorKind::Runtime && r->Err_0.message@
                == if self.image_count == 0 {
                "Surface pipeline not initialized"@
            } else {
                "No framebuffer for the requested image"@
            },
    {
        if self.image_count == 0 {
            return Err(CompositorError::runtime("Surface pipeline not initialized"));
        }
        if frame_index >= self.image_count as usize || image_index >= self.image_count {
            return Err(CompositorError::runtime("No framebuffer for the requested image"));
        }
        Ok(self.render_surfaces(stacking))
    }

    /// The draw list for a stacking order.
    pub fn render_surfaces(&self, stacking: &Vec<u32>) -> (list: Vec<u32>)
        ensures
            list@ == self.draw_list(stacking@),
    {
        broadcast use vstd::std_specs::hash::group_hash_axioms;

        let ghost pred = |id: u32| self.textures_view().contains_key(id);
        let mut list: Vec<u32> = Vec::new();
        let mut i: usize = 0;
        proof {
            reveal(Seq::filter);
            assert(stacking@.take(0) =~= Seq::<u32>::empty());
        }
        while i < stacking.len()
            invariant
                i <= stacking.len(),
                pred == (|id: u32| self.textures_view().contains_key(id)),
                list@ == stacking@.take(i as int).filter(pred),
            decreases stacking.len() - i,
        {
            let id: u32 = stacking[i];
            proof {
                assert(stacking@.take(i + 1) =~= stacking@.take(i as int).push(id));
                stacking@.take(i as int).lemma_filter_push(id, pred);
            }
            if self.textures.contains_key(&id) {
                list.push(id);
            }
            i += 1;
        }
        proof {
            assert(stacking@.take(i as int) =~= stacking@);
        }
        list
    }

    /// Stores `buffer_data` as the texture of `surface_id`, replacing any
    /// earlier one. Fails, changing nothing, when a row of `width` pixels
    /// at four bytes each cannot be addressed in 32 bits.
    pub fn update_surface_texture(
        &mut self,
        surface_id: u32,
        buffer_data: &[u8],
        width: u32,
        height: u32,
        format: TextureFormat,
    ) -> (r: Result<(), CompositorError>)
        ensures
            r is Ok <==> width <= MAX_TEXTURE_WIDTH,
            r is Ok ==> {
                &&& final(self).textures_view().dom() == old(self).textures_view().dom().insert(
                    surface_id,
                )
                &&& texture_holds(
                    final(self).textures_view()[surface_id],
                    buffer_data@,
                    width,
                    height,
                    format,
                )
                &&& forall|other: u32|
                    other != surface_id && old(self).textures_view().contains_key(other)
                        ==> final(self).textures_view()[other] == old(self).textures_view()[other]
                &&& final(self).image_count == old(self).image_count
                &&& final(self).swapchain_extent == old(self).swapchain_extent
            },
            r is Err ==> *final(self) == *old(self) && r->Err_0.kind == ErrorKind::Graphics
                && r->Err_0.message@ == "Surface width exceeds the largest texture row"@,
    {
        broadcast use vstd::std_specs::hash::group_hash_axioms;

        if width > MAX_TEXTURE_WIDTH {
            return Err(CompositorError::graphics("Surface width exceeds the largest texture row"));
        }
        let texture = SurfaceTexture {
            width,
            height,
            stride: width * 4,
            format: format.shm_format(),
            data: slice_to_vec(buffer_data),
        };
        self.textures.insert(surface_id, texture);
        Ok(())
    }

    /// Drops the texture of `surface_id`, if there is one. Returns whether
    /// there was.
    pub fn remove_surface(&mut self, surface_id: u32) -> (removed: bool)
        ensures
            removed == old(self).textures_view().contains_key(surface_id),
            final(self).textures_view() == old(self).textures_view().remove(surface_id),
            final(self).image_count == old(self).image_count,
            final(self).swapchain_extent == old(self).swapchain_extent,
    {
        broadcast use vstd::std_specs::hash::group_hash_axioms;

        let removed = self.textures.remove(&surface_id);
        removed.is_some()
    }

    /// Dimensions and layout of the texture of `surface_id`.
    pub fn texture_info(&self, surface_id: u32) -> (info: Option<TextureInfo>)
        ensures
            info is Some <==> self.textures_view().contains_key(surface_id),
            info is Some ==> {
                let t = self.textures_view()[surface_id];
                info->Some_0 == (TextureInfo { width: t.width, height: t.height, format: t.format })
            },
    {
        broadcast use vstd::std_specs::hash::group_hash_axioms;

        match self.textures.get(&surface_id) {
            Some(t) => Some(TextureInfo { width: t.width, height: t.height, format: t.format }),
            None => None,
        }
    }
}

/// The presentation target that frames are acquired from.
#[derive(Clone, Copy, Debug, PartialEq, Eq, Structural)]
pub struct Swapchain {
    /// Handle of the presentation surface; never null.
    pub surface: u64,
    pub width: u32,
    pub height: u32,
    pub image_count: u32,
}

/// The renderer as the compositor sees it: a device description, at most
/// one swapchain and the texture registry.
///
/// Every operation may fail without the renderer becoming unusable: a
/// renderer without a swapchain still accepts texture uploads.
pub struct VulkanRenderer {
    pub info: RendererInfo,
    pub swapchain: Option<Swapchain>,
    pub compositor_renderer: Option<CompositorRenderer>,
    /// The image acquired by `begin_frame` and not yet presented.
    pub acquired_image: Option<u32>,
}

impl VulkanRenderer {
    /// The textures currently held, by surface id; empty when the
    /// renderer has no texture registry.
    pub open spec fn textures_view(&self) -> Map<u32, SurfaceTexture> {
        match self.compositor_renderer {
            Some(cr) => cr.textures_view(),
            None => Map::empty(),
        }
    }

    /// A renderer on the described device, with an empty texture registry
    /// and no swapchain.
    pub fn new(info: RendererInfo) -> (r: Self)
        ensures
            r.info == info,
            r.swapchain is None,
            r.acquired_image is None,
            r.compositor_renderer is Some,
            r.compositor_renderer->Some_0.image_count == 0,
            r.compositor_renderer->Some_0.swapchain_extent == (0u32, 0u32),
            r.textures_view() == Map::<u32, SurfaceTexture>::empty(),
    {
        VulkanRenderer {
            info,
            swapchain: None,
            compositor_renderer: Some(CompositorRenderer::new()),
            acquired_image: None,
        }
    }

    /// The renderer after it was bound to a presentation surface: the
    /// swapchain is replaced, no image is acquired, and the texture
    /// registry draws for the new swapchain. Textures are kept.
    pub open spec fn with_swapchain(
        r: Self,
        surface: u64,
        width: u32,
        height: u32,
        image_count: u32,
    ) -> Self {
        VulkanRenderer {
            swapchain: Some(Swapchain { surface, width, height, image_count }),
            acquired_image: None,
            compositor_renderer: match r.compositor_renderer {
                Some(cr) => Some(
                    CompositorRenderer { image_count, swapchain_extent: (width, height), ..cr },
                ),
                None => None,
            },
            ..r
        }
    }

    /// Whether a presentation surface with these properties can be bound.
    pub open spec fn swapchain_valid(surface: u64, width: u32, height: u32, image_count: u32)
        -> bool {
        surface != 0 && width > 0 && height > 0 && image_count > 0
    }

    /// Binds the renderer to a presentation surface.
    ///
    /// Fails, changing nothing, when the handle is null or the swapchain
    /// would have no image or an empty extent.
    pub fn initialize_swapchain(&mut self, surface: u64, width: u32, height: u32, image_count: u32)
        -> (r: Result<(), CompositorError>)
        ensures
            r is Ok <==> Self::swapchain_valid(surface, width, height, image_count),
            r is Ok ==> *final(self) == Self::with_swapchain(
                *old(self),
                surface,
                width,
                height,
                image_count,
            ),
            r is Ok ==> {
                &&& final(self).swapchain == Some(Swapchain { surface, width, height, image_count })
                &&& final(self).acquired_image is None
                &&& final(self).info == old(self).info
                &&& final(self).textures_view() == old(self).textures_view()
                &&& final(self).compositor_renderer is Some <==> old(self).compositor_renderer is Some
                &&& final(self).compositor_renderer is Some ==> final(self).compositor_renderer->Some_0.image_count == image_count
            },
            r is Err ==> *final(self) == *old(self) && r->Err_0.kind == ErrorKind::Graphics
                && r->Err_0.message@ == if surface == 0 {
                "Presentation surface is null"@
            } else {
                "Swapchain has no image to render to"@
            },
    {
        if surface == 0 {
            return Err(CompositorError::graphics("Presentation surface is null"));
        }
        if image_count == 0 || width == 0 || height == 0 {
            return Err(CompositorError::graphics("Swapchain has no image to render to"));
        }
        match &mut self.compositor_renderer {
            Some(cr) => {
                let _ = cr.initialize_swapchain(image_count, width, height);
            },
            None => {},
        }
        self.swapchain = Some(Swapchain { surface, width, height, image_count });
        self.acquired_image = None;
        Ok(())
    }

    /// Starts a frame on the image that the presentation engine handed
    /// out (`None` when it handed out none).
    ///
    /// Fails with a recoverable error, changing nothing, when there is no
    /// swapchain, no image was handed out, or the image is not one of the
    /// swapchain's.
    pub fn begin_frame(&mut self, acquired: Option<u32>) -> (r: Result<u32, CompositorError>)
        ensures
            r is Ok <==> old(self).swapchain is Some && acquired is Some && acquired->Some_0 < old(
                self,
            ).swapchain->Some_0.image_count,
            r is Ok ==> r->Ok_0 == acquired->Some_0 && final(self).acquired_image == acquired
                && final(self).swapchain == old(self).swapchain && final(self).compositor_renderer
                == old(self).compositor_renderer && final(self).info == old(self).info,
            r is Err ==> *final(self) == *old(self) && r->Err_0.kind == ErrorKind::Runtime
                && r->Err_0.message@ == if old(self).swapchain is None {
                "Swapchain not initialized"@
            } else if acquired is None {
                "No swapchain image could be acquired"@
            } else {
                "Acquired image is not part of the swapchain"@
            },
    {
        match self.swapchain {
            None => Err(CompositorError::runtime("Swapchain not initialized")),
            Some(sc) => match acquired {
                None => Err(CompositorError::runtime("No swapchain image could be acquired")),
                Some(index) => {
                    if index >= sc.image_count {
                        Err(CompositorError::runtime("Acquired image is not part of the swapchain"))
                    } else {
                        self.acquired_image = Some(index);
                        Ok(index)
                    }
                },
            },
        }
    }

    /// Records the draw work of one frame; see
    /// [`CompositorRenderer::render_frame`]. Fails with a recoverable
    /// error when the renderer has no texture registry.
    pub fn render_frame(&self, frame_index: usize, image_index: u32, stacking: &Vec<u32>) -> (r:
        Result<Vec<u32>, CompositorError>)
        ensures
            r is Ok <==> self.compositor_renderer is Some && frame_index
                < self.compositor_renderer->Some_0.image_count && image_index
                < self.compositor_renderer->Some_0.image_count,
            r is Ok ==> r->Ok_0@ == self.compositor_renderer->Some_0.draw_list(stacking@),
            r is Err ==> r->Err_0.kind == ErrorKind::Runtime && r->Err_0.message@
                == if self.compositor_renderer is None {
                "Compositor renderer not initialized"@
            } else if self.compositor_renderer->Some_0.image_count == 0 {
                "Surface pipeline not initialized"@
            } else {
                "No framebuffer for the requested image"@
            },
    {
        match &self.compositor_renderer {
            Some(cr) => cr.render_frame(frame_index, image_index, stacking),
            None => Err(CompositorError::runtime("Compositor renderer not initialized")),
        }
    }

    /// Replaces the texture of a surface with new buffer content; the
    /// same operation as [`Self::update_surface_texture`].
    pub fn update_surface_buffer(
        &mut self,
        surface_id: u32,
        buffer_data: &[u8],
        width: u32,
        height: u32,
        format: TextureFormat,
    ) -> (r: Result<(), CompositorError>)
        ensures
            r is Ok <==> old(self).compositor_renderer is None || width <= MAX_TEXTURE_WIDTH,
            r is Ok ==> Self::upload_effect(
                *old(self),
                *final(self),
                surface_id,
                buffer_data@,
                width,
                height,
                format,
            ),
            r is Err ==> *final(self) == *old(self) && r->Err_0.kind == ErrorKind::Graphics
                && r->Err_0.message@ == "Surface width exceeds the largest texture row"@,
    {
        self.update_surface_texture(surface_id, buffer_data, width, height, format)
    }

    /// What a successful upload changes: the texture of `surface_id`, and
    /// nothing else. A renderer without a texture registry changes
    /// nothing at all.
    pub open spec fn upload_effect(
        before: Self,
        after: Self,
        surface_id: u32,
        data: Seq<u8>,
        width: u32,
        height: u32,
        format: TextureFormat,
    ) -> bool {
        &&& after.info == before.info
        &&& after.swapchain == before.swapchain
        &&& after.acquired_image == before.acquired_image
        &&& before.compositor_renderer is None ==> after.compositor_renderer is None
        &&& before.compositor_renderer is Some ==> {
            &&& after.compositor_renderer is Some
            &&& after.compositor_renderer->Some_0.image_count
                == before.compositor_renderer->Some_0.image_count
            &&& after.compositor_renderer->Some_0.swapchain_extent
                == before.compositor_renderer->Some_0.swapchain_extent
            &&& after.textures_view().dom() == before.textures_view().dom().insert(surface_id)
            &&& texture_holds(after.textures_view()[surface_id], data, width, height, format)
            &&& forall|other: u32|
                other != surface_id && before.textures_view().contains_key(other)
                    ==> after.textures_view()[other] == before.textures_view()[other]
        }
    }

    /// What a removal changes: the texture of `surface_id` is gone, and
    /// nothing else differs.
    pub open spec fn removal_effect(before: Self, after: Self, surface_id: u32) -> bool {
        &&& after.info == before.info
        &&& after.swapchain == before.swapchain
        &&& after.acquired_image == before.acquired_image
        &&& after.textures_view() == before.textures_view().remove(surface_id)
        &&& after.compositor_renderer is Some <==> before.compositor_renderer is Some
        &&& after.compositor_renderer is Some ==> {
            &&& after.compositor_renderer->Some_0.image_count
                == before.compositor_renderer->Some_0.image_count
            &&& after.compositor_renderer->Some_0.swapchain_extent
                == before.compositor_renderer->Some_0.swapchain_extent
        }
    }

    /// Whether an upload of a row of `width` pixels is accepted.
    pub open spec fn accepts_width(&self, width: u32) -> bool {
        self.compositor_renderer is None || width <= MAX_TEXTURE_WIDTH
    }

    /// Stores `buffer_data` as the texture of `surface_id`.
    ///
    /// A renderer without a texture registry accepts and ignores the
    /// upload. Otherwise the upload fails, changing nothing, exactly when
    /// `width` exceeds [`MAX_TEXTURE_WIDTH`].
    pub fn update_surface_texture(
        &mut self,
        surface_id: u32,
        buffer_data: &[u8],
        width: u32,
        height: u32,
        format: TextureFormat,
    ) -> (r: Result<(), CompositorError>)
        ensures
            r is Ok <==> old(self).compositor_renderer is None || width <= MAX_TEXTURE_WIDTH,
            r is Ok ==> Self::upload_effect(
                *old(self),
                *final(self),
                surface_id,
                buffer_data@,
                width,
                height,
                format,
            ),
            r is Err ==> *final(self) == *old(self) && r->Err_0.kind == ErrorKind::Graphics
                && r->Err_0.message@ == "Surface width exceeds the largest texture row"@,
    {
        match &mut self.compositor_renderer {
            Some(cr) => cr.update_surface_texture(surface_id, buffer_data, width, height, format),
            None => Ok(()),
        }
    }

    /// Drops the texture of `surface_id`, if there is one. Never fails:
    /// removing a texture that does not exist changes nothing.
    pub fn remove_surface(&mut self, surface_id: u32) -> (r: Result<(), CompositorError>)
        ensures
            r is Ok,
            Self::removal_effect(*old(self), *final(self), surface_id),
    {
        match &mut self.compositor_renderer {
            Some(cr) => {
                let _ = cr.remove_surface(surface_id);
            },
            None => {
                assert(self.textures_view().remove(surface_id) =~= self.textures_view());
            },
        }
        Ok(())
    }

    /// Finishes the frame started by `begin_frame`. `presented` says
    /// whether the presentation engine accepted the image.
    ///
    /// Without a swapchain or a texture registry there is nothing to
    /// present and the call succeeds. Otherwise it fails with a
    /// recoverable error exactly when the image was not accepted. The
    /// acquired image is given up either way.
    pub fn end_frame(&mut self, presented: bool) -> (r: Result<(), CompositorError>)
        ensures
            r is Ok <==> old(self).swapchain is None || old(self).compositor_renderer is None
                || presented,
            r is Err ==> r->Err_0.kind == ErrorKind::Runtime && r->Err_0.message@
                == "Presentation of the frame failed"@,
            final(self).acquired_image is None,
            final(self).swapchain == old(self).swapchain,
            final(self).compositor_renderer == old(self).compositor_renderer,
            final(self).info == old(self).info,
    {
        self.acquired_image = None;
        if self.swapchain.is_none() || self.compositor_renderer.is_none() {
            return Ok(());
        }
        if presented {
            Ok(())
        } else {
            Err(CompositorError::runtime("Presentation of the frame failed"))
        }
    }

    /// The description of the device this renderer runs on.
    pub fn get_info(&self) -> (info: RendererInfo)
        ensures
            info == self.info,
    {
        RendererInfo {
            api_version: self.info.api_version,
            device_name: self.info.device_name.clone(),
            vendor_id: self.info.vendor_id,
            device_type: self.info.device_type.clone(),
        }
    }

    /// Dimensions and layout of the texture of `surface_id`.
    pub fn texture_info(&self, surface_id: u32) -> (info: Option<TextureInfo>)
        ensures
            info is Some <==> self.textures_view().contains_key(surface_id),
            info is Some ==> {
                let t = self.textures_view()[surface_id];
                info->Some_0 == (TextureInfo { width: t.width, height: t.height, format: t.format })
            },
    {
        match &self.compositor_renderer {
            Some(cr) => cr.texture_info(surface_id),
            None => None,
        }
    }
}

/// An upload followed by a query of the same surface returns the uploaded
/// dimensions and the texture layout that belongs to the uploaded format.
pub proof fn lemma_upload_then_query(
    before: VulkanRenderer,
    after: VulkanRenderer,
    surface_id: u32,
    data: Seq<u8>,
    width: u32,
    height: u32,
    format: TextureFormat,
)
    requires
        before.compositor_renderer is Some,
        VulkanRenderer::upload_effect(before, after, surface_id, data, width, height, format),
    ensures
        after.textures_view().contains_key(surface_id),
        after.textures_view()[surface_id].width == width,
        after.textures_view()[surface_id].height == height,
        after.textures_view()[surface_id].format == shm_format_for(format),
        after.textures_view()[surface_id].data@ == data,
{
    assert(before.textures_view().dom().insert(surface_id).contains(surface_id));
}

/// After a removal the surface has no texture, whatever was uploaded
/// before, and removing it again changes nothing.
pub proof fn lemma_remove_then_query(textures: Map<u32, SurfaceTexture>, surface_id: u32)
    ensures
        !textures.remove(surface_id).contains_key(surface_id),
        textures.remove(surface_id).remove(surface_id) == textures.remove(surface_id),
{
    assert(textures.remove(surface_id).remove(surface_id) =~= textures.remove(surface_id));
}

} // verus!
