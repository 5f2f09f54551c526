//! Texture objects and their construction.

use core::marker::PhantomData;
use vstd::prelude::*;

use crate::error::Error;
use crate::sys::gl::balance;
use crate::sys::gl::extends;
use crate::sys::gl::issued;
use crate::sys::gl::lemma_balance_add;
use crate::sys::gl::lemma_balance_neutral;
use crate::sys::gl::lemma_balance_push;
use crate::sys::gl::lemma_continued;
use crate::sys::gl::lemma_issued;
use crate::sys::gl::verdict;
use crate::sys::gl::Gl;
use crate::sys::gl::Op;
use crate::sys::gl::OpOf;
use crate::sys::kinds::Func;
use crate::sys::kinds::TextureCompareMode;
use crate::sys::kinds::TextureFilter;
use crate::sys::kinds::TextureFilterType;
use crate::sys::kinds::TextureInternalFormat;
use crate::sys::kinds::TexturePixelFormat;
use crate::sys::kinds::TextureTarget;
use crate::sys::kinds::TextureWrap;
use crate::sys::kinds::Type;

verus! {

/// Information about an image to be used as a texture.
#[derive(Clone, Copy, Debug)]
pub struct TextureInfo {
    /// The texture's width.
    pub width: u32,
    /// The texture's height.
    pub height: u32,
    /// The texture's internal format.
    pub intern_format: TextureInternalFormat,
    /// The texture's pixel format.
    pub pixel_format: TexturePixelFormat,
    /// The texture's color format/color channel type.
    pub color_format: Type,
}

/// An image for one layer of an array texture, or the reason why the
/// caller could not supply it.
pub type Layer = Result<(Vec<u8>, TextureInfo), String>;

/// The filter used when a texture is minified.
pub open spec fn minify_filter(mipmaps: bool) -> TextureFilter {
    if mipmaps {
        TextureFilter::LinearMipmapLinear
    } else {
        TextureFilter::Linear
    }
}

/// The operations that set the state of a freshly bound texture before
/// it is populated.
pub open spec fn pre_state<G: Gl>(target: TextureTarget, mipmaps: bool) -> Seq<OpOf<G>> {
    Seq::<OpOf<G>>::empty().push(
        Op::TextureFilter {
            target,
            ty: TextureFilterType::Magnify,
            filter: TextureFilter::Linear,
        },
    ).push(
        Op::TextureFilter {
            target,
            ty: TextureFilterType::Minimize,
            filter: minify_filter(mipmaps),
        },
    ).push(Op::TextureWrap { target, wrap: TextureWrap::ClampToEdge }).push(
        Op::PixelUnpackAlignment { alignment: 1 },
    )
}

/// The operations that follow the successful population of a bound
/// texture.
pub open spec fn post_state<G: Gl>(target: TextureTarget, mipmaps: bool) -> Seq<OpOf<G>> {
    if mipmaps {
        Seq::<OpOf<G>>::empty().push(Op::GenerateMipmaps { target })
    } else {
        Seq::<OpOf<G>>::empty()
    }
}

/// The operations that create a texture, bind it and set its state.
pub open spec fn opening<G: Gl>(
    texture: G::Texture,
    target: TextureTarget,
    mipmaps: bool,
) -> Seq<OpOf<G>> {
    Seq::<OpOf<G>>::empty().push(Op::CreateTexture { created: Ok(texture) }).push(
        Op::BindTexture { target, texture: Some(texture) },
    ) + pre_state::<G>(target, mipmaps)
}

/// The operations that conclude the construction of a texture: after a
/// successful population the mipmaps are generated, if asked for, and
/// the texture is unbound; after a failed one the texture is unbound
/// and deleted.
pub open spec fn closing<G: Gl>(
    texture: G::Texture,
    target: TextureTarget,
    mipmaps: bool,
    populated: bool,
) -> Seq<OpOf<G>> {
    if populated {
        post_state::<G>(target, mipmaps).push(Op::BindTexture { target, texture: None })
    } else {
        Seq::<OpOf<G>>::empty().push(Op::BindTexture { target, texture: None }).push(
            Op::DeleteTexture { texture },
        )
    }
}

/// The operations of the whole construction of a texture, with the
/// operations that populate it in the middle.
pub open spec fn building<G: Gl>(
    texture: G::Texture,
    target: TextureTarget,
    mipmaps: bool,
    populating: Seq<OpOf<G>>,
    populated: bool,
) -> Seq<OpOf<G>> {
    opening::<G>(texture, target, mipmaps) + populating + closing::<G>(
        texture,
        target,
        mipmaps,
        populated,
    )
}

/// The texture that the first of the given operations created, if any.
pub open spec fn created<G: Gl>(issued: Seq<OpOf<G>>) -> Option<G::Texture> {
    if issued.len() > 0 {
        match issued[0] {
            Op::CreateTexture { created: Ok(texture) } => Some(texture),
            _ => None,
        }
    } else {
        None
    }
}

/// The operation that refuses to create a texture.
pub open spec fn refusal<G: Gl>(cause: G::Error) -> Seq<OpOf<G>> {
    Seq::<OpOf<G>>::empty().push(Op::CreateTexture { created: Err(cause) })
}

/// The operation that hands an image for a 2D texture to the device.
pub open spec fn image_2d<G: Gl>(
    target: TextureTarget,
    pixels: Option<Seq<u8>>,
    info: TextureInfo,
    outcome: Result<(), G::Error>,
) -> OpOf<G> {
    Op::TextureImage2d {
        target,
        internal_format: info.intern_format,
        pixel_format: info.pixel_format,
        channel_type: info.color_format,
        w: info.width,
        h: info.height,
        pixels,
        outcome,
    }
}

/// The description of a depth map of the given size.
pub open spec fn depth_info(width: u32, height: u32) -> TextureInfo {
    TextureInfo {
        width,
        height,
        intern_format: TextureInternalFormat::Depth,
        pixel_format: TexturePixelFormat::Depth,
        color_format: Type::Float,
    }
}

/// The operations that populate a depth map: the comparison against a
/// reference is set up, then storage is allocated and left undefined.
pub open spec fn depth_map_population<G: Gl>(
    width: u32,
    height: u32,
    outcome: Result<(), G::Error>,
) -> Seq<OpOf<G>> {
    Seq::<OpOf<G>>::empty().push(
        Op::TextureCompareMode {
            target: TextureTarget::Texture2D,
            mode: TextureCompareMode::RefToTexture,
        },
    ).push(Op::TextureCompareFunc { target: TextureTarget::Texture2D, func: Func::Greater }).push(
        image_2d::<G>(TextureTarget::Texture2D, None, depth_info(width, height), outcome),
    )
}

/// The operation that allocates the storage of an array texture of
/// `count` layers, in the formats of `info`.
pub open spec fn image_3d<G: Gl>(
    width: u32,
    height: u32,
    count: u32,
    info: TextureInfo,
    outcome: Result<(), G::Error>,
) -> OpOf<G> {
    Op::TextureImage3d {
        target: TextureTarget::Texture2DArray,
        internal_format: info.intern_format,
        pixel_format: info.pixel_format,
        channel_type: info.color_format,
        w: width,
        h: height,
        count,
        pixels: None,
        outcome,
    }
}

/// The operation that hands the image of the layer with the given
/// index to the device.
pub open spec fn upload<G: Gl>(
    target: TextureTarget,
    index: u32,
    pixels: Seq<u8>,
    info: TextureInfo,
    outcome: Result<(), G::Error>,
) -> OpOf<G> {
    Op::TextureSubImage3d {
        target,
        pixel_format: info.pixel_format,
        channel_type: info.color_format,
        x: 0,
        y: 0,
        z: index,
        w: info.width,
        h: info.height,
        pixels,
        outcome,
    }
}

/// Whether an image of the given description fits the given bounds.
pub open spec fn fits(info: TextureInfo, width: u32, height: u32) -> bool {
    info.width <= width && info.height <= height
}

/// Whether a layer was supplied and fits the given bounds.
pub open spec fn usable(layer: Layer, width: u32, height: u32) -> bool {
    match layer {
        Ok((_, info)) => fits(info, width, height),
        Err(_) => false,
    }
}

/// Whether each of the first `count` layers was supplied and fits the
/// given bounds.
pub open spec fn all_usable(layers: Seq<Layer>, width: u32, height: u32, count: nat) -> bool {
    forall|i: int| 0 <= i < count ==> usable(#[trigger] layers[i], width, height)
}

/// The pixels of a layer that was supplied.
pub open spec fn pixels_of(layer: Layer) -> Seq<u8> {
    match layer {
        Ok((pixels, _)) => pixels@,
        Err(_) => Seq::empty(),
    }
}

/// The description of a layer that was supplied.
pub open spec fn info_of(layer: Layer) -> TextureInfo
    recommends
        layer is Ok,
{
    layer->Ok_0.1
}

/// The operations that hand the first `count` layers to the device,
/// each accepted, in order.
pub open spec fn uploads<G: Gl>(layers: Seq<Layer>, count: nat) -> Seq<OpOf<G>>
    recommends
        count <= layers.len(),
{
    Seq::new(
        count,
        |i: int|
            upload::<G>(
                TextureTarget::Texture2DArray,
                i as u32,
                pixels_of(layers[i]),
                info_of(layers[i]),
                Ok(()),
            ),
    )
}

/// The operations that hand layers to the device, given the result of
/// handing them over: every layer up to the first one that could not
/// be supplied, does not fit or was refused by the device, the refused
/// one included.
pub open spec fn layer_ops<G: Gl>(layers: Seq<Layer>, result: Result<(), Error<G::Error>>) -> Seq<
    OpOf<G>,
> {
    match result {
        Ok(_) => uploads::<G>(layers, layers.len()),
        Err(error) => match error {
            Error::Image { index, message } => uploads::<G>(layers, index as nat),
            Error::ImageTooLarge { index } => uploads::<G>(layers, index as nat),
            Error::PopulateTexture3d { index, cause } => uploads::<G>(layers, index as nat).push(
                upload::<G>(
                    TextureTarget::Texture2DArray,
                    index as u32,
                    pixels_of(layers[index as int]),
                    info_of(layers[index as int]),
                    Err(cause),
                ),
            ),
            _ => Seq::empty(),
        },
    }
}

/// Whether the result of handing layers to the device is the one that
/// the layers and the given bounds call for: success only if every
/// layer was supplied and fits, and else the failure of the first layer
/// that stopped the work.
pub open spec fn layers_checked<E>(
    layers: Seq<Layer>,
    width: u32,
    height: u32,
    result: Result<(), Error<E>>,
) -> bool {
    match result {
        Ok(_) => all_usable(layers, width, height, layers.len()),
        Err(error) => match error {
            Error::Image { index, message } => index < layers.len() && all_usable(
                layers,
                width,
                height,
                index as nat,
            ) && layers[index as int] == Err::<(Vec<u8>, TextureInfo), String>(message),
            Error::ImageTooLarge { index } => index < layers.len() && all_usable(
                layers,
                width,
                height,
                index as nat,
            ) && layers[index as int] is Ok && !usable(layers[index as int], width, height),
            Error::PopulateTexture3d { index, cause } => index < layers.len() && all_usable(
                layers,
                width,
                height,
                (index + 1) as nat,
            ),
            _ => false,
        },
    }
}

/// What the device answered to the image of a 2D texture, given the
/// result of populating the texture.
pub open spec fn device_outcome<E>(result: Result<(), Error<E>>) -> Result<(), E> {
    match result {
        Ok(()) => Ok(()),
        Err(error) => match error {
            Error::PopulateTexture { cause } => Err(cause),
            _ => Ok(()),
        },
    }
}

/// Populate the currently bound texture with the given image data.
fn populate_texture<G: Gl>(
    context: &mut G,
    target: TextureTarget,
    data: &[u8],
    info: &TextureInfo,
) -> (result: Result<(), Error<G::Error>>)
    ensures
        final(context).journal() == old(context).journal().push(
            image_2d::<G>(target, Some(data@), *info, device_outcome(result)),
        ),
        result is Err ==> result->Err_0 is PopulateTexture,
{
    let outcome = context.set_texture_image_2d(
        target,
        info.intern_format,
        info.pixel_format,
        info.color_format,
        info.width,
        info.height,
        Some(data),
    );
    let result = match outcome {
        Ok(()) => Ok(()),
        Err(cause) => Err(Error::PopulateTexture { cause }),
    };
    result
}

/// Populate one layer of the currently bound array texture with the
/// given image data.
fn populate_3d_texture<G: Gl>(
    context: &mut G,
    idx: u32,
    target: TextureTarget,
    data: &[u8],
    info: &TextureInfo,
) -> (result: Result<(), G::Error>)
    ensures
        final(context).journal() == old(context).journal().push(
            upload::<G>(target, idx, data@, *info, verdict(result)),
        ),
{
    let x: u32 = 0;
    let y: u32 = 0;
    let z = idx;
    context.set_texture_sub_image_3d(
        target,
        info.pixel_format,
        info.color_format,
        x,
        y,
        z,
        info.width,
        info.height,
        data,
    )
}

/// Builder infrastructure for a texture.
///
/// A builder collects the settings that the textures it creates have in
/// common; the textures are created in contexts of the kind `G`.
pub struct Builder<G: Gl> {
    /// The kind of context that textures are created in.
    context: PhantomData<G>,
    /// Whether or not to create mipmaps.
    mipmaps: bool,
}

impl<G: Gl> Builder<G> {
    /// Whether textures are created with mipmaps.
    pub closed spec fn mipmaps(&self) -> bool {
        self.mipmaps
    }

    /// Set whether or not to use mipmaps for the texture.
    pub fn set_mipmaps(self, mipmaps: bool) -> (builder: Self)
        ensures
            builder.mipmaps() == mipmaps,
    {
        Builder { context: PhantomData, mipmaps }
    }

    /// Set the kind of context that textures are created in: that of
    /// the given context. The settings made so far are kept.
    pub fn set_context(self, context: &G) -> (builder: Self)
        ensures
            builder.mipmaps() == self.mipmaps(),
    {
        self
    }
}

impl<G: Gl> Builder<G> {
    /// Apply a certain texture state to the currently bound texture
    /// before it is being populated.
    ///
    /// Note that this function modifies global state and won't reset
    /// it. The modus operandi here is for everything that is required
    /// to be set unconditionally and if everybody does that there is no
    /// need to set and restore.
    fn apply_pre_texture_state(&self, texture: &Texture<G>, context: &mut G)
        ensures
            final(context).journal() == old(context).journal() + pre_state::<G>(
                texture.target(),
                self.mipmaps(),
            ),
    {
        let target = texture.target();
        context.set_texture_filter(target, TextureFilterType::Magnify, TextureFilter::Linear);
        let filter = if self.mipmaps {
            TextureFilter::LinearMipmapLinear
        } else {
            TextureFilter::Linear
        };
        context.set_texture_filter(target, TextureFilterType::Minimize, filter);
        context.set_texture_wrap(target, TextureWrap::ClampToEdge);
        context.set_pixel_unpack_alignment(1);
    }

    /// Apply a certain texture state to the currently bound texture
    /// after it has been populated.
    fn apply_post_texture_state(&self, texture: &Texture<G>, context: &mut G)
        ensures
            final(context).journal() == old(context).journal() + post_state::<G>(
                texture.target(),
                self.mipmaps(),
            ),
    {
        let target = texture.target();
        if self.mipmaps {
            context.generate_mipmaps(target);
        }
    }

    /// Create a texture object for the given target, bind it and set
    /// its state.
    fn open(&self, target: TextureTarget, context: &mut G) -> (result: Result<
        Texture<G>,
        G::Error,
    >)
        ensures
            match result {
                Ok(texture) => texture.target() == target
                    && final(context).journal() == old(context).journal() + opening::<G>(
                    texture@,
                    target,
                    self.mipmaps(),
                ),
                Err(cause) => final(context).journal() == old(context).journal() + refusal::<G>(
                    cause,
                ),
            },
    {
        let texture: Texture<G> = match context.create_texture() {
            Ok(texture) => Texture { texture, target },
            Err(cause) => {
                return Err(cause);
            },
        };
        texture.bind(context);
        self.apply_pre_texture_state(&texture, context);
        Ok(texture)
    }

    /// Conclude the construction of a bound texture: after a successful
    /// population generate the mipmaps, if asked for, and unbind the
    /// texture; after a failed one unbind and delete it.
    fn close(&self, texture: Texture<G>, populated: bool, context: &mut G) -> (result: Option<
        Texture<G>,
    >)
        ensures
            final(context).journal() == old(context).journal() + closing::<G>(
                texture@,
                texture.target(),
                self.mipmaps(),
                populated,
            ),
            populated ==> result == Some(texture),
            !populated ==> result is None,
    {
        if populated {
            self.apply_post_texture_state(&texture, context);
        }
        texture.unbind(context);
        let result = if populated {
            Some(texture)
        } else {
            texture.release(context);
            None
        };
        result
    }

    /// Whether `result` and the operations issued, `issued`, are those
    /// of the construction of a depth map of the given size.
    pub open spec fn depth_map_built(
        &self,
        width: u32,
        height: u32,
        issued: Seq<OpOf<G>>,
        result: Result<Texture<G>, Error<G::Error>>,
    ) -> bool {
        let target = TextureTarget::Texture2D;
        match result {
            Ok(texture) => texture.target() == target && issued == building::<G>(
                texture@,
                target,
                self.mipmaps(),
                depth_map_population::<G>(width, height, Ok(())),
                true,
            ),
            Err(Error::CreateTexture { cause }) => issued == refusal::<G>(cause),
            Err(Error::DepthMapTexture { cause }) => match created::<G>(issued) {
                Some(texture) => issued == building::<G>(
                    texture,
                    target,
                    self.mipmaps(),
                    depth_map_population::<G>(width, height, Err(cause)),
                    false,
                ),
                None => false,
            },
            Err(_) => false,
        }
    }

    /// Create a new 2D `Texture` suitable for use as a depth map.
    ///
    /// Storage for the given size is allocated and left undefined; the
    /// texture is meant to be populated by rendering. If the device
    /// refuses the allocation, the texture is unbound and deleted again.
    pub fn new_depth_map(&self, width: u32, height: u32, context: &mut G) -> (result: Result<
        Texture<G>,
        Error<G::Error>,
    >)
        ensures
            extends(old(context).journal(), final(context).journal()),
            self.depth_map_built(
                width,
                height,
                issued(old(context).journal(), final(context).journal()),
                result,
            ),
    {
        let ghost before = context.journal();
        let target = TextureTarget::Texture2D;
        let texture = match self.open(target, context) {
            Ok(texture) => texture,
            Err(cause) => {
                proof {
                    lemma_issued(before, refusal::<G>(cause));
                }
                return Err(Error::CreateTexture { cause });
            },
        };
        // NB: The compare mode only applies to depth maps, so we don't
        //     need to set it for other types.
        context.set_texture_compare_mode(target, TextureCompareMode::RefToTexture);
        context.set_texture_compare_func(target, Func::Greater);
        let outcome = context.set_texture_image_2d(
            target,
            TextureInternalFormat::Depth,
            TexturePixelFormat::Depth,
            Type::Float,
            width,
            height,
            None,
        );
        let ghost handle = texture@;
        let populated = outcome.is_ok();
        let closed = self.close(texture, populated, context);
        proof {
            let ops = building::<G>(
                handle,
                target,
                self.mipmaps(),
                depth_map_population::<G>(width, height, verdict(outcome)),
                populated,
            );
            assert(context.journal() =~= before + ops);
            lemma_issued(before, ops);
        }
        match outcome {
            Ok(()) => Ok(closed.unwrap()),
            Err(cause) => Err(Error::DepthMapTexture { cause }),
        }
    }

    /// Whether `result` and the operations issued, `issued`, are those
    /// of the construction of a 2D texture from the given image.
    pub open spec fn image_built(
        &self,
        data: Seq<u8>,
        info: TextureInfo,
        issued: Seq<OpOf<G>>,
        result: Result<Texture<G>, Error<G::Error>>,
    ) -> bool {
        let target = TextureTarget::Texture2D;
        match result {
            Ok(texture) => texture.target() == target && issued == building::<G>(
                texture@,
                target,
                self.mipmaps(),
                Seq::<OpOf<G>>::empty().push(image_2d::<G>(target, Some(data), info, Ok(()))),
                true,
            ),
            Err(Error::CreateTexture { cause }) => issued == refusal::<G>(cause),
            Err(Error::PopulateTexture { cause }) => match created::<G>(issued) {
                Some(texture) => issued == building::<G>(
                    texture,
                    target,
                    self.mipmaps(),
                    Seq::<OpOf<G>>::empty().push(
                        image_2d::<G>(target, Some(data), info, Err(cause)),
                    ),
                    false,
                ),
                None => false,
            },
            Err(_) => false,
        }
    }

    /// Create a new 2D `Texture` from the provided image data.
    ///
    /// If the device refuses the image, the texture is unbound and
    /// deleted again.
    pub fn from_image(&self, data: &[u8], info: &TextureInfo, context: &mut G) -> (result: Result<
        Texture<G>,
        Error<G::Error>,
    >)
        ensures
            extends(old(context).journal(), final(context).journal()),
            self.image_built(
                data@,
                *info,
                issued(old(context).journal(), final(context).journal()),
                result,
            ),
    {
        let ghost before = context.journal();
        let target = TextureTarget::Texture2D;
        let texture = match self.open(target, context) {
            Ok(texture) => texture,
            Err(cause) => {
                proof {
                    lemma_issued(before, refusal::<G>(cause));
                }
                return Err(Error::CreateTexture { cause });
            },
        };
        let result = populate_texture(context, target, data, info);
        let ghost handle = texture@;
        let ghost outcome = device_outcome(result);
        let populated = result.is_ok();
        let closed = self.close(texture, populated, context);
        proof {
            let ops = building::<G>(
                handle,
                target,
                self.mipmaps(),
                Seq::<OpOf<G>>::empty().push(image_2d::<G>(target, Some(data@), *info, outcome)),
                populated,
            );
            assert(context.journal() =~= before + ops);
            lemma_issued(before, ops);
        }
        match result {
            Ok(()) => Ok(closed.unwrap()),
            Err(error) => Err(error),
        }
    }

    /// Whether `result` and the operations issued, `issued`, are those
    /// of the start of the construction of an array texture of the given
    /// size with `count` layers, in the formats of `info`.
    ///
    /// On success the texture is bound and its storage allocated; a
    /// texture whose storage the device refused has been unbound and
    /// deleted again.
    pub open spec fn images_begun(
        &self,
        width: u32,
        height: u32,
        count: u32,
        info: TextureInfo,
        issued: Seq<OpOf<G>>,
        result: Result<Texture<G>, Error<G::Error>>,
    ) -> bool {
        let target = TextureTarget::Texture2DArray;
        match result {
            Ok(texture) => texture.target() == target && issued == opening::<G>(
                texture@,
                target,
                self.mipmaps(),
            ).push(image_3d::<G>(width, height, count, info, Ok(()))),
            Err(Error::CreateTexture { cause }) => issued == refusal::<G>(cause),
            Err(Error::InitTexture3d { cause }) => match created::<G>(issued) {
                Some(texture) => issued == building::<G>(
                    texture,
                    target,
                    self.mipmaps(),
                    Seq::<OpOf<G>>::empty().push(
                        image_3d::<G>(width, height, count, info, Err(cause)),
                    ),
                    false,
                ),
                None => false,
            },
            Err(_) => false,
        }
    }

    /// Start the construction of an array texture of the given size
    /// with `count` layers: create the texture, bind it, set its state
    /// and allocate its storage in the formats of `info`.
    ///
    /// The texture stays bound. The caller hands the images over with
    /// [`Builder::add_image`] and concludes with
    /// [`Builder::end_images`]; [`Builder::from_images`] does all of it
    /// for images that are at hand.
    pub fn begin_images(
        &self,
        width: u32,
        height: u32,
        count: u32,
        info: &TextureInfo,
        context: &mut G,
    ) -> (result: Result<Texture<G>, Error<G::Error>>)
        ensures
            extends(old(context).journal(), final(context).journal()),
            self.images_begun(
                width,
                height,
                count,
                *info,
                issued(old(context).journal(), final(context).journal()),
                result,
            ),
    {
        let ghost before = context.journal();
        let target = TextureTarget::Texture2DArray;
        let texture = match self.open(target, context) {
            Ok(texture) => texture,
            Err(cause) => {
                proof {
                    lemma_issued(before, refusal::<G>(cause));
                }
                return Err(Error::CreateTexture { cause });
            },
        };
        let ghost handle = texture@;
        let allocated = context.set_texture_image_3d(
            target,
            info.intern_format,
            info.pixel_format,
            info.color_format,
            width,
            height,
            count,
            None,
        );
        match allocated {
            Ok(()) => {
                proof {
                    let ops = opening::<G>(handle, target, self.mipmaps()).push(
                        image_3d::<G>(width, height, count, *info, Ok(())),
                    );
                    assert(context.journal() =~= before + ops);
                    lemma_issued(before, ops);
                }
                Ok(texture)
            },
            Err(cause) => {
                let _ = self.close(texture, false, context);
                proof {
                    let ops = building::<G>(
                        handle,
                        target,
                        self.mipmaps(),
                        Seq::<OpOf<G>>::empty().push(
                            image_3d::<G>(width, height, count, *info, Err(cause)),
                        ),
                        false,
                    );
                    assert(context.journal() =~= before + ops);
                    lemma_issued(before, ops);
                }
                Err(Error::InitTexture3d { cause })
            },
        }
    }

    /// Hand an image to the device as the layer with the given index of
    /// the bound array texture, whose size is the given one.
    ///
    /// An image that exceeds the size is not handed over.
    pub fn add_image(
        &self,
        texture: &Texture<G>,
        width: u32,
        height: u32,
        index: usize,
        data: &[u8],
        info: &TextureInfo,
        context: &mut G,
    ) -> (result: Result<(), Error<G::Error>>)
        requires
            index <= u32::MAX,
        ensures
            match result {
                Ok(()) => fits(*info, width, height) && final(context).journal() == old(
                    context,
                ).journal().push(
                    upload::<G>(texture.target(), index as u32, data@, *info, Ok(())),
                ),
                Err(Error::ImageTooLarge { index: image }) => image == index && !fits(
                    *info,
                    width,
                    height,
                ) && final(context).journal() == old(context).journal(),
                Err(Error::PopulateTexture3d { index: image, cause }) => image == index && fits(
                    *info,
                    width,
                    height,
                ) && final(context).journal() == old(context).journal().push(
                    upload::<G>(texture.target(), index as u32, data@, *info, Err(cause)),
                ),
                Err(_) => false,
            },
    {
        if !(info.width <= width && info.height <= height) {
            return Err(Error::ImageTooLarge { index });
        }
        match populate_3d_texture(context, index as u32, texture.target(), data, info) {
            Ok(()) => Ok(()),
            Err(cause) => Err(Error::PopulateTexture3d { index, cause }),
        }
    }

    /// Conclude the construction of an array texture that was started
    /// with [`Builder::begin_images`]: after every image was handed over
    /// generate the mipmaps, if asked for, and unbind the texture, which
    /// is returned; otherwise unbind and delete it.
    pub fn end_images(
        &self,
        texture: Texture<G>,
        populated: bool,
        context: &mut G,
    ) -> (result: Option<Texture<G>>)
        ensures
            final(context).journal() == old(context).journal() + closing::<G>(
                texture@,
                texture.target(),
                self.mipmaps(),
                populated,
            ),
            populated ==> result == Some(texture),
            !populated ==> result is None,
    {
        self.close(texture, populated, context)
    }

    /// Hand the given layers to the device, in order, as the layers of
    /// the bound array texture.
    ///
    /// The work stops at the first layer that the caller could not
    /// supply, that exceeds the given bounds or that the device
    /// refuses.
    fn upload_layers(
        &self,
        texture: &Texture<G>,
        width: u32,
        height: u32,
        images: &[Layer],
        context: &mut G,
    ) -> (result: Result<(), Error<G::Error>>)
        requires
            images@.len() <= u32::MAX,
            texture.target() == TextureTarget::Texture2DArray,
        ensures
            final(context).journal() == old(context).journal() + layer_ops::<G>(images@, result),
            layers_checked(images@, width, height, result),
    {
        let mut idx: usize = 0;
        while idx < images.len()
            invariant
                idx <= images@.len() <= u32::MAX,
                texture.target() == TextureTarget::Texture2DArray,
                all_usable(images@, width, height, idx as nat),
                context.journal() == old(context).journal() + uploads::<G>(images@, idx as nat),
            decreases images@.len() - idx,
        {
            match &images[idx] {
                Err(message) => {
                    return Err(Error::Image { index: idx, message: message.clone() });
                },
                Ok((image, info)) => {
                    let added = self.add_image(
                        texture,
                        width,
                        height,
                        idx,
                        image.as_slice(),
                        info,
                        context,
                    );
                    if let Err(error) = added {
                        return Err(error);
                    }
                },
            }
            idx += 1;
        }
        Ok(())
    }

    /// Whether `result` and the operations issued, `issued`, are those
    /// of the construction of an array texture of the given size from
    /// the given images.
    ///
    /// Nothing is issued if the first image could not be supplied.
    /// Storage is allocated for as many layers as there are images, in
    /// the formats of the first one; then the images are handed over in
    /// order, up to the first one that stops the work.
    pub open spec fn images_built(
        &self,
        width: u32,
        height: u32,
        images: Seq<Layer>,
        issued: Seq<OpOf<G>>,
        result: Result<Texture<G>, Error<G::Error>>,
    ) -> bool {
        let target = TextureTarget::Texture2DArray;
        let count = images.len() as u32;
        let first = info_of(images[0]);
        match result {
            Ok(texture) => texture.target() == target && layers_checked::<G::Error>(
                images,
                width,
                height,
                Ok(()),
            ) && issued == building::<G>(
                texture@,
                target,
                self.mipmaps(),
                Seq::<OpOf<G>>::empty().push(image_3d::<G>(width, height, count, first, Ok(())))
                    + layer_ops::<G>(images, Ok(())),
                true,
            ),
            Err(error) => if images[0] is Err {
                error == (Error::<G::Error>::Image { index: 0, message: images[0]->Err_0 })
                    && issued == Seq::<OpOf<G>>::empty()
            } else {
                match error {
                    Error::CreateTexture { cause } => issued == refusal::<G>(cause),
                    Error::InitTexture3d { cause } => match created::<G>(issued) {
                        Some(texture) => issued == building::<G>(
                            texture,
                            target,
                            self.mipmaps(),
                            Seq::<OpOf<G>>::empty().push(
                                image_3d::<G>(width, height, count, first, Err(cause)),
                            ),
                            false,
                        ),
                        None => false,
                    },
                    _ => layers_checked(images, width, height, Err::<(), _>(error))
                        && match created::<G>(issued) {
                        Some(texture) => issued == building::<G>(
                            texture,
                            target,
                            self.mipmaps(),
                            Seq::<OpOf<G>>::empty().push(
                                image_3d::<G>(width, height, count, first, Ok(())),
                            ) + layer_ops::<G>(images, Err(error)),
                            false,
                        ),
                        None => false,
                    },
                }
            },
        }
    }

    /// Create a new 3D `Texture` using the provided images.
    ///
    /// Each image is either supplied, with its description, or
    /// accompanied by the reason why the caller could not supply it. At
    /// least one image is required. If anything fails once the texture
    /// exists, the texture is unbound and deleted again.
    pub fn from_images(
        &self,
        width: u32,
        height: u32,
        images: &[Layer],
        context: &mut G,
    ) -> (result: Result<Texture<G>, Error<G::Error>>)
        requires
            1 <= images@.len() <= u32::MAX,
        ensures
            extends(old(context).journal(), final(context).journal()),
            self.images_built(
                width,
                height,
                images@,
                issued(old(context).journal(), final(context).journal()),
                result,
            ),
    {
        let ghost before = context.journal();
        let count = images.len();
        let info = match &images[0] {
            Ok((_, info)) => *info,
            Err(message) => {
                proof {
                    lemma_issued(before, Seq::<OpOf<G>>::empty());
                }
                return Err(Error::Image { index: 0, message: message.clone() });
            },
        };
        let target = TextureTarget::Texture2DArray;
        let texture = match self.begin_images(width, height, count as u32, &info, context) {
            Ok(texture) => texture,
            Err(error) => {
                return Err(error);
            },
        };
        let ghost handle = texture@;
        let ghost allocation = Seq::<OpOf<G>>::empty().push(
            image_3d::<G>(width, height, count as u32, info, Ok(())),
        );
        proof {
            lemma_continued(before, context.journal());
        }
        let result = self.upload_layers(&texture, width, height, images, context);
        let populated = result.is_ok();
        let closed = self.close(texture, populated, context);
        proof {
            let ops = building::<G>(
                handle,
                target,
                self.mipmaps(),
                allocation + layer_ops::<G>(images@, result),
                populated,
            );
            assert(context.journal() =~= before + ops);
            lemma_issued(before, ops);
        }
        match result {
            Ok(()) => Ok(closed.unwrap()),
            Err(error) => Err(error),
        }
    }
}

/// A texture.
///
/// The value owns the handle of the texture: it is created through a
/// [`Builder`] and given back to the device by [`Texture::release`],
/// which consumes the value.
pub struct Texture<G: Gl> {
    /// The texture ID.
    texture: G::Texture,
    /// The "target" to bind to.
    target: TextureTarget,
}

impl<G: Gl> Texture<G> {
    /// The handle of the texture.
    pub closed spec fn view(&self) -> G::Texture {
        self.texture
    }

    /// The "target" that the texture binds to.
    pub closed spec fn binding(&self) -> TextureTarget {
        self.target
    }

    /// Create a texture builder; it creates textures without mipmaps
    /// unless told otherwise.
    pub fn builder() -> (builder: Builder<G>)
        ensures
            !builder.mipmaps(),
    {
        Builder { context: PhantomData, mipmaps: false }
    }

    /// Bind the texture to its target.
    pub fn bind(&self, context: &mut G)
        ensures
            final(context).journal() == old(context).journal().push(
                Op::BindTexture { target: self.target(), texture: Some(self@) },
            ),
    {
        context.bind_texture(self.target, Some(&self.texture))
    }

    /// Unbind whatever texture is bound to the target of this one.
    pub fn unbind(&self, context: &mut G)
        ensures
            final(context).journal() == old(context).journal().push(
                Op::BindTexture { target: self.target(), texture: None },
            ),
    {
        context.bind_texture(self.target, None)
    }

    /// Retrieve the texture's "target".
    #[verifier::when_used_as_spec(binding)]
    pub fn target(&self) -> (target: TextureTarget)
        ensures
            target == self.binding(),
    {
        self.target
    }

    /// The handle of the texture.
    pub fn handle(&self) -> (handle: &G::Texture)
        ensures
            *handle == self@,
    {
        &self.texture
    }

    /// Delete the texture on the device.
    pub fn release(self, context: &mut G)
        ensures
            final(context).journal() == old(context).journal().push(
                Op::DeleteTexture { texture: self@ },
            ),
    {
        context.delete_texture(&self.texture);
    }
}

impl<G: Gl> core::ops::Deref for Texture<G> {
    type Target = G::Texture;

    fn deref(&self) -> (handle: &G::Texture)
        ensures
            *handle == self@,
    {
        &self.texture
    }
}

/// The operations that set the state of a texture before and after it
/// is populated change nothing about the number of objects on the
/// device.
proof fn lemma_state_neutral<G: Gl>(target: TextureTarget, mipmaps: bool)
    ensures
        balance(pre_state::<G>(target, mipmaps)) == 0,
        balance(post_state::<G>(target, mipmaps)) == 0,
{
    lemma_balance_neutral(pre_state::<G>(target, mipmaps));
    lemma_balance_neutral(post_state::<G>(target, mipmaps));
}

/// The construction of a texture around operations that change nothing
/// about the number of objects on the device leaves one more object on
/// the device if the texture was populated, and none if it was not.
proof fn lemma_building_balanced<G: Gl>(
    texture: G::Texture,
    target: TextureTarget,
    mipmaps: bool,
    populating: Seq<OpOf<G>>,
    populated: bool,
)
    requires
        balance(populating) == 0,
    ensures
        balance(building::<G>(texture, target, mipmaps, populating, populated)) == if populated {
            1int
        } else {
            0int
        },
{
    let none = Seq::<OpOf<G>>::empty();
    let create = Op::CreateTexture { created: Ok(texture) };
    let bind = Op::BindTexture { target, texture: Some(texture) };
    let unbind = Op::BindTexture { target, texture: None };
    lemma_state_neutral::<G>(target, mipmaps);
    lemma_balance_push(none, create);
    lemma_balance_push(none.push(create), bind);
    lemma_balance_add(none.push(create).push(bind), pre_state::<G>(target, mipmaps));
    if populated {
        lemma_balance_push(post_state::<G>(target, mipmaps), unbind);
    } else {
        lemma_balance_push(none, unbind);
        lemma_balance_push(none.push(unbind), Op::DeleteTexture { texture });
    }
    lemma_balance_add(opening::<G>(texture, target, mipmaps), populating);
    lemma_balance_add(
        opening::<G>(texture, target, mipmaps) + populating,
        closing::<G>(texture, target, mipmaps, populated),
    );
}

/// The construction of a depth map leaves exactly one more object on
/// the device if it succeeds, and none if it fails.
pub proof fn lemma_depth_map_balanced<G: Gl>(
    builder: Builder<G>,
    width: u32,
    height: u32,
    issued: Seq<OpOf<G>>,
    result: Result<Texture<G>, Error<G::Error>>,
)
    requires
        builder.depth_map_built(width, height, issued, result),
    ensures
        balance(issued) == if result is Ok {
            1int
        } else {
            0int
        },
{
    let target = TextureTarget::Texture2D;
    match result {
        Ok(texture) => {
            let populating = depth_map_population::<G>(width, height, Ok(()));
            lemma_balance_neutral(populating);
            lemma_building_balanced::<G>(texture@, target, builder.mipmaps(), populating, true);
        },
        Err(Error::CreateTexture { cause }) => {
            lemma_balance_neutral(refusal::<G>(cause));
        },
        Err(Error::DepthMapTexture { cause }) => {
            let texture = created::<G>(issued).unwrap();
            let populating = depth_map_population::<G>(width, height, Err(cause));
            lemma_balance_neutral(populating);
            lemma_building_balanced::<G>(texture, target, builder.mipmaps(), populating, false);
        },
        Err(_) => {},
    }
}

/// The construction of a 2D texture from an image leaves exactly one
/// more object on the device if it succeeds, and none if it fails.
pub proof fn lemma_image_balanced<G: Gl>(
    builder: Builder<G>,
    data: Seq<u8>,
    info: TextureInfo,
    issued: Seq<OpOf<G>>,
    result: Result<Texture<G>, Error<G::Error>>,
)
    requires
        builder.image_built(data, info, issued, result),
    ensures
        balance(issued) == if result is Ok {
            1int
        } else {
            0int
        },
{
    let target = TextureTarget::Texture2D;
    let none = Seq::<OpOf<G>>::empty();
    match result {
        Ok(texture) => {
            let populating = none.push(image_2d::<G>(target, Some(data), info, Ok(())));
            lemma_balance_neutral(populating);
            lemma_building_balanced::<G>(texture@, target, builder.mipmaps(), populating, true);
        },
        Err(Error::CreateTexture { cause }) => {
            lemma_balance_neutral(refusal::<G>(cause));
        },
        Err(Error::PopulateTexture { cause }) => {
            let texture = created::<G>(issued).unwrap();
            let populating = none.push(image_2d::<G>(target, Some(data), info, Err(cause)));
            lemma_balance_neutral(populating);
            lemma_building_balanced::<G>(texture, target, builder.mipmaps(), populating, false);
        },
        Err(_) => {},
    }
}

/// The start of the construction of an array texture leaves exactly
/// one more object on the device if it succeeds, and none if it fails.
pub proof fn lemma_images_begun_balanced<G: Gl>(
    builder: Builder<G>,
    width: u32,
    height: u32,
    count: u32,
    info: TextureInfo,
    issued: Seq<OpOf<G>>,
    result: Result<Texture<G>, Error<G::Error>>,
)
    requires
        builder.images_begun(width, height, count, info, issued, result),
    ensures
        balance(issued) == if result is Ok {
            1int
        } else {
            0int
        },
{
    let target = TextureTarget::Texture2DArray;
    let none = Seq::<OpOf<G>>::empty();
    match result {
        Ok(texture) => {
            let create = Op::CreateTexture { created: Ok(texture@) };
            let bind = Op::BindTexture { target, texture: Some(texture@) };
            lemma_state_neutral::<G>(target, builder.mipmaps());
            lemma_balance_push(none, create);
            lemma_balance_push(none.push(create), bind);
            lemma_balance_add(
                none.push(create).push(bind),
                pre_state::<G>(target, builder.mipmaps()),
            );
            lemma_balance_push(
                opening::<G>(texture@, target, builder.mipmaps()),
                image_3d::<G>(width, height, count, info, Ok(())),
            );
        },
        Err(Error::CreateTexture { cause }) => {
            lemma_balance_neutral(refusal::<G>(cause));
        },
        Err(Error::InitTexture3d { cause }) => {
            let texture = created::<G>(issued).unwrap();
            let populating = none.push(image_3d::<G>(width, height, count, info, Err(cause)));
            lemma_balance_neutral(populating);
            lemma_building_balanced::<G>(texture, target, builder.mipmaps(), populating, false);
        },
        Err(_) => {},
    }
}

/// The construction of an array texture from images leaves exactly one
/// more object on the device if it succeeds, and none if it fails.
pub proof fn lemma_images_balanced<G: Gl>(
    builder: Builder<G>,
    width: u32,
    height: u32,
    images: Seq<Layer>,
    issued: Seq<OpOf<G>>,
    result: Result<Texture<G>, Error<G::Error>>,
)
    requires
        builder.images_built(width, height, images, issued, result),
    ensures
        balance(issued) == if result is Ok {
            1int
        } else {
            0int
        },
{
    let target = TextureTarget::Texture2DArray;
    let none = Seq::<OpOf<G>>::empty();
    let count = images.len() as u32;
    let first = info_of(images[0]);
    match result {
        Ok(texture) => {
            let populating = none.push(image_3d::<G>(width, height, count, first, Ok(())))
                + layer_ops::<G>(images, Ok(()));
            lemma_balance_neutral(populating);
            lemma_building_balanced::<G>(texture@, target, builder.mipmaps(), populating, true);
        },
        Err(error) => if images[0] is Ok {
            match error {
                Error::CreateTexture { cause } => {
                    lemma_balance_neutral(refusal::<G>(cause));
                },
                Error::InitTexture3d { cause } => {
                    let texture = created::<G>(issued).unwrap();
                    let populating = none.push(
                        image_3d::<G>(width, height, count, first, Err(cause)),
                    );
                    lemma_balance_neutral(populating);
                    lemma_building_balanced::<G>(
                        texture,
                        target,
                        builder.mipmaps(),
                        populating,
                        false,
                    );
                },
                _ => {
                    let texture = created::<G>(issued).unwrap();
                    let populating = none.push(image_3d::<G>(width, height, count, first, Ok(())))
                        + layer_ops::<G>(images, Err(error));
                    lemma_balance_neutral(populating);
                    lemma_building_balanced::<G>(
                        texture,
                        target,
                        builder.mipmaps(),
                        populating,
                        false,
                    );
                },
            }
        },
    }
}

} // verus!
