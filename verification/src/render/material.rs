//! Surface descriptions.

use vstd::prelude::*;
use crate::number::Number;
use crate::render::color::Color;
use crate::render::id::ImageId;

verus! {

/// Which set of texture coordinates a texture is read with.
#[derive(Debug, Copy, Clone, Default, Hash, PartialEq, Eq, Structural)]
pub enum UvChannel {
    #[default]
    Uv0,
    Uv1,
}

/// A side of a surface.
#[derive(Debug, Copy, Clone, Hash, PartialEq, Eq, Structural)]
pub enum Face {
    Front,
    Back,
}

/// How opaque surfaces are drawn.
#[derive(Debug, Copy, Clone, Default, Hash, PartialEq, Eq, Structural)]
pub enum OpaqueRendererMethod {
    #[default]
    Forward,
    Deferred,
    Auto,
}

/// How a depth map displaces a surface.
#[derive(Debug, Copy, Clone, Default, Hash, PartialEq, Eq, Structural)]
pub enum ParallaxMappingMethod {
    #[default]
    Occlusion,
    Relief { max_steps: u32 },
}

/// How the opacity of a surface is used.
#[derive(Debug, Copy, Clone, Default)]
pub enum AlphaMode {
    #[default]
    Opaque,
    Mask(Number),
    Blend,
    Premultiplied,
    AlphaToCoverage,
    Add,
    Multiply,
}

impl AlphaMode {
    /// Same mode, with numerically equal thresholds for masks.
    pub open spec fn same_value(self, other: AlphaMode) -> bool {
        match (self, other) {
            (AlphaMode::Opaque, AlphaMode::Opaque) => true,
            (AlphaMode::Mask(a), AlphaMode::Mask(b)) => a.same_value(b),
            (AlphaMode::Blend, AlphaMode::Blend) => true,
            (AlphaMode::Premultiplied, AlphaMode::Premultiplied) => true,
            (AlphaMode::AlphaToCoverage, AlphaMode::AlphaToCoverage) => true,
            (AlphaMode::Add, AlphaMode::Add) => true,
            (AlphaMode::Multiply, AlphaMode::Multiply) => true,
            _ => false,
        }
    }

    /// Whether both are the same mode.
    pub fn equals(&self, other: &AlphaMode) -> (r: bool)
        ensures
            r == self.same_value(*other),
    {
        match (self, other) {
            (AlphaMode::Opaque, AlphaMode::Opaque) => true,
            (AlphaMode::Mask(a), AlphaMode::Mask(b)) => a.equals(b),
            (AlphaMode::Blend, AlphaMode::Blend) => true,
            (AlphaMode::Premultiplied, AlphaMode::Premultiplied) => true,
            (AlphaMode::AlphaToCoverage, AlphaMode::AlphaToCoverage) => true,
            (AlphaMode::Add, AlphaMode::Add) => true,
            (AlphaMode::Multiply, AlphaMode::Multiply) => true,
            _ => false,
        }
    }
}

/// The decimal `n / 10`.
pub open spec fn tenths(n: u128) -> Number {
    Number::Finite { negative: false, digits: n, scale: 1 }
}

fn tenths_number(n: u128) -> (r: Number)
    ensures
        r == tenths(n),
{
    Number::Finite { negative: false, digits: n, scale: 1 }
}

/// Both absent, or both present with the same path.
pub open spec fn same_image(a: Option<ImageId>, b: Option<ImageId>) -> bool {
    match (a, b) {
        (None, None) => true,
        (Some(x), Some(y)) => x@ == y@,
        _ => false,
    }
}

fn images_match(a: &Option<ImageId>, b: &Option<ImageId>) -> (r: bool)
    ensures
        r == same_image(*a, *b),
{
    match (a, b) {
        (None, None) => true,
        (Some(x), Some(y)) => x.same(y),
        _ => false,
    }
}

fn copy_image(a: &Option<ImageId>) -> (r: Option<ImageId>)
    ensures
        r == *a,
{
    match a {
        Some(image) => Some(ImageId(image.0.clone())),
        None => None,
    }
}

fn faces_match(a: Option<Face>, b: Option<Face>) -> (r: bool)
    ensures
        r == (a == b),
{
    match (a, b) {
        (None, None) => true,
        (Some(x), Some(y)) => x == y,
        _ => false,
    }
}

/// The description of a physically based surface.
#[derive(Debug, Clone)]
pub struct Material {
    pub base_color: Color,
    pub base_color_channel: UvChannel,
    pub base_color_texture: Option<ImageId>,
    pub emissive: Color,
    pub emissive_exposure_weight: Number,
    pub emissive_channel: UvChannel,
    pub emissive_texture: Option<ImageId>,
    pub perceptual_roughness: Number,
    pub metallic: Number,
    pub metallic_roughness_channel: UvChannel,
    pub metallic_roughness_texture: Option<ImageId>,
    pub reflectance: Number,
    pub diffuse_transmission: Number,
    pub specular_transmission: Number,
    pub thickness: Number,
    pub ior: Number,
    pub attenuation_distance: Number,
    pub attenuation_color: Color,
    pub normal_map_channel: UvChannel,
    pub normal_map_texture: Option<ImageId>,
    pub flip_normal_map_y: bool,
    pub occlusion_channel: UvChannel,
    pub occlusion_texture: Option<ImageId>,
    pub clearcoat: Number,
    pub clearcoat_perceptual_roughness: Number,
    pub anisotropy_strength: Number,
    pub anisotropy_rotation: Number,
    pub double_sided: bool,
    pub cull_mode: Option<Face>,
    pub unlit: bool,
    pub fog_enabled: bool,
    pub alpha_mode: AlphaMode,
    pub depth_bias: Number,
    pub depth_map: Option<ImageId>,
    pub parallax_depth_scale: Number,
    pub parallax_mapping_method: ParallaxMappingMethod,
    pub max_parallax_layer_count: Number,
    pub lightmap_exposure: Number,
    pub opaque_render_method: OpaqueRendererMethod,
    pub deferred_lighting_pass_id: u8,
}

impl Material {
    /// The material that [`Default`] gives: a white, half-rough, opaque
    /// dielectric without textures.
    pub open spec fn default_value() -> Material {
        Material {
            base_color: Color::white_value(),
            base_color_channel: UvChannel::Uv0,
            base_color_texture: None,
            emissive: Color::black_value(),
            emissive_exposure_weight: tenths(0),
            emissive_channel: UvChannel::Uv0,
            emissive_texture: None,
            perceptual_roughness: tenths(5),
            metallic: tenths(0),
            metallic_roughness_channel: UvChannel::Uv0,
            metallic_roughness_texture: None,
            reflectance: tenths(5),
            diffuse_transmission: tenths(0),
            specular_transmission: tenths(0),
            thickness: tenths(0),
            ior: tenths(15),
            attenuation_distance: Number::infinity_value(),
            attenuation_color: Color::white_value(),
            normal_map_channel: UvChannel::Uv0,
            normal_map_texture: None,
            flip_normal_map_y: false,
            occlusion_channel: UvChannel::Uv0,
            occlusion_texture: None,
            clearcoat: tenths(0),
            clearcoat_perceptual_roughness: tenths(5),
            anisotropy_strength: tenths(0),
            anisotropy_rotation: tenths(0),
            double_sided: false,
            cull_mode: Some(Face::Back),
            unlit: false,
            fog_enabled: true,
            alpha_mode: AlphaMode::Opaque,
            depth_bias: tenths(0),
            depth_map: None,
            parallax_depth_scale: tenths(1),
            parallax_mapping_method: ParallaxMappingMethod::Occlusion,
            max_parallax_layer_count: tenths(160),
            lightmap_exposure: tenths(10),
            opaque_render_method: OpaqueRendererMethod::Forward,
            deferred_lighting_pass_id: 0,
        }
    }

    /// Every field equal: numbers numerically, colours by space and
    /// components, images by path.
    pub open spec fn same_value(self, other: Material) -> bool {
        &&& self.base_color.same_value(other.base_color)
        &&& self.base_color_channel == other.base_color_channel
        &&& same_image(self.base_color_texture, other.base_color_texture)
        &&& self.emissive.same_value(other.emissive)
        &&& self.emissive_exposure_weight.same_value(other.emissive_exposure_weight)
        &&& self.emissive_channel == other.emissive_channel
        &&& same_image(self.emissive_texture, other.emissive_texture)
        &&& self.perceptual_roughness.same_value(other.perceptual_roughness)
        &&& self.metallic.same_value(other.metallic)
        &&& self.metallic_roughness_channel == other.metallic_roughness_channel
        &&& same_image(self.metallic_roughness_texture, other.metallic_roughness_texture)
        &&& self.reflectance.same_value(other.reflectance)
        &&& self.diffuse_transmission.same_value(other.diffuse_transmission)
        &&& self.specular_transmission.same_value(other.specular_transmission)
        &&& self.thickness.same_value(other.thickness)
        &&& self.ior.same_value(other.ior)
        &&& self.attenuation_distance.same_value(other.attenuation_distance)
        &&& self.attenuation_color.same_value(other.attenuation_color)
        &&& self.normal_map_channel == other.normal_map_channel
        &&& same_image(self.normal_map_texture, other.normal_map_texture)
        &&& self.flip_normal_map_y == other.flip_normal_map_y
        &&& self.occlusion_channel == other.occlusion_channel
        &&& same_image(self.occlusion_texture, other.occlusion_texture)
        &&& self.clearcoat.same_value(other.clearcoat)
        &&& self.clearcoat_perceptual_roughness.same_value(other.clearcoat_perceptual_roughness)
        &&& self.anisotropy_strength.same_value(other.anisotropy_strength)
        &&& self.anisotropy_rotation.same_value(other.anisotropy_rotation)
        &&& self.double_sided == other.double_sided
        &&& self.cull_mode == other.cull_mode
        &&& self.unlit == other.unlit
        &&& self.fog_enabled == other.fog_enabled
        &&& self.alpha_mode.same_value(other.alpha_mode)
        &&& self.depth_bias.same_value(other.depth_bias)
        &&& same_image(self.depth_map, other.depth_map)
        &&& self.parallax_depth_scale.same_value(other.parallax_depth_scale)
        &&& self.parallax_mapping_method == other.parallax_mapping_method
        &&& self.max_parallax_layer_count.same_value(other.max_parallax_layer_count)
        &&& self.lightmap_exposure.same_value(other.lightmap_exposure)
        &&& self.opaque_render_method == other.opaque_render_method
        &&& self.deferred_lighting_pass_id == other.deferred_lighting_pass_id
    }

    /// Whether both describe the same surface.
    pub fn equals(&self, other: &Material) -> (r: bool)
        ensures
            r == self.same_value(*other),
    {
        let part_0: bool = self.base_color.equals(&other.base_color)
            && self.base_color_channel == other.base_color_channel
            && images_match(&self.base_color_texture, &other.base_color_texture)
            && self.emissive.equals(&other.emissive)
            && self.emissive_exposure_weight.equals(&other.emissive_exposure_weight)
            && self.emissive_channel == other.emissive_channel
            && images_match(&self.emissive_texture, &other.emissive_texture)
            && self.perceptual_roughness.equals(&other.perceptual_roughness);
        let part_1: bool = self.metallic.equals(&other.metallic)
            && self.metallic_roughness_channel == other.metallic_roughness_channel
            && images_match(&self.metallic_roughness_texture, &other.metallic_roughness_texture)
            && self.reflectance.equals(&other.reflectance)
            && self.diffuse_transmission.equals(&other.diffuse_transmission)
            && self.specular_transmission.equals(&other.specular_transmission)
            && self.thickness.equals(&other.thickness)
            && self.ior.equals(&other.ior);
        let part_2: bool = self.attenuation_distance.equals(&other.attenuation_distance)
            && self.attenuation_color.equals(&other.attenuation_color)
            && self.normal_map_channel == other.normal_map_channel
            && images_match(&self.normal_map_texture, &other.normal_map_texture)
            && self.flip_normal_map_y == other.flip_normal_map_y
            && self.occlusion_channel == other.occlusion_channel
            && images_match(&self.occlusion_texture, &other.occlusion_texture)
            && self.clearcoat.equals(&other.clearcoat);
        let part_3: bool = self.clearcoat_perceptual_roughness.equals(&other.clearcoat_perceptual_roughness)
            && self.anisotropy_strength.equals(&other.anisotropy_strength)
            && self.anisotropy_rotation.equals(&other.anisotropy_rotation)
            && self.double_sided == other.double_sided
            && faces_match(self.cull_mode, other.cull_mode)
            && self.unlit == other.unlit
            && self.fog_enabled == other.fog_enabled
            && self.alpha_mode.equals(&other.alpha_mode);
        let part_4: bool = self.depth_bias.equals(&other.depth_bias)
            && images_match(&self.depth_map, &other.depth_map)
            && self.parallax_depth_scale.equals(&other.parallax_depth_scale)
            && self.parallax_mapping_method == other.parallax_mapping_method
            && self.max_parallax_layer_count.equals(&other.max_parallax_layer_count)
            && self.lightmap_exposure.equals(&other.lightmap_exposure)
            && self.opaque_render_method == other.opaque_render_method
            && self.deferred_lighting_pass_id == other.deferred_lighting_pass_id;
        part_0 && part_1 && part_2 && part_3 && part_4
    }

    /// A copy of the description.
    pub fn duplicate(&self) -> (r: Material)
        ensures
            r == *self,
    {
        Material {
            base_color: self.base_color,
            base_color_channel: self.base_color_channel,
            base_color_texture: copy_image(&self.base_color_texture),
            emissive: self.emissive,
            emissive_exposure_weight: self.emissive_exposure_weight,
            emissive_channel: self.emissive_channel,
            emissive_texture: copy_image(&self.emissive_texture),
            perceptual_roughness: self.perceptual_roughness,
            metallic: self.metallic,
            metallic_roughness_channel: self.metallic_roughness_channel,
            metallic_roughness_texture: copy_image(&self.metallic_roughness_texture),
            reflectance: self.reflectance,
            diffuse_transmission: self.diffuse_transmission,
            specular_transmission: self.specular_transmission,
            thickness: self.thickness,
            ior: self.ior,
            attenuation_distance: self.attenuation_distance,
            attenuation_color: self.attenuation_color,
            normal_map_channel: self.normal_map_channel,
            normal_map_texture: copy_image(&self.normal_map_texture),
            flip_normal_map_y: self.flip_normal_map_y,
            occlusion_channel: self.occlusion_channel,
            occlusion_texture: copy_image(&self.occlusion_texture),
            clearcoat: self.clearcoat,
            clearcoat_perceptual_roughness: self.clearcoat_perceptual_roughness,
            anisotropy_strength: self.anisotropy_strength,
            anisotropy_rotation: self.anisotropy_rotation,
            double_sided: self.double_sided,
            cull_mode: self.cull_mode,
            unlit: self.unlit,
            fog_enabled: self.fog_enabled,
            alpha_mode: self.alpha_mode,
            depth_bias: self.depth_bias,
            depth_map: copy_image(&self.depth_map),
            parallax_depth_scale: self.parallax_depth_scale,
            parallax_mapping_method: self.parallax_mapping_method,
            max_parallax_layer_count: self.max_parallax_layer_count,
            lightmap_exposure: self.lightmap_exposure,
            opaque_render_method: self.opaque_render_method,
            deferred_lighting_pass_id: self.deferred_lighting_pass_id,
        }
    }
}

impl Default for Material {
    fn default() -> (r: Material)
        ensures
            r == Material::default_value(),
    {
        Material {
            base_color: Color::white(),
            base_color_channel: UvChannel::Uv0,
            base_color_texture: None,
            emissive: Color::black(),
            emissive_exposure_weight: tenths_number(0),
            emissive_channel: UvChannel::Uv0,
            emissive_texture: None,
            perceptual_roughness: tenths_number(5),
            metallic: tenths_number(0),
            metallic_roughness_channel: UvChannel::Uv0,
            metallic_roughness_texture: None,
            reflectance: tenths_number(5),
            diffuse_transmission: tenths_number(0),
            specular_transmission: tenths_number(0),
            thickness: tenths_number(0),
            ior: tenths_number(15),
            attenuation_distance: Number::infinity(),
            attenuation_color: Color::white(),
            normal_map_channel: UvChannel::Uv0,
            normal_map_texture: None,
            flip_normal_map_y: false,
            occlusion_channel: UvChannel::Uv0,
            occlusion_texture: None,
            clearcoat: tenths_number(0),
            clearcoat_perceptual_roughness: tenths_number(5),
            anisotropy_strength: tenths_number(0),
            anisotropy_rotation: tenths_number(0),
            double_sided: false,
            cull_mode: Some(Face::Back),
            unlit: false,
            fog_enabled: true,
            alpha_mode: AlphaMode::Opaque,
            depth_bias: tenths_number(0),
            depth_map: None,
            parallax_depth_scale: tenths_number(1),
            parallax_mapping_method: ParallaxMappingMethod::Occlusion,
            max_parallax_layer_count: tenths_number(160),
            lightmap_exposure: tenths_number(10),
            opaque_render_method: OpaqueRendererMethod::Forward,
            deferred_lighting_pass_id: 0,
        }
    }
}

} // verus!
