//! End-to-end renders: a sphere in front of the camera, the depth-zero
//! blackout, the PPM encoding, and the construction errors.

use neon::bvh::BvhTree;
use neon::camera::Camera;
use neon::color::{Color, Rgb8};
use neon::encoder::{PpmEncoder, RenderedImageEncoder};
use neon::extensions::RgbLinearToGammaExtension;
use neon::fixed::FX_ONE;
use neon::material::{Lambertian, MaterialType};
use neon::object::sphere::Sphere;
use neon::object::HittableObjectType;
use neon::rendered_image::{Dimensions, RenderedImage, RenderedImageError};
use neon::rng::Rng;
use neon::scene::{Scene, SceneContent, SceneOptions};
use neon::texture::{ImageTexture, ImageTextureError, SolidColor, TextureType};
use neon::vector::Vec3;

fn v(x: i64, y: i64, z: i64) -> Vec3 {
    Vec3 { x: x * FX_ONE, y: y * FX_ONE, z: z * FX_ONE }
}

/// A camera at `(0, 0, 5)` looking down -z onto a 9-by-9 grid, its ray
/// basis written out by hand: one unit per pixel on the focal plane.
fn test_camera(samples_per_pixel: u32, max_bounce_depth: u32) -> Camera {
    let width: u32 = 9;
    let height: u32 = 9;
    // The corner pixels look several units past the unit sphere.
    let delta = FX_ONE;
    Camera {
        width,
        dimensions: Dimensions { width, height },
        center: v(0, 0, 5),
        samples_per_pixel,
        pixel_samples_scale: FX_ONE / (samples_per_pixel as i64),
        upper_left_pixel_pos: v(-4, 4, 0),
        pixel_delta_horizontal: Vec3 { x: delta, y: 0, z: 0 },
        pixel_delta_vertical: Vec3 { x: 0, y: -delta, z: 0 },
        max_bounce_depth,
        defocus_angle: 0,
        defocus_disk_horizontal: Vec3 { x: 0, y: 0, z: 0 },
        defocus_disk_vertical: Vec3 { x: 0, y: 0, z: 0 },
    }
}

fn single_sphere_scene() -> SceneContent {
    let gray = TextureType::from(SolidColor::new(Color {
        r: FX_ONE / 2,
        g: FX_ONE / 2,
        b: FX_ONE / 2,
    }));
    let materials = vec![MaterialType::Lambertian(Lambertian::new(gray))];
    let bvh = BvhTree::from(vec![HittableObjectType::Sphere(Sphere::new(v(0, 0, 0), FX_ONE, 0))]);
    SceneContent::new(materials, bvh)
}

#[test]
fn center_pixel_sees_the_sphere_and_corners_see_the_background() {
    let scene = Scene::new(single_sphere_scene(), test_camera(1, 1), SceneOptions::default());
    let mut rng = Rng::new(7);
    let image = scene.render(&mut rng);
    assert_eq!(image.pixels.len(), 81);
    let background = SceneOptions::default().background.linear_to_gamma().to_rgb8();
    let center = image.pixels[4 * 9 + 4];
    let corners = [image.pixels[0], image.pixels[8], image.pixels[72], image.pixels[80]];
    assert_ne!(center, background);
    for c in corners {
        assert_eq!(c, background);
    }
}

#[test]
fn depth_zero_blacks_out_the_whole_image() {
    let scene = Scene::new(single_sphere_scene(), test_camera(2, 0), SceneOptions::default());
    let mut rng = Rng::new(7);
    let image = scene.render(&mut rng);
    assert_eq!(image.pixels.len(), 81);
    for px in image.pixels.iter() {
        assert_eq!(*px, Rgb8 { r: 0, g: 0, b: 0 });
    }
}

#[test]
fn ppm_encoding_of_a_tiny_image_is_exact() {
    let pixels = vec![
        Rgb8 { r: 255, g: 0, b: 0 },
        Rgb8 { r: 0, g: 128, b: 7 },
    ];
    let image = RenderedImage::new(pixels, Dimensions { width: 2, height: 1 }).expect(
        "two pixels fill two cells",
    );
    let encoder = PpmEncoder::new(255);
    let bytes = encoder.encode(&image);
    let expected = b"P3\n2 1\n255\n255 0 0\n0 128 7\n".to_vec();
    assert_eq!(bytes, expected);
}

#[test]
fn rendered_image_rejects_a_wrong_pixel_count() {
    let pixels = vec![Rgb8 { r: 0, g: 0, b: 0 }];
    let out = RenderedImage::new(pixels, Dimensions { width: 2, height: 2 });
    assert!(matches!(out, Err(RenderedImageError::PixelCountMismatch)));
}

#[test]
fn image_texture_rejects_bad_rasters() {
    let nothing: Vec<Rgb8> = Vec::new();
    assert!(matches!(
        ImageTexture::new(0, 4, nothing),
        Err(ImageTextureError::EmptyImage)
    ));
    let one = vec![Rgb8 { r: 1, g: 2, b: 3 }];
    assert!(matches!(
        ImageTexture::new(2, 2, one),
        Err(ImageTextureError::WrongPixelCount)
    ));
    let four = vec![Rgb8 { r: 1, g: 2, b: 3 }; 4];
    assert!(ImageTexture::new(2, 2, four).is_ok());
}

#[test]
fn image_as_bytes_lays_channels_out_in_order() {
    let pixels = vec![Rgb8 { r: 1, g: 2, b: 3 }, Rgb8 { r: 4, g: 5, b: 6 }];
    let image = RenderedImage::new(pixels, Dimensions { width: 1, height: 2 }).expect("fits");
    assert_eq!(image.as_bytes(), vec![1, 2, 3, 4, 5, 6]);
}

#[test]
fn dimensions_derive_a_height_of_at_least_one() {
    let wide = Dimensions::from_width(400, 16 * FX_ONE / 9);
    assert_eq!(wide.width, 400);
    assert_eq!(wide.height, 225);
    let sliver = Dimensions::from_width(2, 1000 * FX_ONE);
    assert_eq!(sliver.height, 1);
    let square = Dimensions { width: 7, height: 7 };
    assert_eq!(square.all_elements(), 49);
}
