//! End-to-end scenarios: shapes, the nearest-hit search, the camera, the
//! ambient-occlusion estimator, and the accumulation round trip.

use mirth::angle::{Angle, AngleUnits};
use mirth::camera::{Camera, CameraInfo};
use mirth::fixed::{Fx, FX_MAX, SCALE};
use mirth::image::{Image, ImageBuffer, Pixel, PixelIterator, Resolution};
use mirth::integrator::{AmbientOcclusionIntegrator, Integrator};
use mirth::light::{ColorConstantsQueryable, Light};
use mirth::material::{Lambertian, Material};
use mirth::object::{Object, ObjectInfo};
use mirth::object_group::ObjectGroup;
use mirth::quad::Quad;
use mirth::ray::Ray3;
use mirth::rng::RandomNumberGenerator;
use mirth::scene::{Scene, SceneInfo};
use mirth::shape::Shape;
use mirth::sphere::{Sphere, SphereInfo};
use mirth::texture::{ConstantTexture, Texture, TextureCoordinates};
use mirth::transform::Transform;
use mirth::vector::{dot, Vec3};

fn v(x: i64, y: i64, z: i64) -> Vec3 {
    Vec3::new(Fx::from_i64(x), Fx::from_i64(y), Fx::from_i64(z))
}

fn sphere_at(x: i64, y: i64, z: i64, radius: i64) -> Sphere {
    Sphere::new(SphereInfo {
        center: v(x, y, z),
        radius: Fx::from_i64(radius),
        transform: Transform::default(),
    })
}

fn white_object(shape: Shape) -> Object {
    Object::new(ObjectInfo {
        shape,
        texture: Texture::Constant(ConstantTexture::new_from_rgb(Light::white())),
        material: Material::Lambertian(Lambertian {}),
    })
}

#[test]
fn resolution_iterator() {
    let resolution = Resolution { width: 5, height: 5 };
    let mut pixels = PixelIterator::new(resolution);
    while let Some(pixel) = pixels.next() {
        println!("({},{}) ", pixel.x, pixel.y);
    }
}

#[test]
fn pixel_iterator_walks_every_pixel_once() {
    let resolution = Resolution { width: 3, height: 2 };
    let mut pixels = PixelIterator::new(resolution);
    let mut seen = Vec::new();
    while let Some(pixel) = pixels.next() {
        seen.push((pixel.x, pixel.y));
    }
    assert_eq!(seen, vec![(0, 0), (1, 0), (2, 0), (0, 1), (1, 1), (2, 1)]);
}

#[test]
fn scene_1() {
    let camera_info = CameraInfo {
        transform: Transform::new_for_viewer(&v(0, 0, 1), &v(0, 0, 0), &v(0, 1, 0)).unwrap(),
        aperture_radius: Fx::zero(),
        focal_distance: Fx::one(),
        resolution: Resolution { width: 600, height: 600 },
        vertical_fov: Angle { amount: Fx::from_i64(90), units: AngleUnits::Degrees },
    };
    let _camera = Camera::new(camera_info);
}

#[test]
fn sphere_hit_point_lies_on_the_surface() {
    // Sphere: radius 2, centered at (0,0,3); ray along +z from the origin.
    let sphere = sphere_at(0, 0, 3, 2);
    let ray = Ray3::new(v(0, 0, 0), v(0, 0, 1));
    let info = sphere.intersect(&ray);
    assert!(info.did_hit);
    assert!((info.t.raw - SCALE).abs() <= 64);
    // |point - center|^2 is the squared radius, within tolerance.
    let offset = info.point.sub(v(0, 0, 3));
    assert!((dot(&offset, &offset).raw - 4 * SCALE).abs() <= 256);

    // Starting past the first root finds the far side of the shell.
    let inner = Ray3 {
        origin: v(0, 0, 0),
        direction: v(0, 0, 1),
        min_t: Fx::from_raw(3 * SCALE / 2),
        max_t: Fx::infinity(),
    };
    let far = sphere.intersect(&inner);
    assert!(far.did_hit);
    assert!((far.t.raw - 5 * SCALE).abs() <= 64);
    let far_offset = far.point.sub(v(0, 0, 3));
    assert!((dot(&far_offset, &far_offset).raw - 4 * SCALE).abs() <= 256);
}

#[test]
fn sphere_hit_with_tiny_direction_still_computes() {
    // A very short direction is not a miss: only an exactly zero-length
    // direction degenerates the quadratic.
    let sphere = sphere_at(0, 0, 3, 2);
    let creeping = Ray3::new(v(0, 0, 0), Vec3::new(Fx::zero(), Fx::zero(), Fx::from_raw(2000)));
    let info = sphere.intersect(&creeping);
    assert!(info.did_hit);
    // The surface plane z = 1 is reached near t = 1 / 0.0019.
    assert!(info.t.raw > 300 * SCALE && info.t.raw < 800 * SCALE);

    let zero_direction = Ray3::new(v(0, 0, 0), v(0, 0, 0));
    assert!(!sphere.intersect(&zero_direction).did_hit);
}

#[test]
fn sphere_miss_reports_no_intersection() {
    let sphere = sphere_at(0, 0, 3, 2);
    let away = Ray3::new(v(0, 0, 0), v(-1, -1, -1));
    let info = sphere.intersect(&away);
    assert!(!info.did_hit);
    assert_eq!(info.t.raw, FX_MAX);
}

#[test]
fn nearest_hit_is_order_independent() {
    // Three spheres of equal radius along the ray's axis; the nearest one
    // must win whatever the collection order.
    let ray = Ray3::new(v(0, 0, 0), v(0, 0, 1));
    let near = Shape::Sphere(sphere_at(0, 0, 2, 1));
    let middle = Shape::Sphere(sphere_at(0, 0, 5, 1));
    let far = Shape::Sphere(sphere_at(0, 0, 8, 1));

    let shuffled = ObjectGroup::new_from_vector(vec![
        white_object(middle),
        white_object(near),
        white_object(far),
    ]);
    let hit = shuffled.intersect(&ray);
    assert_eq!(hit.intersected_object, Some(1));
    assert!(hit.shape_intersection_info.did_hit);
    assert!((hit.shape_intersection_info.t.raw - SCALE).abs() <= 64);
    let p = hit.shape_intersection_info.point;
    assert!(p.x.raw.abs() <= 64 && p.y.raw.abs() <= 64 && (p.z.raw - SCALE).abs() <= 64);

    let ordered = ObjectGroup::new_from_vector(vec![
        white_object(near),
        white_object(middle),
        white_object(far),
    ]);
    let hit2 = ordered.intersect(&ray);
    assert_eq!(hit2.intersected_object, Some(0));
    assert_eq!(hit2.shape_intersection_info.t, hit.shape_intersection_info.t);
}

#[test]
fn empty_group_reports_no_intersection() {
    let group = ObjectGroup::new_from_vector(Vec::new());
    let hit = group.intersect(&Ray3::new(v(0, 0, 0), v(0, 0, 1)));
    assert_eq!(hit.intersected_object, None);
    assert!(!hit.shape_intersection_info.did_hit);
    assert_eq!(hit.shape_intersection_info.t.raw, FX_MAX);
}

#[test]
fn quad_parallel_ray_misses() {
    // A ray whose local direction has a zero z-component runs parallel to
    // the quad's plane and cannot hit it.
    let quad = Quad {
        width: Fx::from_i64(4),
        height: Fx::from_i64(4),
        transform: Transform::default(),
    };
    let parallel = Ray3::new(v(0, 0, 1), v(1, 0, 0));
    let info = quad.intersect(&parallel);
    assert!(!info.did_hit);
    assert_eq!(info.t.raw, FX_MAX);
}

#[test]
fn quad_plane_hit_is_projected_onto_the_plane() {
    let quad = Quad {
        width: Fx::from_i64(4),
        height: Fx::from_i64(4),
        transform: Transform::default(),
    };
    let upward = Ray3::new(v(1, 2, -3), v(0, 0, 1));
    let info = quad.intersect(&upward);
    assert!(info.did_hit);
    assert!((info.t.raw - 3 * SCALE).abs() <= 16);
    assert_eq!(info.point.z.raw, 0);
    assert!((info.point.x.raw - SCALE).abs() <= 16);
    assert!((info.point.y.raw - 2 * SCALE).abs() <= 16);
}

#[test]
fn constant_texture_ignores_its_arguments() {
    let texture = Texture::Constant(ConstantTexture::new_from_rgb(v(1, 0, 1)));
    let ray = Ray3::new(v(0, 0, 0), v(0, 0, 1));
    assert_eq!(texture.value_at(&ray, &TextureCoordinates::default()), v(1, 0, 1));
}

#[test]
fn lambertian_always_scatters_from_the_hit_point() {
    let sphere = sphere_at(0, 0, 3, 2);
    let ray = Ray3::new(v(0, 0, 0), v(0, 0, 1));
    let info = sphere.intersect(&ray);
    assert!(info.did_hit);
    let object = white_object(Shape::Sphere(sphere));
    let mut rng = RandomNumberGenerator::from_seed(5);
    let scatter = object.sample_new_ray(&ray, &info, &mut rng);
    assert!(scatter.did_scatter);
    assert_eq!(scatter.scattered_ray.origin, info.point);
    assert_eq!(scatter.light, Light::white());
    assert!(scatter.pdf.raw >= 0);
}

fn looking_down_minus_z(resolution: u32) -> CameraInfo {
    CameraInfo {
        transform: Transform::new_for_viewer(&v(0, 0, 0), &v(0, 0, -1), &v(0, 1, 0)).unwrap(),
        aperture_radius: Fx::zero(),
        focal_distance: Fx::one(),
        resolution: Resolution { width: resolution, height: resolution },
        vertical_fov: Angle { amount: Fx::from_i64(90), units: AngleUnits::Degrees },
    }
}

#[test]
fn zero_aperture_rays_ignore_the_generator() {
    let camera = Camera::new(looking_down_minus_z(9));
    let mut rng1 = RandomNumberGenerator::from_seed(1);
    let mut rng2 = RandomNumberGenerator::from_seed(999);
    let px = Fx::from_raw(4 * SCALE + SCALE / 2);
    let ray1 = camera.generate_ray(px, px, &mut rng1);
    let ray2 = camera.generate_ray(px, px, &mut rng2);
    assert_eq!(ray1, ray2);
    // The center pixel's ray points straight down the optical axis.
    assert!(ray1.direction.x.raw.abs() <= 8192);
    assert!(ray1.direction.y.raw.abs() <= 8192);
    assert!(ray1.direction.z.raw < 0);
}

#[test]
fn ambient_occlusion_in_an_open_scene() {
    // One large sphere on the optical axis, nothing else: pixels that hit it
    // see open sky on the scattered ray and come out white; pixels that miss
    // come out black.
    let objects = ObjectGroup::new_from_vector(vec![white_object(Shape::Sphere(sphere_at(
        0, 0, -3, 2,
    )))]);
    let info = SceneInfo {
        integrator: Integrator::AmbientOcclusion(AmbientOcclusionIntegrator {}),
        camera: Camera::new(looking_down_minus_z(9)),
        objects,
        rng: RandomNumberGenerator::from_seed(1),
        num_samples: 1,
        recursive_depth_limit: 64,
    };
    let mut scene = Scene::new(info);
    let image = scene.ray_trace();
    let center = image.get_pixel_color(&Pixel { x: 4, y: 4 });
    assert_eq!(center, Light::white());
    let corner = image.get_pixel_color(&Pixel { x: 0, y: 0 });
    assert_eq!(corner, Light::black());
}

#[test]
fn accumulating_identical_samples_averages_to_the_sample() {
    let resolution = Resolution { width: 2, height: 2 };
    let mut sample = Image::new(resolution);
    sample.set_pixel_color(&Pixel { x: 0, y: 0 }, v(1, 0, 0));
    sample.set_pixel_color(&Pixel { x: 1, y: 0 }, v(0, 1, 0));
    sample.set_pixel_color(&Pixel { x: 0, y: 1 }, v(0, 0, 1));
    sample.set_pixel_color(&Pixel { x: 1, y: 1 }, Vec3::new(
        Fx::from_raw(12345),
        Fx::from_raw(-77),
        Fx::from_raw(SCALE / 3),
    ));

    let mut buffer = ImageBuffer::new(resolution);
    assert_eq!(buffer.num_samples(), 0);
    let n = 5;
    for _ in 0..n {
        let mut copy = Image::new(resolution);
        for y in 0..2u32 {
            for x in 0..2u32 {
                let p = Pixel { x, y };
                copy.set_pixel_color(&p, sample.get_pixel_color(&p));
            }
        }
        buffer.add_sample(copy);
    }
    assert_eq!(buffer.num_samples(), n);

    let averaged = buffer.average_samples();
    for y in 0..2u32 {
        for x in 0..2u32 {
            let p = Pixel { x, y };
            assert_eq!(averaged.get_pixel_color(&p), sample.get_pixel_color(&p));
        }
    }
}
