//! Scenes traced end to end: the arithmetic is done here in binary32, every
//! decision is the library's.
use voxel_diorama::cube::{normal_of, uv_axes, Axis, Cube, Face, Planes, Position};
use voxel_diorama::framebuffer::Color;
use voxel_diorama::integrator::{
    cast_ray, cast_shadow, emissive_blocks, emitter_in_range, incidence, is_occluded,
    offset_origin, refract, secondary_rays, Bounce,
};
use voxel_diorama::material::{Albedo, Material, Rgb};
use voxel_diorama::ray_intersect::Intersect;
use voxel_diorama::scalar::Scalar;

fn s(x: f32) -> Scalar {
    Scalar::from_bits(x.to_bits())
}

fn f(x: Scalar) -> f32 {
    f32::from_bits(x.to_bits())
}

#[derive(Clone, Copy, Debug, PartialEq)]
struct V3 {
    x: f32,
    y: f32,
    z: f32,
}

fn v3(x: f32, y: f32, z: f32) -> V3 {
    V3 { x, y, z }
}

impl V3 {
    fn plus(self, o: V3) -> V3 {
        v3(self.x + o.x, self.y + o.y, self.z + o.z)
    }

    fn minus(self, o: V3) -> V3 {
        v3(self.x - o.x, self.y - o.y, self.z - o.z)
    }

    fn times(self, k: f32) -> V3 {
        v3(self.x * k, self.y * k, self.z * k)
    }

    fn scaled_by(self, o: V3) -> V3 {
        v3(self.x * o.x, self.y * o.y, self.z * o.z)
    }

    fn dot(self, o: V3) -> f32 {
        self.x * o.x + self.y * o.y + self.z * o.z
    }

    fn length(self) -> f32 {
        self.dot(self).sqrt()
    }

    fn normalized(self) -> V3 {
        let length = self.length();
        if length == 0.0 {
            self
        } else {
            self.times(1.0 / length)
        }
    }

    fn get(self, axis: Axis) -> f32 {
        match axis {
            Axis::X => self.x,
            Axis::Y => self.y,
            Axis::Z => self.z,
        }
    }
}

const SKY: V3 = V3 { x: 0.26, y: 0.55, z: 0.89 };

struct Hit {
    record: Intersect,
    point: V3,
    normal: V3,
    uv: (f32, f32),
}

fn world(cube: &Cube) -> (V3, f32) {
    let c = cube.center;
    (v3(c.x as f32 * 0.25, c.y as f32 * 0.25, c.z as f32 * 0.25), cube.size as f32 * 0.25 / 2.0)
}

fn ray_intersect(cube: &Cube, origin: V3, direction: V3) -> Hit {
    let (center, half) = world(cube);
    let min = v3(center.x - half, center.y - half, center.z - half);
    let max = v3(center.x + half, center.y + half, center.z + half);
    let inv = v3(1.0 / direction.x, 1.0 / direction.y, 1.0 / direction.z);
    let slabs = Planes {
        x_min: s((min.x - origin.x) * inv.x),
        x_max: s((max.x - origin.x) * inv.x),
        y_min: s((min.y - origin.y) * inv.y),
        y_max: s((max.y - origin.y) * inv.y),
        z_min: s((min.z - origin.z) * inv.z),
        z_max: s((max.z - origin.z) * inv.z),
    };
    let distance = match slabs.hit_parameter() {
        Some(t) => t,
        None => {
            return Hit {
                record: Intersect::empty(),
                point: v3(0.0, 0.0, 0.0),
                normal: v3(0.0, 0.0, 0.0),
                uv: (0.0, 0.0),
            }
        }
    };
    let point = origin.plus(direction.times(f(distance)));
    let offsets = Planes {
        x_min: s(point.x - min.x),
        x_max: s(point.x - max.x),
        y_min: s(point.y - min.y),
        y_max: s(point.y - max.y),
        z_min: s(point.z - min.z),
        z_max: s(point.z - max.z),
    };
    let face = offsets.select_face();
    let (nx, ny, nz) = normal_of(face);
    let local = point.minus(center);
    let (u_axis, v_axis) = uv_axes(face);
    Hit {
        record: Intersect::new(distance, face, cube.material),
        point,
        normal: v3(nx as f32, ny as f32, nz as f32),
        uv: ((local.get(u_axis) / half + 1.0) / 2.0, (local.get(v_axis) / half + 1.0) / 2.0),
    }
}

fn intersect_all(objects: &[Cube], origin: V3, direction: V3) -> Vec<Hit> {
    objects.iter().map(|o| ray_intersect(o, origin, direction)).collect()
}

fn records(hits: &[Hit]) -> Vec<Intersect> {
    hits.iter().map(|h| h.record).collect()
}

fn moved_off(hit: &Hit, direction: V3) -> V3 {
    hit.point.plus(hit.normal.times(f(offset_origin(s(direction.dot(hit.normal))))))
}

fn mirror_direction(incident: V3, normal: V3) -> V3 {
    incident.minus(normal.times(2.0).times(incident.dot(normal)))
}

fn refracted_direction(incident: V3, normal: V3, refractive_index: f32) -> Option<V3> {
    let at = incidence(s(incident.dot(normal)), s(refractive_index));
    let n = if at.exiting { normal.times(-1.0) } else { normal };
    let eta = f(at.etai) / f(at.etat);
    let cosi = f(at.cosi);
    let k = 1.0 - eta * eta * (1.0 - cosi * cosi);
    match refract(s(k)) {
        Bounce::Reflected => None,
        Bounce::Refracted => Some(incident.times(eta).plus(n.times(eta * cosi - k.sqrt()))),
    }
}

fn hundredths(n: u32) -> f32 {
    n as f32 / 100.0
}

fn colour(c: Rgb) -> V3 {
    v3(hundredths(c.r), hundredths(c.g), hundredths(c.b))
}

struct Light {
    position: V3,
    color: V3,
    intensity: f32,
}

struct Tracer<'a> {
    objects: &'a [Cube],
    light: &'a Light,
    rays: std::cell::Cell<u32>,
    deepest: std::cell::Cell<u32>,
}

impl<'a> Tracer<'a> {
    fn new(objects: &'a [Cube], light: &'a Light) -> Self {
        Tracer { objects, light, rays: std::cell::Cell::new(0), deepest: std::cell::Cell::new(0) }
    }

    fn shadow(&self, hit: &Hit) -> f32 {
        let to_light = self.light.position.minus(hit.point);
        let direction = to_light.normalized();
        let origin = moved_off(hit, direction);
        let found = records(&intersect_all(self.objects, origin, direction));
        f(cast_shadow(&found, s(to_light.length())))
    }

    fn cast(&self, origin: V3, direction: V3, depth: u32) -> V3 {
        self.rays.set(self.rays.get() + 1);
        self.deepest.set(self.deepest.get().max(depth));
        let hits = intersect_all(self.objects, origin, direction);
        let hit = match cast_ray(&records(&hits), depth) {
            Some(nearest) => &hits[nearest],
            None => return SKY,
        };
        let material = hit.record.material;
        let normal = hit.normal;
        let light_dir = self.light.position.minus(hit.point).normalized();
        let view_dir = origin.minus(hit.point).normalized();
        let light_mirror = mirror_direction(light_dir.times(-1.0), normal).normalized();
        let light_intensity = self.light.intensity * (1.0 - self.shadow(hit));
        let diffuse_color = colour(material.diffuse);
        let diffuse = diffuse_color.times(normal.dot(light_dir).max(0.0) * light_intensity);
        let specular_intensity = view_dir.dot(light_mirror).max(0.0).powf(hundredths(material.specular))
            * light_intensity;
        let specular = self.light.color.times(specular_intensity);
        let phong = diffuse
            .times(hundredths(material.albedo.diffuse))
            .plus(specular.times(hundredths(material.albedo.specular)));

        let mut gathered = v3(0.0, 0.0, 0.0);
        for emitter in emissive_blocks(self.objects) {
            let (center, _) = world(&self.objects[emitter]);
            let towards = center.minus(hit.point);
            let distance = towards.length();
            if emitter_in_range(s(distance)) {
                let direction = towards.normalized();
                let from = moved_off(hit, direction);
                let found = records(&intersect_all(self.objects, from, direction));
                if !is_occluded(&found, s(distance)) {
                    let emitted = self.objects[emitter].material;
                    let attenuation = 1.0 / (1.0 + 0.1 * distance * distance);
                    let strength = normal.dot(direction).max(0.0)
                        * hundredths(emitted.emission_intensity)
                        * attenuation;
                    gathered = gathered
                        .plus(colour(emitted.emission_color).times(strength).scaled_by(diffuse_color));
                }
            }
        }

        let own = if material.is_emissive {
            colour(material.emission_color).times(hundredths(material.emission_intensity))
        } else {
            v3(0.0, 0.0, 0.0)
        };

        let rays = secondary_rays(material, depth);
        let reflectivity = hundredths(material.albedo.reflect);
        let transparency = hundredths(material.albedo.refract);
        let reflected = if rays.reflect {
            let direction = mirror_direction(direction, normal).normalized();
            self.cast(moved_off(hit, direction), direction, rays.depth)
        } else {
            v3(0.0, 0.0, 0.0)
        };
        let transmitted = if rays.transmit {
            let index = hundredths(material.refractive_index);
            let direction = match refracted_direction(direction, normal, index) {
                Some(direction) => direction,
                None => mirror_direction(direction, normal).normalized(),
            };
            self.cast(moved_off(hit, direction), direction, rays.depth)
        } else {
            v3(0.0, 0.0, 0.0)
        };

        phong
            .times(1.0 - reflectivity - transparency)
            .plus(reflected.times(reflectivity))
            .plus(transmitted.times(transparency))
            .plus(gathered)
            .plus(own)
    }
}

fn material(diffuse: (u32, u32, u32), albedo: (u32, u32, u32, u32), refractive_index: u32) -> Material {
    Material::new(
        Rgb { r: diffuse.0, g: diffuse.1, b: diffuse.2 },
        1000,
        Albedo { diffuse: albedo.0, specular: albedo.1, reflect: albedo.2, refract: albedo.3 },
        refractive_index,
        None,
        None,
    )
}

fn cube(center: (i64, i64, i64), size: i64, material: Material) -> Cube {
    Cube { center: Position { x: center.0, y: center.1, z: center.2 }, size, material }
}

fn white_light(position: V3, intensity: f32) -> Light {
    Light { position, color: v3(1.0, 1.0, 1.0), intensity }
}

fn close(a: V3, b: V3) -> bool {
    (a.x - b.x).abs() < 1.0e-5 && (a.y - b.y).abs() < 1.0e-5 && (a.z - b.z).abs() < 1.0e-5
}

#[test]
fn red_cube_under_the_light_shows_its_colour() {
    let red = material((100, 0, 0), (100, 0, 0, 0), 0);
    let objects = [cube((0, 0, 0), 2, red)];
    let light = white_light(v3(0.0, 8.0, 0.0), 1.0);
    let tracer = Tracer::new(&objects, &light);
    let eye = v3(0.0, 5.0, 0.0);
    let (right, up, forward) = (v3(1.0, 0.0, 0.0), v3(0.0, 0.0, -1.0), v3(0.0, -1.0, 0.0));
    let (width, height) = (5.0f32, 5.0f32);
    let scale = (std::f32::consts::PI / 6.0).tan();
    let screen_x = ((2.0 * 2.5) / width - 1.0) * (width / height) * scale;
    let screen_y = (-(2.0 * 2.5) / height + 1.0) * scale;
    let camera_dir = v3(screen_x, screen_y, -1.0).normalized();
    let direction = right
        .times(camera_dir.x)
        .plus(up.times(camera_dir.y))
        .minus(forward.times(camera_dir.z));
    assert_eq!(direction, v3(0.0, -1.0, 0.0));
    let seen = tracer.cast(eye, direction, 0);
    assert!(close(seen, v3(1.0, 0.0, 0.0)), "{seen:?}");
    assert_eq!(tracer.rays.get(), 1);
    let pixel = Color::quantize(s(seen.x * 255.0), s(seen.y * 255.0), s(seen.z * 255.0));
    assert_eq!(pixel, Color::new(255, 0, 0, 255));
}

#[test]
fn ray_that_hits_nothing_sees_the_sky() {
    let light = white_light(v3(0.0, 8.0, 0.0), 1.0);
    let tracer = Tracer::new(&[], &light);
    assert_eq!(tracer.cast(v3(0.0, 0.0, 5.0), v3(0.0, 0.0, -1.0), 0), SKY);
    let objects = [cube((0, 0, 0), 2, material((100, 0, 0), (100, 0, 0, 0), 0))];
    let tracer = Tracer::new(&objects, &light);
    assert_eq!(tracer.cast(v3(0.0, 0.0, 5.0), v3(0.0, 0.0, 1.0), 0), SKY);
    assert_eq!(tracer.cast(v3(2.0, 0.0, 5.0), v3(0.0, 0.0, -1.0), 0), SKY);
}

#[test]
fn occluder_between_surface_and_light_darkens_it() {
    let white = material((100, 100, 100), (100, 0, 0, 0), 0);
    let floor = cube((0, 0, 0), 2, white);
    let lid = cube((0, 8, 0), 2, white);
    let light = white_light(v3(0.0, 8.0, 0.0), 1.0);
    let eye = v3(3.0, 3.25, 0.0);
    let direction = v3(-3.0, -3.0, 0.0).normalized();

    let open = [floor];
    let lit = Tracer::new(&open, &light).cast(eye, direction, 0);
    assert!(close(lit, v3(1.0, 1.0, 1.0)), "{lit:?}");

    let closed = [floor, lid];
    let tracer = Tracer::new(&closed, &light);
    let hits = intersect_all(&closed, eye, direction);
    let nearest = cast_ray(&records(&hits), 0).unwrap();
    assert_eq!(nearest, 0);
    assert_eq!(hits[nearest].record.face, Some(Face::YMax));
    assert!(close(hits[nearest].point, v3(0.0, 0.25, 0.0)));
    assert_eq!(tracer.shadow(&hits[nearest]), 1.0);
    let dark = tracer.cast(eye, direction, 0);
    assert_eq!(dark, v3(0.0, 0.0, 0.0));

    assert_eq!(Tracer::new(&open, &light).shadow(&hits[nearest]), 0.0);
}

#[test]
fn perfect_mirror_under_an_empty_sky_shows_the_sky() {
    let mirror = material((100, 100, 100), (0, 0, 100, 0), 0);
    let objects = [cube((0, 0, 0), 2, mirror)];
    let light = white_light(v3(0.0, 8.0, 0.0), 1.0);
    let tracer = Tracer::new(&objects, &light);
    let seen = tracer.cast(v3(0.0, 0.0, 5.0), v3(0.0, 0.0, -1.0), 0);
    assert_eq!(seen, SKY);
    assert_eq!(tracer.rays.get(), 2);
    let oblique = tracer.cast(v3(1.0, 3.0, 0.1), v3(-1.0, -2.9, -0.1).normalized(), 0);
    assert_eq!(oblique, SKY);
}

#[test]
fn mirrored_room_ends_with_the_sky_at_the_depth_bound() {
    let mirror = material((100, 100, 100), (0, 0, 100, 0), 0);
    let walls = [
        cube((-24, 0, 0), 40, mirror),
        cube((24, 0, 0), 40, mirror),
        cube((0, -24, 0), 40, mirror),
        cube((0, 24, 0), 40, mirror),
        cube((0, 0, -24), 40, mirror),
        cube((0, 0, 24), 40, mirror),
    ];
    let light = white_light(v3(0.0, 0.5, 0.0), 1.0);
    let tracer = Tracer::new(&walls, &light);
    let seen = tracer.cast(v3(0.0, 0.0, 0.0), v3(0.3, 0.5, -0.8).normalized(), 0);
    assert_eq!(seen, SKY);
    assert_eq!(tracer.rays.get(), 5);
    assert_eq!(tracer.deepest.get(), 4);
}

#[test]
fn glass_spawns_a_bounded_tree_of_rays() {
    let glass = material((50, 80, 100), (0, 30, 40, 80), 320);
    let walls = [
        cube((-24, 0, 0), 40, glass),
        cube((24, 0, 0), 40, glass),
        cube((0, -24, 0), 40, glass),
        cube((0, 24, 0), 40, glass),
        cube((0, 0, -24), 40, glass),
        cube((0, 0, 24), 40, glass),
    ];
    let light = white_light(v3(0.0, 0.5, 0.0), 1.0);
    let tracer = Tracer::new(&walls, &light);
    let seen = tracer.cast(v3(0.0, 0.0, 0.0), v3(0.3, 0.5, -0.8).normalized(), 0);
    assert!(seen.x.is_finite() && seen.y.is_finite() && seen.z.is_finite());
    assert!(tracer.rays.get() <= 31);
    assert!(tracer.deepest.get() <= 4);
}

#[test]
fn refraction_follows_snell() {
    let normal = v3(0.0, 0.0, 1.0);
    let straight = refracted_direction(v3(0.0, 0.0, -1.0), normal, 1.5).unwrap();
    assert!(close(straight, v3(0.0, 0.0, -1.0)), "{straight:?}");

    let incident = v3(1.0, 0.0, -1.0).normalized();
    let bent = refracted_direction(incident, normal, 1.5).unwrap();
    let sin_in = incident.x;
    let sin_out = bent.x / bent.length();
    assert!((sin_out - sin_in / 1.5).abs() < 1.0e-6);
    assert!(bent.z < 0.0);
    assert!((bent.length() - 1.0).abs() < 1.0e-6);
    assert!(sin_out < sin_in);

    let leaving = v3(0.3, 0.0, 1.0).normalized();
    let out = refracted_direction(leaving, normal, 1.5).unwrap();
    assert!((out.x / out.length() - leaving.x * 1.5).abs() < 1.0e-6);
    assert!(out.z > 0.0);
}

#[test]
fn beyond_the_critical_angle_the_ray_is_reflected() {
    let normal = v3(0.0, 0.0, 1.0);
    let grazing = v3(1.0, 0.0, 0.2).normalized();
    assert_eq!(refracted_direction(grazing, normal, 1.5), None);
    let glass = material((50, 80, 100), (0, 0, 0, 100), 150);
    let rays = secondary_rays(glass, 0);
    assert!(rays.transmit && !rays.reflect);
    let fallback = mirror_direction(grazing, normal).normalized();
    assert!(close(fallback, v3(grazing.x, 0.0, -grazing.z)), "{fallback:?}");
}

#[test]
fn glowstone_lights_what_the_sun_does_not() {
    let white = material((100, 100, 100), (100, 0, 0, 0), 0);
    let glow = Material::new_emissive(
        Rgb { r: 90, g: 90, b: 20 },
        3000,
        Albedo { diffuse: 70, specular: 30, reflect: 0, refract: 0 },
        0,
        None,
        None,
        60,
        Rgb { r: 100, g: 95, b: 30 },
    );
    let floor = cube((0, 0, 0), 2, white);
    let lamp = cube((0, 8, 0), 2, glow);
    let objects = [floor, lamp];
    let light = white_light(v3(0.0, 8.0, 0.0), 0.0);
    let tracer = Tracer::new(&objects, &light);
    let seen = tracer.cast(v3(3.0, 3.25, 0.0), v3(-3.0, -3.0, 0.0).normalized(), 0);
    let distance = 1.75f32;
    let attenuation = 1.0 / (1.0 + 0.1 * distance * distance);
    let expected = v3(1.0, 0.95, 0.3).times(0.6 * attenuation);
    assert!(close(seen, expected), "{seen:?} {expected:?}");

    let wall = cube((0, 4, 0), 2, white);
    let blocked = [floor, lamp, wall];
    let tracer = Tracer::new(&blocked, &light);
    let seen = tracer.cast(v3(3.0, 3.25, 0.0), v3(-3.0, -3.0, 0.0).normalized(), 0);
    assert_eq!(seen, v3(0.0, 0.0, 0.0));
}

#[test]
fn texture_coordinates_run_from_zero_to_one() {
    let white = material((100, 100, 100), (100, 0, 0, 0), 0);
    let block = cube((0, 0, 0), 4, white);
    let hit = ray_intersect(&block, v3(-0.25, 0.25, 5.0), v3(0.0, 0.0, -1.0));
    assert_eq!(hit.record.face, Some(Face::ZMax));
    assert_eq!(hit.uv, (0.25, 0.75));
    let hit = ray_intersect(&block, v3(5.0, -0.25, 0.25), v3(-1.0, 0.0, 0.0));
    assert_eq!(hit.record.face, Some(Face::XMax));
    assert_eq!(hit.uv, (0.75, 0.25));
    let hit = ray_intersect(&block, v3(0.5, 5.0, -0.5), v3(0.0, -1.0, 0.0));
    assert_eq!(hit.record.face, None);
    let hit = ray_intersect(&block, v3(0.375, 5.0, -0.5 + 0.125), v3(0.0, -1.0, 0.0));
    assert_eq!(hit.record.face, Some(Face::YMax));
    assert_eq!(hit.uv, (0.875, 0.125));
    let image_width = 16.0f32;
    assert_eq!(s(0.25 * image_width).to_u32(), 4);
    assert_eq!(s(0.999 * image_width).to_u32(), 15);
}
