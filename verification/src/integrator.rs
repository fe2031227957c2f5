//! The decisions of the recursive shading integrator.
//!
//! Shading one ray alternates arithmetic with decisions. The arithmetic
//! (intersections, dot products, Snell's law, the Phong sum) belongs to the
//! program; each decision is a function here, from the numbers that the
//! program has computed to what it has to do next.
use vstd::prelude::*;
use crate::cube::Cube;
use crate::material::Material;
use crate::ray_intersect::Intersect;
use crate::scalar::Scalar;

verus! {

/// The greatest depth at which a ray is still shaded. A ray cast deeper sees
/// the background.
pub const MAX_DEPTH: u32 = 3;

/// The distance by which the origin of a secondary ray is moved off the
/// surface: the binary32 number nearest to one ten-thousandth.
pub const ORIGIN_BIAS_BITS: u32 = 0x38d1_b717;

/// The distance from which on an emissive block lights no surface: ten.
pub const EMISSIVE_RANGE_BITS: u32 = 0x4120_0000;

/// The distance up to which an emissive block is taken to coincide with the
/// surface point: the binary32 number nearest to one hundredth.
pub const EMISSIVE_MIN_BITS: u32 = 0x3c23_d70a;

/// Whether `i` is the nearest hit among `hits`: a candidate that no other
/// candidate is nearer than, and the first of those that are as near.
pub open spec fn is_nearest(hits: Seq<Intersect>, i: int) -> bool {
    &&& 0 <= i < hits.len()
    &&& hits[i].is_candidate()
    &&& forall|j: int|
        0 <= j < hits.len() && (#[trigger] hits[j]).is_candidate() ==> hits[i].distance.rank()
            <= hits[j].distance.rank()
    &&& forall|j: int|
        0 <= j < i && (#[trigger] hits[j]).is_candidate() ==> hits[i].distance.rank()
            < hits[j].distance.rank()
}

/// Whether the ray hit nothing that could be its nearest hit.
pub open spec fn nothing_hit(hits: Seq<Intersect>) -> bool {
    forall|j: int| 0 <= j < hits.len() ==> !(#[trigger] hits[j]).is_candidate()
}

/// Whether something stands between a surface point and a source of light
/// that lies `reach` away along the ray whose findings are `hits`.
pub open spec fn occludes(hits: Seq<Intersect>, reach: Scalar) -> bool {
    exists|j: int| 0 <= j < hits.len() && (#[trigger] hits[j]).blocks(reach)
}

/// A ray has at most one nearest hit.
pub proof fn lemma_nearest_is_unique(hits: Seq<Intersect>, i: int, j: int)
    requires
        is_nearest(hits, i),
        is_nearest(hits, j),
    ensures
        i == j,
{
    if i < j {
        assert(hits[i].is_candidate());
    } else if j < i {
        assert(hits[j].is_candidate());
    }
}

/// A ray has a nearest hit, or has hit nothing, never both.
pub proof fn lemma_nearest_excludes_nothing(hits: Seq<Intersect>, i: int)
    requires
        is_nearest(hits, i),
    ensures
        !nothing_hit(hits),
{
    assert(hits[i].is_candidate());
}

/// The nearest hit of a ray, given what the ray found at each object of the
/// scene: the index of the object, or nothing where the ray escaped.
pub fn nearest_hit(hits: &[Intersect]) -> (nearest: Option<usize>)
    ensures
        nearest matches Some(i) ==> is_nearest(hits@, i as int),
        nearest is None ==> nothing_hit(hits@),
{
    let mut nearest: Option<usize> = None;
    let mut zbuffer: Scalar = Scalar::infinity();
    let mut k: usize = 0;
    while k < hits.len()
        invariant
            k <= hits.len(),
            !zbuffer.is_nan(),
            zbuffer.rank() <= Scalar::infinity().rank(),
            nearest is None ==> zbuffer == Scalar::infinity() && nothing_hit(hits@.take(k as int)),
            nearest matches Some(i) ==> i < k && zbuffer == hits@[i as int].distance && is_nearest(
                hits@.take(k as int),
                i as int,
            ),
        decreases hits.len() - k,
    {
        let hit: Intersect = hits[k];
        let ghost before = hits@.take(k as int);
        let ghost after = hits@.take(k as int + 1);
        assert(forall|j: int| 0 <= j < k ==> after[j] == before[j]);
        assert(after[k as int] == hit);
        if hit.is_intersecting && hit.distance.lt(zbuffer) {
            zbuffer = hit.distance;
            nearest = Some(k);
        }
        k = k + 1;
    }
    assert(hits@.take(hits.len() as int) == hits@);
    nearest
}

/// Whether a ray cast at `depth` lies beyond the depth bound, so that it sees
/// the background and need not be intersected with anything.
pub open spec fn spec_exceeds_depth(depth: u32) -> bool {
    depth > MAX_DEPTH
}

#[verifier::when_used_as_spec(spec_exceeds_depth)]
pub fn exceeds_depth(depth: u32) -> (b: bool)
    ensures
        b == spec_exceeds_depth(depth),
{
    depth > MAX_DEPTH
}

/// What a ray cast at `depth` sees: nothing beyond `MAX_DEPTH`, and nothing
/// where it hit nothing; else its nearest hit.
pub open spec fn spec_cast_ray(hits: Seq<Intersect>, depth: u32) -> Option<int> {
    if depth > MAX_DEPTH || nothing_hit(hits) {
        None
    } else {
        Some(choose|i: int| is_nearest(hits, i))
    }
}

/// What a ray cast at `depth` sees, given what it found at each object of
/// the scene: the index of the object to shade, or nothing, which stands for
/// the background. Beyond `MAX_DEPTH` a ray sees the background whatever it
/// found.
pub fn cast_ray(hits: &[Intersect], depth: u32) -> (seen: Option<usize>)
    ensures
        depth > MAX_DEPTH ==> seen is None,
        seen matches Some(i) ==> is_nearest(hits@, i as int),
        seen is None && depth <= MAX_DEPTH ==> nothing_hit(hits@),
        match seen {
            Some(i) => spec_cast_ray(hits@, depth) == Some(i as int),
            None => spec_cast_ray(hits@, depth) is None,
        },
{
    if exceeds_depth(depth) {
        return None;
    }
    let nearest = nearest_hit(hits);
    proof {
        if let Some(i) = nearest {
            lemma_nearest_excludes_nothing(hits@, i as int);
            let chosen = choose|c: int| is_nearest(hits@, c);
            lemma_nearest_is_unique(hits@, i as int, chosen);
        }
    }
    nearest
}

/// Whether something stands between a surface point and a source of light
/// that lies `reach` away along the ray whose findings are `hits`. Emissive
/// objects keep no light away.
pub fn is_occluded(hits: &[Intersect], reach: Scalar) -> (occluded: bool)
    ensures
        occluded == occludes(hits@, reach),
{
    let mut k: usize = 0;
    while k < hits.len()
        invariant
            k <= hits.len(),
            forall|j: int| 0 <= j < k ==> !(#[trigger] hits@[j]).blocks(reach),
        decreases hits.len() - k,
    {
        if hits[k].blocks(reach) {
            return true;
        }
        k = k + 1;
    }
    false
}

/// The shadow that lies on a surface point whose light is `light_distance`
/// away: one where something stands between them, else zero.
pub fn cast_shadow(hits: &[Intersect], light_distance: Scalar) -> (shadow: Scalar)
    ensures
        shadow == if occludes(hits@, light_distance) {
            Scalar::one()
        } else {
            Scalar::zero()
        },
{
    if is_occluded(hits, light_distance) {
        Scalar::one()
    } else {
        Scalar::zero()
    }
}

/// One occluder decides the shadow: where exactly one object stands between
/// a surface point and its light, the point lies in shadow, and without that
/// object it is lit.
pub proof fn lemma_single_occluder(hits: Seq<Intersect>, light_distance: Scalar, i: int)
    requires
        0 <= i < hits.len(),
        hits[i].blocks(light_distance),
        forall|j: int| 0 <= j < hits.len() && j != i ==> !(#[trigger] hits[j]).blocks(light_distance),
    ensures
        occludes(hits, light_distance),
        !occludes(hits.remove(i), light_distance),
{
    let rest = hits.remove(i);
    assert forall|j: int| 0 <= j < rest.len() implies !(#[trigger] rest[j]).blocks(
        light_distance,
    ) by {
        if j < i {
            assert(rest[j] == hits[j]);
        } else {
            assert(rest[j] == hits[j + 1]);
        }
    }
}

/// Whether an emissive block at the given distance lights a surface point:
/// it does from farther than a hundredth and nearer than ten.
pub open spec fn spec_emitter_in_range(distance: Scalar) -> bool {
    distance.lt(Scalar { bits: EMISSIVE_RANGE_BITS }) && distance.gt(
        Scalar { bits: EMISSIVE_MIN_BITS },
    )
}

#[verifier::when_used_as_spec(spec_emitter_in_range)]
pub fn emitter_in_range(distance: Scalar) -> (b: bool)
    ensures
        b == spec_emitter_in_range(distance),
{
    distance.lt(Scalar::from_bits(EMISSIVE_RANGE_BITS)) && distance.gt(
        Scalar::from_bits(EMISSIVE_MIN_BITS),
    )
}

/// Whether `emitters` lists the emissive blocks among `objects`: their
/// indices, every one of them, in rising order.
pub open spec fn lists_emitters(objects: Seq<Cube>, emitters: Seq<usize>) -> bool {
    &&& forall|k: int|
        0 <= k < emitters.len() ==> (#[trigger] emitters[k]) < objects.len()
            && objects[emitters[k] as int].material.is_emissive
    &&& forall|k: int, l: int| 0 <= k < l < emitters.len() ==> emitters[k] < emitters[l]
    &&& forall|i: int|
        0 <= i < objects.len() && (#[trigger] objects[i]).material.is_emissive ==> exists|k: int|
            0 <= k < emitters.len() && emitters[k] == i
}

/// The blocks of the scene that give off light, by index, in scene order.
/// Each of them is gathered as a point light at its centre.
pub fn emissive_blocks(objects: &[Cube]) -> (emitters: Vec<usize>)
    ensures
        lists_emitters(objects@, emitters@),
{
    let mut emitters: Vec<usize> = Vec::new();
    let mut i: usize = 0;
    while i < objects.len()
        invariant
            i <= objects.len(),
            lists_emitters(objects@.take(i as int), emitters@),
        decreases objects.len() - i,
    {
        let ghost before = objects@.take(i as int);
        let ghost after = objects@.take(i as int + 1);
        let ghost listed = emitters@;
        assert(forall|j: int| 0 <= j < i ==> after[j] == before[j]);
        assert(after[i as int] == objects@[i as int]);
        if objects[i].material.is_emissive {
            emitters.push(i);
            proof {
                assert forall|j: int|
                    0 <= j < after.len() && (#[trigger] after[j]).material.is_emissive implies exists|
                    k: int,
                | 0 <= k < emitters@.len() && emitters@[k] == j by {
                    if j < i {
                        assert(before[j].material.is_emissive);
                        let k = choose|k: int| 0 <= k < listed.len() && listed[k] == j;
                        assert(emitters@[k] == j);
                    } else {
                        assert(emitters@[listed.len() as int] == j);
                    }
                }
            }
        } else {
            proof {
                assert forall|j: int|
                    0 <= j < after.len() && (#[trigger] after[j]).material.is_emissive implies exists|
                    k: int,
                | 0 <= k < emitters@.len() && emitters@[k] == j by {
                    assert(before[j].material.is_emissive);
                }
            }
        }
        i = i + 1;
    }
    assert(objects@.take(objects.len() as int) == objects@);
    emitters
}

/// The signed distance by which the origin of a secondary ray is moved along
/// the surface normal: against the normal where the ray travels against it,
/// else along it.
pub open spec fn spec_offset_origin(direction_dot_normal: Scalar) -> Scalar {
    if direction_dot_normal.lt(Scalar::zero()) {
        Scalar { bits: ORIGIN_BIAS_BITS }.neg()
    } else {
        Scalar { bits: ORIGIN_BIAS_BITS }
    }
}

#[verifier::when_used_as_spec(spec_offset_origin)]
pub fn offset_origin(direction_dot_normal: Scalar) -> (offset: Scalar)
    ensures
        offset == spec_offset_origin(direction_dot_normal),
{
    let bias: Scalar = Scalar::from_bits(ORIGIN_BIAS_BITS);
    if direction_dot_normal.lt(Scalar::zero()) {
        bias.neg()
    } else {
        bias
    }
}

/// How a ray meets the boundary between the air and a medium.
#[derive(Clone, Copy, Debug, PartialEq, Eq, Structural)]
pub struct Incidence {
    /// The cosine of the angle of incidence, not negative.
    pub cosi: Scalar,
    /// The refractive index of the side the ray comes from.
    pub etai: Scalar,
    /// The refractive index of the side the ray goes to.
    pub etat: Scalar,
    /// Whether the ray leaves the medium; the normal is then turned around.
    pub exiting: bool,
}

/// The cosine between ray and normal, held within minus one and one.
pub open spec fn clamped_cosine(incident_dot_normal: Scalar) -> Scalar {
    incident_dot_normal.max(Scalar::one().neg()).min(Scalar::one())
}

/// How a ray meets a surface of the given refractive index, by the cosine
/// between the ray and the outward normal. A ray that travels along the
/// normal leaves the medium: the two indices change places. A ray that
/// travels against it enters, and the cosine changes its sign.
pub open spec fn spec_incidence(incident_dot_normal: Scalar, refractive_index: Scalar) -> Incidence {
    let cosine = clamped_cosine(incident_dot_normal);
    if cosine.gt(Scalar::zero()) {
        Incidence { cosi: cosine, etai: refractive_index, etat: Scalar::one(), exiting: true }
    } else {
        Incidence {
            cosi: cosine.neg(),
            etai: Scalar::one(),
            etat: refractive_index,
            exiting: false,
        }
    }
}

#[verifier::when_used_as_spec(spec_incidence)]
pub fn incidence(incident_dot_normal: Scalar, refractive_index: Scalar) -> (i: Incidence)
    ensures
        i == spec_incidence(incident_dot_normal, refractive_index),
        !i.cosi.is_nan(),
        0 <= i.cosi.rank() <= Scalar::one().rank(),
{
    let one: Scalar = Scalar::one();
    let cosine: Scalar = incident_dot_normal.max(one.neg()).min(one);
    if cosine.gt(Scalar::zero()) {
        Incidence { cosi: cosine, etai: refractive_index, etat: one, exiting: true }
    } else {
        Incidence { cosi: cosine.neg(), etai: one, etat: refractive_index, exiting: false }
    }
}

/// The ray that carries on where a ray meets a surface.
#[derive(Clone, Copy, Debug, PartialEq, Eq, Structural)]
pub enum Bounce {
    Reflected,
    Refracted,
}

/// What becomes of the transmitted ray, by the discriminant of Snell's law:
/// below zero there is no refracted ray, and the ray is reflected instead.
pub open spec fn spec_refract(discriminant: Scalar) -> Bounce {
    if discriminant.lt(Scalar::zero()) {
        Bounce::Reflected
    } else {
        Bounce::Refracted
    }
}

#[verifier::when_used_as_spec(spec_refract)]
pub fn refract(discriminant: Scalar) -> (b: Bounce)
    ensures
        b == spec_refract(discriminant),
{
    if discriminant.lt(Scalar::zero()) {
        Bounce::Reflected
    } else {
        Bounce::Refracted
    }
}

/// The rays that follow from a hit.
#[derive(Clone, Copy, Debug, PartialEq, Eq, Structural)]
pub struct SecondaryRays {
    /// Whether a ray is cast in the mirror direction.
    pub reflect: bool,
    /// Whether a ray is cast through the surface.
    pub transmit: bool,
    /// The depth at which they are cast.
    pub depth: u32,
}

/// How many more times a ray cast at `depth` can be followed by a secondary
/// ray before a ray sees the background whatever it hits.
pub open spec fn bounces_left(depth: u32) -> nat {
    if depth > MAX_DEPTH {
        0
    } else {
        (MAX_DEPTH + 1 - depth) as nat
    }
}

/// The rays that follow from a hit on `material` by a ray of the given
/// depth: one for each of the two weights that is above zero, one level
/// deeper. Each level brings the rays one bounce nearer to the background.
pub fn secondary_rays(material: Material, depth: u32) -> (rays: SecondaryRays)
    requires
        depth < u32::MAX,
    ensures
        rays.reflect == material.reflects(),
        rays.transmit == material.refracts(),
        rays.depth == depth + 1,
        !exceeds_depth(depth) ==> bounces_left(rays.depth) < bounces_left(depth),
{
    SecondaryRays { reflect: material.reflects(), transmit: material.refracts(), depth: depth + 1 }
}

/// The greatest number of rays in the tree that a ray cast at `depth`
/// starts: the ray itself and, where it is still shaded, a reflected and a
/// transmitted ray one level deeper.
pub open spec fn ray_tree_size(depth: nat) -> nat
    decreases MAX_DEPTH + 1 - depth,
{
    if depth > MAX_DEPTH {
        1
    } else {
        1 + 2 * ray_tree_size(depth + 1)
    }
}

/// The recursion ends: a primary ray is followed through at most four
/// bounces and starts a tree of at most 31 rays, of which the 16 at depth
/// `MAX_DEPTH + 1` see the background, whatever they hit, and cast no
/// further ray.
pub proof fn lemma_ray_tree_is_finite()
    ensures
        bounces_left(0) == 4,
        ray_tree_size(0) == 31,
        ray_tree_size(MAX_DEPTH as nat + 1) == 1,
        forall|hits: Seq<Intersect>, depth: u32|
            bounces_left(depth) == 0 ==> #[trigger] spec_cast_ray(hits, depth) is None,
{
    reveal_with_fuel(ray_tree_size, 6);
}

} // verus!
