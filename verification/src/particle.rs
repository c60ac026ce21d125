//! Particles in the simulation.
//!
//! A particle system stores its particles as a structure of arrays: catalog
//! metadata (stable ID, name, radius) and numerical state (mass, position,
//! velocity). Every array is indexed by the same particle index. Massive
//! particles are stored before massless test particles, so force code can
//! treat the indices below the massive count as the only gravitating
//! particles.
//!
//! Masses, radii and vector components are IEEE-754 binary64 values carried
//! as their bit patterns.
use vstd::prelude::*;

use crate::math_util::vector3::copy_bits;
use crate::math_util::{Vector3, Vector3Series};

verus! {

/// Bit pattern of `+0.0`.
pub const POSITIVE_ZERO_BITS: u64 = 0u64;

/// Bit pattern of `-0.0`.
pub const NEGATIVE_ZERO_BITS: u64 = 0x8000_0000_0000_0000u64;

/// A mass whose bit pattern is a binary64 zero (`+0.0` or `-0.0`), that is a
/// mass that compares equal to `0.0`; such a particle is a massless test
/// particle.
pub open spec fn is_massless_mass(mass: u64) -> bool {
    mass == POSITIVE_ZERO_BITS || mass == NEGATIVE_ZERO_BITS
}

/// Tests whether a mass compares equal to `0.0`.
fn is_massless(mass: u64) -> (b: bool)
    ensures
        b == is_massless_mass(mass),
{
    mass == POSITIVE_ZERO_BITS || mass == NEGATIVE_ZERO_BITS
}

/// Initial metadata and state used to add one particle to a system.
pub struct Particle {
    /// Name of the particle, also used as the output filename stem.
    pub name: String,
    /// Radius of the particle (binary64 bit pattern).
    pub radius: u64,
    /// Initial position `(x, y, z)`.
    pub position: Vector3,
    /// Initial velocity `(u, v, w)`.
    pub velocity: Vector3,
    /// Mass (binary64 bit pattern); zero denotes a massless test particle.
    pub mass: u64,
}

impl Clone for Particle {
    /// Copies the particle's name and values.
    fn clone(&self) -> (r: Self)
        ensures
            r == *self,
    {
        Particle {
            name: self.name.clone(),
            radius: self.radius,
            position: self.position,
            velocity: self.velocity,
            mass: self.mass,
        }
    }
}

/// A particle together with the stable ID assigned when it was added.
pub type Entry = (usize, Particle);

/// The IDs of a sequence of entries are pairwise distinct.
pub open spec fn ids_distinct(entries: Seq<Entry>) -> bool {
    forall|i: int, j: int|
        0 <= i < entries.len() && 0 <= j < entries.len() && i != j ==> #[trigger] entries[i].0
            != #[trigger] entries[j].0
}

/// Every ID of a sequence of entries is below `bound`.
pub open spec fn ids_below(entries: Seq<Entry>, bound: nat) -> bool {
    forall|i: int| 0 <= i < entries.len() ==> #[trigger] entries[i].0 < bound
}

/// Every entry of the sequence is massive.
pub open spec fn all_massive(entries: Seq<Entry>) -> bool {
    forall|i: int| 0 <= i < entries.len() ==> !is_massless_mass(#[trigger] entries[i].1.mass)
}

/// Every entry of the sequence is massless.
pub open spec fn all_massless(entries: Seq<Entry>) -> bool {
    forall|i: int| 0 <= i < entries.len() ==> is_massless_mass(#[trigger] entries[i].1.mass)
}

/// The entries are stored massive first: the first `massive_count` entries are
/// massive and all later entries are massless.
pub open spec fn partitioned(entries: Seq<Entry>, massive_count: nat) -> bool {
    &&& massive_count <= entries.len()
    &&& all_massive(entries.take(massive_count as int))
    &&& all_massless(entries.skip(massive_count as int))
}

/// The particle sequence of a system after `particle` is added to a system
/// whose particles are `entries`, of which the first `massive_count` are
/// massive. The new particle receives the next ID, the number of particles
/// already present. A massive particle is placed after the massive particles
/// already present; a massless particle is placed last.
pub open spec fn entries_after_add(
    entries: Seq<Entry>,
    massive_count: nat,
    particle: Particle,
) -> Seq<Entry> {
    let entry = (entries.len() as usize, particle);
    if is_massless_mass(particle.mass) {
        entries.push(entry)
    } else {
        entries.insert(massive_count as int, entry)
    }
}

/// The massive and massless lists of a builder after `particle` is added to a
/// builder holding `massive` and `massless`. The new particle receives the
/// next ID, the number of particles already added, and is appended to the
/// list of its mass category.
pub open spec fn lists_after_add(
    massive: Seq<Entry>,
    massless: Seq<Entry>,
    particle: Particle,
) -> (Seq<Entry>, Seq<Entry>) {
    let entry = ((massive.len() + massless.len()) as usize, particle);
    if is_massless_mass(particle.mass) {
        (massive, massless.push(entry))
    } else {
        (massive.push(entry), massless)
    }
}

/// Persistent metadata associated with each particle.
///
/// Every vector is indexed by the same particle index.
#[derive(Default)]
pub struct ParticleCatalog {
    /// Stable numeric ID assigned when the particle is added.
    id: Vec<usize>,
    /// Particle names, also used as output filename stems.
    name: Vec<String>,
    /// Particle radii (binary64 bit patterns).
    radius: Vec<u64>,
}

impl ParticleCatalog {
    /// The stable IDs, by particle index.
    pub closed spec fn spec_ids(&self) -> Seq<usize> {
        self.id@
    }

    /// The names, by particle index.
    pub closed spec fn spec_names(&self) -> Seq<String> {
        self.name@
    }

    /// The radii, by particle index.
    pub closed spec fn spec_radii(&self) -> Seq<u64> {
        self.radius@
    }

    /// Returns the stable IDs of the particles, by particle index.
    pub fn ids(&self) -> (ids: &[usize])
        ensures
            ids@ == self.spec_ids(),
    {
        self.id.as_slice()
    }

    /// Returns the name of the particle at `particle_index`, or `None` when
    /// the index does not refer to a catalog entry.
    pub fn get_particle_name(&self, particle_index: usize) -> (name: Option<&String>)
        ensures
            particle_index < self.spec_names().len() ==> name == Some(
                &self.spec_names()[particle_index as int],
            ),
            particle_index >= self.spec_names().len() ==> name is None,
    {
        if particle_index < self.name.len() {
            Some(&self.name[particle_index])
        } else {
            None
        }
    }
}

/// Time-varying numerical state stored for all particles.
#[derive(Default)]
pub struct ParticleState {
    /// Particle masses; zero denotes a massless test particle.
    masses: Vec<u64>,
    /// Cartesian positions.
    positions: Vector3Series,
    /// Cartesian velocities.
    velocities: Vector3Series,
    /// Number of massive particles.
    massive_count: usize,
    /// Number of particles.
    particle_count: usize,
}

impl Clone for ParticleCatalog {
    /// Copies every catalog array.
    fn clone(&self) -> (r: Self)
        ensures
            r.spec_ids() == self.spec_ids(),
            r.spec_names() == self.spec_names(),
            r.spec_radii() == self.spec_radii(),
    {
        let id = self.id.clone();
        let name = self.name.clone();
        assert(id@ =~= self.id@);
        assert(name@ =~= self.name@);
        ParticleCatalog { id, name, radius: copy_bits(&self.radius) }
    }
}

impl Clone for ParticleState {
    /// Copies every state array and count.
    fn clone(&self) -> (r: Self)
        ensures
            r.spec_masses() == self.spec_masses(),
            r.spec_positions().x@ == self.spec_positions().x@,
            r.spec_positions().y@ == self.spec_positions().y@,
            r.spec_positions().z@ == self.spec_positions().z@,
            r.spec_velocities().x@ == self.spec_velocities().x@,
            r.spec_velocities().y@ == self.spec_velocities().y@,
            r.spec_velocities().z@ == self.spec_velocities().z@,
            r.spec_massive_count() == self.spec_massive_count(),
            r.spec_particle_count() == self.spec_particle_count(),
    {
        ParticleState {
            masses: copy_bits(&self.masses),
            positions: self.positions.clone(),
            velocities: self.velocities.clone(),
            massive_count: self.massive_count,
            particle_count: self.particle_count,
        }
    }
}

impl ParticleState {
    /// The masses, by particle index.
    pub closed spec fn spec_masses(&self) -> Seq<u64> {
        self.masses@
    }

    /// The position series.
    pub closed spec fn spec_positions(&self) -> Vector3Series {
        self.positions
    }

    /// The velocity series.
    pub closed spec fn spec_velocities(&self) -> Vector3Series {
        self.velocities
    }

    /// The recorded number of massive particles.
    pub closed spec fn spec_massive_count(&self) -> nat {
        self.massive_count as nat
    }

    /// The recorded number of particles.
    pub closed spec fn spec_particle_count(&self) -> nat {
        self.particle_count as nat
    }

    /// Well-formedness: every series holds one entry per particle, and the
    /// particles below the massive count are exactly the massive ones.
    pub open spec fn wf(&self) -> bool {
        let n = self.spec_particle_count();
        &&& self.spec_masses().len() == n
        &&& self.spec_positions().aligned()
        &&& self.spec_positions().spec_len() == n
        &&& self.spec_velocities().aligned()
        &&& self.spec_velocities().spec_len() == n
        &&& self.spec_massive_count() <= n
        &&& forall|i: int|
            0 <= i < n ==> (is_massless_mass(#[trigger] self.spec_masses()[i]) <==> i
                >= self.spec_massive_count())
    }

    /// Returns the number of particles currently represented in the state.
    pub fn particle_count(&self) -> (n: usize)
        ensures
            n == self.spec_particle_count(),
    {
        self.particle_count
    }

    /// Returns the per-particle masses, including zero for massless test
    /// particles.
    pub fn masses(&self) -> (m: &[u64])
        ensures
            m@ == self.spec_masses(),
    {
        self.masses.as_slice()
    }

    /// Returns the position series for all particles.
    pub fn positions(&self) -> (p: &Vector3Series)
        ensures
            *p == self.spec_positions(),
    {
        &self.positions
    }

    /// Returns the mutable position series for all particles.
    pub fn positions_mut(&mut self) -> (p: &mut Vector3Series)
        ensures
            *p == old(self).spec_positions(),
            final(self).spec_positions() == *final(p),
            final(self).spec_velocities() == old(self).spec_velocities(),
            final(self).spec_masses() == old(self).spec_masses(),
            final(self).spec_massive_count() == old(self).spec_massive_count(),
            final(self).spec_particle_count() == old(self).spec_particle_count(),
    {
        &mut self.positions
    }

    /// Returns the velocity series for all particles.
    pub fn velocities(&self) -> (v: &Vector3Series)
        ensures
            *v == self.spec_velocities(),
    {
        &self.velocities
    }

    /// Returns the mutable velocity series for all particles.
    pub fn velocities_mut(&mut self) -> (v: &mut Vector3Series)
        ensures
            *v == old(self).spec_velocities(),
            final(self).spec_velocities() == *final(v),
            final(self).spec_positions() == old(self).spec_positions(),
            final(self).spec_masses() == old(self).spec_masses(),
            final(self).spec_massive_count() == old(self).spec_massive_count(),
            final(self).spec_particle_count() == old(self).spec_particle_count(),
    {
        &mut self.velocities
    }

    /// Returns the position and velocity series for all particles.
    pub fn positions_and_velocities(&self) -> (pv: (&Vector3Series, &Vector3Series))
        ensures
            *pv.0 == self.spec_positions(),
            *pv.1 == self.spec_velocities(),
    {
        (&self.positions, &self.velocities)
    }

    /// Returns mutable position and velocity series for all particles.
    pub fn positions_and_velocities_mut(&mut self) -> (pv: (
        &mut Vector3Series,
        &mut Vector3Series,
    ))
        ensures
            *pv.0 == old(self).spec_positions(),
            *pv.1 == old(self).spec_velocities(),
            final(self).spec_positions() == *final(pv.0),
            final(self).spec_velocities() == *final(pv.1),
            final(self).spec_masses() == old(self).spec_masses(),
            final(self).spec_massive_count() == old(self).spec_massive_count(),
            final(self).spec_particle_count() == old(self).spec_particle_count(),
    {
        (&mut self.positions, &mut self.velocities)
    }

    /// Returns the number of massive particles.
    pub fn massive_count(&self) -> (n: usize)
        ensures
            n == self.spec_massive_count(),
    {
        self.massive_count
    }
}

/// Collection of particles stored as catalog metadata and simulation state.
///
/// The catalog and state use a structure-of-arrays layout. Their vectors
/// remain aligned: a particle at index `i` has its name and metadata in the
/// catalog's index `i` and its position, velocity, and mass in the state's
/// index `i`. Massive particles are stored first and massless particles
/// second.
pub struct ParticleSystem {
    /// Stable catalog metadata for every particle.
    catalog: ParticleCatalog,
    /// Mutable numerical state used by the integrator.
    state: ParticleState,
}

impl View for ParticleSystem {
    type V = Seq<Entry>;

    /// The particles of the system in storage order, each with its stable ID,
    /// reassembled from the catalog and state arrays.
    closed spec fn view(&self) -> Seq<Entry> {
        Seq::new(
            self.catalog.id@.len(),
            |i: int|
                (
                    self.catalog.id@[i],
                    Particle {
                        name: self.catalog.name@[i],
                        radius: self.catalog.radius@[i],
                        position: self.state.positions.vector(i),
                        velocity: self.state.velocities.vector(i),
                        mass: self.state.masses@[i],
                    },
                ),
        )
    }
}

impl ParticleSystem {
    /// The stable catalog metadata.
    pub closed spec fn spec_catalog(&self) -> ParticleCatalog {
        self.catalog
    }

    /// The numerical state.
    pub closed spec fn spec_state(&self) -> ParticleState {
        self.state
    }

    /// Every catalog and state array holds one entry per particle.
    closed spec fn layout_aligned(&self) -> bool {
        let n = self.catalog.id@.len();
        &&& self.catalog.name@.len() == n
        &&& self.catalog.radius@.len() == n
        &&& self.state.masses@.len() == n
        &&& self.state.positions.aligned()
        &&& self.state.positions.spec_len() == n
        &&& self.state.velocities.aligned()
        &&& self.state.velocities.spec_len() == n
    }

    /// Well-formedness: the arrays are aligned with the particle count, every
    /// catalog and state array holds at index `i` the corresponding value of
    /// the `i`-th particle of the view, the particles are stored massive
    /// first, and the stable IDs are exactly `0..n` for `n` particles, each
    /// used once.
    pub open spec fn wf(&self) -> bool {
        &&& self.spec_state().wf()
        &&& self@.len() == self.spec_state().spec_particle_count()
        &&& self.spec_catalog().spec_ids() == self@.map_values(|e: Entry| e.0)
        &&& self.spec_catalog().spec_names() == self@.map_values(|e: Entry| e.1.name)
        &&& self.spec_catalog().spec_radii() == self@.map_values(|e: Entry| e.1.radius)
        &&& self.spec_state().spec_masses() == self@.map_values(|e: Entry| e.1.mass)
        &&& forall|i: int|
            #![trigger self@[i]]
            #![trigger self.spec_state().spec_positions().vector(i)]
            0 <= i < self@.len() ==> self.spec_state().spec_positions().vector(i) == self@[i].1.position
        &&& forall|i: int|
            #![trigger self@[i]]
            #![trigger self.spec_state().spec_velocities().vector(i)]
            0 <= i < self@.len() ==> self.spec_state().spec_velocities().vector(i) == self@[i].1.velocity
        &&& partitioned(self@, self.spec_state().spec_massive_count())
        &&& ids_distinct(self@)
        &&& ids_below(self@, self@.len())
    }

    /// The internal well-formedness implies the public one.
    proof fn lemma_wf(&self)
        requires
            self.layout_aligned(),
            self.state.particle_count == self.catalog.id@.len(),
            self.state.massive_count <= self.state.particle_count,
            partitioned(self@, self.state.massive_count as nat),
            ids_distinct(self@),
            ids_below(self@, self@.len()),
        ensures
            self.wf(),
    {
        let n = self.state.particle_count as int;
        let v = self@;
        assert(self.catalog.id@ =~= v.map_values(|e: Entry| e.0));
        assert(self.catalog.name@ =~= v.map_values(|e: Entry| e.1.name));
        assert(self.catalog.radius@ =~= v.map_values(|e: Entry| e.1.radius));
        assert(self.state.masses@ =~= v.map_values(|e: Entry| e.1.mass));
        let mc = self.state.massive_count as int;
        assert forall|i: int| 0 <= i < n implies (is_massless_mass(
            #[trigger] self.state.masses@[i],
        ) <==> i >= mc) by {
            if i < mc {
                assert(v.take(mc)[i] == v[i]);
            } else {
                assert(v.skip(mc)[i - mc] == v[i]);
            }
        }
    }

    /// An empty system with room for `n` particles in every array.
    fn with_capacity(n: usize) -> (s: Self)
        ensures
            s.layout_aligned(),
            s@ == Seq::<Entry>::empty(),
            s.catalog.id@.len() == 0,
            s.state.massive_count == 0,
            s.state.particle_count == 0,
    {
        let s = ParticleSystem {
            catalog: ParticleCatalog {
                id: Vec::with_capacity(n),
                name: Vec::with_capacity(n),
                radius: Vec::with_capacity(n),
            },
            state: ParticleState {
                masses: Vec::with_capacity(n),
                positions: Vector3Series::with_capacity(n),
                velocities: Vector3Series::with_capacity(n),
                massive_count: 0,
                particle_count: 0,
            },
        };
        assert(s@ =~= Seq::<Entry>::empty());
        s
    }

    /// Creates an empty particle system.
    pub fn new() -> (s: Self)
        ensures
            s.wf(),
            s@ == Seq::<Entry>::empty(),
            s.spec_state().spec_massive_count() == 0,
    {
        let s = Self::with_capacity(0);
        proof {
            s.lemma_wf();
        }
        s
    }

    /// Creates a new [`ParticleSystemBuilder`].
    pub fn builder() -> (b: ParticleSystemBuilder)
        ensures
            b.massive() == Seq::<Entry>::empty(),
            b.massless() == Seq::<Entry>::empty(),
    {
        ParticleSystemBuilder::new()
    }

    /// Appends one particle to every array, leaving the counts unchanged.
    fn push_entry(&mut self, id: usize, particle: Particle)
        requires
            old(self).layout_aligned(),
        ensures
            final(self).layout_aligned(),
            final(self)@ == old(self)@.push((id, particle)),
            final(self).state.massive_count == old(self).state.massive_count,
            final(self).state.particle_count == old(self).state.particle_count,
    {
        let ghost old_view = self@;
        let ghost p = particle;
        self.catalog.id.push(id);
        self.catalog.name.push(particle.name);
        self.catalog.radius.push(particle.radius);
        self.state.masses.push(particle.mass);
        self.state.positions.push(&particle.position);
        self.state.velocities.push(&particle.velocity);
        assert(self@ =~= old_view.push((id, p)));
    }

    /// Inserts one particle at index `k` of every array, leaving the counts
    /// unchanged.
    fn insert_entry(&mut self, k: usize, id: usize, particle: Particle)
        requires
            old(self).layout_aligned(),
            k <= old(self)@.len(),
        ensures
            final(self).layout_aligned(),
            final(self)@ == old(self)@.insert(k as int, (id, particle)),
            final(self).state.massive_count == old(self).state.massive_count,
            final(self).state.particle_count == old(self).state.particle_count,
    {
        let ghost old_view = self@;
        let ghost p = particle;
        self.catalog.id.insert(k, id);
        self.catalog.name.insert(k, particle.name);
        self.catalog.radius.insert(k, particle.radius);
        self.state.masses.insert(k, particle.mass);
        self.state.positions.insert(k, &particle.position);
        self.state.velocities.insert(k, &particle.velocity);
        assert(self@ =~= old_view.insert(k as int, (id, p)));
    }

    /// Adds a particle to the system. The particle receives the next stable
    /// ID, the number of particles already present. A massive particle is
    /// placed directly after the massive particles already present, a
    /// massless one after all particles; every other particle keeps its
    /// relative order.
    pub fn add_particle(&mut self, particle: Particle)
        requires
            old(self).wf(),
            old(self)@.len() < usize::MAX,
        ensures
            final(self).wf(),
            final(self)@ == entries_after_add(
                old(self)@,
                old(self).spec_state().spec_massive_count(),
                particle,
            ),
            final(self).spec_state().spec_massive_count() == old(
                self,
            ).spec_state().spec_massive_count() + if is_massless_mass(particle.mass) {
                0int
            } else {
                1int
            },
    {
        proof {
            self.lemma_layout_from_wf();
        }
        let ghost old_view = self@;
        let ghost mc = self.state.massive_count as int;
        let ghost p = particle;
        let id = self.state.particle_count;
        if is_massless(particle.mass) {
            self.push_entry(id, particle);
        } else {
            let k = self.state.massive_count;
            self.insert_entry(k, id, particle);
            self.state.massive_count = k + 1;
        }
        self.state.particle_count = id + 1;
        proof {
            let v = self@;
            let e = (id, p);
            let n = old_view.len() as int;
            if is_massless_mass(p.mass) {
                assert(v.take(mc) =~= old_view.take(mc));
                assert(v.skip(mc) =~= old_view.skip(mc).push(e));
                assert(all_massless(v.skip(mc)));
            } else {
                assert(v.take(mc + 1) =~= old_view.take(mc).push(e));
                assert(v.skip(mc + 1) =~= old_view.skip(mc));
                assert(all_massive(v.take(mc + 1)));
            }
            if is_massless_mass(p.mass) {
                assert(v =~= old_view.insert(n, e));
                lemma_ids_after_insert(old_view, n, e);
            } else {
                lemma_ids_after_insert(old_view, mc, e);
            }
            self.lemma_wf();
        }
    }

    /// The public well-formedness gives back the internal alignment facts.
    proof fn lemma_layout_from_wf(&self)
        requires
            self.wf(),
        ensures
            self.layout_aligned(),
            self.state.particle_count == self.catalog.id@.len(),
            self.state.massive_count <= self.state.particle_count,
            partitioned(self@, self.state.massive_count as nat),
            ids_distinct(self@),
            ids_below(self@, self@.len()),
    {
        assert(self.catalog.id@.len() == self@.len());
    }

    /// Returns the stable catalog metadata for the particles in this system.
    pub fn catalog(&self) -> (c: &ParticleCatalog)
        ensures
            *c == self.spec_catalog(),
    {
        &self.catalog
    }

    /// Returns a view of the simulation state for this particle system.
    pub fn state(&self) -> (s: &ParticleState)
        ensures
            *s == self.spec_state(),
    {
        &self.state
    }

    /// Returns the mutable simulation state for this particle system.
    pub fn state_mut(&mut self) -> (s: &mut ParticleState)
        ensures
            *s == old(self).spec_state(),
            final(self).spec_state() == *final(s),
            final(self).spec_catalog() == old(self).spec_catalog(),
    {
        &mut self.state
    }

    /// Returns the number of particles currently stored in the system.
    pub fn particle_count(&self) -> (n: usize)
        ensures
            n == self.spec_state().spec_particle_count(),
    {
        self.state.particle_count
    }
}

/// Builder for a [`ParticleSystem`].
///
/// Particles retain their insertion order within each mass category. When the
/// builder is consumed, all massive particles are placed before all massless
/// particles while retaining their stable catalog IDs.
pub struct ParticleSystemBuilder {
    massive_particles: Vec<Entry>,
    massless_particles: Vec<Entry>,
    next_particle_id: usize,
}

impl ParticleSystemBuilder {
    /// The massive particles added so far, in insertion order, with their IDs.
    pub closed spec fn massive(&self) -> Seq<Entry> {
        self.massive_particles@
    }

    /// The massless particles added so far, in insertion order, with their
    /// IDs.
    pub closed spec fn massless(&self) -> Seq<Entry> {
        self.massless_particles@
    }

    /// Each list holds only particles of its mass category, the next ID is
    /// the number of particles added, and the IDs are `0..next`, each used
    /// once.
    #[verifier::type_invariant]
    closed spec fn inv(&self) -> bool {
        let all = self.massive_particles@ + self.massless_particles@;
        &&& all_massive(self.massive_particles@)
        &&& all_massless(self.massless_particles@)
        &&& self.next_particle_id == all.len()
        &&& ids_distinct(all)
        &&& ids_below(all, all.len())
    }

    /// Creates a builder holding no particles.
    pub fn new() -> (b: Self)
        ensures
            b.massive() == Seq::<Entry>::empty(),
            b.massless() == Seq::<Entry>::empty(),
    {
        let b = ParticleSystemBuilder {
            massive_particles: Vec::new(),
            massless_particles: Vec::new(),
            next_particle_id: 0,
        };
        assert(b.massive_particles@ + b.massless_particles@ =~= Seq::<Entry>::empty());
        b
    }

    /// Adds a particle to the system being built. It receives the next stable
    /// ID and is appended to the list of its mass category.
    pub fn add_particle(&mut self, particle: Particle)
        requires
            old(self).massive().len() + old(self).massless().len() < usize::MAX,
        ensures
            (final(self).massive(), final(self).massless()) == lists_after_add(
                old(self).massive(),
                old(self).massless(),
                particle,
            ),
    {
        proof {
            use_type_invariant(&*self);
        }
        let ghost old_all = self.massive_particles@ + self.massless_particles@;
        let ghost p = particle;
        let id = self.next_particle_id;
        let massless = is_massless(particle.mass);
        let mut taken = ParticleSystemBuilder::new();
        std::mem::swap(&mut taken, self);
        let ParticleSystemBuilder { mut massive_particles, mut massless_particles, .. } = taken;
        if massless {
            massless_particles.push((id, particle));
        } else {
            massive_particles.push((id, particle));
        }
        proof {
            let all = massive_particles@ + massless_particles@;
            let n = old_all.len() as int;
            let e = (id, p);
            if massless {
                assert(all =~= old_all.insert(n, e));
                lemma_ids_after_insert(old_all, n, e);
            } else {
                let m = massive_particles@.len() - 1;
                assert(all =~= old_all.insert(m, e));
                lemma_ids_after_insert(old_all, m, e);
            }
        }
        *self = ParticleSystemBuilder {
            massive_particles,
            massless_particles,
            next_particle_id: id + 1,
        };
    }

    /// Builds a [`ParticleSystem`] from the builder: the massive particles in
    /// insertion order, then the massless particles in insertion order, each
    /// with the ID assigned when it was added.
    pub fn build(self) -> (system: ParticleSystem)
        ensures
            system.wf(),
            system@ == self.massive() + self.massless(),
            system.spec_state().spec_massive_count() == self.massive().len(),
    {
        proof {
            use_type_invariant(&self);
        }
        let ghost massive_view = self.massive_particles@;
        let ghost massless_view = self.massless_particles@;
        let ParticleSystemBuilder { massive_particles, massless_particles, .. } = self;
        let massive_count = massive_particles.len();
        let particle_count = massive_count + massless_particles.len();

        let mut system = ParticleSystem::with_capacity(particle_count);
        append_in_order(&mut system, massive_particles);
        append_in_order(&mut system, massless_particles);
        system.state.massive_count = massive_count;
        system.state.particle_count = particle_count;
        proof {
            let v = system@;
            assert(v.take(massive_count as int) =~= massive_view);
            assert(v.skip(massive_count as int) =~= massless_view);
            system.lemma_wf();
        }
        system
    }
}

/// Appends the entries of `entries` to every array of `system`, in order.
fn append_in_order(system: &mut ParticleSystem, entries: Vec<Entry>)
    requires
        old(system).layout_aligned(),
    ensures
        final(system).layout_aligned(),
        final(system)@ == old(system)@ + entries@,
        final(system).state.massive_count == old(system).state.massive_count,
        final(system).state.particle_count == old(system).state.particle_count,
{
    let ghost orig = entries@;
    let ghost base = system@;
    let mut rest = entries;
    let mut reversed: Vec<Entry> = Vec::new();
    while rest.len() > 0
        invariant
            rest@ == orig.take(rest@.len() as int),
            rest@.len() + reversed@.len() == orig.len(),
            forall|j: int|
                0 <= j < reversed@.len() ==> #[trigger] reversed@[j] == orig[orig.len() - 1 - j],
        decreases rest@.len(),
    {
        let e = rest.pop().unwrap();
        reversed.push(e);
        assert(rest@ =~= orig.take(rest@.len() as int));
    }
    while reversed.len() > 0
        invariant
            system.layout_aligned(),
            system.state.massive_count == old(system).state.massive_count,
            system.state.particle_count == old(system).state.particle_count,
            reversed@.len() <= orig.len(),
            forall|j: int|
                0 <= j < reversed@.len() ==> #[trigger] reversed@[j] == orig[orig.len() - 1 - j],
            system@ == base + orig.take(orig.len() - reversed@.len()),
        decreases reversed@.len(),
    {
        let ghost k = orig.len() - reversed@.len();
        let (id, particle) = reversed.pop().unwrap();
        system.push_entry(id, particle);
        assert(orig.take(k + 1) =~= orig.take(k).push(orig[k]));
    }
    assert(orig.take(orig.len() as int) =~= orig);
}

/// Inserting an entry whose ID is the number of entries already present into
/// entries whose IDs are distinct and below that number keeps the IDs
/// distinct and below the new number of entries.
proof fn lemma_ids_after_insert(entries: Seq<Entry>, k: int, entry: Entry)
    requires
        ids_distinct(entries),
        ids_below(entries, entries.len()),
        entry.0 == entries.len(),
        0 <= k <= entries.len(),
    ensures
        ids_distinct(entries.insert(k, entry)),
        ids_below(entries.insert(k, entry), entries.len() + 1),
{
    let v = entries.insert(k, entry);
    assert forall|i: int, j: int|
        0 <= i < v.len() && 0 <= j < v.len() && i != j implies #[trigger] v[i].0
        != #[trigger] v[j].0 by {
        let oi = if i < k { i } else { i - 1 };
        let oj = if j < k { j } else { j - 1 };
        if i != k {
            assert(entries[oi] == v[i]);
        }
        if j != k {
            assert(entries[oj] == v[j]);
        }
    }
    assert forall|i: int| 0 <= i < v.len() implies #[trigger] v[i].0 < v.len() by {
        if i < k {
            assert(entries[i] == v[i]);
        } else if i > k {
            assert(entries[i - 1] == v[i]);
        }
    }
}

/// The massive and massless lists of a builder to which the particles `ps`
/// were added in order.
pub open spec fn builder_lists(ps: Seq<Particle>) -> (Seq<Entry>, Seq<Entry>)
    decreases ps.len(),
{
    if ps.len() == 0 {
        (Seq::empty(), Seq::empty())
    } else {
        let prev = builder_lists(ps.drop_last());
        lists_after_add(prev.0, prev.1, ps.last())
    }
}

/// The particle sequence and massive count of a system, created empty, to
/// which the particles `ps` were added in order.
pub open spec fn system_entries(ps: Seq<Particle>) -> (Seq<Entry>, nat)
    decreases ps.len(),
{
    if ps.len() == 0 {
        (Seq::empty(), 0)
    } else {
        let prev = system_entries(ps.drop_last());
        let p = ps.last();
        (
            entries_after_add(prev.0, prev.1, p),
            if is_massless_mass(p.mass) {
                prev.1
            } else {
                prev.1 + 1
            },
        )
    }
}

/// Adding a particle to a builder and then building gives the same particles,
/// in the same order and with the same IDs, as building first and then adding
/// the particle to the built system.
pub proof fn law_builder_add_commutes_with_build(
    massive: Seq<Entry>,
    massless: Seq<Entry>,
    particle: Particle,
)
    ensures
        ({
            let after = lists_after_add(massive, massless, particle);
            after.0 + after.1 == entries_after_add(massive + massless, massive.len(), particle)
                && after.0.len() == massive.len() + if is_massless_mass(particle.mass) {
                0int
            } else {
                1int
            }
        }),
{
    let e = ((massive.len() + massless.len()) as usize, particle);
    if is_massless_mass(particle.mass) {
        assert(massive + massless.push(e) =~= (massive + massless).push(e));
    } else {
        assert(massive.push(e) + massless =~= (massive + massless).insert(massive.len() as int, e));
    }
}

/// Building a system from a builder fed the particles `ps` gives the same
/// system as adding `ps`, in the same order, to an empty system: the same
/// particles in the same order with the same IDs, and the same massive count.
pub proof fn law_builder_matches_incremental_adding(ps: Seq<Particle>)
    ensures
        ({
            let lists = builder_lists(ps);
            let sys = system_entries(ps);
            lists.0 + lists.1 == sys.0 && lists.0.len() == sys.1
        }),
    decreases ps.len(),
{
    if ps.len() == 0 {
        let lists = builder_lists(ps);
        assert(lists.0 + lists.1 =~= Seq::<Entry>::empty());
    } else {
        law_builder_matches_incremental_adding(ps.drop_last());
        let prev = builder_lists(ps.drop_last());
        law_builder_add_commutes_with_build(prev.0, prev.1, ps.last());
    }
}

/// In a system to which the particles `ps` were added in order, the
/// particles are stored massive first, the IDs are `0..n` each used once, and
/// the particle stored with ID `k` is the `k`-th particle added.
pub proof fn law_ids_name_insertion_order(ps: Seq<Particle>)
    requires
        ps.len() <= usize::MAX,
    ensures
        ({
            let sys = system_entries(ps);
            &&& sys.0.len() == ps.len()
            &&& partitioned(sys.0, sys.1)
            &&& ids_distinct(sys.0)
            &&& ids_below(sys.0, ps.len())
            &&& forall|i: int| 0 <= i < sys.0.len() ==> #[trigger] sys.0[i].1 == ps[sys.0[i].0 as int]
        }),
    decreases ps.len(),
{
    if ps.len() > 0 {
        let prefix = ps.drop_last();
        law_ids_name_insertion_order(prefix);
        let prev = system_entries(prefix);
        let v0 = prev.0;
        let mc = prev.1 as int;
        let p = ps.last();
        let n = v0.len() as int;
        let e = (n as usize, p);
        let v = system_entries(ps).0;
        if is_massless_mass(p.mass) {
            assert(v =~= v0.push(e));
            assert(v.take(mc) =~= v0.take(mc));
            assert(v.skip(mc) =~= v0.skip(mc).push(e));
            assert forall|i: int| 0 <= i < n implies v[i] == v0[i] by {}
        } else {
            assert(v =~= v0.insert(mc, e));
            assert(v.take(mc + 1) =~= v0.take(mc).push(e));
            assert(v.skip(mc + 1) =~= v0.skip(mc));
        }
        assert forall|i: int| 0 <= i < v.len() && v[i] != e implies exists|k: int|
            0 <= k < n && v[i] == #[trigger] v0[k] by {
            if is_massless_mass(p.mass) {
                assert(v[i] == v0[i]);
            } else if i < mc {
                assert(v[i] == v0[i]);
            } else {
                assert(v[i] == v0[i - 1]);
            }
        }
        assert forall|i: int| 0 <= i < v.len() implies #[trigger] v[i].1 == ps[v[i].0 as int]
            && v[i].0 < ps.len() by {
            if v[i] != e {
                let k = choose|k: int| 0 <= k < n && v[i] == #[trigger] v0[k];
                assert(prefix[v0[k].0 as int] == ps[v0[k].0 as int]);
            }
        }
        if is_massless_mass(p.mass) {
            assert(v =~= v0.insert(n, e));
            lemma_ids_after_insert(v0, n, e);
        } else {
            lemma_ids_after_insert(v0, mc, e);
        }
    }
}

impl Clone for ParticleSystem {
    /// Copies the catalog and the state.
    fn clone(&self) -> (r: Self)
        ensures
            r@ == self@,
            r.spec_state().spec_massive_count() == self.spec_state().spec_massive_count(),
            r.spec_state().spec_particle_count() == self.spec_state().spec_particle_count(),
            self.wf() ==> r.wf(),
    {
        let r = ParticleSystem { catalog: self.catalog.clone(), state: self.state.clone() };
        assert(r@ =~= self@);
        proof {
            if self.wf() {
                self.lemma_layout_from_wf();
                r.lemma_wf();
            }
        }
        r
    }
}

/// A mass is massless exactly when all of its bits except the sign bit are
/// zero, that is when its binary64 exponent and significand are both zero.
pub proof fn law_massless_iff_magnitude_bits_zero(mass: u64)
    ensures
        is_massless_mass(mass) <==> (mass & 0x7FFF_FFFF_FFFF_FFFFu64) == 0u64,
{
    assert((mass == 0u64 || mass == 0x8000_0000_0000_0000u64) <==> (mass
        & 0x7FFF_FFFF_FFFF_FFFFu64) == 0u64) by (bit_vector);
}

/// Adding a particle classifies it by its mass bits alone: a particle whose
/// mass is neither `+0.0` (bits `0`) nor `-0.0` (bits `0x8000_0000_0000_0000`)
/// joins the massive particles, right after those already present, in a
/// builder and in a system alike; only those two bit patterns make a
/// massless particle, which is placed after every other particle.
pub proof fn law_add_classifies_by_zero_bits(
    massive: Seq<Entry>,
    massless: Seq<Entry>,
    entries: Seq<Entry>,
    massive_count: nat,
    particle: Particle,
)
    requires
        massive_count <= entries.len(),
    ensures
        ({
            let after = lists_after_add(massive, massless, particle);
            let id = (massive.len() + massless.len()) as usize;
            if particle.mass != 0u64 && particle.mass != 0x8000_0000_0000_0000u64 {
                &&& after.0 == massive.push((id, particle))
                &&& after.1 == massless
            } else {
                &&& after.0 == massive
                &&& after.1 == massless.push((id, particle))
            }
        }),
        ({
            let after = entries_after_add(entries, massive_count, particle);
            let id = entries.len() as usize;
            &&& after.len() == entries.len() + 1
            &&& if particle.mass != 0u64 && particle.mass != 0x8000_0000_0000_0000u64 {
                &&& after[massive_count as int] == (id, particle)
                &&& after.take(massive_count as int) == entries.take(massive_count as int)
                &&& after.skip(massive_count as int + 1) == entries.skip(massive_count as int)
            } else {
                &&& after[entries.len() as int] == (id, particle)
                &&& after.take(entries.len() as int) == entries
            }
        }),
{
    let id = entries.len() as usize;
    let after = entries_after_add(entries, massive_count, particle);
    let k = massive_count as int;
    if particle.mass != 0u64 && particle.mass != 0x8000_0000_0000_0000u64 {
        assert(after.take(k) =~= entries.take(k));
        assert(after.skip(k + 1) =~= entries.skip(k));
    } else {
        assert(after.take(entries.len() as int) =~= entries);
    }
}

/// The number of massive particles of a system, built from a builder or by
/// adding particles one by one, is the number of added particles whose mass
/// bits are neither `0` nor `0x8000_0000_0000_0000`; the number of massless
/// particles is the number whose mass bits are one of those two.
pub proof fn law_massive_count_counts_nonzero_masses(ps: Seq<Particle>)
    ensures
        builder_lists(ps).0.len() == ps.filter(
            |p: Particle| p.mass != 0u64 && p.mass != 0x8000_0000_0000_0000u64,
        ).len(),
        builder_lists(ps).1.len() == ps.filter(
            |p: Particle| p.mass == 0u64 || p.mass == 0x8000_0000_0000_0000u64,
        ).len(),
        system_entries(ps).1 == ps.filter(
            |p: Particle| p.mass != 0u64 && p.mass != 0x8000_0000_0000_0000u64,
        ).len(),
    decreases ps.len(),
{
    let massive_pred = |p: Particle| p.mass != 0u64 && p.mass != 0x8000_0000_0000_0000u64;
    let massless_pred = |p: Particle| p.mass == 0u64 || p.mass == 0x8000_0000_0000_0000u64;
    reveal(Seq::filter);
    if ps.len() == 0 {
        assert(ps.filter(massive_pred).len() == 0);
        assert(ps.filter(massless_pred).len() == 0);
    } else {
        law_massive_count_counts_nonzero_masses(ps.drop_last());
        law_builder_matches_incremental_adding(ps.drop_last());
    }
}

impl Default for ParticleSystem {
    /// Creates an empty particle system.
    fn default() -> (s: Self)
        ensures
            s.wf(),
            s@ == Seq::<Entry>::empty(),
            s.spec_state().spec_massive_count() == 0,
    {
        Self::new()
    }
}

impl Default for ParticleSystemBuilder {
    /// Creates a builder holding no particles.
    fn default() -> (b: Self)
        ensures
            b.massive() == Seq::<Entry>::empty(),
            b.massless() == Seq::<Entry>::empty(),
    {
        Self::new()
    }
}

} // verus!
