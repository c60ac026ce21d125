//! Three-component vectors and series of them stored component-wise.
//!
//! Components are IEEE-754 binary64 values carried as their bit patterns.
use vstd::prelude::*;

verus! {

/// Three Cartesian components of a vector, each an IEEE-754 binary64 bit
/// pattern. The all-zero pattern is `0.0`.
#[derive(Debug, Clone, Copy, PartialEq, Eq, Structural, Default)]
pub struct Vector3 {
    /// X component.
    pub x: u64,
    /// Y component.
    pub y: u64,
    /// Z component.
    pub z: u64,
}

/// Three parallel scalar series representing Cartesian components of a vector.
///
/// The vectors are indexed in lockstep. Depending on the owner, an index may
/// identify a particle or a recorded diagnostic sample.
#[derive(Default)]
pub struct Vector3Series {
    /// X components.
    pub x: Vec<u64>,
    /// Y components.
    pub y: Vec<u64>,
    /// Z components.
    pub z: Vec<u64>,
}

/// A copy of a vector of bit patterns.
pub(crate) fn copy_bits(v: &Vec<u64>) -> (r: Vec<u64>)
    ensures
        r@ == v@,
{
    let r = v.clone();
    assert(r@ =~= v@);
    r
}

impl Clone for Vector3Series {
    /// Copies every component series.
    fn clone(&self) -> (r: Self)
        ensures
            r.x@ == self.x@,
            r.y@ == self.y@,
            r.z@ == self.z@,
    {
        Vector3Series { x: copy_bits(&self.x), y: copy_bits(&self.y), z: copy_bits(&self.z) }
    }
}

/// A vector of `length` copies of `value`.
fn repeated(value: u64, length: usize) -> (v: Vec<u64>)
    ensures
        v@ == Seq::new(length as nat, |i: int| value),
{
    let mut v: Vec<u64> = Vec::with_capacity(length);
    let mut i: usize = 0;
    while i < length
        invariant
            i <= length,
            v@ == Seq::new(i as nat, |k: int| value),
        decreases length - i,
    {
        v.push(value);
        i = i + 1;
    }
    v
}

/// Overwrites every entry of `v` with `value`.
fn fill_vec(v: &mut Vec<u64>, value: u64)
    ensures
        final(v)@ == Seq::new(old(v)@.len(), |i: int| value),
{
    let n = v.len();
    let mut i: usize = 0;
    while i < n
        invariant
            i <= n,
            n == v@.len(),
            n == old(v)@.len(),
            forall|k: int| 0 <= k < i ==> v@[k] == value,
        decreases n - i,
    {
        v.set(i, value);
        i = i + 1;
    }
    assert(v@ == Seq::new(old(v)@.len(), |i: int| value));
}

impl Vector3Series {
    /// The three component series have the same length.
    pub open spec fn aligned(&self) -> bool {
        &&& self.x@.len() == self.y@.len()
        &&& self.x@.len() == self.z@.len()
    }

    /// The number of vectors in an aligned series.
    pub open spec fn spec_len(&self) -> nat {
        self.x@.len()
    }

    /// The vector stored at index `i`.
    pub open spec fn vector(&self, i: int) -> Vector3 {
        Vector3 { x: self.x@[i], y: self.y@[i], z: self.z@[i] }
    }

    /// Every component of every vector is `value`.
    pub open spec fn all_components(&self, value: u64) -> bool {
        &&& forall|i: int| 0 <= i < self.x@.len() ==> self.x@[i] == value
        &&& forall|i: int| 0 <= i < self.y@.len() ==> self.y@[i] == value
        &&& forall|i: int| 0 <= i < self.z@.len() ==> self.z@[i] == value
    }

    /// Fills each component series with `value`, keeping every length.
    pub fn fill(&mut self, value: u64)
        ensures
            final(self).x@.len() == old(self).x@.len(),
            final(self).y@.len() == old(self).y@.len(),
            final(self).z@.len() == old(self).z@.len(),
            final(self).all_components(value),
    {
        fill_vec(&mut self.x, value);
        fill_vec(&mut self.y, value);
        fill_vec(&mut self.z, value);
    }

    /// Creates a zero-filled series with one vector entry per index.
    pub fn new_with_zeros(length: usize) -> (s: Self)
        ensures
            s.aligned(),
            s.spec_len() == length,
            s.all_components(0),
    {
        Vector3Series { x: repeated(0, length), y: repeated(0, length), z: repeated(0, length) }
    }

    /// Creates an empty series with room for `capacity` vectors.
    pub fn with_capacity(capacity: usize) -> (s: Self)
        ensures
            s.aligned(),
            s.spec_len() == 0,
    {
        Vector3Series {
            x: Vec::with_capacity(capacity),
            y: Vec::with_capacity(capacity),
            z: Vec::with_capacity(capacity),
        }
    }

    /// Returns the vector stored at `idx`.
    pub fn vector_at(&self, idx: usize) -> (v: Vector3)
        requires
            idx < self.x@.len(),
            idx < self.y@.len(),
            idx < self.z@.len(),
        ensures
            v == self.vector(idx as int),
    {
        Vector3 { x: self.x[idx], y: self.y[idx], z: self.z[idx] }
    }

    /// Returns the number of stored vectors in the series.
    pub fn len(&self) -> (n: usize)
        requires
            self.aligned(),
        ensures
            n == self.spec_len(),
    {
        self.x.len()
    }

    /// Checks whether the series holds no vectors.
    pub fn is_empty(&self) -> (b: bool)
        ensures
            b == (self.x@.len() == 0),
    {
        self.x.len() == 0
    }

    /// Appends one vector value to the end of the series.
    pub fn push(&mut self, vector3: &Vector3)
        ensures
            final(self).x@ == old(self).x@.push(vector3.x),
            final(self).y@ == old(self).y@.push(vector3.y),
            final(self).z@ == old(self).z@.push(vector3.z),
    {
        self.x.push(vector3.x);
        self.y.push(vector3.y);
        self.z.push(vector3.z);
    }

    /// Inserts one vector value at `idx`, shifting later entries up by one.
    pub fn insert(&mut self, idx: usize, vector3: &Vector3)
        requires
            old(self).aligned(),
            idx <= old(self).spec_len(),
        ensures
            final(self).x@ == old(self).x@.insert(idx as int, vector3.x),
            final(self).y@ == old(self).y@.insert(idx as int, vector3.y),
            final(self).z@ == old(self).z@.insert(idx as int, vector3.z),
    {
        self.x.insert(idx, vector3.x);
        self.y.insert(idx, vector3.y);
        self.z.insert(idx, vector3.z);
    }
}

} // verus!
