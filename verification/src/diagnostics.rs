//! Time series of whole-system quantities recorded during a simulation.
//!
//! The quantities themselves are binary64 values computed from a particle
//! state; they are stored here as their bit patterns, one record per sample.
use vstd::prelude::*;

use crate::math_util::Vector3;

verus! {

/// Number of values in one diagnostic record, in report column order: time,
/// total mass, kinetic energy, potential energy, total energy, linear
/// momentum `(x, y, z)`, angular momentum `(x, y, z)`, center-of-mass
/// position `(x, y, z)` and center-of-mass velocity `(x, y, z)`.
pub const RECORD_VALUES: usize = 17;

/// One sample of the global quantities of a simulation state, each a
/// binary64 bit pattern.
#[derive(Clone, Copy)]
pub struct DiagnosticRecord {
    current_time: u64,
    /// Total mass of the massive bodies.
    total_mass: u64,
    /// Total kinetic energy of the massive bodies.
    kinetic_energy: u64,
    /// Potential energy of the configured forces.
    potential_energy: u64,
    /// Sum of kinetic and potential energy.
    total_energy: u64,
    /// Total linear momentum.
    linear_momentum: Vector3,
    /// Total angular momentum about the simulation origin.
    angular_momentum: Vector3,
    /// Center-of-mass position of the massive bodies.
    center_of_mass_position: Vector3,
    /// Center-of-mass velocity of the massive bodies.
    center_of_mass_velocity: Vector3,
}

/// The seventeen values of a record in report column order.
pub open spec fn record_values(
    current_time: u64,
    total_mass: u64,
    kinetic_energy: u64,
    potential_energy: u64,
    total_energy: u64,
    linear_momentum: Vector3,
    angular_momentum: Vector3,
    center_of_mass_position: Vector3,
    center_of_mass_velocity: Vector3,
) -> Seq<u64> {
    seq![
        current_time,
        total_mass,
        kinetic_energy,
        potential_energy,
        total_energy,
        linear_momentum.x,
        linear_momentum.y,
        linear_momentum.z,
        angular_momentum.x,
        angular_momentum.y,
        angular_momentum.z,
        center_of_mass_position.x,
        center_of_mass_position.y,
        center_of_mass_position.z,
        center_of_mass_velocity.x,
        center_of_mass_velocity.y,
        center_of_mass_velocity.z,
    ]
}

/// The vector held by the three values starting at `start`.
pub open spec fn vector_from(values: Seq<u64>, start: int) -> Vector3 {
    Vector3 { x: values[start], y: values[start + 1], z: values[start + 2] }
}

impl View for DiagnosticRecord {
    type V = Seq<u64>;

    /// The seventeen values of the record in report column order.
    closed spec fn view(&self) -> Seq<u64> {
        record_values(
            self.current_time,
            self.total_mass,
            self.kinetic_energy,
            self.potential_energy,
            self.total_energy,
            self.linear_momentum,
            self.angular_momentum,
            self.center_of_mass_position,
            self.center_of_mass_velocity,
        )
    }
}

impl DiagnosticRecord {
    /// Creates a record from the quantities of one sample.
    pub fn new(
        current_time: u64,
        total_mass: u64,
        kinetic_energy: u64,
        potential_energy: u64,
        total_energy: u64,
        linear_momentum: Vector3,
        angular_momentum: Vector3,
        center_of_mass_position: Vector3,
        center_of_mass_velocity: Vector3,
    ) -> (r: Self)
        ensures
            r@ == record_values(
                current_time,
                total_mass,
                kinetic_energy,
                potential_energy,
                total_energy,
                linear_momentum,
                angular_momentum,
                center_of_mass_position,
                center_of_mass_velocity,
            ),
    {
        DiagnosticRecord {
            current_time,
            total_mass,
            kinetic_energy,
            potential_energy,
            total_energy,
            linear_momentum,
            angular_momentum,
            center_of_mass_position,
            center_of_mass_velocity,
        }
    }

    /// The simulation time of the sample.
    pub fn current_time(&self) -> (v: u64)
        ensures
            v == self@[0],
    {
        self.current_time
    }

    /// The total mass of the massive bodies.
    pub fn total_mass(&self) -> (v: u64)
        ensures
            v == self@[1],
    {
        self.total_mass
    }

    /// The total kinetic energy of the massive bodies.
    pub fn kinetic_energy(&self) -> (v: u64)
        ensures
            v == self@[2],
    {
        self.kinetic_energy
    }

    /// The potential energy of the configured forces.
    pub fn potential_energy(&self) -> (v: u64)
        ensures
            v == self@[3],
    {
        self.potential_energy
    }

    /// The sum of kinetic and potential energy.
    pub fn total_energy(&self) -> (v: u64)
        ensures
            v == self@[4],
    {
        self.total_energy
    }

    /// The total linear momentum.
    pub fn linear_momentum(&self) -> (v: Vector3)
        ensures
            v == vector_from(self@, 5),
    {
        self.linear_momentum
    }

    /// The total angular momentum about the simulation origin.
    pub fn angular_momentum(&self) -> (v: Vector3)
        ensures
            v == vector_from(self@, 8),
    {
        self.angular_momentum
    }

    /// The center-of-mass position of the massive bodies.
    pub fn center_of_mass_position(&self) -> (v: Vector3)
        ensures
            v == vector_from(self@, 11),
    {
        self.center_of_mass_position
    }

    /// The center-of-mass velocity of the massive bodies.
    pub fn center_of_mass_velocity(&self) -> (v: Vector3)
        ensures
            v == vector_from(self@, 14),
    {
        self.center_of_mass_velocity
    }

    /// The values of the record in report column order.
    pub fn values(&self) -> (v: [u64; RECORD_VALUES])
        ensures
            v@ == self@,
    {
        let v = [
            self.current_time,
            self.total_mass,
            self.kinetic_energy,
            self.potential_energy,
            self.total_energy,
            self.linear_momentum.x,
            self.linear_momentum.y,
            self.linear_momentum.z,
            self.angular_momentum.x,
            self.angular_momentum.y,
            self.angular_momentum.z,
            self.center_of_mass_position.x,
            self.center_of_mass_position.y,
            self.center_of_mass_position.z,
            self.center_of_mass_velocity.x,
            self.center_of_mass_velocity.y,
            self.center_of_mass_velocity.z,
        ];
        assert(v@ =~= self@);
        v
    }
}

/// Time series of global quantities derived from simulation states, one
/// record per sample in recording order.
pub struct Diagnostics {
    records: Vec<DiagnosticRecord>,
}

impl View for Diagnostics {
    type V = Seq<DiagnosticRecord>;

    /// The records in recording order.
    closed spec fn view(&self) -> Seq<DiagnosticRecord> {
        self.records@
    }
}

impl Diagnostics {
    /// Creates an empty time series.
    pub fn new() -> (d: Self)
        ensures
            d@ == Seq::<DiagnosticRecord>::empty(),
    {
        Diagnostics { records: Vec::new() }
    }

    /// Appends one sample after all samples recorded so far.
    pub fn record(&mut self, record: DiagnosticRecord)
        ensures
            final(self)@ == old(self)@.push(record),
    {
        self.records.push(record);
    }

    /// Returns every recorded sample in recording order.
    pub fn records(&self) -> (r: &[DiagnosticRecord])
        ensures
            r@ == self@,
    {
        self.records.as_slice()
    }

    /// Returns the sample at `idx`.
    pub fn get_sample(&self, idx: usize) -> (r: &DiagnosticRecord)
        requires
            idx < self@.len(),
        ensures
            *r == self@[idx as int],
    {
        &self.records[idx]
    }

    /// Returns the number of recorded samples.
    pub fn number_samples(&self) -> (n: usize)
        ensures
            n == self@.len(),
    {
        self.records.len()
    }

    /// Checks that a report can be written: returns the number of samples
    /// when there is at least one, and `None` when nothing was recorded.
    pub fn validate_diagnostics(&self) -> (n: Option<usize>)
        ensures
            self@.len() > 0 ==> n == Some(self@.len() as usize),
            self@.len() == 0 ==> n is None,
    {
        let n = self.records.len();
        if n == 0 {
            None
        } else {
            Some(n)
        }
    }

    /// Returns the values of the sample at `idx` in report column order.
    pub fn diagnostics_values_at(&self, idx: usize) -> (v: [u64; RECORD_VALUES])
        requires
            idx < self@.len(),
        ensures
            v@ == self@[idx as int]@,
    {
        self.records[idx].values()
    }
}

impl Default for Diagnostics {
    /// Creates an empty time series.
    fn default() -> (d: Self)
        ensures
            d@ == Seq::<DiagnosticRecord>::empty(),
    {
        Self::new()
    }
}

impl Clone for Diagnostics {
    /// Copies every recorded sample.
    fn clone(&self) -> (d: Self)
        ensures
            d@ == self@,
    {
        let mut records: Vec<DiagnosticRecord> = Vec::with_capacity(self.records.len());
        let n = self.records.len();
        let mut i: usize = 0;
        while i < n
            invariant
                i <= n,
                n == self.records@.len(),
                records@ == self.records@.take(i as int),
            decreases n - i,
        {
            records.push(self.records[i]);
            i = i + 1;
            assert(records@ =~= self.records@.take(i as int));
        }
        assert(self.records@.take(n as int) =~= self.records@);
        Diagnostics { records }
    }
}

} // verus!
