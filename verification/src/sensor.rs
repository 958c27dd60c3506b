use vstd::prelude::*;

verus! {

/// The closed set of sensor categories whose points are tracked
/// independently, one counter and one reward rate per category.
#[derive(Clone, Copy, PartialEq, Eq, Structural, Debug)]
pub enum SensorType {
    Noise,
    Temp,
    Vibration,
    Heat,
}

} // verus!
