use vstd::prelude::*;

verus! {

/// A real number, carried as the bit pattern of an IEEE-754 single-precision
/// value. The library stores, compares for identity and forwards such values;
/// whoever needs the number converts the bits.
pub type FloatBits = u32;

/// Unique identifier of a processor parameter.
pub type ParameterId = u32;

/// Processor parameter metadata.
#[derive(Debug)]
pub struct Parameter {
    /// Identifier.
    pub id: ParameterId,
    /// String representation.
    pub name: &'static str,
}

impl Parameter {
    /// Creates a new parameter.
    pub fn new(id: ParameterId, name: &'static str) -> (parameter: Self)
        ensures
            parameter.id == id,
            parameter.name == name,
    {
        Parameter { id, name }
    }
}

/// Processor parameter value of specific type.
#[derive(Clone, Copy, Debug, PartialEq, Eq, Structural)]
pub enum ParameterValue {
    /// Real-valued parameter.
    Float(FloatBits),
}

} // verus!
