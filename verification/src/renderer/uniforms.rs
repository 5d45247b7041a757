//! Uniforms typed by the kind and number of their components.
use crate::error::Error;
use vstd::prelude::*;

verus! {

/// A uniform of `N` floating-point components, by its location.
#[derive(Clone, Copy, Debug, PartialEq, Eq)]
pub struct UniformF<const N: usize> {
    pub location: i32,
}

/// A uniform of `N` integer components, by its location.
#[derive(Clone, Copy, Debug, PartialEq, Eq)]
pub struct UniformI<const N: usize> {
    pub location: i32,
}

impl<const N: usize> UniformF<N> {
    /// The uniform at `location`.
    pub fn new(location: i32) -> (r: Self)
        ensures
            r.location == location,
    {
        Self { location }
    }

    /// Accepts the location that the graphics API returned for the uniform
    /// called `name`. The location -1 means that there is no such uniform.
    pub fn from_name(name: &'static str, location: i32) -> (r: Result<Self, Error>)
        ensures
            location != -1 ==> r == Ok::<Self, Error>(UniformF { location }),
            location == -1 ==> (r matches Err(Error::UniformError(n)) && n@ == name@),
    {
        if location == -1 {
            return Err(Error::UniformError(name));
        }
        Ok(Self::new(location))
    }
}

impl<const N: usize> UniformI<N> {
    /// The uniform at `location`.
    pub fn new(location: i32) -> (r: Self)
        ensures
            r.location == location,
    {
        Self { location }
    }

    /// Accepts the location that the graphics API returned for the uniform
    /// called `name`. The location -1 means that there is no such uniform.
    pub fn from_name(name: &'static str, location: i32) -> (r: Result<Self, Error>)
        ensures
            location != -1 ==> r == Ok::<Self, Error>(UniformI { location }),
            location == -1 ==> (r matches Err(Error::UniformError(n)) && n@ == name@),
    {
        if location == -1 {
            return Err(Error::UniformError(name));
        }
        Ok(Self::new(location))
    }
}

/// A uniform of any of the eight supported types.
#[derive(Clone, Copy, Debug, PartialEq, Eq)]
pub enum AnyUniform {
    F1(UniformF<1>),
    F2(UniformF<2>),
    F3(UniformF<3>),
    F4(UniformF<4>),
    I1(UniformI<1>),
    I2(UniformI<2>),
    I3(UniformI<3>),
    I4(UniformI<4>),
}

/// The eight supported uniform types: one to four floats or integers.
#[derive(Clone, Copy, Debug, PartialEq, Eq, Structural)]
pub enum UniformType {
    F1,
    F2,
    F3,
    F4,
    I1,
    I2,
    I3,
    I4,
}

impl AnyUniform {
    /// The uniform of type `n` at `location`.
    pub open spec fn of(n: UniformType, location: i32) -> AnyUniform {
        match n {
            UniformType::F1 => AnyUniform::F1(UniformF { location }),
            UniformType::F2 => AnyUniform::F2(UniformF { location }),
            UniformType::F3 => AnyUniform::F3(UniformF { location }),
            UniformType::F4 => AnyUniform::F4(UniformF { location }),
            UniformType::I1 => AnyUniform::I1(UniformI { location }),
            UniformType::I2 => AnyUniform::I2(UniformI { location }),
            UniformType::I3 => AnyUniform::I3(UniformI { location }),
            UniformType::I4 => AnyUniform::I4(UniformI { location }),
        }
    }

    /// The type of the uniform.
    pub open spec fn uniform_type_spec(self) -> UniformType {
        match self {
            AnyUniform::F1(_) => UniformType::F1,
            AnyUniform::F2(_) => UniformType::F2,
            AnyUniform::F3(_) => UniformType::F3,
            AnyUniform::F4(_) => UniformType::F4,
            AnyUniform::I1(_) => UniformType::I1,
            AnyUniform::I2(_) => UniformType::I2,
            AnyUniform::I3(_) => UniformType::I3,
            AnyUniform::I4(_) => UniformType::I4,
        }
    }

    /// The location of the uniform.
    pub open spec fn location_spec(self) -> i32 {
        match self {
            AnyUniform::F1(u) => u.location,
            AnyUniform::F2(u) => u.location,
            AnyUniform::F3(u) => u.location,
            AnyUniform::F4(u) => u.location,
            AnyUniform::I1(u) => u.location,
            AnyUniform::I2(u) => u.location,
            AnyUniform::I3(u) => u.location,
            AnyUniform::I4(u) => u.location,
        }
    }

    /// Wraps the location that the graphics API returned for the uniform
    /// called `name` as a uniform of type `n`. The uniform must exist.
    pub fn from_name(n: UniformType, name: &'static str, location: i32) -> (r: Result<Self, Error>)
        requires
            location != -1,
        ensures
            r == Ok::<Self, Error>(Self::of(n, location)),
    {
        match n {
            UniformType::F1 => Ok(Self::F1(UniformF::<1>::new(location))),
            UniformType::F2 => Ok(Self::F2(UniformF::<2>::new(location))),
            UniformType::F3 => Ok(Self::F3(UniformF::<3>::new(location))),
            UniformType::F4 => Ok(Self::F4(UniformF::<4>::new(location))),
            UniformType::I1 => Ok(Self::I1(UniformI::<1>::new(location))),
            UniformType::I2 => Ok(Self::I2(UniformI::<2>::new(location))),
            UniformType::I3 => Ok(Self::I3(UniformI::<3>::new(location))),
            UniformType::I4 => Ok(Self::I4(UniformI::<4>::new(location))),
        }
    }

    /// The type of the uniform.
    pub fn uniform_type(&self) -> (r: UniformType)
        ensures
            r == self.uniform_type_spec(),
    {
        match self {
            AnyUniform::F1(_) => UniformType::F1,
            AnyUniform::F2(_) => UniformType::F2,
            AnyUniform::F3(_) => UniformType::F3,
            AnyUniform::F4(_) => UniformType::F4,
            AnyUniform::I1(_) => UniformType::I1,
            AnyUniform::I2(_) => UniformType::I2,
            AnyUniform::I3(_) => UniformType::I3,
            AnyUniform::I4(_) => UniformType::I4,
        }
    }

    /// The location of the uniform.
    pub fn location(&self) -> (r: i32)
        ensures
            r == self.location_spec(),
    {
        match self {
            AnyUniform::F1(u) => u.location,
            AnyUniform::F2(u) => u.location,
            AnyUniform::F3(u) => u.location,
            AnyUniform::F4(u) => u.location,
            AnyUniform::I1(u) => u.location,
            AnyUniform::I2(u) => u.location,
            AnyUniform::I3(u) => u.location,
            AnyUniform::I4(u) => u.location,
        }
    }
}

/// A uniform made from a type and a location has that type and that location.
pub proof fn lemma_any_uniform_round_trip(n: UniformType, location: i32)
    ensures
        AnyUniform::of(n, location).uniform_type_spec() == n,
        AnyUniform::of(n, location).location_spec() == location,
{
}

} // verus!
