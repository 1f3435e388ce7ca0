//! Errors that validating an object can find.

use vstd::prelude::*;

verus! {

/// Two half-edges that follow each other in a cycle do not meet. Cycles
/// are validated elsewhere.
#[derive(Clone, Copy, Debug, PartialEq, Eq, Structural)]
pub struct AdjacentHalfEdgesNotConnected {
    /// The half-edge that ends somewhere else.
    pub first: u64,
    /// The half-edge that starts somewhere else.
    pub second: u64,
}

/// What can be wrong with an edge.
#[derive(Clone, Copy, Debug, PartialEq, Eq, Structural)]
pub enum EdgeValidationError {
    /// The two vertices of a half-edge are not on the same curve.
    CurveMismatch,
    /// The curve of a half-edge and its global form refer to different
    /// global curves.
    GlobalCurveMismatch,
    /// The vertices of a half-edge and its global form refer to different
    /// global vertices.
    GlobalVertexMismatch,
}

/// What can be wrong with a face. Faces are validated elsewhere.
#[derive(Clone, Copy, Debug, PartialEq, Eq, Structural)]
pub struct FaceValidationError;

/// What can be wrong with a shell. Shells are validated elsewhere.
#[derive(Clone, Copy, Debug, PartialEq, Eq, Structural)]
pub struct ShellValidationError;

/// What can be wrong with a solid. Solids are validated elsewhere.
#[derive(Clone, Copy, Debug, PartialEq, Eq, Structural)]
pub struct SolidValidationError;

/// What can be wrong with a sketch. Sketches are validated elsewhere.
#[derive(Clone, Copy, Debug, PartialEq, Eq, Structural)]
pub struct SketchValidationError;

/// An error that can occur during a validation.
#[derive(Clone, Copy, Debug, PartialEq, Eq, Structural)]
pub enum ValidationError {
    /// Half-edges in a cycle are not connected.
    HalfEdgesInCycleNotConnected(AdjacentHalfEdgesNotConnected),
    /// Edge validation error.
    Edge(EdgeValidationError),
    /// Face validation error.
    Face(FaceValidationError),
    /// Shell validation error.
    Shell(ShellValidationError),
    /// Solid validation error.
    Solid(SolidValidationError),
    /// Sketch validation error.
    Sketch(SketchValidationError),
}

/// How exact validation is. The distances are held as the keys of their
/// values.
#[derive(Clone, Copy, Debug, PartialEq, Eq, Structural)]
pub struct ValidationConfig {
    /// The minimum distance between distinct objects.
    pub distinct_min_distance: i64,
    /// The maximum distance between identical objects.
    pub identical_max_distance: i64,
}

impl Default for ValidationConfig {
    fn default() -> (config: ValidationConfig)
        ensures
            config.distinct_min_distance == 0x3ea0_c6f7_a0b5_ed8d,
            config.identical_max_distance == 0x3d2c_25c2_6849_7682,
    {
        ValidationConfig {
            distinct_min_distance: 0x3ea0_c6f7_a0b5_ed8d,
            identical_max_distance: 0x3d2c_25c2_6849_7682,
        }
    }
}

/// The configuration that validation runs with unless it is given another.
pub open spec fn default_config() -> ValidationConfig {
    ValidationConfig {
        distinct_min_distance: 0x3ea0_c6f7_a0b5_ed8d,
        identical_max_distance: 0x3d2c_25c2_6849_7682,
    }
}

/// Run a specific validation check on an object.
///
/// This trait is implemented once per validation check and object it
/// applies to. `T` is the object, while `Self` is the error that the check
/// finds.
pub trait ValidationCheck<T>: Sized {
    /// The errors that the check finds in the object, in the order in which
    /// it finds them.
    spec fn errors(object: &T, config: &ValidationConfig) -> Seq<Self>;

    /// Run the validation check on the object.
    fn check(object: &T, config: &ValidationConfig) -> (found: Vec<Self>)
        ensures
            found@ == Self::errors(object, config),
    ;

    /// Convenience method to run the check and return the first error.
    ///
    /// Always uses the default configuration.
    fn check_and_return_first_error(object: &T) -> (result: Result<(), Self>)
        ensures
            result == first_error(Self::errors(object, &default_config())),
    {
        let config = ValidationConfig::default();
        let mut found = Self::check(object, &config);
        if found.len() > 0 {
            Err(found.remove(0))
        } else {
            Ok(())
        }
    }

    /// Convenience method to run the check and expect one error.
    ///
    /// Always uses the default configuration. Not to be called unless the
    /// check finds exactly one error.
    fn check_and_expect_one_error(object: &T) -> (err: Self)
        requires
            Self::errors(object, &default_config()).len() == 1,
        ensures
            err == Self::errors(object, &default_config())[0],
    {
        let config = ValidationConfig::default();
        let mut found = Self::check(object, &config);
        found.remove(0)
    }
}

/// The first of the errors, if there is any.
pub open spec fn first_error<E>(errors: Seq<E>) -> Result<(), E> {
    if errors.len() > 0 {
        Err(errors[0])
    } else {
        Ok(())
    }
}

/// A collection of validation errors.
#[derive(Debug, PartialEq, Eq)]
pub struct ValidationErrors(pub Vec<ValidationError>);

impl Clone for ValidationErrors {
    fn clone(&self) -> (copy: ValidationErrors)
        ensures
            copy.0@ == self.0@,
    {
        let mut errors: Vec<ValidationError> = Vec::new();
        let mut i: usize = 0;
        while i < self.0.len()
            invariant
                i <= self.0.len(),
                errors@ == self.0@.take(i as int),
            decreases self.0.len() - i,
        {
            errors.push(self.0[i]);
            assert(self.0@.take(i + 1) =~= self.0@.take(i as int).push(self.0@[i as int]));
            i += 1;
        }
        assert(self.0@.take(i as int) =~= self.0@);
        ValidationErrors(errors)
    }
}

} // verus!
