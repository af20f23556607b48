//! Run configuration: which model family evaluates the data, and how many
//! timed passes a benchmark makes.
use vstd::prelude::*;

verus! {

/// Timed passes over the data set that a benchmark makes unless told otherwise.
pub const DEFAULT_TRIALS: usize = 50;

/// The model family that evaluates the data.
#[derive(Debug, Clone, Copy, PartialEq, Eq, Structural)]
pub enum ModelType {
    Logistic,
    Svm,
}

impl ModelType {
    /// The name under which the model family is reported.
    pub fn display_name(&self) -> (r: &'static str)
        ensures
            *self == ModelType::Logistic ==> r@ == "Logistic"@,
            *self == ModelType::Svm ==> r@ == "SVM"@,
    {
        match self {
            ModelType::Logistic => "Logistic",
            ModelType::Svm => "SVM",
        }
    }
}

} // verus!
