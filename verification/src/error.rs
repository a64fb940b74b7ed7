use vstd::prelude::*;

verus! {

/// What can go wrong between a raw source payload and a reconciled time series.
#[derive(Debug, Clone, Copy, PartialEq, Eq, Structural)]
pub enum DataError {
    /// A record carries no date and cannot be placed in the series.
    MissingDate,
    /// A date or a number of a source row could not be read.
    MalformedField,
    /// The population that incidences are normalised by is zero.
    InvalidPopulation,
}

impl DataError {
    /// A short description for the user.
    pub fn message(&self) -> (text: &'static str)
        ensures
            text@ == match *self {
                DataError::MissingDate => "record without a date"@,
                DataError::MalformedField => "malformed field in source data"@,
                DataError::InvalidPopulation => "population must be positive"@,
            },
    {
        match self {
            DataError::MissingDate => "record without a date",
            DataError::MalformedField => "malformed field in source data",
            DataError::InvalidPopulation => "population must be positive",
        }
    }
}

} // verus!
