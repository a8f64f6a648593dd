use vstd::prelude::*;

verus! {

/// Why the service refuses to produce output for a request.
#[derive(Clone, Copy, Debug, PartialEq, Eq, Structural)]
pub enum RequestError {
    /// The request asked for zero samples; a signal needs at least one.
    ZeroSamples,
    /// The six output columns do not all have the same length.
    LengthMismatch,
}

impl RequestError {
    /// The client-visible text for this rejection.
    pub fn message(&self) -> (r: String)
        ensures
            *self == RequestError::ZeroSamples ==> r@ == "samples must be > 0"@,
            *self == RequestError::LengthMismatch ==> r@ == "signal columns differ in length"@,
    {
        match self {
            RequestError::ZeroSamples => "samples must be > 0".to_owned(),
            RequestError::LengthMismatch => "signal columns differ in length".to_owned(),
        }
    }
}

/// The one check the request handler makes before any signal is computed:
/// the sample count must be positive. A count of zero is rejected and the
/// signal pipeline is never entered.
pub fn validate_samples(samples: usize) -> (r: Result<(), RequestError>)
    ensures
        r is Ok <==> samples > 0,
        samples == 0 ==> r == Err::<(), RequestError>(RequestError::ZeroSamples),
{
    if samples == 0 {
        Err(RequestError::ZeroSamples)
    } else {
        Ok(())
    }
}

} // verus!
