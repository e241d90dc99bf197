//! The answer of an OpenAI-compatible route, kept with the request so that
//! usage can be recorded after the response is sent.

use vstd::prelude::*;
use crate::errors::ProxyRequestError;

verus! {

/// The outcome of a proxied request: the provider's data or the error to
/// answer with.
#[derive(Debug)]
pub struct OpenAiCompatibleResponse<T> {
    pub result: Result<T, ProxyRequestError>,
}

impl<T> OpenAiCompatibleResponse<T> {
    /// Wraps an outcome.
    pub fn new(result: Result<T, ProxyRequestError>) -> (r: Self)
        ensures
            r.result == result,
    {
        Self { result }
    }
}

impl<T: Clone> Clone for OpenAiCompatibleResponse<T> {
    fn clone(&self) -> Self {
        let result = match &self.result {
            Ok(data) => Ok(data.clone()),
            Err(error) => Err(error.clone()),
        };
        Self { result }
    }
}

} // verus!
