//! A recognition client that stands in for a real provider.

use vstd::prelude::*;
use super::client::StreamingAsrClient;

verus! {

/// The stand-in recognition client.
pub struct MockAsrClient;

impl StreamingAsrClient for MockAsrClient {
    fn name(&self) -> (r: &'static str)
        ensures
            r@ == "mock-asr"@,
    {
        "mock-asr"
    }
}

} // verus!
