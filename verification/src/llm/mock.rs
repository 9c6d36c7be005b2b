//! A reply client that stands in for a real provider.

use vstd::prelude::*;
use super::client::StreamingReplyClient;

verus! {

/// The stand-in reply client.
pub struct MockReplyClient;

impl StreamingReplyClient for MockReplyClient {
    fn name(&self) -> (r: &'static str)
        ensures
            r@ == "mock-llm"@,
    {
        "mock-llm"
    }
}

} // verus!
