//! The cross-origin policy of the read endpoints.
use vstd::prelude::*;

verus! {

/// The cross-origin resource sharing policy: any origin and header, the
/// methods the read endpoints serve, and credentials.
#[derive(PartialEq, Eq, Structural, Clone, Copy, Debug)]
pub struct CORS;

impl CORS {
    /// The response headers, as `(name, value)` pairs.
    pub fn headers(&self) -> (r: Vec<(String, String)>)
        ensures
            r@.len() == 4,
            r@[0].0@ == "Access-Control-Allow-Origin"@ && r@[0].1@ == "*"@,
            r@[1].0@ == "Access-Control-Allow-Methods"@ && r@[1].1@ == "POST, GET, PATCH, OPTIONS"@,
            r@[2].0@ == "Access-Control-Allow-Headers"@ && r@[2].1@ == "*"@,
            r@[3].0@ == "Access-Control-Allow-Credentials"@ && r@[3].1@ == "true"@,
    {
        vec![
            ("Access-Control-Allow-Origin".to_string(), "*".to_string()),
            ("Access-Control-Allow-Methods".to_string(), "POST, GET, PATCH, OPTIONS".to_string()),
            ("Access-Control-Allow-Headers".to_string(), "*".to_string()),
            ("Access-Control-Allow-Credentials".to_string(), "true".to_string()),
        ]
    }
}

} // verus!
