use vstd::prelude::*;
use vstd::string::StringExecFns;

use crate::text::{str_eq, str_starts_with};

verus! {

/// Which Overpass endpoint to query.
#[derive(Debug, Clone)]
pub enum OverpassApiEndpoint {
    /// The endpoint that covers Switzerland only, good for quick testing.
    Switzerland,
    /// The endpoint that covers the whole world.
    World,
    /// A custom endpoint URL.
    Custom(String),
}

/// The endpoint spellings `parse` accepts.
pub open spec fn endpoint_accepted(s: Seq<char>) -> bool {
    s == "switzerland"@ || s == "world"@ || "http://"@.is_prefix_of(s)
        || "https://"@.is_prefix_of(s)
}

/// The message `parse` rejects other spellings with.
pub open spec fn spec_invalid_endpoint_message(s: Seq<char>) -> Seq<char> {
    "Invalid value '"@ + s
        + "'. Expected 'switzerland', 'world', or a URL starting with http:// or https://"@
}

impl OverpassApiEndpoint {
    /// Reads an endpoint choice: one of the two named endpoints, or a custom
    /// URL beginning with `http://` or `https://`; anything else is rejected
    /// with a message naming the offending value.
    pub fn parse(s: &str) -> (r: Result<Self, String>)
        ensures
            r is Ok <==> endpoint_accepted(s@),
            s@ == "switzerland"@ ==> (r matches Ok(e) && e is Switzerland),
            s@ != "switzerland"@ && s@ == "world"@ ==> (r matches Ok(e) && e is World),
            s@ != "switzerland"@ && s@ != "world"@ && ("http://"@.is_prefix_of(s@)
                || "https://"@.is_prefix_of(s@)) ==> (r matches Ok(e) && e matches
                OverpassApiEndpoint::Custom(u) && u@ == s@),
            r matches Err(m) ==> m@ == spec_invalid_endpoint_message(s@),
    {
        if str_eq(s, "switzerland") {
            Ok(OverpassApiEndpoint::Switzerland)
        } else if str_eq(s, "world") {
            Ok(OverpassApiEndpoint::World)
        } else if str_starts_with(s, "http://") || str_starts_with(s, "https://") {
            Ok(OverpassApiEndpoint::Custom(String::from_str(s)))
        } else {
            let mut m = String::from_str("Invalid value '");
            m.append(s);
            m.append(
                "'. Expected 'switzerland', 'world', or a URL starting with http:// or https://",
            );
            Err(m)
        }
    }

    /// The URL this choice stands for.
    pub fn get_url(&self) -> (r: &str)
        ensures
            *self is Switzerland ==> r@ == "https://overpass.osm.ch/api/interpreter"@,
            *self is World ==> r@ == "https://overpass-api.de/api/interpreter"@,
            self matches OverpassApiEndpoint::Custom(u) ==> r@ == u@,
    {
        match self {
            OverpassApiEndpoint::Switzerland => "https://overpass.osm.ch/api/interpreter",
            OverpassApiEndpoint::World => "https://overpass-api.de/api/interpreter",
            OverpassApiEndpoint::Custom(url) => url.as_str(),
        }
    }
}

/// The run configuration a caller provides.
#[derive(Debug, Clone)]
pub struct Args {
    /// Keep the intermediate raw response file.
    pub keep_intermediate: bool,
    /// Which endpoint to query.
    pub overpass_api_endpoint: OverpassApiEndpoint,
    /// Timeout in seconds for the query itself.
    pub timeout_seconds: u32,
    /// Output file for the raw response, written only when asked to keep it.
    pub outfile_raw: String,
    /// Output file for the compressed result.
    pub outfile_compressed: String,
}

impl Args {
    /// The endpoint URL the configuration selects.
    pub fn get_overpass_url(&self) -> (r: &str)
        ensures
            self.overpass_api_endpoint is Switzerland ==> r@
                == "https://overpass.osm.ch/api/interpreter"@,
            self.overpass_api_endpoint is World ==> r@ == "https://overpass-api.de/api/interpreter"@,
            self.overpass_api_endpoint matches OverpassApiEndpoint::Custom(u) ==> r@ == u@,
    {
        self.overpass_api_endpoint.get_url()
    }
}

} // verus!
