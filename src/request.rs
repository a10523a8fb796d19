//! The launch request: four user-supplied texts, and the check that none of
//! them is empty.
use vstd::prelude::*;

verus! {

/// A launch request as a user typed it. Nothing is checked on construction:
/// validation is a step of the launch.
pub struct LaunchRequest {
    pub address: String,
    pub port: String,
    pub directory: String,
    pub filename: String,
}

/// The texts of a launch request.
pub struct RequestView {
    pub address: Seq<char>,
    pub port: Seq<char>,
    pub directory: Seq<char>,
    pub filename: Seq<char>,
}

impl View for LaunchRequest {
    type V = RequestView;

    open spec fn view(&self) -> RequestView {
        RequestView {
            address: self.address@,
            port: self.port@,
            directory: self.directory@,
            filename: self.filename@,
        }
    }
}

/// Some field of the request is empty.
pub open spec fn missing_field(r: RequestView) -> bool {
    r.address.len() == 0 || r.port.len() == 0 || r.directory.len() == 0 || r.filename.len() == 0
}

impl LaunchRequest {
    pub fn new(address: String, port: String, directory: String, filename: String) -> (r: Self)
        ensures
            r.address == address,
            r.port == port,
            r.directory == directory,
            r.filename == filename,
    {
        LaunchRequest { address, port, directory, filename }
    }

    /// Whether any of the four fields is empty.
    pub fn has_missing_field(&self) -> (r: bool)
        ensures
            r == missing_field(self@),
    {
        self.address.as_str().is_empty() || self.port.as_str().is_empty()
            || self.directory.as_str().is_empty() || self.filename.as_str().is_empty()
    }
}

} // verus!
