//! Events of the Windows software update client.
use vstd::prelude::*;

verus! {

#[derive(Clone, Copy, Debug, PartialEq, Eq, Structural)]
pub enum WindowsSoftwareClient {
    CheckForUpdates,
    UpdateDetected,
    Installing,
    Downloading,
    Other,
}

impl WindowsSoftwareClient {
    /// The human-readable name of the event.
    pub open spec fn display_text(self) -> Seq<char> {
        match self {
            WindowsSoftwareClient::CheckForUpdates => "Checking for Updates"@,
            WindowsSoftwareClient::UpdateDetected => "Detected Update"@,
            WindowsSoftwareClient::Installing => "Installing"@,
            WindowsSoftwareClient::Downloading => "Downloading"@,
            WindowsSoftwareClient::Other => "Unknown Event"@,
        }
    }

    pub fn display_name(&self) -> (r: String)
        ensures
            r@ == self.display_text(),
    {
        match self {
            WindowsSoftwareClient::CheckForUpdates => "Checking for Updates",
            WindowsSoftwareClient::UpdateDetected => "Detected Update",
            WindowsSoftwareClient::Installing => "Installing",
            WindowsSoftwareClient::Downloading => "Downloading",
            WindowsSoftwareClient::Other => "Unknown Event",
        }.to_string()
    }
}

} // verus!
