use vstd::prelude::*;

verus! {

/// Every way a control operation can fail, from the transport up to the
/// domain lookups. Setup failures (config, user mapping) and loop-time
/// failures share this one taxonomy; the caller decides which are fatal.
#[derive(Clone, Copy, Debug, PartialEq, Eq, Structural)]
pub enum RpcError {
    /// A network-level failure: the appliance could not be reached at all.
    Transport,
    /// The appliance answered, but not with the JSON shape the caller needs.
    Protocol,
    /// No show in the library carries the requested title.
    ShowNotFound,
    /// The show exists but its episode list is empty or absent.
    NoEpisodesFound,
    /// The chosen episode has no file path in the appliance's answer.
    FilePathNotFound,
    /// The user is absent from the user-to-shows mapping.
    UserNotFound,
    /// The user is present but mapped to an empty show list.
    NoShowsForUser,
}

} // verus!
