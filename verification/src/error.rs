//! Why a track could not be set up.

use vstd::prelude::*;
use vstd::string::StringExecFns;

verus! {

/// Why no run could be started for the player's track.
#[derive(Clone, Debug, PartialEq, Eq)]
pub enum FormatError {
    /// The player is gone.
    PlayerStopped,
    /// The player did not give the track's metadata; the text says why.
    MetadataError(String),
    /// The track's locator holds no path.
    AudioParseError,
    /// The path in the track's locator is not UTF-8 once its escapes are
    /// resolved; the text says where.
    AudioNotFoundError(String),
}

impl FormatError {
    /// The text of `message`.
    pub open spec fn message_text(self) -> Seq<char> {
        match self {
            FormatError::PlayerStopped => "Player has stopped. Tryning to find a new player.."@,
            FormatError::MetadataError(cause) => "Error when fetching metadata: "@ + cause@,
            FormatError::AudioParseError => "Failed to parse audio path."@,
            FormatError::AudioNotFoundError(cause) => "Failed to find audio path: "@ + cause@,
        }
    }

    /// The error in words.
    pub fn message(&self) -> (r: String)
        ensures
            r@ == self.message_text(),
    {
        match self {
            FormatError::PlayerStopped => String::from_str(
                "Player has stopped. Tryning to find a new player..",
            ),
            FormatError::MetadataError(cause) => String::from_str(
                "Error when fetching metadata: ",
            ).concat(cause.as_str()),
            FormatError::AudioParseError => String::from_str("Failed to parse audio path."),
            FormatError::AudioNotFoundError(cause) => String::from_str(
                "Failed to find audio path: ",
            ).concat(cause.as_str()),
        }
    }
}

} // verus!
