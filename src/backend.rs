//! The backend's answer, as plain values, and what it means for a message.

use vstd::prelude::*;

verus! {

/// One `title: text` pair of a metadata section.
pub struct MetadataEntry {
    pub title: String,
    pub text: String,
}

/// A section of the track description; only its metadata is used.
pub struct Section {
    pub metadata: Option<Vec<MetadataEntry>>,
}

/// A music provider the backend knows the track on.
pub struct Provider {
    /// The provider's type tag, such as `SPOTIFY` or `DEEZER`.
    pub provider_type: String,
    /// The provider's name, such as `applemusic`.
    pub provider_name: Option<String>,
    /// The URIs of the provider's actions, in order.
    pub action_uris: Vec<String>,
}

/// An identified track.
pub struct Track {
    pub title: String,
    pub subtitle: String,
    /// The track's canonical page; empty when the backend has none.
    pub url: String,
    /// High-quality cover art.
    pub coverart: String,
    pub sections: Vec<Section>,
    pub providers: Vec<Provider>,
    pub options: Vec<Provider>,
}

/// The backend's response body: a timestamp without a track means that it
/// searched and found nothing.
pub struct Envelope {
    pub timestamp: Option<u64>,
    pub track: Option<Track>,
}

/// What came back from one backend call.
pub enum BackendReply {
    /// The call failed at the transport level.
    Unreachable,
    /// The backend answered; `envelope` is none when the body did not parse.
    Answered { success: bool, envelope: Option<Envelope> },
}

/// The outcome of recognition for a message.
pub enum MatchResult {
    Found(Track),
    NoMatch,
    BackendError,
}

/// The outcome of a backend reply: a track only with a success status; a
/// timestamp and no track is a search that found nothing; anything else is a failure.
pub open spec fn outcome(reply: BackendReply) -> MatchResult {
    match reply {
        BackendReply::Answered { success: true, envelope: Some(Envelope { track: Some(t), .. }) } => MatchResult::Found(t),
        BackendReply::Answered { envelope: Some(Envelope { timestamp: Some(_), track: None }), .. } => MatchResult::NoMatch,
        _ => MatchResult::BackendError,
    }
}

/// Normalises a backend reply into a match result; no reply is left unclassified.
pub fn normalize(reply: BackendReply) -> (r: MatchResult)
    ensures
        r == outcome(reply),
{
    match reply {
        BackendReply::Unreachable => MatchResult::BackendError,
        BackendReply::Answered { success, envelope } => match envelope {
            None => MatchResult::BackendError,
            Some(e) => match e.track {
                Some(t) => if success {
                    MatchResult::Found(t)
                } else {
                    MatchResult::BackendError
                },
                None => if e.timestamp.is_some() {
                    MatchResult::NoMatch
                } else {
                    MatchResult::BackendError
                },
            },
        },
    }
}

} // verus!
