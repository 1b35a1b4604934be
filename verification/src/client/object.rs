//! The request bodies and response objects of the Web API endpoints the clients call.

use vstd::prelude::*;
use vstd::std_specs::convert::FromSpecImpl;
use vstd::std_specs::convert::TryFromSpecImpl;

use super::request_builder::TryFromEmptyResponse;
use crate::error::ConversionError;
use crate::model::page::spec_filter_map;
use crate::model::playback::Device;
use crate::model::track::is_non_full_track_reason;
use crate::model::track::FullTrack;
use crate::model::track::TrackObject;
use crate::model::user::PublicUser;
use crate::model::user::User;

verus! {

pub const DEVICE_ID_QUERY: &'static str = "device_id";

pub const REPEAT_STATE_QUERY: &'static str = "repeat_state";

pub const SHUFFLE_QUERY: &'static str = "shuffle";

pub const VOLUME_PERCENT_QUERY: &'static str = "volume_percent";

pub const SEEK_POSITION_QUERY: &'static str = "position_ms";

pub const QUEUE_URI_QUERY: &'static str = "uri";

pub const TRACKS_IDS_QUERY: &'static str = "ids";

pub const MARKET_QUERY: &'static str = "market";

/// The body of a request to play items: their Spotify URIs.
#[derive(Debug)]
pub struct PlayItemsBody {
    pub uris: Vec<String>,
}

/// The body of a request to play a context: its Spotify URI and where to start in it.
#[derive(Debug)]
pub struct PlayContextBody {
    pub context_uri: String,
    pub offset: PlayContextOffset,
}

/// Where to start playing in a context.
#[derive(Debug)]
pub struct PlayContextOffset {
    pub position: Option<u32>,
    pub uri: Option<String>,
}

/// The devices in the user's account.
#[derive(Debug)]
pub struct DevicesResponse {
    pub devices: Vec<Device>,
}

/// The tracks asked for; `None` for the IDs that name no track.
#[derive(Debug)]
pub struct TracksResponse {
    tracks: Vec<Option<TrackObject>>,
}

/// The full track an entry of a tracks response gives, if it holds one.
pub open spec fn full_track_of(entry: Option<TrackObject>) -> Option<FullTrack> {
    match entry {
        Some(obj) => FullTrack::from_object(obj),
        None => None,
    }
}

/// Every track object in the entries holds the fields of a full track.
pub open spec fn all_full(entries: Seq<Option<TrackObject>>) -> bool {
    forall|i: int| 0 <= i < entries.len() && (#[trigger] entries[i]) is Some ==> full_track_of(entries[i]) is Some
}

impl TracksResponse {
    /// The entries of the response, in order.
    pub closed spec fn spec_tracks(&self) -> Seq<Option<TrackObject>> {
        self.tracks@
    }

    /// A response holding these entries.
    pub fn new(tracks: Vec<Option<TrackObject>>) -> (r: Self)
        ensures
            r.spec_tracks() == tracks@,
    {
        TracksResponse { tracks }
    }

    /// The full tracks of the response, in order, skipping the IDs that name no track; an error if a track object
    /// does not hold the fields of a full track.
    pub fn full_tracks(self) -> (r: Result<Vec<FullTrack>, ConversionError>)
        ensures
            all_full(self.spec_tracks()) ==> (r matches Ok(v) && v@ == spec_filter_map(
                self.spec_tracks(),
                |e: Option<TrackObject>| full_track_of(e),
            )),
            !all_full(self.spec_tracks()) ==> (r matches Err(e) && is_non_full_track_reason(e.reason())),
    {
        let ghost entries = self.tracks@;
        let ghost f = |e: Option<TrackObject>| full_track_of(e);
        let mut out: Vec<FullTrack> = Vec::new();
        for entry in it: self.tracks.into_iter()
            invariant
                it.seq() == entries,
                forall|e: Option<TrackObject>| #[trigger] f(e) == full_track_of(e),
                out@ == spec_filter_map(entries.take(it.index()), f),
                all_full(entries.take(it.index())),
        {
            let ghost k = it.index();
            let ghost e = entry;
            assert(e == entries[k]);
            proof {
                assert(entries.take(k + 1).drop_last() =~= entries.take(k));
                assert(entries.take(k + 1).last() == e);
            }
            match entry {
                Some(obj) => match FullTrack::try_from(obj) {
                    Ok(track) => {
                        out.push(track);
                        assert(all_full(entries.take(k + 1))) by {
                            assert forall|i: int| 0 <= i < k + 1 && (#[trigger] entries.take(k + 1)[i]) is Some
                                implies full_track_of(entries.take(k + 1)[i]) is Some by {
                                if i < k {
                                    assert(entries.take(k + 1)[i] == entries.take(k)[i]);
                                }
                            }
                        }
                    },
                    Err(err) => {
                        assert(!all_full(entries)) by {
                            assert(entries[k] is Some && full_track_of(entries[k]) is None);
                        }
                        return Err(err);
                    },
                },
                None => {
                    assert(all_full(entries.take(k + 1))) by {
                        assert forall|i: int| 0 <= i < k + 1 && (#[trigger] entries.take(k + 1)[i]) is Some implies
                            full_track_of(entries.take(k + 1)[i]) is Some by {
                            if i < k {
                                assert(entries.take(k + 1)[i] == entries.take(k)[i]);
                            }
                        }
                    }
                },
            }
        }
        proof {
            assert(entries.take(entries.len() as int) =~= entries);
            assert(f =~= |e: Option<TrackObject>| full_track_of(e));
        }
        Ok(out)
    }
}

impl TryFrom<TracksResponse> for Vec<FullTrack> {
    type Error = ConversionError;

    fn try_from(value: TracksResponse) -> (r: Result<Self, Self::Error>)
        ensures
            all_full(value.spec_tracks()) ==> (r matches Ok(v) && v@ == spec_filter_map(
                value.spec_tracks(),
                |e: Option<TrackObject>| full_track_of(e),
            )),
            !all_full(value.spec_tracks()) ==> r is Err,
    {
        value.full_tracks()
    }
}

/// The error's message holds the debug text of the track object, which is not modelled, so the generic conversion
/// specification is not claimed; the contract of `try_from` states the outcome.
impl TryFromSpecImpl<TracksResponse> for Vec<FullTrack> {
    open spec fn obeys_try_from_spec() -> bool {
        false
    }

    open spec fn try_from_spec(v: TracksResponse) -> Result<Self, Self::Error> {
        arbitrary()
    }
}

impl From<DevicesResponse> for Vec<Device> {
    fn from(response: DevicesResponse) -> (r: Self)
        ensures
            r == response.devices,
    {
        response.devices
    }
}

impl FromSpecImpl<DevicesResponse> for Vec<Device> {
    open spec fn obeys_from_spec() -> bool {
        true
    }

    open spec fn from_spec(v: DevicesResponse) -> Self {
        v.devices
    }
}

impl TryFromEmptyResponse for DevicesResponse {}

impl TryFromEmptyResponse for TracksResponse {}

impl TryFromEmptyResponse for FullTrack {}

impl TryFromEmptyResponse for TrackObject {}

impl TryFromEmptyResponse for User {}

impl TryFromEmptyResponse for PublicUser {}


/// The names of the query parameters of the player and catalog endpoints, as Spotify documents them.
pub proof fn law_query_parameter_names()
    ensures
        DEVICE_ID_QUERY@ == "device_id"@,
        REPEAT_STATE_QUERY@ == "repeat_state"@,
        SHUFFLE_QUERY@ == "shuffle"@,
        VOLUME_PERCENT_QUERY@ == "volume_percent"@,
        SEEK_POSITION_QUERY@ == "position_ms"@,
        QUEUE_URI_QUERY@ == "uri"@,
        TRACKS_IDS_QUERY@ == "ids"@,
        MARKET_QUERY@ == "market"@,
{
}

} // verus!
