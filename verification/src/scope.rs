//! Contains the [Scope]-enum that represents an OAuth authorization scope and various utilities surrounding it.

use vstd::prelude::*;

use crate::util::spec_join;

verus! {

/// An OAuth authorization scope.
///
/// Authorization scopes are granted to the application by the user and restrict which endpoints are available to the
/// application. All scoped endpoints require certain scopes to be granted. You choose which scopes to request in the
/// `scopes`-functions of the client builders.
#[derive(Debug, Clone, Copy, PartialEq, Eq, Hash, Structural)]
pub enum Scope {
    /// Write access to user-provided images.
    UgcImageUpload,
    /// Write access to a user’s playback state.
    UserModifyPlaybackState,
    /// Read access to a user’s player state.
    UserReadPlaybackState,
    /// Read access to a user’s currently playing content.
    UserReadCurrentlyPlaying,
    /// Write/delete access to the list of artists and other users that the user follows.
    UserFollowModify,
    /// Read access to the list of artists and other users that the user follows.
    UserFollowRead,
    /// Read access to a user’s recently played tracks.
    UserReadRecentlyPlayed,
    /// Read access to a user’s playback position in a content.
    UserReadPlaybackPosition,
    /// Read access to a user's top artists and tracks.
    UserTopRead,
    /// Include collaborative playlists when requesting a user's playlists.
    PlaylistReadCollaborative,
    /// Write access to a user's public playlists.
    PlaylistModifyPublic,
    /// Read access to user's private playlists.
    PlaylistReadPrivate,
    /// Write access to a user's private playlists.
    PlaylistModifyPrivate,
    /// Remote control playback of Spotify. This scope is currently available to Spotify iOS and Android SDKs.
    AppRemoteControl,
    /// Control playback of a Spotify track. This scope is currently available to the Web Playback SDK. The user must
    /// have a Spotify Premium account.
    Streaming,
    /// Read access to user’s email address.
    UserReadEmail,
    /// Read access to user’s subscription details (type of user account).
    UserReadPrivate,
    /// Write/delete access to a user's "Your Music" library.
    UserLibraryModify,
    /// Read access to a user's library.
    UserLibraryRead,
}

impl Scope {
    /// The scope's name as Spotify writes it, e.g. `user-read-playback-state`.
    pub open spec fn spec_name(self) -> Seq<char> {
        match self {
            Scope::UgcImageUpload => seq!['u', 'g', 'c', '-', 'i', 'm', 'a', 'g', 'e', '-', 'u', 'p', 'l', 'o', 'a', 'd'],
            Scope::UserModifyPlaybackState => seq!['u', 's', 'e', 'r', '-', 'm', 'o', 'd', 'i', 'f', 'y', '-', 'p', 'l', 'a', 'y', 'b', 'a', 'c', 'k', '-', 's', 't', 'a', 't', 'e'],
            Scope::UserReadPlaybackState => seq!['u', 's', 'e', 'r', '-', 'r', 'e', 'a', 'd', '-', 'p', 'l', 'a', 'y', 'b', 'a', 'c', 'k', '-', 's', 't', 'a', 't', 'e'],
            Scope::UserReadCurrentlyPlaying => seq!['u', 's', 'e', 'r', '-', 'r', 'e', 'a', 'd', '-', 'c', 'u', 'r', 'r', 'e', 'n', 't', 'l', 'y', '-', 'p', 'l', 'a', 'y', 'i', 'n', 'g'],
            Scope::UserFollowModify => seq!['u', 's', 'e', 'r', '-', 'f', 'o', 'l', 'l', 'o', 'w', '-', 'm', 'o', 'd', 'i', 'f', 'y'],
            Scope::UserFollowRead => seq!['u', 's', 'e', 'r', '-', 'f', 'o', 'l', 'l', 'o', 'w', '-', 'r', 'e', 'a', 'd'],
            Scope::UserReadRecentlyPlayed => seq!['u', 's', 'e', 'r', '-', 'r', 'e', 'a', 'd', '-', 'r', 'e', 'c', 'e', 'n', 't', 'l', 'y', '-', 'p', 'l', 'a', 'y', 'e', 'd'],
            Scope::UserReadPlaybackPosition => seq!['u', 's', 'e', 'r', '-', 'r', 'e', 'a', 'd', '-', 'p', 'l', 'a', 'y', 'b', 'a', 'c', 'k', '-', 'p', 'o', 's', 'i', 't', 'i', 'o', 'n'],
            Scope::UserTopRead => seq!['u', 's', 'e', 'r', '-', 't', 'o', 'p', '-', 'r', 'e', 'a', 'd'],
            Scope::PlaylistReadCollaborative => seq!['p', 'l', 'a', 'y', 'l', 'i', 's', 't', '-', 'r', 'e', 'a', 'd', '-', 'c', 'o', 'l', 'l', 'a', 'b', 'o', 'r', 'a', 't', 'i', 'v', 'e'],
            Scope::PlaylistModifyPublic => seq!['p', 'l', 'a', 'y', 'l', 'i', 's', 't', '-', 'm', 'o', 'd', 'i', 'f', 'y', '-', 'p', 'u', 'b', 'l', 'i', 'c'],
            Scope::PlaylistReadPrivate => seq!['p', 'l', 'a', 'y', 'l', 'i', 's', 't', '-', 'r', 'e', 'a', 'd', '-', 'p', 'r', 'i', 'v', 'a', 't', 'e'],
            Scope::PlaylistModifyPrivate => seq!['p', 'l', 'a', 'y', 'l', 'i', 's', 't', '-', 'm', 'o', 'd', 'i', 'f', 'y', '-', 'p', 'r', 'i', 'v', 'a', 't', 'e'],
            Scope::AppRemoteControl => seq!['a', 'p', 'p', '-', 'r', 'e', 'm', 'o', 't', 'e', '-', 'c', 'o', 'n', 't', 'r', 'o', 'l'],
            Scope::Streaming => seq!['s', 't', 'r', 'e', 'a', 'm', 'i', 'n', 'g'],
            Scope::UserReadEmail => seq!['u', 's', 'e', 'r', '-', 'r', 'e', 'a', 'd', '-', 'e', 'm', 'a', 'i', 'l'],
            Scope::UserReadPrivate => seq!['u', 's', 'e', 'r', '-', 'r', 'e', 'a', 'd', '-', 'p', 'r', 'i', 'v', 'a', 't', 'e'],
            Scope::UserLibraryModify => seq!['u', 's', 'e', 'r', '-', 'l', 'i', 'b', 'r', 'a', 'r', 'y', '-', 'm', 'o', 'd', 'i', 'f', 'y'],
            Scope::UserLibraryRead => seq!['u', 's', 'e', 'r', '-', 'l', 'i', 'b', 'r', 'a', 'r', 'y', '-', 'r', 'e', 'a', 'd'],
        }
    }

    /// The scope's name as Spotify writes it, e.g. `user-read-playback-state`.
    pub fn as_str(self) -> (r: &'static str)
        ensures
            r@ == self.spec_name(),
    {
        match self {
            Scope::UgcImageUpload => {
                proof {
                    reveal_strlit("ugc-image-upload");
                }
                "ugc-image-upload"
            },
            Scope::UserModifyPlaybackState => {
                proof {
                    reveal_strlit("user-modify-playback-state");
                }
                "user-modify-playback-state"
            },
            Scope::UserReadPlaybackState => {
                proof {
                    reveal_strlit("user-read-playback-state");
                }
                "user-read-playback-state"
            },
            Scope::UserReadCurrentlyPlaying => {
                proof {
                    reveal_strlit("user-read-currently-playing");
                }
                "user-read-currently-playing"
            },
            Scope::UserFollowModify => {
                proof {
                    reveal_strlit("user-follow-modify");
                }
                "user-follow-modify"
            },
            Scope::UserFollowRead => {
                proof {
                    reveal_strlit("user-follow-read");
                }
                "user-follow-read"
            },
            Scope::UserReadRecentlyPlayed => {
                proof {
                    reveal_strlit("user-read-recently-played");
                }
                "user-read-recently-played"
            },
            Scope::UserReadPlaybackPosition => {
                proof {
                    reveal_strlit("user-read-playback-position");
                }
                "user-read-playback-position"
            },
            Scope::UserTopRead => {
                proof {
                    reveal_strlit("user-top-read");
                }
                "user-top-read"
            },
            Scope::PlaylistReadCollaborative => {
                proof {
                    reveal_strlit("playlist-read-collaborative");
                }
                "playlist-read-collaborative"
            },
            Scope::PlaylistModifyPublic => {
                proof {
                    reveal_strlit("playlist-modify-public");
                }
                "playlist-modify-public"
            },
            Scope::PlaylistReadPrivate => {
                proof {
                    reveal_strlit("playlist-read-private");
                }
                "playlist-read-private"
            },
            Scope::PlaylistModifyPrivate => {
                proof {
                    reveal_strlit("playlist-modify-private");
                }
                "playlist-modify-private"
            },
            Scope::AppRemoteControl => {
                proof {
                    reveal_strlit("app-remote-control");
                }
                "app-remote-control"
            },
            Scope::Streaming => {
                proof {
                    reveal_strlit("streaming");
                }
                "streaming"
            },
            Scope::UserReadEmail => {
                proof {
                    reveal_strlit("user-read-email");
                }
                "user-read-email"
            },
            Scope::UserReadPrivate => {
                proof {
                    reveal_strlit("user-read-private");
                }
                "user-read-private"
            },
            Scope::UserLibraryModify => {
                proof {
                    reveal_strlit("user-library-modify");
                }
                "user-library-modify"
            },
            Scope::UserLibraryRead => {
                proof {
                    reveal_strlit("user-library-read");
                }
                "user-library-read"
            },
        }
    }
}

/// The names of the scopes in `scopes`, in order.
pub open spec fn spec_scope_names(scopes: Seq<Scope>) -> Seq<Seq<char>> {
    scopes.map_values(|scope: Scope| scope.spec_name())
}

/// The scopes string of `scopes`: their names, separated by spaces.
pub open spec fn spec_scopes_string(scopes: Seq<Scope>) -> Seq<char> {
    spec_join(spec_scope_names(scopes), ' ')
}

/// Trait for converting an object to a scopes string. This is implemented for arrays, vectors and slices of
/// [Scope's](Scope).
pub trait ToScopesString {
    /// The scopes, in order.
    spec fn spec_scopes(&self) -> Seq<Scope>;

    /// Convert `self` to a scopes string: the scopes' names separated by spaces.
    fn to_scopes_string(self) -> (r: String)
        ensures
            r@ == spec_scopes_string(self.spec_scopes()),
    ;
}

/// The names of `scopes`, separated by spaces.
fn join_scopes(scopes: &[Scope]) -> (r: String)
    ensures
        r@ == spec_scopes_string(scopes@),
{
    let mut r = String::new();
    let mut i: usize = 0;
    let ghost names = spec_scope_names(scopes@);
    let separator = " ";
    proof {
        reveal_strlit(" ");
    }
    while i < scopes.len()
        invariant
            i <= scopes@.len(),
            names == spec_scope_names(scopes@),
            separator@ == seq![' '],
            r@ == spec_join(names.take(i as int), ' '),
        decreases scopes@.len() - i,
    {
        if i != 0 {
            r.append(separator);
        }
        r.append(scopes[i].as_str());
        assert(names.take(i + 1).drop_last() =~= names.take(i as int));
        i = i + 1;
    }
    assert(names.take(scopes@.len() as int) =~= names);
    r
}

impl<const N: usize> ToScopesString for [Scope; N] {
    open spec fn spec_scopes(&self) -> Seq<Scope> {
        self@
    }

    fn to_scopes_string(self) -> (r: String) {
        join_scopes(&self)
    }
}

impl ToScopesString for Vec<Scope> {
    open spec fn spec_scopes(&self) -> Seq<Scope> {
        self@
    }

    fn to_scopes_string(self) -> (r: String) {
        join_scopes(self.as_slice())
    }
}

impl<'a> ToScopesString for &'a [Scope] {
    open spec fn spec_scopes(&self) -> Seq<Scope> {
        self@
    }

    fn to_scopes_string(self) -> (r: String) {
        join_scopes(self)
    }
}


/// Each scope's name is the name Spotify documents for it, such as `playlist-modify-public` for write access to public
/// playlists.
pub proof fn law_scope_names()
    ensures
        Scope::UgcImageUpload.spec_name() == "ugc-image-upload"@,
        Scope::UserModifyPlaybackState.spec_name() == "user-modify-playback-state"@,
        Scope::UserReadPlaybackState.spec_name() == "user-read-playback-state"@,
        Scope::UserReadCurrentlyPlaying.spec_name() == "user-read-currently-playing"@,
        Scope::UserFollowModify.spec_name() == "user-follow-modify"@,
        Scope::UserFollowRead.spec_name() == "user-follow-read"@,
        Scope::UserReadRecentlyPlayed.spec_name() == "user-read-recently-played"@,
        Scope::UserReadPlaybackPosition.spec_name() == "user-read-playback-position"@,
        Scope::UserTopRead.spec_name() == "user-top-read"@,
        Scope::PlaylistReadCollaborative.spec_name() == "playlist-read-collaborative"@,
        Scope::PlaylistModifyPublic.spec_name() == "playlist-modify-public"@,
        Scope::PlaylistReadPrivate.spec_name() == "playlist-read-private"@,
        Scope::PlaylistModifyPrivate.spec_name() == "playlist-modify-private"@,
        Scope::AppRemoteControl.spec_name() == "app-remote-control"@,
        Scope::Streaming.spec_name() == "streaming"@,
        Scope::UserReadEmail.spec_name() == "user-read-email"@,
        Scope::UserReadPrivate.spec_name() == "user-read-private"@,
        Scope::UserLibraryModify.spec_name() == "user-library-modify"@,
        Scope::UserLibraryRead.spec_name() == "user-library-read"@,
{
    reveal_strlit("ugc-image-upload");
    reveal_strlit("user-modify-playback-state");
    reveal_strlit("user-read-playback-state");
    reveal_strlit("user-read-currently-playing");
    reveal_strlit("user-follow-modify");
    reveal_strlit("user-follow-read");
    reveal_strlit("user-read-recently-played");
    reveal_strlit("user-read-playback-position");
    reveal_strlit("user-top-read");
    reveal_strlit("playlist-read-collaborative");
    reveal_strlit("playlist-modify-public");
    reveal_strlit("playlist-read-private");
    reveal_strlit("playlist-modify-private");
    reveal_strlit("app-remote-control");
    reveal_strlit("streaming");
    reveal_strlit("user-read-email");
    reveal_strlit("user-read-private");
    reveal_strlit("user-library-modify");
    reveal_strlit("user-library-read");
}

/// The scopes string of one scope is that scope's name, and each further scope adds a space and its name: the string
/// asks for exactly the given scopes, in order.
pub proof fn law_scopes_string(scopes: Seq<Scope>, scope: Scope)
    ensures
        spec_scopes_string(seq![scope]) == scope.spec_name(),
        scopes.len() > 0 ==> spec_scopes_string(scopes.push(scope)) == spec_scopes_string(scopes) + seq![' ']
            + scope.spec_name(),
{
    assert(spec_scope_names(seq![scope]) =~= seq![scope.spec_name()]);
    if scopes.len() > 0 {
        assert(spec_scope_names(scopes.push(scope)).drop_last() =~= spec_scope_names(scopes));
    }
}

} // verus!
