//! Which asset the display clients' web server answers a request path with.

use vstd::prelude::*;
use crate::text::same_text;

verus! {

#[derive(Clone, Copy, Debug, PartialEq, Eq, Structural)]
pub enum Asset {
    /// The client page.
    Page,
    /// The client script.
    Script,
    /// The follow notification's sound.
    FollowSound,
    /// The subscription notification's video.
    SubVideo,
    /// Nothing: an empty answer.
    NoContent,
}

pub open spec fn asset_at(path: Seq<char>) -> Asset {
    if path == "/"@ {
        Asset::Page
    } else if path == "/client.js"@ {
        Asset::Script
    } else if path == "/follow_sound"@ {
        Asset::FollowSound
    } else if path == "/sub_video"@ {
        Asset::SubVideo
    } else {
        Asset::NoContent
    }
}

/// The asset served at request path `path`.
pub fn asset_for(path: &str) -> (r: Asset)
    ensures
        r == asset_at(path@),
{
    if same_text(path, "/") {
        Asset::Page
    } else if same_text(path, "/client.js") {
        Asset::Script
    } else if same_text(path, "/follow_sound") {
        Asset::FollowSound
    } else if same_text(path, "/sub_video") {
        Asset::SubVideo
    } else {
        Asset::NoContent
    }
}

} // verus!
