//! A video player built around a playbin, which finds and decodes the
//! streams of a URI by itself.

use vstd::prelude::*;
use crate::media::{playbin_plan, playbin_plan_of, PlaybinPlan};
use crate::playback::{idle_playback, Playback};
use crate::video1::{suffixed, DEFAULT_HEIGHT, DEFAULT_WIDTH};

verus! {

/// A playbin video player and the state of its pipeline.
#[derive(Debug)]
pub struct Video2 {
    pub id: String,
    pub uri: String,
    /// Use the third generation of the playbin.
    pub v3_enabled: bool,
    pub width: i32,
    pub height: i32,
    pub text: String,
    /// Name of the sound stream fed by the decoded audio.
    pub sound_id: String,
    pub playback: Playback,
}

/// The settings of a player that has not been initialized yet, its URI and
/// playbin generation aside.
pub open spec fn video2_defaults(v: Video2) -> bool {
    &&& v.id@ == "Video1"@
    &&& v.width == DEFAULT_WIDTH
    &&& v.height == DEFAULT_HEIGHT
    &&& v.text@ == "Video1"@
    &&& v.sound_id@ == "None"@
    &&& v.playback == idle_playback()
}

impl Default for Video2 {
    fn default() -> (r: Video2)
        ensures
            video2_defaults(r),
            r.uri@ == Seq::<char>::empty(),
            r.v3_enabled,
    {
        Video2 {
            id: String::from_str("Video1"),
            uri: String::new(),
            v3_enabled: true,
            width: DEFAULT_WIDTH,
            height: DEFAULT_HEIGHT,
            text: String::from_str("Video1"),
            sound_id: String::from_str("None"),
            playback: Playback::new(),
        }
    }
}

impl Video2 {
    /// Creates the player for `uri`.
    pub fn new(uri: String, v3_enabled: bool) -> (r: Video2)
        ensures
            video2_defaults(r),
            r.uri == uri,
            r.v3_enabled == v3_enabled,
    {
        let mut r = Video2::default();
        r.uri = uri;
        r.v3_enabled = v3_enabled;
        r
    }

    /// Takes the player's identity and returns the playbin to build.
    pub fn initialize(&mut self, id: String) -> (r: PlaybinPlan)
        ensures
            final(self).id == id,
            final(self).sound_id@ == id@ + "left"@,
            final(self).uri == old(self).uri,
            final(self).v3_enabled == old(self).v3_enabled,
            final(self).width == old(self).width,
            final(self).height == old(self).height,
            final(self).text == old(self).text,
            final(self).playback == old(self).playback,
            r@ == playbin_plan_of(
                old(self).uri,
                old(self).v3_enabled,
                old(self).width,
                old(self).height,
            ),
    {
        self.sound_id = suffixed(&id, "left");
        self.id = id;
        playbin_plan(&self.uri, self.v3_enabled, self.width, self.height)
    }

    /// Name of the texture that receives the frames.
    pub fn texture_id(&self) -> (r: String)
        ensures
            r@ == self.id@ + "video"@,
    {
        suffixed(&self.id, "video")
    }

    /// Name of the material that shows the texture.
    pub fn material_id(&self) -> (r: String)
        ensures
            r@ == self.id@ + "material_video"@,
    {
        suffixed(&self.id, "material_video")
    }
}

} // verus!
