//! A video player that builds one of several pipelines, chosen by its
//! source type, and shows the frames on a plane.

use vstd::prelude::*;
use vstd::string::*;
use crate::media::{plan_for, plan_of, PipelinePlan, VideoType};
use crate::playback::{idle_playback, Playback};

verus! {

/// Default size of the decoded frames.
pub const DEFAULT_WIDTH: i32 = 1920;

pub const DEFAULT_HEIGHT: i32 = 1080;

/// `id` followed by `suffix`, as used to name the resources a player owns.
pub fn suffixed(id: &String, suffix: &str) -> (r: String)
    ensures
        r@ == id@ + suffix@,
{
    id.clone().concat(suffix)
}

/// A video player and the state of its pipeline.
#[derive(Debug)]
pub struct Video1 {
    pub id: String,
    pub video_type: VideoType,
    pub width: i32,
    pub height: i32,
    pub text: String,
    /// Name of the sound stream fed by the decoded audio.
    pub sound_id: String,
    pub playback: Playback,
}

/// A player that has not been initialized yet: default identity, label and
/// lifecycle.
pub open spec fn video1_fresh(v: Video1) -> bool {
    &&& v.id@ == "Video1"@
    &&& v.text@ == "Video1"@
    &&& v.sound_id@ == "None"@
    &&& v.playback == idle_playback()
}

/// The settings of a new player, its source type aside.
pub open spec fn video1_defaults(v: Video1) -> bool {
    &&& video1_fresh(v)
    &&& v.width == DEFAULT_WIDTH
    &&& v.height == DEFAULT_HEIGHT
}

impl Default for Video1 {
    fn default() -> (r: Video1)
        ensures
            video1_defaults(r),
            r.video_type is NoSource,
    {
        Video1 {
            id: String::from_str("Video1"),
            video_type: VideoType::NoSource,
            width: DEFAULT_WIDTH,
            height: DEFAULT_HEIGHT,
            text: String::from_str("Video1"),
            sound_id: String::from_str("None"),
            playback: Playback::new(),
        }
    }
}

impl Video1 {
    /// Creates the video player for a source of type `video_type`.
    pub fn new(video_type: VideoType) -> (r: Video1)
        ensures
            video1_defaults(r),
            r.video_type == video_type,
    {
        let mut r = Video1::default();
        r.video_type = video_type;
        r
    }

    /// Takes the player's identity and returns the pipeline to build for its
    /// source, or `None` where its source type has no pipeline.
    pub fn initialize(&mut self, id: String) -> (r: Option<PipelinePlan>)
        ensures
            final(self).id == id,
            final(self).sound_id@ == id@ + "left"@,
            final(self).video_type == old(self).video_type,
            final(self).width == old(self).width,
            final(self).height == old(self).height,
            final(self).text == old(self).text,
            final(self).playback == old(self).playback,
            r is None <==> plan_of(old(self).video_type, old(self).width, old(self).height) is None,
            r matches Some(p) ==> Some(p@) == plan_of(
                old(self).video_type,
                old(self).width,
                old(self).height,
            ),
    {
        self.sound_id = suffixed(&id, "left");
        self.id = id;
        plan_for(&self.video_type, self.width, self.height)
    }

    /// Name of the texture that receives the frames.
    pub fn texture_id(&self) -> (r: String)
        ensures
            r@ == self.id@ + (if self.video_type is RtpStream {
                "tex_video"@
            } else {
                "video"@
            }),
    {
        match self.video_type {
            VideoType::RtpStream { .. } => suffixed(&self.id, "tex_video"),
            _ => suffixed(&self.id, "video"),
        }
    }

    /// Name of the material that shows the texture.
    pub fn material_id(&self) -> (r: String)
        ensures
            r@ == self.id@ + "material_video"@,
    {
        suffixed(&self.id, "material_video")
    }
}

} // verus!
