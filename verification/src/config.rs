//! The explicit configuration handed to the engine at startup: the caller's
//! cookie, the save directory, the worker count per stream, and the path of
//! the external merge tool. No ambient global state.

use vstd::prelude::*;
use vstd::string::StringExecFns;

verus! {

/// The configuration one `Downloader` runs with.
#[derive(Debug)]
pub struct Config {
    pub cookie: String,
    pub save_path: String,
    pub parts: usize,
    pub ffmpeg: String,
}

impl Config {
    /// Bundle the four settings.
    pub fn new(cookie: String, save_path: String, parts: usize, ffmpeg: String) -> (c: Config)
        ensures
            c.cookie@ == cookie@,
            c.save_path@ == save_path@,
            c.parts == parts,
            c.ffmpeg@ == ffmpeg@,
    {
        Config { cookie, save_path, parts, ffmpeg }
    }

    /// The fallback used when no stored configuration exists: an empty
    /// cookie, one worker per stream, and the merge tool looked up on the
    /// search path.
    pub fn fallback(save_path: String) -> (c: Config)
        ensures
            c.cookie@ == Seq::<char>::empty(),
            c.save_path@ == save_path@,
            c.parts == 1,
            c.ffmpeg@ == "ffmpeg"@,
    {
        Config {
            cookie: String::new(),
            save_path,
            parts: 1,
            ffmpeg: String::from_str("ffmpeg"),
        }
    }
}

/// The browser identity every request is sent under.
pub open spec fn user_agent_rep() -> Seq<char> {
    "Mozilla/5.0 (Macintosh; Intel Mac OS X 10_15_7) AppleWebKit/605.1.15 (KHTML, like Gecko) Version/16.5 Safari/605.1.15"@
}

/// The browser identity every request is sent under.
pub fn user_agent() -> (s: &'static str)
    ensures
        s@ == user_agent_rep(),
{
    "Mozilla/5.0 (Macintosh; Intel Mac OS X 10_15_7) AppleWebKit/605.1.15 (KHTML, like Gecko) Version/16.5 Safari/605.1.15"
}

/// The referer the media servers expect.
pub open spec fn referer_rep() -> Seq<char> {
    "https://www.bilibili.com/"@
}

/// The referer the media servers expect.
pub fn referer() -> (s: &'static str)
    ensures
        s@ == referer_rep(),
{
    "https://www.bilibili.com/"
}

/// The container format the video stream is cached and muxed into.
pub fn video_format() -> (s: &'static str)
    ensures
        s@ == "mp4"@,
{
    "mp4"
}

/// The container format the audio stream is cached into.
pub fn audio_format() -> (s: &'static str)
    ensures
        s@ == "aac"@,
{
    "aac"
}

} // verus!
