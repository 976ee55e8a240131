//! The recording configuration and the JSON payload handed to the external
//! recorder process.

use vstd::prelude::*;
use crate::json::{append_bool, append_dec_u32, append_json_string, bool_text, dec_rep, json_string};

verus! {

/// A rectangle of the screen to capture.
#[derive(Clone, Copy, Debug, PartialEq, Eq, Structural)]
pub struct CropArea {
    pub x: u32,
    pub y: u32,
    pub width: u32,
    pub height: u32,
}

/// The parameters of one recording session, captured as an immutable
/// snapshot when the session starts.
#[derive(Clone, Debug)]
pub struct RecordingConfig {
    pub screen_id: u32,
    pub fps: u32,
    pub show_cursor: bool,
    pub highlight_clicks: bool,
    pub video_codec: Option<String>,
    pub audio_device_id: Option<String>,
    pub crop_area: Option<CropArea>,
}

/// The `cropRect` member, when a crop area was chosen:
/// `,"cropRect":[[x,y],[width,height]]`.
pub open spec fn spec_crop_member(crop: Option<CropArea>) -> Seq<char> {
    match crop {
        Some(a) => ",\"cropRect\":"@ + "[["@ + dec_rep(a.x as nat) + ","@ + dec_rep(a.y as nat)
            + "],["@ + dec_rep(a.width as nat) + ","@ + dec_rep(a.height as nat) + "]]"@,
        None => Seq::<char>::empty(),
    }
}

/// The codec identifier passed to the recorder: the configured one, or
/// `hvc1` when none was chosen.
pub open spec fn spec_video_codec(c: RecordingConfig) -> Seq<char> {
    match c.video_codec {
        Some(v) => v@,
        None => "hvc1"@,
    }
}

/// The configuration payload handed to the external recorder: one JSON
/// object holding the destination locator and every recording parameter,
/// keys in alphabetical order.  `audioDeviceId` is `null` when no device was
/// chosen; `cropRect` appears only when a crop area was chosen.
pub open spec fn spec_recorder_options(c: RecordingConfig, dest: Seq<char>) -> Seq<char> {
    "{\"audioDeviceId\":"@ + (match c.audio_device_id {
        Some(d) => json_string(d@),
        None => "null"@,
    }) + spec_crop_member(c.crop_area) + ",\"destination\":"@ + json_string(dest)
        + ",\"framesPerSecond\":"@ + dec_rep(c.fps as nat) + ",\"highlightClicks\":"@ + bool_text(
        c.highlight_clicks,
    ) + ",\"screenId\":"@ + dec_rep(c.screen_id as nat) + ",\"showCursor\":"@ + bool_text(
        c.show_cursor,
    ) + ",\"videoCodec\":"@ + json_string(spec_video_codec(c)) + "}"@
}

/// Appends the `cropRect` member (or nothing) to `out`.
fn append_crop_member(out: &mut String, crop: Option<CropArea>)
    ensures
        final(out)@ == old(out)@ + spec_crop_member(crop),
{
    match crop {
        Some(a) => {
            out.append(",\"cropRect\":");
            out.append("[[");
            append_dec_u32(out, a.x);
            out.append(",");
            append_dec_u32(out, a.y);
            out.append("],[");
            append_dec_u32(out, a.width);
            out.append(",");
            append_dec_u32(out, a.height);
            out.append("]]");
            proof {
                assert(out@ =~= old(out)@ + spec_crop_member(crop));
            }
        },
        None => {
            proof {
                assert(out@ =~= old(out)@ + spec_crop_member(crop));
            }
        },
    }
}

/// Builds the configuration payload for the external recorder process.
pub fn recorder_options_json(c: &RecordingConfig, dest: &str) -> (r: String)
    ensures
        r@ == spec_recorder_options(*c, dest@),
{
    let mut out = String::from_str("{\"audioDeviceId\":");
    match &c.audio_device_id {
        Some(d) => append_json_string(&mut out, d.as_str()),
        None => out.append("null"),
    }
    append_crop_member(&mut out, c.crop_area);
    out.append(",\"destination\":");
    append_json_string(&mut out, dest);
    out.append(",\"framesPerSecond\":");
    append_dec_u32(&mut out, c.fps);
    out.append(",\"highlightClicks\":");
    append_bool(&mut out, c.highlight_clicks);
    out.append(",\"screenId\":");
    append_dec_u32(&mut out, c.screen_id);
    out.append(",\"showCursor\":");
    append_bool(&mut out, c.show_cursor);
    out.append(",\"videoCodec\":");
    match &c.video_codec {
        Some(v) => append_json_string(&mut out, v.as_str()),
        None => append_json_string(&mut out, "hvc1"),
    }
    out.append("}");
    proof {
        assert(out@ == spec_recorder_options(*c, dest@));
    }
    out
}

} // verus!
