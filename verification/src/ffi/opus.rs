//! The shape of Opus audio frames and packets.
use crate::ffi::error::{ActrError, ActrResult};
use crate::text;
use crate::text::{join, push_decimal};
use vstd::prelude::*;
use vstd::string::StringExecFns;

verus! {

/// The most octets of one packet.
pub const MAX_OPUS_PACKET_SIZE: usize = 1500;

/// The bit rate of the encoder, in bits per second.
pub const OPUS_BITRATE: i32 = 32_000;

/// How many channels a frame has.
#[derive(Debug, Clone, Copy, PartialEq, Eq, Structural)]
pub enum OpusChannels {
    Mono,
    Stereo,
}

/// Frames of a fixed number of samples per channel.
#[derive(Debug, Clone, Copy, PartialEq, Eq, Structural)]
pub struct OpusEncoder {
    /// Samples per channel.
    pub frame_size: u16,
    pub channels: OpusChannels,
}

/// Which step of setting up or using the codec failed.
#[derive(Debug, Clone, Copy, PartialEq, Eq, Structural)]
pub enum CodecStep {
    Create,
    SetBitrate,
    Encode,
}

/// What comes before the codec's own words.
pub open spec fn step_words(step: CodecStep) -> Seq<char> {
    match step {
        CodecStep::Create => "Failed to create Opus encoder: "@,
        CodecStep::SetBitrate => "Failed to configure Opus bitrate: "@,
        CodecStep::Encode => "Failed to encode Opus frame: "@,
    }
}

/// The error for a failure of the codec.
pub fn codec_error(step: CodecStep, reason: &str) -> (e: ActrError)
    ensures
        e matches ActrError::InternalError { msg } && msg@ == step_words(step) + reason@,
{
    let words = match step {
        CodecStep::Create => "Failed to create Opus encoder: ",
        CodecStep::SetBitrate => "Failed to configure Opus bitrate: ",
        CodecStep::Encode => "Failed to encode Opus frame: ",
    };
    ActrError::InternalError { msg: join(words, reason) }
}

/// The number of channels.
pub open spec fn channel_count(c: OpusChannels) -> int {
    match c {
        OpusChannels::Mono => 1,
        OpusChannels::Stereo => 2,
    }
}

impl OpusEncoder {
    /// Frames of one or two channels; any other number is refused.
    pub fn new(channels: u8, frame_size: u16) -> (r: ActrResult<Self>)
        ensures
            if channels == 1 {
                r == Ok::<Self, ActrError>(OpusEncoder { frame_size, channels: OpusChannels::Mono })
            } else if channels == 2 {
                r == Ok::<Self, ActrError>(
                    OpusEncoder { frame_size, channels: OpusChannels::Stereo },
                )
            } else {
                r matches Err(ActrError::InternalError { msg }) && msg@
                    == "Unsupported Opus channel count: "@ + text::decimal(channels as nat)
            },
    {
        let channels = match channels {
            1 => OpusChannels::Mono,
            2 => OpusChannels::Stereo,
            _ => {
                let mut msg = "Unsupported Opus channel count: ".to_owned();
                push_decimal(&mut msg, channels as u64);
                return Err(ActrError::InternalError { msg });
            },
        };
        Ok(OpusEncoder { frame_size, channels })
    }

    /// The samples of one frame, all channels together.
    pub open spec fn samples(&self) -> int {
        self.frame_size * channel_count(self.channels)
    }

    /// Whether a frame of `len` samples can be encoded.
    pub fn check_frame(&self, len: usize) -> (r: ActrResult<()>)
        ensures
            if len == self.samples() {
                r is Ok
            } else {
                r matches Err(ActrError::InternalError { msg }) && msg@ == "Expected "@
                    + text::decimal(self.samples() as nat) + " PCM samples for Opus frame, got "@
                    + text::decimal(len as nat)
            },
    {
        let count: u32 = match self.channels {
            OpusChannels::Mono => 1,
            OpusChannels::Stereo => 2,
        };
        let expected: u32 = self.frame_size as u32 * count;
        if len as u64 != expected as u64 {
            let mut msg = "Expected ".to_owned();
            push_decimal(&mut msg, expected as u64);
            msg.append(" PCM samples for Opus frame, got ");
            push_decimal(&mut msg, len as u64);
            return Err(ActrError::InternalError { msg });
        }
        Ok(())
    }

    /// The packet that the codec wrote to the front of its output.
    pub fn packet(output: Vec<u8>, encoded_len: usize) -> (v: Vec<u8>)
        ensures
            v@ == output@.take(
                if encoded_len <= output@.len() {
                    encoded_len as int
                } else {
                    output@.len() as int
                },
            ),
    {
        let mut v = output;
        v.truncate(encoded_len);
        assert(v@ =~= output@.take(
            if encoded_len <= output@.len() {
                encoded_len as int
            } else {
                output@.len() as int
            },
        ));
        v
    }

    /// Samples per channel.
    pub fn frame_size(&self) -> (n: u16)
        ensures
            n == self.frame_size,
    {
        self.frame_size
    }
}

// ── Laws ──────────────────────────────────────────────────────────────────────

/// Frames have one or two channels, and a frame is taken exactly if it holds the frame size
/// once for each.
pub proof fn a_frame_holds_its_size_for_each_channel(
    channels: u8,
    frame_size: u16,
    made: ActrResult<OpusEncoder>,
    len: usize,
    checked: ActrResult<()>,
    size: u16,
)
    requires
        call_ensures(OpusEncoder::new, (channels, frame_size), made),
        made matches Ok(c) ==> call_ensures(OpusEncoder::check_frame, (&c, len), checked)
            && call_ensures(OpusEncoder::frame_size, (&c,), size),
    ensures
        made is Ok <==> channels == 1 || channels == 2,
        made is Ok ==> (checked is Ok <==> len == frame_size * channels),
        made is Ok ==> size == frame_size,
        made is Ok && checked is Err ==> (checked->Err_0 matches ActrError::InternalError { msg }
            && msg@ == "Expected "@ + text::decimal((frame_size * channels) as nat)
            + " PCM samples for Opus frame, got "@ + text::decimal(len as nat)),
        made is Err ==> (made->Err_0 matches ActrError::InternalError { msg } && msg@
            == "Unsupported Opus channel count: "@ + text::decimal(channels as nat)),
{
    assert(frame_size * 1 == frame_size);
}

/// A packet is the front of what the codec wrote, as long as the codec says, and never more than
/// there is.
pub proof fn a_packet_is_the_front_of_the_output(output: Vec<u8>, encoded_len: usize, v: Vec<u8>)
    requires
        call_ensures(OpusEncoder::packet, (output, encoded_len), v),
    ensures
        v@.is_prefix_of(output@),
        encoded_len <= output@.len() ==> v@.len() == encoded_len,
        encoded_len > output@.len() ==> v@ == output@,
{
}

/// A failure of the codec is an internal error that says which step failed, and why.
pub proof fn a_failure_of_the_codec_names_its_step(step: CodecStep, reason: &str, e: ActrError)
    requires
        call_ensures(codec_error, (step, reason), e),
    ensures
        e matches ActrError::InternalError { msg } && msg@ == (if step is Create {
            "Failed to create Opus encoder: "@
        } else if step is SetBitrate {
            "Failed to configure Opus bitrate: "@
        } else {
            "Failed to encode Opus frame: "@
        }) + reason@,
{
}

}
