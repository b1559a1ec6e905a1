//! The capture engine: the device selection, the shared sample buffer model,
//! the start/stop flags, and the encode-on-stop conversion that turns the
//! buffer into a transport payload.
//!
//! The microphone stream itself lives outside the library: a worker opens
//! the stream, feeds every delivered block into [`AudioRecorder::append_block`],
//! polls [`AudioRecorder::is_recording`], and tears the stream down once
//! [`AudioRecorder::signal_stop`] has run.

use vstd::prelude::*;
use vstd::string::StringExecFns;
use crate::payload;
use crate::payload::EncodedPayload;
use crate::pcm;
use crate::wav;

verus! {

/// Why a capture or encode step failed.
#[derive(Debug, Clone, Copy, PartialEq, Eq, Structural)]
pub enum CaptureError {
    /// A capture session is already live.
    AlreadyCapturing,
    /// Neither the selected nor the default input device resolves.
    NoDevice,
    /// The driver rejected the negotiated stream configuration.
    StreamBuildFailed,
    /// The device's native sample format is none of the supported three.
    UnsupportedFormat,
    /// No samples were captured.
    EmptyBuffer,
    /// The captured stream does not fit the transport container.
    EncodeFailed,
}

/// The native sample format a device delivers.
#[derive(Debug, Clone, Copy, PartialEq, Eq, Structural)]
pub enum SampleFormat {
    /// 32-bit floating samples, already in the normalized range.
    Float32,
    /// Signed 16-bit integer samples.
    Int16,
    /// Unsigned 16-bit integer samples.
    Uint16,
    /// Any other format; capture rejects it.
    Other,
}

/// The configuration negotiated with an input device.
#[derive(Debug, Clone, Copy, PartialEq, Eq, Structural)]
pub struct StreamSettings {
    /// The device's native sample format.
    pub format: SampleFormat,
    /// The negotiated sample rate, in Hz.
    pub sample_rate: u32,
    /// The negotiated channel count.
    pub channels: u16,
}

/// An input device as shown to the user: its name and whether it is the
/// host's default.
#[derive(Debug, Clone)]
pub struct AudioDevice {
    /// The device name reported by the host.
    pub name: String,
    /// Whether this device is the host's default input.
    pub is_default: bool,
}

/// Labels enumerated device names with the host's default flag: a device is
/// the default exactly when its name equals the default device's name.
pub fn label_devices(names: &Vec<String>, default_name: &Option<String>) -> (r: Vec<AudioDevice>)
    ensures
        r@.len() == names@.len(),
        forall|i: int|
            0 <= i < r@.len() ==> r@[i].name@ == names@[i]@ && r@[i].is_default == (match (
            *default_name) {
                Some(d) => names@[i]@ == d@,
                None => false,
            }),
{
    let mut r: Vec<AudioDevice> = Vec::new();
    let mut i: usize = 0;
    while i < names.len()
        invariant
            i <= names@.len(),
            r@.len() == i,
            forall|j: int|
                0 <= j < i ==> r@[j].name@ == names@[j]@ && r@[j].is_default == (match (
                *default_name) {
                    Some(d) => names@[j]@ == d@,
                    None => false,
                }),
        decreases names@.len() - i,
    {
        let is_default = match default_name {
            Some(d) => names[i] == *d,
            None => false,
        };
        r.push(AudioDevice { name: names[i].clone(), is_default });
        i = i + 1;
    }
    r
}

/// Which device a capture should open.
#[derive(Debug, Clone, Copy, PartialEq, Eq, Structural)]
pub enum DeviceChoice {
    /// The device at this position of the enumeration, found by name.
    ByIndex(usize),
    /// The host's default input device.
    SystemDefault,
}

/// Resolves the preferred device name against an enumeration: the first
/// device of that name wins; with no preference, or a preference that no
/// device matches, the host's default is used.
pub fn choose_device(names: &Vec<String>, selected: &Option<String>) -> (r: DeviceChoice)
    ensures
        match (*selected) {
            None => r == DeviceChoice::SystemDefault,
            Some(sel) => match r {
                DeviceChoice::ByIndex(i) => i < names@.len() && names@[i as int]@ == sel@
                    && (forall|j: int| 0 <= j < i ==> names@[j]@ != sel@),
                DeviceChoice::SystemDefault => forall|j: int|
                    0 <= j < names@.len() ==> names@[j]@ != sel@,
            },
        },
{
    match selected {
        None => DeviceChoice::SystemDefault,
        Some(sel) => {
            let mut i: usize = 0;
            while i < names.len()
                invariant
                    i <= names@.len(),
                    (*selected) matches Some(s) && s@ == sel@,
                    forall|j: int| 0 <= j < i ==> names@[j]@ != sel@,
                decreases names@.len() - i,
            {
                if names[i] == *sel {
                    return DeviceChoice::ByIndex(i);
                }
                i = i + 1;
            }
            DeviceChoice::SystemDefault
        },
    }
}

/// The mathematical state of an [`AudioRecorder`].
pub struct RecorderView {
    /// Whether a capture session is live.
    pub capturing: bool,
    /// The shared sample buffer, normalized to signed 16-bit PCM.
    pub samples: Seq<i16>,
    /// The sample rate negotiated for the current or last session.
    pub sample_rate: u32,
    /// The channel count negotiated for the current or last session.
    pub channels: u16,
    /// The preferred device name; nothing means the system default.
    pub selected_device: Option<Seq<char>>,
}

/// The capture engine's owned state: the live flag, the sample buffer, the
/// negotiated stream parameters, and the preferred device.
pub struct AudioRecorder {
    capturing: bool,
    samples: Vec<i16>,
    sample_rate: u32,
    channels: u16,
    selected_device: Option<String>,
}

impl View for AudioRecorder {
    type V = RecorderView;

    closed spec fn view(&self) -> RecorderView {
        RecorderView {
            capturing: self.capturing,
            samples: self.samples@,
            sample_rate: self.sample_rate,
            channels: self.channels,
            selected_device: match self.selected_device {
                Some(s) => Some(s@),
                None => None,
            },
        }
    }
}

/// The mono stream that finalization encodes: the buffer mixed down to one
/// channel, then brought down to the transport rate if the session rate
/// exceeds it.
pub open spec fn mono_stream(v: RecorderView) -> Seq<i16>
    recommends
        v.channels >= 1,
{
    pcm::spec_resample(
        pcm::spec_mono_mix(v.samples, v.channels as int),
        v.sample_rate as int,
        pcm::TARGET_SAMPLE_RATE as int,
    )
}

/// The sample rate written into the payload: the transport rate, or the
/// session rate where that is lower.
pub open spec fn payload_rate(v: RecorderView) -> u32 {
    if v.sample_rate < pcm::TARGET_SAMPLE_RATE {
        v.sample_rate
    } else {
        pcm::TARGET_SAMPLE_RATE
    }
}

/// Whether the finalized mono stream is too long for the container's size
/// fields or the base64 engine's output size.
pub open spec fn payload_too_large(v: RecorderView) -> bool
    recommends
        v.channels >= 1,
{
    let n = mono_stream(v).len();
    n > wav::wav_max_samples() || (44 + 2 * n) / 3 * 4 + 4 > usize::MAX
}

/// What arming a capture decides for a given state and resolved device
/// configuration: a live session, a missing device, an unsupported format
/// and a degenerate configuration are rejected, in that order.
pub open spec fn prepare_decision(v: RecorderView, settings: Option<StreamSettings>) -> Result<
    (),
    CaptureError,
> {
    if v.capturing {
        Err(CaptureError::AlreadyCapturing)
    } else {
        match settings {
            None => Err(CaptureError::NoDevice),
            Some(s) => if s.format == SampleFormat::Other || s.channels == 0 || s.sample_rate
                == 0 {
                Err(CaptureError::UnsupportedFormat)
            } else {
                Ok(())
            },
        }
    }
}

/// The error finalization returns, if any: an empty buffer beats every
/// other condition, then the container limits.
pub open spec fn finalize_error(v: RecorderView) -> Option<CaptureError>
    recommends
        v.channels >= 1,
{
    if v.samples.len() == 0 {
        Some(CaptureError::EmptyBuffer)
    } else if payload_too_large(v) {
        Some(CaptureError::EncodeFailed)
    } else {
        None
    }
}

impl AudioRecorder {
    /// The channel count of a recorder is never zero, so the mono mix is
    /// always defined. Every constructor establishes this and every method
    /// preserves it.
    pub open spec fn wf(&self) -> bool {
        self@.channels >= 1
    }

    /// A fresh recorder: not capturing, empty buffer, no device preference,
    /// with the parameters a session will overwrite.
    pub fn new() -> (r: Self)
        ensures
            r@ == (RecorderView {
                capturing: false,
                samples: Seq::<i16>::empty(),
                sample_rate: 44100u32,
                channels: 1u16,
                selected_device: None::<Seq<char>>,
            }),
    {
        let r = AudioRecorder {
            capturing: false,
            samples: Vec::new(),
            sample_rate: 44100,
            channels: 1,
            selected_device: None,
        };
        proof {
            assert(r@.samples =~= Seq::<i16>::empty());
        }
        r
    }

    /// Records the preferred device by name; nothing means the system
    /// default. Takes effect on the next capture start.
    pub fn set_device(&mut self, device_name: Option<String>)
        ensures
            final(self)@ == (RecorderView {
                selected_device: match device_name {
                    Some(s) => Some(s@),
                    None => None::<Seq<char>>,
                },
                ..old(self)@
            }),
    {
        self.selected_device = device_name;
    }

    /// The preferred device name, if one is set.
    pub fn selected_device(&self) -> (r: &Option<String>)
        ensures
            self@.selected_device == (match (*r) {
                Some(s) => Some(s@),
                None => None::<Seq<char>>,
            }),
    {
        &self.selected_device
    }

    /// Whether a capture session is live.
    pub fn is_recording(&self) -> (r: bool)
        ensures
            r == self@.capturing,
    {
        self.capturing
    }

    /// How many samples the shared buffer holds.
    pub fn buffered_samples(&self) -> (r: usize)
        ensures
            r == self@.samples.len(),
    {
        self.samples.len()
    }

    /// Validates a resolved device configuration and arms the recorder for
    /// a new session: rejected are a live session, a missing device, an
    /// unsupported format, and a degenerate configuration. On success the
    /// buffer is cleared — the one place it is ever cleared — and the
    /// session parameters are stored; the session becomes live only when
    /// the stream is up, through [`AudioRecorder::mark_stream_live`].
    pub fn prepare_capture(&mut self, settings: Option<StreamSettings>) -> (r: Result<
        (),
        CaptureError,
    >)
        ensures
            r == prepare_decision(old(self)@, settings),
            r is Err ==> final(self)@ == old(self)@,
            r is Ok ==> (settings matches Some(s) && final(self)@ == (RecorderView {
                capturing: false,
                samples: Seq::<i16>::empty(),
                sample_rate: s.sample_rate,
                channels: s.channels,
                selected_device: old(self)@.selected_device,
            })),
    {
        if self.capturing {
            return Err(CaptureError::AlreadyCapturing);
        }
        let s = match settings {
            None => {
                return Err(CaptureError::NoDevice);
            },
            Some(s) => s,
        };
        if s.format == SampleFormat::Other || s.channels == 0 || s.sample_rate == 0 {
            return Err(CaptureError::UnsupportedFormat);
        }
        self.samples.clear();
        self.sample_rate = s.sample_rate;
        self.channels = s.channels;
        proof {
            assert(self@.samples =~= Seq::<i16>::empty());
        }
        Ok(())
    }

    /// Marks the session live once the stream plays; from here the driver
    /// callback appends blocks until the stop signal.
    pub fn mark_stream_live(&mut self)
        ensures
            final(self)@ == (RecorderView { capturing: true, ..old(self)@ }),
    {
        self.capturing = true;
    }

    /// Appends one delivered block of normalized samples to the shared
    /// buffer; blocks arrive only while the session is live.
    pub fn append_block(&mut self, block: &Vec<i16>)
        requires
            old(self)@.capturing,
            old(self)@.samples.len() + block@.len() <= usize::MAX,
        ensures
            final(self)@ == (RecorderView {
                samples: old(self)@.samples + block@,
                ..old(self)@
            }),
    {
        let mut i: usize = 0;
        while i < block.len()
            invariant
                i <= block@.len(),
                self@.samples.len() + block@.len() <= usize::MAX + i,
                self@ == (RecorderView {
                    samples: old(self)@.samples + block@.take(i as int),
                    ..old(self)@
                }),
            decreases block@.len() - i,
        {
            self.samples.push(block[i]);
            i = i + 1;
            proof {
                assert(self@.samples =~= old(self)@.samples + block@.take(i as int));
            }
        }
        proof {
            assert(old(self)@.samples + block@.take(block@.len() as int) =~= old(self)@.samples
                + block@);
        }
    }

    /// Signals the capture worker to stop: clears the live flag read by the
    /// worker's poll loop. Non-blocking and idempotent; the stream is torn
    /// down when the worker observes the flag.
    pub fn signal_stop(&mut self)
        ensures
            final(self)@ == (RecorderView { capturing: false, ..old(self)@ }),
    {
        self.capturing = false;
    }

    /// Converts the captured buffer into the transport payload: mixes to
    /// mono, decimates to the transport rate where the session rate exceeds
    /// it, encodes 16-bit PCM WAV, and base64-encodes the container.
    /// Fails exactly on an empty buffer and on a stream too long for the
    /// container.
    pub fn finalize_payload(&self) -> (r: Result<EncodedPayload, CaptureError>)
        requires
            self.wf(),
        ensures
            match r {
                Ok(p) => finalize_error(self@) is None && p.is_encoding_of(
                    mono_stream(self@),
                    payload_rate(self@),
                ),
                Err(e) => finalize_error(self@) == Some(e),
            },
    {
        if self.samples.len() == 0 {
            return Err(CaptureError::EmptyBuffer);
        }
        let mono = pcm::mix_to_mono(&self.samples, self.channels);
        let stream = pcm::resample_to_target(&mono, self.sample_rate, pcm::TARGET_SAMPLE_RATE);
        let n: usize = stream.len();
        if n as u64 > (u32::MAX as u64 - 44) / 2 {
            return Err(CaptureError::EncodeFailed);
        }
        let wav_len: u64 = 44 + 2 * (n as u64);
        if wav_len / 3 * 4 + 4 > usize::MAX as u64 {
            return Err(CaptureError::EncodeFailed);
        }
        let rate: u32 = if self.sample_rate < pcm::TARGET_SAMPLE_RATE {
            self.sample_rate
        } else {
            pcm::TARGET_SAMPLE_RATE
        };
        Ok(payload::encode_payload(&stream, rate))
    }

    /// The recorded audio as base64 WAV text: the payload's text form, or
    /// the failure's message.
    pub fn get_audio_base64(&self) -> (r: Result<String, String>)
        requires
            self.wf(),
        ensures
            match r {
                Ok(t) => finalize_error(self@) is None && t@ == payload::spec_base64(
                    wav::spec_wav_bytes(mono_stream(self@), payload_rate(self@)),
                ),
                Err(m) => (finalize_error(self@) matches Some(e) && m@ == capture_error_text(e)),
            },
    {
        match self.finalize_payload() {
            Ok(p) => Ok(p.text),
            Err(e) => Err(capture_error_message(e)),
        }
    }
}

/// The message text for a capture error, as the lifecycle surfaces it.
pub open spec fn capture_error_text(e: CaptureError) -> Seq<char> {
    match e {
        CaptureError::AlreadyCapturing => ("Already recording")@,
        CaptureError::NoDevice => ("No input device available")@,
        CaptureError::StreamBuildFailed => ("Failed to build input stream")@,
        CaptureError::UnsupportedFormat => ("Unsupported sample format")@,
        CaptureError::EmptyBuffer => ("No audio recorded")@,
        CaptureError::EncodeFailed => ("Failed to encode audio")@,
    }
}

/// The message text for a capture error, as the lifecycle surfaces it.
pub fn capture_error_message(e: CaptureError) -> (r: String)
    ensures
        r@ == capture_error_text(e),
{
    match e {
        CaptureError::AlreadyCapturing => String::from_str("Already recording"),
        CaptureError::NoDevice => String::from_str("No input device available"),
        CaptureError::StreamBuildFailed => String::from_str("Failed to build input stream"),
        CaptureError::UnsupportedFormat => String::from_str("Unsupported sample format"),
        CaptureError::EmptyBuffer => String::from_str("No audio recorded"),
        CaptureError::EncodeFailed => String::from_str("Failed to encode audio"),
    }
}

impl Default for AudioRecorder {
    /// The same state as [`AudioRecorder::new`].
    fn default() -> (r: Self)
        ensures
            r@ == (RecorderView {
                capturing: false,
                samples: Seq::<i16>::empty(),
                sample_rate: 44100u32,
                channels: 1u16,
                selected_device: None::<Seq<char>>,
            }),
    {
        AudioRecorder::new()
    }
}

} // verus!
