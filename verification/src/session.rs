//! The engine session: input and output rings, the optional shared output
//! ring, metrics, and the translation bridge of the active provider, with
//! the routing of captured audio by engine mode. Sample-rate conversion,
//! gain and the float/PCM16 conversions are the host's; it hands the session
//! samples of type `T` and PCM16 bytes.

use vstd::prelude::*;
use crate::azure_voice_live::{self, AzureVoiceLiveBridge, AzureVoiceLivePlan, AzureVoiceLiveRuntimeState};
use crate::config::{copy_string, mode_code, str_opt, view_opt, EngineConfig, EngineError, EngineMode, TranslationProvider};
use crate::metrics::{fresh_metrics, spec_metrics_json, EngineMetrics};
use crate::openai_realtime::{self, OpenAIRealtimeBridge, OpenAIRealtimeRuntimeState};
use crate::ring::{ring_dropped, ring_popped, ring_pushed, SampleRingBuffer};
use crate::text::{decimal, push_u64};
use crate::shared_output::{shared_read_outcome, shared_write_outcome, SharedBufferHeader, SharedOutputBuffer, SHARED_BUFFER_FILE_PATH};

verus! {

/// Interleaved samples with their format and capture time.
#[derive(Clone, Debug)]
pub struct AudioFrame<T> {
    pub timestamp_ns: u64,
    pub sample_rate: u32,
    pub channels: u16,
    pub data: Vec<T>,
}

impl<T> AudioFrame<T> {
    /// The number of whole frames (0 without channels).
    pub fn frames(&self) -> (r: usize)
        ensures
            r == if self.channels == 0 {
                0
            } else {
                self.data@.len() / (self.channels as nat)
            },
    {
        if self.channels == 0 {
            return 0;
        }
        self.data.len() / (self.channels as usize)
    }
}

/// How many samples a frame of `frame_count` frames takes from the host's
/// `available` samples: `frame_count` times the channel count (at least one
/// channel), saturating, but no more than are there.
pub open spec fn frame_sample_len(frame_count: usize, channels: u16, available: int) -> int {
    let ch: int = if channels == 0 {
        1
    } else {
        channels as int
    };
    let want: int = if frame_count * ch > usize::MAX {
        usize::MAX as int
    } else {
        frame_count * ch
    };
    if want < available {
        want
    } else {
        available
    }
}

/// A frame of the first `frame_count` frames of `samples`.
pub fn build_frame<T: Copy>(
    samples: &[T],
    frame_count: usize,
    channels: u16,
    sample_rate: u32,
    timestamp_ns: u64,
) -> (r: AudioFrame<T>)
    ensures
        r.timestamp_ns == timestamp_ns,
        r.sample_rate == sample_rate,
        r.channels == channels,
        r.data@ == samples@.take(frame_sample_len(frame_count, channels, samples@.len() as int)),
{
    let ch: usize = if channels == 0 {
        1
    } else {
        channels as usize
    };
    let want = match frame_count.checked_mul(ch) {
        Some(n) => n,
        None => usize::MAX,
    };
    let n = if want < samples.len() {
        want
    } else {
        samples.len()
    };
    let mut data: Vec<T> = Vec::new();
    let mut i: usize = 0;
    while i < n
        invariant
            i <= n <= samples@.len(),
            data@ == samples@.take(i as int),
        decreases n - i,
    {
        data.push(samples[i]);
        assert(samples@.take(i + 1) =~= samples@.take(i as int).push(samples@[i as int]));
        i += 1;
    }
    AudioFrame { timestamp_ns, sample_rate, channels, data }
}

/// What the host does with a captured frame once the session took it in.
#[derive(Clone, Copy, Debug, PartialEq, Eq, Structural)]
pub enum InputRoute {
    /// Convert it to the output format and hand it back with
    /// [`EngineSession::push_output_frame`].
    Bypass,
    /// Convert it to 24 kHz PCM16 and hand it to
    /// [`EngineSession::queue_translation_input`].
    Translate,
    /// Nothing more.
    Hold,
}

/// The route of captured audio in each mode.
pub open spec fn input_route(mode: EngineMode) -> InputRoute {
    match mode {
        EngineMode::Bypass | EngineMode::FallbackToBypass => InputRoute::Bypass,
        EngineMode::Translate => InputRoute::Translate,
        EngineMode::CaptionOnly | EngineMode::MuteOnFailure => InputRoute::Hold,
    }
}

/// The frames held in each ring of a session.
pub const RING_CAPACITY_FRAMES: usize = 48_000;

/// An engine session over samples of type `T`.
#[derive(Debug)]
pub struct EngineSession<T> {
    config: EngineConfig,
    metrics: EngineMetrics,
    input_ring: SampleRingBuffer<T>,
    output_ring: SampleRingBuffer<T>,
    shared_output: Option<SharedOutputBuffer<T>>,
    azure_voice_live: Option<AzureVoiceLiveBridge>,
    openai_realtime: Option<OpenAIRealtimeBridge>,
    running: bool,
    silence: T,
}

/// The Azure bridge that a session opens for `config`: the plan of the
/// configuration, with the `session.update` and `response.create` events
/// queued and nothing received yet.
pub open spec fn fresh_azure_bridge(b: AzureVoiceLiveBridge, config: EngineConfig, env_api_key: Option<
    Seq<char>,
>) -> bool {
    &&& azure_voice_live::spec_plan(config.translation_provider, view_opt(config.azure_voice_live), env_api_key)
        == Ok::<azure_voice_live::AzurePlanView, Seq<char>>(b.spec_plan())
    &&& b.pending() == seq![b.spec_plan().session_update_event, b.spec_plan().response_create_event]
    &&& b.spec_state() == AzureVoiceLiveRuntimeState::new_view()
}

/// The OpenAI bridge that a session opens for `config`: the plan of the
/// configuration, with the `session.update` event queued and nothing
/// received yet.
pub open spec fn fresh_openai_bridge(b: OpenAIRealtimeBridge, config: EngineConfig, env_api_key: Option<
    Seq<char>,
>) -> bool {
    &&& openai_realtime::spec_plan(config.translation_provider, view_opt(config.openai_realtime), env_api_key)
        == Ok::<openai_realtime::OpenAIPlanView, Seq<char>>(b.spec_plan())
    &&& b.pending() == seq![b.spec_plan().session_update_event]
    &&& b.spec_state() == OpenAIRealtimeRuntimeState::new_view()
}

/// The failure to open the bridge that `config` asks for, if any.
pub open spec fn bridge_failure(config: EngineConfig, env_api_key: Option<Seq<char>>) -> Option<Seq<char>> {
    if config.mode != EngineMode::Translate {
        None
    } else {
        match config.translation_provider {
            TranslationProvider::AzureVoiceLive => match azure_voice_live::spec_plan(
                config.translation_provider,
                view_opt(config.azure_voice_live),
                env_api_key,
            ) {
                Err(m) => Some(m),
                Ok(_) => None,
            },
            TranslationProvider::OpenAIRealtime => match openai_realtime::spec_plan(
                config.translation_provider,
                view_opt(config.openai_realtime),
                env_api_key,
            ) {
                Err(m) => Some(m),
                Ok(_) => None,
            },
            TranslationProvider::NoProvider | TranslationProvider::ElevenLabs => None,
        }
    }
}

impl<T: Copy> EngineSession<T> {
    /// The settings of the session.
    pub closed spec fn spec_config(&self) -> EngineConfig {
        self.config
    }

    /// Whether the session is running.
    pub closed spec fn is_running(&self) -> bool {
        self.running
    }

    /// The metrics of the session.
    pub closed spec fn spec_metrics(&self) -> EngineMetrics {
        self.metrics
    }

    /// The ring of captured audio.
    pub closed spec fn spec_input_ring(&self) -> SampleRingBuffer<T> {
        self.input_ring
    }

    /// The ring of audio for the output device.
    pub closed spec fn spec_output_ring(&self) -> SampleRingBuffer<T> {
        self.output_ring
    }

    /// The shared output ring, when enabled.
    pub closed spec fn spec_shared_output(&self) -> Option<SharedOutputBuffer<T>> {
        self.shared_output
    }

    /// The Azure bridge, when open.
    pub closed spec fn spec_azure(&self) -> Option<AzureVoiceLiveBridge> {
        self.azure_voice_live
    }

    /// The OpenAI bridge, when open.
    pub closed spec fn spec_openai(&self) -> Option<OpenAIRealtimeBridge> {
        self.openai_realtime
    }

    /// The sample written where there is nothing to play.
    pub closed spec fn spec_silence(&self) -> T {
        self.silence
    }

    /// The session's invariant: both rings and the shared ring are well formed.
    pub closed spec fn wf(&self) -> bool {
        &&& self.input_ring.wf()
        &&& self.output_ring.wf()
        &&& self.output_ring.capacity() <= RING_CAPACITY_FRAMES * 65535
        &&& (self.shared_output matches Some(s) ==> s.wf())
    }

    /// A stopped session with empty rings of [`RING_CAPACITY_FRAMES`] frames
    /// of the configured channel count (at least one), no shared output and
    /// no bridge; `silence` fills unplayed output.
    pub fn new(config: EngineConfig, silence: T) -> (r: Self)
        ensures
            r.wf(),
            r.spec_config() == config,
            !r.is_running(),
            fresh_metrics(r.spec_metrics()),
            r.spec_input_ring().unread().len() == 0,
            r.spec_output_ring().unread().len() == 0,
            r.spec_input_ring().written() == 0,
            r.spec_output_ring().written() == 0,
            r.spec_input_ring().spec_sample_rate() == config.input_sample_rate,
            r.spec_output_ring().spec_sample_rate() == config.output_sample_rate,
            r.spec_shared_output().is_none(),
            r.spec_azure().is_none(),
            r.spec_openai().is_none(),
            r.spec_silence() == silence,
    {
        let channels: u16 = if config.channels == 0 {
            1
        } else {
            config.channels
        };
        let input_ring = SampleRingBuffer::new(RING_CAPACITY_FRAMES, channels, config.input_sample_rate, silence);
        let output_ring = SampleRingBuffer::new(RING_CAPACITY_FRAMES, channels, config.output_sample_rate, silence);
        EngineSession {
            config,
            metrics: EngineMetrics::new(),
            input_ring,
            output_ring,
            shared_output: None,
            azure_voice_live: None,
            openai_realtime: None,
            running: false,
            silence,
        }
    }

    /// Closes any bridge and opens the one the mode and provider ask for.
    fn sync_translation_bridge(&mut self, env_api_key: Option<&str>) -> (r: Result<(), EngineError>)
        requires
            old(self).wf(),
        ensures
            final(self).wf(),
            final(self).spec_config() == old(self).spec_config(),
            final(self).is_running() == old(self).is_running(),
            final(self).spec_metrics() == old(self).spec_metrics(),
            final(self).spec_input_ring() == old(self).spec_input_ring(),
            final(self).spec_output_ring() == old(self).spec_output_ring(),
            final(self).spec_shared_output() == old(self).spec_shared_output(),
            final(self).spec_silence() == old(self).spec_silence(),
            bridges_synced(*final(self), r, str_opt(env_api_key)),
    {
        self.azure_voice_live = None;
        self.openai_realtime = None;
        if self.config.mode != EngineMode::Translate {
            return Ok(());
        }
        match self.config.translation_provider {
            TranslationProvider::AzureVoiceLive => {
                let b = AzureVoiceLiveBridge::from_config(&self.config, env_api_key)?;
                self.azure_voice_live = Some(b);
            },
            TranslationProvider::OpenAIRealtime => {
                let b = OpenAIRealtimeBridge::from_config(&self.config, env_api_key)?;
                self.openai_realtime = Some(b);
            },
            TranslationProvider::NoProvider | TranslationProvider::ElevenLabs => {},
        }
        Ok(())
    }

    /// Opens the bridge the mode and provider ask for and starts the
    /// session; `env_api_key` is the value of the environment variable that
    /// the active provider's settings name. When the bridge cannot be opened
    /// the session stays as it was, with no bridge.
    pub fn start(&mut self, env_api_key: Option<&str>) -> (r: Result<(), EngineError>)
        requires
            old(self).wf(),
        ensures
            final(self).wf(),
            unchanged_but_bridges(*old(self), *final(self)),
            bridges_synced(*final(self), r, str_opt(env_api_key)),
            r is Ok ==> final(self).is_running(),
            r is Err ==> final(self).is_running() == old(self).is_running(),
    {
        self.sync_translation_bridge(env_api_key)?;
        self.running = true;
        Ok(())
    }

    /// Stops the session and closes any bridge.
    pub fn stop(&mut self)
        requires
            old(self).wf(),
        ensures
            final(self).wf(),
            unchanged_but_bridges(*old(self), *final(self)),
            !final(self).is_running(),
            final(self).spec_azure().is_none(),
            final(self).spec_openai().is_none(),
    {
        self.running = false;
        self.azure_voice_live = None;
        self.openai_realtime = None;
    }

    /// Sets the target language.
    pub fn set_target_language(&mut self, lang: &str)
        ensures
            final(self).spec_config() == (EngineConfig {
                target_language: final(self).spec_config().target_language,
                ..old(self).spec_config()
            }),
            final(self).spec_config().target_language@ == lang@,
            final(self).is_running() == old(self).is_running(),
            final(self).spec_metrics() == old(self).spec_metrics(),
            final(self).spec_input_ring() == old(self).spec_input_ring(),
            final(self).spec_output_ring() == old(self).spec_output_ring(),
            final(self).spec_shared_output() == old(self).spec_shared_output(),
            final(self).spec_azure() == old(self).spec_azure(),
            final(self).spec_openai() == old(self).spec_openai(),
            final(self).spec_silence() == old(self).spec_silence(),
    {
        self.config.target_language = String::from_str(lang);
    }

    /// Sets the mode; a running session reopens its bridge for the new mode
    /// (a failure to open it leaves no bridge).
    pub fn set_mode(&mut self, mode: EngineMode, env_api_key: Option<&str>)
        requires
            old(self).wf(),
        ensures
            final(self).wf(),
            final(self).spec_config() == (EngineConfig { mode, ..old(self).spec_config() }),
            final(self).is_running() == old(self).is_running(),
            final(self).spec_metrics() == old(self).spec_metrics(),
            final(self).spec_input_ring() == old(self).spec_input_ring(),
            final(self).spec_output_ring() == old(self).spec_output_ring(),
            final(self).spec_shared_output() == old(self).spec_shared_output(),
            final(self).spec_silence() == old(self).spec_silence(),
            !old(self).is_running() ==> final(self).spec_azure() == old(self).spec_azure()
                && final(self).spec_openai() == old(self).spec_openai(),
            old(self).is_running() ==> exists|r: Result<(), EngineError>|
                bridges_synced(*final(self), r, str_opt(env_api_key)),
    {
        self.config.mode = mode;
        if self.running {
            let r = self.sync_translation_bridge(env_api_key);
        }
    }

    /// The configured output sample rate.
    pub fn output_sample_rate(&self) -> (r: u32)
        ensures
            r == self.spec_config().output_sample_rate,
    {
        self.config.output_sample_rate
    }

    /// The samples ever written into the input ring.
    pub fn input_samples_written(&self) -> (r: u64)
        ensures
            r == self.spec_input_ring().written(),
    {
        self.input_ring.written_samples()
    }

    /// The samples ever written into the output ring.
    pub fn output_samples_written(&self) -> (r: u64)
        ensures
            r == self.spec_output_ring().written(),
    {
        self.output_ring.written_samples()
    }

    /// The engine mode as its number.
    pub fn current_mode(&self) -> (r: i32)
        ensures
            r == mode_code(self.spec_config().mode),
    {
        self.config.mode.as_i32()
    }

    /// The target language.
    pub fn target_language(&self) -> (r: &str)
        ensures
            r@ == self.spec_config().target_language@,
    {
        self.config.target_language.as_str()
    }

    /// The Azure session plan of the settings.
    pub fn azure_voice_live_plan(&self, env_api_key: Option<&str>) -> (r: Result<AzureVoiceLivePlan, EngineError>)
        ensures
            azure_voice_live::plan_result_view(r) == azure_voice_live::spec_plan(
                self.spec_config().translation_provider,
                view_opt(self.spec_config().azure_voice_live),
                str_opt(env_api_key),
            ),
    {
        AzureVoiceLivePlan::from_config(&self.config, env_api_key)
    }
}

/// The metrics after taking in `frames` frames of `samples` samples, of
/// which the ring dropped `dropped` old ones.
pub open spec fn captured_metrics(m: EngineMetrics, frames: usize, samples: int, dropped: int) -> EngineMetrics {
    EngineMetrics {
        overflow_count: if dropped > 0 {
            m.overflow_count.wrapping_add(1)
        } else {
            m.overflow_count
        },
        capture_frames: m.capture_frames.wrapping_add(frames as u64),
        pushed_samples: m.pushed_samples.wrapping_add(samples as u64),
        ..m
    }
}

/// The metrics after a write into the output ring that dropped `dropped`
/// old samples.
pub open spec fn output_write_metrics(m: EngineMetrics, dropped: int) -> EngineMetrics {
    if dropped > 0 {
        EngineMetrics { overflow_count: m.overflow_count.wrapping_add(1), ..m }
    } else {
        m
    }
}

/// The metrics after a pull of `requested` frames (`samples` samples) that
/// delivered `delivered` frames.
pub open spec fn pulled_metrics(m: EngineMetrics, requested: int, delivered: int, samples: int) -> EngineMetrics {
    EngineMetrics {
        underrun_count: if delivered < requested {
            m.underrun_count.wrapping_add(1)
        } else {
            m.underrun_count
        },
        output_frames: m.output_frames.wrapping_add(requested as u64),
        pulled_samples: m.pulled_samples.wrapping_add(samples as u64),
        ..m
    }
}

/// The output queue depth in milliseconds: the whole frames waiting in the
/// output ring at its sample rate (0 when the rate is 0).
pub open spec fn queue_depth_ms<T: Copy>(ring: SampleRingBuffer<T>) -> u64 {
    if ring.spec_sample_rate() == 0 {
        0
    } else {
        (((ring.unread().len() as int / ring.spec_channels()) * 1000) / (ring.spec_sample_rate() as int)) as u64
    }
}

impl<T: Copy> EngineSession<T> {
    /// Takes in captured audio: refused unless the session runs; the first
    /// `frame_count` frames of `samples` (as many as there are) go into the
    /// input ring, the capture is counted (and an overflow when the ring
    /// dropped samples), and the route for the mode tells the host what to
    /// do next with the frame.
    pub fn push_input_pcm(
        &mut self,
        samples: &[T],
        frame_count: usize,
        channels: u16,
        sample_rate: u32,
        timestamp_ns: u64,
    ) -> (r: Result<InputRoute, EngineError>)
        requires
            old(self).wf(),
            old(self).spec_input_ring().written() + samples@.len() <= u64::MAX,
        ensures
            final(self).wf(),
            !old(self).is_running() ==> (r matches Err(e) && e.spec_message() == "engine is not running"@)
                && *final(self) == *old(self),
            old(self).is_running() ==> ({
                let data = samples@.take(frame_sample_len(frame_count, channels, samples@.len() as int));
                let dropped = ring_dropped(
                    old(self).spec_input_ring().unread().len() as int,
                    data.len() as int,
                    old(self).spec_input_ring().capacity(),
                );
                &&& r == Ok::<InputRoute, EngineError>(input_route(old(self).spec_config().mode))
                &&& ring_pushed(old(self).spec_input_ring(), data, channels, sample_rate, timestamp_ns, final(self).spec_input_ring())
                &&& final(self).spec_metrics() == captured_metrics(old(self).spec_metrics(), frame_count, data.len() as int, dropped)
                &&& final(self).spec_config() == old(self).spec_config()
                &&& final(self).is_running() == old(self).is_running()
                &&& final(self).spec_output_ring() == old(self).spec_output_ring()
                &&& final(self).spec_shared_output() == old(self).spec_shared_output()
                &&& final(self).spec_azure() == old(self).spec_azure()
                &&& final(self).spec_openai() == old(self).spec_openai()
                &&& final(self).spec_silence() == old(self).spec_silence()
            }),
    {
        if !self.running {
            return Err(EngineError::from_text("engine is not running"));
        }
        let frame = build_frame(samples, frame_count, channels, sample_rate, timestamp_ns);
        let dropped = self.input_ring.push_frame(frame.data.as_slice(), frame.channels, frame.sample_rate, frame.timestamp_ns);
        if dropped > 0 {
            self.metrics.record_overflow();
        }
        self.metrics.record_capture(frame_count as u64, frame.data.len() as u64);
        let route = match self.config.mode {
            EngineMode::Bypass | EngineMode::FallbackToBypass => InputRoute::Bypass,
            EngineMode::Translate => InputRoute::Translate,
            EngineMode::CaptionOnly | EngineMode::MuteOnFailure => InputRoute::Hold,
        };
        Ok(route)
    }

    /// Writes a frame of `channels` channels at the output sample rate into
    /// the output ring (an overflow is counted when it dropped samples) and
    /// into the shared output ring when enabled; a refusal of the shared ring
    /// is the result. Returns the frame's whole frames.
    pub fn push_output_frame(&mut self, data: &[T], channels: u16, timestamp_ns: u64) -> (r: Result<usize, EngineError>)
        requires
            old(self).wf(),
            old(self).spec_output_ring().written() + data@.len() <= u64::MAX,
        ensures
            final(self).wf(),
            ring_pushed(
                old(self).spec_output_ring(),
                data@,
                channels,
                old(self).spec_config().output_sample_rate,
                timestamp_ns,
                final(self).spec_output_ring(),
            ),
            final(self).spec_metrics() == output_write_metrics(
                old(self).spec_metrics(),
                ring_dropped(
                    old(self).spec_output_ring().unread().len() as int,
                    data@.len() as int,
                    old(self).spec_output_ring().capacity(),
                ),
            ),
            match old(self).spec_shared_output() {
                None => final(self).spec_shared_output().is_none() && r == Ok::<usize, EngineError>(
                    if channels == 0 {
                        0
                    } else {
                        (data@.len() / (channels as nat)) as usize
                    },
                ),
                Some(s) => (final(self).spec_shared_output() matches Some(t) && shared_write_outcome(
                    s,
                    data@,
                    channels,
                    old(self).spec_config().output_sample_rate,
                    timestamp_ns,
                    unit_result(r),
                    t,
                )) && (r is Ok ==> r == Ok::<usize, EngineError>(
                    if channels == 0 {
                        0
                    } else {
                        (data@.len() / (channels as nat)) as usize
                    },
                )),
            },
            final(self).spec_config() == old(self).spec_config(),
            final(self).is_running() == old(self).is_running(),
            final(self).spec_input_ring() == old(self).spec_input_ring(),
            final(self).spec_azure() == old(self).spec_azure(),
            final(self).spec_openai() == old(self).spec_openai(),
            final(self).spec_silence() == old(self).spec_silence(),
    {
        let frame = AudioFrame {
            timestamp_ns,
            sample_rate: self.config.output_sample_rate,
            channels,
            data: copy_samples(data),
        };
        let dropped = self.output_ring.push_frame(frame.data.as_slice(), frame.channels, frame.sample_rate, frame.timestamp_ns);
        if dropped > 0 {
            self.metrics.record_overflow();
        }
        match &mut self.shared_output {
            Some(shared) => {
                let w = shared.write_frame(frame.data.as_slice(), frame.channels, frame.sample_rate, frame.timestamp_ns);
                match w {
                    Ok(()) => {},
                    Err(e) => return Err(e),
                }
            },
            None => {},
        }
        Ok(frame.frames())
    }

    /// Hands 24 kHz PCM16 bytes of captured audio to each open bridge.
    pub fn queue_translation_input(&mut self, pcm_bytes: &[u8])
        requires
            old(self).wf(),
        ensures
            final(self).wf(),
            match old(self).spec_azure() {
                Some(b) => final(self).spec_azure() matches Some(c) && c.pending() == b.pending().push(
                    azure_voice_live::spec_input_audio_append_event(pcm_bytes@),
                ) && c.spec_plan() == b.spec_plan() && c.spec_state() == b.spec_state(),
                None => final(self).spec_azure().is_none(),
            },
            match old(self).spec_openai() {
                Some(b) => final(self).spec_openai() matches Some(c) && c.pending() == b.pending().push(
                    openai_realtime::spec_input_audio_append_event(pcm_bytes@),
                ) && c.spec_plan() == b.spec_plan() && c.spec_state() == b.spec_state(),
                None => final(self).spec_openai().is_none(),
            },
            unchanged_but_bridges(*old(self), *final(self)),
            final(self).is_running() == old(self).is_running(),
    {
        match &mut self.azure_voice_live {
            Some(b) => b.queue_input_audio_pcm16(pcm_bytes),
            None => {},
        }
        match &mut self.openai_realtime {
            Some(b) => b.queue_input_audio_pcm16(pcm_bytes),
            None => {},
        }
    }

    /// Fills `out` from the output ring (silence for what is missing), counts
    /// the requested frames and samples (and an underrun when fewer frames
    /// were there), and returns the latest output timestamp; refused for a
    /// zero channel count or sample rate.
    pub fn pull_output_pcm(&mut self, out: &mut [T], channels: u16, sample_rate: u32) -> (r: Result<u64, EngineError>)
        requires
            old(self).wf(),
        ensures
            final(self).wf(),
            channels == 0 || sample_rate == 0 ==> (r matches Err(e) && e.spec_message() == "invalid output format"@)
                && *final(self) == *old(self) && final(out)@ == old(out)@,
            channels != 0 && sample_rate != 0 ==> ring_popped(
                old(self).spec_output_ring(),
                old(out)@,
                channels,
                old(self).spec_silence(),
                popped_frames(old(self).spec_output_ring(), old(out)@.len() as int, channels),
                final(self).spec_output_ring(),
                final(out)@,
            ) && final(self).spec_metrics() == pulled_metrics(
                old(self).spec_metrics(),
                old(out)@.len() as int / channels as int,
                popped_frames(old(self).spec_output_ring(), old(out)@.len() as int, channels) as int,
                old(out)@.len() as int,
            ),
            channels != 0 && sample_rate != 0 ==> r == Ok::<u64, EngineError>(old(self).spec_output_ring().spec_last_timestamp_ns()),
            final(self).spec_config() == old(self).spec_config(),
            final(self).is_running() == old(self).is_running(),
            final(self).spec_input_ring() == old(self).spec_input_ring(),
            final(self).spec_shared_output() == old(self).spec_shared_output(),
            final(self).spec_azure() == old(self).spec_azure(),
            final(self).spec_openai() == old(self).spec_openai(),
            final(self).spec_silence() == old(self).spec_silence(),
    {
        if channels == 0 || sample_rate == 0 {
            return Err(EngineError::from_text("invalid output format"));
        }
        let requested_frames = out.len() / (channels as usize);
        let n = out.len();
        let ghost old_ring = self.output_ring;
        let ghost old_out = out@;
        let ghost old_metrics = self.metrics;
        let actual_frames = self.output_ring.pop_into(out, channels, self.silence);
        assert(ring_popped(old_ring, old_out, channels, self.silence, actual_frames, self.output_ring, out@));
        if actual_frames < requested_frames {
            self.metrics.record_underrun();
        }
        self.metrics.record_output(requested_frames as u64, n as u64);
        assert(self.metrics == pulled_metrics(old_metrics, old_out.len() as int / channels as int, actual_frames as int, old_out.len() as int));
        Ok(self.output_ring.last_timestamp_ns())
    }

    /// The metrics as JSON, with the output queue depth.
    pub fn metrics_json(&self) -> (r: String)
        requires
            self.wf(),
        ensures
            r@ == spec_metrics_json(self.spec_metrics(), queue_depth_ms(self.spec_output_ring())),
    {
        let rate = self.output_ring.sample_rate();
        let depth_ms: u64 = if rate == 0 {
            0
        } else {
            proof {
                self.output_ring.lemma_unread_bounded();
            }
            let frames = self.output_ring.available_frames() as u64;
            assert(frames <= RING_CAPACITY_FRAMES * 65535) by (nonlinear_arith)
                requires
                    frames == (self.output_ring.unread().len() as int) / self.output_ring.spec_channels(),
                    self.output_ring.spec_channels() >= 1,
                    self.output_ring.unread().len() <= RING_CAPACITY_FRAMES * 65535,
            ;
            (frames * 1000) / (rate as u64)
        };
        self.metrics.to_json(depth_ms)
    }

    /// Opens the shared output ring (replacing any earlier one); refused for
    /// a zero capacity, channel count or sample rate.
    pub fn enable_shared_output(&mut self, capacity_frames: usize, channels: u16, sample_rate: u32) -> (r: Result<(), EngineError>)
        requires
            old(self).wf(),
            capacity_frames <= u32::MAX,
            capacity_frames * channels <= usize::MAX,
        ensures
            final(self).wf(),
            match r {
                Ok(()) => capacity_frames != 0 && channels != 0 && sample_rate != 0 && (final(self).spec_shared_output() matches Some(s)
                    && s.spec_header() == (SharedBufferHeader {
                        magic: crate::shared_output::SHARED_BUFFER_MAGIC,
                        version: crate::shared_output::SHARED_BUFFER_VERSION,
                        channel_count: channels as u32,
                        sample_rate,
                        capacity_frames: capacity_frames as u32,
                        reserved: 0,
                        write_index_frames: 0,
                        read_index_frames: 0,
                        last_timestamp_ns: 0,
                    }) && s.spec_samples() == Seq::new((capacity_frames * channels) as nat, |i: int| old(self).spec_silence())),
                Err(e) => (capacity_frames == 0 || channels == 0 || sample_rate == 0)
                    && e.spec_message() == "invalid shared output buffer format"@
                    && final(self).spec_shared_output() == old(self).spec_shared_output(),
            },
            unchanged_but_shared(*old(self), *final(self)),
    {
        let ring = SharedOutputBuffer::new(capacity_frames, channels, sample_rate, self.silence)?;
        self.shared_output = Some(ring);
        Ok(())
    }

    /// Reads from the shared output ring; refused when it is not enabled.
    pub fn read_shared_output_pcm(&mut self, out: &mut [T], channels: u16) -> (r: Result<(usize, u64), EngineError>)
        requires
            old(self).wf(),
        ensures
            final(self).wf(),
            match old(self).spec_shared_output() {
                None => (r matches Err(e) && e.spec_message() == "shared output is not enabled"@)
                    && final(self).spec_shared_output().is_none() && final(out)@ == old(out)@,
                Some(s) => final(self).spec_shared_output() matches Some(t) && shared_read_outcome(
                    s,
                    old(out)@,
                    channels,
                    old(self).spec_silence(),
                    r,
                    t,
                    final(out)@,
                ),
            },
            unchanged_but_shared(*old(self), *final(self)),
    {
        match &mut self.shared_output {
            Some(shared) => shared.read_into(out, channels, self.silence),
            None => Err(EngineError::from_text("shared output is not enabled")),
        }
    }

    /// The header and samples of the shared output ring, when enabled.
    pub fn shared_output_snapshot(&self) -> (r: Option<(SharedBufferHeader, Vec<T>)>)
        ensures
            match self.spec_shared_output() {
                None => r.is_none(),
                Some(s) => r matches Some((h, v)) && h == s.spec_header() && v@ == s.spec_samples(),
            },
    {
        match &self.shared_output {
            Some(shared) => Some((shared.header(), shared.samples())),
            None => None,
        }
    }

    /// Replaces the state of the shared output ring with one read back from
    /// its file; refused when the ring is not enabled or the state is not
    /// well formed.
    pub fn restore_shared_output(&mut self, header: SharedBufferHeader, samples: Vec<T>) -> (r: Result<(), EngineError>)
        requires
            old(self).wf(),
        ensures
            final(self).wf(),
            match old(self).spec_shared_output() {
                None => (r matches Err(e) && e.spec_message() == "shared output is not enabled"@)
                    && final(self).spec_shared_output().is_none(),
                Some(s) => final(self).spec_shared_output() matches Some(t) && match r {
                    Ok(()) => t.spec_header() == header && t.spec_samples() == samples@,
                    Err(e) => t == s && e.spec_message() == "invalid shared output buffer format"@,
                },
            },
            unchanged_but_shared(*old(self), *final(self)),
    {
        match &mut self.shared_output {
            Some(shared) => shared.restore(header, samples),
            None => Err(EngineError::from_text("shared output is not enabled")),
        }
    }

    /// The file of the shared output ring, when enabled.
    pub fn shared_output_path(&self) -> (r: Option<String>)
        ensures
            match r {
                Some(p) => self.spec_shared_output().is_some() && p@ == SHARED_BUFFER_FILE_PATH@,
                None => self.spec_shared_output().is_none(),
            },
    {
        match &self.shared_output {
            Some(_) => Some(String::from_str(SHARED_BUFFER_FILE_PATH)),
            None => None,
        }
    }

    /// Takes the next event to send to the translation service: from the
    /// Azure bridge when open, else from the OpenAI bridge; refused when
    /// neither is open.
    pub fn take_next_azure_voice_live_event(&mut self) -> (r: Result<Option<String>, EngineError>)
        requires
            old(self).wf(),
        ensures
            final(self).wf(),
            unchanged_but_bridges(*old(self), *final(self)),
            final(self).is_running() == old(self).is_running(),
            match old(self).spec_azure() {
                Some(b) => final(self).spec_openai() == old(self).spec_openai() && (final(self).spec_azure() matches Some(c)
                    && c.spec_plan() == b.spec_plan() && c.spec_state() == b.spec_state() && match r {
                    Ok(Some(e)) => b.pending().len() > 0 && e@ == b.pending()[0] && c.pending() == b.pending().drop_first(),
                    Ok(None) => b.pending().len() == 0 && c.pending() == b.pending(),
                    Err(_) => false,
                }),
                None => final(self).spec_azure().is_none() && match old(self).spec_openai() {
                    Some(b) => final(self).spec_openai() matches Some(c) && c.spec_plan() == b.spec_plan()
                        && c.spec_state() == b.spec_state() && match r {
                        Ok(Some(e)) => b.pending().len() > 0 && e@ == b.pending()[0] && c.pending() == b.pending().drop_first(),
                        Ok(None) => b.pending().len() == 0 && c.pending() == b.pending(),
                        Err(_) => false,
                    },
                    None => final(self).spec_openai().is_none() && (r matches Err(e) && e.spec_message()
                        == "translation bridge is not active"@),
                },
            },
    {
        match &mut self.azure_voice_live {
            Some(b) => return Ok(b.take_next_event()),
            None => {},
        }
        match &mut self.openai_realtime {
            Some(b) => return Ok(b.take_next_event()),
            None => {},
        }
        Err(EngineError::from_text("translation bridge is not active"))
    }

    /// Applies a server event to the open bridge (the OpenAI one when open,
    /// else the Azure one); refused when neither is open or the event cannot
    /// be read. An audio delta gives its decoded samples with the bridge's
    /// running count of translated samples as their timestamp; the host
    /// converts them to the output format and hands them back with
    /// [`EngineSession::push_output_frame`].
    pub fn ingest_azure_voice_live_server_event(&mut self, raw: &str) -> (r: Result<Option<(Vec<i16>, u64)>, EngineError>)
        requires
            old(self).wf(),
            can_ingest(*old(self), raw@),
        ensures
            final(self).wf(),
            unchanged_but_bridges(*old(self), *final(self)),
            final(self).is_running() == old(self).is_running(),
            match old(self).spec_openai() {
                Some(b) => final(self).spec_azure() == old(self).spec_azure() && (final(self).spec_openai() matches Some(c)
                    && c.spec_plan() == b.spec_plan() && c.pending() == b.pending() && match r {
                    Ok(x) => openai_realtime::spec_parse_server_event(raw@) is Ok && (c.spec_state(), delivered_samples(x))
                        == openai_realtime::spec_apply_server_event(b.spec_state(), openai_realtime::spec_parse_server_event(raw@)->Ok_0)
                        && (x matches Some((_, ts)) ==> ts == c.spec_state().translated_audio_samples),
                    Err(e) => openai_realtime::spec_parse_server_event(raw@) == Err::<openai_realtime::OpenAIEventView, Seq<char>>(e.spec_message())
                        && c.spec_state() == b.spec_state(),
                }),
                None => final(self).spec_openai().is_none() && match old(self).spec_azure() {
                    Some(b) => final(self).spec_azure() matches Some(c) && c.spec_plan() == b.spec_plan()
                        && c.pending() == b.pending() && match r {
                        Ok(x) => azure_voice_live::spec_parse_server_event(raw@) is Ok && (c.spec_state(), delivered_samples(x))
                            == azure_voice_live::spec_apply_server_event(b.spec_state(), azure_voice_live::spec_parse_server_event(raw@)->Ok_0)
                            && (x matches Some((_, ts)) ==> ts == c.spec_state().translated_audio_samples),
                        Err(e) => azure_voice_live::spec_parse_server_event(raw@) == Err::<azure_voice_live::AzureEventView, Seq<char>>(e.spec_message())
                            && c.spec_state() == b.spec_state(),
                    },
                    None => final(self).spec_azure().is_none() && (r matches Err(e) && e.spec_message()
                        == "translation bridge is not active"@),
                },
            },
    {
        match &mut self.openai_realtime {
            Some(b) => {
                let samples = b.ingest_server_event(raw)?;
                return match samples {
                    Some(v) => Ok(Some((v, b.state().translated_audio_samples))),
                    None => Ok(None),
                };
            },
            None => {},
        }
        match &mut self.azure_voice_live {
            Some(b) => {
                let samples = b.ingest_server_event(raw)?;
                match samples {
                    Some(v) => Ok(Some((v, b.state().translated_audio_samples))),
                    None => Ok(None),
                }
            },
            None => Err(EngineError::from_text("translation bridge is not active")),
        }
    }

    /// The bookkeeping of the open bridge (Azure first) as JSON: its counters
    /// and last identifiers (written as they are), or `{}` without a bridge.
    pub fn translation_state_json(&self) -> (r: String)
        ensures
            r@ == match self.spec_azure() {
                Some(b) => runtime_state_json(
                    b.spec_state().audio_delta_count,
                    b.spec_state().audio_done_count,
                    b.spec_state().transcript_delta_count,
                    b.spec_state().translated_audio_samples,
                    b.spec_state().last_response_id,
                    b.spec_state().last_item_id,
                ),
                None => match self.spec_openai() {
                    Some(b) => runtime_state_json(
                        b.spec_state().audio_delta_count,
                        b.spec_state().audio_done_count,
                        b.spec_state().transcript_delta_count,
                        b.spec_state().translated_audio_samples,
                        b.spec_state().last_response_id,
                        b.spec_state().last_item_id,
                    ),
                    None => "{}"@,
                },
            },
    {
        match &self.azure_voice_live {
            Some(b) => {
                let st = b.state();
                return state_json(
                    st.audio_delta_count,
                    st.audio_done_count,
                    st.transcript_delta_count,
                    st.translated_audio_samples,
                    st.last_response_id.as_str(),
                    st.last_item_id.as_str(),
                );
            },
            None => {},
        }
        match &self.openai_realtime {
            Some(b) => {
                let st = b.state();
                state_json(
                    st.audio_delta_count,
                    st.audio_done_count,
                    st.transcript_delta_count,
                    st.translated_audio_samples,
                    st.last_response_id.as_str(),
                    st.last_item_id.as_str(),
                )
            },
            None => String::from_str("{}"),
        }
    }

    /// The bookkeeping of the Azure bridge, when open.
    pub fn azure_voice_live_state(&self) -> (r: Option<&AzureVoiceLiveRuntimeState>)
        ensures
            match self.spec_azure() {
                Some(b) => r matches Some(s) && s@ == b.spec_state(),
                None => r.is_none(),
            },
    {
        match &self.azure_voice_live {
            Some(b) => Some(b.state()),
            None => None,
        }
    }

    /// The bookkeeping of the OpenAI bridge, when open.
    pub fn openai_realtime_state(&self) -> (r: Option<&OpenAIRealtimeRuntimeState>)
        ensures
            match self.spec_openai() {
                Some(b) => r matches Some(s) && s@ == b.spec_state(),
                None => r.is_none(),
            },
    {
        match &self.openai_realtime {
            Some(b) => Some(b.state()),
            None => None,
        }
    }
}

/// The whole frames of `channels` channels a pull of `out_len` samples gets
/// from `ring`.
pub open spec fn popped_frames<T: Copy>(ring: SampleRingBuffer<T>, out_len: int, channels: u16) -> usize {
    let n = if out_len < ring.unread().len() {
        out_len
    } else {
        ring.unread().len() as int
    };
    (n / (if channels == 0 {
        1
    } else {
        channels as int
    })) as usize
}

/// Whether the open bridge's counters leave room for the event `raw`.
pub open spec fn can_ingest<T: Copy>(s: EngineSession<T>, raw: Seq<char>) -> bool {
    match s.spec_openai() {
        Some(b) => b.spec_state().audio_delta_count < u64::MAX && b.spec_state().audio_done_count
            < u64::MAX && b.spec_state().transcript_delta_count < u64::MAX
            && b.spec_state().translated_audio_samples + raw.len() <= u64::MAX,
        None => match s.spec_azure() {
            Some(b) => b.spec_state().audio_delta_count < u64::MAX && b.spec_state().audio_done_count
                < u64::MAX && b.spec_state().transcript_delta_count < u64::MAX
                && b.spec_state().translated_audio_samples + raw.len() <= u64::MAX,
            None => true,
        },
    }
}

/// The samples an ingested event delivered.
pub open spec fn delivered_samples(x: Option<(Vec<i16>, u64)>) -> Option<Seq<i16>> {
    match x {
        Some((v, _)) => Some(v@),
        None => None,
    }
}

/// The outcome of a write, without its value.
pub open spec fn unit_result<V>(r: Result<V, EngineError>) -> Result<(), EngineError> {
    match r {
        Ok(_) => Ok(()),
        Err(e) => Err(e),
    }
}

/// A bridge's counters and last identifiers as JSON.
pub open spec fn runtime_state_json(
    audio_delta_count: int,
    audio_done_count: int,
    transcript_delta_count: int,
    translated_audio_samples: int,
    last_response_id: Seq<char>,
    last_item_id: Seq<char>,
) -> Seq<char> {
    "{\"audio_delta_count\":"@ + decimal(audio_delta_count as nat) + ",\"audio_done_count\":"@ + decimal(
        audio_done_count as nat,
    ) + ",\"transcript_delta_count\":"@ + decimal(transcript_delta_count as nat)
        + ",\"translated_audio_samples\":"@ + decimal(translated_audio_samples as nat)
        + ",\"last_response_id\":\""@ + last_response_id + "\",\"last_item_id\":\""@ + last_item_id
        + "\"}"@
}

fn state_json(
    audio_delta_count: u64,
    audio_done_count: u64,
    transcript_delta_count: u64,
    translated_audio_samples: u64,
    last_response_id: &str,
    last_item_id: &str,
) -> (r: String)
    ensures
        r@ == runtime_state_json(
            audio_delta_count as int,
            audio_done_count as int,
            transcript_delta_count as int,
            translated_audio_samples as int,
            last_response_id@,
            last_item_id@,
        ),
{
    let mut s = String::from_str("{\"audio_delta_count\":");
    push_u64(&mut s, audio_delta_count);
    s.append(",\"audio_done_count\":");
    push_u64(&mut s, audio_done_count);
    s.append(",\"transcript_delta_count\":");
    push_u64(&mut s, transcript_delta_count);
    s.append(",\"translated_audio_samples\":");
    push_u64(&mut s, translated_audio_samples);
    s.append(",\"last_response_id\":\"");
    s.append(last_response_id);
    s.append("\",\"last_item_id\":\"");
    s.append(last_item_id);
    s.append("\"}");
    s
}

/// A copy of `data`.
fn copy_samples<T: Copy>(data: &[T]) -> (r: Vec<T>)
    ensures
        r@ == data@,
{
    let mut v: Vec<T> = Vec::new();
    let mut i: usize = 0;
    while i < data.len()
        invariant
            i <= data@.len(),
            v@ == data@.take(i as int),
        decreases data@.len() - i,
    {
        v.push(data[i]);
        assert(data@.take(i + 1) =~= data@.take(i as int).push(data@[i as int]));
        i += 1;
    }
    assert(data@.take(data@.len() as int) =~= data@);
    v
}

/// Everything but the shared output ring is unchanged.
pub open spec fn unchanged_but_shared<T: Copy>(a: EngineSession<T>, b: EngineSession<T>) -> bool {
    &&& b.spec_config() == a.spec_config()
    &&& b.is_running() == a.is_running()
    &&& b.spec_metrics() == a.spec_metrics()
    &&& b.spec_input_ring() == a.spec_input_ring()
    &&& b.spec_output_ring() == a.spec_output_ring()
    &&& b.spec_azure() == a.spec_azure()
    &&& b.spec_openai() == a.spec_openai()
    &&& b.spec_silence() == a.spec_silence()
}

/// Everything but the bridges and the running flag is unchanged.
pub open spec fn unchanged_but_bridges<T: Copy>(a: EngineSession<T>, b: EngineSession<T>) -> bool {
    &&& b.spec_config() == a.spec_config()
    &&& b.spec_metrics() == a.spec_metrics()
    &&& b.spec_input_ring() == a.spec_input_ring()
    &&& b.spec_output_ring() == a.spec_output_ring()
    &&& b.spec_shared_output() == a.spec_shared_output()
    &&& b.spec_silence() == a.spec_silence()
}

/// The bridges after they were reopened for the session's settings, with
/// outcome `r`: outside translate mode or without a provider there is none;
/// otherwise the provider's bridge is open, fresh, exactly when its plan can
/// be made, and the failure is the plan's.
pub open spec fn bridges_synced<T: Copy>(s: EngineSession<T>, r: Result<(), EngineError>, env_api_key: Option<Seq<char>>) -> bool {
    let c = s.spec_config();
    match bridge_failure(c, env_api_key) {
        Some(m) => r matches Err(e) && e.spec_message() == m && s.spec_azure().is_none()
            && s.spec_openai().is_none(),
        None => r is Ok && if c.mode == EngineMode::Translate
            && c.translation_provider == TranslationProvider::AzureVoiceLive {
            s.spec_azure() matches Some(b) && fresh_azure_bridge(b, c, env_api_key)
                && s.spec_openai().is_none()
        } else if c.mode == EngineMode::Translate && c.translation_provider
            == TranslationProvider::OpenAIRealtime {
            s.spec_openai() matches Some(b) && fresh_openai_bridge(b, c, env_api_key)
                && s.spec_azure().is_none()
        } else {
            s.spec_azure().is_none() && s.spec_openai().is_none()
        },
    }
}

} // verus!
