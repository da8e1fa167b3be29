//! Engine counters and latency measurements, and their JSON report.
//!
//! Counters wrap around on overflow, as the host's atomic counters do; the
//! host shares one `EngineMetrics` behind a lock.

use vstd::prelude::*;
use crate::text::{decimal, push_u64};

verus! {

/// The most recent latency measurement in milliseconds; `u64::MAX` means
/// "not yet measured".
#[derive(Clone, Copy, Debug)]
pub struct LatencyTracker {
    last_ms: u64,
}

impl LatencyTracker {
    /// The stored value (`u64::MAX` when nothing was measured).
    pub closed spec fn stored(&self) -> u64 {
        self.last_ms
    }

    /// The reported latency: the stored value, or 0 when nothing was measured.
    pub open spec fn reported(&self) -> u64 {
        if self.stored() == u64::MAX {
            0
        } else {
            self.stored()
        }
    }

    /// A tracker with nothing measured.
    pub fn new() -> (r: Self)
        ensures
            r.stored() == u64::MAX,
    {
        LatencyTracker { last_ms: u64::MAX }
    }

    /// Stores a measurement.
    pub fn record(&mut self, ms: u64)
        ensures
            final(self).stored() == ms,
    {
        self.last_ms = ms;
    }

    /// The latest measurement, or 0 when nothing was measured.
    pub fn get_ms(&self) -> (r: u64)
        ensures
            r == self.reported(),
    {
        if self.last_ms == u64::MAX {
            0
        } else {
            self.last_ms
        }
    }
}

/// Whether a tracker that received `ms` last reports it: every value but
/// `u64::MAX` (the "not measured" mark, reported as 0) is reported as stored.
pub proof fn lemma_latency_record_then_get(ms: u64, after: LatencyTracker)
    requires
        after.stored() == ms,
    ensures
        after.reported() == if ms == u64::MAX {
            0
        } else {
            ms
        },
{
}

/// Frame, sample and event counters of an engine session.
#[derive(Clone, Copy, Debug)]
pub struct EngineMetrics {
    pub capture_frames: u64,
    pub output_frames: u64,
    pub pushed_samples: u64,
    pub pulled_samples: u64,
    pub underrun_count: u64,
    pub overflow_count: u64,
    pub reconnect_count: u64,
    pub fallback_count: u64,
    pub vad_start_latency_ms: LatencyTracker,
    pub asr_first_partial_ms: LatencyTracker,
    pub asr_final_ms: LatencyTracker,
    pub mt_first_output_ms: LatencyTracker,
    pub tts_first_audio_ms: LatencyTracker,
    pub end_to_end_first_audio_ms: LatencyTracker,
}

/// Whether two metric sets have the same latency trackers.
pub open spec fn same_latencies(a: EngineMetrics, b: EngineMetrics) -> bool {
    a.vad_start_latency_ms == b.vad_start_latency_ms && a.asr_first_partial_ms
        == b.asr_first_partial_ms && a.asr_final_ms == b.asr_final_ms && a.mt_first_output_ms
        == b.mt_first_output_ms && a.tts_first_audio_ms == b.tts_first_audio_ms
        && a.end_to_end_first_audio_ms == b.end_to_end_first_audio_ms
}

/// Whether two metric sets have the same counters.
pub open spec fn same_counters(a: EngineMetrics, b: EngineMetrics) -> bool {
    a.capture_frames == b.capture_frames && a.output_frames == b.output_frames && a.pushed_samples
        == b.pushed_samples && a.pulled_samples == b.pulled_samples && a.underrun_count
        == b.underrun_count && a.overflow_count == b.overflow_count && a.reconnect_count
        == b.reconnect_count && a.fallback_count == b.fallback_count
}

/// Whether all counters are zero and no latency is measured.
pub open spec fn fresh_metrics(m: EngineMetrics) -> bool {
    &&& m.capture_frames == 0 && m.output_frames == 0 && m.pushed_samples == 0
        && m.pulled_samples == 0 && m.underrun_count == 0 && m.overflow_count == 0
        && m.reconnect_count == 0 && m.fallback_count == 0
    &&& m.vad_start_latency_ms.stored() == u64::MAX
    &&& m.asr_first_partial_ms.stored() == u64::MAX
    &&& m.asr_final_ms.stored() == u64::MAX
    &&& m.mt_first_output_ms.stored() == u64::MAX
    &&& m.tts_first_audio_ms.stored() == u64::MAX
    &&& m.end_to_end_first_audio_ms.stored() == u64::MAX
}

impl EngineMetrics {
    /// All counters zero and no latency measured.
    pub fn new() -> (r: Self)
        ensures
            fresh_metrics(r),
    {
        EngineMetrics {
            capture_frames: 0,
            output_frames: 0,
            pushed_samples: 0,
            pulled_samples: 0,
            underrun_count: 0,
            overflow_count: 0,
            reconnect_count: 0,
            fallback_count: 0,
            vad_start_latency_ms: LatencyTracker::new(),
            asr_first_partial_ms: LatencyTracker::new(),
            asr_final_ms: LatencyTracker::new(),
            mt_first_output_ms: LatencyTracker::new(),
            tts_first_audio_ms: LatencyTracker::new(),
            end_to_end_first_audio_ms: LatencyTracker::new(),
        }
    }

    /// Counts captured frames and samples.
    pub fn record_capture(&mut self, frames: u64, samples: u64)
        ensures
            final(self).capture_frames == old(self).capture_frames.wrapping_add(frames),
            final(self).pushed_samples == old(self).pushed_samples.wrapping_add(samples),
            final(self).output_frames == old(self).output_frames,
            final(self).pulled_samples == old(self).pulled_samples,
            final(self).underrun_count == old(self).underrun_count,
            final(self).overflow_count == old(self).overflow_count,
            final(self).reconnect_count == old(self).reconnect_count,
            final(self).fallback_count == old(self).fallback_count,
            same_latencies(*final(self), *old(self)),
    {
        self.capture_frames = self.capture_frames.wrapping_add(frames);
        self.pushed_samples = self.pushed_samples.wrapping_add(samples);
    }

    /// Counts delivered frames and samples.
    pub fn record_output(&mut self, frames: u64, samples: u64)
        ensures
            final(self).output_frames == old(self).output_frames.wrapping_add(frames),
            final(self).pulled_samples == old(self).pulled_samples.wrapping_add(samples),
            final(self).capture_frames == old(self).capture_frames,
            final(self).pushed_samples == old(self).pushed_samples,
            final(self).underrun_count == old(self).underrun_count,
            final(self).overflow_count == old(self).overflow_count,
            final(self).reconnect_count == old(self).reconnect_count,
            final(self).fallback_count == old(self).fallback_count,
            same_latencies(*final(self), *old(self)),
    {
        self.output_frames = self.output_frames.wrapping_add(frames);
        self.pulled_samples = self.pulled_samples.wrapping_add(samples);
    }

    /// Counts an output underrun.
    pub fn record_underrun(&mut self)
        ensures
            *final(self) == (EngineMetrics {
                underrun_count: old(self).underrun_count.wrapping_add(1),
                ..*old(self)
            }),
    {
        self.underrun_count = self.underrun_count.wrapping_add(1);
    }

    /// Counts a ring overflow.
    pub fn record_overflow(&mut self)
        ensures
            *final(self) == (EngineMetrics {
                overflow_count: old(self).overflow_count.wrapping_add(1),
                ..*old(self)
            }),
    {
        self.overflow_count = self.overflow_count.wrapping_add(1);
    }

    /// Counts a reconnection.
    pub fn record_reconnect(&mut self)
        ensures
            *final(self) == (EngineMetrics {
                reconnect_count: old(self).reconnect_count.wrapping_add(1),
                ..*old(self)
            }),
    {
        self.reconnect_count = self.reconnect_count.wrapping_add(1);
    }

    /// Counts a fallback.
    pub fn record_fallback(&mut self)
        ensures
            *final(self) == (EngineMetrics {
                fallback_count: old(self).fallback_count.wrapping_add(1),
                ..*old(self)
            }),
    {
        self.fallback_count = self.fallback_count.wrapping_add(1);
    }

    /// Records the voice-activity start latency.
    pub fn record_vad_start_latency(&mut self, ms: u64)
        ensures
            final(self).vad_start_latency_ms.stored() == ms,
            final(self).asr_first_partial_ms == old(self).asr_first_partial_ms,
            final(self).asr_final_ms == old(self).asr_final_ms,
            final(self).mt_first_output_ms == old(self).mt_first_output_ms,
            final(self).tts_first_audio_ms == old(self).tts_first_audio_ms,
            final(self).end_to_end_first_audio_ms == old(self).end_to_end_first_audio_ms,
            same_counters(*final(self), *old(self)),
    {
        self.vad_start_latency_ms.record(ms);
    }

    /// Records the latency of the first partial transcript.
    pub fn record_asr_first_partial(&mut self, ms: u64)
        ensures
            final(self).asr_first_partial_ms.stored() == ms,
            final(self).vad_start_latency_ms == old(self).vad_start_latency_ms,
            final(self).asr_final_ms == old(self).asr_final_ms,
            final(self).mt_first_output_ms == old(self).mt_first_output_ms,
            final(self).tts_first_audio_ms == old(self).tts_first_audio_ms,
            final(self).end_to_end_first_audio_ms == old(self).end_to_end_first_audio_ms,
            same_counters(*final(self), *old(self)),
    {
        self.asr_first_partial_ms.record(ms);
    }

    /// Records the latency of the final transcript.
    pub fn record_asr_final(&mut self, ms: u64)
        ensures
            final(self).asr_final_ms.stored() == ms,
            final(self).vad_start_latency_ms == old(self).vad_start_latency_ms,
            final(self).asr_first_partial_ms == old(self).asr_first_partial_ms,
            final(self).mt_first_output_ms == old(self).mt_first_output_ms,
            final(self).tts_first_audio_ms == old(self).tts_first_audio_ms,
            final(self).end_to_end_first_audio_ms == old(self).end_to_end_first_audio_ms,
            same_counters(*final(self), *old(self)),
    {
        self.asr_final_ms.record(ms);
    }

    /// Records the latency of the first translation.
    pub fn record_mt_first_output(&mut self, ms: u64)
        ensures
            final(self).mt_first_output_ms.stored() == ms,
            final(self).vad_start_latency_ms == old(self).vad_start_latency_ms,
            final(self).asr_first_partial_ms == old(self).asr_first_partial_ms,
            final(self).asr_final_ms == old(self).asr_final_ms,
            final(self).tts_first_audio_ms == old(self).tts_first_audio_ms,
            final(self).end_to_end_first_audio_ms == old(self).end_to_end_first_audio_ms,
            same_counters(*final(self), *old(self)),
    {
        self.mt_first_output_ms.record(ms);
    }

    /// Records the latency of the first synthesized audio.
    pub fn record_tts_first_audio(&mut self, ms: u64)
        ensures
            final(self).tts_first_audio_ms.stored() == ms,
            final(self).vad_start_latency_ms == old(self).vad_start_latency_ms,
            final(self).asr_first_partial_ms == old(self).asr_first_partial_ms,
            final(self).asr_final_ms == old(self).asr_final_ms,
            final(self).mt_first_output_ms == old(self).mt_first_output_ms,
            final(self).end_to_end_first_audio_ms == old(self).end_to_end_first_audio_ms,
            same_counters(*final(self), *old(self)),
    {
        self.tts_first_audio_ms.record(ms);
    }

    /// Records the end-to-end latency to the first synthesized audio.
    pub fn record_end_to_end_first_audio(&mut self, ms: u64)
        ensures
            final(self).end_to_end_first_audio_ms.stored() == ms,
            final(self).vad_start_latency_ms == old(self).vad_start_latency_ms,
            final(self).asr_first_partial_ms == old(self).asr_first_partial_ms,
            final(self).asr_final_ms == old(self).asr_final_ms,
            final(self).mt_first_output_ms == old(self).mt_first_output_ms,
            final(self).tts_first_audio_ms == old(self).tts_first_audio_ms,
            same_counters(*final(self), *old(self)),
    {
        self.end_to_end_first_audio_ms.record(ms);
    }
}

/// The JSON report of `m` with the given output queue depth.
pub open spec fn spec_metrics_json(m: EngineMetrics, depth_ms: u64) -> Seq<char> {
    "{\"mic_capture_gap_ms\":0,\"vad_start_latency_ms\":"@ + decimal(
        m.vad_start_latency_ms.reported() as nat,
    ) + ",\"asr_first_partial_ms\":"@ + decimal(m.asr_first_partial_ms.reported() as nat)
        + ",\"asr_final_ms\":"@ + decimal(m.asr_final_ms.reported() as nat)
        + ",\"mt_first_output_ms\":"@ + decimal(m.mt_first_output_ms.reported() as nat)
        + ",\"tts_first_audio_ms\":"@ + decimal(m.tts_first_audio_ms.reported() as nat)
        + ",\"end_to_end_first_audio_ms\":"@ + decimal(m.end_to_end_first_audio_ms.reported() as nat)
        + ",\"capture_frames\":"@ + decimal(m.capture_frames as nat) + ",\"output_frames\":"@
        + decimal(m.output_frames as nat) + ",\"pushed_samples\":"@ + decimal(
        m.pushed_samples as nat,
    ) + ",\"pulled_samples\":"@ + decimal(m.pulled_samples as nat) + ",\"output_queue_depth_ms\":"@
        + decimal(depth_ms as nat) + ",\"underrun_count\":"@ + decimal(m.underrun_count as nat)
        + ",\"overflow_count\":"@ + decimal(m.overflow_count as nat) + ",\"reconnect_count\":"@
        + decimal(m.reconnect_count as nat) + ",\"fallback_count\":"@ + decimal(
        m.fallback_count as nat,
    ) + "}"@
}

impl EngineMetrics {
    /// The JSON report: every latency (0 when not measured), every counter,
    /// and the output queue depth.
    pub fn to_json(&self, output_queue_depth_ms: u64) -> (r: String)
        ensures
            r@ == spec_metrics_json(*self, output_queue_depth_ms),
    {
        let mut s = String::from_str("{\"mic_capture_gap_ms\":0,\"vad_start_latency_ms\":");
        push_u64(&mut s, self.vad_start_latency_ms.get_ms());
        s.append(",\"asr_first_partial_ms\":");
        push_u64(&mut s, self.asr_first_partial_ms.get_ms());
        s.append(",\"asr_final_ms\":");
        push_u64(&mut s, self.asr_final_ms.get_ms());
        s.append(",\"mt_first_output_ms\":");
        push_u64(&mut s, self.mt_first_output_ms.get_ms());
        s.append(",\"tts_first_audio_ms\":");
        push_u64(&mut s, self.tts_first_audio_ms.get_ms());
        s.append(",\"end_to_end_first_audio_ms\":");
        push_u64(&mut s, self.end_to_end_first_audio_ms.get_ms());
        s.append(",\"capture_frames\":");
        push_u64(&mut s, self.capture_frames);
        s.append(",\"output_frames\":");
        push_u64(&mut s, self.output_frames);
        s.append(",\"pushed_samples\":");
        push_u64(&mut s, self.pushed_samples);
        s.append(",\"pulled_samples\":");
        push_u64(&mut s, self.pulled_samples);
        s.append(",\"output_queue_depth_ms\":");
        push_u64(&mut s, output_queue_depth_ms);
        s.append(",\"underrun_count\":");
        push_u64(&mut s, self.underrun_count);
        s.append(",\"overflow_count\":");
        push_u64(&mut s, self.overflow_count);
        s.append(",\"reconnect_count\":");
        push_u64(&mut s, self.reconnect_count);
        s.append(",\"fallback_count\":");
        push_u64(&mut s, self.fallback_count);
        s.append("}");
        s
    }
}

} // verus!
