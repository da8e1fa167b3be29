//! Decision logic of the local caption pipeline: the caption events handed to
//! the host as JSON, the speech-recognition worker's filtering, and the
//! translation / speech-synthesis post-processor with its debouncing.

use std::collections::VecDeque;
use vstd::prelude::*;
use vstd::utf8::encode_utf8;
use crate::config::{CosyVoiceTtsConfig, ElevenLabsTtsConfig, EngineError, LocalMtConfig, LocalSttConfig, MiniMaxTtsConfig, MtConfig};
use crate::mt_client::{mt_error_text, MtClient, MtClientConfig};
use crate::text::{decimal, is_blank, push_u64, str_eq, trim, trim_str};
use crate::tts::{
    or_if_empty, CosyVoiceClient, CosyVoiceConfig, CosyVoiceError, ElevenLabsTtsClient, ElevenLabsTtsError,
    MiniMaxTtsClient, MiniMaxTtsError, MINIMAX_DEFAULT_API_HOST, MINIMAX_DEFAULT_VOICE_ID,
};
use crate::wire::{json_escaped, push_json_escaped};

verus! {

/// A caption for the host: the recognised text and, once known, its translation.
#[derive(Debug)]
pub struct CaptionEvent {
    pub timestamp_ns: u64,
    pub original: String,
    pub translated: Option<String>,
    pub is_final: bool,
}

/// The contents of a [`CaptionEvent`].
pub struct CaptionEventView {
    pub timestamp_ns: u64,
    pub original: Seq<char>,
    pub translated: Option<Seq<char>>,
    pub is_final: bool,
}

impl View for CaptionEvent {
    type V = CaptionEventView;

    open spec fn view(&self) -> CaptionEventView {
        CaptionEventView {
            timestamp_ns: self.timestamp_ns,
            original: self.original@,
            translated: match self.translated {
                Some(t) => Some(t@),
                None => None,
            },
            is_final: self.is_final,
        }
    }
}

/// The JSON object for a caption: `type`, `is_final`, `timestamp_ns`, `text`
/// and, when there is one, `translation` (strings escaped, control characters
/// as `\u00xx`).
pub open spec fn caption_json(e: CaptionEventView) -> Seq<char> {
    "{\"type\":\"caption\",\"is_final\":"@ + (if e.is_final {
        "true"@
    } else {
        "false"@
    }) + ",\"timestamp_ns\":"@ + decimal(e.timestamp_ns as nat) + ",\"text\":\""@ + json_escaped(
        e.original,
        true,
    ) + "\""@ + match e.translated {
        Some(t) => ",\"translation\":\""@ + json_escaped(t, true) + "\""@,
        None => Seq::empty(),
    } + "}"@
}

impl CaptionEvent {
    /// The JSON text of this caption.
    pub fn to_json(&self) -> (r: String)
        ensures
            r@ == caption_json(self@),
    {
        let mut s = String::from_str("{\"type\":\"caption\",\"is_final\":");
        if self.is_final {
            s.append("true");
        } else {
            s.append("false");
        }
        s.append(",\"timestamp_ns\":");
        push_u64(&mut s, self.timestamp_ns);
        s.append(",\"text\":\"");
        push_json_escaped(&mut s, self.original.as_str(), true);
        s.append("\"");
        let ghost before = s@;
        match &self.translated {
            Some(t) => {
                s.append(",\"translation\":\"");
                push_json_escaped(&mut s, t.as_str(), true);
                s.append("\"");
            },
            None => {},
        }
        s.append("}");
        proof {
            match self@.translated {
                Some(t) => {
                    assert(s@ =~= before + (",\"translation\":\""@ + json_escaped(t, true) + "\""@)
                        + "}"@);
                },
                None => {
                    assert(s@ =~= before + Seq::<char>::empty() + "}"@);
                },
            }
        }
        s
    }
}

/// The fewest 16 kHz samples worth sending to the recogniser (0.1 s).
pub const MIN_STT_SAMPLES: usize = 1600;

/// Whether the recognition worker transcribes a job of `sample_count`
/// samples; shorter ones (empty ones among them) are dropped.
pub fn should_transcribe(sample_count: usize) -> (r: bool)
    ensures
        r == (sample_count >= MIN_STT_SAMPLES),
{
    sample_count >= MIN_STT_SAMPLES
}

/// A recognised text handed to the translation / synthesis post-processor.
#[derive(Debug)]
pub struct PostProcessJob {
    pub original: String,
    pub is_final: bool,
    pub timestamp_ns: u64,
}

/// What the recognition worker does with the outcome of one transcription.
#[derive(Debug)]
pub struct SttOutcome {
    /// The text to translate (and, when final, to speak).
    pub post_job: Option<PostProcessJob>,
    /// The untranslated caption to show at once.
    pub event: Option<CaptionEvent>,
    /// Whether the worker is free for the next partial.
    pub clear_busy: bool,
}

/// The outcome of a transcription: `transcript` is `None` when the recogniser
/// failed. A failure or a blank text is dropped and frees the worker; any
/// other text goes both to the post-processor and, untranslated, to the host;
/// the worker stays busy after a final segment (the post-processor may still
/// be running) and is freed after a partial.
pub fn stt_outcome(transcript: Option<String>, is_final: bool, timestamp_ns: u64) -> (r: SttOutcome)
    ensures
        match transcript {
            None => r.post_job.is_none() && r.event.is_none() && r.clear_busy,
            Some(t) => if trim(t@).len() == 0 {
                r.post_job.is_none() && r.event.is_none() && r.clear_busy
            } else {
                &&& r.post_job matches Some(j) && j.original@ == t@ && j.is_final == is_final
                    && j.timestamp_ns == timestamp_ns
                &&& r.event matches Some(e) && e@ == (CaptionEventView {
                    timestamp_ns,
                    original: t@,
                    translated: None,
                    is_final,
                })
                &&& r.clear_busy == !is_final
            },
        },
{
    match transcript {
        None => SttOutcome { post_job: None, event: None, clear_busy: true },
        Some(text) => {
            if is_blank(text.as_str()) {
                SttOutcome { post_job: None, event: None, clear_busy: true }
            } else {
                let copy = String::from_str(text.as_str());
                SttOutcome {
                    post_job: Some(PostProcessJob { original: copy, is_final, timestamp_ns }),
                    event: Some(CaptionEvent { timestamp_ns, original: text, translated: None, is_final }),
                    clear_busy: !is_final,
                }
            }
        },
    }
}

/// The shortest partial (in UTF-8 bytes, once trimmed) worth translating.
pub const MIN_PARTIAL_LEN: usize = 5;

/// What the post-processor does about translating a transcription.
#[derive(Debug)]
pub enum TranslationStep {
    /// Ask the translator.
    Translate,
    /// Reuse the translation of the identical previous partial.
    Reuse(String),
    /// Leave this partial untranslated.
    Skip,
}

/// Whether a transcription is translated: always when final; a partial only
/// when its trimmed text differs from the previous translated partial and is
/// at least [`MIN_PARTIAL_LEN`] bytes long.
pub open spec fn should_translate(last_partial: Seq<char>, original: Seq<char>, is_final: bool) -> bool {
    is_final || (trim(original) != trim(last_partial) && encode_utf8(trim(original)).len()
        >= MIN_PARTIAL_LEN)
}

/// The translation result kept: a non-blank text.
pub open spec fn kept_translation(result: Option<Seq<char>>) -> Option<Seq<char>> {
    match result {
        Some(t) => if trim(t).len() == 0 {
            None
        } else {
            Some(t)
        },
        None => None,
    }
}

/// Keeps a translator's result only when it is not blank (`None` stands for
/// a failed translation).
pub fn keep_translation(result: Option<String>) -> (r: Option<String>)
    ensures
        match r {
            Some(t) => kept_translation(match result {
                Some(x) => Some(x@),
                None => None,
            }) == Some(t@),
            None => kept_translation(match result {
                Some(x) => Some(x@),
                None => None,
            }).is_none(),
        },
{
    match result {
        Some(t) => {
            if is_blank(t.as_str()) {
                None
            } else {
                Some(t)
            }
        },
        None => None,
    }
}

/// The engines that can speak a final caption, in order of preference.
#[derive(Clone, Copy, Debug, PartialEq, Eq, Structural)]
pub enum TtsEngine {
    MiniMax,
    ElevenLabs,
    CosyVoice,
    Sherpa,
}

/// The preferred speech engine among those configured: MiniMax, then
/// ElevenLabs, then CosyVoice, then the local model.
pub open spec fn preferred_tts_engine(minimax: bool, elevenlabs: bool, cosyvoice: bool, sherpa: bool) -> Option<
    TtsEngine,
> {
    if minimax {
        Some(TtsEngine::MiniMax)
    } else if elevenlabs {
        Some(TtsEngine::ElevenLabs)
    } else if cosyvoice {
        Some(TtsEngine::CosyVoice)
    } else if sherpa {
        Some(TtsEngine::Sherpa)
    } else {
        None
    }
}

/// Chooses the speech engine (see [`preferred_tts_engine`]).
pub fn choose_tts_engine(minimax: bool, elevenlabs: bool, cosyvoice: bool, sherpa: bool) -> (r:
    Option<TtsEngine>)
    ensures
        r == preferred_tts_engine(minimax, elevenlabs, cosyvoice, sherpa),
{
    if minimax {
        Some(TtsEngine::MiniMax)
    } else if elevenlabs {
        Some(TtsEngine::ElevenLabs)
    } else if cosyvoice {
        Some(TtsEngine::CosyVoice)
    } else if sherpa {
        Some(TtsEngine::Sherpa)
    } else {
        None
    }
}

/// Whether a synthesis result is sent to the output: it must have succeeded,
/// and the remote engines' results must also hold samples.
pub fn keep_tts_audio(engine: TtsEngine, succeeded: bool, sample_count: usize) -> (r: bool)
    ensures
        r == (succeeded && (engine == TtsEngine::Sherpa || sample_count > 0)),
{
    succeeded && (matches!(engine, TtsEngine::Sherpa) || sample_count > 0)
}

/// The post-processor's memory between jobs.
#[derive(Debug)]
pub struct PostProcessor {
    last_tts_text: String,
    last_partial_original: String,
    last_partial_translation: String,
}

/// The contents of a [`PostProcessor`].
#[verifier::ext_equal]
pub struct PostProcessorView {
    pub last_tts_text: Seq<char>,
    pub last_partial_original: Seq<char>,
    pub last_partial_translation: Seq<char>,
}

impl View for PostProcessor {
    type V = PostProcessorView;

    closed spec fn view(&self) -> PostProcessorView {
        PostProcessorView {
            last_tts_text: self.last_tts_text@,
            last_partial_original: self.last_partial_original@,
            last_partial_translation: self.last_partial_translation@,
        }
    }
}

/// The memory after recording the translation (if any) of a transcription:
/// a final one forgets the partials; a translated partial becomes the one
/// later partials are compared with; the spoken-text memory is untouched.
pub open spec fn recorded(
    p: PostProcessorView,
    original: Seq<char>,
    is_final: bool,
    translated: Option<Seq<char>>,
) -> PostProcessorView {
    if is_final {
        PostProcessorView { last_partial_original: Seq::empty(), last_partial_translation: Seq::empty(), ..p }
    } else {
        match translated {
            Some(t) => PostProcessorView { last_partial_original: original, last_partial_translation: t, ..p },
            None => p,
        }
    }
}

/// The memory after closing a transcription: a final one resets the
/// spoken-text memory.
pub open spec fn finished(p: PostProcessorView, is_final: bool) -> PostProcessorView {
    if is_final {
        PostProcessorView { last_tts_text: Seq::empty(), ..p }
    } else {
        p
    }
}

/// The engine that speaks `candidate`: only for a final, non-blank text
/// that differs (trimmed) from the last one spoken, and then the preferred
/// configured engine.
pub open spec fn spoken_engine(
    p: PostProcessorView,
    is_final: bool,
    minimax: bool,
    elevenlabs: bool,
    cosyvoice: bool,
    sherpa: bool,
    candidate: Seq<char>,
) -> Option<TtsEngine> {
    if is_final && trim(candidate).len() != 0 && trim(candidate) != trim(p.last_tts_text) {
        preferred_tts_engine(minimax, elevenlabs, cosyvoice, sherpa)
    } else {
        None
    }
}

impl PostProcessor {
    /// A post-processor that has seen nothing yet.
    pub fn new() -> (r: Self)
        ensures
            r@.last_tts_text.len() == 0,
            r@.last_partial_original.len() == 0,
            r@.last_partial_translation.len() == 0,
    {
        PostProcessor {
            last_tts_text: String::new(),
            last_partial_original: String::new(),
            last_partial_translation: String::new(),
        }
    }

    /// What to do about translating `original`: translate it when
    /// [`should_translate`] holds; otherwise reuse the previous partial's
    /// translation when this partial's trimmed text equals the previous one;
    /// otherwise skip.
    pub fn translation_step(&self, original: &str, is_final: bool) -> (r: TranslationStep)
        ensures
            should_translate(self@.last_partial_original, original@, is_final) ==> r
                is Translate,
            !should_translate(self@.last_partial_original, original@, is_final) && !is_final && trim(
                original@,
            ) == trim(self@.last_partial_original) ==> (r matches TranslationStep::Reuse(t) && t@
                == self@.last_partial_translation),
            !should_translate(self@.last_partial_original, original@, is_final) && !(!is_final
                && trim(original@) == trim(self@.last_partial_original)) ==> r is Skip,
    {
        let cur = trim_str(original);
        let last = trim_str(self.last_partial_original.as_str());
        let same = str_eq(cur.as_str(), last.as_str());
        let bytes = cur.as_str().as_bytes();
        let long_enough = bytes.len() >= MIN_PARTIAL_LEN;
        if is_final || (!same && long_enough) {
            TranslationStep::Translate
        } else if !is_final && same {
            TranslationStep::Reuse(String::from_str(self.last_partial_translation.as_str()))
        } else {
            TranslationStep::Skip
        }
    }

    /// Records the translation (if any) of a transcription and gives the
    /// translated caption to emit. A translated partial becomes the one later
    /// partials are compared with; a final transcription forgets the partials.
    pub fn record_translation(
        &mut self,
        original: &str,
        is_final: bool,
        timestamp_ns: u64,
        translated: Option<String>,
    ) -> (r: Option<CaptionEvent>)
        ensures
            match translated {
                Some(t) => (r matches Some(e) && e@ == (CaptionEventView {
                    timestamp_ns,
                    original: original@,
                    translated: Some(t@),
                    is_final,
                })),
                None => r.is_none(),
            },
            final(self)@.last_tts_text == old(self)@.last_tts_text,
            is_final ==> final(self)@.last_partial_original.len() == 0
                && final(self)@.last_partial_translation.len() == 0,
            !is_final && translated.is_some() ==> final(self)@.last_partial_original == original@
                && final(self)@.last_partial_translation == translated.unwrap()@,
            !is_final && translated.is_none() ==> final(self)@.last_partial_original == old(
                self,
            )@.last_partial_original && final(self)@.last_partial_translation == old(
                self,
            )@.last_partial_translation,
            final(self)@ == recorded(
                old(self)@,
                original@,
                is_final,
                match translated {
                    Some(t) => Some(t@),
                    None => None,
                },
            ),
    {
        let event = match translated {
            Some(t) => {
                if !is_final {
                    self.last_partial_original = String::from_str(original);
                    self.last_partial_translation = String::from_str(t.as_str());
                }
                Some(
                    CaptionEvent {
                        timestamp_ns,
                        original: String::from_str(original),
                        translated: Some(t),
                        is_final,
                    },
                )
            },
            None => None,
        };
        if is_final {
            self.last_partial_original = String::new();
            self.last_partial_translation = String::new();
        }
        event
    }

    /// Whether to speak `candidate` at the end of a final transcription: some
    /// engine is configured, the text is not blank, and its trimmed text
    /// differs from the last text spoken.
    pub fn should_synthesize(&self, has_tts: bool, candidate: &str) -> (r: bool)
        ensures
            r == (has_tts && trim(candidate@).len() != 0 && trim(candidate@) != trim(
                self@.last_tts_text,
            )),
    {
        if !has_tts || is_blank(candidate) {
            return false;
        }
        let a = trim_str(candidate);
        let b = trim_str(self.last_tts_text.as_str());
        !str_eq(a.as_str(), b.as_str())
    }

    /// The engine to speak `candidate` with: only for a final transcription,
    /// and only when [`should_synthesize`](Self::should_synthesize) holds with
    /// the engines configured; it is then the preferred one.
    pub fn speech_engine(
        &self,
        is_final: bool,
        minimax: bool,
        elevenlabs: bool,
        cosyvoice: bool,
        sherpa: bool,
        candidate: &str,
    ) -> (r: Option<TtsEngine>)
        ensures
            r == spoken_engine(self@, is_final, minimax, elevenlabs, cosyvoice, sherpa, candidate@),
            !is_final ==> r.is_none(),
    {
        if !is_final {
            return None;
        }
        let engine = choose_tts_engine(minimax, elevenlabs, cosyvoice, sherpa);
        if self.should_synthesize(engine.is_some(), candidate) {
            engine
        } else {
            None
        }
    }

    /// Closes a transcription. After a final one, the text spoken is
    /// remembered and then the memory of spoken text is reset for the next
    /// utterance; a partial one leaves the memory as it is.
    pub fn finish_job(&mut self, is_final: bool, candidate: &str, spoken: bool)
        ensures
            is_final ==> final(self)@.last_tts_text.len() == 0,
            !is_final ==> final(self)@.last_tts_text == old(self)@.last_tts_text,
            final(self)@ == finished(old(self)@, is_final),
            final(self)@.last_partial_original == old(self)@.last_partial_original,
            final(self)@.last_partial_translation == old(self)@.last_partial_translation,
    {
        if !is_final {
            return;
        }
        if spoken {
            self.last_tts_text = String::from_str(candidate);
        }
        self.last_tts_text = String::new();
    }
}

/// The text to speak for a final transcription: its translation when there is
/// one, else the transcription itself.
pub fn tts_candidate(original: &str, translated: &Option<String>) -> (r: String)
    ensures
        r@ == match translated {
            Some(t) => t@,
            None => original@,
        },
{
    match translated {
        Some(t) => String::from_str(t.as_str()),
        None => String::from_str(original),
    }
}

/// The latency, in whole milliseconds and at least 1, from `start_ns` to
/// `now_ns` (0 elapsed when the clock went back).
pub open spec fn latency_ms(now_ns: u64, start_ns: u64) -> u64 {
    let elapsed: int = if now_ns >= start_ns {
        now_ns - start_ns
    } else {
        0
    };
    let ms = elapsed / 1_000_000;
    if ms < 1 {
        1
    } else {
        ms as u64
    }
}

fn latency_ms_exec(now_ns: u64, start_ns: u64) -> (r: u64)
    ensures
        r == latency_ms(now_ns, start_ns),
{
    let ms = now_ns.saturating_sub(start_ns) / 1_000_000;
    if ms < 1 {
        1
    } else {
        ms
    }
}

/// The latency the pipeline reports when speech is first detected (one VAD
/// window of 512 samples at 16 kHz).
pub const VAD_START_LATENCY_MS: u64 = 32;

/// Latencies to record after a caption event was taken in.
#[derive(Clone, Copy, Debug)]
pub struct EventLatencies {
    pub asr_first_partial_ms: Option<u64>,
    pub asr_final_ms: Option<u64>,
    pub mt_first_output_ms: Option<u64>,
}

/// Latencies to record after a chunk of synthesized audio was taken in.
#[derive(Clone, Copy, Debug)]
pub struct AudioLatencies {
    pub tts_first_audio_ms: Option<u64>,
    pub end_to_end_first_audio_ms: Option<u64>,
}

/// What the host does after a block of 16 kHz mono audio was taken in.
#[derive(Debug)]
pub struct AudioStep<T> {
    /// The window of the current utterance to send for a partial transcription
    /// (the worker is then busy).
    pub partial: Option<Vec<T>>,
    /// The speech-start latency to record, when an utterance just began.
    pub vad_start_latency_ms: Option<u64>,
}

/// Utterance tracking and event queues of the caption pipeline; `T` is the
/// sample type and `A` the type of a synthesized audio chunk.
#[derive(Debug)]
pub struct CaptionPipeline<T, A> {
    utterance_buffer: Vec<T>,
    last_partial_at_ns: Option<u64>,
    partial_interval_ms: u64,
    max_partial_samples: usize,
    overlap_tail_samples: usize,
    skip_partial_if_busy: bool,
    speech_started_at_ns: Option<u64>,
    speech_ended_at_ns: Option<u64>,
    first_partial_recorded: bool,
    first_tts_recorded: bool,
    end_to_end_recorded: bool,
    pending: VecDeque<String>,
    pending_audio: VecDeque<A>,
    last_event_at_ns: u64,
    last_emitted_text: Option<String>,
}

/// The contents of a [`CaptionPipeline`].
#[verifier::ext_equal]
pub struct PipelineView<T, A> {
    pub utterance: Seq<T>,
    pub last_partial_at_ns: Option<u64>,
    pub partial_interval_ms: u64,
    pub max_partial_samples: usize,
    pub overlap_tail_samples: usize,
    pub skip_partial_if_busy: bool,
    pub speech_started_at_ns: Option<u64>,
    pub speech_ended_at_ns: Option<u64>,
    pub first_partial_recorded: bool,
    pub first_tts_recorded: bool,
    pub end_to_end_recorded: bool,
    pub pending: Seq<Seq<char>>,
    pub pending_audio: Seq<A>,
    pub last_event_at_ns: u64,
    pub last_emitted_text: Option<Seq<char>>,
}

impl<T, A> View for CaptionPipeline<T, A> {
    type V = PipelineView<T, A>;

    closed spec fn view(&self) -> PipelineView<T, A> {
        PipelineView {
            utterance: self.utterance_buffer@,
            last_partial_at_ns: self.last_partial_at_ns,
            partial_interval_ms: self.partial_interval_ms,
            max_partial_samples: self.max_partial_samples,
            overlap_tail_samples: self.overlap_tail_samples,
            skip_partial_if_busy: self.skip_partial_if_busy,
            speech_started_at_ns: self.speech_started_at_ns,
            speech_ended_at_ns: self.speech_ended_at_ns,
            first_partial_recorded: self.first_partial_recorded,
            first_tts_recorded: self.first_tts_recorded,
            end_to_end_recorded: self.end_to_end_recorded,
            pending: self.pending@.map_values(|e: String| e@),
            pending_audio: self.pending_audio@,
            last_event_at_ns: self.last_event_at_ns,
            last_emitted_text: match self.last_emitted_text {
                Some(t) => Some(t@),
                None => None,
            },
        }
    }
}

/// Whether a partial is due at `now_ns` (monotonic clock): none was sent in
/// this utterance yet, or the partial interval has passed since the last.
pub open spec fn partial_due<T, A>(v: PipelineView<T, A>, now_ns: u64) -> bool {
    match v.last_partial_at_ns {
        None => true,
        Some(t) => (if now_ns >= t {
            now_ns - t
        } else {
            0
        }) >= v.partial_interval_ms * 1_000_000,
    }
}

/// The window sent for a partial: the last `max_partial_samples` samples of
/// the utterance (all of it when shorter).
pub open spec fn partial_window<T>(utterance: Seq<T>, max_partial_samples: usize) -> Seq<T> {
    let n = if utterance.len() < max_partial_samples {
        utterance.len() as int
    } else {
        max_partial_samples as int
    };
    utterance.subrange(utterance.len() - n, utterance.len() as int)
}

/// What is kept of a finished utterance: its last `overlap_tail_samples`
/// samples when it is longer than that, else nothing.
pub open spec fn utterance_tail<T>(utterance: Seq<T>, overlap_tail_samples: usize) -> Seq<T> {
    if utterance.len() > overlap_tail_samples {
        utterance.subrange(utterance.len() - overlap_tail_samples, utterance.len() as int)
    } else {
        Seq::empty()
    }
}

/// The state after a non-empty block of audio; `speech_active` is the voice
/// detector's verdict after the block, `worker_busy` tells whether the
/// recogniser is still working on an earlier partial.
pub open spec fn pushed_audio<T, A>(
    v: PipelineView<T, A>,
    block: Seq<T>,
    speech_active: bool,
    now_ns: u64,
    timestamp_ns: u64,
) -> PipelineView<T, A> {
    // Speech: the block joins the utterance, and a due partial restarts the interval.
    let grown = if speech_active {
        v.utterance + block
    } else {
        v.utterance
    };
    let due = speech_active && partial_due(v, now_ns);
    let v1 = PipelineView {
        utterance: grown,
        last_partial_at_ns: if due {
            Some(now_ns)
        } else {
            v.last_partial_at_ns
        },
        ..v
    };
    // Silence after speech: keep the overlap tail and note when speech ended.
    let v2 = if !speech_active && grown.len() > 0 {
        PipelineView {
            utterance: utterance_tail(grown, v.overlap_tail_samples),
            last_partial_at_ns: None,
            speech_ended_at_ns: Some(timestamp_ns),
            ..v1
        }
    } else {
        v1
    };
    // A new utterance: reset the per-utterance latency tracking.
    if speech_active && v.speech_started_at_ns.is_none() {
        PipelineView {
            first_partial_recorded: false,
            first_tts_recorded: false,
            end_to_end_recorded: false,
            speech_started_at_ns: Some(timestamp_ns),
            speech_ended_at_ns: None,
            ..v2
        }
    } else {
        v2
    }
}

/// The partial window sent for a block: when a partial is due and may be sent
/// (the worker is free, or partials are not skipped while it is busy).
pub open spec fn pushed_partial<T, A>(
    v: PipelineView<T, A>,
    block: Seq<T>,
    speech_active: bool,
    worker_busy: bool,
    now_ns: u64,
) -> Option<Seq<T>> {
    if speech_active && partial_due(v, now_ns) && (!v.skip_partial_if_busy || !worker_busy) {
        Some(partial_window(v.utterance + block, v.max_partial_samples))
    } else {
        None
    }
}

/// The state after a caption event was taken in at `now_ns`.
pub open spec fn accepted_event<T, A>(
    v: PipelineView<T, A>,
    e: CaptionEventView,
    now_ns: u64,
    has_metrics: bool,
) -> PipelineView<T, A> {
    let v0 = PipelineView {
        last_event_at_ns: if e.timestamp_ns > v.last_event_at_ns {
            e.timestamp_ns
        } else {
            v.last_event_at_ns
        },
        ..v
    };
    if is_duplicate_final(v, e) {
        v0
    } else {
        PipelineView {
            last_emitted_text: Some(e.original),
            first_partial_recorded: v.first_partial_recorded || (has_metrics && !e.is_final
                && v.speech_started_at_ns.is_some()),
            pending: v.pending.push(caption_json(e)),
            ..v0
        }
    }
}

/// A final caption that repeats the last caption shown and brings no
/// translation is dropped.
pub open spec fn is_duplicate_final<T, A>(v: PipelineView<T, A>, e: CaptionEventView) -> bool {
    e.is_final && v.last_emitted_text == Some(e.original) && e.translated.is_none()
}

/// The latencies reported for a caption event taken in at `now_ns`.
pub open spec fn event_latencies<T, A>(
    v: PipelineView<T, A>,
    e: CaptionEventView,
    now_ns: u64,
    has_metrics: bool,
) -> EventLatencies {
    if is_duplicate_final(v, e) || !has_metrics {
        EventLatencies { asr_first_partial_ms: None, asr_final_ms: None, mt_first_output_ms: None }
    } else {
        EventLatencies {
            asr_first_partial_ms: if !e.is_final && !v.first_partial_recorded {
                match v.speech_started_at_ns {
                    Some(s) => Some(latency_ms(now_ns, s)),
                    None => None,
                }
            } else {
                None
            },
            asr_final_ms: if e.is_final {
                match v.speech_started_at_ns {
                    Some(s) => Some(latency_ms(now_ns, s)),
                    None => None,
                }
            } else {
                None
            },
            mt_first_output_ms: if e.is_final && e.translated.is_some() {
                match v.speech_ended_at_ns {
                    Some(t) => Some(latency_ms(now_ns, t)),
                    None => None,
                }
            } else {
                None
            },
        }
    }
}

/// The latencies reported for a chunk of synthesized audio taken in at `now_ns`.
pub open spec fn audio_latencies<T, A>(v: PipelineView<T, A>, now_ns: u64, has_metrics: bool) -> AudioLatencies {
    AudioLatencies {
        tts_first_audio_ms: if has_metrics && !v.first_tts_recorded {
            match v.speech_ended_at_ns {
                Some(t) => Some(latency_ms(now_ns, t)),
                None => None,
            }
        } else {
            None
        },
        end_to_end_first_audio_ms: if has_metrics && !v.end_to_end_recorded {
            match v.speech_started_at_ns {
                Some(s) => Some(latency_ms(now_ns, s)),
                None => None,
            }
        } else {
            None
        },
    }
}

impl<T: Copy, A> CaptionPipeline<T, A> {
    /// A pipeline with nothing heard yet. `partial_interval_ms` spaces the
    /// partial transcriptions, `max_partial_samples` bounds their window, and
    /// `overlap_tail_samples` of a finished utterance are kept for the next.
    pub fn new(
        partial_interval_ms: u64,
        max_partial_samples: usize,
        overlap_tail_samples: usize,
        skip_partial_if_busy: bool,
    ) -> (r: Self)
        ensures
            r@ == (PipelineView::<T, A> {
                utterance: Seq::empty(),
                last_partial_at_ns: None,
                partial_interval_ms,
                max_partial_samples,
                overlap_tail_samples,
                skip_partial_if_busy,
                speech_started_at_ns: None,
                speech_ended_at_ns: None,
                first_partial_recorded: false,
                first_tts_recorded: false,
                end_to_end_recorded: false,
                pending: Seq::empty(),
                pending_audio: Seq::empty(),
                last_event_at_ns: 0,
                last_emitted_text: None,
            }),
    {
        let r = CaptionPipeline {
            utterance_buffer: Vec::new(),
            last_partial_at_ns: None,
            partial_interval_ms,
            max_partial_samples,
            overlap_tail_samples,
            skip_partial_if_busy,
            speech_started_at_ns: None,
            speech_ended_at_ns: None,
            first_partial_recorded: false,
            first_tts_recorded: false,
            end_to_end_recorded: false,
            pending: VecDeque::new(),
            pending_audio: VecDeque::new(),
            last_event_at_ns: 0,
            last_emitted_text: None,
        };
        assert(r@.pending =~= Seq::<Seq<char>>::empty());
        r
    }

    /// Takes in a block of 16 kHz mono audio (nothing happens for an empty
    /// block). `speech_active` is the voice detector's verdict after the
    /// block, `worker_busy` whether the recogniser is still on an earlier
    /// partial, `now_ns` a monotonic clock and `timestamp_ns` the block's
    /// capture time; `has_metrics` tells whether latencies are recorded.
    pub fn push_audio(
        &mut self,
        block: &[T],
        speech_active: bool,
        worker_busy: bool,
        now_ns: u64,
        timestamp_ns: u64,
        has_metrics: bool,
    ) -> (r: AudioStep<T>)
        ensures
            block@.len() == 0 ==> final(self)@ == old(self)@ && r.partial.is_none()
                && r.vad_start_latency_ms.is_none(),
            block@.len() > 0 ==> final(self)@ == pushed_audio(
                old(self)@,
                block@,
                speech_active,
                now_ns,
                timestamp_ns,
            ),
            block@.len() > 0 ==> match r.partial {
                Some(w) => pushed_partial(old(self)@, block@, speech_active, worker_busy, now_ns)
                    == Some(w@),
                None => pushed_partial(old(self)@, block@, speech_active, worker_busy, now_ns)
                    is None,
            },
            block@.len() > 0 ==> r.vad_start_latency_ms == (if speech_active
                && old(self)@.speech_started_at_ns.is_none() && has_metrics {
                Some(VAD_START_LATENCY_MS)
            } else {
                None
            }),
    {
        let ghost v = self@;
        if block.len() == 0 {
            return AudioStep { partial: None, vad_start_latency_ms: None };
        }
        let mut partial: Option<Vec<T>> = None;
        if speech_active {
            append_all(&mut self.utterance_buffer, block);
            let due = match self.last_partial_at_ns {
                None => true,
                Some(t) => {
                    let elapsed = now_ns.saturating_sub(t);
                    proof {
                        lemma_interval_elapsed(elapsed, self.partial_interval_ms);
                    }
                    elapsed / 1_000_000 >= self.partial_interval_ms
                },
            };
            if due {
                let len = self.utterance_buffer.len();
                let n = if len < self.max_partial_samples {
                    len
                } else {
                    self.max_partial_samples
                };
                if !self.skip_partial_if_busy || !worker_busy {
                    let w = copy_tail(&self.utterance_buffer, n);
                    partial = Some(w);
                }
                self.last_partial_at_ns = Some(now_ns);
            }
        }
        if !speech_active && self.utterance_buffer.len() > 0 {
            let len = self.utterance_buffer.len();
            if len > self.overlap_tail_samples {
                let tail = copy_tail(&self.utterance_buffer, self.overlap_tail_samples);
                self.utterance_buffer = tail;
            } else {
                self.utterance_buffer = Vec::new();
            }
            self.last_partial_at_ns = None;
            self.speech_ended_at_ns = Some(timestamp_ns);
        }
        let mut vad_start_latency_ms: Option<u64> = None;
        if speech_active && self.speech_started_at_ns.is_none() {
            self.first_partial_recorded = false;
            self.first_tts_recorded = false;
            self.end_to_end_recorded = false;
            self.speech_ended_at_ns = None;
            self.speech_started_at_ns = Some(timestamp_ns);
            if has_metrics {
                vad_start_latency_ms = Some(VAD_START_LATENCY_MS);
            }
        }
        assert(self@ =~= pushed_audio(v, block@, speech_active, now_ns, timestamp_ns));
        AudioStep { partial, vad_start_latency_ms }
    }

    /// Ends the current utterance at session stop: its samples are dropped
    /// and the partial interval restarts.
    pub fn flush(&mut self)
        ensures
            final(self)@ == (PipelineView {
                utterance: Seq::empty(),
                last_partial_at_ns: None,
                ..old(self)@
            }),
    {
        self.utterance_buffer = Vec::new();
        self.last_partial_at_ns = None;
        assert(self@ =~= (PipelineView { utterance: Seq::empty(), last_partial_at_ns: None, ..old(self)@ }));
    }

    /// Takes in a caption event from the workers at `now_ns` (wall clock):
    /// a final caption repeating the last one without a translation is
    /// dropped; any other is queued as JSON and becomes the last caption shown.
    pub fn accept_event(&mut self, event: CaptionEvent, now_ns: u64, has_metrics: bool) -> (r:
        EventLatencies)
        ensures
            final(self)@ == accepted_event(old(self)@, event@, now_ns, has_metrics),
            r == event_latencies(old(self)@, event@, now_ns, has_metrics),
    {
        let ghost v = self@;
        if event.timestamp_ns > self.last_event_at_ns {
            self.last_event_at_ns = event.timestamp_ns;
        }
        let duplicate = event.is_final && event.translated.is_none() && match &self.last_emitted_text {
            Some(last) => str_eq(last.as_str(), event.original.as_str()),
            None => false,
        };
        let mut lat = EventLatencies {
            asr_first_partial_ms: None,
            asr_final_ms: None,
            mt_first_output_ms: None,
        };
        if duplicate {
            assert(self@ =~= accepted_event(v, event@, now_ns, has_metrics));
            return lat;
        }
        self.last_emitted_text = Some(String::from_str(event.original.as_str()));
        if has_metrics {
            if !event.is_final && !self.first_partial_recorded {
                if let Some(start) = self.speech_started_at_ns {
                    lat.asr_first_partial_ms = Some(latency_ms_exec(now_ns, start));
                    self.first_partial_recorded = true;
                }
            }
            if event.is_final {
                if let Some(start) = self.speech_started_at_ns {
                    lat.asr_final_ms = Some(latency_ms_exec(now_ns, start));
                }
                if event.translated.is_some() {
                    if let Some(end) = self.speech_ended_at_ns {
                        lat.mt_first_output_ms = Some(latency_ms_exec(now_ns, end));
                    }
                }
            }
        }
        let json = event.to_json();
        self.pending.push_back(json);
        assert(self.pending@.map_values(|e: String| e@) =~= v.pending.push(caption_json(event@)));
        assert(self@ =~= accepted_event(v, event@, now_ns, has_metrics));
        lat
    }

    /// Takes in a chunk of synthesized audio at `now_ns` (wall clock) and
    /// queues it; the first chunk of an utterance reports its latencies.
    pub fn accept_audio(&mut self, chunk: A, now_ns: u64, has_metrics: bool) -> (r: AudioLatencies)
        ensures
            final(self)@ == (PipelineView {
                pending_audio: old(self)@.pending_audio.push(chunk),
                first_tts_recorded: old(self)@.first_tts_recorded || has_metrics,
                end_to_end_recorded: old(self)@.end_to_end_recorded || has_metrics,
                ..old(self)@
            }),
            r == audio_latencies(old(self)@, now_ns, has_metrics),
    {
        let ghost v = self@;
        let mut lat = AudioLatencies { tts_first_audio_ms: None, end_to_end_first_audio_ms: None };
        if has_metrics {
            if !self.first_tts_recorded {
                if let Some(end) = self.speech_ended_at_ns {
                    lat.tts_first_audio_ms = Some(latency_ms_exec(now_ns, end));
                }
                self.first_tts_recorded = true;
            }
            if !self.end_to_end_recorded {
                if let Some(start) = self.speech_started_at_ns {
                    lat.end_to_end_first_audio_ms = Some(latency_ms_exec(now_ns, start));
                }
                self.end_to_end_recorded = true;
            }
        }
        self.pending_audio.push_back(chunk);
        assert(self@ =~= (PipelineView {
            pending_audio: v.pending_audio.push(chunk),
            first_tts_recorded: v.first_tts_recorded || has_metrics,
            end_to_end_recorded: v.end_to_end_recorded || has_metrics,
            ..v
        }));
        lat
    }

    /// The oldest queued caption JSON, removed from the queue.
    pub fn take_next_event(&mut self) -> (r: Option<String>)
        ensures
            old(self)@.pending.len() == 0 ==> r.is_none() && final(self)@ == old(self)@,
            old(self)@.pending.len() > 0 ==> (r matches Some(e) && e@ == old(self)@.pending[0])
                && final(self)@ == (PipelineView { pending: old(self)@.pending.drop_first(), ..old(self)@ }),
    {
        let ghost v = self@;
        let r = self.pending.pop_front();
        proof {
            if v.pending.len() > 0 {
                assert(self.pending@.map_values(|e: String| e@) =~= v.pending.drop_first());
            }
        }
        assert(v.pending.len() > 0 ==> self@ =~= (PipelineView { pending: v.pending.drop_first(), ..v }));
        assert(v.pending.len() == 0 ==> self@ =~= v);
        r
    }

    /// The oldest queued chunk of synthesized audio, removed from the queue.
    pub fn take_next_audio(&mut self) -> (r: Option<A>)
        ensures
            old(self)@.pending_audio.len() == 0 ==> r.is_none() && final(self)@ == old(self)@,
            old(self)@.pending_audio.len() > 0 ==> r == Some(old(self)@.pending_audio[0])
                && final(self)@ == (PipelineView {
                    pending_audio: old(self)@.pending_audio.drop_first(),
                    ..old(self)@
                }),
    {
        let ghost v = self@;
        let r = self.pending_audio.pop_front();
        assert(v.pending_audio.len() > 0 ==> self@ =~= (PipelineView {
            pending_audio: v.pending_audio.drop_first(),
            ..v
        }));
        assert(v.pending_audio.len() == 0 ==> self@ =~= v);
        r
    }

    /// Whether captions or synthesized audio are waiting.
    pub fn has_pending_events(&self) -> (r: bool)
        ensures
            r == (self@.pending.len() > 0 || self@.pending_audio.len() > 0),
    {
        self.pending.len() > 0 || self.pending_audio.len() > 0
    }

    /// The latest caption timestamp taken in so far.
    pub fn last_event_at_ns(&self) -> (r: u64)
        ensures
            r == self@.last_event_at_ns,
    {
        self.last_event_at_ns
    }
}

/// Appends every element of `block` to `buf`.
fn append_all<T: Copy>(buf: &mut Vec<T>, block: &[T])
    ensures
        final(buf)@ == old(buf)@ + block@,
{
    let mut i: usize = 0;
    let ghost u0 = buf@;
    while i < block.len()
        invariant
            i <= block.len(),
            buf@ == u0 + block@.take(i as int),
        decreases block.len() - i,
    {
        buf.push(block[i]);
        assert(u0 + block@.take(i + 1) =~= (u0 + block@.take(i as int)).push(block@[i as int]));
        i += 1;
    }
    assert(block@.take(block.len() as int) =~= block@);
}

/// The last `n` elements of `v`.
fn copy_tail<T: Copy>(v: &Vec<T>, n: usize) -> (r: Vec<T>)
    requires
        n <= v@.len(),
    ensures
        r@ == v@.subrange(v@.len() - n, v@.len() as int),
{
    let len = v.len();
    let mut r: Vec<T> = Vec::new();
    let mut k: usize = len - n;
    while k < len
        invariant
            n <= len,
            len - n <= k <= len,
            len == v@.len(),
            r@ == v@.subrange(len - n, k as int),
        decreases len - k,
    {
        r.push(v[k]);
        assert(v@.subrange(len - n, k as int).push(v@[k as int]) =~= v@.subrange(len - n, k + 1));
        k += 1;
    }
    r
}

proof fn lemma_interval_elapsed(elapsed: u64, interval_ms: u64)
    ensures
        (elapsed / 1_000_000 >= interval_ms) == (elapsed >= interval_ms * 1_000_000),
{
    assert((elapsed / 1_000_000 >= interval_ms) == (elapsed >= interval_ms * 1_000_000))
        by (nonlinear_arith);
}

/// The local recognition settings a caption pipeline needs: enabled, with a
/// model directory and a voice-detector model (checked in that order).
pub fn check_stt_config(stt: &LocalSttConfig) -> (r: Result<(), EngineError>)
    ensures
        !stt.enabled ==> (r matches Err(e) && e.spec_message() == "local STT is not enabled"@),
        stt.enabled && stt.model_dir@.len() == 0 ==> (r matches Err(e) && e.spec_message()
            == "local_stt.model_dir is empty"@),
        stt.enabled && stt.model_dir@.len() != 0 && stt.vad_model_path@.len() == 0 ==> (r matches Err(e)
            && e.spec_message() == "local_stt.vad_model_path is empty"@),
        stt.enabled && stt.model_dir@.len() != 0 && stt.vad_model_path@.len() != 0 ==> r is Ok,
{
    if !stt.enabled {
        return Err(EngineError::from_text("local STT is not enabled"));
    }
    if stt.model_dir.as_str().is_empty() {
        return Err(EngineError::from_text("local_stt.model_dir is empty"));
    }
    if stt.vad_model_path.as_str().is_empty() {
        return Err(EngineError::from_text("local_stt.vad_model_path is empty"));
    }
    Ok(())
}

/// The translation side of a caption pipeline.
#[derive(Debug)]
pub struct TranslationPlan {
    /// The remote translator, when enabled.
    pub mt_client: Option<MtClient>,
    /// The remote translator's target language (empty without settings).
    pub target_lang: String,
    /// The offline translator's target language.
    pub local_mt_target_lang: String,
}

/// The remote translator's API key: the configured one, else the value of
/// the environment variable it names (`env_api_key`), else empty.
pub open spec fn mt_api_key(cfg: MtConfig, env_api_key: Option<&str>) -> Seq<char> {
    if cfg.api_key@.len() == 0 {
        match env_api_key {
            Some(k) => k@,
            None => Seq::empty(),
        }
    } else {
        cfg.api_key@
    }
}

/// Sets up translation: an enabled remote translator needs an API key (else
/// an error naming its variable) and valid client settings (else the
/// client's error); the target language is the remote settings' (empty
/// without them), and the offline translator's is its own when enabled, else
/// the same.
pub fn plan_translation(
    mt: Option<&MtConfig>,
    local_mt: Option<&LocalMtConfig>,
    env_mt_api_key: Option<&str>,
) -> (r: Result<TranslationPlan, EngineError>)
    ensures
        match mt {
            Some(cfg) if cfg.enabled => if mt_api_key(*cfg, env_mt_api_key).len() == 0 {
                r matches Err(e) && e.spec_message() == "MT enabled but no API key (env "@ + cfg.api_key_env@
                    + " unset)"@
            } else {
                let key = mt_api_key(*cfg, env_mt_api_key);
                let valid = trim(key).len() != 0 && trim(cfg.endpoint@).len() != 0 && trim(cfg.model@).len() != 0;
                if valid {
                    r matches Ok(p) && (p.mt_client matches Some(c) && c.spec_config().api_key@ == key
                        && c.spec_config().endpoint@ == cfg.endpoint@ && c.spec_config().model@ == cfg.model@)
                } else {
                    r matches Err(e) && e.spec_message() == "MT client init: "@ + "config error: "@ + (if trim(key).len() == 0 {
                        "api_key is empty"@
                    } else if trim(cfg.endpoint@).len() == 0 {
                        "endpoint is empty"@
                    } else {
                        "model is empty"@
                    })
                }
            },
            _ => r matches Ok(p) && p.mt_client.is_none(),
        },
        r matches Ok(p) ==> p.target_lang@ == match mt {
            Some(cfg) => cfg.target_language@,
            None => Seq::empty(),
        } && p.local_mt_target_lang@ == match local_mt {
            Some(l) if l.enabled => l.target_lang@,
            _ => p.target_lang@,
        },
{
    let mt_client = match mt {
        Some(cfg) if cfg.enabled => {
            let key = if cfg.api_key.as_str().is_empty() {
                match env_mt_api_key {
                    Some(k) => String::from_str(k),
                    None => String::new(),
                }
            } else {
                String::from_str(cfg.api_key.as_str())
            };
            if key.as_str().is_empty() {
                let mut m = String::from_str("MT enabled but no API key (env ");
                m.append(cfg.api_key_env.as_str());
                m.append(" unset)");
                return Err(EngineError::new(m));
            }
            let client_cfg = MtClientConfig::new(key.as_str()).with_endpoint(cfg.endpoint.as_str()).with_model(
                cfg.model.as_str(),
            );
            match MtClient::new(client_cfg) {
                Ok(c) => Some(c),
                Err(e) => {
                    let mut m = String::from_str("MT client init: ");
                    let t = e.display_text();
                    m.append(t.as_str());
                    return Err(EngineError::new(m));
                },
            }
        },
        _ => None,
    };
    let target_lang = match mt {
        Some(cfg) => String::from_str(cfg.target_language.as_str()),
        None => String::new(),
    };
    let local_mt_target_lang = match local_mt {
        Some(l) if l.enabled => String::from_str(l.target_lang.as_str()),
        _ => String::from_str(target_lang.as_str()),
    };
    Ok(TranslationPlan { mt_client, target_lang, local_mt_target_lang })
}

/// The CosyVoice client for enabled settings (its setup may fail; the
/// pipeline then runs without it).
pub fn cosyvoice_client(cfg: Option<&CosyVoiceTtsConfig>) -> (r: Option<Result<CosyVoiceClient, CosyVoiceError>>)
    ensures
        match cfg {
            Some(c) if c.enabled => r matches Some(x) && match x {
                Ok(client) => client.spec_config().endpoint@ == c.endpoint@ && client.spec_config().prompt_wav_path@
                    == c.prompt_wav_path@ && client.spec_config().prompt_text@ == c.prompt_text@,
                Err(CosyVoiceError::Config(m)) => (trim(c.endpoint@).len() == 0 && m@ == "endpoint is empty"@)
                    || (trim(c.endpoint@).len() != 0 && c.prompt_wav_path@.len() == 0 && m@
                    == "prompt_wav_path is empty"@),
                Err(_) => false,
            },
            _ => r is None,
        },
{
    match cfg {
        Some(c) if c.enabled => Some(
            CosyVoiceClient::new(
                CosyVoiceConfig {
                    endpoint: String::from_str(c.endpoint.as_str()),
                    prompt_wav_path: String::from_str(c.prompt_wav_path.as_str()),
                    prompt_text: String::from_str(c.prompt_text.as_str()),
                },
            ),
        ),
        _ => None,
    }
}

/// A configured text, else the environment's value, else empty.
pub open spec fn configured_or_env(configured: Seq<char>, env: Option<&str>) -> Seq<char> {
    if configured.len() == 0 {
        match env {
            Some(v) => v@,
            None => Seq::empty(),
        }
    } else {
        configured
    }
}

fn configured_or_env_exec(configured: &str, env: Option<&str>) -> (r: String)
    ensures
        r@ == configured_or_env(configured@, env),
{
    if configured.is_empty() {
        match env {
            Some(v) => String::from_str(v),
            None => String::new(),
        }
    } else {
        String::from_str(configured)
    }
}

/// The ElevenLabs client for enabled settings; the key and voice fall back
/// to `ELEVENLABS_API_KEY` and `ELEVENLABS_VOICE_ID` (`env_api_key`,
/// `env_voice_id`). Its setup may fail; the pipeline then runs without it.
pub fn elevenlabs_client(
    cfg: Option<&ElevenLabsTtsConfig>,
    env_api_key: Option<&str>,
    env_voice_id: Option<&str>,
) -> (r: Option<Result<ElevenLabsTtsClient, ElevenLabsTtsError>>)
    ensures
        match cfg {
            Some(c) if c.enabled => r matches Some(x) && ({
                let key = configured_or_env(c.api_key@, env_api_key);
                let voice = configured_or_env(c.voice_id@, env_voice_id);
                match x {
                    Ok(client) => client.spec_config().enabled && client.spec_config().api_key@ == key
                        && client.spec_config().voice_id@ == voice && client.spec_config().model_id@
                        == c.model_id@ && trim(key).len() != 0 && trim(voice).len() != 0,
                    Err(ElevenLabsTtsError::Config(m)) => (trim(key).len() == 0 && m@ == "api_key is empty"@)
                        || (trim(key).len() != 0 && trim(voice).len() == 0 && m@ == "voice_id is empty"@),
                    Err(_) => false,
                }
            }),
            _ => r is None,
        },
{
    match cfg {
        Some(c) if c.enabled => {
            let api_key = configured_or_env_exec(c.api_key.as_str(), env_api_key);
            let voice_id = configured_or_env_exec(c.voice_id.as_str(), env_voice_id);
            Some(
                ElevenLabsTtsClient::new(
                    ElevenLabsTtsConfig {
                        enabled: true,
                        api_key,
                        voice_id,
                        model_id: String::from_str(c.model_id.as_str()),
                    },
                ),
            )
        },
        _ => None,
    }
}

/// The MiniMax client for enabled settings; the key and voice fall back to
/// `MINIMAX_API_KEY` and `MINIMAX_VOICE_ID` (`env_api_key`, `env_voice_id`).
/// Its setup fails without a key; the pipeline then runs without it.
pub fn minimax_client(
    cfg: Option<&MiniMaxTtsConfig>,
    env_api_key: Option<&str>,
    env_voice_id: Option<&str>,
) -> (r: Option<Result<MiniMaxTtsClient, MiniMaxTtsError>>)
    ensures
        match cfg {
            Some(c) if c.enabled => r matches Some(x) && (x is Err <==> (c.api_key@.len() == 0
                && env_api_key.is_none())) && (x matches Ok(client) ==> client.spec_api_key()
                == configured_or_env(c.api_key@, env_api_key) && client.spec_voice_id() == (if c.voice_id@.len()
                == 0 {
                match env_voice_id {
                    Some(v) => v@,
                    None => MINIMAX_DEFAULT_VOICE_ID@,
                }
            } else {
                c.voice_id@
            }) && client.spec_api_host() == or_if_empty(c.api_host@, MINIMAX_DEFAULT_API_HOST@)
                && client.spec_model() == c.model@),
            _ => r is None,
        },
{
    match cfg {
        Some(c) if c.enabled => Some(MiniMaxTtsClient::new(c, env_api_key, env_voice_id)),
        _ => None,
    }
}

/// A final caption that repeats the one just queued, without a translation,
/// is not queued again: taking the same such event in twice queues it once.
pub proof fn lemma_duplicate_final_queued_once<T, A>(
    v: PipelineView<T, A>,
    e: CaptionEventView,
    now1: u64,
    now2: u64,
    has_metrics: bool,
)
    requires
        e.is_final,
        e.translated.is_none(),
    ensures
        accepted_event(accepted_event(v, e, now1, has_metrics), e, now2, has_metrics).pending
            == accepted_event(v, e, now1, has_metrics).pending,
        accepted_event(accepted_event(v, e, now1, has_metrics), e, now2, has_metrics).last_emitted_text
            == Some(e.original),
{
}

/// A caption carrying a translation is always queued, even when its text
/// repeats the last caption shown.
pub proof fn lemma_translated_caption_always_queued<T, A>(
    v: PipelineView<T, A>,
    e: CaptionEventView,
    now: u64,
    has_metrics: bool,
)
    requires
        e.translated.is_some(),
    ensures
        accepted_event(v, e, now, has_metrics).pending == v.pending.push(caption_json(e)),
{
}

/// A partial identical (once trimmed) to the last translated partial is
/// never sent to the translator again.
pub proof fn lemma_repeated_partial_not_retranslated(last_partial: Seq<char>, original: Seq<char>)
    requires
        trim(original) == trim(last_partial),
    ensures
        !should_translate(last_partial, original, false),
{
}

/// A partial transcription never sees more than `max_partial_samples`
/// samples, and they are the newest of the utterance.
pub proof fn lemma_partial_window_bounded<T, A>(
    v: PipelineView<T, A>,
    block: Seq<T>,
    speech_active: bool,
    worker_busy: bool,
    now_ns: u64,
)
    ensures
        pushed_partial(v, block, speech_active, worker_busy, now_ns) matches Some(w) ==> w.len()
            <= v.max_partial_samples && w =~= (v.utterance + block).skip(
            (v.utterance + block).len() - w.len(),
        ),
{
}

/// When speech stops, at most the overlap tail of the utterance is kept for
/// the next one.
pub proof fn lemma_silence_keeps_only_tail<T, A>(
    v: PipelineView<T, A>,
    block: Seq<T>,
    now_ns: u64,
    timestamp_ns: u64,
)
    ensures
        pushed_audio(v, block, false, now_ns, timestamp_ns).utterance.len() <= v.overlap_tail_samples,
{
}

/// One transcription as the post-processor handles it: its text, whether it
/// is final, its capture time, and the translation it ended up with
/// (translated, reused or none).
pub struct PostJobView {
    pub original: Seq<char>,
    pub is_final: bool,
    pub timestamp_ns: u64,
    pub translated: Option<Seq<char>>,
}

/// The configured speech engines.
pub struct EnginesView {
    pub minimax: bool,
    pub elevenlabs: bool,
    pub cosyvoice: bool,
    pub sherpa: bool,
}

/// The text offered for speech for a job: its translation, else its text.
pub open spec fn job_candidate(j: PostJobView) -> Seq<char> {
    match j.translated {
        Some(t) => t,
        None => j.original,
    }
}

/// The post-processor's memory after a stream of jobs, each recorded and
/// then closed.
pub open spec fn memory_after(p: PostProcessorView, jobs: Seq<PostJobView>) -> PostProcessorView
    decreases jobs.len(),
{
    if jobs.len() == 0 {
        p
    } else {
        let j = jobs.last();
        finished(recorded(memory_after(p, jobs.drop_last()), j.original, j.is_final, j.translated), j.is_final)
    }
}

/// The syntheses a stream of jobs asks for, in order: the job's index, the
/// engine, and the capture time the audio carries.
pub open spec fn stream_syntheses(p: PostProcessorView, jobs: Seq<PostJobView>, en: EnginesView) -> Seq<
    (int, TtsEngine, u64),
>
    decreases jobs.len(),
{
    if jobs.len() == 0 {
        Seq::empty()
    } else {
        let prefix = jobs.drop_last();
        let j = jobs.last();
        let mem = recorded(memory_after(p, prefix), j.original, j.is_final, j.translated);
        let before = stream_syntheses(p, prefix, en);
        match spoken_engine(mem, j.is_final, en.minimax, en.elevenlabs, en.cosyvoice, en.sherpa, job_candidate(j)) {
            Some(e) => before.push((jobs.len() - 1, e, j.timestamp_ns)),
            None => before,
        }
    }
}

/// Over any stream of jobs, speech is asked for only while handling a final
/// job, at most once per job and in job order, and the audio carries that
/// job's capture time.
pub proof fn lemma_speech_only_for_finals_once(p: PostProcessorView, jobs: Seq<PostJobView>, en: EnginesView)
    ensures
        forall|k: int| 0 <= k < stream_syntheses(p, jobs, en).len() ==> {
            let (i, _e, ts) = #[trigger] stream_syntheses(p, jobs, en)[k];
            &&& 0 <= i < jobs.len()
            &&& jobs[i].is_final
            &&& ts == jobs[i].timestamp_ns
        },
        forall|k1: int, k2: int| 0 <= k1 < k2 < stream_syntheses(p, jobs, en).len() ==> (
        #[trigger] stream_syntheses(p, jobs, en)[k1]).0 < (#[trigger] stream_syntheses(p, jobs, en)[k2]).0,
    decreases jobs.len(),
{
    if jobs.len() > 0 {
        let prefix = jobs.drop_last();
        lemma_speech_only_for_finals_once(p, prefix, en);
        let before = stream_syntheses(p, prefix, en);
        let all = stream_syntheses(p, jobs, en);
        assert forall|k: int| 0 <= k < before.len() implies prefix[before[k].0] == jobs[before[k].0] by {}
        assert forall|k: int| 0 <= k < all.len() implies {
            let (i, _e, ts) = #[trigger] all[k];
            &&& 0 <= i < jobs.len()
            &&& jobs[i].is_final
            &&& ts == jobs[i].timestamp_ns
        } by {
            if k < before.len() {
                assert(all[k] == before[k]);
                assert(prefix[before[k].0] == jobs[before[k].0]);
            }
        }
        assert forall|k1: int, k2: int| 0 <= k1 < k2 < all.len() implies (#[trigger] all[k1]).0 < (
        #[trigger] all[k2]).0 by {
            if k2 < before.len() {
                assert(all[k1] == before[k1]);
                assert(all[k2] == before[k2]);
            } else {
                assert(all[k1] == before[k1]);
            }
        }
    }
}

/// Every final transcription is translated, however short it is and
/// whatever partial came before it; a partial is translated only when it is
/// new (trimmed) and at least [`MIN_PARTIAL_LEN`] bytes long once trimmed.
pub proof fn lemma_finals_always_translated(last_partial: Seq<char>, original: Seq<char>)
    ensures
        should_translate(last_partial, original, true),
        should_translate(last_partial, original, false) ==> trim(original) != trim(last_partial)
            && encode_utf8(trim(original)).len() >= MIN_PARTIAL_LEN,
{
}

} // verus!
