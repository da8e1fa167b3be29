//! The catalogue of local speech-recognition models, the file layout each
//! backend expects, and the choice of backend for a model id.

use vstd::prelude::*;
use crate::config::{join_path, path_join};
use crate::text::{matches_at, chars_of, str_eq};

verus! {

/// The inference backend a model runs on.
#[derive(Clone, Copy, Debug, PartialEq, Eq, Structural)]
pub enum BackendKind {
    Paraformer,
    Moonshine,
    FireRedAsr,
    ZipformerCtc,
}

/// A failure of local speech recognition.
#[derive(Clone, Debug)]
pub enum SttError {
    Model(String),
    Audio(String),
    Backend(String),
    Io(String),
}

/// One downloadable file of a model.
#[derive(Clone, Copy, Debug)]
pub struct ModelFile {
    pub relative_path: &'static str,
    pub url: &'static str,
    pub size_bytes: u64,
}

/// A catalogued model.
#[derive(Clone, Debug)]
pub struct ModelInfo {
    pub id: &'static str,
    pub display_name: &'static str,
    pub description: &'static str,
    pub backend: BackendKind,
    pub total_size_bytes: u64,
    pub size_display: &'static str,
    pub files: Vec<ModelFile>,
    pub best_for_languages: Vec<&'static str>,
    pub recommendation_reason: &'static str,
}

/// The backend of each catalogued model id.
pub open spec fn spec_backend_of(id: Seq<char>) -> Option<BackendKind> {
    if id == "paraformer-zh"@ || id == "paraformer-trilingual"@ {
        Some(BackendKind::Paraformer)
    } else if id == "fire-red-asr-v1"@ {
        Some(BackendKind::FireRedAsr)
    } else if id == "moonshine-base-en"@ {
        Some(BackendKind::Moonshine)
    } else if id == "zipformer-ctc-zh"@ {
        Some(BackendKind::ZipformerCtc)
    } else {
        None
    }
}

/// The files each backend loads, relative to the model directory.
pub open spec fn spec_backend_files(b: BackendKind) -> Seq<Seq<char>> {
    match b {
        BackendKind::Paraformer => seq!["model.int8.onnx"@, "tokens.txt"@],
        BackendKind::Moonshine => seq![
            "preprocess.onnx"@,
            "encode.int8.onnx"@,
            "uncached_decode.int8.onnx"@,
            "cached_decode.int8.onnx"@,
            "tokens.txt"@,
        ],
        BackendKind::FireRedAsr => seq!["encoder.int8.onnx"@, "decoder.int8.onnx"@, "tokens.txt"@],
        BackendKind::ZipformerCtc => seq!["model.int8.onnx"@, "tokens.txt"@],
    }
}

/// The relative paths of a model's files.
pub open spec fn file_paths(files: Seq<ModelFile>) -> Seq<Seq<char>> {
    files.map_values(|f: ModelFile| f.relative_path@)
}

/// The contents of a [`ModelFile`].
pub struct ModelFileView {
    pub relative_path: Seq<char>,
    pub url: Seq<char>,
    pub size_bytes: u64,
}

impl View for ModelFile {
    type V = ModelFileView;

    open spec fn view(&self) -> ModelFileView {
        ModelFileView { relative_path: self.relative_path@, url: self.url@, size_bytes: self.size_bytes }
    }
}

/// The contents of a [`ModelInfo`].
#[verifier::ext_equal]
pub struct ModelView {
    pub id: Seq<char>,
    pub display_name: Seq<char>,
    pub description: Seq<char>,
    pub backend: BackendKind,
    pub total_size_bytes: u64,
    pub size_display: Seq<char>,
    pub files: Seq<ModelFileView>,
    pub best_for_languages: Seq<Seq<char>>,
    pub recommendation_reason: Seq<char>,
}

impl View for ModelInfo {
    type V = ModelView;

    open spec fn view(&self) -> ModelView {
        ModelView {
            id: self.id@,
            display_name: self.display_name@,
            description: self.description@,
            backend: self.backend,
            total_size_bytes: self.total_size_bytes,
            size_display: self.size_display@,
            files: self.files@.map_values(|f: ModelFile| f@),
            best_for_languages: self.best_for_languages@.map_values(|l: &'static str| l@),
            recommendation_reason: self.recommendation_reason@,
        }
    }
}

/// The sum of the sizes of `files`.
pub open spec fn files_total(files: Seq<ModelFileView>) -> int
    decreases files.len(),
{
    if files.len() == 0 {
        0
    } else {
        files_total(files.drop_last()) + files.last().size_bytes
    }
}

/// A catalogued file.
pub open spec fn spec_file(relative_path: Seq<char>, url: Seq<char>, size_bytes: u64) -> ModelFileView {
    ModelFileView { relative_path, url, size_bytes }
}

/// The Paraformer Chinese entry.
pub open spec fn spec_paraformer_zh() -> ModelView {
    ModelView {
        id: "paraformer-zh"@,
        display_name: "Paraformer Chinese"@,
        description: "Alibaba Paraformer, non-autoregressive, RTF<0.07. Chinese-only, fast."@,
        backend: BackendKind::Paraformer,
        total_size_bytes: 227_405_559,
        size_display: "217 MB"@,
        files: seq![
            spec_file("model.int8.onnx"@, "https://huggingface.co/csukuangfj/sherpa-onnx-paraformer-zh-2024-03-09/resolve/main/model.int8.onnx"@, 227_330_205),
            spec_file("tokens.txt"@, "https://huggingface.co/csukuangfj/sherpa-onnx-paraformer-zh-2024-03-09/resolve/main/tokens.txt"@, 75_354),
        ],
        best_for_languages: seq!["zh"@],
        recommendation_reason: "Chinese-only, very fast (RTF<0.07), high accuracy"@,
    }
}

/// The Paraformer trilingual entry.
pub open spec fn spec_paraformer_trilingual() -> ModelView {
    ModelView {
        id: "paraformer-trilingual"@,
        display_name: "Paraformer ZH/EN/Cantonese"@,
        description: "Alibaba Paraformer trilingual. Handles zh + en + yue mix."@,
        backend: BackendKind::Paraformer,
        total_size_bytes: 245_119_000,
        size_display: "234 MB"@,
        files: seq![
            spec_file("model.int8.onnx"@, "https://huggingface.co/csukuangfj/sherpa-onnx-paraformer-trilingual-zh-cantonese-en/resolve/main/model.int8.onnx"@, 245_000_000),
            spec_file("tokens.txt"@, "https://huggingface.co/csukuangfj/sherpa-onnx-paraformer-trilingual-zh-cantonese-en/resolve/main/tokens.txt"@, 119_000),
        ],
        best_for_languages: seq!["zh"@, "en"@, "yue"@],
        recommendation_reason: "Trilingual zh/en/yue; only Cantonese option available"@,
    }
}

/// The FireRedASR entry.
pub open spec fn spec_fire_red_asr_v1() -> ModelView {
    ModelView {
        id: "fire-red-asr-v1"@,
        display_name: "FireRedASR Large v1"@,
        description: "Xiaohongshu FireRedASR, AED architecture, very high Chinese accuracy. 1.74 GB."@,
        backend: BackendKind::FireRedAsr,
        total_size_bytes: 1_735_071_400,
        size_display: "1.74 GB"@,
        files: seq![
            spec_file("encoder.int8.onnx"@, "https://huggingface.co/csukuangfj/sherpa-onnx-fire-red-asr-large-zh_en-2025-02-16/resolve/main/encoder.int8.onnx"@, 1_290_000_000),
            spec_file("decoder.int8.onnx"@, "https://huggingface.co/csukuangfj/sherpa-onnx-fire-red-asr-large-zh_en-2025-02-16/resolve/main/decoder.int8.onnx"@, 445_000_000),
            spec_file("tokens.txt"@, "https://huggingface.co/csukuangfj/sherpa-onnx-fire-red-asr-large-zh_en-2025-02-16/resolve/main/tokens.txt"@, 71_400),
        ],
        best_for_languages: seq!["zh"@],
        recommendation_reason: "Chinese ASR SOTA (CER ~2%), best accuracy, large size"@,
    }
}

/// The Moonshine entry.
pub open spec fn spec_moonshine_base_en() -> ModelView {
    ModelView {
        id: "moonshine-base-en"@,
        display_name: "Moonshine Base (EN)"@,
        description: "Realtime-tuned English ASR, ~5x faster than Whisper, RTF<0.05."@,
        backend: BackendKind::Moonshine,
        total_size_bytes: 286_929_760,
        size_display: "274 MB"@,
        files: seq![
            spec_file("preprocess.onnx"@, "https://huggingface.co/csukuangfj/sherpa-onnx-moonshine-base-en-int8/resolve/main/preprocess.onnx"@, 14_077_290),
            spec_file("encode.int8.onnx"@, "https://huggingface.co/csukuangfj/sherpa-onnx-moonshine-base-en-int8/resolve/main/encode.int8.onnx"@, 50_311_494),
            spec_file("uncached_decode.int8.onnx"@, "https://huggingface.co/csukuangfj/sherpa-onnx-moonshine-base-en-int8/resolve/main/uncached_decode.int8.onnx"@, 122_120_451),
            spec_file("cached_decode.int8.onnx"@, "https://huggingface.co/csukuangfj/sherpa-onnx-moonshine-base-en-int8/resolve/main/cached_decode.int8.onnx"@, 99_983_837),
            spec_file("tokens.txt"@, "https://huggingface.co/csukuangfj/sherpa-onnx-moonshine-base-en-int8/resolve/main/tokens.txt"@, 436_688),
        ],
        best_for_languages: seq!["en"@],
        recommendation_reason: "English-only, ~5x faster than Whisper"@,
    }
}

/// The Zipformer CTC entry.
pub open spec fn spec_zipformer_ctc_zh() -> ModelView {
    ModelView {
        id: "zipformer-ctc-zh"@,
        display_name: "Zipformer Chinese CTC"@,
        description: "Next-gen Kaldi Zipformer CTC, Chinese offline. Lightweight backup."@,
        backend: BackendKind::ZipformerCtc,
        total_size_bytes: 367_013_400,
        size_display: "350 MB"@,
        files: seq![
            spec_file("model.int8.onnx"@, "https://huggingface.co/csukuangfj/sherpa-onnx-zipformer-ctc-zh-int8-2025-07-03/resolve/main/model.int8.onnx"@, 367_000_000),
            spec_file("tokens.txt"@, "https://huggingface.co/csukuangfj/sherpa-onnx-zipformer-ctc-zh-int8-2025-07-03/resolve/main/tokens.txt"@, 13_400),
        ],
        best_for_languages: seq!["zh"@],
        recommendation_reason: "Chinese offline CTC, modest size, fast"@,
    }
}

/// The catalogue, in order.
pub open spec fn spec_catalogue() -> Seq<ModelView> {
    seq![
        spec_paraformer_zh(),
        spec_paraformer_trilingual(),
        spec_fire_red_asr_v1(),
        spec_moonshine_base_en(),
        spec_zipformer_ctc_zh(),
    ]
}

/// The catalogue entry of `id`, if any.
pub open spec fn spec_model(id: Seq<char>) -> Option<ModelView> {
    if id == "paraformer-zh"@ {
        Some(spec_paraformer_zh())
    } else if id == "paraformer-trilingual"@ {
        Some(spec_paraformer_trilingual())
    } else if id == "fire-red-asr-v1"@ {
        Some(spec_fire_red_asr_v1())
    } else if id == "moonshine-base-en"@ {
        Some(spec_moonshine_base_en())
    } else if id == "zipformer-ctc-zh"@ {
        Some(spec_zipformer_ctc_zh())
    } else {
        None
    }
}

/// Every catalogue entry's total size is the sum of its files' sizes.
pub proof fn lemma_catalogue_totals(id: Seq<char>)
    ensures
        spec_model(id) matches Some(m) ==> files_total(m.files) == m.total_size_bytes,
{
    reveal_with_fuel(files_total, 6);
    let a = spec_paraformer_zh().files;
    assert(a.drop_last().drop_last() =~= Seq::<ModelFileView>::empty());
    let b = spec_paraformer_trilingual().files;
    assert(b.drop_last().drop_last() =~= Seq::<ModelFileView>::empty());
    let c = spec_fire_red_asr_v1().files;
    assert(c.drop_last().drop_last().drop_last() =~= Seq::<ModelFileView>::empty());
    let d = spec_moonshine_base_en().files;
    assert(d.drop_last().drop_last().drop_last().drop_last().drop_last() =~= Seq::<ModelFileView>::empty());
    let e = spec_zipformer_ctc_zh().files;
    assert(e.drop_last().drop_last() =~= Seq::<ModelFileView>::empty());
}

fn file(relative_path: &'static str, url: &'static str, size_bytes: u64) -> (r: ModelFile)
    ensures
        r.relative_path == relative_path,
        r.url == url,
        r.size_bytes == size_bytes,
{
    ModelFile { relative_path, url, size_bytes }
}

fn paraformer_zh() -> (r: ModelInfo)
    ensures
        r@ == spec_paraformer_zh(),
        r.id@ == "paraformer-zh"@,
        r.backend == BackendKind::Paraformer,
        file_paths(r.files@) == spec_backend_files(BackendKind::Paraformer),
{
    let mut files: Vec<ModelFile> = Vec::new();
    files.push(file("model.int8.onnx", "https://huggingface.co/csukuangfj/sherpa-onnx-paraformer-zh-2024-03-09/resolve/main/model.int8.onnx", 227_330_205));
    files.push(file("tokens.txt", "https://huggingface.co/csukuangfj/sherpa-onnx-paraformer-zh-2024-03-09/resolve/main/tokens.txt", 75_354));
    let mut langs: Vec<&'static str> = Vec::new();
    langs.push("zh");
    let r = ModelInfo {
        id: "paraformer-zh",
        display_name: "Paraformer Chinese",
        description: "Alibaba Paraformer, non-autoregressive, RTF<0.07. Chinese-only, fast.",
        backend: BackendKind::Paraformer,
        total_size_bytes: 227_405_559,
        size_display: "217 MB",
        files,
        best_for_languages: langs,
        recommendation_reason: "Chinese-only, very fast (RTF<0.07), high accuracy",
    };
    assert(file_paths(r.files@) =~= spec_backend_files(BackendKind::Paraformer));
    assert(r@ =~= spec_paraformer_zh());
    r
}

fn paraformer_trilingual() -> (r: ModelInfo)
    ensures
        r@ == spec_paraformer_trilingual(),
        r.id@ == "paraformer-trilingual"@,
        r.backend == BackendKind::Paraformer,
        file_paths(r.files@) == spec_backend_files(BackendKind::Paraformer),
{
    let mut files: Vec<ModelFile> = Vec::new();
    files.push(file("model.int8.onnx", "https://huggingface.co/csukuangfj/sherpa-onnx-paraformer-trilingual-zh-cantonese-en/resolve/main/model.int8.onnx", 245_000_000));
    files.push(file("tokens.txt", "https://huggingface.co/csukuangfj/sherpa-onnx-paraformer-trilingual-zh-cantonese-en/resolve/main/tokens.txt", 119_000));
    let mut langs: Vec<&'static str> = Vec::new();
    langs.push("zh");
    langs.push("en");
    langs.push("yue");
    let r = ModelInfo {
        id: "paraformer-trilingual",
        display_name: "Paraformer ZH/EN/Cantonese",
        description: "Alibaba Paraformer trilingual. Handles zh + en + yue mix.",
        backend: BackendKind::Paraformer,
        total_size_bytes: 245_119_000,
        size_display: "234 MB",
        files,
        best_for_languages: langs,
        recommendation_reason: "Trilingual zh/en/yue; only Cantonese option available",
    };
    assert(file_paths(r.files@) =~= spec_backend_files(BackendKind::Paraformer));
    assert(r@ =~= spec_paraformer_trilingual());
    r
}

fn fire_red_asr_v1() -> (r: ModelInfo)
    ensures
        r@ == spec_fire_red_asr_v1(),
        r.id@ == "fire-red-asr-v1"@,
        r.backend == BackendKind::FireRedAsr,
        file_paths(r.files@) == spec_backend_files(BackendKind::FireRedAsr),
{
    let mut files: Vec<ModelFile> = Vec::new();
    files.push(file("encoder.int8.onnx", "https://huggingface.co/csukuangfj/sherpa-onnx-fire-red-asr-large-zh_en-2025-02-16/resolve/main/encoder.int8.onnx", 1_290_000_000));
    files.push(file("decoder.int8.onnx", "https://huggingface.co/csukuangfj/sherpa-onnx-fire-red-asr-large-zh_en-2025-02-16/resolve/main/decoder.int8.onnx", 445_000_000));
    files.push(file("tokens.txt", "https://huggingface.co/csukuangfj/sherpa-onnx-fire-red-asr-large-zh_en-2025-02-16/resolve/main/tokens.txt", 71_400));
    let mut langs: Vec<&'static str> = Vec::new();
    langs.push("zh");
    let r = ModelInfo {
        id: "fire-red-asr-v1",
        display_name: "FireRedASR Large v1",
        description: "Xiaohongshu FireRedASR, AED architecture, very high Chinese accuracy. 1.74 GB.",
        backend: BackendKind::FireRedAsr,
        total_size_bytes: 1_735_071_400,
        size_display: "1.74 GB",
        files,
        best_for_languages: langs,
        recommendation_reason: "Chinese ASR SOTA (CER ~2%), best accuracy, large size",
    };
    assert(file_paths(r.files@) =~= spec_backend_files(BackendKind::FireRedAsr));
    assert(r@ =~= spec_fire_red_asr_v1());
    r
}

fn moonshine_base_en() -> (r: ModelInfo)
    ensures
        r@ == spec_moonshine_base_en(),
        r.id@ == "moonshine-base-en"@,
        r.backend == BackendKind::Moonshine,
        file_paths(r.files@) == spec_backend_files(BackendKind::Moonshine),
{
    let mut files: Vec<ModelFile> = Vec::new();
    files.push(file("preprocess.onnx", "https://huggingface.co/csukuangfj/sherpa-onnx-moonshine-base-en-int8/resolve/main/preprocess.onnx", 14_077_290));
    files.push(file("encode.int8.onnx", "https://huggingface.co/csukuangfj/sherpa-onnx-moonshine-base-en-int8/resolve/main/encode.int8.onnx", 50_311_494));
    files.push(file("uncached_decode.int8.onnx", "https://huggingface.co/csukuangfj/sherpa-onnx-moonshine-base-en-int8/resolve/main/uncached_decode.int8.onnx", 122_120_451));
    files.push(file("cached_decode.int8.onnx", "https://huggingface.co/csukuangfj/sherpa-onnx-moonshine-base-en-int8/resolve/main/cached_decode.int8.onnx", 99_983_837));
    files.push(file("tokens.txt", "https://huggingface.co/csukuangfj/sherpa-onnx-moonshine-base-en-int8/resolve/main/tokens.txt", 436_688));
    let mut langs: Vec<&'static str> = Vec::new();
    langs.push("en");
    let r = ModelInfo {
        id: "moonshine-base-en",
        display_name: "Moonshine Base (EN)",
        description: "Realtime-tuned English ASR, ~5x faster than Whisper, RTF<0.05.",
        backend: BackendKind::Moonshine,
        total_size_bytes: 286_929_760,
        size_display: "274 MB",
        files,
        best_for_languages: langs,
        recommendation_reason: "English-only, ~5x faster than Whisper",
    };
    assert(file_paths(r.files@) =~= spec_backend_files(BackendKind::Moonshine));
    assert(r@ =~= spec_moonshine_base_en());
    r
}

fn zipformer_ctc_zh() -> (r: ModelInfo)
    ensures
        r@ == spec_zipformer_ctc_zh(),
        r.id@ == "zipformer-ctc-zh"@,
        r.backend == BackendKind::ZipformerCtc,
        file_paths(r.files@) == spec_backend_files(BackendKind::ZipformerCtc),
{
    let mut files: Vec<ModelFile> = Vec::new();
    files.push(file("model.int8.onnx", "https://huggingface.co/csukuangfj/sherpa-onnx-zipformer-ctc-zh-int8-2025-07-03/resolve/main/model.int8.onnx", 367_000_000));
    files.push(file("tokens.txt", "https://huggingface.co/csukuangfj/sherpa-onnx-zipformer-ctc-zh-int8-2025-07-03/resolve/main/tokens.txt", 13_400));
    let mut langs: Vec<&'static str> = Vec::new();
    langs.push("zh");
    let r = ModelInfo {
        id: "zipformer-ctc-zh",
        display_name: "Zipformer Chinese CTC",
        description: "Next-gen Kaldi Zipformer CTC, Chinese offline. Lightweight backup.",
        backend: BackendKind::ZipformerCtc,
        total_size_bytes: 367_013_400,
        size_display: "350 MB",
        files,
        best_for_languages: langs,
        recommendation_reason: "Chinese offline CTC, modest size, fast",
    };
    assert(file_paths(r.files@) =~= spec_backend_files(BackendKind::ZipformerCtc));
    assert(r@ =~= spec_zipformer_ctc_zh());
    r
}

/// The catalogued model ids, in catalogue order.
pub open spec fn spec_model_ids() -> Seq<Seq<char>> {
    seq![
        "paraformer-zh"@,
        "paraformer-trilingual"@,
        "fire-red-asr-v1"@,
        "moonshine-base-en"@,
        "zipformer-ctc-zh"@,
    ]
}

/// The whole catalogue, in order.
pub fn all_models() -> (r: Vec<ModelInfo>)
    ensures
        r@.len() == spec_model_ids().len(),
        forall|i: int| 0 <= i < r@.len() ==> (#[trigger] r@[i]).id@ == spec_model_ids()[i]
            && spec_backend_of(r@[i].id@) == Some(r@[i].backend) && file_paths(r@[i].files@)
            == spec_backend_files(r@[i].backend) && r@[i]@ == spec_catalogue()[i] && spec_model(
            r@[i].id@,
        ) == Some(r@[i]@),
{
    proof {
        reveal_strlit("paraformer-zh");
        reveal_strlit("paraformer-trilingual");
        reveal_strlit("fire-red-asr-v1");
        reveal_strlit("moonshine-base-en");
        reveal_strlit("zipformer-ctc-zh");
    }
    let mut v: Vec<ModelInfo> = Vec::new();
    v.push(paraformer_zh());
    v.push(paraformer_trilingual());
    v.push(fire_red_asr_v1());
    v.push(moonshine_base_en());
    v.push(zipformer_ctc_zh());
    v
}

/// The catalogue entry of `id` (see [`spec_model`]): present exactly for
/// catalogued ids, with the backend and file layout of that id, and a total
/// size that is the sum of its files' sizes.
pub fn get_model(id: &str) -> (r: Option<ModelInfo>)
    ensures
        match r {
            Some(m) => m.id@ == id@ && spec_model(id@) == Some(m@) && spec_backend_of(id@) == Some(
                m.backend,
            ) && file_paths(m.files@) == spec_backend_files(m.backend) && files_total(m@.files)
                == m.total_size_bytes,
            None => spec_backend_of(id@) is None && spec_model(id@) is None,
        },
{
    proof {
        lemma_catalogue_totals(id@);
    }
    let models = all_models();
    let mut i: usize = 0;
    while i < models.len()
        invariant
            i <= models@.len(),
            models@.len() == spec_model_ids().len(),
            forall|j: int| 0 <= j < models@.len() ==> (#[trigger] models@[j]).id@ == spec_model_ids()[j]
                && spec_backend_of(models@[j].id@) == Some(models@[j].backend) && file_paths(
                models@[j].files@,
            ) == spec_backend_files(models@[j].backend) && spec_model(models@[j].id@) == Some(
                models@[j]@,
            ),
            spec_model(id@) matches Some(mv) ==> files_total(mv.files) == mv.total_size_bytes,
            forall|j: int| 0 <= j < i ==> spec_model_ids()[j] != id@,
        decreases models@.len() - i,
    {
        if str_eq(models[i].id, id) {
            let mut models = models;
            let m = models.swap_remove(i);
            return Some(m);
        }
        i += 1;
    }
    assert(spec_model_ids().len() == 5);
    assert(spec_model_ids()[0] != id@ && spec_model_ids()[1] != id@ && spec_model_ids()[2] != id@
        && spec_model_ids()[3] != id@ && spec_model_ids()[4] != id@);
    None
}

/// The files of a paraformer model: `(model, tokens)`.
pub fn paraformer_model_paths(model_dir: &str) -> (r: (String, String))
    ensures
        r.0@ == path_join(model_dir@, "model.int8.onnx"@),
        r.1@ == path_join(model_dir@, "tokens.txt"@),
{
    (join_path(model_dir, "model.int8.onnx"), join_path(model_dir, "tokens.txt"))
}

/// The files of a moonshine model: `(preprocessor, encoder, uncached decoder,
/// cached decoder, tokens)`.
pub fn moonshine_model_paths(model_dir: &str) -> (r: (String, String, String, String, String))
    ensures
        r.0@ == path_join(model_dir@, "preprocess.onnx"@),
        r.1@ == path_join(model_dir@, "encode.int8.onnx"@),
        r.2@ == path_join(model_dir@, "uncached_decode.int8.onnx"@),
        r.3@ == path_join(model_dir@, "cached_decode.int8.onnx"@),
        r.4@ == path_join(model_dir@, "tokens.txt"@),
{
    (
        join_path(model_dir, "preprocess.onnx"),
        join_path(model_dir, "encode.int8.onnx"),
        join_path(model_dir, "uncached_decode.int8.onnx"),
        join_path(model_dir, "cached_decode.int8.onnx"),
        join_path(model_dir, "tokens.txt"),
    )
}

/// The files of a FireRedASR model: `(encoder, decoder, tokens)`.
pub fn fire_red_asr_model_paths(model_dir: &str) -> (r: (String, String, String))
    ensures
        r.0@ == path_join(model_dir@, "encoder.int8.onnx"@),
        r.1@ == path_join(model_dir@, "decoder.int8.onnx"@),
        r.2@ == path_join(model_dir@, "tokens.txt"@),
{
    (
        join_path(model_dir, "encoder.int8.onnx"),
        join_path(model_dir, "decoder.int8.onnx"),
        join_path(model_dir, "tokens.txt"),
    )
}

/// The files of a zipformer CTC model: `(model, tokens)`.
pub fn zipformer_ctc_model_paths(model_dir: &str) -> (r: (String, String))
    ensures
        r.0@ == path_join(model_dir@, "model.int8.onnx"@),
        r.1@ == path_join(model_dir@, "tokens.txt"@),
{
    (join_path(model_dir, "model.int8.onnx"), join_path(model_dir, "tokens.txt"))
}

/// The path `models_root/model_id/relative`.
pub fn model_file_path(models_root: &str, model_id: &str, relative: &str) -> (r: String)
    ensures
        r@ == path_join(path_join(models_root@, model_id@), relative@),
{
    let dir = join_path(models_root, model_id);
    join_path(dir.as_str(), relative)
}

/// The paths that must exist for `model_id` to count as downloaded: every
/// catalogued file under `models_root/model_id/`; `None` for unknown ids.
pub fn downloaded_file_paths(models_root: &str, model_id: &str) -> (r: Option<Vec<String>>)
    ensures
        match r {
            Some(paths) => spec_backend_of(model_id@) is Some && paths@.len() == spec_backend_files(
                spec_backend_of(model_id@)->0,
            ).len() && forall|i: int|
                0 <= i < paths@.len() ==> (#[trigger] paths@[i])@ == path_join(
                    path_join(models_root@, model_id@),
                    spec_backend_files(spec_backend_of(model_id@)->0)[i],
                ),
            None => spec_backend_of(model_id@) is None,
        },
{
    let info = match get_model(model_id) {
        Some(info) => info,
        None => return None,
    };
    let dir = join_path(models_root, model_id);
    let mut paths: Vec<String> = Vec::new();
    let mut i: usize = 0;
    while i < info.files.len()
        invariant
            i <= info.files@.len(),
            paths@.len() == i,
            dir@ == path_join(models_root@, model_id@),
            forall|j: int| 0 <= j < i ==> (#[trigger] paths@[j])@ == path_join(dir@, file_paths(info.files@)[j]),
        decreases info.files@.len() - i,
    {
        paths.push(join_path(dir.as_str(), info.files[i].relative_path));
        i += 1;
    }
    Some(paths)
}

/// Whether a model is downloaded, given the length of each of its files in
/// the order [`downloaded_file_paths`] lists them (`None` when a file does not
/// exist): the id is catalogued, every file is accounted for, and each one
/// exists.
pub fn is_model_downloaded(model_id: &str, file_lengths: &[Option<u64>]) -> (r: bool)
    ensures
        r == (spec_backend_of(model_id@) matches Some(b) && file_lengths@.len() == spec_backend_files(b).len()
            && forall|i: int| 0 <= i < file_lengths@.len() ==> (#[trigger] file_lengths@[i]) is Some),
{
    let info = match get_model(model_id) {
        Some(info) => info,
        None => return false,
    };
    if file_lengths.len() != info.files.len() {
        return false;
    }
    let mut i: usize = 0;
    while i < file_lengths.len()
        invariant
            i <= file_lengths@.len(),
            forall|j: int| 0 <= j < i ==> (#[trigger] file_lengths@[j]) is Some,
        decreases file_lengths@.len() - i,
    {
        if file_lengths[i].is_none() {
            return false;
        }
        i += 1;
    }
    true
}

/// The text of an [`SttError`], as the host displays it.
pub open spec fn stt_error_text(e: SttError) -> Seq<char> {
    match e {
        SttError::Model(m) => "model error: "@ + m@,
        SttError::Audio(m) => "audio error: "@ + m@,
        SttError::Backend(m) => "backend error: "@ + m@,
        SttError::Io(m) => "io error: "@ + m@,
    }
}

impl SttError {
    /// The text of the error, as the host displays it.
    pub fn display_text(&self) -> (r: String)
        ensures
            r@ == stt_error_text(*self),
    {
        let (prefix, m) = match self {
            SttError::Model(m) => ("model error: ", m),
            SttError::Audio(m) => ("audio error: ", m),
            SttError::Backend(m) => ("backend error: ", m),
            SttError::Io(m) => ("io error: ", m),
        };
        let mut s = String::from_str(prefix);
        s.append(m.as_str());
        s
    }
}

/// A slot for the loaded recognition backend (of type `B`).
#[derive(Debug)]
pub struct ManagedTranscriber<B> {
    inner: Option<B>,
}

impl<B> ManagedTranscriber<B> {
    /// The backend held, if any.
    pub closed spec fn loaded(&self) -> Option<B> {
        self.inner
    }

    /// An empty slot.
    pub fn new() -> (r: Self)
        ensures
            r.loaded().is_none(),
    {
        ManagedTranscriber { inner: None }
    }

    /// Holds `backend`, replacing any earlier one.
    pub fn load(&mut self, backend: B)
        ensures
            final(self).loaded() == Some(backend),
    {
        self.inner = Some(backend);
    }

    /// Drops the backend held.
    pub fn unload(&mut self)
        ensures
            final(self).loaded().is_none(),
    {
        self.inner = None;
    }

    /// Whether a backend is held.
    pub fn is_loaded(&self) -> (r: bool)
        ensures
            r == self.loaded().is_some(),
    {
        self.inner.is_some()
    }

    /// The backend to transcribe with; refused when none is loaded.
    pub fn backend(&self) -> (r: Result<&B, SttError>)
        ensures
            match self.loaded() {
                Some(b) => r == Ok::<&B, SttError>(&b),
                None => r matches Err(SttError::Backend(m)) && m@ == "no backend loaded"@,
            },
    {
        match &self.inner {
            Some(b) => Ok(b),
            None => Err(SttError::Backend(String::from_str("no backend loaded"))),
        }
    }
}

/// The files to load for a model, by backend.
#[derive(Clone, Debug)]
pub enum BackendPlan {
    Paraformer { model: String, tokens: String },
    Moonshine {
        preprocessor: String,
        encoder: String,
        uncached_decoder: String,
        cached_decoder: String,
        tokens: String,
    },
    FireRedAsr { encoder: String, decoder: String, tokens: String },
    ZipformerCtc { model: String, tokens: String },
}

impl BackendPlan {
    /// The backend the plan loads.
    pub open spec fn kind(&self) -> BackendKind {
        match self {
            BackendPlan::Paraformer { .. } => BackendKind::Paraformer,
            BackendPlan::Moonshine { .. } => BackendKind::Moonshine,
            BackendPlan::FireRedAsr { .. } => BackendKind::FireRedAsr,
            BackendPlan::ZipformerCtc { .. } => BackendKind::ZipformerCtc,
        }
    }

    /// The files the plan loads, in the backend's order.
    pub open spec fn files(&self) -> Seq<Seq<char>> {
        match self {
            BackendPlan::Paraformer { model, tokens } => seq![model@, tokens@],
            BackendPlan::Moonshine { preprocessor, encoder, uncached_decoder, cached_decoder, tokens } =>
                seq![preprocessor@, encoder@, uncached_decoder@, cached_decoder@, tokens@],
            BackendPlan::FireRedAsr { encoder, decoder, tokens } => seq![encoder@, decoder@, tokens@],
            BackendPlan::ZipformerCtc { model, tokens } => seq![model@, tokens@],
        }
    }
}

/// Chooses the backend of `model_id` and its files under
/// `models_root/model_id/`; unknown ids are refused.
pub fn plan_backend(model_id: &str, models_root: &str) -> (r: Result<BackendPlan, SttError>)
    ensures
        match r {
            Ok(p) => spec_backend_of(model_id@) == Some(p.kind()) && p.files().len()
                == spec_backend_files(p.kind()).len() && forall|i: int|
                0 <= i < p.files().len() ==> #[trigger] p.files()[i] == path_join(
                    path_join(models_root@, model_id@),
                    spec_backend_files(p.kind())[i],
                ),
            Err(e) => spec_backend_of(model_id@) is None && (e matches SttError::Model(m) && m@
                == "unknown model id: "@ + model_id@),
        },
{
    let info = match get_model(model_id) {
        Some(info) => info,
        None => {
            let mut m = String::from_str("unknown model id: ");
            m.append(model_id);
            return Err(SttError::Model(m));
        },
    };
    let model_dir = join_path(models_root, model_id);
    let r = match info.backend {
        BackendKind::Paraformer => {
            let (model, tokens) = paraformer_model_paths(model_dir.as_str());
            BackendPlan::Paraformer { model, tokens }
        },
        BackendKind::Moonshine => {
            let (preprocessor, encoder, uncached_decoder, cached_decoder, tokens) =
                moonshine_model_paths(model_dir.as_str());
            BackendPlan::Moonshine { preprocessor, encoder, uncached_decoder, cached_decoder, tokens }
        },
        BackendKind::FireRedAsr => {
            let (encoder, decoder, tokens) = fire_red_asr_model_paths(model_dir.as_str());
            BackendPlan::FireRedAsr { encoder, decoder, tokens }
        },
        BackendKind::ZipformerCtc => {
            let (model, tokens) = zipformer_ctc_model_paths(model_dir.as_str());
            BackendPlan::ZipformerCtc { model, tokens }
        },
    };
    assert(r.files().len() == spec_backend_files(r.kind()).len());
    Ok(r)
}

/// The kinds of local speech-synthesis model.
#[derive(Clone, Copy, Debug, PartialEq, Eq, Structural)]
pub enum TtsModelKind {
    Kokoro,
    Vits,
}

/// A model whose id starts with `kokoro` is a Kokoro model; any other is VITS.
pub fn tts_model_kind(model_id: &str) -> (r: TtsModelKind)
    ensures
        r == (if model_id@.len() >= 6 && model_id@.subrange(0, 6) == "kokoro"@ {
            TtsModelKind::Kokoro
        } else {
            TtsModelKind::Vits
        }),
{
    let id = chars_of(model_id);
    let prefix = chars_of("kokoro");
    proof {
        reveal_strlit("kokoro");
    }
    if matches_at(id.as_slice(), prefix.as_slice(), 0) {
        TtsModelKind::Kokoro
    } else {
        TtsModelKind::Vits
    }
}

/// The files a local synthesis model may use, under `model_dir/model_id/`.
#[derive(Clone, Debug)]
pub struct TtsFileCandidates {
    pub dir: String,
    pub model_int8: String,
    pub model_fp32: String,
    pub voices: String,
    pub tokens: String,
    pub lexicon: String,
    pub data_dir: String,
}

/// The candidate files of a synthesis model.
pub fn tts_file_candidates(model_dir: &str, model_id: &str) -> (r: TtsFileCandidates)
    ensures
        r.dir@ == path_join(model_dir@, model_id@),
        r.model_int8@ == path_join(r.dir@, "model.int8.onnx"@),
        r.model_fp32@ == path_join(r.dir@, "model.onnx"@),
        r.voices@ == path_join(r.dir@, "voices.bin"@),
        r.tokens@ == path_join(r.dir@, "tokens.txt"@),
        r.lexicon@ == path_join(r.dir@, "lexicon.txt"@),
        r.data_dir@ == path_join(r.dir@, "espeak-ng-data"@),
{
    let dir = join_path(model_dir, model_id);
    let model_int8 = join_path(dir.as_str(), "model.int8.onnx");
    let model_fp32 = join_path(dir.as_str(), "model.onnx");
    let voices = join_path(dir.as_str(), "voices.bin");
    let tokens = join_path(dir.as_str(), "tokens.txt");
    let lexicon = join_path(dir.as_str(), "lexicon.txt");
    let data_dir = join_path(dir.as_str(), "espeak-ng-data");
    TtsFileCandidates { dir, model_int8, model_fp32, voices, tokens, lexicon, data_dir }
}

/// Which candidate files exist.
#[derive(Clone, Copy, Debug)]
pub struct TtsFilePresence {
    pub model_int8: bool,
    pub model_fp32: bool,
    pub voices: bool,
    pub tokens: bool,
    pub lexicon: bool,
    pub data_dir: bool,
}

/// The files a synthesis model loads.
#[derive(Clone, Debug)]
pub struct TtsFiles {
    pub kind: TtsModelKind,
    pub model: String,
    pub voices: Option<String>,
    pub tokens: String,
    pub lexicon: Option<String>,
    pub data_dir: Option<String>,
}

fn copy_text(s: &String) -> (r: String)
    ensures
        r@ == s@,
{
    String::from_str(s.as_str())
}

/// Chooses the files of a synthesis model: the quantised model when present,
/// else the full one, else an error; Kokoro also needs its voices; both need
/// the tokens; the lexicon (VITS) and the text-normalisation data are used
/// when present.
pub fn select_tts_files(kind: TtsModelKind, c: &TtsFileCandidates, p: TtsFilePresence) -> (r: Result<
    TtsFiles,
    SttError,
>)
    ensures
        !p.model_int8 && !p.model_fp32 ==> (r matches Err(SttError::Model(m)) && m@ == (if kind
            == TtsModelKind::Kokoro {
            "kokoro model.onnx not found in "@
        } else {
            "vits model.onnx not found in "@
        }) + c.dir@),
        (p.model_int8 || p.model_fp32) && kind == TtsModelKind::Kokoro && !p.voices ==> (r matches Err(
            SttError::Model(m),
        ) && m@ == "TTS file not found: "@ + c.voices@),
        (p.model_int8 || p.model_fp32) && (kind == TtsModelKind::Vits || p.voices) && !p.tokens ==> (r matches Err(
            SttError::Model(m),
        ) && m@ == "TTS file not found: "@ + c.tokens@),
        (p.model_int8 || p.model_fp32) && (kind == TtsModelKind::Vits || p.voices) && p.tokens ==> (r matches Ok(
            f,
        ) && f.kind == kind && f.model@ == (if p.model_int8 {
            c.model_int8@
        } else {
            c.model_fp32@
        }) && f.tokens@ == c.tokens@ && (match f.voices {
            Some(v) => kind == TtsModelKind::Kokoro && v@ == c.voices@,
            None => kind == TtsModelKind::Vits,
        }) && (match f.lexicon {
            Some(l) => kind == TtsModelKind::Vits && p.lexicon && l@ == c.lexicon@,
            None => !(kind == TtsModelKind::Vits && p.lexicon),
        }) && (match f.data_dir {
            Some(d) => p.data_dir && d@ == c.data_dir@,
            None => !p.data_dir,
        })),
{
    let model = if p.model_int8 {
        copy_text(&c.model_int8)
    } else if p.model_fp32 {
        copy_text(&c.model_fp32)
    } else {
        let mut m = match kind {
            TtsModelKind::Kokoro => String::from_str("kokoro model.onnx not found in "),
            TtsModelKind::Vits => String::from_str("vits model.onnx not found in "),
        };
        m.append(c.dir.as_str());
        return Err(SttError::Model(m));
    };
    let voices = match kind {
        TtsModelKind::Kokoro => {
            if !p.voices {
                let mut m = String::from_str("TTS file not found: ");
                m.append(c.voices.as_str());
                return Err(SttError::Model(m));
            }
            Some(copy_text(&c.voices))
        },
        TtsModelKind::Vits => None,
    };
    if !p.tokens {
        let mut m = String::from_str("TTS file not found: ");
        m.append(c.tokens.as_str());
        return Err(SttError::Model(m));
    }
    let lexicon = match kind {
        TtsModelKind::Vits => {
            if p.lexicon {
                Some(copy_text(&c.lexicon))
            } else {
                None
            }
        },
        TtsModelKind::Kokoro => None,
    };
    let data_dir = if p.data_dir {
        Some(copy_text(&c.data_dir))
    } else {
        None
    };
    Ok(TtsFiles { kind, model, voices, tokens: copy_text(&c.tokens), lexicon, data_dir })
}

} // verus!
