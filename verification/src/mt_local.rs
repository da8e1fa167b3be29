//! Offline machine translation: the catalogue of models, language-tag
//! mapping, the file layout a Marian / NLLB model needs, and the token-level
//! decisions of encoding and greedy decoding (the neural network itself runs
//! on the host).

use vstd::prelude::*;
use tokenizers::Tokenizer;
use crate::config::{join_path, path_join};
use crate::text::{str_eq, trim, trim_str};

verus! {

/// The families of offline translation models.
#[derive(Clone, Copy, Debug, PartialEq, Eq, Structural)]
pub enum MtModelFamily {
    /// Helsinki-NLP MarianMT (opus-mt-* on HuggingFace)
    OpusMt,
    /// Meta NLLB-200 (multilingual, single model)
    Nllb200,
    /// Google MadLad-400 (multilingual, T5-based)
    Madlad400,
}

/// A catalogued offline translation model.
#[derive(Clone, Copy, Debug)]
pub struct MtModelInfo {
    pub id: &'static str,
    pub family: MtModelFamily,
    pub src_lang: &'static str,
    pub tgt_lang: &'static str,
    pub description: &'static str,
}

/// A failure of offline translation.
#[derive(Clone, Debug)]
pub enum MtLocalError {
    Model(String),
    Tokenizer(String),
    Inference(String),
    Io(String),
}

/// The text of an [`MtLocalError`], as the host displays it.
pub open spec fn mt_local_error_text(e: MtLocalError) -> Seq<char> {
    match e {
        MtLocalError::Model(m) => "model error: "@ + m@,
        MtLocalError::Tokenizer(m) => "tokenizer error: "@ + m@,
        MtLocalError::Inference(m) => "inference error: "@ + m@,
        MtLocalError::Io(m) => "io error: "@ + m@,
    }
}

impl MtLocalError {
    /// The text of the error, as the host displays it.
    pub fn display_text(&self) -> (r: String)
        ensures
            r@ == mt_local_error_text(*self),
    {
        let (prefix, m) = match self {
            MtLocalError::Model(m) => ("model error: ", m),
            MtLocalError::Tokenizer(m) => ("tokenizer error: ", m),
            MtLocalError::Inference(m) => ("inference error: ", m),
            MtLocalError::Io(m) => ("io error: ", m),
        };
        let mut s = String::from_str(prefix);
        s.append(m.as_str());
        s
    }
}

/// A loaded offline translation backend.
pub trait LocalMtBackend: Send + Sync {
    /// Translates `text` into `target_lang` (an ISO 639-1 code, or an NLLB tag
    /// for NLLB models).
    fn translate(&self, text: &str, target_lang: &str) -> Result<String, MtLocalError>;

    /// The model's identifier.
    fn model_id(&self) -> &str;
}

/// The catalogued model ids, in order.
pub open spec fn spec_mt_model_ids() -> Seq<Seq<char>> {
    seq![
        "opus-mt-zh-en"@,
        "opus-mt-ja-en"@,
        "opus-mt-en-zh"@,
        "opus-mt-tc-big-zh-en"@,
        "nllb-200-distilled-600M"@,
        "nllb-200-distilled-1.3B"@,
        "google/madlad400-3b-mt"@,
    ]
}

/// The family of each catalogued model id.
pub open spec fn spec_family_of(id: Seq<char>) -> Option<MtModelFamily> {
    if id == "opus-mt-zh-en"@ || id == "opus-mt-ja-en"@ || id == "opus-mt-en-zh"@ || id
        == "opus-mt-tc-big-zh-en"@ {
        Some(MtModelFamily::OpusMt)
    } else if id == "nllb-200-distilled-600M"@ || id == "nllb-200-distilled-1.3B"@ {
        Some(MtModelFamily::Nllb200)
    } else if id == "google/madlad400-3b-mt"@ {
        Some(MtModelFamily::Madlad400)
    } else {
        None
    }
}

fn info(
    id: &'static str,
    family: MtModelFamily,
    src_lang: &'static str,
    tgt_lang: &'static str,
    description: &'static str,
) -> (r: MtModelInfo)
    ensures
        r.id == id,
        r.family == family,
        r.src_lang == src_lang,
        r.tgt_lang == tgt_lang,
        r.description == description,
{
    MtModelInfo { id, family, src_lang, tgt_lang, description }
}

/// The whole catalogue, in order.
pub fn all_models() -> (r: Vec<MtModelInfo>)
    ensures
        r@.len() == spec_mt_model_ids().len(),
        forall|i: int|
            0 <= i < r@.len() ==> (#[trigger] r@[i]).id@ == spec_mt_model_ids()[i] && spec_family_of(
                r@[i].id@,
            ) == Some(r@[i].family),
{
    proof {
        reveal_strlit("opus-mt-zh-en");
        reveal_strlit("opus-mt-ja-en");
        reveal_strlit("opus-mt-en-zh");
        reveal_strlit("opus-mt-tc-big-zh-en");
        reveal_strlit("nllb-200-distilled-600M");
        reveal_strlit("nllb-200-distilled-1.3B");
        reveal_strlit("google/madlad400-3b-mt");
    }
    let mut v: Vec<MtModelInfo> = Vec::new();
    v.push(
        info(
            "opus-mt-zh-en",
            MtModelFamily::OpusMt,
            "zh",
            "en",
            "Helsinki-NLP opus-mt-zh-en (Chinese → English)",
        ),
    );
    v.push(
        info(
            "opus-mt-ja-en",
            MtModelFamily::OpusMt,
            "ja",
            "en",
            "Helsinki-NLP opus-mt-ja-en (Japanese → English)",
        ),
    );
    v.push(
        info(
            "opus-mt-en-zh",
            MtModelFamily::OpusMt,
            "en",
            "zh",
            "Helsinki-NLP opus-mt-en-zh (English → Chinese)",
        ),
    );
    v.push(
        info(
            "opus-mt-tc-big-zh-en",
            MtModelFamily::OpusMt,
            "zh",
            "en",
            "Helsinki-NLP opus-mt-tc-big-zh-en (larger zh→en model)",
        ),
    );
    v.push(
        info(
            "nllb-200-distilled-600M",
            MtModelFamily::Nllb200,
            "multilingual",
            "multilingual",
            "Meta NLLB-200 distilled 600M (multilingual)",
        ),
    );
    v.push(
        info(
            "nllb-200-distilled-1.3B",
            MtModelFamily::Nllb200,
            "multilingual",
            "multilingual",
            "Meta NLLB-200 distilled 1.3B (multilingual)",
        ),
    );
    v.push(
        info(
            "google/madlad400-3b-mt",
            MtModelFamily::Madlad400,
            "multilingual",
            "multilingual",
            "Google MadLad-400 3B-MT (400+ languages, mlx-lm/transformers)",
        ),
    );
    v
}

/// The catalogue entry of `id`: present exactly for catalogued ids.
pub fn get_model(id: &str) -> (r: Option<MtModelInfo>)
    ensures
        match r {
            Some(m) => m.id@ == id@ && spec_family_of(id@) == Some(m.family),
            None => spec_family_of(id@) is None,
        },
{
    let models = all_models();
    let mut i: usize = 0;
    while i < models.len()
        invariant
            i <= models@.len(),
            models@.len() == spec_mt_model_ids().len(),
            forall|j: int|
                0 <= j < models@.len() ==> (#[trigger] models@[j]).id@ == spec_mt_model_ids()[j]
                    && spec_family_of(models@[j].id@) == Some(models@[j].family),
            forall|j: int| 0 <= j < i ==> spec_mt_model_ids()[j] != id@,
        decreases models@.len() - i,
    {
        if str_eq(models[i].id, id) {
            return Some(models[i]);
        }
        i += 1;
    }
    assert(spec_mt_model_ids()[0] != id@ && spec_mt_model_ids()[1] != id@ && spec_mt_model_ids()[2]
        != id@ && spec_mt_model_ids()[3] != id@ && spec_mt_model_ids()[4] != id@
        && spec_mt_model_ids()[5] != id@ && spec_mt_model_ids()[6] != id@);
    None
}

/// The NLLB tag of a language code (ISO 639-1 or already a tag); codes it
/// does not know pass through unchanged.
pub open spec fn spec_iso_to_nllb(lang: Seq<char>) -> Seq<char> {
    if lang == "zh"@ || lang == "zh-CN"@ || lang == "zho_Hans"@ {
        "zho_Hans"@
    } else if lang == "zh-TW"@ || lang == "zho_Hant"@ {
        "zho_Hant"@
    } else if lang == "en"@ || lang == "eng_Latn"@ {
        "eng_Latn"@
    } else if lang == "ja"@ || lang == "jpn_Jpan"@ {
        "jpn_Jpan"@
    } else if lang == "ko"@ || lang == "kor_Hang"@ {
        "kor_Hang"@
    } else if lang == "fr"@ || lang == "fra_Latn"@ {
        "fra_Latn"@
    } else if lang == "de"@ || lang == "deu_Latn"@ {
        "deu_Latn"@
    } else if lang == "es"@ || lang == "spa_Latn"@ {
        "spa_Latn"@
    } else if lang == "ru"@ || lang == "rus_Cyrl"@ {
        "rus_Cyrl"@
    } else if lang == "ar"@ || lang == "arb_Arab"@ {
        "arb_Arab"@
    } else {
        lang
    }
}

/// Mapping twice maps once: every tag the mapping gives is an NLLB tag that
/// maps to itself (and a code outside the table is kept as it is).
pub proof fn lemma_iso_to_nllb_idempotent(lang: Seq<char>)
    ensures
        spec_iso_to_nllb(spec_iso_to_nllb(lang)) == spec_iso_to_nllb(lang),
{
    reveal_strlit("zh");
    reveal_strlit("zh-CN");
    reveal_strlit("zho_Hans");
    reveal_strlit("zh-TW");
    reveal_strlit("zho_Hant");
    reveal_strlit("en");
    reveal_strlit("eng_Latn");
    reveal_strlit("ja");
    reveal_strlit("jpn_Jpan");
    reveal_strlit("ko");
    reveal_strlit("kor_Hang");
    reveal_strlit("fr");
    reveal_strlit("fra_Latn");
    reveal_strlit("de");
    reveal_strlit("deu_Latn");
    reveal_strlit("es");
    reveal_strlit("spa_Latn");
    reveal_strlit("ru");
    reveal_strlit("rus_Cyrl");
    reveal_strlit("ar");
    reveal_strlit("arb_Arab");
    let tags = seq![
        "zho_Hans"@, "zho_Hant"@, "eng_Latn"@, "jpn_Jpan"@, "kor_Hang"@, "fra_Latn"@, "deu_Latn"@,
        "spa_Latn"@, "rus_Cyrl"@, "arb_Arab"@,
    ];
    let codes = seq!["zh"@, "zh-CN"@, "zh-TW"@, "en"@, "ja"@, "ko"@, "fr"@, "de"@, "es"@, "ru"@, "ar"@];
    assert forall|i: int, j: int| 0 <= i < tags.len() && 0 <= j < codes.len() implies #[trigger] tags[i]
        != #[trigger] codes[j] by {
        assert(tags[i].len() == 8);
        assert(codes[j].len() <= 5);
    }
    assert forall|i: int, j: int| 0 <= i < j < tags.len() implies #[trigger] tags[i] != #[trigger] tags[j] by {
        if tags[i] == tags[j] {
            assert(tags[i][0] == tags[j][0]);
            assert(tags[i][1] == tags[j][1]);
            assert(tags[i][2] == tags[j][2]);
            assert(tags[i][7] == tags[j][7]);
        }
    }
    assert(tags[0] == "zho_Hans"@);
    assert(tags[1] == "zho_Hant"@);
    assert(tags[2] == "eng_Latn"@);
    assert(tags[3] == "jpn_Jpan"@);
    assert(tags[4] == "kor_Hang"@);
    assert(tags[5] == "fra_Latn"@);
    assert(tags[6] == "deu_Latn"@);
    assert(tags[7] == "spa_Latn"@);
    assert(tags[8] == "rus_Cyrl"@);
    assert(tags[9] == "arb_Arab"@);
    assert(codes[0] == "zh"@);
    assert(codes[1] == "zh-CN"@);
    assert(codes[2] == "zh-TW"@);
    assert(codes[3] == "en"@);
    assert(codes[4] == "ja"@);
    assert(codes[5] == "ko"@);
    assert(codes[6] == "fr"@);
    assert(codes[7] == "de"@);
    assert(codes[8] == "es"@);
    assert(codes[9] == "ru"@);
    assert(codes[10] == "ar"@);
}

/// Maps an ISO 639-1 code to its NLLB tag (best effort).
pub fn iso_to_nllb(lang: &str) -> (r: String)
    ensures
        r@ == spec_iso_to_nllb(lang@),
{
    if str_eq(lang, "zh") || str_eq(lang, "zh-CN") || str_eq(lang, "zho_Hans") {
        String::from_str("zho_Hans")
    } else if str_eq(lang, "zh-TW") || str_eq(lang, "zho_Hant") {
        String::from_str("zho_Hant")
    } else if str_eq(lang, "en") || str_eq(lang, "eng_Latn") {
        String::from_str("eng_Latn")
    } else if str_eq(lang, "ja") || str_eq(lang, "jpn_Jpan") {
        String::from_str("jpn_Jpan")
    } else if str_eq(lang, "ko") || str_eq(lang, "kor_Hang") {
        String::from_str("kor_Hang")
    } else if str_eq(lang, "fr") || str_eq(lang, "fra_Latn") {
        String::from_str("fra_Latn")
    } else if str_eq(lang, "de") || str_eq(lang, "deu_Latn") {
        String::from_str("deu_Latn")
    } else if str_eq(lang, "es") || str_eq(lang, "spa_Latn") {
        String::from_str("spa_Latn")
    } else if str_eq(lang, "ru") || str_eq(lang, "rus_Cyrl") {
        String::from_str("rus_Cyrl")
    } else if str_eq(lang, "ar") || str_eq(lang, "arb_Arab") {
        String::from_str("arb_Arab")
    } else {
        String::from_str(lang)
    }
}

/// The two-letter code MadLad-400 expects for a target language; codes it
/// does not know pass through unchanged.
pub open spec fn spec_madlad_target(lang: Seq<char>) -> Seq<char> {
    if lang == "zh"@ || lang == "zh-CN"@ || lang == "zho_Hans"@ || lang == "zh-TW"@ || lang
        == "zho_Hant"@ {
        "zh"@
    } else if lang == "en"@ || lang == "eng_Latn"@ {
        "en"@
    } else if lang == "ja"@ || lang == "jpn_Jpan"@ {
        "ja"@
    } else if lang == "ko"@ || lang == "kor_Hang"@ {
        "ko"@
    } else if lang == "fr"@ || lang == "fra_Latn"@ {
        "fr"@
    } else if lang == "de"@ || lang == "deu_Latn"@ {
        "de"@
    } else if lang == "es"@ || lang == "spa_Latn"@ {
        "es"@
    } else {
        lang
    }
}

/// The MadLad-400 target code of `lang`.
pub fn madlad_target(lang: &str) -> (r: String)
    ensures
        r@ == spec_madlad_target(lang@),
{
    if str_eq(lang, "zh") || str_eq(lang, "zh-CN") || str_eq(lang, "zho_Hans") || str_eq(lang, "zh-TW")
        || str_eq(lang, "zho_Hant") {
        String::from_str("zh")
    } else if str_eq(lang, "en") || str_eq(lang, "eng_Latn") {
        String::from_str("en")
    } else if str_eq(lang, "ja") || str_eq(lang, "jpn_Jpan") {
        String::from_str("ja")
    } else if str_eq(lang, "ko") || str_eq(lang, "kor_Hang") {
        String::from_str("ko")
    } else if str_eq(lang, "fr") || str_eq(lang, "fra_Latn") {
        String::from_str("fr")
    } else if str_eq(lang, "de") || str_eq(lang, "deu_Latn") {
        String::from_str("de")
    } else if str_eq(lang, "es") || str_eq(lang, "spa_Latn") {
        String::from_str("es")
    } else {
        String::from_str(lang)
    }
}

/// The family a model id loads as: its catalogued family, else OPUS-MT.
pub fn model_family(model_id: &str) -> (r: MtModelFamily)
    ensures
        r == match spec_family_of(model_id@) {
            Some(f) => f,
            None => MtModelFamily::OpusMt,
        },
{
    match get_model(model_id) {
        Some(m) => m.family,
        None => MtModelFamily::OpusMt,
    }
}

/// The NLLB tag to look up in the vocabulary for `lang`: only NLLB models
/// carry language tokens.
pub fn language_token_tag(family: MtModelFamily, lang: &str) -> (r: Option<String>)
    ensures
        match r {
            Some(t) => family == MtModelFamily::Nllb200 && t@ == spec_iso_to_nllb(lang@),
            None => family != MtModelFamily::Nllb200,
        },
{
    match family {
        MtModelFamily::Nllb200 => Some(iso_to_nllb(lang)),
        _ => None,
    }
}

/// The directory of a model: `model_id` under `model_dir`.
pub fn model_dir_path(model_dir: &str, model_id: &str) -> (r: String)
    ensures
        r@ == path_join(model_dir@, model_id@),
{
    join_path(model_dir, model_id)
}

/// The files of a Marian / NLLB model in `dir`: the encoder, the merged
/// decoder (with past key-values), the plain decoder and the tokenizer.
pub fn marian_model_paths(dir: &str) -> (r: (String, String, String, String))
    ensures
        r.0@ == path_join(dir@, "encoder_model.onnx"@),
        r.1@ == path_join(dir@, "decoder_model_merged.onnx"@),
        r.2@ == path_join(dir@, "decoder_model.onnx"@),
        r.3@ == path_join(dir@, "tokenizer.json"@),
{
    (
        join_path(dir, "encoder_model.onnx"),
        join_path(dir, "decoder_model_merged.onnx"),
        join_path(dir, "decoder_model.onnx"),
        join_path(dir, "tokenizer.json"),
    )
}

/// The encoder must exist in the model directory `dir`.
pub fn check_encoder(dir: &str, encoder_exists: bool) -> (r: Result<(), MtLocalError>)
    ensures
        encoder_exists <==> r is Ok,
        r matches Err(e) ==> (e matches MtLocalError::Model(m) && m@ == "encoder_model.onnx not found in "@
            + dir@),
{
    if encoder_exists {
        Ok(())
    } else {
        let mut m = String::from_str("encoder_model.onnx not found in ");
        m.append(dir);
        Err(MtLocalError::Model(m))
    }
}

/// The decoder to load: the merged one (with past key-values) when present —
/// `Ok(true)` — else the plain one — `Ok(false)` —, else an error.
pub fn choose_decoder(dir: &str, merged_exists: bool, plain_exists: bool) -> (r: Result<bool, MtLocalError>)
    ensures
        merged_exists ==> r == Ok::<bool, MtLocalError>(true),
        !merged_exists && plain_exists ==> r == Ok::<bool, MtLocalError>(false),
        !merged_exists && !plain_exists ==> (r matches Err(MtLocalError::Model(m)) && m@
            == "neither decoder_model_merged.onnx nor decoder_model.onnx found in "@ + dir@),
{
    if merged_exists {
        Ok(true)
    } else if plain_exists {
        Ok(false)
    } else {
        let mut m = String::from_str("neither decoder_model_merged.onnx nor decoder_model.onnx found in ");
        m.append(dir);
        Err(MtLocalError::Model(m))
    }
}

/// The tokenizer must exist in the model directory `dir`.
pub fn check_tokenizer(dir: &str, tokenizer_exists: bool) -> (r: Result<(), MtLocalError>)
    ensures
        tokenizer_exists <==> r is Ok,
        r matches Err(e) ==> (e matches MtLocalError::Tokenizer(m) && m@ == "tokenizer.json not found in "@
            + dir@),
{
    if tokenizer_exists {
        Ok(())
    } else {
        let mut m = String::from_str("tokenizer.json not found in ");
        m.append(dir);
        Err(MtLocalError::Tokenizer(m))
    }
}

/// The id of a special token: the first of two vocabulary lookups that found
/// one, else `default`.
pub open spec fn spec_special_id(primary: Option<u32>, fallback: Option<u32>, default: i64) -> i64 {
    match primary {
        Some(p) => p as i64,
        None => match fallback {
            Some(f) => f as i64,
            None => default,
        },
    }
}

/// The id of a special token from two vocabulary lookups (see
/// [`spec_special_id`]).
pub fn special_token_id(primary: Option<u32>, fallback: Option<u32>, default: i64) -> (r: i64)
    ensures
        r == spec_special_id(primary, fallback, default),
{
    match primary {
        Some(p) => p as i64,
        None => match fallback {
            Some(f) => f as i64,
            None => default,
        },
    }
}

/// The encoder input: the source-language token (NLLB) in front of the text's
/// token ids, and the end-of-sequence token at the end unless already there.
pub open spec fn spec_encoder_ids(ids: Seq<i64>, language_token: Option<i64>, eos_id: i64) -> Seq<i64> {
    let with_lang = match language_token {
        Some(t) => seq![t] + ids,
        None => ids,
    };
    if with_lang.len() > 0 && with_lang.last() == eos_id {
        with_lang
    } else {
        with_lang.push(eos_id)
    }
}

/// Builds the encoder input from the text's token ids.
pub fn encoder_input_ids(ids: Vec<i64>, language_token: Option<i64>, eos_id: i64) -> (r: Vec<i64>)
    ensures
        r@ == spec_encoder_ids(ids@, language_token, eos_id),
{
    let mut out: Vec<i64> = Vec::new();
    if let Some(t) = language_token {
        out.push(t);
    }
    let ghost prefix = out@;
    let mut i: usize = 0;
    while i < ids.len()
        invariant
            i <= ids@.len(),
            out@ == prefix + ids@.take(i as int),
        decreases ids@.len() - i,
    {
        out.push(ids[i]);
        assert(prefix + ids@.take(i + 1) =~= (prefix + ids@.take(i as int)).push(ids@[i as int]));
        i += 1;
    }
    assert(ids@.take(ids@.len() as int) =~= ids@);
    assert(out@ =~= match language_token {
        Some(t) => seq![t] + ids@,
        None => ids@,
    });
    let n = out.len();
    if n == 0 || out[n - 1] != eos_id {
        out.push(eos_id);
    }
    out
}

/// The most decoder steps of one translation.
pub const DEFAULT_MAX_LENGTH: usize = 256;

/// Greedy decoding: the tokens generated so far, starting with the first
/// decoder token (the target-language token for NLLB, else the model's
/// beginning token).
#[derive(Debug)]
pub struct GreedyDecode {
    generated: Vec<i64>,
    bos_id: i64,
    eos_id: i64,
    steps: usize,
}

impl GreedyDecode {
    /// The tokens fed to the decoder so far.
    pub closed spec fn tokens(&self) -> Seq<i64> {
        self.generated@
    }

    /// The first decoder token.
    pub closed spec fn first_token(&self) -> i64 {
        self.bos_id
    }

    /// The end-of-sequence token.
    pub closed spec fn end_token(&self) -> i64 {
        self.eos_id
    }

    /// The decoder steps taken.
    pub closed spec fn step_count(&self) -> nat {
        self.steps as nat
    }

    /// The search's invariant: the first token leads the tokens, and each
    /// step added at most one token, within [`DEFAULT_MAX_LENGTH`] steps.
    pub closed spec fn wf(&self) -> bool {
        &&& self.generated@.len() >= 1
        &&& self.generated@[0] == self.bos_id
        &&& self.generated@.len() <= self.steps + 1
        &&& self.steps <= DEFAULT_MAX_LENGTH
    }

    /// Starts decoding with the target-language token when there is one,
    /// else with `bos_id`.
    pub fn new(target_token: Option<i64>, bos_id: i64, eos_id: i64) -> (r: Self)
        ensures
            r.first_token() == match target_token {
                Some(t) => t,
                None => bos_id,
            },
            r.end_token() == eos_id,
            r.tokens() == seq![r.first_token()],
            r.step_count() == 0,
            r.wf(),
    {
        let first = match target_token {
            Some(t) => t,
            None => bos_id,
        };
        let mut generated: Vec<i64> = Vec::new();
        generated.push(first);
        GreedyDecode { generated, bos_id: first, eos_id, steps: 0 }
    }

    /// The decoder input of the next step.
    pub fn decoder_input(&self) -> (r: &[i64])
        ensures
            r@ == self.tokens(),
    {
        self.generated.as_slice()
    }

    /// Takes the token the decoder chose; returns whether to run another
    /// step. The end token stops decoding without being kept; any other token
    /// is appended, and decoding stops after [`DEFAULT_MAX_LENGTH`] steps.
    pub fn accept(&mut self, next_id: i64) -> (r: bool)
        requires
            old(self).wf(),
            old(self).step_count() < DEFAULT_MAX_LENGTH,
        ensures
            final(self).wf(),
            final(self).first_token() == old(self).first_token(),
            final(self).end_token() == old(self).end_token(),
            final(self).step_count() == old(self).step_count() + 1,
            next_id == old(self).end_token() ==> !r && final(self).tokens() == old(self).tokens(),
            next_id != old(self).end_token() ==> final(self).tokens() == old(self).tokens().push(next_id)
                && r == (final(self).step_count() < DEFAULT_MAX_LENGTH),
    {
        self.steps = self.steps + 1;
        if next_id == self.eos_id {
            return false;
        }
        self.generated.push(next_id);
        self.steps < DEFAULT_MAX_LENGTH
    }

    /// The generated tokens without the leading first token: never more than
    /// [`DEFAULT_MAX_LENGTH`] of them.
    pub fn finish(self) -> (r: Vec<i64>)
        requires
            self.wf(),
        ensures
            r@ == self.tokens().drop_first(),
            r@.len() <= DEFAULT_MAX_LENGTH,
    {
        let mut g = self.generated;
        g.remove(0);
        g
    }
}

/// The text to translate: the input trimmed, or nothing when blank (a blank
/// input translates to the empty text without running the model).
pub fn translation_input(text: &str) -> (r: Option<String>)
    ensures
        match r {
            Some(t) => t@ == trim(text@) && t@.len() > 0,
            None => trim(text@).len() == 0,
        },
{
    let t = trim_str(text);
    if t.as_str().is_empty() {
        None
    } else {
        Some(t)
    }
}

/// The tokenizer type of the `tokenizers` crate.
#[verifier::external_type_specification]
#[verifier::external_body]
pub struct ExTokenizer(Tokenizer);

/// The tokenizer of an offline translation model together with the
/// `tokenizer.json` text it was read from. It is made only by
/// [`tokenizer_from_json`], which parses exactly the bytes it records.
pub struct MtTokenizer {
    inner: Tokenizer,
    source: Ghost<Seq<u8>>,
}

impl MtTokenizer {
    /// The `tokenizer.json` bytes the tokenizer was read from.
    pub closed spec fn spec_source(&self) -> Seq<u8> {
        self.source@
    }
}

/// The vocabulary of the tokenizer read from `source`, added tokens included
/// (an added token taking precedence over the model's entry for the same
/// text): the map `Tokenizer::get_vocab(true)` gives and
/// `Tokenizer::token_to_id` reads.
pub uninterp spec fn tokenizer_vocab(source: Seq<u8>) -> Map<Seq<char>, u32>;

/// What `Tokenizer::decode` (special tokens skipped) gives for `ids` with the
/// tokenizer read from `source`: the text, or the text of its error.
pub uninterp spec fn tokenizer_decoded(source: Seq<u8>, ids: Seq<u32>) -> Result<Seq<char>, Seq<char>>;

/// Whether `ids` is a token sequence that `Tokenizer::encode` (special tokens
/// added) may give for `text` with the tokenizer read from `source`; the
/// model may draw at random (BPE dropout), so more than one may be possible.
pub uninterp spec fn tokenizer_may_encode(source: Seq<u8>, text: Seq<char>, ids: Seq<u32>) -> bool;

/// `Tokenizer::from_bytes`: the tokenizer described by the JSON `bytes`, or
/// the text of the parse error. Nothing is stated of the tokenizer here;
/// [`tokenizer_from_json`] records the bytes it came from.
#[verifier::external_body]
fn parse_tokenizer(bytes: &[u8]) -> (r: Result<Tokenizer, String>) {
    match Tokenizer::from_bytes(bytes) {
        Ok(t) => Ok(t),
        Err(e) => Err(e.to_string()),
    }
}

/// Reads a tokenizer from the text of a `tokenizer.json`; a parse failure is
/// a tokenizer error `load tokenizer: ...`.
pub fn tokenizer_from_json(bytes: &[u8]) -> (r: Result<MtTokenizer, MtLocalError>)
    ensures
        r matches Ok(t) ==> t.spec_source() == bytes@,
        r matches Err(e) ==> (e matches MtLocalError::Tokenizer(m) && exists|detail: Seq<char>| m@
            == "load tokenizer: "@ + detail),
{
    match parse_tokenizer(bytes) {
        Ok(inner) => Ok(MtTokenizer { inner, source: Ghost(bytes@) }),
        Err(detail) => {
            let mut m = String::from_str("load tokenizer: ");
            m.append(detail.as_str());
            proof {
                assert(m@ == "load tokenizer: "@ + detail@);
            }
            Err(MtLocalError::Tokenizer(m))
        },
    }
}

/// `Tokenizer::token_to_id`: the id of `token` in the tokenizer's vocabulary
/// (its added tokens first, then its model's), or `None` when absent.
#[verifier::external_body]
fn vocab_id(tokenizer: &MtTokenizer, token: &str) -> (r: Option<u32>)
    ensures
        r == tokenizer_vocab(tokenizer.spec_source()).get(token@),
{
    tokenizer.inner.token_to_id(token)
}

/// `Tokenizer::encode` with special tokens added, then `Encoding::get_ids`:
/// token ids that the tokenizer may give for `text`, or the tokenizer's error
/// as text (which may also depend on chance, so nothing is stated of it).
#[verifier::external_body]
fn encode_ids(tokenizer: &MtTokenizer, text: &str) -> (r: Result<Vec<u32>, String>)
    ensures
        r matches Ok(ids) ==> tokenizer_may_encode(tokenizer.spec_source(), text@, ids@),
{
    match tokenizer.inner.encode(text, true) {
        Ok(encoding) => Ok(encoding.get_ids().to_vec()),
        Err(e) => Err(e.to_string()),
    }
}

/// `Tokenizer::decode` with special tokens skipped: the text of `ids`, or the
/// tokenizer's error as text.
#[verifier::external_body]
fn decode_ids(tokenizer: &MtTokenizer, ids: &[u32]) -> (r: Result<String, String>)
    ensures
        match r {
            Ok(t) => tokenizer_decoded(tokenizer.spec_source(), ids@) == Ok::<Seq<char>, Seq<char>>(t@),
            Err(m) => tokenizer_decoded(tokenizer.spec_source(), ids@) == Err::<Seq<char>, Seq<char>>(m@),
        },
{
    match tokenizer.inner.decode(ids, true) {
        Ok(text) => Ok(text),
        Err(e) => Err(e.to_string()),
    }
}

/// The decoder's first token in a vocabulary: the id of `<pad>`, else of
/// `[BOS]`, else 0.
pub open spec fn spec_bos_id(vocab: Map<Seq<char>, u32>) -> i64 {
    spec_special_id(vocab.get("<pad>"@), vocab.get("[BOS]"@), 0)
}

/// The end-of-sequence token in a vocabulary: the id of `</s>`, else of
/// `[EOS]`, else 2.
pub open spec fn spec_eos_id(vocab: Map<Seq<char>, u32>) -> i64 {
    spec_special_id(vocab.get("</s>"@), vocab.get("[EOS]"@), 2)
}

/// The language token for `lang` in a vocabulary: NLLB models only, and
/// only when the NLLB tag is in the vocabulary.
pub open spec fn spec_language_id(vocab: Map<Seq<char>, u32>, family: MtModelFamily, lang: Seq<char>) -> Option<
    i64,
> {
    if family == MtModelFamily::Nllb200 {
        match vocab.get(spec_iso_to_nllb(lang)) {
            Some(id) => Some(id as i64),
            None => None,
        }
    } else {
        None
    }
}

/// The decoder's first token (see [`spec_bos_id`]).
pub fn bos_token_id(tokenizer: &MtTokenizer) -> (r: i64)
    ensures
        r == spec_bos_id(tokenizer_vocab(tokenizer.spec_source())),
{
    let p = vocab_id(tokenizer, "<pad>");
    let f = vocab_id(tokenizer, "[BOS]");
    special_token_id(p, f, 0)
}

/// The end-of-sequence token (see [`spec_eos_id`]).
pub fn eos_token_id(tokenizer: &MtTokenizer) -> (r: i64)
    ensures
        r == spec_eos_id(tokenizer_vocab(tokenizer.spec_source())),
{
    let p = vocab_id(tokenizer, "</s>");
    let f = vocab_id(tokenizer, "[EOS]");
    special_token_id(p, f, 2)
}

/// The vocabulary id of the language token for `lang` (see
/// [`spec_language_id`]).
pub fn language_token_id(tokenizer: &MtTokenizer, family: MtModelFamily, lang: &str) -> (r: Option<i64>)
    ensures
        r == spec_language_id(tokenizer_vocab(tokenizer.spec_source()), family, lang@),
        family != MtModelFamily::Nllb200 ==> r.is_none(),
        r matches Some(t) ==> 0 <= t <= u32::MAX,
{
    match language_token_tag(family, lang) {
        Some(tag) => match vocab_id(tokenizer, tag.as_str()) {
            Some(id) => Some(id as i64),
            None => None,
        },
        None => None,
    }
}

/// Token ids widened to the model's integer type.
pub open spec fn widen_ids(ids: Seq<u32>) -> Seq<i64> {
    ids.map_values(|x: u32| x as i64)
}

/// The encoder input built from the tokenizer's ids of the text.
pub open spec fn spec_encoded(raw: Seq<u32>, language_token: Option<i64>, eos_id: i64) -> Seq<i64> {
    spec_encoder_ids(widen_ids(raw), language_token, eos_id)
}

fn widen(ids: &Vec<u32>) -> (r: Vec<i64>)
    ensures
        r@ == widen_ids(ids@),
{
    let mut out: Vec<i64> = Vec::new();
    let mut i: usize = 0;
    while i < ids.len()
        invariant
            i <= ids@.len(),
            out@ == widen_ids(ids@.take(i as int)),
        decreases ids@.len() - i,
    {
        out.push(ids[i] as i64);
        assert(widen_ids(ids@.take(i + 1)) =~= widen_ids(ids@.take(i as int)).push(ids@[i as int] as i64));
        i += 1;
    }
    assert(ids@.take(ids@.len() as int) =~= ids@);
    out
}

/// Encodes `text` for the encoder: the tokenizer's ids of the text, with the
/// source-language token in front for NLLB models and the end-of-sequence
/// token at the end (see [`spec_encoder_ids`]). A tokenizer failure is a
/// tokenizer error whose message starts with `encode: `.
pub fn encode_text(tokenizer: &MtTokenizer, family: MtModelFamily, src_lang: &str, text: &str) -> (r: Result<
    Vec<i64>,
    MtLocalError,
>)
    ensures
        r matches Ok(ids) ==> exists|raw: Seq<u32>| tokenizer_may_encode(tokenizer.spec_source(), text@, raw)
            && ids@ == #[trigger] spec_encoded(
            raw,
            spec_language_id(tokenizer_vocab(tokenizer.spec_source()), family, src_lang@),
            spec_eos_id(tokenizer_vocab(tokenizer.spec_source())),
        ),
        r matches Err(e) ==> (e matches MtLocalError::Tokenizer(m) && exists|detail: Seq<char>| m@
            == "encode: "@ + detail),
{
    let raw = match encode_ids(tokenizer, text) {
        Ok(ids) => ids,
        Err(detail) => {
            let mut m = String::from_str("encode: ");
            m.append(detail.as_str());
            proof {
                assert(m@ == "encode: "@ + detail@);
            }
            return Err(MtLocalError::Tokenizer(m));
        },
    };
    let ids = widen(&raw);
    let lang = language_token_id(tokenizer, family, src_lang);
    let eos = eos_token_id(tokenizer);
    let out = encoder_input_ids(ids, lang, eos);
    assert(out@ == spec_encoded(raw@, lang, eos));
    Ok(out)
}

/// The translation handed out for decoded text: the text, trimmed.
pub fn translation_output(decoded: &str) -> (r: String)
    ensures
        r@ == trim(decoded@),
{
    trim_str(decoded)
}

/// Token ids narrowed to the tokenizer's integer type.
pub open spec fn narrow_ids(ids: Seq<i64>) -> Seq<u32> {
    ids.map_values(|x: i64| x as u32)
}

fn narrow(ids: &[i64]) -> (r: Vec<u32>)
    ensures
        r@ == narrow_ids(ids@),
{
    let mut out: Vec<u32> = Vec::new();
    let mut i: usize = 0;
    while i < ids.len()
        invariant
            i <= ids@.len(),
            out@ == narrow_ids(ids@.take(i as int)),
        decreases ids@.len() - i,
    {
        out.push(ids[i] as u32);
        assert(narrow_ids(ids@.take(i + 1)) =~= narrow_ids(ids@.take(i as int)).push(ids@[i as int] as u32));
        i += 1;
    }
    assert(ids@.take(ids@.len() as int) =~= ids@);
    out
}

/// Turns generated token ids back into text, special tokens skipped: the
/// tokenizer's decoding of the ids (narrowed to its integer type), or, when
/// that fails, a tokenizer error `decode: ` followed by its error text.
pub fn decode_text(tokenizer: &MtTokenizer, ids: &[i64]) -> (r: Result<String, MtLocalError>)
    ensures
        match tokenizer_decoded(tokenizer.spec_source(), narrow_ids(ids@)) {
            Ok(t) => r matches Ok(s) && s@ == t,
            Err(d) => r matches Err(MtLocalError::Tokenizer(m)) && m@ == "decode: "@ + d,
        },
{
    let narrowed = narrow(ids);
    match decode_ids(tokenizer, narrowed.as_slice()) {
        Ok(text) => Ok(text),
        Err(detail) => {
            let mut m = String::from_str("decode: ");
            m.append(detail.as_str());
            proof {
                assert(m@ == "decode: "@ + detail@);
            }
            Err(MtLocalError::Tokenizer(m))
        },
    }
}

/// What a MadLad reply gives: its `error` field (when a string) is an
/// inference error `madlad error: ...`; otherwise its `translation` field
/// (empty when absent), trimmed.
pub fn madlad_reply(error: Option<&str>, translation: Option<&str>) -> (r: Result<String, MtLocalError>)
    ensures
        match error {
            Some(e) => r matches Err(MtLocalError::Inference(m)) && m@ == "madlad error: "@ + e@,
            None => r matches Ok(t) && t@ == match translation {
                Some(x) => trim(x@),
                None => Seq::empty(),
            },
        },
{
    match error {
        Some(e) => {
            let mut m = String::from_str("madlad error: ");
            m.append(e);
            Err(MtLocalError::Inference(m))
        },
        None => match translation {
            Some(x) => Ok(trim_str(x)),
            None => Ok(String::new()),
        },
    }
}

} // verus!
