//! The Groq adapter: a clean REST catalog whose records are normalized
//! with keyword heuristics and a display-name formatter.

use vstd::prelude::*;
use crate::models::{ModelInfo, ModelType};
use crate::text::{
    all_digits, capitalize_first, capitalize_first_chars, chars_eq, chars_of, contains_chars,
    contains_seq, has_digit, is_digit_char, is_digit_char_exec, join_chars, join_with, lower_chars,
    lower_seq, replace_char_chars, replace_char_spec, split_char, split_char_chars, split_ws,
    split_ws_chars, string_from_chars, upper_chars, upper_seq, views_of,
};
use vstd::string::StringExecFns;

verus! {

/// One model record of the Groq catalog response.
#[derive(Debug)]
pub struct GroqModel {
    pub id: String,
    pub object: String,
    pub created: i64,
    pub owned_by: String,
    pub active: bool,
    pub context_window: i32,
    pub max_completion_tokens: Option<i32>,
}

/// The Groq catalog response.
#[derive(Debug)]
pub struct GroqApiResponse {
    pub object: String,
    pub data: Vec<GroqModel>,
}

/// The model type inferred from a Groq model id.
pub open spec fn spec_groq_model_type(id: Seq<char>) -> ModelType {
    let l = lower_seq(id);
    if contains_seq(l, "whisper"@) || contains_seq(l, "tts"@) {
        ModelType::Audio
    } else if contains_seq(l, "embedding"@) {
        ModelType::Embedding
    } else if contains_seq(l, "image"@) || contains_seq(l, "dall"@) || contains_seq(
        l,
        "stable"@,
    ) {
        ModelType::ImageGeneration
    } else {
        ModelType::Chat
    }
}

pub open spec fn spec_groq_vision(id: Seq<char>) -> bool {
    let l = lower_seq(id);
    contains_seq(l, "vision"@) || contains_seq(l, "multimodal"@)
}

/// Function calling is assumed except for audio and guard models.
pub open spec fn spec_groq_function_call(id: Seq<char>) -> bool {
    let l = lower_seq(id);
    !contains_seq(l, "whisper"@) && !contains_seq(l, "tts"@) && !contains_seq(l, "guard"@)
}

pub open spec fn spec_groq_reasoning(id: Seq<char>) -> bool {
    let l = lower_seq(id);
    contains_seq(l, "r1"@) || contains_seq(l, "reasoning"@) || contains_seq(l, "o1"@)
}

/// How one word of a Groq model id is rendered in a display name.
pub open spec fn spec_groq_word(w: Seq<char>) -> Seq<char> {
    if w.len() <= 2 || all_digits(w) {
        upper_seq(w)
    } else if w == "llama"@ {
        "LLaMA"@
    } else if w == "gpt"@ {
        "GPT"@
    } else if w == "oss"@ {
        "OSS"@
    } else if w == "tts"@ {
        "TTS"@
    } else if has_digit(w) && w.len() <= 4 {
        upper_seq(w)
    } else {
        capitalize_first(w)
    }
}

/// The formatted name: the id after its last `/`, hyphens and
/// underscores as spaces, each word rendered, joined by spaces.
pub open spec fn spec_groq_formatted(id: Seq<char>) -> Seq<char> {
    let clean = split_char(id, '/').last();
    let words = split_ws(replace_char_spec(replace_char_spec(clean, '-', ' '), '_', ' '));
    join_with(words.map_values(|w: Seq<char>| spec_groq_word(w)), " "@)
}

/// The display name: the formatted id, prefixed by the owner unless the
/// owner already occurs in it (case-insensitively).
pub open spec fn spec_groq_display_name(id: Seq<char>, owner: Seq<char>) -> Seq<char> {
    let f = spec_groq_formatted(id);
    if contains_seq(lower_seq(f), lower_seq(owner)) {
        f
    } else {
        owner + ": "@ + f
    }
}

/// The normalized record for one Groq model.
pub open spec fn groq_model_matches(m: ModelInfo, g: GroqModel) -> bool {
    &&& m.id == g.id
    &&& m.name@ == spec_groq_display_name(g.id@, g.owned_by@)
    &&& m.context_length == g.context_window as u32
    &&& m.max_tokens == (match g.max_completion_tokens {
        Some(t) => t as u32,
        None => g.context_window as u32,
    })
    &&& m.vision == spec_groq_vision(g.id@)
    &&& m.function_call == spec_groq_function_call(g.id@)
    &&& m.reasoning == spec_groq_reasoning(g.id@)
    &&& m.model_type == spec_groq_model_type(g.id@)
    &&& m.description is None
}

/// The active models of the response, in response order.
pub open spec fn groq_actives(data: Seq<GroqModel>) -> Seq<GroqModel>
    decreases data.len(),
{
    if data.len() == 0 {
        Seq::empty()
    } else {
        let rest = groq_actives(data.drop_first());
        if data[0].active {
            seq![data[0]] + rest
        } else {
            rest
        }
    }
}

/// The Groq adapter; the catalog endpoint requires a credential.
pub struct GroqProvider {
    pub api_key: Option<String>,
    pub api_url: String,
}

impl GroqProvider {
    pub fn new(api_key: Option<String>) -> (r: GroqProvider)
        ensures
            r.api_key == api_key,
            r.api_url@ == "https://api.groq.com/openai/v1/models"@,
    {
        GroqProvider { api_key, api_url: String::from_str("https://api.groq.com/openai/v1/models") }
    }

    pub fn with_url(api_url: String, api_key: Option<String>) -> (r: GroqProvider)
        ensures
            r.api_key == api_key,
            r.api_url == api_url,
    {
        GroqProvider { api_key, api_url }
    }

    pub fn provider_id(&self) -> (r: &'static str)
        ensures
            r@ == "groq"@,
    {
        "groq"
    }

    pub fn provider_name(&self) -> (r: &'static str)
        ensures
            r@ == "Groq"@,
    {
        "Groq"
    }

    /// Classifies a model by keywords in its id.
    pub fn determine_model_type(&self, model_id: &str) -> (r: ModelType)
        ensures
            r == spec_groq_model_type(model_id@),
    {
        let idv = chars_of(model_id);
        let l = lower_chars(&idv);
        if contains_chars(&l, &chars_of("whisper")) || contains_chars(&l, &chars_of("tts")) {
            ModelType::Audio
        } else if contains_chars(&l, &chars_of("embedding")) {
            ModelType::Embedding
        } else if contains_chars(&l, &chars_of("image")) || contains_chars(&l, &chars_of("dall"))
            || contains_chars(&l, &chars_of("stable")) {
            ModelType::ImageGeneration
        } else {
            ModelType::Chat
        }
    }

    pub fn has_vision_capability(&self, model_id: &str) -> (r: bool)
        ensures
            r == spec_groq_vision(model_id@),
    {
        let idv = chars_of(model_id);
        let l = lower_chars(&idv);
        contains_chars(&l, &chars_of("vision")) || contains_chars(&l, &chars_of("multimodal"))
    }

    pub fn has_function_call_capability(&self, model_id: &str) -> (r: bool)
        ensures
            r == spec_groq_function_call(model_id@),
    {
        let idv = chars_of(model_id);
        let l = lower_chars(&idv);
        !contains_chars(&l, &chars_of("whisper")) && !contains_chars(&l, &chars_of("tts"))
            && !contains_chars(&l, &chars_of("guard"))
    }

    pub fn has_reasoning_capability(&self, model_id: &str) -> (r: bool)
        ensures
            r == spec_groq_reasoning(model_id@),
    {
        let idv = chars_of(model_id);
        let l = lower_chars(&idv);
        contains_chars(&l, &chars_of("r1")) || contains_chars(&l, &chars_of("reasoning"))
            || contains_chars(&l, &chars_of("o1"))
    }

    /// Formats a display name from the id and the owning organization.
    pub fn create_display_name(&self, model_id: &str, owned_by: &str) -> (r: String)
        ensures
            r@ == spec_groq_display_name(model_id@, owned_by@),
    {
        let idv = chars_of(model_id);
        let parts = split_char_chars(&idv, '/');
        let clean = &parts[parts.len() - 1];
        proof {
            assert(clean@ == views_of(parts@).last());
        }
        let r1 = replace_char_chars(clean, '-', ' ');
        let r2 = replace_char_chars(&r1, '_', ' ');
        let words = split_ws_chars(&r2);
        let ghost word_views = split_ws(r2@);
        let mut mapped: Vec<Vec<char>> = Vec::new();
        let nw = words.len();
        for i in 0..nw
            invariant
                nw == words@.len(),
                word_views == views_of(words@),
                mapped@.len() == i,
                forall|k: int| 0 <= k < i ==> (#[trigger] mapped@[k])@ == spec_groq_word(
                    word_views[k],
                ),
        {
            let w = groq_word(&words[i]);
            mapped.push(w);
        }
        proof {
            assert(views_of(mapped@) =~= word_views.map_values(|w: Seq<char>| spec_groq_word(w)));
        }
        let sep = chars_of(" ");
        let f = join_chars(&mapped, &sep);
        let fl = lower_chars(&f);
        let ov = chars_of(owned_by);
        let ol = lower_chars(&ov);
        if contains_chars(&fl, &ol) {
            string_from_chars(&f)
        } else {
            let mut out = chars_of(owned_by);
            out.push(':');
            out.push(' ');
            let m = f.len();
            let ghost base = out@;
            for j in 0..m
                invariant
                    m == f@.len(),
                    out@ == base + f@.subrange(0, j as int),
            {
                out.push(f[j]);
                proof {
                    assert(out@ =~= base + f@.subrange(0, j + 1 as int));
                }
            }
            proof {
                reveal_strlit(": ");
                assert(f@.subrange(0, m as int) =~= f@);
                assert(out@ =~= owned_by@ + ": "@ + f@);
            }
            string_from_chars(&out)
        }
    }

    /// Converts one active Groq record to its canonical form.
    pub fn convert_to_model_info(&self, groq_model: &GroqModel) -> (m: ModelInfo)
        ensures
            groq_model_matches(m, *groq_model),
    {
        let model_type = self.determine_model_type(groq_model.id.as_str());
        let display_name = self.create_display_name(
            groq_model.id.as_str(),
            groq_model.owned_by.as_str(),
        );
        let context = #[verifier::truncate] (groq_model.context_window as u32);
        let max_tokens = match groq_model.max_completion_tokens {
            Some(t) => #[verifier::truncate] (t as u32),
            None => context,
        };
        ModelInfo::new(
            groq_model.id.clone(),
            display_name,
            context,
            max_tokens,
            self.has_vision_capability(groq_model.id.as_str()),
            self.has_function_call_capability(groq_model.id.as_str()),
            self.has_reasoning_capability(groq_model.id.as_str()),
            model_type,
            None,
        )
    }

    /// Normalizes a catalog response, skipping inactive models.
    pub fn models_from_response(&self, resp: &GroqApiResponse) -> (r: Vec<ModelInfo>)
        ensures
            r@.len() == groq_actives(resp.data@).len(),
            forall|i: int| 0 <= i < r@.len() ==> groq_model_matches(
                #[trigger] r@[i],
                groq_actives(resp.data@)[i],
            ),
    {
        let ghost act = groq_actives(resp.data@);
        let mut r: Vec<ModelInfo> = Vec::new();
        let n = resp.data.len();
        proof {
            assert(resp.data@.skip(0) =~= resp.data@);
        }
        for i in 0..n
            invariant
                n == resp.data@.len(),
                act == groq_actives(resp.data@),
                r@.len() <= act.len(),
                act == act.subrange(0, r@.len() as int) + groq_actives(resp.data@.skip(i as int)),
                forall|k: int| 0 <= k < r@.len() ==> groq_model_matches(
                    #[trigger] r@[k],
                    act[k],
                ),
        {
            proof {
                assert(resp.data@.skip(i as int)[0] == resp.data@[i as int]);
                assert(resp.data@.skip(i as int).drop_first() =~= resp.data@.skip(i + 1 as int));
            }
            let g = &resp.data[i];
            if g.active {
                let ghost pre = r@.len() as int;
                let m = self.convert_to_model_info(g);
                r.push(m);
                proof {
                    let tail = groq_actives(resp.data@.skip(i + 1 as int));
                    assert(act == act.subrange(0, pre) + (seq![resp.data@[i as int]] + tail));
                    assert(act[pre] == resp.data@[i as int]);
                    assert(act.subrange(0, pre + 1) =~= act.subrange(0, pre).push(act[pre]));
                    assert(act =~= act.subrange(0, pre + 1) + tail);
                }
            }
        }
        proof {
            assert(resp.data@.skip(n as int) =~= Seq::<GroqModel>::empty());
            assert(act =~= act.subrange(0, r@.len() as int));
        }
        r
    }
}

/// Renders one word of a model id for display.
fn groq_word(w: &Vec<char>) -> (r: Vec<char>)
    ensures
        r@ == spec_groq_word(w@),
{
    let n = w.len();
    let mut digits_only = true;
    let mut any_digit = false;
    for i in 0..n
        invariant
            n == w@.len(),
            digits_only == (forall|k: int| 0 <= k < i ==> is_digit_char(#[trigger] w@[k])),
            any_digit == (exists|k: int| 0 <= k < i && is_digit_char(#[trigger] w@[k])),
    {
        if is_digit_char_exec(w[i]) {
            any_digit = true;
        } else {
            digits_only = false;
        }
    }
    if n <= 2 || digits_only {
        upper_chars(w)
    } else if chars_eq(w, &chars_of("llama")) {
        chars_of("LLaMA")
    } else if chars_eq(w, &chars_of("gpt")) {
        chars_of("GPT")
    } else if chars_eq(w, &chars_of("oss")) {
        chars_of("OSS")
    } else if chars_eq(w, &chars_of("tts")) {
        chars_of("TTS")
    } else if any_digit && n <= 4 {
        upper_chars(w)
    } else {
        capitalize_first_chars(w)
    }
}

} // verus!
