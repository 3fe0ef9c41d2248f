//! The OpenAI adapter: template reconciliation against the live catalog,
//! with a synthesized default record for live ids that match no curated
//! template.

use vstd::prelude::*;
use crate::models::{ModelInfo, ModelType};
use crate::template::{
    all_values, build_id_map, build_pattern_map, convert_template_model, emit_all, id_entries,
    matched_of, pattern_entries, reconcile_live_ids, spec_convert_template, unmatched_of,
    TemplateModel,
};
use crate::text::{
    capitalize_first, capitalize_first_chars, chars_of, contains_chars, contains_seq, join_chars,
    join_with, replace_char_chars, replace_char_spec, split_ws, split_ws_chars, str_contains,
    string_from_chars, views_of,
};
use vstd::string::StringExecFns;

verus! {

pub open spec fn openai_is_embedding(id: Seq<char>) -> bool {
    contains_seq(id, "embedding"@)
}

pub open spec fn openai_is_image_gen(id: Seq<char>) -> bool {
    contains_seq(id, "dall-e"@)
}

pub open spec fn openai_is_audio(id: Seq<char>) -> bool {
    contains_seq(id, "whisper"@) || contains_seq(id, "tts"@)
}

pub open spec fn openai_is_reasoning(id: Seq<char>) -> bool {
    contains_seq(id, "o1"@) || contains_seq(id, "o3"@) || contains_seq(id, "o4"@)
}

pub open spec fn openai_has_vision(id: Seq<char>) -> bool {
    contains_seq(id, "4o"@) || contains_seq(id, "gpt-4"@) || contains_seq(id, "gpt-5"@)
        || contains_seq(id, "vision"@)
}

pub open spec fn openai_has_function_call(id: Seq<char>) -> bool {
    !openai_is_embedding(id) && !openai_is_audio(id) && !contains_seq(id, "instruct"@)
}

pub open spec fn spec_openai_model_type(id: Seq<char>) -> ModelType {
    if openai_is_embedding(id) {
        ModelType::Embedding
    } else if openai_is_image_gen(id) {
        ModelType::ImageGeneration
    } else if openai_is_audio(id) {
        ModelType::Audio
    } else if contains_seq(id, "instruct"@) {
        ModelType::Completion
    } else {
        ModelType::Chat
    }
}

/// Context length and max tokens by model family.
pub open spec fn spec_openai_dims(id: Seq<char>) -> (u32, u32) {
    if contains_seq(id, "gpt-5"@) {
        (272000, 128000)
    } else if contains_seq(id, "gpt-4.1"@) {
        (1000000, 32000)
    } else if contains_seq(id, "gpt-4o"@) || contains_seq(id, "gpt-4-turbo"@) {
        (128000, 8192)
    } else if contains_seq(id, "o1"@) || contains_seq(id, "o3"@) {
        (128000, 32768)
    } else if contains_seq(id, "gpt-4-32k"@) {
        (32768, 4096)
    } else if contains_seq(id, "gpt-4"@) {
        (8192, 4096)
    } else if contains_seq(id, "16k"@) {
        (16384, 4096)
    } else if contains_seq(id, "embedding"@) {
        (8191, 8191)
    } else if contains_seq(id, "dall-e-3"@) {
        (4000, 4000)
    } else if contains_seq(id, "dall-e"@) {
        (1000, 1000)
    } else if contains_seq(id, "tts"@) || contains_seq(id, "whisper"@) {
        (4096, 4096)
    } else {
        (4096, 4096)
    }
}

/// The display name synthesized from an id: hyphens and underscores as
/// spaces, each word capitalized, joined by spaces.
pub open spec fn spec_openai_display(id: Seq<char>) -> Seq<char> {
    let words = split_ws(replace_char_spec(replace_char_spec(id, '-', ' '), '_', ' '));
    join_with(words.map_values(|w: Seq<char>| capitalize_first(w)), " "@)
}

/// The default record synthesized for a live id with no matching
/// template.
pub open spec fn openai_default_matches(m: ModelInfo, id: Seq<char>) -> bool {
    &&& m.id@ == id
    &&& m.name@ == spec_openai_display(id)
    &&& m.context_length == spec_openai_dims(id).0
    &&& m.max_tokens == spec_openai_dims(id).1
    &&& m.vision == openai_has_vision(id)
    &&& m.function_call == openai_has_function_call(id)
    &&& m.reasoning == openai_is_reasoning(id)
    &&& m.model_type == spec_openai_model_type(id)
    &&& m.description matches Some(d) && d@ == "OpenAI model "@ + id + " (auto-configured)"@
}

/// The OpenAI adapter; a credential is optional, and without one the
/// curated templates alone are served.
pub struct OpenAIProvider {
    pub api_url: String,
    pub api_key: Option<String>,
}

impl OpenAIProvider {
    pub fn new(api_key: Option<String>) -> (r: OpenAIProvider)
        ensures
            r.api_key == api_key,
            r.api_url@ == "https://api.openai.com/v1/models"@,
    {
        OpenAIProvider {
            api_url: String::from_str("https://api.openai.com/v1/models"),
            api_key,
        }
    }

    pub fn provider_id(&self) -> (r: &'static str)
        ensures
            r@ == "openai"@,
    {
        "openai"
    }

    pub fn provider_name(&self) -> (r: &'static str)
        ensures
            r@ == "OpenAI"@,
    {
        "OpenAI"
    }

    /// Converts one curated template to its canonical record.
    pub fn convert_template_model(&self, template: &TemplateModel) -> (r: ModelInfo)
        ensures
            r == spec_convert_template(*template),
    {
        convert_template_model(template)
    }

    /// Synthesizes a default record from substring heuristics on an
    /// unmatched live id.
    pub fn create_default_model(&self, model_id: &str) -> (m: ModelInfo)
        ensures
            openai_default_matches(m, model_id@),
    {
        let idv = chars_of(model_id);
        let is_embedding = contains_chars(&idv, &chars_of("embedding"));
        let is_image_gen = contains_chars(&idv, &chars_of("dall-e"));
        let is_audio = contains_chars(&idv, &chars_of("whisper")) || contains_chars(
            &idv,
            &chars_of("tts"),
        );
        let is_reasoning = contains_chars(&idv, &chars_of("o1")) || contains_chars(
            &idv,
            &chars_of("o3"),
        ) || contains_chars(&idv, &chars_of("o4"));
        let has_vision = contains_chars(&idv, &chars_of("4o")) || contains_chars(
            &idv,
            &chars_of("gpt-4"),
        ) || contains_chars(&idv, &chars_of("gpt-5")) || contains_chars(&idv, &chars_of("vision"));
        let is_instruct = contains_chars(&idv, &chars_of("instruct"));
        let has_function_call = !is_embedding && !is_audio && !is_instruct;

        let model_type = if is_embedding {
            ModelType::Embedding
        } else if is_image_gen {
            ModelType::ImageGeneration
        } else if is_audio {
            ModelType::Audio
        } else if is_instruct {
            ModelType::Completion
        } else {
            ModelType::Chat
        };

        let dims: (u32, u32) = if str_contains(model_id, "gpt-5") {
            (272000, 128000)
        } else if str_contains(model_id, "gpt-4.1") {
            (1000000, 32000)
        } else if str_contains(model_id, "gpt-4o") || str_contains(model_id, "gpt-4-turbo") {
            (128000, 8192)
        } else if str_contains(model_id, "o1") || str_contains(model_id, "o3") {
            (128000, 32768)
        } else if str_contains(model_id, "gpt-4-32k") {
            (32768, 4096)
        } else if str_contains(model_id, "gpt-4") {
            (8192, 4096)
        } else if str_contains(model_id, "16k") {
            (16384, 4096)
        } else if str_contains(model_id, "embedding") {
            (8191, 8191)
        } else if str_contains(model_id, "dall-e-3") {
            (4000, 4000)
        } else if str_contains(model_id, "dall-e") {
            (1000, 1000)
        } else if str_contains(model_id, "tts") || str_contains(model_id, "whisper") {
            (4096, 4096)
        } else {
            (4096, 4096)
        };

        let r1 = replace_char_chars(&idv, '-', ' ');
        let r2 = replace_char_chars(&r1, '_', ' ');
        let words = split_ws_chars(&r2);
        let ghost word_views = split_ws(r2@);
        let mut mapped: Vec<Vec<char>> = Vec::new();
        let nw = words.len();
        for i in 0..nw
            invariant
                nw == words@.len(),
                word_views == views_of(words@),
                mapped@.len() == i,
                forall|k: int| 0 <= k < i ==> (#[trigger] mapped@[k])@ == capitalize_first(
                    word_views[k],
                ),
        {
            let w = capitalize_first_chars(&words[i]);
            mapped.push(w);
        }
        proof {
            assert(views_of(mapped@) =~= word_views.map_values(
                |w: Seq<char>| capitalize_first(w),
            ));
        }
        let sep = chars_of(" ");
        let name_chars = join_chars(&mapped, &sep);
        let display_name = string_from_chars(&name_chars);

        let description = String::from_str("OpenAI model ").concat(model_id).concat(
            " (auto-configured)",
        );
        ModelInfo::new(
            String::from_str(model_id),
            display_name,
            dims.0,
            dims.1,
            has_vision,
            has_function_call,
            is_reasoning,
            model_type,
            Some(description),
        )
    }

    /// Reconciles the curated templates against the live id list: with no
    /// live ids every template is emitted; otherwise matched live ids
    /// carry curated metadata under the live id, and unmatched live ids
    /// get a synthesized default record, in live order after the matches.
    pub fn reconcile_models(&self, templates: &Vec<TemplateModel>, live_ids: &Vec<String>) -> (r:
        Vec<ModelInfo>)
        ensures
            live_ids@.len() == 0 ==> r@ == all_values(id_entries(templates@)),
            live_ids@.len() > 0 ==> {
                let pat = pattern_entries(templates@);
                let matched = matched_of(pat, live_ids@);
                let unmatched = unmatched_of(pat, live_ids@);
                &&& r@.len() == matched.len() + unmatched.len()
                &&& r@.subrange(0, matched.len() as int) == matched
                &&& forall|k: int| 0 <= k < unmatched.len() ==> openai_default_matches(
                    #[trigger] r@[matched.len() + k],
                    unmatched[k]@,
                )
            },
    {
        if live_ids.len() == 0 {
            let id_map = build_id_map(templates);
            emit_all(&id_map)
        } else {
            let pattern_map = build_pattern_map(templates);
            let (mut matched, unmatched) = reconcile_live_ids(&pattern_map, live_ids);
            let ghost matched_len = matched@.len() as int;
            let ghost um = unmatched@;
            proof {
                assert(matched@.subrange(0, matched_len) =~= matched@);
            }
            let n = unmatched.len();
            for k in 0..n
                invariant
                    n == um.len(),
                    um == unmatched@,
                    0 <= matched_len,
                    matched@.len() == matched_len + k,
                    matched@.subrange(0, matched_len) == matched_of(
                        pattern_entries(templates@),
                        live_ids@,
                    ),
                    forall|j: int| 0 <= j < k ==> openai_default_matches(
                        #[trigger] matched@[matched_len + j],
                        um[j]@,
                    ),
            {
                let m = self.create_default_model(unmatched[k].as_str());
                matched.push(m);
                proof {
                    assert(matched@.subrange(0, matched_len) =~= matched@.drop_last().subrange(
                        0,
                        matched_len,
                    ));
                }
            }
            matched
        }
    }
}

} // verus!
