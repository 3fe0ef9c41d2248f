//! The Ollama adapter: purely template-based, with no live endpoint.
//! Every curated template is served under its own id.

use vstd::prelude::*;
use crate::models::ModelInfo;
use crate::template::{
    all_values, build_id_map, convert_template_model, emit_all, id_entries, spec_convert_template,
    TemplateModel,
};

verus! {

/// The Ollama adapter.
pub struct OllamaProvider {}

impl OllamaProvider {
    pub fn new() -> (r: OllamaProvider) {
        OllamaProvider {  }
    }

    pub fn provider_id(&self) -> (r: &'static str)
        ensures
            r@ == "ollama"@,
    {
        "ollama"
    }

    pub fn provider_name(&self) -> (r: &'static str)
        ensures
            r@ == "Ollama"@,
    {
        "Ollama"
    }

    /// Converts one curated template to its canonical record.
    pub fn convert_template_model(&self, template: &TemplateModel) -> (r: ModelInfo)
        ensures
            r == spec_convert_template(*template),
    {
        convert_template_model(template)
    }

    /// Serves every template, a later template under an already-present
    /// id replacing the earlier one.
    pub fn models_from_templates(&self, templates: &Vec<TemplateModel>) -> (r: Vec<ModelInfo>)
        ensures
            r@ == all_values(id_entries(templates@)),
    {
        let id_map = build_id_map(templates);
        emit_all(&id_map)
    }
}

} // verus!
