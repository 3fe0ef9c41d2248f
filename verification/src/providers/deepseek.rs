//! The documentation-scraping adapter for DeepSeek: an ordered fallback
//! chain that parses the pricing page's model table and, when nothing can
//! be extracted, falls back to a fixed table whose values are part of the
//! adapter's contract.

use vstd::prelude::*;
use crate::collections::{assoc_update, StrMap};
use crate::models::{ModelInfo, ModelType};
use crate::scrape::{extract_tables, html_tables_of, table_views};
use crate::text::{contains_seq, str_contains, trim_spec, trim_str, upper_seq, upper_str};
use vstd::string::StringExecFns;

verus! {

/// A detail record scraped (or defaulted) for one DeepSeek model.
#[derive(Debug)]
pub struct DeepSeekModelDetails {
    pub name: String,
    pub context_length: u32,
    pub max_tokens: u32,
    pub description: String,
    pub vision: bool,
    pub function_call: bool,
    pub reasoning: bool,
}

/// The ghost mirror of a detail record.
pub struct DetailsView {
    pub name: Seq<char>,
    pub context_length: u32,
    pub max_tokens: u32,
    pub description: Seq<char>,
    pub vision: bool,
    pub function_call: bool,
    pub reasoning: bool,
}

impl View for DeepSeekModelDetails {
    type V = DetailsView;

    open spec fn view(&self) -> DetailsView {
        DetailsView {
            name: self.name@,
            context_length: self.context_length,
            max_tokens: self.max_tokens,
            description: self.description@,
            vision: self.vision,
            function_call: self.function_call,
            reasoning: self.reasoning,
        }
    }
}

/// Detail-map entries with record views in place of records.
pub open spec fn detail_entries(s: Seq<(Seq<char>, DeepSeekModelDetails)>) -> Seq<
    (Seq<char>, DetailsView),
> {
    s.map_values(|p: (Seq<char>, DeepSeekModelDetails)| (p.0, p.1@))
}

/// Replacing under a key commutes with taking record views.
proof fn lemma_detail_entries_update(
    s: Seq<(Seq<char>, DeepSeekModelDetails)>,
    k: Seq<char>,
    v: DeepSeekModelDetails,
)
    ensures
        detail_entries(crate::collections::assoc_update(s, k, v)) == assoc_update(
            detail_entries(s),
            k,
            v@,
        ),
    decreases s.len(),
{
    if s.len() == 0 {
        assert(detail_entries(crate::collections::assoc_update(s, k, v)) =~= assoc_update(
            detail_entries(s),
            k,
            v@,
        ));
    } else if s[0].0 == k {
        assert(detail_entries(crate::collections::assoc_update(s, k, v)) =~= assoc_update(
            detail_entries(s),
            k,
            v@,
        ));
    } else {
        lemma_detail_entries_update(s.drop_first(), k, v);
        assert(detail_entries(s).drop_first() =~= detail_entries(s.drop_first()));
        assert(detail_entries(crate::collections::assoc_update(s, k, v)) =~= assoc_update(
            detail_entries(s),
            k,
            v@,
        ));
    }
}

/// The detail record built for `deepseek-chat` from a scraped details
/// column.
pub open spec fn spec_chat_details(details: Seq<char>) -> DetailsView {
    DetailsView {
        name: "DeepSeek Chat"@,
        context_length: 128000,
        max_tokens: 8192,
        description:
            "DeepSeek-V3.1 (Non-thinking Mode) - High-performance conversational AI model with 128K context window. "@
            + details,
        vision: false,
        function_call: true,
        reasoning: false,
    }
}

/// The detail record built for `deepseek-reasoner` from a scraped details
/// column.
pub open spec fn spec_reasoner_details(details: Seq<char>) -> DetailsView {
    DetailsView {
        name: "DeepSeek Reasoner"@,
        context_length: 128000,
        max_tokens: 65536,
        description:
            "DeepSeek-V3.1 (Thinking Mode) - Advanced reasoning model with extended output capabilities. "@
            + details,
        vision: false,
        function_call: false,
        reasoning: true,
    }
}

/// The fixed fallback record for `deepseek-chat`.
pub open spec fn spec_fallback_chat() -> DetailsView {
    DetailsView {
        name: "DeepSeek Chat"@,
        context_length: 128000,
        max_tokens: 8192,
        description:
            "DeepSeek-V3.1 (Non-thinking Mode) - High-performance conversational AI model with function calling support and 128K context window. Supports JSON output, function calling, chat prefix completion, and FIM completion."@,
        vision: false,
        function_call: true,
        reasoning: false,
    }
}

/// The fixed fallback record for `deepseek-reasoner`.
pub open spec fn spec_fallback_reasoner() -> DetailsView {
    DetailsView {
        name: "DeepSeek Reasoner"@,
        context_length: 128000,
        max_tokens: 65536,
        description:
            "DeepSeek-V3.1 (Thinking Mode) - Advanced reasoning model with extended output capabilities up to 64K tokens. Supports JSON output and chat prefix completion. Automatically switches to deepseek-chat when function calling is needed."@,
        vision: false,
        function_call: false,
        reasoning: true,
    }
}

/// One row of the model table: a header row turns data parsing on; a data
/// row naming a known model stores its detail record, later rows
/// replacing earlier ones.
pub open spec fn row_step(
    acc: Seq<(Seq<char>, DetailsView)>,
    parsing: bool,
    row: Seq<Seq<char>>,
) -> (Seq<(Seq<char>, DetailsView)>, bool) {
    if row.len() >= 2 {
        let first = trim_spec(row[0]);
        if contains_seq(upper_seq(first), "MODEL"@) {
            (acc, true)
        } else if parsing {
            let details = trim_spec(row[1]);
            let acc1 = if contains_seq(first, "deepseek-chat"@) {
                assoc_update(acc, "deepseek-chat"@, spec_chat_details(details))
            } else {
                acc
            };
            let acc2 = if contains_seq(first, "deepseek-reasoner"@) {
                assoc_update(acc1, "deepseek-reasoner"@, spec_reasoner_details(details))
            } else {
                acc1
            };
            (acc2, parsing)
        } else {
            (acc, parsing)
        }
    } else {
        (acc, parsing)
    }
}

/// The rows of one table folded front to back.
pub open spec fn rows_fold(
    acc: Seq<(Seq<char>, DetailsView)>,
    parsing: bool,
    rows: Seq<Seq<Seq<char>>>,
) -> (Seq<(Seq<char>, DetailsView)>, bool)
    decreases rows.len(),
{
    if rows.len() == 0 {
        (acc, parsing)
    } else {
        let prev = rows_fold(acc, parsing, rows.drop_last());
        row_step(prev.0, prev.1, rows.last())
    }
}

/// A table is a model table when some row's first cell, upper-cased,
/// contains `MODEL`.
pub open spec fn table_has_header(table: Seq<Seq<Seq<char>>>) -> bool {
    exists|i: int|
        0 <= i < table.len() && (#[trigger] table[i]).len() > 0 && contains_seq(
            upper_seq(table[i][0]),
            "MODEL"@,
        )
}

/// One table's contribution: nothing unless it is a model table.
pub open spec fn table_step(
    acc: Seq<(Seq<char>, DetailsView)>,
    table: Seq<Seq<Seq<char>>>,
) -> Seq<(Seq<char>, DetailsView)> {
    if table_has_header(table) {
        rows_fold(acc, false, table).0
    } else {
        acc
    }
}

/// Every table of the page folded front to back.
pub open spec fn tables_fold(
    acc: Seq<(Seq<char>, DetailsView)>,
    tables: Seq<Seq<Seq<Seq<char>>>>,
) -> Seq<(Seq<char>, DetailsView)>
    decreases tables.len(),
{
    if tables.len() == 0 {
        acc
    } else {
        table_step(tables_fold(acc, tables.drop_last()), tables.last())
    }
}

/// The detail entries scraped from a page: the parsed table entries, or
/// the two fixed fallback records when the page yields nothing.
pub open spec fn scraped_entries(page: Seq<char>) -> Seq<(Seq<char>, DetailsView)> {
    let parsed = tables_fold(Seq::empty(), html_tables_of(page));
    if parsed.len() == 0 {
        assoc_update(
            assoc_update(parsed, "deepseek-chat"@, spec_fallback_chat()),
            "deepseek-reasoner"@,
            spec_fallback_reasoner(),
        )
    } else {
        parsed
    }
}

/// The canonical record made of one detail entry.
pub open spec fn deepseek_converted(m: ModelInfo, key: Seq<char>, d: DetailsView) -> bool {
    &&& m.id@ == key
    &&& m.name@ == "DeepSeek: "@ + d.name
    &&& m.context_length == d.context_length
    &&& m.max_tokens == d.max_tokens
    &&& m.vision == d.vision
    &&& m.function_call == d.function_call
    &&& m.reasoning == d.reasoning
    &&& m.model_type == ModelType::Chat
    &&& m.description matches Some(desc) && desc@ == d.description
}

/// The DeepSeek adapter: no structured catalog endpoint exists, so models
/// come from the documentation page.
pub struct DeepSeekProvider {
    pub docs_url: String,
}

impl DeepSeekProvider {
    pub fn new() -> (r: DeepSeekProvider)
        ensures
            r.docs_url@ == "https://api-docs.deepseek.com/quick_start/pricing"@,
    {
        DeepSeekProvider {
            docs_url: String::from_str("https://api-docs.deepseek.com/quick_start/pricing"),
        }
    }

    pub fn provider_id(&self) -> (r: &'static str)
        ensures
            r@ == "deepseek"@,
    {
        "deepseek"
    }

    pub fn provider_name(&self) -> (r: &'static str)
        ensures
            r@ == "DeepSeek"@,
    {
        "DeepSeek"
    }

    pub fn create_deepseek_chat_details(&self, details: &str) -> (r: DeepSeekModelDetails)
        ensures
            r@ == spec_chat_details(details@),
    {
        DeepSeekModelDetails {
            name: String::from_str("DeepSeek Chat"),
            context_length: 128000,
            max_tokens: 8192,
            description: String::from_str(
                "DeepSeek-V3.1 (Non-thinking Mode) - High-performance conversational AI model with 128K context window. ",
            ).concat(details),
            vision: false,
            function_call: true,
            reasoning: false,
        }
    }

    pub fn create_deepseek_reasoner_details(&self, details: &str) -> (r: DeepSeekModelDetails)
        ensures
            r@ == spec_reasoner_details(details@),
    {
        DeepSeekModelDetails {
            name: String::from_str("DeepSeek Reasoner"),
            context_length: 128000,
            max_tokens: 65536,
            description: String::from_str(
                "DeepSeek-V3.1 (Thinking Mode) - Advanced reasoning model with extended output capabilities. ",
            ).concat(details),
            vision: false,
            function_call: false,
            reasoning: true,
        }
    }

    /// The fixed fallback table, used only when scraping yields nothing.
    pub fn add_fallback_models(&self, models: &mut StrMap<DeepSeekModelDetails>)
        requires
            old(models).wf(),
        ensures
            final(models).wf(),
            detail_entries(final(models)@) == assoc_update(
                assoc_update(detail_entries(old(models)@), "deepseek-chat"@, spec_fallback_chat()),
                "deepseek-reasoner"@,
                spec_fallback_reasoner(),
            ),
    {
        let chat = DeepSeekModelDetails {
            name: String::from_str("DeepSeek Chat"),
            context_length: 128000,
            max_tokens: 8192,
            description: String::from_str(
                "DeepSeek-V3.1 (Non-thinking Mode) - High-performance conversational AI model with function calling support and 128K context window. Supports JSON output, function calling, chat prefix completion, and FIM completion.",
            ),
            vision: false,
            function_call: true,
            reasoning: false,
        };
        let ghost s0 = models@;
        models.insert(String::from_str("deepseek-chat"), chat);
        proof {
            lemma_detail_entries_update(s0, "deepseek-chat"@, chat);
        }
        let ghost s1 = models@;
        let reasoner = DeepSeekModelDetails {
            name: String::from_str("DeepSeek Reasoner"),
            context_length: 128000,
            max_tokens: 65536,
            description: String::from_str(
                "DeepSeek-V3.1 (Thinking Mode) - Advanced reasoning model with extended output capabilities up to 64K tokens. Supports JSON output and chat prefix completion. Automatically switches to deepseek-chat when function calling is needed.",
            ),
            vision: false,
            function_call: false,
            reasoning: true,
        };
        models.insert(String::from_str("deepseek-reasoner"), reasoner);
        proof {
            lemma_detail_entries_update(s1, "deepseek-reasoner"@, reasoner);
        }
    }

    /// Converts one detail entry to its canonical record.
    pub fn convert_model(&self, model_id: String, details: &DeepSeekModelDetails) -> (m: ModelInfo)
        ensures
            deepseek_converted(m, model_id@, details@),
            m.id == model_id,
    {
        ModelInfo::new(
            model_id,
            String::from_str("DeepSeek: ").concat(details.name.as_str()),
            details.context_length,
            details.max_tokens,
            details.vision,
            details.function_call,
            details.reasoning,
            ModelType::Chat,
            Some(details.description.clone()),
        )
    }

    /// Parses the documentation page's model table: rows after a header
    /// whose first cell names `MODEL`, whose own first cell names a known
    /// model, contribute a detail record.
    pub fn parse_model_table(
        &self,
        tables: &Vec<Vec<Vec<String>>>,
        models: &mut StrMap<DeepSeekModelDetails>,
    )
        requires
            old(models).wf(),
        ensures
            final(models).wf(),
            detail_entries(final(models)@) == tables_fold(
                detail_entries(old(models)@),
                table_views(tables@),
            ),
    {
        let ghost tviews = table_views(tables@);
        let nt = tables.len();
        proof {
            assert(tviews.subrange(0, 0) =~= Seq::<Seq<Seq<Seq<char>>>>::empty());
        }
        for ti in 0..nt
            invariant
                nt == tables@.len(),
                tviews == table_views(tables@),
                models.wf(),
                detail_entries(models@) == tables_fold(
                    detail_entries(old(models)@),
                    tviews.subrange(0, ti as int),
                ),
        {
            let table = &tables[ti];
            let ghost tv = tviews[ti as int];
            proof {
                assert(tv == table@.map_values(|row: Vec<String>| row@.map_values(|c: String| c@)));
            }
            let nr = table.len();
            let mut model_table = false;
            let mut ri: usize = 0;
            while ri < nr && !model_table
                invariant
                    nr == table@.len(),
                    tv == table@.map_values(
                        |row: Vec<String>| row@.map_values(|c: String| c@),
                    ),
                    ri <= nr,
                    model_table ==> table_has_header(tv),
                    !model_table ==> forall|k: int|
                        0 <= k < ri ==> !((#[trigger] tv[k]).len() > 0 && contains_seq(
                            upper_seq(tv[k][0]),
                            "MODEL"@,
                        )),
                decreases nr - ri + (if model_table { 0int } else { 1int }),
            {
                let row = &table[ri];
                if row.len() > 0 {
                    let up = upper_str(row[0].as_str());
                    if str_contains(up.as_str(), "MODEL") {
                        proof {
                            assert(tv[ri as int][0] == row@[0]@);
                        }
                        model_table = true;
                    } else {
                        ri = ri + 1;
                    }
                } else {
                    ri = ri + 1;
                }
            }
            if model_table {
                let ghost acc_t = detail_entries(models@);
                let mut parsing = false;
                proof {
                    assert(tv.subrange(0, 0) =~= Seq::<Seq<Seq<char>>>::empty());
                }
                for rj in 0..nr
                    invariant
                        nr == table@.len(),
                        tv == table@.map_values(
                            |row: Vec<String>| row@.map_values(|c: String| c@),
                        ),
                        models.wf(),
                        detail_entries(models@) == rows_fold(
                            acc_t,
                            false,
                            tv.subrange(0, rj as int),
                        ).0,
                        parsing == rows_fold(acc_t, false, tv.subrange(0, rj as int)).1,
                {
                    let row = &table[rj];
                    let ghost rv = tv[rj as int];
                    proof {
                        assert(rv == row@.map_values(|c: String| c@));
                        let cur = tv.subrange(0, rj + 1 as int);
                        assert(cur.drop_last() =~= tv.subrange(0, rj as int));
                        assert(cur.last() == rv);
                    }
                    if row.len() >= 2 {
                        let first = trim_str(row[0].as_str());
                        let up = upper_str(first.as_str());
                        proof {
                            assert(rv[0] == row@[0]@);
                            assert(rv[1] == row@[1]@);
                        }
                        if str_contains(up.as_str(), "MODEL") {
                            parsing = true;
                        } else if parsing {
                            let details = trim_str(row[1].as_str());
                            let ghost s_pre = models@;
                            let has_chat = str_contains(first.as_str(), "deepseek-chat");
                            if has_chat {
                                let d = self.create_deepseek_chat_details(details.as_str());
                                models.insert(String::from_str("deepseek-chat"), d);
                                proof {
                                    lemma_detail_entries_update(s_pre, "deepseek-chat"@, d);
                                }
                            }
                            let ghost s_mid = models@;
                            if str_contains(first.as_str(), "deepseek-reasoner") {
                                let d = self.create_deepseek_reasoner_details(details.as_str());
                                models.insert(String::from_str("deepseek-reasoner"), d);
                                proof {
                                    lemma_detail_entries_update(s_mid, "deepseek-reasoner"@, d);
                                }
                            }
                        }
                    }
                }
                proof {
                    assert(tv.subrange(0, nr as int) =~= tv);
                }
            }
            proof {
                let cur = tviews.subrange(0, ti + 1 as int);
                assert(cur.drop_last() =~= tviews.subrange(0, ti as int));
                assert(cur.last() == tviews[ti as int]);
            }
        }
        proof {
            assert(tviews.subrange(0, nt as int) =~= tviews);
        }
    }

    /// The whole scrape fallback chain for one page: parse the model
    /// table; when nothing was found, use the fixed fallback table; then
    /// convert every entry.  Always yields at least one model.
    pub fn models_from_page(&self, html: &str) -> (r: Vec<ModelInfo>)
        ensures
            r@.len() == scraped_entries(html@).len(),
            forall|i: int| 0 <= i < r@.len() ==> deepseek_converted(
                #[trigger] r@[i],
                scraped_entries(html@)[i].0,
                scraped_entries(html@)[i].1,
            ),
            r@.len() > 0,
    {
        let tables = extract_tables(html);
        let mut models: StrMap<DeepSeekModelDetails> = StrMap::new();
        self.parse_model_table(&tables, &mut models);
        proof {
            assert(detail_entries(Seq::<(Seq<char>, DeepSeekModelDetails)>::empty()) =~= Seq::<
                (Seq<char>, DetailsView),
            >::empty());
        }
        if models.len() == 0 {
            proof {
                assert(detail_entries(models@) =~= Seq::<(Seq<char>, DetailsView)>::empty());
            }
            self.add_fallback_models(&mut models);
        }
        let ghost entries = scraped_entries(html@);
        proof {
            assert(detail_entries(models@) == entries);
        }
        let mut r: Vec<ModelInfo> = Vec::new();
        let n = models.len();
        for i in 0..n
            invariant
                n == models@.len(),
                entries == detail_entries(models@),
                r@.len() == i,
                forall|k: int| 0 <= k < i ==> deepseek_converted(
                    #[trigger] r@[k],
                    entries[k].0,
                    entries[k].1,
                ),
        {
            let e = models.idx(i);
            let m = self.convert_model(e.0.clone(), &e.1);
            r.push(m);
        }
        r
    }
}

} // verus!
