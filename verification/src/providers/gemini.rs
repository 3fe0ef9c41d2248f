//! The Gemini adapter: an optional live id list from the API, model
//! details scraped from the documentation page by an ordered fallback
//! chain — table format first, then list format, then a fixed set of
//! known models.

use vstd::prelude::*;
use crate::collections::{assoc_get, assoc_update, StrMap};
use crate::models::{ModelInfo, ModelType};
use crate::scrape::{
    code_item_views, extract_code_list_items, extract_tables, html_code_items_of, html_tables_of,
    table_views, CodeListItem,
};
use crate::text::{
    all_digits, capitalize_first, capitalize_first_chars, chars_of, contains_chars, contains_seq,
    is_digit_char, is_digit_char_exec, join_chars, join_with, lower_chars, lower_seq, matches_at,
    replace_char_chars, replace_char_spec, replace_sub_chars, replace_sub_spec, split_char,
    split_char_chars, split_ws, split_ws_chars, starts_with_seq, str_starts_with,
    string_from_chars, trim_chars_ws, trim_hyphens_chars, trim_hyphens_spec, trim_spec, trim_str,
    upper_chars, upper_seq, views_of,
};
use vstd::string::StringExecFns;

verus! {

/// A detail record scraped (or defaulted) for one Gemini model.
#[derive(Debug)]
pub struct GeminiModelDetails {
    pub name: String,
    pub context_length: u32,
    pub max_tokens: u32,
    pub vision: bool,
    pub function_call: bool,
    pub reasoning: bool,
}

/// The ghost mirror of a detail record.
pub struct GeminiDetailsView {
    pub name: Seq<char>,
    pub context_length: u32,
    pub max_tokens: u32,
    pub vision: bool,
    pub function_call: bool,
    pub reasoning: bool,
}

impl View for GeminiModelDetails {
    type V = GeminiDetailsView;

    open spec fn view(&self) -> GeminiDetailsView {
        GeminiDetailsView {
            name: self.name@,
            context_length: self.context_length,
            max_tokens: self.max_tokens,
            vision: self.vision,
            function_call: self.function_call,
            reasoning: self.reasoning,
        }
    }
}

/// Detail-map entries with record views in place of records.
pub open spec fn gem_entries(s: Seq<(Seq<char>, GeminiModelDetails)>) -> Seq<
    (Seq<char>, GeminiDetailsView),
> {
    s.map_values(|p: (Seq<char>, GeminiModelDetails)| (p.0, p.1@))
}

/// Replacing under a key commutes with taking record views.
proof fn lemma_gem_entries_update(
    s: Seq<(Seq<char>, GeminiModelDetails)>,
    k: Seq<char>,
    v: GeminiModelDetails,
)
    ensures
        gem_entries(crate::collections::assoc_update(s, k, v)) == assoc_update(
            gem_entries(s),
            k,
            v@,
        ),
    decreases s.len(),
{
    if s.len() == 0 {
        assert(gem_entries(crate::collections::assoc_update(s, k, v)) =~= assoc_update(
            gem_entries(s),
            k,
            v@,
        ));
    } else if s[0].0 == k {
        assert(gem_entries(crate::collections::assoc_update(s, k, v)) =~= assoc_update(
            gem_entries(s),
            k,
            v@,
        ));
    } else {
        lemma_gem_entries_update(s.drop_first(), k, v);
        assert(gem_entries(s).drop_first() =~= gem_entries(s.drop_first()));
        assert(gem_entries(crate::collections::assoc_update(s, k, v)) =~= assoc_update(
            gem_entries(s),
            k,
            v@,
        ));
    }
}

/// How one hyphen-separated part of a model name is rendered: very short
/// or numeric parts upper-cased, the rest capitalized.
pub open spec fn gem_word(w: Seq<char>) -> Seq<char> {
    if w.len() == 1 || all_digits(w) {
        upper_seq(w)
    } else {
        capitalize_first(w)
    }
}

/// The display name of a model: its hyphen-separated parts rendered and
/// joined by spaces.
pub open spec fn spec_gemini_display(name: Seq<char>) -> Seq<char> {
    join_with(split_char(name, '-').map_values(|w: Seq<char>| gem_word(w)), " "@)
}

/// The name without a leading `models/`.
pub open spec fn strip_models_prefix(name: Seq<char>) -> Seq<char> {
    if starts_with_seq(name, "models/"@) {
        name.skip("models/"@.len() as int)
    } else {
        name
    }
}

/// The detail record built from a model name, a description and an
/// "optimized for" column: capability flags from keywords over all
/// three, context dimensions from the name.
pub open spec fn spec_create_details(
    model_name: Seq<char>,
    description: Seq<char>,
    optimized: Seq<char>,
) -> GeminiDetailsView {
    let clean = strip_models_prefix(model_name);
    let text = lower_seq(clean + " "@ + description + " "@ + optimized);
    let vision = contains_seq(text, "vision"@) || contains_seq(text, "image"@) || contains_seq(
        text,
        "multimodal"@,
    ) || contains_seq(clean, "1.5"@);
    let function_call = contains_seq(text, "function"@) || contains_seq(text, "tool"@)
        || contains_seq(text, "calling"@) || contains_seq(clean, "pro"@);
    let reasoning = contains_seq(text, "reasoning"@) || contains_seq(text, "complex"@)
        || contains_seq(clean, "pro"@);
    let dims: (u32, u32) = if contains_seq(clean, "1.5-pro"@) {
        (2097152, 8192)
    } else if contains_seq(clean, "1.5-flash"@) {
        (1048576, 8192)
    } else if contains_seq(clean, "1.0-pro"@) {
        (32768, 2048)
    } else if contains_seq(clean, "embedding"@) {
        (2048, 0)
    } else {
        (32768, 4096)
    };
    GeminiDetailsView {
        name: "Google: "@ + spec_gemini_display(clean),
        context_length: dims.0,
        max_tokens: dims.1,
        vision,
        function_call,
        reasoning,
    }
}

/// The clean model id a table cell's first line yields, if any: a line
/// naming a gemini model, its whitespace collapsed to hyphens,
/// lower-cased.
pub open spec fn gemini_line_result(line: Seq<char>) -> Option<Seq<char>> {
    let l = trim_spec(line);
    if starts_with_seq(l, "gemini-"@) || (contains_seq(l, "gemini"@) && contains_seq(l, "-"@)) {
        let clean = lower_seq(
            trim_hyphens_spec(
                replace_sub_spec(
                    join_with(split_ws(l), "-"@),
                    "--"@,
                    "-"@,
                ),
            ),
        );
        if contains_seq(clean, "gemini"@) {
            Some(clean)
        } else {
            None
        }
    } else {
        None
    }
}

/// The first line that yields a clean model id.
pub open spec fn first_line_hit(lines: Seq<Seq<char>>) -> Option<Seq<char>>
    decreases lines.len(),
{
    if lines.len() == 0 {
        None
    } else {
        match gemini_line_result(lines[0]) {
            Some(c) => Some(c),
            None => first_line_hit(lines.drop_first()),
        }
    }
}

proof fn lemma_first_hit_found(lines: Seq<Seq<char>>, i: int)
    requires
        0 <= i < lines.len(),
        forall|k: int| 0 <= k < i ==> gemini_line_result(#[trigger] lines[k]) is None,
        gemini_line_result(lines[i]) is Some,
    ensures
        first_line_hit(lines) == gemini_line_result(lines[i]),
    decreases i,
{
    if i > 0 {
        let t = lines.drop_first();
        assert(forall|k: int| 0 <= k < i - 1 ==> t[k] == lines[k + 1]);
        lemma_first_hit_found(t, i - 1);
    }
}

proof fn lemma_first_hit_none(lines: Seq<Seq<char>>)
    requires
        forall|k: int| 0 <= k < lines.len() ==> gemini_line_result(#[trigger] lines[k]) is None,
    ensures
        first_line_hit(lines) is None,
    decreases lines.len(),
{
    if lines.len() > 0 {
        let t = lines.drop_first();
        assert(forall|k: int| 0 <= k < t.len() ==> t[k] == lines[k + 1]);
        lemma_first_hit_none(t);
    }
}

/// The clean model id extracted from a raw table cell: the first line
/// naming a gemini model wins; failing that, the first line (or the
/// whole text), lower-cased with spaces as hyphens, if it names gemini.
pub open spec fn spec_extract_clean(raw: Seq<char>) -> Option<Seq<char>> {
    let text = trim_spec(raw);
    let lines = split_char(text, '\n');
    match first_line_hit(lines) {
        Some(c) => Some(c),
        None => {
            if contains_seq(lower_seq(text), "gemini"@) {
                let first_part = trim_spec(lines[0]);
                if contains_seq(lower_seq(first_part), "gemini"@) {
                    Some(
                        trim_hyphens_spec(
                            replace_sub_spec(
                                replace_char_spec(
                                    replace_sub_spec(
                                        lower_seq(first_part),
                                        "gemini "@,
                                        "gemini-"@,
                                    ),
                                    ' ',
                                    '-',
                                ),
                                "--"@,
                                "-"@,
                            ),
                        ),
                    )
                } else {
                    None
                }
            } else {
                None
            }
        },
    }
}

/// One table row: with at least three cells and a first cell yielding a
/// clean model id, its detail record is stored under `models/` plus the
/// id, later rows replacing earlier ones.
pub open spec fn g_row_step(
    acc: Seq<(Seq<char>, GeminiDetailsView)>,
    row: Seq<Seq<char>>,
) -> Seq<(Seq<char>, GeminiDetailsView)> {
    if row.len() >= 3 {
        match spec_extract_clean(row[0]) {
            Some(name) => assoc_update(
                acc,
                "models/"@ + name,
                spec_create_details(name, trim_spec(row[1]), trim_spec(row[2])),
            ),
            None => acc,
        }
    } else {
        acc
    }
}

pub open spec fn g_rows_fold(
    acc: Seq<(Seq<char>, GeminiDetailsView)>,
    rows: Seq<Seq<Seq<char>>>,
) -> Seq<(Seq<char>, GeminiDetailsView)>
    decreases rows.len(),
{
    if rows.len() == 0 {
        acc
    } else {
        g_row_step(g_rows_fold(acc, rows.drop_last()), rows.last())
    }
}

/// One table's contribution: its rows after the header row.
pub open spec fn g_table_step(
    acc: Seq<(Seq<char>, GeminiDetailsView)>,
    table: Seq<Seq<Seq<char>>>,
) -> Seq<(Seq<char>, GeminiDetailsView)> {
    if table.len() == 0 {
        acc
    } else {
        g_rows_fold(acc, table.drop_first())
    }
}

pub open spec fn g_tables_fold(
    acc: Seq<(Seq<char>, GeminiDetailsView)>,
    tables: Seq<Seq<Seq<Seq<char>>>>,
) -> Seq<(Seq<char>, GeminiDetailsView)>
    decreases tables.len(),
{
    if tables.len() == 0 {
        acc
    } else {
        g_table_step(g_tables_fold(acc, tables.drop_last()), tables.last())
    }
}

/// One list item: a code span naming gemini (or a `models/` path) stores
/// a detail record under the `models/`-prefixed id, with the item's text
/// minus the id as description.
pub open spec fn g_item_step(
    acc: Seq<(Seq<char>, GeminiDetailsView)>,
    item: (Seq<char>, Seq<char>),
) -> Seq<(Seq<char>, GeminiDetailsView)> {
    let raw = trim_spec(item.0);
    if contains_seq(raw, "gemini"@) || contains_seq(raw, "models/"@) {
        let desc = trim_spec(replace_sub_spec(item.1, raw, Seq::empty()));
        let clean_id = if starts_with_seq(raw, "models/"@) {
            raw
        } else {
            "models/"@ + raw
        };
        let name = strip_models_prefix(clean_id);
        assoc_update(acc, clean_id, spec_create_details(name, desc, Seq::empty()))
    } else {
        acc
    }
}

pub open spec fn g_items_fold(
    acc: Seq<(Seq<char>, GeminiDetailsView)>,
    items: Seq<(Seq<char>, Seq<char>)>,
) -> Seq<(Seq<char>, GeminiDetailsView)>
    decreases items.len(),
{
    if items.len() == 0 {
        acc
    } else {
        g_item_step(g_items_fold(acc, items.drop_last()), items.last())
    }
}

pub open spec fn spec_gem_fallback_pro() -> GeminiDetailsView {
    GeminiDetailsView {
        name: "Gemini 1.5 Pro"@,
        context_length: 2097152,
        max_tokens: 8192,
        vision: true,
        function_call: true,
        reasoning: true,
    }
}

pub open spec fn spec_gem_fallback_flash() -> GeminiDetailsView {
    GeminiDetailsView {
        name: "Gemini 1.5 Flash"@,
        context_length: 1048576,
        max_tokens: 8192,
        vision: true,
        function_call: true,
        reasoning: false,
    }
}

pub open spec fn spec_gem_fallback_pro10() -> GeminiDetailsView {
    GeminiDetailsView {
        name: "Gemini 1.0 Pro"@,
        context_length: 32768,
        max_tokens: 2048,
        vision: false,
        function_call: true,
        reasoning: false,
    }
}

pub open spec fn spec_gem_fallback_gecko() -> GeminiDetailsView {
    GeminiDetailsView {
        name: "Embedding Gecko"@,
        context_length: 2048,
        max_tokens: 0,
        vision: false,
        function_call: false,
        reasoning: false,
    }
}

/// The fixed set of known models used when scraping yields nothing.
pub open spec fn g_fallback(acc: Seq<(Seq<char>, GeminiDetailsView)>) -> Seq<
    (Seq<char>, GeminiDetailsView),
> {
    assoc_update(
        assoc_update(
            assoc_update(
                assoc_update(acc, "models/gemini-1.5-pro-latest"@, spec_gem_fallback_pro()),
                "models/gemini-1.5-flash-latest"@,
                spec_gem_fallback_flash(),
            ),
            "models/gemini-1.0-pro"@,
            spec_gem_fallback_pro10(),
        ),
        "models/embedding-gecko-001"@,
        spec_gem_fallback_gecko(),
    )
}

/// The detail entries scraped from a page: the table format first, then
/// the list format, then the fixed fallback set.
pub open spec fn gemini_scraped(page: Seq<char>) -> Seq<(Seq<char>, GeminiDetailsView)> {
    let t = g_tables_fold(Seq::empty(), html_tables_of(page));
    if t.len() > 0 {
        t
    } else {
        let l = g_items_fold(Seq::empty(), html_code_items_of(page));
        if l.len() > 0 {
            l
        } else {
            g_fallback(l)
        }
    }
}

/// The canonical record made of one detail entry.
pub open spec fn gemini_converted(m: ModelInfo, key: Seq<char>, d: GeminiDetailsView) -> bool {
    &&& m.id@ == key
    &&& m.name@ == d.name
    &&& m.context_length == d.context_length
    &&& m.max_tokens == d.max_tokens
    &&& m.vision == d.vision
    &&& m.function_call == d.function_call
    &&& m.reasoning == d.reasoning
    &&& m.model_type == (if contains_seq(key, "embedding"@) {
        ModelType::Embedding
    } else {
        ModelType::Chat
    })
    &&& m.description is None
}

/// The Gemini adapter; a credential is optional and only enables the
/// live id list.
pub struct GeminiProvider {
    pub api_url: String,
    pub docs_url: String,
    pub api_key: Option<String>,
}

impl GeminiProvider {
    pub fn new(api_key: Option<String>) -> (r: GeminiProvider)
        ensures
            r.api_key == api_key,
            r.api_url@ == "https://generativelanguage.googleapis.com/v1beta/openai/models"@,
            r.docs_url@ == "https://ai.google.dev/gemini-api/docs/models"@,
    {
        GeminiProvider {
            api_url: String::from_str(
                "https://generativelanguage.googleapis.com/v1beta/openai/models",
            ),
            docs_url: String::from_str("https://ai.google.dev/gemini-api/docs/models"),
            api_key,
        }
    }

    pub fn provider_id(&self) -> (r: &'static str)
        ensures
            r@ == "gemini"@,
    {
        "gemini"
    }

    pub fn provider_name(&self) -> (r: &'static str)
        ensures
            r@ == "Google Gemini"@,
    {
        "Google Gemini"
    }

    /// Renders a display name from a kebab-case model name.
    pub fn create_display_name(&self, model_name: &str) -> (r: String)
        ensures
            r@ == spec_gemini_display(model_name@),
    {
        let namev = chars_of(model_name);
        let parts = split_char_chars(&namev, '-');
        let ghost part_views = split_char(namev@, '-');
        let mut mapped: Vec<Vec<char>> = Vec::new();
        let np = parts.len();
        for i in 0..np
            invariant
                np == parts@.len(),
                part_views == views_of(parts@),
                mapped@.len() == i,
                forall|k: int| 0 <= k < i ==> (#[trigger] mapped@[k])@ == gem_word(part_views[k]),
        {
            let w = gemini_word(&parts[i]);
            mapped.push(w);
        }
        proof {
            assert(views_of(mapped@) =~= part_views.map_values(|w: Seq<char>| gem_word(w)));
        }
        let sep = chars_of(" ");
        let joined = join_chars(&mapped, &sep);
        string_from_chars(&joined)
    }

    /// Builds one detail record from the scraped name and text columns.
    pub fn create_model_details(
        &self,
        model_name: &str,
        description: &str,
        optimized_for: &str,
    ) -> (r: GeminiModelDetails)
        ensures
            r@ == spec_create_details(model_name@, description@, optimized_for@),
    {
        let namev = chars_of(model_name);
        let clean: Vec<char> = if str_starts_with(model_name, "models/") {
            let prefix_len = chars_of("models/").len();
            let mut c: Vec<char> = Vec::new();
            let n = namev.len();
            let mut i: usize = prefix_len;
            while i < n
                invariant
                    n == namev@.len(),
                    prefix_len <= i <= n,
                    c@ == namev@.subrange(prefix_len as int, i as int),
                decreases n - i,
            {
                c.push(namev[i]);
                i = i + 1;
                proof {
                    assert(c@ =~= namev@.subrange(prefix_len as int, i as int));
                }
            }
            proof {
                assert(c@ =~= namev@.skip("models/"@.len() as int));
            }
            c
        } else {
            proof {
                assert(namev@.subrange(0, 0) =~= Seq::<char>::empty());
            }
            let mut c: Vec<char> = Vec::new();
            let n = namev.len();
            for i in 0..n
                invariant
                    n == namev@.len(),
                    c@ == namev@.subrange(0, i as int),
            {
                c.push(namev[i]);
                proof {
                    assert(c@ =~= namev@.subrange(0, i + 1 as int));
                }
            }
            proof {
                assert(c@ =~= namev@);
            }
            c
        };
        let clean_str = string_from_chars(&clean);
        let display_name = self.create_display_name(clean_str.as_str());

        let mut textv: Vec<char> = clean.clone();
        proof {
            assert(textv@ =~= clean@);
        }
        textv.push(' ');
        let descv = chars_of(description);
        let dn = descv.len();
        let ghost base1 = textv@;
        for i in 0..dn
            invariant
                dn == descv@.len(),
                textv@ == base1 + descv@.subrange(0, i as int),
        {
            textv.push(descv[i]);
            proof {
                assert(textv@ =~= base1 + descv@.subrange(0, i + 1 as int));
            }
        }
        textv.push(' ');
        let optv = chars_of(optimized_for);
        let on = optv.len();
        let ghost base2 = textv@;
        for i in 0..on
            invariant
                on == optv@.len(),
                textv@ == base2 + optv@.subrange(0, i as int),
        {
            textv.push(optv[i]);
            proof {
                assert(textv@ =~= base2 + optv@.subrange(0, i + 1 as int));
            }
        }
        proof {
            reveal_strlit(" ");
            assert(textv@ =~= clean@ + " "@ + description@ + " "@ + optimized_for@);
        }
        let text = lower_chars(&textv);

        let vision = contains_chars(&text, &chars_of("vision")) || contains_chars(
            &text,
            &chars_of("image"),
        ) || contains_chars(&text, &chars_of("multimodal")) || contains_chars(
            &clean,
            &chars_of("1.5"),
        );
        let function_call = contains_chars(&text, &chars_of("function")) || contains_chars(
            &text,
            &chars_of("tool"),
        ) || contains_chars(&text, &chars_of("calling")) || contains_chars(
            &clean,
            &chars_of("pro"),
        );
        let reasoning = contains_chars(&text, &chars_of("reasoning")) || contains_chars(
            &text,
            &chars_of("complex"),
        ) || contains_chars(&clean, &chars_of("pro"));

        let dims: (u32, u32) = if contains_chars(&clean, &chars_of("1.5-pro")) {
            (2097152, 8192)
        } else if contains_chars(&clean, &chars_of("1.5-flash")) {
            (1048576, 8192)
        } else if contains_chars(&clean, &chars_of("1.0-pro")) {
            (32768, 2048)
        } else if contains_chars(&clean, &chars_of("embedding")) {
            (2048, 0)
        } else {
            (32768, 4096)
        };

        GeminiModelDetails {
            name: String::from_str("Google: ").concat(display_name.as_str()),
            context_length: dims.0,
            max_tokens: dims.1,
            vision,
            function_call,
            reasoning,
        }
    }

    /// Extracts a clean model id from a raw table cell.
    pub fn extract_clean_model_name(&self, raw_text: &str) -> (r: Option<String>)
        ensures
            match r {
                Some(s) => spec_extract_clean(raw_text@) == Some(s@),
                None => spec_extract_clean(raw_text@) is None,
            },
    {
        let rawv = chars_of(raw_text);
        let textv = trim_chars_ws(&rawv);
        let lines = split_char_chars(&textv, '\n');
        let ghost line_views = split_char(textv@, '\n');
        let nl = lines.len();
        for li in 0..nl
            invariant
                nl == lines@.len(),
                line_views == views_of(lines@),
                line_views == split_char(trim_spec(raw_text@), '\n'),
                textv@ == trim_spec(rawv@),
                rawv@ == raw_text@,
                forall|k: int| 0 <= k < li ==> gemini_line_result(#[trigger] line_views[k])
                    is None,
        {
            let l = trim_chars_ws(&lines[li]);
            let cond = {
                let gpref = chars_of("gemini-");
                let mut pref = true;
                if l.len() < gpref.len() {
                    pref = false;
                } else {
                    let m = gpref.len();
                    for j in 0..m
                        invariant
                            m == gpref@.len(),
                            m <= l@.len(),
                            pref == (forall|q: int| 0 <= q < j ==> l@[q] == gpref@[q]),
                    {
                        if l[j] != gpref[j] {
                            pref = false;
                        }
                    }
                }
                proof {
                    if pref && l@.len() >= gpref@.len() {
                        assert(l@.subrange(0, gpref@.len() as int) =~= gpref@);
                    }
                    if starts_with_seq(l@, "gemini-"@) {
                        assert(forall|q: int| 0 <= q < "gemini-"@.len() ==> l@.subrange(
                            0,
                            "gemini-"@.len() as int,
                        )[q] == l@[q]);
                    }
                }
                pref || (contains_chars(&l, &chars_of("gemini")) && contains_chars(
                    &l,
                    &chars_of("-"),
                ))
            };
            if cond {
                let words = split_ws_chars(&l);
                let joined = join_chars(&words, &chars_of("-"));
                proof {
                    reveal_strlit("--");
                }
                let rep = replace_sub_chars(&joined, &chars_of("--"), &chars_of("-"));
                let trimmed = trim_hyphens_chars(&rep);
                let clean = lower_chars(&trimmed);
                if contains_chars(&clean, &chars_of("gemini")) {
                    proof {
                        assert(gemini_line_result(line_views[li as int]) == Some(clean@));
                        lemma_first_hit_found(line_views, li as int);
                    }
                    return Some(string_from_chars(&clean));
                }
            }
            proof {
                assert(gemini_line_result(line_views[li as int]) is None);
            }
        }
        proof {
            lemma_first_hit_none(line_views);
        }
        let lowtext = lower_chars(&textv);
        if contains_chars(&lowtext, &chars_of("gemini")) {
            proof {
                assert(line_views[0] == lines@[0]@);
            }
            let first = trim_chars_ws(&lines[0]);
            let fl = lower_chars(&first);
            if contains_chars(&fl, &chars_of("gemini")) {
                proof {
                    reveal_strlit("gemini ");
                    reveal_strlit("--");
                }
                let a = replace_sub_chars(&fl, &chars_of("gemini "), &chars_of("gemini-"));
                let b = replace_char_chars(&a, ' ', '-');
                let c = replace_sub_chars(&b, &chars_of("--"), &chars_of("-"));
                let d = trim_hyphens_chars(&c);
                return Some(string_from_chars(&d));
            }
        }
        None
    }

    /// Parses the table format: rows after the header with at least
    /// three cells, whose first cell yields a clean model id.
    pub fn parse_table_format(
        &self,
        tables: &Vec<Vec<Vec<String>>>,
        models: &mut StrMap<GeminiModelDetails>,
    )
        requires
            old(models).wf(),
        ensures
            final(models).wf(),
            gem_entries(final(models)@) == g_tables_fold(
                gem_entries(old(models)@),
                table_views(tables@),
            ),
    {
        let ghost tviews = table_views(tables@);
        let nt = tables.len();
        proof {
            assert(tviews.subrange(0, 0) =~= Seq::<Seq<Seq<Seq<char>>>>::empty());
        }
        for ti in 0..nt
            invariant
                nt == tables@.len(),
                tviews == table_views(tables@),
                models.wf(),
                gem_entries(models@) == g_tables_fold(
                    gem_entries(old(models)@),
                    tviews.subrange(0, ti as int),
                ),
        {
            let table = &tables[ti];
            let ghost tv = tviews[ti as int];
            proof {
                assert(tv == table@.map_values(|row: Vec<String>| row@.map_values(|c: String| c@)));
            }
            let nr = table.len();
            let ghost acc_t = gem_entries(models@);
            let ghost rows_eff: Seq<Seq<Seq<char>>> = if tv.len() == 0 {
                tv
            } else {
                tv.drop_first()
            };
            if nr > 0 {
                proof {
                    assert(rows_eff.subrange(0, 0) =~= Seq::<Seq<Seq<char>>>::empty());
                }
                let mut rj: usize = 1;
                while rj < nr
                    invariant
                        nr == table@.len(),
                        nr > 0,
                        tv == table@.map_values(
                            |row: Vec<String>| row@.map_values(|c: String| c@),
                        ),
                        rows_eff == tv.drop_first(),
                        1 <= rj <= nr,
                        models.wf(),
                        gem_entries(models@) == g_rows_fold(
                            acc_t,
                            rows_eff.subrange(0, rj - 1),
                        ),
                    decreases nr - rj,
                {
                    let row = &table[rj];
                    let ghost rv = tv[rj as int];
                    proof {
                        assert(rv == row@.map_values(|c: String| c@));
                        assert(rows_eff[rj - 1] == rv);
                        let cur = rows_eff.subrange(0, rj as int);
                        assert(cur.drop_last() =~= rows_eff.subrange(0, rj - 1));
                        assert(cur.last() == rv);
                    }
                    if row.len() >= 3 {
                        proof {
                            assert(rv[0] == row@[0]@);
                            assert(rv[1] == row@[1]@);
                            assert(rv[2] == row@[2]@);
                        }
                        match self.extract_clean_model_name(row[0].as_str()) {
                            Some(clean_name) => {
                                let description = trim_str(row[1].as_str());
                                let optimized = trim_str(row[2].as_str());
                                let details = self.create_model_details(
                                    clean_name.as_str(),
                                    description.as_str(),
                                    optimized.as_str(),
                                );
                                let model_id = String::from_str("models/").concat(
                                    clean_name.as_str(),
                                );
                                let ghost s_pre = models@;
                                models.insert(model_id, details);
                                proof {
                                    lemma_gem_entries_update(
                                        s_pre,
                                        "models/"@ + clean_name@,
                                        details,
                                    );
                                }
                            },
                            None => {},
                        }
                    }
                    rj = rj + 1;
                }
                proof {
                    assert(rows_eff.subrange(0, nr - 1) =~= rows_eff);
                }
            }
            proof {
                let cur = tviews.subrange(0, ti + 1 as int);
                assert(cur.drop_last() =~= tviews.subrange(0, ti as int));
                assert(cur.last() == tviews[ti as int]);
            }
        }
        proof {
            assert(tviews.subrange(0, nt as int) =~= tviews);
        }
    }

    /// Parses the list format: list items whose code span names a gemini
    /// model.
    pub fn parse_list_format(
        &self,
        items: &Vec<CodeListItem>,
        models: &mut StrMap<GeminiModelDetails>,
    )
        requires
            old(models).wf(),
        ensures
            final(models).wf(),
            gem_entries(final(models)@) == g_items_fold(
                gem_entries(old(models)@),
                code_item_views(items@),
            ),
    {
        let ghost ivs = code_item_views(items@);
        let ni = items.len();
        proof {
            assert(ivs.subrange(0, 0) =~= Seq::<(Seq<char>, Seq<char>)>::empty());
        }
        for i in 0..ni
            invariant
                ni == items@.len(),
                ivs == code_item_views(items@),
                models.wf(),
                gem_entries(models@) == g_items_fold(
                    gem_entries(old(models)@),
                    ivs.subrange(0, i as int),
                ),
        {
            let item = &items[i];
            proof {
                assert(ivs[i as int] == (item.code@, item.text@));
                let cur = ivs.subrange(0, i + 1 as int);
                assert(cur.drop_last() =~= ivs.subrange(0, i as int));
                assert(cur.last() == ivs[i as int]);
            }
            let rawv0 = chars_of(item.code.as_str());
            let raw = trim_chars_ws(&rawv0);
            let has_gemini = contains_chars(&raw, &chars_of("gemini"));
            let has_models = contains_chars(&raw, &chars_of("models/"));
            if has_gemini || has_models {
                proof {
                    reveal_strlit("gemini");
                    reveal_strlit("models/");
                    if contains_seq(raw@, "gemini"@) {
                        let w = choose|w: int| matches_at(raw@, "gemini"@, w);
                        assert(raw@.len() >= 1);
                    } else {
                        let w = choose|w: int| matches_at(raw@, "models/"@, w);
                        assert(raw@.len() >= 1);
                    }
                }
                let textv = chars_of(item.text.as_str());
                let empty_rep: Vec<char> = Vec::new();
                let replaced = replace_sub_chars(&textv, &raw, &empty_rep);
                let desc_chars = trim_chars_ws(&replaced);
                let desc = string_from_chars(&desc_chars);
                proof {
                    assert(empty_rep@ =~= Seq::<char>::empty());
                }
                let clean_id: Vec<char> = if str_starts_with(
                    string_from_chars(&raw).as_str(),
                    "models/",
                ) {
                    let mut c: Vec<char> = Vec::new();
                    let n = raw.len();
                    for j in 0..n
                        invariant
                            n == raw@.len(),
                            c@ == raw@.subrange(0, j as int),
                    {
                        c.push(raw[j]);
                        proof {
                            assert(c@ =~= raw@.subrange(0, j + 1 as int));
                        }
                    }
                    proof {
                        assert(c@ =~= raw@);
                    }
                    c
                } else {
                    let mut c = chars_of("models/");
                    let ghost base = c@;
                    let n = raw.len();
                    for j in 0..n
                        invariant
                            n == raw@.len(),
                            c@ == base + raw@.subrange(0, j as int),
                    {
                        c.push(raw[j]);
                        proof {
                            assert(c@ =~= base + raw@.subrange(0, j + 1 as int));
                        }
                    }
                    proof {
                        assert(c@ =~= "models/"@ + raw@);
                    }
                    c
                };
                let name_chars: Vec<char> = {
                    let prefix_len = chars_of("models/").len();
                    if clean_id.len() >= prefix_len {
                        let mut c: Vec<char> = Vec::new();
                        let n = clean_id.len();
                        let mut j: usize = prefix_len;
                        while j < n
                            invariant
                                n == clean_id@.len(),
                                prefix_len <= j <= n,
                                prefix_len == "models/"@.len(),
                                c@ == clean_id@.subrange(prefix_len as int, j as int),
                            decreases n - j,
                        {
                            c.push(clean_id[j]);
                            j = j + 1;
                            proof {
                                assert(c@ =~= clean_id@.subrange(prefix_len as int, j as int));
                            }
                        }
                        proof {
                            assert(c@ =~= clean_id@.skip("models/"@.len() as int));
                        }
                        c
                    } else {
                        Vec::new()
                    }
                };
                proof {
                    let cid = if starts_with_seq(raw@, "models/"@) {
                        raw@
                    } else {
                        "models/"@ + raw@
                    };
                    assert(clean_id@ == cid);
                    if starts_with_seq(raw@, "models/"@) {
                        assert(starts_with_seq(cid, "models/"@));
                    } else {
                        assert(cid.subrange(0, "models/"@.len() as int) =~= "models/"@);
                        assert(starts_with_seq(cid, "models/"@));
                    }
                    assert(clean_id@.len() >= "models/"@.len());
                    assert(name_chars@ == strip_models_prefix(clean_id@));
                }
                let name_str = string_from_chars(&name_chars);
                let details = self.create_model_details(name_str.as_str(), desc.as_str(), "");
                let key = string_from_chars(&clean_id);
                let ghost s_pre = models@;
                models.insert(key, details);
                proof {
                    reveal_strlit("");
                    lemma_gem_entries_update(s_pre, clean_id@, details);
                }
            }
        }
        proof {
            assert(ivs.subrange(0, ni as int) =~= ivs);
        }
    }

    /// The fixed set of known models, used only when both scraping
    /// strategies yield nothing.
    pub fn add_fallback_models(&self, models: &mut StrMap<GeminiModelDetails>)
        requires
            old(models).wf(),
        ensures
            final(models).wf(),
            gem_entries(final(models)@) == g_fallback(gem_entries(old(models)@)),
    {
        let ghost s0 = models@;
        let d1 = GeminiModelDetails {
            name: String::from_str("Gemini 1.5 Pro"),
            context_length: 2097152,
            max_tokens: 8192,
            vision: true,
            function_call: true,
            reasoning: true,
        };
        models.insert(String::from_str("models/gemini-1.5-pro-latest"), d1);
        proof {
            lemma_gem_entries_update(s0, "models/gemini-1.5-pro-latest"@, d1);
        }
        let ghost s1 = models@;
        let d2 = GeminiModelDetails {
            name: String::from_str("Gemini 1.5 Flash"),
            context_length: 1048576,
            max_tokens: 8192,
            vision: true,
            function_call: true,
            reasoning: false,
        };
        models.insert(String::from_str("models/gemini-1.5-flash-latest"), d2);
        proof {
            lemma_gem_entries_update(s1, "models/gemini-1.5-flash-latest"@, d2);
        }
        let ghost s2 = models@;
        let d3 = GeminiModelDetails {
            name: String::from_str("Gemini 1.0 Pro"),
            context_length: 32768,
            max_tokens: 2048,
            vision: false,
            function_call: true,
            reasoning: false,
        };
        models.insert(String::from_str("models/gemini-1.0-pro"), d3);
        proof {
            lemma_gem_entries_update(s2, "models/gemini-1.0-pro"@, d3);
        }
        let ghost s3 = models@;
        let d4 = GeminiModelDetails {
            name: String::from_str("Embedding Gecko"),
            context_length: 2048,
            max_tokens: 0,
            vision: false,
            function_call: false,
            reasoning: false,
        };
        models.insert(String::from_str("models/embedding-gecko-001"), d4);
        proof {
            lemma_gem_entries_update(s3, "models/embedding-gecko-001"@, d4);
        }
    }

    /// Converts one detail entry to its canonical record.
    pub fn convert_model(&self, model_id: String, details: &GeminiModelDetails) -> (m: ModelInfo)
        ensures
            gemini_converted(m, model_id@, details@),
            m.id == model_id,
    {
        let model_type = if str_contains_id(model_id.as_str()) {
            ModelType::Embedding
        } else {
            ModelType::Chat
        };
        ModelInfo::new(
            model_id,
            details.name.clone(),
            details.context_length,
            details.max_tokens,
            details.vision,
            details.function_call,
            details.reasoning,
            model_type,
            None,
        )
    }

    /// Combines the live id list (when present) with the scraped
    /// details: live ids take curated details when found, a freshly
    /// derived record otherwise; without live ids the scraped set is
    /// served as-is.
    pub fn models_from(&self, api_models: &Vec<String>, html: &str) -> (r: Vec<ModelInfo>)
        ensures
            api_models@.len() > 0 ==> r@.len() == api_models@.len() && forall|i: int|
                0 <= i < r@.len() ==> gemini_converted(
                    #[trigger] r@[i],
                    api_models@[i]@,
                    match assoc_get(gemini_scraped(html@), api_models@[i]@) {
                        Some(d) => d,
                        None => spec_create_details(api_models@[i]@, Seq::empty(), Seq::empty()),
                    },
                ),
            api_models@.len() == 0 ==> r@.len() == gemini_scraped(html@).len() && forall|i: int|
                0 <= i < r@.len() ==> gemini_converted(
                    #[trigger] r@[i],
                    gemini_scraped(html@)[i].0,
                    gemini_scraped(html@)[i].1,
                ),
    {
        let tables = extract_tables(html);
        let mut models: StrMap<GeminiModelDetails> = StrMap::new();
        proof {
            assert(gem_entries(Seq::<(Seq<char>, GeminiModelDetails)>::empty()) =~= Seq::<
                (Seq<char>, GeminiDetailsView),
            >::empty());
        }
        self.parse_table_format(&tables, &mut models);
        if models.len() == 0 {
            proof {
                assert(gem_entries(models@) =~= Seq::<(Seq<char>, GeminiDetailsView)>::empty());
            }
            let items = extract_code_list_items(html);
            self.parse_list_format(&items, &mut models);
        }
        if models.len() == 0 {
            proof {
                assert(gem_entries(models@) =~= Seq::<(Seq<char>, GeminiDetailsView)>::empty());
            }
            self.add_fallback_models(&mut models);
        }
        let ghost det = gemini_scraped(html@);
        proof {
            assert(gem_entries(models@) == det);
        }
        let mut r: Vec<ModelInfo> = Vec::new();
        if api_models.len() > 0 {
            let n = api_models.len();
            for i in 0..n
                invariant
                    n == api_models@.len(),
                    det == gem_entries(models@),
                    r@.len() == i,
                    forall|k: int| 0 <= k < i ==> gemini_converted(
                        #[trigger] r@[k],
                        api_models@[k]@,
                        match assoc_get(det, api_models@[k]@) {
                            Some(d) => d,
                            None => spec_create_details(
                                api_models@[k]@,
                                Seq::empty(),
                                Seq::empty(),
                            ),
                        },
                    ),
            {
                let id = &api_models[i];
                match models.get(id.as_str()) {
                    Some(found) => {
                        proof {
                            lemma_gem_get(models@, id@);
                        }
                        let m = self.convert_model(id.clone(), found);
                        r.push(m);
                    },
                    None => {
                        proof {
                            lemma_gem_get(models@, id@);
                            reveal_strlit("");
                        }
                        let basic = self.create_model_details(id.as_str(), "", "");
                        let m = self.convert_model(id.clone(), &basic);
                        r.push(m);
                    },
                }
            }
        } else {
            let n = models.len();
            for i in 0..n
                invariant
                    n == models@.len(),
                    det == gem_entries(models@),
                    r@.len() == i,
                    forall|k: int| 0 <= k < i ==> gemini_converted(
                        #[trigger] r@[k],
                        det[k].0,
                        det[k].1,
                    ),
            {
                let e = models.idx(i);
                let m = self.convert_model(e.0.clone(), &e.1);
                r.push(m);
            }
        }
        r
    }
}

/// Embedding test on an id, shared by the converter.
fn str_contains_id(id: &str) -> (b: bool)
    ensures
        b == contains_seq(id@, "embedding"@),
{
    let idv = chars_of(id);
    contains_chars(&idv, &chars_of("embedding"))
}

/// Value-level and view-level lookups agree.
proof fn lemma_gem_get(s: Seq<(Seq<char>, GeminiModelDetails)>, k: Seq<char>)
    ensures
        match crate::collections::assoc_get(s, k) {
            Some(v) => assoc_get(gem_entries(s), k) == Some(v@),
            None => assoc_get(gem_entries(s), k) is None,
        },
    decreases s.len(),
{
    if s.len() > 0 {
        if s[0].0 == k {
        } else {
            lemma_gem_get(s.drop_first(), k);
            assert(gem_entries(s).drop_first() =~= gem_entries(s.drop_first()));
        }
    }
}

/// Renders one hyphen-separated part of a model name.
fn gemini_word(w: &Vec<char>) -> (r: Vec<char>)
    ensures
        r@ == gem_word(w@),
{
    let n = w.len();
    let mut digits_only = true;
    for i in 0..n
        invariant
            n == w@.len(),
            digits_only == (forall|k: int| 0 <= k < i ==> is_digit_char(#[trigger] w@[k])),
    {
        if !is_digit_char_exec(w[i]) {
            digits_only = false;
        }
    }
    if n == 1 || digits_only {
        upper_chars(w)
    } else {
        capitalize_first_chars(w)
    }
}

} // verus!
