//! The routing policy: which model serves a request on a machine of a tier.

use vstd::prelude::*;
use crate::hardware::HardwareTier;
use crate::models::ChatRequest;
use crate::text::{as_opt_str, opt_str_view, opt_view, same_text};

verus! {

/// What a request is about. It picks both the model and the persona.
#[derive(Debug, Clone, Copy, PartialEq, Eq, Structural)]
pub enum Category {
    Chat,
    Code,
    Reasoning,
}

/// The category that a label names: "code" and "reasoning" name their own,
/// every other label names `Chat`.
pub open spec fn category_of_label(label: Seq<char>) -> Category {
    if label == "code"@ {
        Category::Code
    } else if label == "reasoning"@ {
        Category::Reasoning
    } else {
        Category::Chat
    }
}

/// The category of a request: that of its label, `Chat` where it has none.
pub open spec fn category_of(label: Option<Seq<char>>) -> Category {
    match label {
        Some(l) => category_of_label(l),
        None => Category::Chat,
    }
}

/// The model that serves `category` on a machine of `tier` where the caller
/// names none.
pub open spec fn default_model(tier: HardwareTier, category: Category) -> Seq<char> {
    match (category, tier) {
        (Category::Code, HardwareTier::Heavy) => "deepseek-coder:33b"@,
        (Category::Code, HardwareTier::Medium) => "deepseek-coder:6.7b"@,
        (Category::Code, _) => "phi3:3.8b"@,
        (Category::Reasoning, HardwareTier::Heavy) => "llama3.1:8b"@,
        (Category::Reasoning, HardwareTier::Medium) => "gemma2:9b"@,
        (Category::Reasoning, _) => "phi3:3.8b"@,
        (Category::Chat, HardwareTier::Heavy) => "llama3.1:8b"@,
        (Category::Chat, HardwareTier::Medium) => "gemma2:9b"@,
        (Category::Chat, HardwareTier::NPU) => "gemma2:2b"@,
        (Category::Chat, HardwareTier::Light) => "phi3:3.8b"@,
    }
}

/// The model that serves a request: the caller's own choice where it names one
/// that is not empty, else the default for the tier and category.
pub open spec fn selected_model(
    tier: HardwareTier,
    category: Category,
    model_override: Option<Seq<char>>,
) -> Seq<char> {
    match model_override {
        Some(name) if name.len() > 0 => name,
        _ => default_model(tier, category),
    }
}

/// Reads a category label.
pub fn parse_category(label: Option<&str>) -> (category: Category)
    ensures
        category == category_of(opt_str_view(label)),
{
    match label {
        Some(l) => {
            if same_text(l, "code") {
                Category::Code
            } else if same_text(l, "reasoning") {
                Category::Reasoning
            } else {
                Category::Chat
            }
        },
        None => Category::Chat,
    }
}

/// The default model for a tier and category.
pub fn default_model_for(tier: HardwareTier, category: Category) -> (model: &'static str)
    ensures
        model@ == default_model(tier, category),
        model@.len() > 0,
{
    proof {
        reveal_strlit("deepseek-coder:33b");
        reveal_strlit("deepseek-coder:6.7b");
        reveal_strlit("phi3:3.8b");
        reveal_strlit("llama3.1:8b");
        reveal_strlit("gemma2:9b");
        reveal_strlit("gemma2:2b");
    }
    match (category, tier) {
        (Category::Code, HardwareTier::Heavy) => "deepseek-coder:33b",
        (Category::Code, HardwareTier::Medium) => "deepseek-coder:6.7b",
        (Category::Code, _) => "phi3:3.8b",
        (Category::Reasoning, HardwareTier::Heavy) => "llama3.1:8b",
        (Category::Reasoning, HardwareTier::Medium) => "gemma2:9b",
        (Category::Reasoning, _) => "phi3:3.8b",
        (Category::Chat, HardwareTier::Heavy) => "llama3.1:8b",
        (Category::Chat, HardwareTier::Medium) => "gemma2:9b",
        (Category::Chat, HardwareTier::NPU) => "gemma2:2b",
        (Category::Chat, HardwareTier::Light) => "phi3:3.8b",
    }
}

/// Picks the model for a request of `category` on a machine of `tier`. A
/// `model_override` that is not empty wins over the table.
pub fn select_model(tier: HardwareTier, category: &str, model_override: Option<&str>) -> (model: String)
    ensures
        model@ == selected_model(tier, category_of_label(category@), opt_str_view(model_override)),
        model@.len() > 0,
{
    match model_override {
        Some(name) => {
            if !name.is_empty() {
                return name.to_owned();
            }
        },
        None => {},
    }
    default_model_for(tier, parse_category(Some(category))).to_owned()
}

/// Picks the model for `request` on a machine of `tier`.
pub fn select_model_for_request(request: &ChatRequest, tier: HardwareTier) -> (model: String)
    ensures
        model@ == selected_model(
            tier,
            category_of(opt_view(request.message_type)),
            opt_view(request.model_override),
        ),
        model@.len() > 0,
{
    let category = parse_category(as_opt_str(&request.message_type));
    match &request.model_override {
        Some(name) => {
            if !name.as_str().is_empty() {
                return name.clone();
            }
        },
        None => {},
    }
    default_model_for(tier, category).to_owned()
}

/// The models of one tier: the one for chat, and those for code and for
/// reasoning where they differ from it.
#[derive(Debug, Clone, PartialEq, Eq)]
pub struct TierModels {
    pub chat: String,
    pub code: Option<String>,
    pub reasoning: Option<String>,
}

/// The routing table as data: the models of each tier.
#[derive(Debug, Clone, PartialEq, Eq)]
pub struct ModelCatalog {
    pub light: TierModels,
    pub medium: TierModels,
    pub heavy: TierModels,
    pub npu: TierModels,
}

/// The model that serves where the catalog names none: the lightest.
pub open spec fn lightest_model() -> Seq<char> {
    "phi3:3.8b"@
}

impl TierModels {
    /// The entry of `category`, if it has one of its own.
    pub open spec fn entry(&self, category: Category) -> Option<Seq<char>> {
        match category {
            Category::Chat => Some(self.chat@),
            Category::Code => opt_view(self.code),
            Category::Reasoning => opt_view(self.reasoning),
        }
    }

    /// The model for `category`: its own entry where that names a model,
    /// else the entry for chat, else the lightest model.
    pub open spec fn model(&self, category: Category) -> Seq<char> {
        match self.entry(category) {
            Some(name) if name.len() > 0 => name,
            _ => if self.chat@.len() > 0 {
                self.chat@
            } else {
                lightest_model()
            },
        }
    }

    /// The model for `category`.
    pub fn model_for(&self, category: Category) -> (model: String)
        ensures
            model@ == self.model(category),
            model@.len() > 0,
    {
        let own: Option<&str> = match category {
            Category::Chat => None,
            Category::Code => as_opt_str(&self.code),
            Category::Reasoning => as_opt_str(&self.reasoning),
        };
        match own {
            Some(name) => {
                if !name.is_empty() {
                    return name.to_owned();
                }
            },
            None => {},
        }
        if !self.chat.as_str().is_empty() {
            self.chat.clone()
        } else {
            proof {
                reveal_strlit("phi3:3.8b");
            }
            "phi3:3.8b".to_owned()
        }
    }
}

impl ModelCatalog {
    /// The models of `tier`.
    pub open spec fn row(&self, tier: HardwareTier) -> TierModels {
        match tier {
            HardwareTier::Light => self.light,
            HardwareTier::Medium => self.medium,
            HardwareTier::Heavy => self.heavy,
            HardwareTier::NPU => self.npu,
        }
    }

    /// The catalog names, for every tier and category, the model of the
    /// built-in table.
    pub open spec fn is_builtin(&self) -> bool {
        forall|tier: HardwareTier, category: Category| #[trigger]
            self.row(tier).model(category) == default_model(tier, category)
    }

    /// The models of `tier`.
    pub fn tier_models(&self, tier: HardwareTier) -> (row: &TierModels)
        ensures
            *row == self.row(tier),
    {
        match tier {
            HardwareTier::Light => &self.light,
            HardwareTier::Medium => &self.medium,
            HardwareTier::Heavy => &self.heavy,
            HardwareTier::NPU => &self.npu,
        }
    }

    /// The model that this catalog names for a request on a machine of
    /// `tier`: the caller's own choice where the request names one that is
    /// not empty, else the model of the tier for the request's category.
    pub open spec fn routed(&self, request: ChatRequest, tier: HardwareTier) -> Seq<char> {
        match opt_view(request.model_override) {
            Some(name) if name.len() > 0 => name,
            _ => self.row(tier).model(category_of(opt_view(request.message_type))),
        }
    }

    /// Picks the model for `request` on a machine of `tier` by this catalog.
    pub fn select_for_request(&self, request: &ChatRequest, tier: HardwareTier) -> (model: String)
        ensures
            model@ == self.routed(*request, tier),
            model@.len() > 0,
    {
        match &request.model_override {
            Some(name) => {
                if !name.as_str().is_empty() {
                    return name.clone();
                }
            },
            None => {},
        }
        self.tier_models(tier).model_for(parse_category(as_opt_str(&request.message_type)))
    }

    /// Picks the model for a request of `category` on a machine of `tier`
    /// by this catalog. A `model_override` that is not empty wins over it.
    /// The model is never empty, whatever the catalog holds.
    pub fn select(&self, tier: HardwareTier, category: &str, model_override: Option<&str>) -> (model: String)
        ensures
            model@ == match opt_str_view(model_override) {
                Some(name) if name.len() > 0 => name,
                _ => self.row(tier).model(category_of_label(category@)),
            },
            model@.len() > 0,
    {
        match model_override {
            Some(name) => {
                if !name.is_empty() {
                    return name.to_owned();
                }
            },
            None => {},
        }
        self.tier_models(tier).model_for(parse_category(Some(category)))
    }
}

impl Default for ModelCatalog {
    /// The built-in table.
    fn default() -> (catalog: ModelCatalog)
        ensures
            catalog.is_builtin(),
    {
        proof {
            reveal_strlit("deepseek-coder:33b");
            reveal_strlit("deepseek-coder:6.7b");
            reveal_strlit("phi3:3.8b");
            reveal_strlit("llama3.1:8b");
            reveal_strlit("gemma2:9b");
            reveal_strlit("gemma2:2b");
        }
        ModelCatalog {
            light: TierModels { chat: "phi3:3.8b".to_owned(), code: None, reasoning: None },
            medium: TierModels {
                chat: "gemma2:9b".to_owned(),
                code: Some("deepseek-coder:6.7b".to_owned()),
                reasoning: None,
            },
            heavy: TierModels {
                chat: "llama3.1:8b".to_owned(),
                code: Some("deepseek-coder:33b".to_owned()),
                reasoning: None,
            },
            npu: TierModels {
                chat: "gemma2:2b".to_owned(),
                code: Some("phi3:3.8b".to_owned()),
                reasoning: Some("phi3:3.8b".to_owned()),
            },
        }
    }
}

/// With the built-in table as its catalog, routing by catalog picks the
/// model that `selected_model` names.
pub proof fn lemma_builtin_catalog_routes_alike(
    catalog: ModelCatalog,
    tier: HardwareTier,
    category: Category,
    model_override: Option<Seq<char>>,
)
    requires
        catalog.is_builtin(),
    ensures
        (match model_override {
            Some(name) if name.len() > 0 => name,
            _ => catalog.row(tier).model(category),
        }) == selected_model(tier, category, model_override),
{
    assert(catalog.row(tier).model(category) == default_model(tier, category));
}

/// The caller's choice always wins: with a model named, and not by the
/// empty name, routing gives that model for every tier and category.
pub proof fn lemma_override_wins(tier: HardwareTier, category: Category, name: Seq<char>)
    requires
        name.len() > 0,
    ensures
        selected_model(tier, category, Some(name)) == name,
{
}

/// Routing never gives the empty name.
pub proof fn lemma_selected_model_not_empty(
    tier: HardwareTier,
    category: Category,
    model_override: Option<Seq<char>>,
)
    ensures
        selected_model(tier, category, model_override).len() > 0,
{
    reveal_strlit("deepseek-coder:33b");
    reveal_strlit("deepseek-coder:6.7b");
    reveal_strlit("phi3:3.8b");
    reveal_strlit("llama3.1:8b");
    reveal_strlit("gemma2:9b");
    reveal_strlit("gemma2:2b");
}

} // verus!
