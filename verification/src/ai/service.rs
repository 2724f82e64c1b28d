//! The planning of an AI analysis of a work item: everything that happens
//! before the request goes out.

use vstd::prelude::*;

use crate::ai::client::{settings_for, ChatMessage, ClientSettings};
use crate::ai::egress::{blocked_message, token_estimate, EgressFilter};
use crate::ai::error::AiError;
use crate::ai::prompt::{binding_views, load_template, render_bindings, render_seq, system_prompt_text, user_prompt_text};
use crate::domain::egress_policy::EgressPolicy;
use crate::domain::entities::{AiProfile, WorkItem};
use crate::domain::enums::{AnalysisType, Source};

verus! {

broadcast use vstd::string::group_string_axioms;

/// The name of a source as `Debug` writes it.
pub open spec fn source_name(s: Source) -> Seq<char> {
    match s {
        Source::Manual => "Manual"@,
        Source::Email => "Email"@,
        Source::File => "File"@,
        Source::Api => "Api"@,
    }
}

/// The name of a source as `Debug` writes it.
pub fn source_label(s: Source) -> (r: &'static str)
    ensures
        r@ == source_name(s),
{
    match s {
        Source::Manual => "Manual",
        Source::Email => "Email",
        Source::File => "File",
        Source::Api => "Api",
    }
}

/// The text of an optional string, or nothing.
pub open spec fn text_or_empty(s: Option<String>) -> Seq<char> {
    match s {
        Some(t) => t@,
        None => Seq::empty(),
    }
}

/// The variables of the prompt for a work item: its title, its content (or
/// nothing) and the name of its source, in that order.
pub open spec fn analysis_bindings(w: WorkItem) -> Seq<(Seq<char>, Seq<char>)> {
    seq![("title"@, w.title@), ("content"@, text_or_empty(w.content)), ("source"@, source_name(w.source))]
}

/// The variables of an analysis are, in order, the work item's title, its
/// content (nothing when it has none) and its source's name; each source's
/// name is the one `Debug` writes.
pub proof fn lemma_analysis_bindings(w: WorkItem)
    ensures
        analysis_bindings(w).len() == 3,
        analysis_bindings(w)[0] == ("title"@, w.title@),
        w.content matches Some(c) ==> analysis_bindings(w)[1] == ("content"@, c@),
        w.content is None ==> analysis_bindings(w)[1] == ("content"@, Seq::<char>::empty()),
        analysis_bindings(w)[2] == ("source"@, source_name(w.source)),
        source_name(Source::Manual) == "Manual"@,
        source_name(Source::Email) == "Email"@,
        source_name(Source::File) == "File"@,
        source_name(Source::Api) == "Api"@,
{
}

/// The user message of an analysis: the analysis type's user prompt with the
/// work item's variables substituted.
pub open spec fn analysis_user_message(w: WorkItem, a: AnalysisType) -> Seq<char> {
    render_seq(user_prompt_text(a), analysis_bindings(w))
}

/// The content type under which prompts are checked against the egress policy.
pub open spec fn prompt_content_type() -> Seq<char> {
    "text/plain"@
}

/// Plans AI analyses: holds the provider settings, if a provider is
/// configured, and the egress filter every outgoing prompt must pass.
pub struct AiService {
    client: Option<ClientSettings>,
    egress: EgressFilter,
}

impl AiService {
    /// Whether a provider is configured.
    pub closed spec fn has_provider(&self) -> bool {
        self.client is Some
    }

    /// The settings of the configured provider, when there is one.
    pub closed spec fn provider(&self) -> ClientSettings {
        self.client->0
    }

    /// The egress policy that outgoing prompts must pass.
    pub closed spec fn policy(&self) -> EgressPolicy {
        self.egress.policy()
    }

    /// Build a service; pass `None` for `profile` when no AI provider has been
    /// configured yet, and every analysis is then refused with `NoProvider`.
    pub fn new(profile: Option<&AiProfile>, policy: EgressPolicy) -> (r: Self)
        ensures
            r.has_provider() == (profile is Some),
            profile matches Some(p) ==> settings_for(r.provider(), *p),
            r.policy() == policy,
    {
        let client = match profile {
            Some(p) => Some(ClientSettings::from_profile(p)),
            None => None,
        };
        AiService { client, egress: EgressFilter::new(policy) }
    }

    /// The settings of the configured provider, if any.
    pub fn client_settings(&self) -> (r: Option<&ClientSettings>)
        ensures
            r is Some == self.has_provider(),
            r matches Some(c) ==> *c == self.provider(),
    {
        match &self.client {
            Some(c) => Some(c),
            None => None,
        }
    }

    /// Prepare the messages of an analysis of `work_item`: refuse when no
    /// provider is configured; else render the analysis type's user prompt
    /// with the work item's title, content and source, check it against the
    /// egress policy as `text/plain`, and give the system and user messages.
    ///
    /// The variables are substituted in the order title, content, source.
    pub fn prepare(&self, work_item: &WorkItem, analysis_type: AnalysisType) -> (r: Result<Vec<ChatMessage>, AiError>)
        ensures
            !self.has_provider() ==> r matches Err(AiError::NoProvider),
            self.has_provider() && self.policy().blocks(prompt_content_type()) ==> (r matches Err(
                AiError::EgressBlocked(m),
            ) && m@ == blocked_message(prompt_content_type())),
            self.has_provider() && !self.policy().blocks(prompt_content_type()) && token_estimate(
                analysis_user_message(*work_item, analysis_type),
            ) > self.policy().max_tokens ==> (r matches Err(AiError::TokenBudgetExceeded { used, max })
                && used == token_estimate(analysis_user_message(*work_item, analysis_type)) && max
                == self.policy().max_tokens),
            self.has_provider() && !self.policy().blocks(prompt_content_type()) && token_estimate(
                analysis_user_message(*work_item, analysis_type),
            ) <= self.policy().max_tokens ==> (r matches Ok(msgs) && msgs@.len() == 2
                && msgs@[0].role@ == "system"@ && msgs@[0].content@ == system_prompt_text(analysis_type)
                && msgs@[1].role@ == "user"@ && msgs@[1].content@ == analysis_user_message(
                *work_item,
                analysis_type,
            )),
            r matches Ok(msgs) ==> msgs@.len() == 2 && msgs@[1].content@ == render_seq(
                user_prompt_text(analysis_type),
                seq![
                    ("title"@, work_item.title@),
                    ("content"@, match work_item.content {
                        Some(c) => c@,
                        None => Seq::empty(),
                    }),
                    ("source"@, source_name(work_item.source)),
                ],
            ),
    {
        proof {
            lemma_analysis_bindings(*work_item);
            let w = *work_item;
            let direct = seq![
                ("title"@, w.title@),
                ("content"@, match w.content {
                    Some(c) => c@,
                    None => Seq::empty(),
                }),
                ("source"@, source_name(w.source)),
            ];
            assert(analysis_bindings(w) =~= direct);
        }
        if self.client.is_none() {
            return Err(AiError::NoProvider);
        }
        let template = load_template(&analysis_type);
        let content = match &work_item.content {
            Some(c) => c.clone(),
            None => String::new(),
        };
        let mut vars: Vec<(String, String)> = Vec::new();
        vars.push((String::from_str("title"), work_item.title.clone()));
        vars.push((String::from_str("content"), content));
        vars.push((String::from_str("source"), String::from_str(source_label(work_item.source))));
        assert(binding_views(vars@) =~= analysis_bindings(*work_item));
        let user_msg = render_bindings(template.user_prompt.as_str(), &vars);
        let checked = match self.egress.check(user_msg.as_str(), "text/plain") {
            Ok(s) => s,
            Err(e) => return Err(e),
        };
        let mut messages: Vec<ChatMessage> = Vec::new();
        messages.push(ChatMessage { role: String::from_str("system"), content: template.system_prompt });
        messages.push(ChatMessage { role: String::from_str("user"), content: checked });
        Ok(messages)
    }
}

} // verus!
