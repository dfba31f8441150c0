//! The completion calls that context compaction makes, and the token counts that it goes by.
//!
//! What a call yields is left to the implementation: a finished reply, or the pending work that
//! produces one. The lifetime of each trait is that of the arguments, so pending work can hold on to
//! them.

use vstd::prelude::*;

verus! {

/// A service that completes conversations.
pub trait Provider<'a> {
    type ModelConfig;

    type Message;

    type Tool;

    /// What a completion yields.
    type Completion;

    /// Completes a conversation with a model, a system prompt and the tools that the model may use.
    fn complete(
        &'a self,
        model_config: &'a Self::ModelConfig,
        system: &'a str,
        messages: &'a [Self::Message],
        tools: &'a [Self::Tool],
    ) -> Self::Completion;
}

/// Why a completion was not started.
#[derive(Debug)]
pub enum ProviderError {
    ExecutionError(String),
}

/// The single completion call that compaction needs. Implementations decide on model selection,
/// fallbacks and session plumbing.
pub trait CompactionModel<'a> {
    type Message;

    type Tool;

    /// What a completion yields.
    type Completion;

    fn complete(&'a self, system: &'a str, messages: &'a [Self::Message]) -> Self::Completion;

    /// Replays the request prefix of the conversation itself. Implementations must keep it
    /// compatible with the cache of the last routed request (same model, cache on, same thinking
    /// configuration). The default reports that this is not supported, so that callers fall back.
    fn complete_prefix(
        &'a self,
        _system: &'a str,
        _messages: &'a [Self::Message],
        _tools: &'a [Self::Tool],
    ) -> (completion: Result<Self::Completion, ProviderError>)
        default_ensures
            completion matches Err(ProviderError::ExecutionError(text)) && text@
                == "prefix compaction is not supported by this CompactionModel"@,
    {
        Err(
            ProviderError::ExecutionError(
                "prefix compaction is not supported by this CompactionModel".to_string(),
            ),
        )
    }
}

/// Counts tokens, to estimate usage and to report how much context is retained.
pub trait TokenEstimator<'a> {
    type Message;

    type Tool;

    /// What a count yields.
    type Count;

    fn count_chat_tokens(&'a self, system: &'a str, messages: &'a [Self::Message]) -> Self::Count;

    /// Like [`Self::count_chat_tokens`], but with the schemas of the tools. The default ignores the
    /// tools: it yields a count of the chat alone.
    fn count_chat_tokens_with_tools(
        &'a self,
        system: &'a str,
        messages: &'a [Self::Message],
        _tools: &'a [Self::Tool],
    ) -> (count: Self::Count)
        default_ensures
            call_ensures(Self::count_chat_tokens, (self, system, messages), count),
    {
        self.count_chat_tokens(system, messages)
    }

    fn count_text_tokens(&'a self, text: &'a str) -> Self::Count;
}

/// Where the default of [`TokenEstimator::count_chat_tokens_with_tools`] is kept, so that whatever it
/// yields is a count of the chat alone, and counting the same chat twice yields the same, the tools
/// make no difference: every count with tools is the count of the chat.
pub proof fn law_default_count_ignores_the_tools<'a, E: TokenEstimator<'a>>(
    estimator: &'a E,
    system: &'a str,
    messages: &'a [E::Message],
    tools: &'a [E::Tool],
    other_tools: &'a [E::Tool],
    count: E::Count,
    other_count: E::Count,
    chat_count: E::Count,
)
    requires
        forall|given: &'a [E::Tool], yielded: E::Count| #[trigger]
            call_ensures(
                E::count_chat_tokens_with_tools,
                (estimator, system, messages, given),
                yielded,
            ) ==> call_ensures(E::count_chat_tokens, (estimator, system, messages), yielded),
        forall|first: E::Count, second: E::Count|
            #[trigger] call_ensures(E::count_chat_tokens, (estimator, system, messages), first)
                && #[trigger] call_ensures(
                E::count_chat_tokens,
                (estimator, system, messages),
                second,
            ) ==> first == second,
        call_ensures(
            E::count_chat_tokens_with_tools,
            (estimator, system, messages, tools),
            count,
        ),
        call_ensures(
            E::count_chat_tokens_with_tools,
            (estimator, system, messages, other_tools),
            other_count,
        ),
        call_ensures(E::count_chat_tokens, (estimator, system, messages), chat_count),
    ensures
        count == chat_count,
        other_count == chat_count,
{
}

/// Takes the defaults of [`TokenEstimator`] and [`CompactionModel`] as they are, so that what they do
/// can be stated: the bodies of the defaults are the same for every implementation.
#[allow(dead_code)]
struct TakesDefaults;

impl<'a> TokenEstimator<'a> for TakesDefaults {
    type Message = String;

    type Tool = String;

    type Count = usize;

    fn count_chat_tokens(&'a self, _system: &'a str, messages: &'a [String]) -> usize {
        messages.len()
    }

    fn count_text_tokens(&'a self, _text: &'a str) -> usize {
        1
    }
}

impl<'a> CompactionModel<'a> for TakesDefaults {
    type Message = String;

    type Tool = String;

    type Completion = usize;

    fn complete(&'a self, _system: &'a str, messages: &'a [String]) -> usize {
        messages.len()
    }
}

/// The default count with tools is a count of the same chat, whatever the tools are.
proof fn law_default_count_is_a_chat_count<'a>(
    estimator: &'a TakesDefaults,
    system: &'a str,
    messages: &'a [String],
    tools: &'a [String],
    count: usize,
)
    requires
        call_ensures(
            TakesDefaults::count_chat_tokens_with_tools,
            (estimator, system, messages, tools),
            count,
        ),
    ensures
        call_ensures(TakesDefaults::count_chat_tokens, (estimator, system, messages), count),
{
}

/// A model that takes the default refuses every prefix, whatever it holds, so that callers fall back.
proof fn law_default_prefix_is_refused<'a>(
    model: &'a TakesDefaults,
    system: &'a str,
    messages: &'a [String],
    tools: &'a [String],
    completion: Result<usize, ProviderError>,
)
    requires
        call_ensures(
            TakesDefaults::complete_prefix,
            (model, system, messages, tools),
            completion,
        ),
    ensures
        completion matches Err(ProviderError::ExecutionError(text)) && text@
            == "prefix compaction is not supported by this CompactionModel"@,
{
}

/// A [`CompactionModel`] that calls a provider with a fixed model configuration.
pub struct ProviderModel<P, C> {
    provider: P,
    model_config: C,
}

impl<P, C> ProviderModel<P, C> {
    /// The provider that is called.
    pub closed spec fn provider(self) -> P {
        self.provider
    }

    /// The configuration that every call uses.
    pub closed spec fn model_config(self) -> C {
        self.model_config
    }

    pub fn new(provider: P, model_config: C) -> (model: Self)
        ensures
            model.provider() == provider,
            model.model_config() == model_config,
    {
        ProviderModel { provider, model_config }
    }
}

impl<'a, P: Provider<'a>> ProviderModel<P, P::ModelConfig> {
    /// Whether a completion is one that the provider yields for the configuration of the model and
    /// these arguments.
    pub open spec fn yields(
        &self,
        system: &str,
        messages: &[P::Message],
        tools: &[P::Tool],
        completion: P::Completion,
    ) -> bool {
        call_ensures(
            P::complete,
            (&self.provider(), &self.model_config(), system, messages, tools),
            completion,
        )
    }
}

impl<'a, P: Provider<'a>> CompactionModel<'a> for ProviderModel<P, P::ModelConfig> {
    type Message = P::Message;

    type Tool = P::Tool;

    type Completion = P::Completion;

    /// Calls the provider without tools.
    fn complete(&'a self, system: &'a str, messages: &'a [P::Message]) -> (completion:
        P::Completion)
        ensures
            exists|tools: &[P::Tool]|
                tools@.len() == 0 && #[trigger] self.yields(system, messages, tools, completion),
            exists|tools: &[P::Tool]|
                tools@.len() == 0 && #[trigger] call_ensures(
                    P::complete,
                    (&self.provider(), &self.model_config(), system, messages, tools),
                    completion,
                ),
    {
        let none: &[P::Tool] = &[];
        let completion = self.provider.complete(&self.model_config, system, messages, none);
        assert(self.yields(system, messages, none, completion));
        completion
    }

    /// Calls the provider with the given tools.
    fn complete_prefix(
        &'a self,
        system: &'a str,
        messages: &'a [P::Message],
        tools: &'a [P::Tool],
    ) -> (completion: Result<P::Completion, ProviderError>)
        ensures
            completion matches Ok(completion) && self.yields(system, messages, tools, completion)
                && call_ensures(
                P::complete,
                (&self.provider(), &self.model_config(), system, messages, tools),
                completion,
            ),
    {
        Ok(self.provider.complete(&self.model_config, system, messages, tools))
    }
}

/// A prefix completion is never refused, and it is one that the provider of the model yields for the
/// configuration of the model and exactly the given system prompt, messages and tools.
pub proof fn law_prefix_reaches_the_provider_as_given<'a, P: Provider<'a>>(
    provider: P,
    model_config: P::ModelConfig,
    model: ProviderModel<P, P::ModelConfig>,
    system: &'a str,
    messages: &'a [P::Message],
    tools: &'a [P::Tool],
    completion: Result<P::Completion, ProviderError>,
)
    requires
        call_ensures(
            ProviderModel::<P, P::ModelConfig>::new,
            (provider, model_config),
            model,
        ),
        call_ensures(
            <ProviderModel<P, P::ModelConfig> as CompactionModel<'a>>::complete_prefix,
            (&model, system, messages, tools),
            completion,
        ),
    ensures
        completion matches Ok(completion) && call_ensures(
            P::complete,
            (&provider, &model_config, system, messages, tools),
            completion,
        ),
{
}

/// A completion is one that the provider of the model yields for the configuration of the model,
/// exactly the given system prompt and messages, and no tools.
pub proof fn law_completion_reaches_the_provider_without_tools<'a, P: Provider<'a>>(
    provider: P,
    model_config: P::ModelConfig,
    model: ProviderModel<P, P::ModelConfig>,
    system: &'a str,
    messages: &'a [P::Message],
    completion: P::Completion,
)
    requires
        call_ensures(
            ProviderModel::<P, P::ModelConfig>::new,
            (provider, model_config),
            model,
        ),
        call_ensures(
            <ProviderModel<P, P::ModelConfig> as CompactionModel<'a>>::complete,
            (&model, system, messages),
            completion,
        ),
    ensures
        exists|tools: &[P::Tool]|
            tools@.len() == 0 && #[trigger] call_ensures(
                P::complete,
                (&provider, &model_config, system, messages, tools),
                completion,
            ),
{
}

/// A provider whose completions tell what they were made for is told the truth: the tools that its
/// completion of a prefix tells are those that were given, and so are the system prompt, the messages
/// and the configuration.
pub proof fn law_prefix_completion_tells_what_was_given<'a, P: Provider<'a>>(
    provider: P,
    model_config: P::ModelConfig,
    model: ProviderModel<P, P::ModelConfig>,
    system: &'a str,
    messages: &'a [P::Message],
    tools: &'a [P::Tool],
    completion: Result<P::Completion, ProviderError>,
    told: spec_fn(P::Completion) -> (P::ModelConfig, Seq<char>, Seq<P::Message>, Seq<P::Tool>),
)
    requires
        call_ensures(
            ProviderModel::<P, P::ModelConfig>::new,
            (provider, model_config),
            model,
        ),
        call_ensures(
            <ProviderModel<P, P::ModelConfig> as CompactionModel<'a>>::complete_prefix,
            (&model, system, messages, tools),
            completion,
        ),
        forall|
            config: &P::ModelConfig,
            prompt: &str,
            chat: &[P::Message],
            given: &[P::Tool],
            made: P::Completion,
        |
            #[trigger] call_ensures(P::complete, (&provider, config, prompt, chat, given), made)
                ==> told(made) == (*config, prompt@, chat@, given@),
    ensures
        completion matches Ok(made) && told(made) == (model_config, system@, messages@, tools@),
{
}

} // verus!
