use goose_acp::model::CompactionModel;
use goose_acp::model::Provider;
use goose_acp::model::ProviderError;
use goose_acp::model::ProviderModel;
use goose_acp::model::TokenEstimator;

struct Echo;

impl<'a> Provider<'a> for Echo {
    type ModelConfig = u32;
    type Message = String;
    type Tool = char;
    type Completion = (u32, &'a str, &'a [String], &'a [char]);

    fn complete(
        &'a self,
        model_config: &'a u32,
        system: &'a str,
        messages: &'a [String],
        tools: &'a [char],
    ) -> Self::Completion {
        (*model_config, system, messages, tools)
    }
}

struct NoPrefix;

impl<'a> CompactionModel<'a> for NoPrefix {
    type Message = String;
    type Tool = char;
    type Completion = usize;

    fn complete(&'a self, _system: &'a str, messages: &'a [String]) -> usize {
        messages.len()
    }
}

struct Letters;

impl<'a> TokenEstimator<'a> for Letters {
    type Message = String;
    type Tool = char;
    type Count = usize;

    fn count_chat_tokens(&'a self, system: &'a str, messages: &'a [String]) -> usize {
        system.len() + messages.iter().map(|message| message.len()).sum::<usize>()
    }

    fn count_text_tokens(&'a self, text: &'a str) -> usize {
        text.len()
    }
}

fn messages() -> Vec<String> {
    vec!["one".to_string(), "three".to_string()]
}

#[test]
fn a_completion_goes_to_the_provider_without_tools() {
    let model = ProviderModel::new(Echo, 7);
    let messages = messages();
    assert_eq!(
        model.complete("system", &messages),
        (7, "system", messages.as_slice(), [].as_slice())
    );
}

#[test]
fn a_prefix_completion_goes_to_the_provider_with_its_tools() {
    let model = ProviderModel::new(Echo, 7);
    let messages = messages();
    let completion = model.complete_prefix("system", &messages, &['r', 'w']);
    assert_eq!(
        completion.unwrap(),
        (7, "system", messages.as_slice(), ['r', 'w'].as_slice())
    );
}

#[test]
fn prefix_completions_are_unsupported_by_default() {
    let messages = messages();
    assert_eq!(NoPrefix.complete("system", &messages), 2);
    let ProviderError::ExecutionError(text) = NoPrefix
        .complete_prefix("system", &messages, &['r'])
        .unwrap_err();
    assert_eq!(
        text,
        "prefix compaction is not supported by this CompactionModel"
    );
}

#[test]
fn tools_are_not_counted_by_default() {
    let messages = messages();
    assert_eq!(
        Letters.count_chat_tokens_with_tools("system", &messages, &['r', 'w']),
        14
    );
    assert_eq!(
        Letters.count_chat_tokens_with_tools("system", &messages, &[]),
        Letters.count_chat_tokens("system", &messages)
    );
    assert_eq!(Letters.count_text_tokens("four"), 4);
}
