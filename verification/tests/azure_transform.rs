use llmur::azure_request::{
    ChatCompletionMessage as AzureChatCompletionMessage,
    UserMessageContent as AzureUserMessageContent,
    UserMessageContentPart as AzureUserMessageContentPart,
};
use llmur::azure_transform::TransformationContext;
use llmur::openai_request::{
    ChatCompletionMessage as OpenAIChatCompletionMessage,
    ChatCompletionRequest as OpenAIChatCompletionRequest, ImageUrlContentPart,
    UserMessageContent as OpenAIUserMessageContent,
    UserMessageContentPart as OpenAIUserMessageContentPart,
};

fn bits(v: f64) -> u64 {
    v.to_bits()
}

#[test]
fn test_basic_request_transform_ok() {
    let fx_messages = Vec::<OpenAIChatCompletionMessage>::new();
    let fx_request = OpenAIChatCompletionRequest {
        model: "my-model".to_string(),
        messages: fx_messages,
        n: Some(5),
        frequency_penalty: Some(bits(0.5)),
        temperature: None,
        logprobs: None,
        top_logprobs: None,
        max_tokens: None,
        presence_penalty: None,
        top_p: None,
        stream: None,
        stop: None,
        user: Some("user-1234".to_string()),
        seed: None,
        response_format: None,
        logit_bias: None,
        tools: None,
        tool_choice: None,
    };

    let data = fx_request.to_azure_v2024_02_01(TransformationContext { data_sources: None });

    assert_eq!(data.loss.model, fx_request.model);

    assert_eq!(data.request.n, Some(5));
    assert_eq!(data.request.frequency_penalty, Some(bits(0.5)));
    assert_eq!(data.request.temperature, None);
    assert_eq!(data.request.user, Some("user-1234".to_string()));
}

#[test]
fn test_system_message_request_transform_ok() {
    let mut fx_messages = Vec::<OpenAIChatCompletionMessage>::new();
    fx_messages.push(OpenAIChatCompletionMessage::SystemMessage {
        content: "hello".to_string(),
        name: Some("my-name".to_string()),
    });

    let fx_request = OpenAIChatCompletionRequest {
        model: "my-model".to_string(),
        messages: fx_messages,
        n: None,
        frequency_penalty: None,
        temperature: None,
        logprobs: None,
        top_logprobs: None,
        max_tokens: None,
        presence_penalty: None,
        top_p: None,
        stream: None,
        stop: None,
        user: None,
        seed: None,
        response_format: None,
        logit_bias: None,
        tools: None,
        tool_choice: None,
    };

    let data = fx_request.to_azure_v2024_02_01(TransformationContext { data_sources: None });

    assert_eq!(data.loss.model, fx_request.model);

    assert_eq!(data.request.messages.len(), 1);
    let el: &AzureChatCompletionMessage = data.request.messages.first().unwrap();

    match el {
        AzureChatCompletionMessage::SystemMessage { content } => {
            assert_eq!(content, "hello");
        }
        _ => panic!("Expected a SystemMessage"),
    }
}

#[test]
fn test_user_message_request_transform_ok() {
    let mut fx_messages = Vec::<OpenAIChatCompletionMessage>::new();
    fx_messages.push(OpenAIChatCompletionMessage::UserMessage {
        name: None,
        content: OpenAIUserMessageContent::TextContent("hello".to_string()),
    });
    fx_messages.push(OpenAIChatCompletionMessage::UserMessage {
        name: None,
        content: OpenAIUserMessageContent::ArrayContentParts(vec![
            OpenAIUserMessageContentPart::TextContentPart { text: "part".to_string() },
            OpenAIUserMessageContentPart::ImageContentPart {
                image_url: ImageUrlContentPart {
                    url: "http://example.com".to_string(),
                    detail: Some("detail".to_string()),
                },
            },
        ]),
    });

    let fx_request = OpenAIChatCompletionRequest {
        model: "my-model".to_string(),
        messages: fx_messages,
        n: None,
        frequency_penalty: None,
        temperature: None,
        logprobs: None,
        top_logprobs: None,
        max_tokens: None,
        presence_penalty: None,
        top_p: None,
        stream: None,
        stop: None,
        user: None,
        seed: None,
        response_format: None,
        logit_bias: None,
        tools: None,
        tool_choice: None,
    };

    let data = fx_request.to_azure_v2024_02_01(TransformationContext { data_sources: None });

    assert_eq!(data.loss.model, fx_request.model);

    assert_eq!(data.request.messages.len(), 2);

    let el0: &AzureChatCompletionMessage = &data.request.messages[0];
    let el1: &AzureChatCompletionMessage = &data.request.messages[1];

    match el0 {
        AzureChatCompletionMessage::UserMessage { content } => match content {
            AzureUserMessageContent::TextContent(v) => {
                assert_eq!(v, "hello");
            }
            _ => panic!("Expected a TextContent"),
        },
        _ => panic!("Expected a UserMessage"),
    }

    match el1 {
        AzureChatCompletionMessage::UserMessage { content } => match content {
            AzureUserMessageContent::ArrayContentParts(parts) => {
                assert_eq!(parts.len(), 2);

                match &parts[0] {
                    AzureUserMessageContentPart::TextContentPart { text } => {
                        assert_eq!(text, "part");
                    }
                    _ => panic!("Expected a TextContentPart"),
                }

                match &parts[1] {
                    AzureUserMessageContentPart::ImageContentPart { image_url } => {
                        assert_eq!(image_url, "http://example.com");
                    }
                    _ => panic!("Expected a ImageContentPart"),
                }
            }
            _ => panic!("Expected a ArrayContentParts"),
        },
        _ => panic!("Expected a UserMessage"),
    }
}
