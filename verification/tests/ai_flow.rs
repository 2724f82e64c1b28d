use wif::ai::client::{chat_step, ChatAction, ChatEvent, ChatStage, ClientSettings, Usage};
use wif::ai::{AiError, AiService};
use wif::domain::{AiProfile, AnalysisType, EgressPolicy, Priority, Source, WorkItem, WorkItemStatus};

fn profile() -> AiProfile {
    AiProfile {
        id: 1,
        name: "p".into(),
        provider: "openai".into(),
        api_key: "sk".into(),
        model: "gpt-4o".into(),
        base_url: "https://api.example.com//".into(),
        is_default: true,
        max_tokens: Some(512),
        temperature: None,
    }
}

fn item() -> WorkItem {
    WorkItem {
        id: 2,
        title: "Fix roof".into(),
        content: None,
        status: WorkItemStatus::New,
        priority: Priority::High,
        source: Source::Email,
        tags: vec![],
        created_at: 0,
        updated_at: 0,
        parent_id: None,
        latitude: None,
        longitude: None,
        gis_feature_id: None,
    }
}

fn open_policy(max_tokens: u32) -> EgressPolicy {
    EgressPolicy { sensitivity_level: 0, max_tokens, blocked_content_types: vec![] }
}

#[test]
fn settings_trim_trailing_slashes() {
    let s = ClientSettings::from_profile(&profile());
    assert_eq!(s.base_url, "https://api.example.com");
    assert_eq!(s.completions_url(), "https://api.example.com/v1/chat/completions");
    assert_eq!(s.max_tokens, Some(512));
}

#[test]
fn analysis_without_provider_is_refused() {
    let svc = AiService::new(None, open_policy(32_000));
    assert!(svc.client_settings().is_none());
    assert!(matches!(svc.prepare(&item(), AnalysisType::Summary), Err(AiError::NoProvider)));
}

#[test]
fn analysis_messages_hold_the_rendered_prompt() {
    let p = profile();
    let svc = AiService::new(Some(&p), open_policy(32_000));
    let msgs = svc.prepare(&item(), AnalysisType::Summary).unwrap();
    assert_eq!(msgs.len(), 2);
    assert_eq!(msgs[0].role, "system");
    assert_eq!(msgs[0].content, "你是一个专业的工作项分析助手。请对以下工作项进行摘要分析。");
    assert_eq!(msgs[1].role, "user");
    assert_eq!(
        msgs[1].content,
        "标题: Fix roof\n内容: \n来源: Email\n\n请提供简洁的摘要。"
    );
}

#[test]
fn analysis_over_budget_is_refused() {
    let p = profile();
    let svc = AiService::new(Some(&p), open_policy(3));
    assert!(matches!(
        svc.prepare(&item(), AnalysisType::Summary),
        Err(AiError::TokenBudgetExceeded { max: 3, .. })
    ));
}

#[test]
fn analysis_of_blocked_text_is_refused() {
    let p = profile();
    let policy = EgressPolicy {
        sensitivity_level: 2,
        max_tokens: 32_000,
        blocked_content_types: vec!["text/plain".into()],
    };
    let svc = AiService::new(Some(&p), policy);
    assert!(matches!(svc.prepare(&item(), AnalysisType::Classification), Err(AiError::EgressBlocked(_))));
}

#[test]
fn chat_exchange_success_takes_first_choice() {
    let (stage, action) = chat_step(ChatStage::AwaitingStatus, ChatEvent::Status { success: true, status: "200 OK".into() });
    assert!(matches!(stage, ChatStage::Decoding));
    assert!(matches!(action, ChatAction::DecodeBody));
    let usage = Usage { prompt_tokens: 3, completion_tokens: 4, total_tokens: 7 };
    let (stage, action) = chat_step(
        stage,
        ChatEvent::Decoded { contents: vec!["first".into(), "second".into()], usage: Some(usage) },
    );
    assert!(matches!(stage, ChatStage::Finished));
    match action {
        ChatAction::Finish(Ok(resp)) => {
            assert_eq!(resp.content, "first");
            assert_eq!(resp.usage.unwrap().total_tokens, 7);
        }
        _ => panic!("expected a reply"),
    }
}

#[test]
fn chat_exchange_without_choices_replies_nothing() {
    let (_, action) = chat_step(ChatStage::Decoding, ChatEvent::Decoded { contents: vec![], usage: None });
    match action {
        ChatAction::Finish(Ok(resp)) => {
            assert_eq!(resp.content, "");
            assert!(resp.usage.is_none());
        }
        _ => panic!("expected a reply"),
    }
}

#[test]
fn chat_exchange_refused_status_reports_body() {
    let (stage, action) = chat_step(
        ChatStage::AwaitingStatus,
        ChatEvent::Status { success: false, status: "404 Not Found".into() },
    );
    assert!(matches!(action, ChatAction::ReadErrorBody));
    let (_, action) = chat_step(stage, ChatEvent::ErrorBody("no such model".into()));
    match action {
        ChatAction::Finish(Err(AiError::RequestFailed(m))) => assert_eq!(m, "HTTP 404 Not Found: no such model"),
        _ => panic!("expected a failure"),
    }
}

#[test]
fn chat_exchange_failures() {
    match chat_step(ChatStage::AwaitingStatus, ChatEvent::SendFailed("timeout".into())).1 {
        ChatAction::Finish(Err(AiError::RequestFailed(m))) => assert_eq!(m, "timeout"),
        _ => panic!("expected a failure"),
    }
    match chat_step(ChatStage::Decoding, ChatEvent::DecodeFailed("eof".into())).1 {
        ChatAction::Finish(Err(AiError::RequestFailed(m))) => assert_eq!(m, "Failed to parse response: eof"),
        _ => panic!("expected a failure"),
    }
}
