use std::collections::HashMap;

use wif::ai::prompt::{load_template, render, render_bindings};
use wif::domain::AnalysisType;

#[test]
fn render_replaces_known_placeholders() {
    let mut vars = HashMap::new();
    vars.insert("title".to_string(), "Test".to_string());
    vars.insert("content".to_string(), "Body".to_string());
    vars.insert("source".to_string(), "Email".to_string());

    let result = render("标题: {{title}}\n内容: {{content}}\n来源: {{source}}", &vars);
    assert_eq!(result, "标题: Test\n内容: Body\n来源: Email");
}

#[test]
fn render_leaves_unknown_placeholders_intact() {
    let vars = HashMap::new();
    let result = render("{{unknown}}", &vars);
    assert_eq!(result, "{{unknown}}");
}

#[test]
fn load_template_summary_has_content() {
    let tmpl = load_template(&AnalysisType::Summary);
    assert!(!tmpl.system_prompt.is_empty());
    assert!(tmpl.user_prompt.contains("{{title}}"));
}

#[test]
fn every_template_names_its_variables() {
    for a in [
        AnalysisType::Summary,
        AnalysisType::ActionExtraction,
        AnalysisType::Classification,
        AnalysisType::PrioritySuggestion,
    ] {
        let t = load_template(&a);
        assert!(!t.system_prompt.is_empty());
        assert!(t.user_prompt.contains("{{title}}"));
        assert!(t.user_prompt.contains("{{content}}"));
        assert!(t.user_prompt.contains("{{source}}"));
    }
}

#[test]
fn classification_template_text() {
    let t = load_template(&AnalysisType::Classification);
    assert_eq!(t.system_prompt, "你是一个工作项分类助手。请对以下工作项进行分类。");
    assert_eq!(
        t.user_prompt,
        "标题: {{title}}\n内容: {{content}}\n来源: {{source}}\n\n请提供分类结果。"
    );
}

#[test]
fn render_replaces_every_occurrence() {
    let vars = vec![("x".to_string(), "1".to_string())];
    assert_eq!(render_bindings("{{x}}+{{x}}={{y}}", &vars), "1+1={{y}}");
}

#[test]
fn render_bindings_in_list_order() {
    // the first substitution introduces a placeholder that the second fills
    let vars = vec![
        ("a".to_string(), "{{b}}".to_string()),
        ("b".to_string(), "done".to_string()),
    ];
    assert_eq!(render_bindings("[{{a}}]", &vars), "[done]");
    let reversed = vec![
        ("b".to_string(), "done".to_string()),
        ("a".to_string(), "{{b}}".to_string()),
    ];
    assert_eq!(render_bindings("[{{a}}]", &reversed), "[{{b}}]");
}

#[test]
fn render_scans_left_to_right_without_overlap() {
    let vars = vec![("a".to_string(), "".to_string())];
    assert_eq!(render_bindings("{{{{a}}}}", &vars), "{{}}");
}

#[test]
fn render_without_variables_is_identity() {
    let vars: Vec<(String, String)> = vec![];
    assert_eq!(render_bindings("{{title}} stays", &vars), "{{title}} stays");
}
