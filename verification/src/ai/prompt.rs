//! Prompt templates and `{{variable}}` substitution.

use std::collections::HashMap;

use vstd::prelude::*;

use crate::domain::enums::AnalysisType;
use crate::text::{chars_of, string_from_chars};

verus! {

broadcast use vstd::string::group_string_axioms;

/// A prompt template with separate system and user prompts.
#[derive(Debug, Clone)]
pub struct PromptTemplate {
    pub system_prompt: String,
    pub user_prompt: String,
}

/// `s` with every occurrence of `pat` replaced by `rep`, scanning from the left
/// and never letting two replaced occurrences overlap.
pub open spec fn replace_all(s: Seq<char>, pat: Seq<char>, rep: Seq<char>) -> Seq<char>
    decreases s.len(),
{
    if pat.len() == 0 || s.len() < pat.len() {
        s
    } else if s.take(pat.len() as int) == pat {
        rep + replace_all(s.skip(pat.len() as int), pat, rep)
    } else {
        seq![s[0]] + replace_all(s.skip(1), pat, rep)
    }
}

/// Whether `pat` occurs in `s` starting at position `i`.
pub open spec fn occurs_at(s: Seq<char>, pat: Seq<char>, i: int) -> bool {
    0 <= i && i + pat.len() <= s.len() && s.subrange(i, i + pat.len()) == pat
}

/// Whether `pat` occurs anywhere in `s`.
pub open spec fn occurs_in(s: Seq<char>, pat: Seq<char>) -> bool {
    exists|i: int| occurs_at(s, pat, i)
}

/// The placeholder written in a template for the variable `key`.
pub open spec fn placeholder(key: Seq<char>) -> Seq<char> {
    "{{"@ + key + "}}"@
}

/// The template after substituting each variable of `vars` in turn, first to last.
pub open spec fn render_seq(template: Seq<char>, vars: Seq<(Seq<char>, Seq<char>)>) -> Seq<char>
    decreases vars.len(),
{
    if vars.len() == 0 {
        template
    } else {
        replace_all(
            render_seq(template, vars.drop_last()),
            placeholder(vars.last().0),
            vars.last().1,
        )
    }
}

/// The character views of a list of variable bindings.
pub open spec fn binding_views(vars: Seq<(String, String)>) -> Seq<(Seq<char>, Seq<char>)> {
    vars.map_values(|b: (String, String)| (b.0@, b.1@))
}

/// Whether `es` lists every binding of `m` exactly once, in some order.
pub open spec fn lists_bindings(es: Seq<(String, String)>, m: Map<String, String>) -> bool {
    &&& forall|i: int| 0 <= i < es.len() ==> #[trigger] m.contains_key(es[i].0) && m[es[i].0] == es[i].1
    &&& forall|k: String| #[trigger] m.contains_key(k) ==> exists|i: int| 0 <= i < es.len() && #[trigger] es[i].0 == k
    &&& forall|i: int, j: int| 0 <= i < j < es.len() ==> #[trigger] es[i].0@ != #[trigger] es[j].0@
}

/// Whether `out` is what rendering `template` with the bindings of `m` gives
/// for one of the orders in which those bindings can be visited.
pub open spec fn is_rendering(template: Seq<char>, m: Map<String, String>, out: Seq<char>) -> bool {
    exists|es: Seq<(String, String)>| #[trigger] lists_bindings(es, m) && out == render_seq(template, binding_views(es))
}

/// `HashMap::iter`: the bindings of `vars`, each once, in the map's own order.
#[verifier::external_body]
fn bindings_of(vars: &HashMap<String, String>) -> (r: Vec<(String, String)>)
    ensures
        lists_bindings(r@, vars@),
{
    vars.iter().map(|(k, v)| (k.clone(), v.clone())).collect()
}

/// Whether `pat` occurs in `s` at position `i`.
fn matches_at(s: &Vec<char>, i: usize, pat: &Vec<char>) -> (r: bool)
    requires
        i <= s.len(),
    ensures
        r == occurs_at(s@, pat@, i as int),
{
    if pat.len() > s.len() - i {
        return false;
    }
    for j in 0..pat.len()
        invariant
            i + pat.len() <= s.len(),
            forall|k: int| 0 <= k < j ==> s@[i + k] == pat@[k],
    {
        if s[i + j] != pat[j] {
            return false;
        }
    }
    assert(s@.subrange(i as int, i + pat.len()) =~= pat@);
    true
}

/// Unfolds [`replace_all`] on a suffix of `s`.
proof fn lemma_replace_all_step(s: Seq<char>, pat: Seq<char>, rep: Seq<char>, i: int)
    requires
        pat.len() > 0,
        0 <= i < s.len(),
        i + pat.len() <= s.len(),
    ensures
        occurs_at(s, pat, i) ==> replace_all(s.skip(i), pat, rep) == rep + replace_all(
            s.skip(i + pat.len()),
            pat,
            rep,
        ),
        !occurs_at(s, pat, i) ==> replace_all(s.skip(i), pat, rep) == seq![s[i]] + replace_all(
            s.skip(i + 1),
            pat,
            rep,
        ),
{
    assert(s.skip(i).take(pat.len() as int) =~= s.subrange(i, i + pat.len()));
    assert(s.skip(i).skip(pat.len() as int) =~= s.skip(i + pat.len()));
    assert(s.skip(i).skip(1) =~= s.skip(i + 1));
}

/// Replaces every occurrence of `pat` in `s` by `rep`, from the left.
fn replace_chars(s: &Vec<char>, pat: &Vec<char>, rep: &Vec<char>) -> (r: Vec<char>)
    requires
        pat.len() > 0,
    ensures
        r@ == replace_all(s@, pat@, rep@),
{
    let mut out: Vec<char> = Vec::new();
    let mut i: usize = 0;
    assert(s@.skip(0) =~= s@);
    assert(out@ + replace_all(s@, pat@, rep@) =~= replace_all(s@, pat@, rep@));
    while i < s.len()
        invariant
            pat.len() > 0,
            i <= s.len(),
            out@ + replace_all(s@.skip(i as int), pat@, rep@) == replace_all(s@, pat@, rep@),
        decreases s.len() - i,
    {
        if pat.len() <= s.len() - i && matches_at(s, i, pat) {
            proof {
                lemma_replace_all_step(s@, pat@, rep@, i as int);
            }
            let ghost before = out@;
            for k in 0..rep.len()
                invariant
                    out@ == before + rep@.take(k as int),
            {
                out.push(rep[k]);
                assert(rep@.take(k + 1) =~= rep@.take(k as int).push(rep@[k as int]));
            }
            assert(rep@.take(rep.len() as int) =~= rep@);
            assert(before + (rep@ + replace_all(s@.skip(i + pat.len()), pat@, rep@)) =~= before
                + rep@ + replace_all(s@.skip(i + pat.len()), pat@, rep@));
            i = i + pat.len();
        } else {
            proof {
                if pat.len() <= s.len() - i {
                    lemma_replace_all_step(s@, pat@, rep@, i as int);
                } else {
                    assert(s@.skip(i as int).len() < pat@.len());
                    assert(s@.skip(i as int) =~= seq![s@[i as int]] + s@.skip(i + 1));
                    lemma_replace_all_short(s@.skip(i + 1), pat@, rep@);
                }
            }
            let ghost before = out@;
            out.push(s[i]);
            assert(before + (seq![s@[i as int]] + replace_all(s@.skip(i + 1), pat@, rep@)) =~= before.push(
                s@[i as int],
            ) + replace_all(s@.skip(i + 1), pat@, rep@));
            i = i + 1;
        }
    }
    assert(s@.skip(i as int) =~= Seq::<char>::empty());
    assert(out@ + Seq::<char>::empty() =~= out@);
    out
}

/// A text in which the pattern does not occur is left as it is.
pub proof fn lemma_replace_all_absent(s: Seq<char>, pat: Seq<char>, rep: Seq<char>)
    requires
        !occurs_in(s, pat),
    ensures
        replace_all(s, pat, rep) == s,
    decreases s.len(),
{
    if pat.len() == 0 || s.len() < pat.len() {
    } else {
        assert(!occurs_at(s, pat, 0));
        assert(s.subrange(0, pat.len() as int) =~= s.take(pat.len() as int));
        assert forall|i: int| !occurs_at(s.skip(1), pat, i) by {
            if occurs_at(s.skip(1), pat, i) {
                assert(s.skip(1).subrange(i, i + pat.len()) =~= s.subrange(i + 1, i + 1 + pat.len()));
                assert(occurs_at(s, pat, i + 1));
            }
        }
        lemma_replace_all_absent(s.skip(1), pat, rep);
        assert(seq![s[0]] + s.skip(1) =~= s);
    }
}

/// Rendering leaves a template unchanged when none of the variables' placeholders
/// occurs in it.
pub proof fn lemma_render_seq_without_placeholders(
    template: Seq<char>,
    vars: Seq<(Seq<char>, Seq<char>)>,
)
    requires
        forall|i: int| 0 <= i < vars.len() ==> !occurs_in(template, #[trigger] placeholder(vars[i].0)),
    ensures
        render_seq(template, vars) == template,
    decreases vars.len(),
{
    if vars.len() > 0 {
        assert forall|i: int| 0 <= i < vars.drop_last().len() implies !occurs_in(
            template,
            #[trigger] placeholder(vars.drop_last()[i].0),
        ) by {
            assert(vars.drop_last()[i] == vars[i]);
        }
        lemma_render_seq_without_placeholders(template, vars.drop_last());
        assert(placeholder(vars.last().0) == placeholder(vars[vars.len() - 1].0));
        lemma_replace_all_absent(template, placeholder(vars.last().0), vars.last().1);
    }
}

/// Placeholders whose variable is unknown are left unchanged: when no placeholder
/// of a variable of `vars` occurs in `template`, every rendering of `template`
/// with `vars`, whatever order the variables are visited in, is `template` itself.
pub proof fn lemma_render_unknown_placeholders_intact(
    template: Seq<char>,
    vars: Map<String, String>,
    out: Seq<char>,
)
    requires
        forall|k: String| #[trigger] vars.contains_key(k) ==> !occurs_in(template, placeholder(k@)),
        is_rendering(template, vars, out),
    ensures
        out == template,
{
    let es = choose|es: Seq<(String, String)>| #[trigger] lists_bindings(es, vars) && out == render_seq(
        template,
        binding_views(es),
    );
    let bv = binding_views(es);
    assert forall|i: int| 0 <= i < bv.len() implies !occurs_in(template, #[trigger] placeholder(bv[i].0)) by {
        assert(vars.contains_key(es[i].0));
    }
    lemma_render_seq_without_placeholders(template, bv);
}

/// The characters of the placeholder for `key`.
fn placeholder_chars(key: &str) -> (r: Vec<char>)
    ensures
        r@ == placeholder(key@),
        r@.len() > 0,
{
    proof {
        reveal_strlit("{{");
    }
    let mut s = String::from_str("{{");
    s.append(key);
    s.append("}}");
    chars_of(s.as_str())
}

/// Replace all `{{key}}` placeholders in `template` with the values bound in
/// `vars`, taking the bindings in the order of the list.
///
/// Unknown placeholders are left unchanged.
pub fn render_bindings(template: &str, vars: &Vec<(String, String)>) -> (r: String)
    ensures
        r@ == render_seq(template@, binding_views(vars@)),
{
    let mut cur = chars_of(template);
    for i in 0..vars.len()
        invariant
            cur@ == render_seq(template@, binding_views(vars@).take(i as int)),
    {
        let pat = placeholder_chars(vars[i].0.as_str());
        let rep = chars_of(vars[i].1.as_str());
        cur = replace_chars(&cur, &pat, &rep);
        assert(binding_views(vars@).take(i + 1).drop_last() =~= binding_views(vars@).take(i as int));
    }
    assert(binding_views(vars@).take(vars.len() as int) =~= binding_views(vars@));
    string_from_chars(&cur)
}

/// Replace all `{{key}}` placeholders in `template` with values from `vars`.
///
/// Unknown placeholders are left unchanged. The bindings are taken in the
/// map's own order.
pub fn render(template: &str, vars: &HashMap<String, String>) -> (r: String)
    ensures
        is_rendering(template@, vars@, r@),
{
    let bindings = bindings_of(vars);
    let r = render_bindings(template, &bindings);
    assert(lists_bindings(bindings@, vars@));
    r
}

/// The first lines of every user prompt: the work item's title, content and source.
pub open spec fn prompt_header() -> Seq<char> {
    "标题: {{title}}\n内容: {{content}}\n来源: {{source}}\n\n"@
}

/// The system prompt for an analysis type.
pub open spec fn system_prompt_text(a: AnalysisType) -> Seq<char> {
    match a {
        AnalysisType::Summary => "你是一个专业的工作项分析助手。请对以下工作项进行摘要分析。"@,
        AnalysisType::ActionExtraction => "你是一个专业的行动项提取助手。请从以下工作项中提取可执行的行动项。"@,
        AnalysisType::Classification => "你是一个工作项分类助手。请对以下工作项进行分类。"@,
        AnalysisType::PrioritySuggestion => "你是一个优先级建议助手。请评估以下工作项的优先级。"@,
    }
}

/// The closing request of the user prompt for an analysis type.
pub open spec fn request_text(a: AnalysisType) -> Seq<char> {
    match a {
        AnalysisType::Summary => "请提供简洁的摘要。"@,
        AnalysisType::ActionExtraction => "请列出所有可执行的行动项。"@,
        AnalysisType::Classification => "请提供分类结果。"@,
        AnalysisType::PrioritySuggestion => "请提供优先级建议。"@,
    }
}

/// The user prompt for an analysis type.
pub open spec fn user_prompt_text(a: AnalysisType) -> Seq<char> {
    prompt_header() + request_text(a)
}

/// Return the built-in prompt template for the given analysis type.
pub fn load_template(analysis_type: &AnalysisType) -> (r: PromptTemplate)
    ensures
        r.system_prompt@ == system_prompt_text(*analysis_type),
        r.user_prompt@ == user_prompt_text(*analysis_type),
{
    let (system, request) = match analysis_type {
        AnalysisType::Summary => (
            "你是一个专业的工作项分析助手。请对以下工作项进行摘要分析。",
            "请提供简洁的摘要。",
        ),
        AnalysisType::ActionExtraction => (
            "你是一个专业的行动项提取助手。请从以下工作项中提取可执行的行动项。",
            "请列出所有可执行的行动项。",
        ),
        AnalysisType::Classification => (
            "你是一个工作项分类助手。请对以下工作项进行分类。",
            "请提供分类结果。",
        ),
        AnalysisType::PrioritySuggestion => (
            "你是一个优先级建议助手。请评估以下工作项的优先级。",
            "请提供优先级建议。",
        ),
    };
    let mut user = String::from_str("标题: {{title}}\n内容: {{content}}\n来源: {{source}}\n\n");
    user.append(request);
    PromptTemplate { system_prompt: String::from_str(system), user_prompt: user }
}

/// Every built-in user prompt asks for the work item's title, content and source:
/// the placeholders `{{title}}`, `{{content}}` and `{{source}}` occur in it, and
/// every system prompt is non-empty.
pub proof fn lemma_templates_name_their_variables(a: AnalysisType)
    ensures
        occurs_in(user_prompt_text(a), placeholder("title"@)),
        occurs_in(user_prompt_text(a), placeholder("content"@)),
        occurs_in(user_prompt_text(a), placeholder("source"@)),
        system_prompt_text(a).len() > 0,
{
    reveal_strlit("标题: {{title}}\n内容: {{content}}\n来源: {{source}}\n\n");
    reveal_strlit("{{");
    reveal_strlit("}}");
    reveal_strlit("title");
    reveal_strlit("content");
    reveal_strlit("source");
    reveal_strlit("你是一个专业的工作项分析助手。请对以下工作项进行摘要分析。");
    reveal_strlit("你是一个专业的行动项提取助手。请从以下工作项中提取可执行的行动项。");
    reveal_strlit("你是一个工作项分类助手。请对以下工作项进行分类。");
    reveal_strlit("你是一个优先级建议助手。请评估以下工作项的优先级。");
    let u = user_prompt_text(a);
    assert(u.subrange(4, 13) =~= placeholder("title"@));
    assert(occurs_at(u, placeholder("title"@), 4));
    assert(u.subrange(18, 29) =~= placeholder("content"@));
    assert(occurs_at(u, placeholder("content"@), 18));
    assert(u.subrange(34, 44) =~= placeholder("source"@));
    assert(occurs_at(u, placeholder("source"@), 34));
}

/// A text shorter than the pattern is left as it is.
proof fn lemma_replace_all_short(s: Seq<char>, pat: Seq<char>, rep: Seq<char>)
    requires
        s.len() < pat.len(),
    ensures
        replace_all(s, pat, rep) == s,
{
}

/// Replacement works from the left: a text that opens with the pattern opens
/// with the replacement, followed by the rest replaced; a text that opens with
/// a character other than the pattern's first keeps that character.
pub proof fn lemma_replace_all_from_the_left(pat: Seq<char>, rep: Seq<char>, y: Seq<char>, c: char)
    requires
        pat.len() > 0,
    ensures
        replace_all(pat + y, pat, rep) == rep + replace_all(y, pat, rep),
        c != pat[0] ==> replace_all(seq![c] + y, pat, rep) == seq![c] + replace_all(y, pat, rep),
{
    assert((pat + y).take(pat.len() as int) =~= pat);
    assert((pat + y).skip(pat.len() as int) =~= y);
    let s = seq![c] + y;
    assert(s.skip(1) =~= y);
    if c != pat[0] && s.len() >= pat.len() {
        assert(s.take(pat.len() as int)[0] != pat[0]);
    }
    if s.len() < pat.len() {
        lemma_replace_all_short(y, pat, rep);
    }
}

/// The placeholder of a variable is its name between two opening and two
/// closing braces.
pub proof fn lemma_placeholder_form(key: Seq<char>)
    ensures
        placeholder(key) == seq!['{', '{'] + key + seq!['}', '}'],
{
    reveal_strlit("{{");
    reveal_strlit("}}");
    assert("{{"@ =~= seq!['{', '{']);
    assert("}}"@ =~= seq!['}', '}']);
}

} // verus!
