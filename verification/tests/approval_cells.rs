use codex_tui::approvals::{
    approval_decision_cell_with_snippet, new_approval_decision_cell, new_guardian_approved_action_request,
    new_guardian_denied_action_request, new_guardian_denied_patch_request,
    new_guardian_timed_out_action_request, new_guardian_timed_out_patch_request,
    new_review_status_line, ApprovalDecisionActor, ApprovalDecisionSubject, ExecPolicyAmendment,
    NetworkPolicyAmendment, NetworkPolicyRuleAction, ReviewDecision,
};
use codex_tui::styled::{PrefixedWrappedHistoryCell, SpanStyle, StyledSpan};

fn s(text: &str, style: SpanStyle) -> StyledSpan {
    StyledSpan { text: text.to_string(), style }
}

fn p(text: &str) -> StyledSpan {
    s(text, SpanStyle::Plain)
}

fn b(text: &str) -> StyledSpan {
    s(text, SpanStyle::Bold)
}

fn d(text: &str) -> StyledSpan {
    s(text, SpanStyle::Dim)
}

fn check() -> StyledSpan {
    s("✔ ", SpanStyle::Green)
}

fn cross() -> StyledSpan {
    s("✗ ", SpanStyle::Red)
}

fn cell(line: Vec<StyledSpan>, symbol: StyledSpan) -> PrefixedWrappedHistoryCell {
    PrefixedWrappedHistoryCell { line, initial_prefix: symbol, subsequent_prefix: "  ".to_string() }
}

fn command(ws: &[&str]) -> ApprovalDecisionSubject {
    ApprovalDecisionSubject::Command(ws.iter().map(|w| w.to_string()).collect())
}

fn network(target: &str) -> ApprovalDecisionSubject {
    ApprovalDecisionSubject::NetworkAccess { target: target.to_string() }
}

#[test]
fn actor_subjects() {
    assert_eq!(ApprovalDecisionActor::User.subject(), "你");
    assert_eq!(ApprovalDecisionActor::Guardian.subject(), "自动审查器");
}

#[test]
fn approved_command_shows_snippet() {
    let c = new_approval_decision_cell(
        command(&["bash", "-lc", "cargo test"]),
        ReviewDecision::Approved,
        ApprovalDecisionActor::User,
    );
    assert_eq!(c, cell(vec![p("你"), b("已批准"), p(" Codex 本次运行 "), d("cargo test")], check()));
}

#[test]
fn approved_empty_command_names_the_request() {
    let c = new_approval_decision_cell(command(&[]), ReviewDecision::Approved, ApprovalDecisionActor::User);
    assert_eq!(c, cell(vec![p("你"), b("已批准"), p("本次请求")], check()));
}

#[test]
fn approved_network_access() {
    let c = new_approval_decision_cell(
        network("example.com"),
        ReviewDecision::Approved,
        ApprovalDecisionActor::Guardian,
    );
    assert_eq!(
        c,
        cell(vec![p("自动审查器"), b("已批准"), p(" Codex 本次访问网络目标 "), d("example.com")], check())
    );
}

#[test]
fn approved_for_session() {
    let c = new_approval_decision_cell(
        command(&["git", "status"]),
        ReviewDecision::ApprovedForSession,
        ApprovalDecisionActor::User,
    );
    assert_eq!(c, cell(vec![p("你"), b("已批准"), p(" Codex 在本会话中每次运行 "), d("git status")], check()));
    let c = new_approval_decision_cell(command(&[]), ReviewDecision::ApprovedForSession, ApprovalDecisionActor::User);
    assert_eq!(c, cell(vec![p("你"), b("已批准"), p("本会话中的每次此类请求")], check()));
    let c = new_approval_decision_cell(network("h"), ReviewDecision::ApprovedForSession, ApprovalDecisionActor::User);
    assert_eq!(c, cell(vec![p("你"), b("已批准"), p(" Codex 在本会话中每次访问网络目标 "), d("h")], check()));
}

#[test]
fn execpolicy_amendment_shows_the_rule_prefix() {
    let decision = ReviewDecision::ApprovedExecpolicyAmendment {
        proposed_execpolicy_amendment: ExecPolicyAmendment {
            command: vec!["npm".to_string(), "run".to_string()],
        },
    };
    let c = new_approval_decision_cell(command(&["npm", "run", "build"]), decision, ApprovalDecisionActor::User);
    assert_eq!(
        c,
        cell(vec![p("你"), b("已批准"), p(" Codex 始终运行以下内容开头的命令："), d("npm run")], check())
    );
}

#[test]
fn network_rule_amendments() {
    let allow = ReviewDecision::NetworkPolicyAmendment {
        network_policy_amendment: NetworkPolicyAmendment {
            host: "rule.example".to_string(),
            action: NetworkPolicyRuleAction::Allow,
        },
    };
    let c = new_approval_decision_cell(network("target.example"), allow.clone(), ApprovalDecisionActor::User);
    assert_eq!(
        c,
        cell(vec![p("你"), b("已保存"), p(" Codex 对以下网络目标的访问规则："), d("target.example")], check())
    );
    // A command request falls back to the rule's host.
    let c = new_approval_decision_cell(command(&["curl", "x"]), allow, ApprovalDecisionActor::User);
    assert_eq!(
        c,
        cell(vec![p("你"), b("已保存"), p(" Codex 对以下网络目标的访问规则："), d("rule.example")], check())
    );
    let deny = ReviewDecision::NetworkPolicyAmendment {
        network_policy_amendment: NetworkPolicyAmendment {
            host: "bad.example".to_string(),
            action: NetworkPolicyRuleAction::Deny,
        },
    };
    let c = new_approval_decision_cell(command(&["curl"]), deny, ApprovalDecisionActor::User);
    assert_eq!(
        c,
        cell(
            vec![p("你"), b("已拒绝"), p(" Codex 访问网络目标 "), d("bad.example"), p("，并已保存该规则")],
            cross()
        )
    );
}

#[test]
fn denied_by_user_and_by_guardian() {
    let c = new_approval_decision_cell(command(&["rm", "-rf", "x"]), ReviewDecision::Denied, ApprovalDecisionActor::User);
    assert_eq!(c, cell(vec![p("你"), b("未批准"), p(" Codex 运行 "), d("rm -rf x")], cross()));
    let c = new_approval_decision_cell(
        command(&["rm", "-rf", "x"]),
        ReviewDecision::Denied,
        ApprovalDecisionActor::Guardian,
    );
    assert_eq!(c, cell(vec![p("请求"), b("已被拒绝"), p("：Codex 运行 "), d("rm -rf x")], cross()));
    let c = new_approval_decision_cell(command(&[]), ReviewDecision::Denied, ApprovalDecisionActor::User);
    assert_eq!(c, cell(vec![p("你"), b("未批准"), p("此请求")], cross()));
    let c = new_approval_decision_cell(command(&[]), ReviewDecision::Denied, ApprovalDecisionActor::Guardian);
    assert_eq!(c, cell(vec![p("请求"), b("已被拒绝")], cross()));
    let c = new_approval_decision_cell(network("n"), ReviewDecision::Denied, ApprovalDecisionActor::Guardian);
    assert_eq!(c, cell(vec![p("自动审查器"), b("未批准"), p(" Codex 访问网络目标 "), d("n")], cross()));
}

#[test]
fn timed_out_reviews() {
    let c = new_approval_decision_cell(command(&["make"]), ReviewDecision::TimedOut, ApprovalDecisionActor::User);
    assert_eq!(c, cell(vec![p("审查"), b("已超时"), p("，Codex 未能运行 "), d("make")], cross()));
    let c = new_approval_decision_cell(command(&[]), ReviewDecision::TimedOut, ApprovalDecisionActor::Guardian);
    assert_eq!(c, cell(vec![p("审查"), b("已超时"), p("，此请求未获批准")], cross()));
    let c = new_approval_decision_cell(network("n"), ReviewDecision::TimedOut, ApprovalDecisionActor::User);
    assert_eq!(c, cell(vec![p("审查"), b("已超时"), p("，Codex 未能访问 "), d("n")], cross()));
}

#[test]
fn aborted_requests() {
    let c = new_approval_decision_cell(command(&["make"]), ReviewDecision::Abort, ApprovalDecisionActor::User);
    assert_eq!(c, cell(vec![p("你"), b("已取消"), p("运行以下命令的请求："), d("make")], cross()));
    let c = new_approval_decision_cell(command(&[]), ReviewDecision::Abort, ApprovalDecisionActor::User);
    assert_eq!(c, cell(vec![p("你"), b("已取消"), p("此请求")], cross()));
    let c = new_approval_decision_cell(network("n"), ReviewDecision::Abort, ApprovalDecisionActor::User);
    assert_eq!(c, cell(vec![p("你"), b("已取消"), p(" Codex 访问以下网络目标的请求："), d("n")], cross()));
}

#[test]
fn multi_line_command_shows_first_line_only() {
    let c = new_approval_decision_cell(
        command(&["bash", "-lc", "echo a\necho b"]),
        ReviewDecision::Approved,
        ApprovalDecisionActor::User,
    );
    assert_eq!(c.line[3], d("echo a ..."));
}

#[test]
fn cell_from_given_snippet() {
    let c = approval_decision_cell_with_snippet(
        command(&["anything"]),
        ReviewDecision::Abort,
        ApprovalDecisionActor::Guardian,
        "given".to_string(),
    );
    assert_eq!(c, cell(vec![p("自动审查器"), b("已取消"), p("运行以下命令的请求："), d("given")], cross()));
    let c = approval_decision_cell_with_snippet(
        command(&["anything"]),
        ReviewDecision::Abort,
        ApprovalDecisionActor::Guardian,
        String::new(),
    );
    assert_eq!(c, cell(vec![p("自动审查器"), b("已取消"), p("此请求")], cross()));
}

#[test]
fn guardian_patch_cells() {
    let c = new_guardian_denied_patch_request(vec!["src/main.rs".to_string()]);
    assert_eq!(
        c,
        cell(vec![p("请求"), b("已被拒绝"), p("：Codex 应用"), p("涉及以下文件的补丁："), d("src/main.rs")], cross())
    );
    let c = new_guardian_denied_patch_request(vec!["a".to_string(), "b".to_string()]);
    assert_eq!(
        c,
        cell(vec![p("请求"), b("已被拒绝"), p("：Codex 应用"), p("涉及 "), d("2"), p(" 个文件的补丁")], cross())
    );
    let c = new_guardian_timed_out_patch_request(vec![]);
    assert_eq!(
        c,
        cell(vec![p("审查"), b("已超时"), p("，Codex 未能应用"), p("涉及 "), d("0"), p(" 个文件的补丁")], cross())
    );
    let many: Vec<String> = (0..12).map(|i| format!("f{i}")).collect();
    let c = new_guardian_timed_out_patch_request(many);
    assert_eq!(c.line[4], d("12"));
}

#[test]
fn guardian_action_cells() {
    assert_eq!(
        new_guardian_denied_action_request("删除文件".to_string()),
        cell(vec![p("请求"), b("已被拒绝"), p("："), d("删除文件")], cross())
    );
    assert_eq!(
        new_guardian_approved_action_request("读取配置".to_string()),
        cell(vec![p("请求"), b("已获批准"), p("："), d("读取配置")], check())
    );
    assert_eq!(
        new_guardian_timed_out_action_request("x".to_string()),
        cell(vec![p("审查"), b("已超时"), p("，未能处理："), d("x")], cross())
    );
}

#[test]
fn review_status_line_is_cyan() {
    let c = new_review_status_line("正在审查".to_string());
    assert_eq!(c.lines, vec![vec![s("正在审查", SpanStyle::Cyan)]]);
}
