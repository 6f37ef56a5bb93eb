//! Approval, denial, and review-status transcript cells.

use vstd::prelude::*;

use crate::command::{
    command_display, has_nul, lemma_plain_join_single_line, plain_words, shell_quoted_join,
    shell_script_of, space_join,
    strip_bash_lc_and_escape,
};
use crate::styled::{
    bold, cyan, dim, green, line_view, plain, red, PlainHistoryCell, PrefixedCellView,
    PrefixedWrappedHistoryCell, SpanStyle, SpanView, StyledSpan,
};
use crate::text::{
    decimal, decimal_string, decimal_value, lemma_decimal_denotes, first_line_marked, first_line_marked_string, lemma_first_newline_exists, strings_view,
    truncate_text, truncated_text,
};

verus! {

// ---------------------------------------------------------------------------
// Types
// ---------------------------------------------------------------------------

/// A proposed rule that lets commands starting with `command` run without asking.
#[derive(Clone, Debug, PartialEq, Eq)]
pub struct ExecPolicyAmendment {
    pub command: Vec<String>,
}

/// Whether a saved network rule allows or denies its host.
#[derive(Clone, Copy, Debug, PartialEq, Eq, Structural)]
pub enum NetworkPolicyRuleAction {
    Allow,
    Deny,
}

/// A network rule saved for `host`.
#[derive(Clone, Debug, PartialEq, Eq)]
pub struct NetworkPolicyAmendment {
    pub host: String,
    pub action: NetworkPolicyRuleAction,
}

/// The outcome of an approval request.
#[derive(Clone, Debug, PartialEq, Eq)]
pub enum ReviewDecision {
    Approved,
    ApprovedExecpolicyAmendment { proposed_execpolicy_amendment: ExecPolicyAmendment },
    ApprovedForSession,
    NetworkPolicyAmendment { network_policy_amendment: NetworkPolicyAmendment },
    Denied,
    TimedOut,
    Abort,
}

/// What an approval request was about.
#[derive(Clone, Debug, PartialEq, Eq)]
pub enum ApprovalDecisionSubject {
    Command(Vec<String>),
    NetworkAccess { target: String },
}

/// Who decided an approval request.
#[derive(Clone, Copy, Debug, PartialEq, Eq, Structural)]
pub enum ApprovalDecisionActor {
    User,
    Guardian,
}

// ---------------------------------------------------------------------------
// Models
// ---------------------------------------------------------------------------

/// How a decider is named in a sentence.
pub open spec fn actor_subject(actor: ApprovalDecisionActor) -> Seq<char> {
    match actor {
        ApprovalDecisionActor::User => "你"@,
        ApprovalDecisionActor::Guardian => "自动审查器"@,
    }
}

/// The snippet of a full command text: its first line (marked with `" ..."`
/// when more lines follow) cut to 80 grapheme clusters.
pub open spec fn snippet_of_text(full_cmd: Seq<char>) -> Seq<char> {
    truncated_text(first_line_marked(full_cmd), 80)
}

/// The snippet of an argument vector.
pub open spec fn command_snippet(argv: Seq<Seq<char>>) -> Seq<char> {
    snippet_of_text(command_display(argv))
}

/// Whether a decision lets the request go ahead.
pub open spec fn decision_grants(decision: ReviewDecision) -> bool {
    match decision {
        ReviewDecision::Approved => true,
        ReviewDecision::ApprovedExecpolicyAmendment { .. } => true,
        ReviewDecision::ApprovedForSession => true,
        ReviewDecision::NetworkPolicyAmendment { network_policy_amendment } => {
            network_policy_amendment.action == NetworkPolicyRuleAction::Allow
        },
        _ => false,
    }
}

/// The green check mark.
pub open spec fn check_mark() -> SpanView {
    green("✔ "@)
}

/// The red cross.
pub open spec fn cross_mark() -> SpanView {
    red("✗ "@)
}

/// The mark that opens a decision cell.
pub open spec fn decision_symbol(decision: ReviewDecision) -> SpanView {
    match decision {
        ReviewDecision::Approved => check_mark(),
        ReviewDecision::ApprovedExecpolicyAmendment { .. } => check_mark(),
        ReviewDecision::ApprovedForSession => check_mark(),
        ReviewDecision::NetworkPolicyAmendment { network_policy_amendment } => {
            match network_policy_amendment.action {
                NetworkPolicyRuleAction::Allow => check_mark(),
                NetworkPolicyRuleAction::Deny => cross_mark(),
            }
        },
        ReviewDecision::Denied => cross_mark(),
        ReviewDecision::TimedOut => cross_mark(),
        ReviewDecision::Abort => cross_mark(),
    }
}

/// The sentence of a decision cell, given the command snippet that the
/// decision shows (empty when it shows none).
pub open spec fn decision_line(
    subject: ApprovalDecisionSubject,
    decision: ReviewDecision,
    actor: ApprovalDecisionActor,
    snippet: Seq<char>,
) -> Seq<SpanView> {
    let who = plain(actor_subject(actor));
    let has_snippet = snippet.len() > 0;
    match decision {
        ReviewDecision::Approved => match subject {
            ApprovalDecisionSubject::Command(_) => if has_snippet {
                seq![who, bold("已批准"@), plain(" Codex 本次运行 "@), dim(snippet)]
            } else {
                seq![who, bold("已批准"@), plain("本次请求"@)]
            },
            ApprovalDecisionSubject::NetworkAccess { target } => seq![
                who,
                bold("已批准"@),
                plain(" Codex 本次访问网络目标 "@),
                dim(target@),
            ],
        },
        ReviewDecision::ApprovedExecpolicyAmendment { .. } => seq![
            who,
            bold("已批准"@),
            plain(" Codex 始终运行以下内容开头的命令："@),
            dim(snippet),
        ],
        ReviewDecision::ApprovedForSession => match subject {
            ApprovalDecisionSubject::Command(_) => if has_snippet {
                seq![who, bold("已批准"@), plain(" Codex 在本会话中每次运行 "@), dim(snippet)]
            } else {
                seq![who, bold("已批准"@), plain("本会话中的每次此类请求"@)]
            },
            ApprovalDecisionSubject::NetworkAccess { target } => seq![
                who,
                bold("已批准"@),
                plain(" Codex 在本会话中每次访问网络目标 "@),
                dim(target@),
            ],
        },
        ReviewDecision::NetworkPolicyAmendment { network_policy_amendment } => {
            let target = match subject {
                ApprovalDecisionSubject::NetworkAccess { target } => target@,
                ApprovalDecisionSubject::Command(_) => network_policy_amendment.host@,
            };
            match network_policy_amendment.action {
                NetworkPolicyRuleAction::Allow => seq![
                    who,
                    bold("已保存"@),
                    plain(" Codex 对以下网络目标的访问规则："@),
                    dim(target),
                ],
                NetworkPolicyRuleAction::Deny => seq![
                    who,
                    bold("已拒绝"@),
                    plain(" Codex 访问网络目标 "@),
                    dim(target),
                    plain("，并已保存该规则"@),
                ],
            }
        },
        ReviewDecision::Denied => match subject {
            ApprovalDecisionSubject::Command(_) => if has_snippet {
                match actor {
                    ApprovalDecisionActor::User => seq![
                        who,
                        bold("未批准"@),
                        plain(" Codex 运行 "@),
                        dim(snippet),
                    ],
                    ApprovalDecisionActor::Guardian => seq![
                        plain("请求"@),
                        bold("已被拒绝"@),
                        plain("：Codex 运行 "@),
                        dim(snippet),
                    ],
                }
            } else {
                match actor {
                    ApprovalDecisionActor::User => seq![who, bold("未批准"@), plain("此请求"@)],
                    ApprovalDecisionActor::Guardian => seq![plain("请求"@), bold("已被拒绝"@)],
                }
            },
            ApprovalDecisionSubject::NetworkAccess { target } => seq![
                who,
                bold("未批准"@),
                plain(" Codex 访问网络目标 "@),
                dim(target@),
            ],
        },
        ReviewDecision::TimedOut => match subject {
            ApprovalDecisionSubject::Command(_) => if has_snippet {
                seq![plain("审查"@), bold("已超时"@), plain("，Codex 未能运行 "@), dim(snippet)]
            } else {
                seq![plain("审查"@), bold("已超时"@), plain("，此请求未获批准"@)]
            },
            ApprovalDecisionSubject::NetworkAccess { target } => seq![
                plain("审查"@),
                bold("已超时"@),
                plain("，Codex 未能访问 "@),
                dim(target@),
            ],
        },
        ReviewDecision::Abort => match subject {
            ApprovalDecisionSubject::Command(_) => if has_snippet {
                seq![who, bold("已取消"@), plain("运行以下命令的请求："@), dim(snippet)]
            } else {
                seq![who, bold("已取消"@), plain("此请求"@)]
            },
            ApprovalDecisionSubject::NetworkAccess { target } => seq![
                who,
                bold("已取消"@),
                plain(" Codex 访问以下网络目标的请求："@),
                dim(target@),
            ],
        },
    }
}

/// A decision cell, given the snippet it shows.
pub open spec fn decision_cell(
    subject: ApprovalDecisionSubject,
    decision: ReviewDecision,
    actor: ApprovalDecisionActor,
    snippet: Seq<char>,
) -> PrefixedCellView {
    PrefixedCellView {
        line: decision_line(subject, decision, actor, snippet),
        initial_prefix: decision_symbol(decision),
        subsequent_prefix: "  "@,
    }
}

/// The command whose snippet a decision shows: the proposed rule's command
/// for an amendment, the request's command for a command request, none otherwise.
pub open spec fn shown_command(subject: ApprovalDecisionSubject, decision: ReviewDecision) -> Option<
    Seq<Seq<char>>,
> {
    match decision {
        ReviewDecision::ApprovedExecpolicyAmendment { proposed_execpolicy_amendment } => {
            Some(strings_view(proposed_execpolicy_amendment.command@))
        },
        ReviewDecision::NetworkPolicyAmendment { .. } => None,
        _ => match subject {
            ApprovalDecisionSubject::Command(command) => Some(strings_view(command@)),
            ApprovalDecisionSubject::NetworkAccess { .. } => None,
        },
    }
}

/// The snippet a decision shows (empty when it shows none).
pub open spec fn decision_snippet(subject: ApprovalDecisionSubject, decision: ReviewDecision) -> Seq<
    char,
> {
    match shown_command(subject, decision) {
        Some(argv) => command_snippet(argv),
        None => Seq::empty(),
    }
}

/// A command that is shown as its words joined by spaces: no shell `-lc`
/// form, words that need no quoting, and no more than 80 characters in all.
pub open spec fn shown_verbatim(argv: Seq<Seq<char>>) -> bool {
    &&& shell_script_of(argv) is None
    &&& plain_words(argv)
    &&& space_join(argv).len() <= 80
}

/// The tail of a guardian patch sentence: the one file, or how many files.
pub open spec fn patch_files_tail(files: Seq<String>) -> Seq<SpanView> {
    if files.len() == 1 {
        seq![plain("涉及以下文件的补丁："@), dim(files[0]@)]
    } else {
        seq![plain("涉及 "@), dim(decimal(files.len())), plain(" 个文件的补丁"@)]
    }
}

/// A cell opened by the red cross.
pub open spec fn cross_cell(line: Seq<SpanView>) -> PrefixedCellView {
    PrefixedCellView { line, initial_prefix: cross_mark(), subsequent_prefix: "  "@ }
}

/// A cell opened by the green check mark.
pub open spec fn check_cell(line: Seq<SpanView>) -> PrefixedCellView {
    PrefixedCellView { line, initial_prefix: check_mark(), subsequent_prefix: "  "@ }
}

// ---------------------------------------------------------------------------
// Snippets
// ---------------------------------------------------------------------------

/// The first line of a command text (marked with `" ..."` when more lines
/// follow), cut to 80 grapheme clusters. The result is a single line.
pub fn truncate_exec_snippet(full_cmd: &str) -> (snippet: String)
    ensures
        snippet@ == snippet_of_text(full_cmd@),
        !snippet@.contains('\n'),
        !full_cmd@.contains('\n') && full_cmd@.len() <= 80 ==> snippet@ == full_cmd@,
{
    let head = first_line_marked_string(full_cmd);
    proof {
        let s = full_cmd@;
        if s.contains('\n') {
            lemma_first_newline_exists(s);
            let k = choose|k: int| crate::text::is_first_newline(s, k);
            reveal_strlit(" ...");
            assert forall|i: int| 0 <= i < head@.len() implies head@[i] != '\n' by {
                if i < k {
                    assert(head@[i] == s[i]);
                } else {
                    assert(head@[i] == " ..."@[i - k]);
                }
            }
        }
    }
    truncate_text(head.as_str(), 80)
}

/// The snippet of a command: how it is shown, cut to one line of at most 80
/// grapheme clusters.
pub fn exec_snippet(command: &[String]) -> (snippet: String)
    ensures
        snippet@ == command_snippet(strings_view(command@)),
        !snippet@.contains('\n'),
        command@.len() == 0 ==> snippet@.len() == 0,
        shown_verbatim(strings_view(command@)) ==> snippet@ == space_join(strings_view(command@)),
        shell_script_of(strings_view(command@)) is None && !has_nul(strings_view(command@))
            ==> snippet@ == truncated_text(first_line_marked(shell_quoted_join(strings_view(command@))), 80),
{
    let full_cmd = strip_bash_lc_and_escape(command);
    proof {
        if plain_words(strings_view(command@)) {
            lemma_plain_join_single_line(strings_view(command@));
        }
    }
    truncate_exec_snippet(full_cmd.as_str())
}

/// The snippet of a command, or `None` when it is empty.
pub fn non_empty_exec_snippet(command: &[String]) -> (snippet: Option<String>)
    ensures
        snippet is None <==> command_snippet(strings_view(command@)).len() == 0,
        snippet matches Some(s) ==> s@ == command_snippet(strings_view(command@)),
        command@.len() == 0 ==> snippet is None,
        snippet matches Some(s) ==> (shown_verbatim(strings_view(command@)) ==> s@ == space_join(strings_view(command@))),
        snippet is None ==> (shown_verbatim(strings_view(command@)) ==> space_join(strings_view(command@)).len() == 0),
{
    let snippet = exec_snippet(command);
    if snippet.as_str().is_empty() {
        None
    } else {
        Some(snippet)
    }
}

// ---------------------------------------------------------------------------
// Cells
// ---------------------------------------------------------------------------

impl ApprovalDecisionActor {
    /// How the decider is named in a sentence.
    pub fn subject(self) -> (name: &'static str)
        ensures
            name@ == actor_subject(self),
    {
        match self {
            ApprovalDecisionActor::User => "你",
            ApprovalDecisionActor::Guardian => "自动审查器",
        }
    }
}

fn span(text: &str, style: SpanStyle) -> (s: StyledSpan)
    ensures
        s@ == (text@, style),
{
    StyledSpan::from_text(text, style)
}

fn owned_span(text: String, style: SpanStyle) -> (s: StyledSpan)
    ensures
        s@ == (text@, style),
{
    StyledSpan::new(text, style)
}

fn symbol_span(granted: bool) -> (s: StyledSpan)
    ensures
        s@ == (if granted {
            check_mark()
        } else {
            cross_mark()
        }),
{
    if granted {
        span("✔ ", SpanStyle::Green)
    } else {
        span("✗ ", SpanStyle::Red)
    }
}

/// The decision cell for a request, given the snippet the decision shows
/// (see `decision_snippet`; an empty snippet stands for none).
pub fn approval_decision_cell_with_snippet(
    subject: ApprovalDecisionSubject,
    decision: ReviewDecision,
    actor: ApprovalDecisionActor,
    snippet: String,
) -> (cell: PrefixedWrappedHistoryCell)
    ensures
        cell@ == decision_cell(subject, decision, actor, snippet@),
{
    let ghost spec_subject = subject;
    let ghost spec_decision = decision;
    let ghost snip = snippet@;
    let has_snippet = !snippet.as_str().is_empty();
    let who = actor.subject();
    let (granted, summary): (bool, Vec<StyledSpan>) = match decision {
        ReviewDecision::Approved => match subject {
            ApprovalDecisionSubject::Command(_) => {
                if has_snippet {
                    (
                        true,
                        vec![
                            span(who, SpanStyle::Plain),
                            span("已批准", SpanStyle::Bold),
                            span(" Codex 本次运行 ", SpanStyle::Plain),
                            owned_span(snippet, SpanStyle::Dim),
                        ],
                    )
                } else {
                    (
                        true,
                        vec![
                            span(who, SpanStyle::Plain),
                            span("已批准", SpanStyle::Bold),
                            span("本次请求", SpanStyle::Plain),
                        ],
                    )
                }
            },
            ApprovalDecisionSubject::NetworkAccess { target } => (
                true,
                vec![
                    span(who, SpanStyle::Plain),
                    span("已批准", SpanStyle::Bold),
                    span(" Codex 本次访问网络目标 ", SpanStyle::Plain),
                    owned_span(target, SpanStyle::Dim),
                ],
            ),
        },
        ReviewDecision::ApprovedExecpolicyAmendment { .. } => (
            true,
            vec![
                span(who, SpanStyle::Plain),
                span("已批准", SpanStyle::Bold),
                span(" Codex 始终运行以下内容开头的命令：", SpanStyle::Plain),
                owned_span(snippet, SpanStyle::Dim),
            ],
        ),
        ReviewDecision::ApprovedForSession => match subject {
            ApprovalDecisionSubject::Command(_) => {
                if has_snippet {
                    (
                        true,
                        vec![
                            span(who, SpanStyle::Plain),
                            span("已批准", SpanStyle::Bold),
                            span(" Codex 在本会话中每次运行 ", SpanStyle::Plain),
                            owned_span(snippet, SpanStyle::Dim),
                        ],
                    )
                } else {
                    (
                        true,
                        vec![
                            span(who, SpanStyle::Plain),
                            span("已批准", SpanStyle::Bold),
                            span("本会话中的每次此类请求", SpanStyle::Plain),
                        ],
                    )
                }
            },
            ApprovalDecisionSubject::NetworkAccess { target } => (
                true,
                vec![
                    span(who, SpanStyle::Plain),
                    span("已批准", SpanStyle::Bold),
                    span(" Codex 在本会话中每次访问网络目标 ", SpanStyle::Plain),
                    owned_span(target, SpanStyle::Dim),
                ],
            ),
        },
        ReviewDecision::NetworkPolicyAmendment { network_policy_amendment } => {
            let target = match subject {
                ApprovalDecisionSubject::NetworkAccess { target } => target,
                ApprovalDecisionSubject::Command(_) => network_policy_amendment.host,
            };
            match network_policy_amendment.action {
                NetworkPolicyRuleAction::Allow => (
                    true,
                    vec![
                        span(who, SpanStyle::Plain),
                        span("已保存", SpanStyle::Bold),
                        span(" Codex 对以下网络目标的访问规则：", SpanStyle::Plain),
                        owned_span(target, SpanStyle::Dim),
                    ],
                ),
                NetworkPolicyRuleAction::Deny => (
                    false,
                    vec![
                        span(who, SpanStyle::Plain),
                        span("已拒绝", SpanStyle::Bold),
                        span(" Codex 访问网络目标 ", SpanStyle::Plain),
                        owned_span(target, SpanStyle::Dim),
                        span("，并已保存该规则", SpanStyle::Plain),
                    ],
                ),
            }
        },
        ReviewDecision::Denied => match subject {
            ApprovalDecisionSubject::Command(_) => {
                let summary = if has_snippet {
                    let snippet = owned_span(snippet, SpanStyle::Dim);
                    match actor {
                        ApprovalDecisionActor::User => vec![
                            span(who, SpanStyle::Plain),
                            span("未批准", SpanStyle::Bold),
                            span(" Codex 运行 ", SpanStyle::Plain),
                            snippet,
                        ],
                        ApprovalDecisionActor::Guardian => vec![
                            span("请求", SpanStyle::Plain),
                            span("已被拒绝", SpanStyle::Bold),
                            span("：Codex 运行 ", SpanStyle::Plain),
                            snippet,
                        ],
                    }
                } else {
                    match actor {
                        ApprovalDecisionActor::User => vec![
                            span(who, SpanStyle::Plain),
                            span("未批准", SpanStyle::Bold),
                            span("此请求", SpanStyle::Plain),
                        ],
                        ApprovalDecisionActor::Guardian => vec![
                            span("请求", SpanStyle::Plain),
                            span("已被拒绝", SpanStyle::Bold),
                        ],
                    }
                };
                (false, summary)
            },
            ApprovalDecisionSubject::NetworkAccess { target } => (
                false,
                vec![
                    span(who, SpanStyle::Plain),
                    span("未批准", SpanStyle::Bold),
                    span(" Codex 访问网络目标 ", SpanStyle::Plain),
                    owned_span(target, SpanStyle::Dim),
                ],
            ),
        },
        ReviewDecision::TimedOut => match subject {
            ApprovalDecisionSubject::Command(_) => {
                if has_snippet {
                    (
                        false,
                        vec![
                            span("审查", SpanStyle::Plain),
                            span("已超时", SpanStyle::Bold),
                            span("，Codex 未能运行 ", SpanStyle::Plain),
                            owned_span(snippet, SpanStyle::Dim),
                        ],
                    )
                } else {
                    (
                        false,
                        vec![
                            span("审查", SpanStyle::Plain),
                            span("已超时", SpanStyle::Bold),
                            span("，此请求未获批准", SpanStyle::Plain),
                        ],
                    )
                }
            },
            ApprovalDecisionSubject::NetworkAccess { target } => (
                false,
                vec![
                    span("审查", SpanStyle::Plain),
                    span("已超时", SpanStyle::Bold),
                    span("，Codex 未能访问 ", SpanStyle::Plain),
                    owned_span(target, SpanStyle::Dim),
                ],
            ),
        },
        ReviewDecision::Abort => match subject {
            ApprovalDecisionSubject::Command(_) => {
                if has_snippet {
                    (
                        false,
                        vec![
                            span(who, SpanStyle::Plain),
                            span("已取消", SpanStyle::Bold),
                            span("运行以下命令的请求：", SpanStyle::Plain),
                            owned_span(snippet, SpanStyle::Dim),
                        ],
                    )
                } else {
                    (
                        false,
                        vec![
                            span(who, SpanStyle::Plain),
                            span("已取消", SpanStyle::Bold),
                            span("此请求", SpanStyle::Plain),
                        ],
                    )
                }
            },
            ApprovalDecisionSubject::NetworkAccess { target } => (
                false,
                vec![
                    span(who, SpanStyle::Plain),
                    span("已取消", SpanStyle::Bold),
                    span(" Codex 访问以下网络目标的请求：", SpanStyle::Plain),
                    owned_span(target, SpanStyle::Dim),
                ],
            ),
        },
    };
    let symbol = symbol_span(granted);
    proof {
        assert(line_view(summary@) =~= decision_line(spec_subject, spec_decision, actor, snip));
        assert(symbol@ == decision_symbol(spec_decision));
    }
    PrefixedWrappedHistoryCell::new(summary, symbol, "  ")
}

/// The transcript cell that records how an approval request was decided.
pub fn new_approval_decision_cell(
    subject: ApprovalDecisionSubject,
    decision: ReviewDecision,
    actor: ApprovalDecisionActor,
) -> (cell: PrefixedWrappedHistoryCell)
    ensures
        cell@ == decision_cell(subject, decision, actor, decision_snippet(subject, decision)),
        shown_command(subject, decision) matches Some(argv) ==> (argv.len() == 0 ==> cell@
            == decision_cell(subject, decision, actor, Seq::empty())),
        shown_command(subject, decision) matches Some(argv) ==> (shown_verbatim(argv) ==> cell@
            == decision_cell(subject, decision, actor, space_join(argv))),
{
    let snippet = match &decision {
        ReviewDecision::ApprovedExecpolicyAmendment { proposed_execpolicy_amendment } => {
            exec_snippet(proposed_execpolicy_amendment.command.as_slice())
        },
        ReviewDecision::NetworkPolicyAmendment { .. } => String::new(),
        _ => match &subject {
            ApprovalDecisionSubject::Command(command) => {
                match non_empty_exec_snippet(command.as_slice()) {
                    Some(snippet) => snippet,
                    None => String::new(),
                }
            },
            ApprovalDecisionSubject::NetworkAccess { .. } => String::new(),
        },
    };
    approval_decision_cell_with_snippet(subject, decision, actor, snippet)
}

fn guardian_patch_line(head: Vec<StyledSpan>, files: Vec<String>) -> (line: Vec<StyledSpan>)
    ensures
        line_view(line@) == line_view(head@) + patch_files_tail(files@),
{
    let mut summary = head;
    let ghost head_view = line_view(summary@);
    let count = files.len();
    if count == 1 {
        summary.push(span("涉及以下文件的补丁：", SpanStyle::Plain));
        summary.push(owned_span(files[0].clone(), SpanStyle::Dim));
    } else {
        summary.push(span("涉及 ", SpanStyle::Plain));
        summary.push(owned_span(decimal_string(count), SpanStyle::Dim));
        summary.push(span(" 个文件的补丁", SpanStyle::Plain));
    }
    assert(line_view(summary@) =~= head_view + patch_files_tail(files@));
    summary
}

/// The cell for a patch that the guardian refused to let Codex apply.
pub fn new_guardian_denied_patch_request(files: Vec<String>) -> (cell: PrefixedWrappedHistoryCell)
    ensures
        cell@ == cross_cell(
            seq![plain("请求"@), bold("已被拒绝"@), plain("：Codex 应用"@)] + patch_files_tail(files@),
        ),
{
    let head = vec![
        span("请求", SpanStyle::Plain),
        span("已被拒绝", SpanStyle::Bold),
        span("：Codex 应用", SpanStyle::Plain),
    ];
    assert(line_view(head@) =~= seq![plain("请求"@), bold("已被拒绝"@), plain("：Codex 应用"@)]);
    let summary = guardian_patch_line(head, files);
    PrefixedWrappedHistoryCell::new(summary, span("✗ ", SpanStyle::Red), "  ")
}

/// The cell for an action that the guardian refused.
pub fn new_guardian_denied_action_request(summary: String) -> (cell: PrefixedWrappedHistoryCell)
    ensures
        cell@ == cross_cell(
            seq![plain("请求"@), bold("已被拒绝"@), plain("："@), dim(summary@)],
        ),
{
    let line = vec![
        span("请求", SpanStyle::Plain),
        span("已被拒绝", SpanStyle::Bold),
        span("：", SpanStyle::Plain),
        owned_span(summary, SpanStyle::Dim),
    ];
    assert(line_view(line@) =~= seq![plain("请求"@), bold("已被拒绝"@), plain("："@), dim(summary@)]);
    PrefixedWrappedHistoryCell::new(line, span("✗ ", SpanStyle::Red), "  ")
}

/// The cell for an action that the guardian approved.
pub fn new_guardian_approved_action_request(summary: String) -> (cell: PrefixedWrappedHistoryCell)
    ensures
        cell@ == check_cell(
            seq![plain("请求"@), bold("已获批准"@), plain("："@), dim(summary@)],
        ),
{
    let line = vec![
        span("请求", SpanStyle::Plain),
        span("已获批准", SpanStyle::Bold),
        span("：", SpanStyle::Plain),
        owned_span(summary, SpanStyle::Dim),
    ];
    assert(line_view(line@) =~= seq![plain("请求"@), bold("已获批准"@), plain("："@), dim(summary@)]);
    PrefixedWrappedHistoryCell::new(line, span("✔ ", SpanStyle::Green), "  ")
}

/// The cell for a patch whose review timed out.
pub fn new_guardian_timed_out_patch_request(files: Vec<String>) -> (cell:
    PrefixedWrappedHistoryCell)
    ensures
        cell@ == cross_cell(
            seq![plain("审查"@), bold("已超时"@), plain("，Codex 未能应用"@)] + patch_files_tail(
                files@,
            ),
        ),
{
    let head = vec![
        span("审查", SpanStyle::Plain),
        span("已超时", SpanStyle::Bold),
        span("，Codex 未能应用", SpanStyle::Plain),
    ];
    assert(line_view(head@) =~= seq![plain("审查"@), bold("已超时"@), plain("，Codex 未能应用"@)]);
    let summary = guardian_patch_line(head, files);
    PrefixedWrappedHistoryCell::new(summary, span("✗ ", SpanStyle::Red), "  ")
}

/// The cell for an action whose review timed out.
pub fn new_guardian_timed_out_action_request(summary: String) -> (cell:
    PrefixedWrappedHistoryCell)
    ensures
        cell@ == cross_cell(
            seq![plain("审查"@), bold("已超时"@), plain("，未能处理："@), dim(summary@)],
        ),
{
    let line = vec![
        span("审查", SpanStyle::Plain),
        span("已超时", SpanStyle::Bold),
        span("，未能处理：", SpanStyle::Plain),
        owned_span(summary, SpanStyle::Dim),
    ];
    assert(line_view(line@) =~= seq![plain("审查"@), bold("已超时"@), plain("，未能处理："@), dim(summary@)]);
    PrefixedWrappedHistoryCell::new(line, span("✗ ", SpanStyle::Red), "  ")
}

/// The cyan line that shows the current review status.
pub fn new_review_status_line(message: String) -> (cell: PlainHistoryCell)
    ensures
        cell@ == seq![seq![cyan(message@)]],
{
    let line = vec![owned_span(message, SpanStyle::Cyan)];
    assert(line_view(line@) =~= seq![cyan(message@)]);
    let cell = PlainHistoryCell { lines: vec![line] };
    assert(cell@ =~= seq![seq![cyan(message@)]]);
    cell
}

// ---------------------------------------------------------------------------
// Laws
// ---------------------------------------------------------------------------

/// Law: a decision cell opens with the green check mark exactly when the
/// decision lets the request go ahead, and with the red cross otherwise;
/// its wrapped rows are indented by two spaces.
pub proof fn lemma_symbol_marks_grant(
    subject: ApprovalDecisionSubject,
    decision: ReviewDecision,
    actor: ApprovalDecisionActor,
    snippet: Seq<char>,
)
    ensures
        decision_cell(subject, decision, actor, snippet).initial_prefix == (if decision_grants(
            decision,
        ) {
            check_mark()
        } else {
            cross_mark()
        }),
        decision_cell(subject, decision, actor, snippet).subsequent_prefix == "  "@,
{
}

/// Law: a timed-out review is nobody's decision: its sentence does not
/// depend on who was asked.
pub proof fn lemma_timeout_ignores_actor(subject: ApprovalDecisionSubject, snippet: Seq<char>)
    ensures
        decision_line(subject, ReviewDecision::TimedOut, ApprovalDecisionActor::User, snippet)
            == decision_line(
            subject,
            ReviewDecision::TimedOut,
            ApprovalDecisionActor::Guardian,
            snippet,
        ),
{
}

/// Law: a network request names its target, dimmed, whatever the decision,
/// except an approved exec-policy amendment, which shows its command instead.
pub proof fn lemma_network_target_shown(
    target: String,
    decision: ReviewDecision,
    actor: ApprovalDecisionActor,
    snippet: Seq<char>,
)
    ensures
        decision_line(
            ApprovalDecisionSubject::NetworkAccess { target },
            decision,
            actor,
            snippet,
        ).contains(dim(target@)) || decision is ApprovedExecpolicyAmendment,
{
    let line = decision_line(
        ApprovalDecisionSubject::NetworkAccess { target },
        decision,
        actor,
        snippet,
    );
    match decision {
        ReviewDecision::ApprovedExecpolicyAmendment { .. } => {},
        ReviewDecision::NetworkPolicyAmendment { network_policy_amendment } => {
            assert(line[3] == dim(target@));
        },
        _ => {
            assert(line[3] == dim(target@));
        },
    }
}

/// Law: when a command request shows a snippet, the sentence ends with it,
/// dimmed; when the snippet is empty, no dimmed span appears at all.
pub proof fn lemma_command_snippet_closes_sentence(
    command: Vec<String>,
    decision: ReviewDecision,
    actor: ApprovalDecisionActor,
    snippet: Seq<char>,
)
    requires
        !(decision is NetworkPolicyAmendment),
    ensures
        snippet.len() > 0 ==> decision_line(
            ApprovalDecisionSubject::Command(command),
            decision,
            actor,
            snippet,
        ).last() == dim(snippet),
        snippet.len() == 0 && !(decision is ApprovedExecpolicyAmendment) ==> forall|i: int|
            0 <= i < decision_line(
                ApprovalDecisionSubject::Command(command),
                decision,
                actor,
                snippet,
            ).len() ==> (#[trigger] decision_line(
                ApprovalDecisionSubject::Command(command),
                decision,
                actor,
                snippet,
            )[i]).1 != SpanStyle::Dim,
{
}

/// Law: a decision sentence names who decided. It opens with the decider's
/// name ("你" for the user, "自动审查器" for the guardian), except that a
/// timed-out review opens with "审查" and the guardian's refusal of a command
/// opens with "请求"; in those cases no decider is named at all.
pub proof fn lemma_sentence_names_decider(
    subject: ApprovalDecisionSubject,
    decision: ReviewDecision,
    actor: ApprovalDecisionActor,
    snippet: Seq<char>,
)
    ensures
        decision_line(subject, decision, actor, snippet).len() >= 2,
        !(decision is TimedOut) && !(decision is Denied && actor == ApprovalDecisionActor::Guardian
            && subject is Command) ==> decision_line(subject, decision, actor, snippet)[0] == plain(
            if actor == ApprovalDecisionActor::User {
                "你"@
            } else {
                "自动审查器"@
            },
        ),
        decision is TimedOut ==> decision_line(subject, decision, actor, snippet)[0] == plain(
            "审查"@,
        ),
        decision is Denied && actor == ApprovalDecisionActor::Guardian && subject is Command
            ==> decision_line(subject, decision, actor, snippet)[0] == plain("请求"@),
{
}

/// Law: the user and the guardian are named differently, so a sentence that
/// names its decider tells the two apart.
pub proof fn lemma_deciders_named_apart()
    ensures
        actor_subject(ApprovalDecisionActor::User) != actor_subject(
            ApprovalDecisionActor::Guardian,
        ),
{
    reveal_strlit("你");
    reveal_strlit("自动审查器");
    assert(actor_subject(ApprovalDecisionActor::User).len() != actor_subject(
        ApprovalDecisionActor::Guardian,
    ).len());
}

/// Law: a command that is not a shell `-lc` invocation and holds no NUL is
/// shown through its shell-quoted words (`shlex::try_join`), not its bare
/// words: the snippet is the first line of the quoted join, cut to 80
/// grapheme clusters.
pub proof fn lemma_snippet_shows_quoted_words(argv: Seq<Seq<char>>)
    ensures
        shell_script_of(argv) is None && !has_nul(argv) ==> command_snippet(argv) == truncated_text(
            first_line_marked(shell_quoted_join(argv)),
            80,
        ),
        shell_script_of(argv) matches Some(script) ==> command_snippet(argv) == truncated_text(
            first_line_marked(script),
            80,
        ),
{
}

/// Law: `bash -lc <script>` (and `-c`, and zsh or sh) shows its script.
pub proof fn lemma_shell_script_shown(argv: Seq<Seq<char>>)
    ensures
        argv.len() == 3 && (argv[0] == "bash"@ || argv[0] == "zsh"@ || argv[0] == "sh"@) && (argv[1]
            == "-lc"@ || argv[1] == "-c"@) ==> command_display(argv) == argv[2],
{
}

/// Law: a guardian patch sentence names the one file it touches, and for
/// any other number of files shows, dimmed, a decimal numeral that denotes
/// exactly how many files there are.
pub proof fn lemma_patch_sentence_counts_files(files: Seq<String>)
    ensures
        files.len() == 1 ==> patch_files_tail(files).contains(dim(files[0]@)),
        files.len() != 1 ==> patch_files_tail(files).len() == 3 && patch_files_tail(files)[1].1
            == SpanStyle::Dim && decimal_value(patch_files_tail(files)[1].0) == files.len(),
{
    lemma_decimal_denotes(files.len());
    if files.len() == 1 {
        assert(patch_files_tail(files)[1] == dim(files[0]@));
    }
}

/// Law: the bold verdict of a decision sentence agrees with its mark: a
/// granted request reads "已批准" (approved) or "已保存" (rule saved), a
/// request that does not go ahead reads "未批准", "已被拒绝", "已拒绝",
/// "已超时" or "已取消".
pub proof fn lemma_verdict_agrees_with_grant(
    subject: ApprovalDecisionSubject,
    decision: ReviewDecision,
    actor: ApprovalDecisionActor,
    snippet: Seq<char>,
)
    ensures
        decision_grants(decision) ==> (decision_line(subject, decision, actor, snippet)[1] == bold(
            "已批准"@,
        ) || decision_line(subject, decision, actor, snippet)[1] == bold("已保存"@)),
        !decision_grants(decision) ==> (decision_line(subject, decision, actor, snippet)[1] == bold(
            "未批准"@,
        ) || decision_line(subject, decision, actor, snippet)[1] == bold("已被拒绝"@)
            || decision_line(subject, decision, actor, snippet)[1] == bold("已拒绝"@)
            || decision_line(subject, decision, actor, snippet)[1] == bold("已超时"@)
            || decision_line(subject, decision, actor, snippet)[1] == bold("已取消"@)),
{
}

} // verus!
