//! The prompt shown after a plan is approved in Plan mode: implement it
//! here, implement it in a fresh context, or keep planning.

use vstd::prelude::*;

use crate::text::{is_blank, is_blank_text, opt_string_view};

verus! {

pub const PLAN_IMPLEMENTATION_TITLE: &'static str = "要实施此计划吗？";

pub const PLAN_IMPLEMENTATION_YES: &'static str = "是，实施此计划";

pub const PLAN_IMPLEMENTATION_CLEAR_CONTEXT: &'static str = "是，清除上下文并实施";

pub const PLAN_IMPLEMENTATION_NO: &'static str = "否，留在计划模式";

pub const PLAN_IMPLEMENTATION_CODING_MESSAGE: &'static str = "实施该计划。";

pub const PLAN_IMPLEMENTATION_CLEAR_CONTEXT_PREFIX: &'static str = "之前的代理为完成用户任务制定了以下计划。请在全新的上下文中实施该计划，将计划视为用户意图的依据，按需重新读取文件，并完成实施和验证。";

pub const PLAN_IMPLEMENTATION_DEFAULT_UNAVAILABLE: &'static str = "默认模式不可用";

pub const PLAN_IMPLEMENTATION_NO_APPROVED_PLAN: &'static str = "没有已批准的计划";

pub const PLAN_IMPLEMENTATION_YES_DESCRIPTION: &'static str = "切换到默认模式并开始编码。";

pub const PLAN_IMPLEMENTATION_NEW_SESSION_DESCRIPTION: &'static str = "在新会话中使用此计划。";

pub const PLAN_IMPLEMENTATION_NO_DESCRIPTION: &'static str = "继续与模型制定计划。";

/// What choosing an item sends to the application.
#[derive(Clone, Debug, PartialEq, Eq)]
pub enum AppEvent<M> {
    /// Submit `text` as a user message, switching to `collaboration_mode`.
    SubmitUserMessageWithMode { text: String, collaboration_mode: M },
    /// Clear the interface and the context, then submit `text` as a user message.
    ClearUiAndSubmitUserMessage { text: String },
}

/// An event as a value.
pub enum AppEventView<M> {
    SubmitUserMessageWithMode { text: Seq<char>, collaboration_mode: M },
    ClearUiAndSubmitUserMessage { text: Seq<char> },
}

impl<M> View for AppEvent<M> {
    type V = AppEventView<M>;

    open spec fn view(&self) -> AppEventView<M> {
        match self {
            AppEvent::SubmitUserMessageWithMode { text, collaboration_mode } => {
                AppEventView::SubmitUserMessageWithMode {
                    text: text@,
                    collaboration_mode: *collaboration_mode,
                }
            },
            AppEvent::ClearUiAndSubmitUserMessage { text } => {
                AppEventView::ClearUiAndSubmitUserMessage { text: text@ }
            },
        }
    }
}

/// One entry of a selection popup.
#[derive(Clone, Debug, PartialEq, Eq)]
pub struct SelectionItem<M> {
    pub name: String,
    pub description: Option<String>,
    pub selected_description: Option<String>,
    pub is_current: bool,
    /// Sent, in order, when the item is chosen.
    pub actions: Vec<AppEvent<M>>,
    /// Why the item cannot be chosen, if it cannot.
    pub disabled_reason: Option<String>,
    pub dismiss_on_select: bool,
}

/// An entry as a value.
pub struct SelectionItemView<M> {
    pub name: Seq<char>,
    pub description: Option<Seq<char>>,
    pub selected_description: Option<Seq<char>>,
    pub is_current: bool,
    pub actions: Seq<AppEventView<M>>,
    pub disabled_reason: Option<Seq<char>>,
    pub dismiss_on_select: bool,
}

/// The views of optional string slices.
pub open spec fn opt_str_view(o: Option<&str>) -> Option<Seq<char>> {
    match o {
        Some(s) => Some(s@),
        None => None,
    }
}

impl<M> View for SelectionItem<M> {
    type V = SelectionItemView<M>;

    open spec fn view(&self) -> SelectionItemView<M> {
        SelectionItemView {
            name: self.name@,
            description: opt_string_view(self.description),
            selected_description: opt_string_view(self.selected_description),
            is_current: self.is_current,
            actions: self.actions@.map_values(|e: AppEvent<M>| e@),
            disabled_reason: opt_string_view(self.disabled_reason),
            dismiss_on_select: self.dismiss_on_select,
        }
    }
}

/// A selection popup: its title, subtitle, whether it shows the standard
/// key hint as its footer, and its entries.
#[derive(Clone, Debug, PartialEq, Eq)]
pub struct SelectionViewParams<M> {
    pub title: Option<String>,
    pub subtitle: Option<String>,
    pub standard_footer_hint: bool,
    pub items: Vec<SelectionItem<M>>,
}

// ---------------------------------------------------------------------------
// Models
// ---------------------------------------------------------------------------

/// "Implement this plan": switches to the default mode and sends the coding
/// message; unavailable without a default mode.
pub open spec fn implement_item<M>(default_mask: Option<M>) -> SelectionItemView<M> {
    SelectionItemView {
        name: PLAN_IMPLEMENTATION_YES@,
        description: Some(PLAN_IMPLEMENTATION_YES_DESCRIPTION@),
        selected_description: None,
        is_current: false,
        actions: match default_mask {
            Some(mask) => seq![
                AppEventView::SubmitUserMessageWithMode {
                    text: PLAN_IMPLEMENTATION_CODING_MESSAGE@,
                    collaboration_mode: mask,
                },
            ],
            None => Seq::empty(),
        },
        disabled_reason: match default_mask {
            Some(_) => None,
            None => Some(PLAN_IMPLEMENTATION_DEFAULT_UNAVAILABLE@),
        },
        dismiss_on_select: true,
    }
}

/// The message that carries a plan into a fresh context.
pub open spec fn clear_context_message(plan: Seq<char>) -> Seq<char> {
    PLAN_IMPLEMENTATION_CLEAR_CONTEXT_PREFIX@ + "\n\n"@ + plan
}

/// The description of the fresh-context entry.
pub open spec fn clear_context_description(usage_label: Option<Seq<char>>) -> Seq<char> {
    match usage_label {
        Some(label) => "新会话。上下文："@ + label + "。"@,
        None => PLAN_IMPLEMENTATION_NEW_SESSION_DESCRIPTION@,
    }
}

/// "Clear context and implement": available when there is a default mode and
/// a plan that is not blank; it then clears the interface and sends the plan.
pub open spec fn clear_context_item<M>(
    has_default_mode: bool,
    plan_markdown: Option<Seq<char>>,
    usage_label: Option<Seq<char>>,
) -> SelectionItemView<M> {
    let ready = has_default_mode && plan_markdown is Some && !is_blank_text(plan_markdown->0);
    SelectionItemView {
        name: PLAN_IMPLEMENTATION_CLEAR_CONTEXT@,
        description: Some(clear_context_description(usage_label)),
        selected_description: None,
        is_current: false,
        actions: if ready {
            seq![
                AppEventView::ClearUiAndSubmitUserMessage {
                    text: clear_context_message(plan_markdown->0),
                },
            ]
        } else {
            Seq::empty()
        },
        disabled_reason: if ready {
            None
        } else if !has_default_mode {
            Some(PLAN_IMPLEMENTATION_DEFAULT_UNAVAILABLE@)
        } else {
            Some(PLAN_IMPLEMENTATION_NO_APPROVED_PLAN@)
        },
        dismiss_on_select: true,
    }
}

/// "Stay in Plan mode": does nothing but close the prompt.
pub open spec fn stay_item<M>() -> SelectionItemView<M> {
    SelectionItemView {
        name: PLAN_IMPLEMENTATION_NO@,
        description: Some(PLAN_IMPLEMENTATION_NO_DESCRIPTION@),
        selected_description: None,
        is_current: false,
        actions: Seq::empty(),
        disabled_reason: None,
        dismiss_on_select: true,
    }
}

/// The entries of the prompt, in order.
pub open spec fn plan_prompt_items<M>(
    default_mask: Option<M>,
    plan_markdown: Option<Seq<char>>,
    usage_label: Option<Seq<char>>,
) -> Seq<SelectionItemView<M>> {
    seq![
        implement_item(default_mask),
        clear_context_item(default_mask is Some, plan_markdown, usage_label),
        stay_item(),
    ]
}

// ---------------------------------------------------------------------------
// Construction
// ---------------------------------------------------------------------------

fn owned(text: &str) -> (s: String)
    ensures
        s@ == text@,
{
    text.to_string()
}

/// Builds the confirmation prompt shown after a plan is approved in Plan mode.
///
/// The optional usage label is already phrased for display, such as `89% used`
/// or `123K used`; it only decides the description of the fresh-context entry.
pub fn selection_view_params<M>(
    default_mask: Option<M>,
    plan_markdown: Option<&str>,
    clear_context_usage_label: Option<&str>,
) -> (params: SelectionViewParams<M>)
    ensures
        opt_string_view(params.title) == Some(PLAN_IMPLEMENTATION_TITLE@),
        params.subtitle is None,
        params.standard_footer_hint,
        params.items@.map_values(|i: SelectionItem<M>| i@) == plan_prompt_items(
            default_mask,
            opt_str_view(plan_markdown),
            opt_str_view(clear_context_usage_label),
        ),
{
    let ghost spec_mask = default_mask;
    let has_default_mode = default_mask.is_some();
    let (implement_actions, implement_disabled_reason): (Vec<AppEvent<M>>, Option<String>) =
        match default_mask {
        Some(mask) => {
            let actions = vec![
                AppEvent::SubmitUserMessageWithMode {
                    text: owned(PLAN_IMPLEMENTATION_CODING_MESSAGE),
                    collaboration_mode: mask,
                },
            ];
            (actions, None)
        },
        None => (Vec::new(), Some(owned(PLAN_IMPLEMENTATION_DEFAULT_UNAVAILABLE))),
    };

    let (clear_context_actions, clear_context_disabled_reason): (
        Vec<AppEvent<M>>,
        Option<String>,
    ) = if !has_default_mode {
        (Vec::new(), Some(owned(PLAN_IMPLEMENTATION_DEFAULT_UNAVAILABLE)))
    } else {
        match plan_markdown {
            Some(plan) => {
                if !is_blank(plan) {
                    let text = owned(PLAN_IMPLEMENTATION_CLEAR_CONTEXT_PREFIX).concat(
                        "\n\n",
                    ).concat(plan);
                    (vec![AppEvent::ClearUiAndSubmitUserMessage { text }], None)
                } else {
                    (Vec::new(), Some(owned(PLAN_IMPLEMENTATION_NO_APPROVED_PLAN)))
                }
            },
            None => (Vec::new(), Some(owned(PLAN_IMPLEMENTATION_NO_APPROVED_PLAN))),
        }
    };

    let clear_context_description = match clear_context_usage_label {
        Some(label) => owned("新会话。上下文：").concat(label).concat("。"),
        None => owned(PLAN_IMPLEMENTATION_NEW_SESSION_DESCRIPTION),
    };

    let implement = SelectionItem {
        name: owned(PLAN_IMPLEMENTATION_YES),
        description: Some(owned(PLAN_IMPLEMENTATION_YES_DESCRIPTION)),
        selected_description: None,
        is_current: false,
        actions: implement_actions,
        disabled_reason: implement_disabled_reason,
        dismiss_on_select: true,
    };
    let clear_context = SelectionItem {
        name: owned(PLAN_IMPLEMENTATION_CLEAR_CONTEXT),
        description: Some(clear_context_description),
        selected_description: None,
        is_current: false,
        actions: clear_context_actions,
        disabled_reason: clear_context_disabled_reason,
        dismiss_on_select: true,
    };
    let stay = SelectionItem {
        name: owned(PLAN_IMPLEMENTATION_NO),
        description: Some(owned(PLAN_IMPLEMENTATION_NO_DESCRIPTION)),
        selected_description: None,
        is_current: false,
        actions: Vec::new(),
        disabled_reason: None,
        dismiss_on_select: true,
    };
    proof {
        assert(implement@.actions =~= implement_item(spec_mask).actions);
        assert(implement@ == implement_item(spec_mask));
        assert(clear_context@.actions =~= clear_context_item::<M>(
            has_default_mode,
            opt_str_view(plan_markdown),
            opt_str_view(clear_context_usage_label),
        ).actions);
        assert(clear_context@ == clear_context_item::<M>(
            has_default_mode,
            opt_str_view(plan_markdown),
            opt_str_view(clear_context_usage_label),
        ));
        assert(stay@.actions =~= stay_item::<M>().actions);
        assert(stay@ == stay_item::<M>());
    }
    let items = vec![implement, clear_context, stay];
    let params = SelectionViewParams {
        title: Some(owned(PLAN_IMPLEMENTATION_TITLE)),
        subtitle: None,
        standard_footer_hint: true,
        items,
    };
    assert(params.items@.map_values(|i: SelectionItem<M>| i@) =~= plan_prompt_items(
        spec_mask,
        opt_str_view(plan_markdown),
        opt_str_view(clear_context_usage_label),
    ));
    params
}

/// Law: of the two implementing entries, each either has an action to send
/// or says why it is unavailable, never both and never neither.
pub proof fn lemma_entry_acts_or_explains<M>(
    default_mask: Option<M>,
    plan_markdown: Option<Seq<char>>,
    usage_label: Option<Seq<char>>,
)
    ensures
        forall|i: int|
            0 <= i < 2 ==> ((#[trigger] plan_prompt_items(default_mask, plan_markdown, usage_label)[i]).actions.len() > 0
                <==> plan_prompt_items(default_mask, plan_markdown, usage_label)[i].disabled_reason is None),
{
    let items = plan_prompt_items(default_mask, plan_markdown, usage_label);
    assert(items[0] == implement_item(default_mask));
    assert(items[1] == clear_context_item::<M>(default_mask is Some, plan_markdown, usage_label));
}

/// Law: implementing in a fresh context is only offered when implementing
/// here is, and it then carries the whole plan after the hand-off preamble.
pub proof fn lemma_fresh_context_needs_default_mode<M>(
    default_mask: Option<M>,
    plan_markdown: Option<Seq<char>>,
    usage_label: Option<Seq<char>>,
)
    ensures
        plan_prompt_items(default_mask, plan_markdown, usage_label)[1].disabled_reason is None
            ==> plan_prompt_items(default_mask, plan_markdown, usage_label)[0].disabled_reason is None,
        plan_prompt_items(default_mask, plan_markdown, usage_label)[1].disabled_reason is None
            ==> plan_prompt_items(default_mask, plan_markdown, usage_label)[1].actions == seq![
            AppEventView::<M>::ClearUiAndSubmitUserMessage {
                text: PLAN_IMPLEMENTATION_CLEAR_CONTEXT_PREFIX@ + "\n\n"@ + plan_markdown->0,
            },
        ],
{
}

/// Law: the usage label only changes the description of the fresh-context
/// entry; what every entry sends, and why one is unavailable, do not depend on it.
pub proof fn lemma_usage_label_only_describes<M>(
    default_mask: Option<M>,
    plan_markdown: Option<Seq<char>>,
    label_a: Option<Seq<char>>,
    label_b: Option<Seq<char>>,
)
    ensures
        forall|i: int|
            0 <= i < 3 ==> (#[trigger] plan_prompt_items(default_mask, plan_markdown, label_a)[i]).actions
                == plan_prompt_items(default_mask, plan_markdown, label_b)[i].actions
                && plan_prompt_items(default_mask, plan_markdown, label_a)[i].disabled_reason
                == plan_prompt_items(default_mask, plan_markdown, label_b)[i].disabled_reason,
{
}

/// Law: implementing in a fresh context is available exactly when there is
/// a default mode and a plan that is not blank.
pub proof fn lemma_fresh_context_available_iff<M>(
    default_mask: Option<M>,
    plan_markdown: Option<Seq<char>>,
    usage_label: Option<Seq<char>>,
)
    ensures
        plan_prompt_items(default_mask, plan_markdown, usage_label)[1].disabled_reason is None
            <==> (default_mask is Some && plan_markdown is Some && !is_blank_text(plan_markdown->0)),
        plan_prompt_items(default_mask, plan_markdown, usage_label)[0].disabled_reason is None
            <==> default_mask is Some,
{
}

/// Law: implementing here sends exactly one message, the coding message, in
/// the very default mode it was given; staying in Plan mode sends nothing.
pub proof fn lemma_implement_uses_given_mode<M>(
    default_mask: Option<M>,
    plan_markdown: Option<Seq<char>>,
    usage_label: Option<Seq<char>>,
)
    ensures
        default_mask matches Some(m) ==> plan_prompt_items(default_mask, plan_markdown, usage_label)[0].actions
            == seq![AppEventView::SubmitUserMessageWithMode { text: "实施该计划。"@, collaboration_mode: m }],
        plan_prompt_items(default_mask, plan_markdown, usage_label)[2].actions.len() == 0,
        plan_prompt_items(default_mask, plan_markdown, usage_label)[2].disabled_reason is None,
{
}

} // verus!
