//! Developer instructions that ask for compact ASCII visualizations when the
//! interface is a terminal.

use vstd::prelude::*;

use crate::text::{is_blank, is_blank_text, opt_string_view};

verus! {

/// What the model is told about visualizations in a terminal.
pub const TERMINAL_VISUALIZATION_INSTRUCTIONS: &'static str = "\
- 当前界面是终端。当格式规则要求使用可视化内容时，请在最终回答中使用紧凑的 ASCII 图、树、时间线或表格。
- 对精确映射或比较使用表格，不要把已知映射压缩成散文。
- 对层级或一对多关系使用树；对顺序、变化或按事件顺序在记录间传递的状态使用图或时间线。
- 可视化内容只能使用 ASCII 字符。";

/// The developer instructions that result, as a value: unchanged when the
/// feature is off; otherwise the instructions in force (those of the turn, or
/// else those of the configuration) followed by a blank line and the
/// visualization instructions, or the visualization instructions alone when
/// there are none or they are blank.
pub open spec fn instructions_with_visualization(
    feature_enabled: bool,
    developer_instructions: Option<Seq<char>>,
    control_instructions: Option<Seq<char>>,
) -> Option<Seq<char>> {
    if !feature_enabled {
        control_instructions
    } else {
        let existing = match control_instructions {
            Some(c) => Some(c),
            None => developer_instructions,
        };
        Some(
            match existing {
                Some(e) => if !is_blank_text(e) {
                    e + "\n\n"@ + TERMINAL_VISUALIZATION_INSTRUCTIONS@
                } else {
                    TERMINAL_VISUALIZATION_INSTRUCTIONS@
                },
                None => TERMINAL_VISUALIZATION_INSTRUCTIONS@,
            },
        )
    }
}

/// Adds the terminal visualization instructions to the developer
/// instructions of a turn when the feature is enabled.
pub fn with_terminal_visualization_instructions(
    feature_enabled: bool,
    developer_instructions: &Option<String>,
    control_instructions: Option<String>,
) -> (instructions: Option<String>)
    ensures
        opt_string_view(instructions) == instructions_with_visualization(
            feature_enabled,
            opt_string_view(*developer_instructions),
            opt_string_view(control_instructions),
        ),
{
    if !feature_enabled {
        return control_instructions;
    }
    let existing_instructions = match control_instructions {
        Some(c) => Some(c),
        None => match developer_instructions {
            Some(d) => Some(d.clone()),
            None => None,
        },
    };
    Some(
        match existing_instructions {
            Some(existing) => {
                if !is_blank(existing.as_str()) {
                    existing.concat("\n\n").concat(TERMINAL_VISUALIZATION_INSTRUCTIONS)
                } else {
                    TERMINAL_VISUALIZATION_INSTRUCTIONS.to_string()
                }
            },
            None => TERMINAL_VISUALIZATION_INSTRUCTIONS.to_string(),
        },
    )
}

/// Law: with the feature enabled there are always instructions, and they
/// end with the visualization instructions.
pub proof fn lemma_enabled_always_ends_with_visualization(
    developer_instructions: Option<Seq<char>>,
    control_instructions: Option<Seq<char>>,
)
    ensures
        ({
            let r = instructions_with_visualization(
                true,
                developer_instructions,
                control_instructions,
            );
            &&& r is Some
            &&& r->0.len() >= TERMINAL_VISUALIZATION_INSTRUCTIONS@.len()
            &&& r->0.subrange(
                r->0.len() - TERMINAL_VISUALIZATION_INSTRUCTIONS@.len(),
                r->0.len() as int,
            ) == TERMINAL_VISUALIZATION_INSTRUCTIONS@
        }),
{
    let r = instructions_with_visualization(true, developer_instructions, control_instructions);
    let v = TERMINAL_VISUALIZATION_INSTRUCTIONS@;
    let t = r->0;
    assert(t.subrange(t.len() - v.len(), t.len() as int) =~= v);
}

/// Law: with the feature enabled, instructions of the turn that are not
/// blank are kept whole at the start, and those of the configuration are
/// then ignored.
pub proof fn lemma_turn_instructions_kept_first(
    developer_instructions: Option<Seq<char>>,
    control: Seq<char>,
)
    requires
        !is_blank_text(control),
    ensures
        instructions_with_visualization(true, developer_instructions, Some(control)) == Some(
            control + "\n\n"@ + TERMINAL_VISUALIZATION_INSTRUCTIONS@,
        ),
        instructions_with_visualization(true, developer_instructions, Some(control))->0.take(
            control.len() as int,
        ) == control,
{
    let t = control + "\n\n"@ + TERMINAL_VISUALIZATION_INSTRUCTIONS@;
    assert(t.take(control.len() as int) =~= control);
}

/// Law: with the feature disabled, the instructions of the turn pass through unchanged.
pub proof fn lemma_disabled_is_identity(
    developer_instructions: Option<Seq<char>>,
    control_instructions: Option<Seq<char>>,
)
    ensures
        instructions_with_visualization(false, developer_instructions, control_instructions)
            == control_instructions,
{
}

/// Law: without instructions for the turn, the configured developer
/// instructions stand in for them exactly as if the turn had given them.
pub proof fn lemma_developer_instructions_stand_in(developer_instructions: Option<Seq<char>>)
    ensures
        instructions_with_visualization(true, developer_instructions, None)
            == instructions_with_visualization(true, None, developer_instructions),
{
}

/// Law: configured developer instructions that are not blank are kept whole,
/// followed by a blank line and the visualization instructions.
pub proof fn lemma_developer_instructions_kept_whole(developer: Seq<char>)
    requires
        !is_blank_text(developer),
    ensures
        instructions_with_visualization(true, Some(developer), None) == Some(
            developer + "\n\n"@ + TERMINAL_VISUALIZATION_INSTRUCTIONS@,
        ),
{
}

} // verus!
