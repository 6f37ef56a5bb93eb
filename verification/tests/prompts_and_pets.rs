use codex_tui::pets::{
    builtin_pet, builtin_pets, DEFAULT_FRAME_COLUMNS, DEFAULT_FRAME_HEIGHT, DEFAULT_FRAME_ROWS,
    DEFAULT_FRAME_WIDTH, SPRITESHEET_HEIGHT, SPRITESHEET_WIDTH,
};
use codex_tui::plan_implementation::{
    selection_view_params, AppEvent, PLAN_IMPLEMENTATION_CLEAR_CONTEXT_PREFIX,
    PLAN_IMPLEMENTATION_DEFAULT_UNAVAILABLE, PLAN_IMPLEMENTATION_NO_APPROVED_PLAN,
    PLAN_IMPLEMENTATION_TITLE,
};
use codex_tui::visualization::{with_terminal_visualization_instructions, TERMINAL_VISUALIZATION_INSTRUCTIONS};

#[test]
fn visualization_disabled_passes_through() {
    let dev = Some("dev".to_string());
    assert_eq!(with_terminal_visualization_instructions(false, &dev, None), None);
    assert_eq!(
        with_terminal_visualization_instructions(false, &dev, Some("turn".to_string())),
        Some("turn".to_string())
    );
}

#[test]
fn visualization_enabled_appends() {
    let dev = Some("dev".to_string());
    assert_eq!(
        with_terminal_visualization_instructions(true, &dev, Some("turn".to_string())),
        Some(format!("turn\n\n{TERMINAL_VISUALIZATION_INSTRUCTIONS}"))
    );
    assert_eq!(
        with_terminal_visualization_instructions(true, &dev, None),
        Some(format!("dev\n\n{TERMINAL_VISUALIZATION_INSTRUCTIONS}"))
    );
    assert_eq!(
        with_terminal_visualization_instructions(true, &None, None),
        Some(TERMINAL_VISUALIZATION_INSTRUCTIONS.to_string())
    );
    assert_eq!(
        with_terminal_visualization_instructions(true, &dev, Some("  \n".to_string())),
        Some(TERMINAL_VISUALIZATION_INSTRUCTIONS.to_string())
    );
    assert!(TERMINAL_VISUALIZATION_INSTRUCTIONS.starts_with("- 当前界面是终端。"));
    assert_eq!(TERMINAL_VISUALIZATION_INSTRUCTIONS.lines().count(), 4);
}

#[test]
fn plan_prompt_with_default_mode_and_plan() {
    let params = selection_view_params(Some(7u32), Some("# Plan\n- step"), Some("89% used"));
    assert_eq!(params.title.as_deref(), Some(PLAN_IMPLEMENTATION_TITLE));
    assert_eq!(params.subtitle, None);
    assert!(params.standard_footer_hint);
    assert_eq!(params.items.len(), 3);
    let yes = &params.items[0];
    assert_eq!(yes.name, "是，实施此计划");
    assert_eq!(yes.description.as_deref(), Some("切换到默认模式并开始编码。"));
    assert_eq!(
        yes.actions,
        vec![AppEvent::SubmitUserMessageWithMode { text: "实施该计划。".to_string(), collaboration_mode: 7u32 }]
    );
    assert_eq!(yes.disabled_reason, None);
    assert!(yes.dismiss_on_select);
    let clear = &params.items[1];
    assert_eq!(clear.name, "是，清除上下文并实施");
    assert_eq!(clear.description.as_deref(), Some("新会话。上下文：89% used。"));
    assert_eq!(
        clear.actions,
        vec![AppEvent::ClearUiAndSubmitUserMessage {
            text: format!("{PLAN_IMPLEMENTATION_CLEAR_CONTEXT_PREFIX}\n\n# Plan\n- step"),
        }]
    );
    assert_eq!(clear.disabled_reason, None);
    let no = &params.items[2];
    assert_eq!(no.name, "否，留在计划模式");
    assert_eq!(no.description.as_deref(), Some("继续与模型制定计划。"));
    assert!(no.actions.is_empty());
    assert_eq!(no.disabled_reason, None);
}

#[test]
fn plan_prompt_without_default_mode() {
    let params = selection_view_params::<u32>(None, Some("plan"), None);
    assert!(params.items[0].actions.is_empty());
    assert_eq!(params.items[0].disabled_reason.as_deref(), Some(PLAN_IMPLEMENTATION_DEFAULT_UNAVAILABLE));
    assert!(params.items[1].actions.is_empty());
    assert_eq!(params.items[1].disabled_reason.as_deref(), Some(PLAN_IMPLEMENTATION_DEFAULT_UNAVAILABLE));
    assert_eq!(params.items[1].description.as_deref(), Some("在新会话中使用此计划。"));
}

#[test]
fn plan_prompt_without_plan() {
    for plan in [None, Some(""), Some("  \n\t")] {
        let params = selection_view_params(Some(1u8), plan, None);
        assert_eq!(params.items[0].disabled_reason, None);
        assert!(params.items[1].actions.is_empty());
        assert_eq!(params.items[1].disabled_reason.as_deref(), Some(PLAN_IMPLEMENTATION_NO_APPROVED_PLAN));
    }
}

#[test]
fn pet_catalog_lookup() {
    let pets = builtin_pets();
    assert_eq!(pets.len(), 8);
    let codex = builtin_pet("codex").unwrap();
    assert_eq!(codex.display_name, "Codex");
    assert_eq!(codex.spritesheet_file, "codex-spritesheet-v4.webp");
    let signal = builtin_pet("null-signal").unwrap();
    assert_eq!(signal.display_name, "Null Signal");
    assert_eq!(signal.description, "来自虚空的安静信号");
    assert_eq!(builtin_pet("unknown"), None);
    assert_eq!(builtin_pet(""), None);
    assert_eq!(builtin_pet("Codex"), None);
    for pet in &pets {
        assert_eq!(builtin_pet(pet.id), Some(*pet));
        assert_eq!(pet.spritesheet_file, format!("{}-spritesheet-v4.webp", pet.id));
    }
}

#[test]
fn spritesheet_dimensions() {
    assert_eq!(SPRITESHEET_WIDTH, DEFAULT_FRAME_WIDTH * DEFAULT_FRAME_COLUMNS);
    assert_eq!(SPRITESHEET_HEIGHT, DEFAULT_FRAME_HEIGHT * DEFAULT_FRAME_ROWS);
    assert_eq!((SPRITESHEET_WIDTH, SPRITESHEET_HEIGHT), (1536, 1872));
}
