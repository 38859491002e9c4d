use fsel::keys::{
    clip_key_effect, key_action, launcher_key_action, menu_key_action, BindingMatches,
    ClipEffect, ClipKeyAction, KeyKind, KeyPress, LauncherKeyAction, MenuKeyAction,
};

fn none() -> BindingMatches {
    BindingMatches {
        exit: false,
        select: false,
        up: false,
        down: false,
        left: false,
        right: false,
        backspace: false,
        pin: false,
        hide: false,
        unhide_last: false,
        image_preview: false,
        tag: false,
        tag_removal: false,
        cclip_delete: false,
    }
}

fn press(kind: KeyKind, ctrl: bool, alt: bool) -> KeyPress {
    KeyPress {
        kind,
        shift: false,
        ctrl,
        alt,
        other: false,
    }
}

#[test]
fn configured_navigation_is_classified_before_text_input() {
    let alt_j = press(KeyKind::Char('j'), false, true);
    assert_eq!(
        key_action(&BindingMatches { down: true, ..none() }, alt_j),
        ClipKeyAction::Down
    );
    let alt_k = press(KeyKind::Char('k'), false, true);
    assert_eq!(
        key_action(&BindingMatches { up: true, ..none() }, alt_k),
        ClipKeyAction::Up
    );
}

#[test]
fn replaced_navigation_does_not_keep_default_bindings() {
    assert_eq!(
        key_action(&none(), press(KeyKind::Other, false, false)),
        ClipKeyAction::Ignore
    );
    assert_eq!(
        key_action(&none(), press(KeyKind::Char('n'), true, false)),
        ClipKeyAction::Ignore
    );
    let shifted = KeyPress {
        kind: KeyKind::Char('N'),
        shift: true,
        ctrl: false,
        alt: false,
        other: false,
    };
    assert_eq!(key_action(&none(), shifted), ClipKeyAction::Input('N'));
}

#[test]
fn clipboard_bindings_follow_their_precedence() {
    let all = BindingMatches {
        exit: true,
        select: true,
        image_preview: true,
        tag: true,
        ..none()
    };
    let k = press(KeyKind::Other, false, false);
    assert_eq!(key_action(&all, k), ClipKeyAction::ImagePreview);
    assert_eq!(
        key_action(&BindingMatches { exit: true, select: true, ..none() }, k),
        ClipKeyAction::Exit
    );
}

#[test]
fn clipboard_effects_depend_on_the_tag_prompt_and_rotation() {
    assert_eq!(clip_key_effect(ClipKeyAction::Exit, true, 0), ClipEffect::Exit);
    assert_eq!(clip_key_effect(ClipKeyAction::Exit, false, 0), ClipEffect::LeaveTagPrompt);
    assert_eq!(clip_key_effect(ClipKeyAction::Select, false, 0), ClipEffect::SubmitTagPrompt);
    assert_eq!(clip_key_effect(ClipKeyAction::Delete, false, 0), ClipEffect::Nothing);
    assert_eq!(clip_key_effect(ClipKeyAction::Down, true, 180), ClipEffect::StepUp);
    assert_eq!(clip_key_effect(ClipKeyAction::Up, true, 90), ClipEffect::StepUp);
    assert_eq!(clip_key_effect(ClipKeyAction::Input('x'), false, 0), ClipEffect::PushChar('x'));
}

#[test]
fn dmenu_arrows_depend_on_orientation() {
    let k = press(KeyKind::Other, false, false);
    let left = BindingMatches { left: true, ..none() };
    assert_eq!(menu_key_action(&left, k, true), MenuKeyAction::Step(-1));
    assert_eq!(menu_key_action(&left, k, false), MenuKeyAction::First);
    let right = BindingMatches { right: true, ..none() };
    assert_eq!(menu_key_action(&right, k, false), MenuKeyAction::Last);
    assert_eq!(
        menu_key_action(&none(), press(KeyKind::Char('a'), false, false), false),
        MenuKeyAction::Input('a')
    );
    assert_eq!(
        menu_key_action(&BindingMatches { select: true, backspace: true, ..none() }, k, false),
        MenuKeyAction::Submit
    );
}

#[test]
fn launcher_keys_and_control_c() {
    let ctrl_c = press(KeyKind::Char('c'), true, false);
    assert_eq!(launcher_key_action(&none(), ctrl_c), (LauncherKeyAction::Tick, true));
    assert_eq!(
        launcher_key_action(&BindingMatches { exit: true, ..none() }, ctrl_c),
        (LauncherKeyAction::Exit, false)
    );
    assert_eq!(
        launcher_key_action(&BindingMatches { pin: true, ..none() }, ctrl_c),
        (LauncherKeyAction::TogglePin, false)
    );
    assert_eq!(
        launcher_key_action(&none(), press(KeyKind::Tab, false, false)),
        (LauncherKeyAction::MoveDown, false)
    );
    assert_eq!(
        launcher_key_action(&none(), press(KeyKind::Char('é'), false, false)),
        (LauncherKeyAction::CharInput('é'), false)
    );
    assert_eq!(
        launcher_key_action(&BindingMatches { left: true, ..none() }, press(KeyKind::Other, false, false)),
        (LauncherKeyAction::MoveUp, false)
    );
}
