use dodge_the_creeps::hud::{message_text, HudAction, Message, OverStage, HUD};

#[test]
fn fixed_message_texts() {
    assert_eq!(message_text(Message::GetReady), "Get Ready");
    assert_eq!(message_text(Message::GameOver), "Game Over");
    assert_eq!(message_text(Message::Title), "Dodge The Creeps!");
}

#[test]
fn fresh_display() {
    let h = HUD::new();
    assert_eq!(h.message, "");
    assert!(!h.message_visible);
    assert!(!h.message_timer_running);
    assert_eq!(h.score_shown, 0);
    assert!(h.start_button_visible);
    assert_eq!(h.over_stage, OverStage::Inactive);
}

#[test]
fn fading_message_starts_the_timer() {
    let mut h = HUD::new();
    let acts = h.show_message("Get Ready", true);
    assert_eq!(h.message, "Get Ready");
    assert!(h.message_visible);
    assert!(h.message_timer_running);
    assert_eq!(
        acts,
        vec![HudAction::ShowMessageLabel, HudAction::StartMessageTimer]
    );
}

#[test]
fn steady_message_leaves_the_timer_alone() {
    let mut h = HUD::new();
    let acts = h.show_message("Dodge The Creeps!", false);
    assert_eq!(h.message, "Dodge The Creeps!");
    assert!(h.message_visible);
    assert!(!h.message_timer_running);
    assert_eq!(acts, vec![HudAction::ShowMessageLabel]);
}

#[test]
fn score_goes_on_the_label() {
    let mut h = HUD::new();
    h.update_score(37);
    assert_eq!(h.score_shown, 37);
    h.update_score(0);
    assert_eq!(h.score_shown, 0);
}

#[test]
fn message_timer_hides_the_message() {
    let mut h = HUD::new();
    let _ = h.show_message("Get Ready", true);
    let acts = h.on_message_timer_timeout();
    assert!(!h.message_visible);
    assert_eq!(acts, vec![HudAction::HideMessageLabel]);
}

#[test]
fn start_button_requests_a_game() {
    let mut h = HUD::new();
    let acts = h.on_start_button_pressed();
    assert!(!h.start_button_visible);
    assert_eq!(
        acts,
        vec![HudAction::HideStartButton, HudAction::EmitStartGame]
    );
}

#[test]
fn game_over_sequence() {
    let mut h = HUD::new();
    let _ = h.on_start_button_pressed();
    h.update_score(12);

    let acts = h.show_game_over();
    assert_eq!(h.message, "Game Over");
    assert!(h.message_visible);
    assert!(h.message_timer_running);
    assert_eq!(h.over_stage, OverStage::MessageShown);
    assert_eq!(
        acts,
        vec![HudAction::ShowMessageLabel, HudAction::StartMessageTimer]
    );

    // The message timer fires: the host hides the message and resumes the
    // sequence, which puts the title back up.
    let _ = h.on_message_timer_timeout();
    let acts = h.on_game_over_message_timeout();
    assert_eq!(h.message, "Dodge The Creeps!");
    assert!(h.message_visible);
    assert_eq!(h.over_stage, OverStage::TitleShown);
    assert_eq!(
        acts,
        vec![HudAction::ShowMessageLabel, HudAction::StartGameOverPause]
    );

    // The one-second pause elapses: the start button returns.
    let acts = h.on_game_over_pause_timeout();
    assert!(h.start_button_visible);
    assert_eq!(h.over_stage, OverStage::Inactive);
    assert_eq!(acts, vec![HudAction::ShowStartButton]);

    // The score was never touched along the way.
    assert_eq!(h.score_shown, 12);
}
