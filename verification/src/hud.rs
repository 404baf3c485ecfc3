use vstd::prelude::*;

verus! {

/// The fixed texts the heads-up display shows.
#[derive(Clone, Copy, Debug, PartialEq, Eq, Structural)]
pub enum Message {
    /// Shown, fading, when a round is about to begin.
    GetReady,
    /// Shown, fading, when a round ends.
    GameOver,
    /// The title, shown after the game-over message fades.
    Title,
}

/// The display text belonging to each fixed message.
pub open spec fn spec_message_text(m: Message) -> Seq<char> {
    match m {
        Message::GetReady => "Get Ready"@,
        Message::GameOver => "Game Over"@,
        Message::Title => "Dodge The Creeps!"@,
    }
}

/// The display text belonging to each fixed message.
pub fn message_text(m: Message) -> (r: &'static str)
    ensures
        r@ == spec_message_text(m),
{
    match m {
        Message::GetReady => "Get Ready",
        Message::GameOver => "Game Over",
        Message::Title => "Dodge The Creeps!",
    }
}

/// Where the display stands in its game-over sequence.
#[derive(Clone, Copy, Debug, PartialEq, Eq, Structural)]
pub enum OverStage {
    /// No game-over sequence is running.
    Inactive,
    /// The game-over message is up; waiting for the message timer.
    MessageShown,
    /// The title is back up; waiting for the short pause to elapse.
    TitleShown,
}

/// A node operation the host must perform on the display's behalf, in the
/// order given.
#[derive(Clone, Copy, Debug, PartialEq, Eq, Structural)]
pub enum HudAction {
    /// Put the display's current message text on the message label and show it.
    ShowMessageLabel,
    /// Start the timer that fades the message out.
    StartMessageTimer,
    /// Hide the message label.
    HideMessageLabel,
    /// Hide the start button.
    HideStartButton,
    /// Emit the start-requested signal.
    EmitStartGame,
    /// Show the start button.
    ShowStartButton,
    /// Start the one-second pause before the start button returns.
    StartGameOverPause,
}

/// The heads-up display: the message label, the score label, and the start
/// button, together with where it stands in the game-over sequence.
pub struct HUD {
    /// The text currently on the message label.
    pub message: String,
    /// Whether the message label is shown.
    pub message_visible: bool,
    /// Whether the fade-out timer for the message is running.
    pub message_timer_running: bool,
    /// The score currently on the score label.
    pub score_shown: i32,
    /// Whether the start button is shown.
    pub start_button_visible: bool,
    /// Where the game-over sequence stands.
    pub over_stage: OverStage,
}

impl HUD {
    /// A freshly initialized display: nothing on the message label, no score
    /// yet, the start button up, no game-over sequence running.
    pub fn new() -> (r: HUD)
        ensures
            r.message@.len() == 0,
            !r.message_visible,
            !r.message_timer_running,
            r.score_shown == 0,
            r.start_button_visible,
            r.over_stage == OverStage::Inactive,
    {
        HUD {
            message: String::new(),
            message_visible: false,
            message_timer_running: false,
            score_shown: 0,
            start_button_visible: true,
            over_stage: OverStage::Inactive,
        }
    }

    /// Puts a text on the message label and shows it; a fading message also
    /// starts the timer that will hide it again.
    pub fn show_message(&mut self, text: &str, fade: bool) -> (acts: Vec<HudAction>)
        ensures
            final(self).message@ == text@,
            final(self).message_visible,
            fade ==> final(self).message_timer_running,
            !fade ==> final(self).message_timer_running == old(self).message_timer_running,
            final(self).score_shown == old(self).score_shown,
            final(self).start_button_visible == old(self).start_button_visible,
            final(self).over_stage == old(self).over_stage,
            acts@ == (if fade {
                seq![HudAction::ShowMessageLabel, HudAction::StartMessageTimer]
            } else {
                seq![HudAction::ShowMessageLabel]
            }),
    {
        self.message = text.to_owned();
        self.message_visible = true;
        let mut acts: Vec<HudAction> = Vec::new();
        acts.push(HudAction::ShowMessageLabel);
        if fade {
            self.message_timer_running = true;
            acts.push(HudAction::StartMessageTimer);
            proof {
                assert(acts@ =~= seq![
                    HudAction::ShowMessageLabel,
                    HudAction::StartMessageTimer,
                ]);
            }
        } else {
            proof {
                assert(acts@ =~= seq![HudAction::ShowMessageLabel]);
            }
        }
        acts
    }

    /// Puts a score on the score label.
    pub fn update_score(&mut self, score: i32)
        ensures
            final(self).score_shown == score,
            final(self).message == old(self).message,
            final(self).message_visible == old(self).message_visible,
            final(self).message_timer_running == old(self).message_timer_running,
            final(self).start_button_visible == old(self).start_button_visible,
            final(self).over_stage == old(self).over_stage,
    {
        self.score_shown = score;
    }

    /// Begins the game-over sequence: the game-over message goes up, fading,
    /// and the display waits for the message timer.
    pub fn show_game_over(&mut self) -> (acts: Vec<HudAction>)
        ensures
            final(self).message@ == spec_message_text(Message::GameOver),
            final(self).message_visible,
            final(self).message_timer_running,
            final(self).score_shown == old(self).score_shown,
            final(self).start_button_visible == old(self).start_button_visible,
            final(self).over_stage == OverStage::MessageShown,
            acts@ == seq![HudAction::ShowMessageLabel, HudAction::StartMessageTimer],
    {
        let acts = self.show_message(message_text(Message::GameOver), true);
        self.over_stage = OverStage::MessageShown;
        acts
    }

    /// The message timer fired while the game-over message was up: the title
    /// returns, without fading, and the short pause before the start button
    /// begins.
    pub fn on_game_over_message_timeout(&mut self) -> (acts: Vec<HudAction>)
        requires
            old(self).over_stage == OverStage::MessageShown,
        ensures
            final(self).message@ == spec_message_text(Message::Title),
            final(self).message_visible,
            final(self).message_timer_running == old(self).message_timer_running,
            final(self).score_shown == old(self).score_shown,
            final(self).start_button_visible == old(self).start_button_visible,
            final(self).over_stage == OverStage::TitleShown,
            acts@ == seq![HudAction::ShowMessageLabel, HudAction::StartGameOverPause],
    {
        let mut acts = self.show_message(message_text(Message::Title), false);
        acts.push(HudAction::StartGameOverPause);
        self.over_stage = OverStage::TitleShown;
        proof {
            assert(acts@ =~= seq![
                HudAction::ShowMessageLabel,
                HudAction::StartGameOverPause,
            ]);
        }
        acts
    }

    /// The pause after the game-over sequence elapsed: the start button
    /// returns and the sequence is over.
    pub fn on_game_over_pause_timeout(&mut self) -> (acts: Vec<HudAction>)
        requires
            old(self).over_stage == OverStage::TitleShown,
        ensures
            final(self).start_button_visible,
            final(self).message == old(self).message,
            final(self).message_visible == old(self).message_visible,
            final(self).message_timer_running == old(self).message_timer_running,
            final(self).score_shown == old(self).score_shown,
            final(self).over_stage == OverStage::Inactive,
            acts@ == seq![HudAction::ShowStartButton],
    {
        self.start_button_visible = true;
        self.over_stage = OverStage::Inactive;
        let mut acts: Vec<HudAction> = Vec::new();
        acts.push(HudAction::ShowStartButton);
        proof {
            assert(acts@ =~= seq![HudAction::ShowStartButton]);
        }
        acts
    }

    /// The start button was pressed: it hides and the start request goes out.
    pub fn on_start_button_pressed(&mut self) -> (acts: Vec<HudAction>)
        ensures
            !final(self).start_button_visible,
            final(self).message == old(self).message,
            final(self).message_visible == old(self).message_visible,
            final(self).message_timer_running == old(self).message_timer_running,
            final(self).score_shown == old(self).score_shown,
            final(self).over_stage == old(self).over_stage,
            acts@ == seq![HudAction::HideStartButton, HudAction::EmitStartGame],
    {
        self.start_button_visible = false;
        let mut acts: Vec<HudAction> = Vec::new();
        acts.push(HudAction::HideStartButton);
        acts.push(HudAction::EmitStartGame);
        proof {
            assert(acts@ =~= seq![
                HudAction::HideStartButton,
                HudAction::EmitStartGame,
            ]);
        }
        acts
    }

    /// The message's fade-out timer fired: the message label hides.
    pub fn on_message_timer_timeout(&mut self) -> (acts: Vec<HudAction>)
        ensures
            !final(self).message_visible,
            !final(self).message_timer_running,
            final(self).message == old(self).message,
            final(self).score_shown == old(self).score_shown,
            final(self).start_button_visible == old(self).start_button_visible,
            final(self).over_stage == old(self).over_stage,
            acts@ == seq![HudAction::HideMessageLabel],
    {
        self.message_visible = false;
        self.message_timer_running = false;
        let mut acts: Vec<HudAction> = Vec::new();
        acts.push(HudAction::HideMessageLabel);
        proof {
            assert(acts@ =~= seq![HudAction::HideMessageLabel]);
        }
        acts
    }
}

} // verus!
