use vstd::prelude::*;

verus! {

/// A node operation the host must perform on the coordinator's behalf, in
/// the order given.
#[derive(Clone, Copy, Debug, PartialEq, Eq, Structural)]
pub enum MainAction {
    /// Start the player at the start marker (its start handler runs).
    StartPlayer,
    /// Start the one-shot timer that delays mob spawning after a new game.
    StartStartTimer,
    /// Show this score on the heads-up display.
    UpdateScoreDisplay(i32),
    /// Show the "Get Ready" message on the heads-up display, fading.
    ShowGetReadyMessage,
    /// Start the background music.
    PlayMusic,
    /// Free every mob still in the scene.
    ClearMobs,
    /// Stop the timer that raises the score.
    StopScoreTimer,
    /// Set the mob spawn timer's wait to this many seconds.
    SetSpawnWaitSeconds(u32),
    /// Set the mob spawn timer's wait to 100 / speed seconds, so spawning
    /// quickens as the mobs do.
    SetSpawnWaitForSpeed(i32),
    /// Start the mob spawn timer.
    StartSpawnTimer,
    /// Stop the timer that raises the mob speed.
    StopSpeedTimer,
    /// Start the timer that raises the mob speed.
    StartSpeedTimer,
    /// Start the timer that raises the score.
    StartScoreTimer,
    /// Stop the background music.
    StopMusic,
    /// Play the death sound.
    PlayDeathSound,
    /// Run the heads-up display's game-over sequence.
    ShowGameOver,
}

/// The game coordinator: owns the score and the mob speed ramp, and decides
/// what the host must do on each timer tick and signal.
pub struct Main {
    /// Points scored in the current round.
    pub score: i32,
    /// Base speed given to newly spawned mobs, in pixels per second.
    pub mob_speed: i32,
}

/// The coordinator's invariant: the score never goes negative and the mob
/// speed never drops below its base value.
pub open spec fn main_wf(m: Main) -> bool {
    m.score >= 0 && m.mob_speed >= 100
}

impl Main {
    /// A freshly initialized coordinator: no points, base mob speed.
    pub fn new() -> (r: Main)
        ensures
            r.score == 0,
            r.mob_speed == 100,
            main_wf(r),
    {
        Main { score: 0, mob_speed: 100 }
    }

    /// On entering the scene tree, mobs start spawning slowly behind the
    /// title screen.
    pub fn on_ready(&self) -> (acts: Vec<MainAction>)
        ensures
            acts@ == seq![
                MainAction::SetSpawnWaitSeconds(3),
                MainAction::StartSpawnTimer,
            ],
    {
        let mut acts: Vec<MainAction> = Vec::new();
        acts.push(MainAction::SetSpawnWaitSeconds(3));
        acts.push(MainAction::StartSpawnTimer);
        proof {
            assert(acts@ =~= seq![
                MainAction::SetSpawnWaitSeconds(3),
                MainAction::StartSpawnTimer,
            ]);
        }
        acts
    }

    /// Starts a round: the score and the mob speed go back to their base
    /// values, the player is placed and shown, the start delay begins, the
    /// display resets, the music starts, and leftover mobs are cleared.
    pub fn new_game(&mut self) -> (acts: Vec<MainAction>)
        ensures
            final(self).score == 0,
            final(self).mob_speed == 100,
            main_wf(*final(self)),
            acts@ == seq![
                MainAction::StartPlayer,
                MainAction::StartStartTimer,
                MainAction::UpdateScoreDisplay(0),
                MainAction::ShowGetReadyMessage,
                MainAction::PlayMusic,
                MainAction::ClearMobs,
            ],
    {
        self.score = 0;
        self.mob_speed = 100;
        let mut acts: Vec<MainAction> = Vec::new();
        acts.push(MainAction::StartPlayer);
        acts.push(MainAction::StartStartTimer);
        acts.push(MainAction::UpdateScoreDisplay(self.score));
        acts.push(MainAction::ShowGetReadyMessage);
        acts.push(MainAction::PlayMusic);
        acts.push(MainAction::ClearMobs);
        proof {
            assert(acts@ =~= seq![
                MainAction::StartPlayer,
                MainAction::StartStartTimer,
                MainAction::UpdateScoreDisplay(0),
                MainAction::ShowGetReadyMessage,
                MainAction::PlayMusic,
                MainAction::ClearMobs,
            ]);
        }
        acts
    }

    /// Ends a round: scoring and the speed ramp stop, mobs keep spawning
    /// slowly behind the game-over screen, the music gives way to the death
    /// sound, and the heads-up display runs its game-over sequence.
    /// The score keeps its final value so it stays on display.
    pub fn game_over(&mut self) -> (acts: Vec<MainAction>)
        ensures
            final(self).score == old(self).score,
            final(self).mob_speed == 100,
            old(self).score >= 0 ==> main_wf(*final(self)),
            acts@ == seq![
                MainAction::StopScoreTimer,
                MainAction::SetSpawnWaitSeconds(3),
                MainAction::StartSpawnTimer,
                MainAction::StopSpeedTimer,
                MainAction::StopMusic,
                MainAction::PlayDeathSound,
                MainAction::ShowGameOver,
            ],
    {
        self.mob_speed = 100;
        let mut acts: Vec<MainAction> = Vec::new();
        acts.push(MainAction::StopScoreTimer);
        acts.push(MainAction::SetSpawnWaitSeconds(3));
        acts.push(MainAction::StartSpawnTimer);
        acts.push(MainAction::StopSpeedTimer);
        acts.push(MainAction::StopMusic);
        acts.push(MainAction::PlayDeathSound);
        acts.push(MainAction::ShowGameOver);
        proof {
            assert(acts@ =~= seq![
                MainAction::StopScoreTimer,
                MainAction::SetSpawnWaitSeconds(3),
                MainAction::StartSpawnTimer,
                MainAction::StopSpeedTimer,
                MainAction::StopMusic,
                MainAction::PlayDeathSound,
                MainAction::ShowGameOver,
            ]);
        }
        acts
    }

    /// The player announced a hit: the round ends.
    pub fn on_player_hit(&mut self) -> (acts: Vec<MainAction>)
        ensures
            final(self).score == old(self).score,
            final(self).mob_speed == 100,
            old(self).score >= 0 ==> main_wf(*final(self)),
            acts@ == seq![
                MainAction::StopScoreTimer,
                MainAction::SetSpawnWaitSeconds(3),
                MainAction::StartSpawnTimer,
                MainAction::StopSpeedTimer,
                MainAction::StopMusic,
                MainAction::PlayDeathSound,
                MainAction::ShowGameOver,
            ],
    {
        self.game_over()
    }

    /// The heads-up display requested a start: a round begins.
    pub fn on_hud_start_game(&mut self) -> (acts: Vec<MainAction>)
        ensures
            final(self).score == 0,
            final(self).mob_speed == 100,
            main_wf(*final(self)),
            acts@ == seq![
                MainAction::StartPlayer,
                MainAction::StartStartTimer,
                MainAction::UpdateScoreDisplay(0),
                MainAction::ShowGetReadyMessage,
                MainAction::PlayMusic,
                MainAction::ClearMobs,
            ],
    {
        self.new_game()
    }

    /// The start delay elapsed: the speed ramp, quick spawning, and scoring
    /// all begin.
    pub fn on_start_timer_timeout(&self) -> (acts: Vec<MainAction>)
        ensures
            acts@ == seq![
                MainAction::StartSpeedTimer,
                MainAction::SetSpawnWaitSeconds(1),
                MainAction::StartSpawnTimer,
                MainAction::StartScoreTimer,
            ],
    {
        let mut acts: Vec<MainAction> = Vec::new();
        acts.push(MainAction::StartSpeedTimer);
        acts.push(MainAction::SetSpawnWaitSeconds(1));
        acts.push(MainAction::StartSpawnTimer);
        acts.push(MainAction::StartScoreTimer);
        proof {
            assert(acts@ =~= seq![
                MainAction::StartSpeedTimer,
                MainAction::SetSpawnWaitSeconds(1),
                MainAction::StartSpawnTimer,
                MainAction::StartScoreTimer,
            ]);
        }
        acts
    }

    /// A speed tick: mobs get faster and the spawn timer tightens to match.
    pub fn on_mob_speed_timer_timeout(&mut self) -> (acts: Vec<MainAction>)
        requires
            old(self).mob_speed <= i32::MAX - 10,
        ensures
            final(self).mob_speed == old(self).mob_speed + 10,
            final(self).score == old(self).score,
            main_wf(*old(self)) ==> main_wf(*final(self)),
            acts@ == seq![
                MainAction::SetSpawnWaitForSpeed((old(self).mob_speed + 10) as i32),
            ],
    {
        self.mob_speed = self.mob_speed + 10;
        let mut acts: Vec<MainAction> = Vec::new();
        acts.push(MainAction::SetSpawnWaitForSpeed(self.mob_speed));
        proof {
            assert(acts@ =~= seq![
                MainAction::SetSpawnWaitForSpeed((old(self).mob_speed + 10) as i32),
            ]);
        }
        acts
    }

    /// A score tick: one more point, shown at once.
    pub fn on_score_timer_timeout(&mut self) -> (acts: Vec<MainAction>)
        requires
            old(self).score < i32::MAX,
        ensures
            final(self).score == old(self).score + 1,
            final(self).mob_speed == old(self).mob_speed,
            main_wf(*old(self)) ==> main_wf(*final(self)),
            acts@ == seq![
                MainAction::UpdateScoreDisplay((old(self).score + 1) as i32),
            ],
    {
        self.score = self.score + 1;
        let mut acts: Vec<MainAction> = Vec::new();
        acts.push(MainAction::UpdateScoreDisplay(self.score));
        proof {
            assert(acts@ =~= seq![
                MainAction::UpdateScoreDisplay((old(self).score + 1) as i32),
            ]);
        }
        acts
    }
}

} // verus!
