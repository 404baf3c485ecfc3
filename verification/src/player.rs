use vstd::prelude::*;

verus! {

/// Which of the four movement actions the host's input layer reports as held
/// during the current frame.
#[derive(Clone, Copy, Debug, PartialEq, Eq, Structural)]
pub struct DirectionalInput {
    pub right: bool,
    pub left: bool,
    pub up: bool,
    pub down: bool,
}

/// Horizontal movement axis: `left` overrides `right` when both are held.
pub open spec fn spec_axis_x(input: DirectionalInput) -> int {
    if input.left {
        -1
    } else if input.right {
        1
    } else {
        0
    }
}

/// Vertical movement axis: `down` overrides `up` when both are held.
/// Negative is up, matching a screen-space y axis that grows downward.
pub open spec fn spec_axis_y(input: DirectionalInput) -> int {
    if input.down {
        1
    } else if input.up {
        -1
    } else {
        0
    }
}

/// Turns the held movement actions into a unit step on each axis.
/// The host scales and normalizes this pair into an actual velocity.
pub fn movement_axes(input: DirectionalInput) -> (r: (i8, i8))
    ensures
        r.0 == spec_axis_x(input),
        r.1 == spec_axis_y(input),
{
    let mut x: i8 = 0;
    let mut y: i8 = 0;
    if input.right {
        x = 1;
    }
    if input.left {
        x = -1;
    }
    if input.up {
        y = -1;
    }
    if input.down {
        y = 1;
    }
    (x, y)
}

/// What the player's animated sprite should do for a given movement direction.
#[derive(Clone, Copy, Debug, PartialEq, Eq, Structural)]
pub enum SpriteCue {
    /// Play the sideways walk animation, mirrored horizontally when moving left.
    Walk { flip_h: bool },
    /// Play the upward animation, mirrored vertically when moving down.
    Up { flip_v: bool },
    /// Stop the animation.
    Stop,
}

/// The animation choice for a movement direction: horizontal movement wins
/// over vertical, and standing still stops the animation.
pub open spec fn spec_sprite_cue(x: int, y: int) -> SpriteCue {
    if x != 0 {
        SpriteCue::Walk { flip_h: x < 0 }
    } else if y != 0 {
        SpriteCue::Up { flip_v: y > 0 }
    } else {
        SpriteCue::Stop
    }
}

/// Whether the sprite is animating at all for this direction; the dust
/// particle emitter runs exactly when it is.
pub open spec fn spec_particles_emitting(x: int, y: int) -> bool {
    x != 0 || y != 0
}

/// Picks the sprite animation for a movement direction.
pub fn sprite_cue(x: i8, y: i8) -> (r: SpriteCue)
    ensures
        r == spec_sprite_cue(x as int, y as int),
        (r != SpriteCue::Stop) == spec_particles_emitting(x as int, y as int),
{
    if x != 0 {
        SpriteCue::Walk { flip_h: x < 0 }
    } else if y != 0 {
        SpriteCue::Up { flip_v: y > 0 }
    } else {
        SpriteCue::Stop
    }
}

/// A node operation the host must perform on the player's behalf, in the
/// order given.
#[derive(Clone, Copy, Debug, PartialEq, Eq, Structural)]
pub enum PlayerAction {
    /// Move the player node to the start marker's position.
    MoveToStartPosition,
    /// Show the player node.
    Show,
    /// Enable the collision shape (deferred until the end of the frame).
    EnableCollision,
    /// Restart the trail particle emitter.
    RestartParticles,
    /// Hide the player node.
    Hide,
    /// Emit the player's hit signal.
    EmitHit,
    /// Disable the collision shape (deferred until the end of the frame).
    DisableCollision,
}

/// The player's own state: its configured speed and the parts of the bound
/// scene node that its handlers decide about.
pub struct Player {
    /// Movement speed in pixels per second; the host multiplies the
    /// normalized direction by it.
    pub speed: i16,
    /// Whether the player node is shown.
    pub visible: bool,
    /// Whether the player's collision shape is active.
    pub collision_enabled: bool,
}

impl Player {
    /// A freshly initialized player: default speed, visible in the scene
    /// with its collision shape active, as the scene file places it.
    pub fn new() -> (r: Player)
        ensures
            r.speed == 400,
            r.visible,
            r.collision_enabled,
    {
        Player { speed: 400, visible: true, collision_enabled: true }
    }

    /// On entering the scene tree the player hides until a game starts.
    pub fn on_ready(&mut self)
        ensures
            !final(self).visible,
            final(self).speed == old(self).speed,
            final(self).collision_enabled == old(self).collision_enabled,
    {
        self.visible = false;
    }

    /// A new game begins: the player is placed at the start marker, shown,
    /// made collidable again, and its particle trail restarts.
    pub fn start(&mut self) -> (acts: Vec<PlayerAction>)
        ensures
            final(self).visible,
            final(self).collision_enabled,
            final(self).speed == old(self).speed,
            acts@ == seq![
                PlayerAction::MoveToStartPosition,
                PlayerAction::Show,
                PlayerAction::EnableCollision,
                PlayerAction::RestartParticles,
            ],
    {
        self.visible = true;
        self.collision_enabled = true;
        let mut acts: Vec<PlayerAction> = Vec::new();
        acts.push(PlayerAction::MoveToStartPosition);
        acts.push(PlayerAction::Show);
        acts.push(PlayerAction::EnableCollision);
        acts.push(PlayerAction::RestartParticles);
        proof {
            assert(acts@ =~= seq![
                PlayerAction::MoveToStartPosition,
                PlayerAction::Show,
                PlayerAction::EnableCollision,
                PlayerAction::RestartParticles,
            ]);
        }
        acts
    }

    /// A body touched the player: it hides, announces the hit, and turns its
    /// collision shape off so the hit cannot fire twice.
    pub fn on_body_entered(&mut self) -> (acts: Vec<PlayerAction>)
        ensures
            !final(self).visible,
            !final(self).collision_enabled,
            final(self).speed == old(self).speed,
            acts@ == seq![
                PlayerAction::Hide,
                PlayerAction::EmitHit,
                PlayerAction::DisableCollision,
            ],
    {
        self.visible = false;
        self.collision_enabled = false;
        let mut acts: Vec<PlayerAction> = Vec::new();
        acts.push(PlayerAction::Hide);
        acts.push(PlayerAction::EmitHit);
        acts.push(PlayerAction::DisableCollision);
        proof {
            assert(acts@ =~= seq![
                PlayerAction::Hide,
                PlayerAction::EmitHit,
                PlayerAction::DisableCollision,
            ]);
        }
        acts
    }
}

} // verus!
