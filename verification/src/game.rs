//! The rules of the game: what one tick does to the two paddles and the
//! ball, and who has won.

use vstd::prelude::*;
use crate::entity::{Entity, EntityModel, Size};
use crate::geometry::{Vec2, Vec2Model};
use crate::units::{
    div_away_from_zero, lemma_div_away_from_zero, sign_of, BALL_ACC, BALL_SPEED, COORD_LIMIT, PADDLE_MARGIN, PADDLE_SPEED,
    PADDLE_SPIN, WINDOW_HEIGHT, WINDOW_WIDTH,
};

verus! {

/// One of the two sides. Player one holds the left paddle, player two the
/// right one.
#[derive(Clone, Copy, Debug, PartialEq, Eq)]
pub enum Player {
    One,
    Two,
}

impl Player {
    /// The line that announces this player's victory.
    pub fn announcement(&self) -> (text: &'static str)
        ensures
            text@ == (match *self {
                Player::One => "Player 1 wins!"@,
                Player::Two => "Player 2 wins!"@,
            }),
    {
        match self {
            Player::One => "Player 1 wins!",
            Player::Two => "Player 2 wins!",
        }
    }
}

/// The keys that are held during one tick.
#[derive(Clone, Copy, Debug, PartialEq, Eq)]
pub struct Input {
    pub player1_up: bool,
    pub player1_down: bool,
    pub player2_up: bool,
    pub player2_down: bool,
}

impl Input {
    /// Whether the given player's up key is held.
    pub open spec fn up(self, player: Player) -> bool {
        match player {
            Player::One => self.player1_up,
            Player::Two => self.player2_up,
        }
    }

    /// Whether the given player's down key is held.
    pub open spec fn down(self, player: Player) -> bool {
        match player {
            Player::One => self.player1_down,
            Player::Two => self.player2_down,
        }
    }

    /// No key held.
    pub fn idle() -> (input: Input)
        ensures
            !input.player1_up,
            !input.player1_down,
            !input.player2_up,
            !input.player2_down,
    {
        Input { player1_up: false, player1_down: false, player2_up: false, player2_down: false }
    }
}

/// Vertical displacement of a paddle in one tick. The two keys act
/// independently: held together they cancel.
pub open spec fn paddle_shift_of(up: bool, down: bool) -> int {
    (if up { -PADDLE_SPEED } else { 0int }) + (if down { PADDLE_SPEED as int } else { 0int })
}

/// Horizontal velocity of the ball after a paddle hit: reversed, and faster
/// by [`BALL_ACC`] unless the ball had no horizontal motion at all.
pub open spec fn rebound_of(vx: int) -> int {
    -(vx + BALL_ACC * sign_of(vx))
}

/// Vertical velocity that a paddle adds to a ball it hits, given the height
/// of the two centres and the paddle's height: [`PADDLE_SPIN`] times the
/// distance of the ball's centre below the paddle's centre, as a fraction of
/// the paddle's height. The quotient is rounded away from zero, so every hit
/// off centre tells: a ball that is hit above the paddle's centre is sent
/// upward, one below it downward, by one unit at the least.
pub open spec fn spin_of(paddle_centre_y: int, ball_centre_y: int, paddle_height: int) -> int {
    div_away_from_zero(PADDLE_SPIN * (ball_centre_y - paddle_centre_y), paddle_height)
}

/// Whether the ball touches or has crossed the top or the bottom of the
/// field.
pub open spec fn touches_wall(ball: EntityModel) -> bool {
    ball.position.y <= 0 || ball.position.y + ball.height >= WINDOW_HEIGHT
}

/// What a [`GameState`] stands for.
pub struct GameModel {
    pub player1: EntityModel,
    pub player2: EntityModel,
    pub ball: EntityModel,
}

impl GameModel {
    /// A state is well formed when its three entities are.
    pub open spec fn wf(self) -> bool {
        self.player1.wf() && self.player2.wf() && self.ball.wf()
    }

    /// The paddle of the given player.
    pub open spec fn paddle(self, player: Player) -> EntityModel {
        match player {
            Player::One => self.player1,
            Player::Two => self.player2,
        }
    }

    /// The given player's paddle, moved as that player's keys say.
    pub open spec fn moved_paddle(self, player: Player, input: Input) -> EntityModel {
        let paddle = self.paddle(player);
        EntityModel {
            position: Vec2Model {
                x: paddle.position.x,
                y: paddle.position.y + paddle_shift_of(input.up(player), input.down(player)),
            },
            ..paddle
        }
    }

    /// First phase of a tick: each paddle moves as its keys say. Nothing
    /// keeps a paddle inside the field.
    pub open spec fn move_paddles(self, input: Input) -> GameModel {
        GameModel {
            player1: self.moved_paddle(Player::One, input),
            player2: self.moved_paddle(Player::Two, input),
            ball: self.ball,
        }
    }

    /// The paddle that the ball overlaps, if any. Player one's paddle is
    /// tried first, so it is the one hit should the ball overlap both.
    pub open spec fn paddle_hit(self) -> Option<Player> {
        if self.ball.bounds().intersects(self.player1.bounds()) {
            Some(Player::One)
        } else if self.ball.bounds().intersects(self.player2.bounds()) {
            Some(Player::Two)
        } else {
            None
        }
    }

    /// Second phase: a ball that overlaps a paddle is turned back and given
    /// spin. Its position is untouched.
    pub open spec fn deflect(self) -> GameModel {
        match self.paddle_hit() {
            Some(player) => GameModel {
                ball: EntityModel {
                    velocity: Vec2Model {
                        x: rebound_of(self.ball.velocity.x),
                        y: self.ball.velocity.y + spin_of(
                            self.paddle(player).centre().y,
                            self.ball.centre().y,
                            self.paddle(player).height,
                        ),
                    },
                    ..self.ball
                },
                ..self
            },
            None => self,
        }
    }

    /// Third phase: the ball moves by its velocity, hit or not.
    pub open spec fn advance_ball(self) -> GameModel {
        GameModel { ball: self.ball.advance(), ..self }
    }

    /// Fourth phase: a ball that has reached the top or the bottom of the
    /// field has its vertical velocity reversed. Its position is not
    /// corrected.
    pub open spec fn bounce_off_walls(self) -> GameModel {
        if touches_wall(self.ball) {
            GameModel {
                ball: EntityModel {
                    velocity: Vec2Model { x: self.ball.velocity.x, y: -self.ball.velocity.y },
                    ..self.ball
                },
                ..self
            }
        } else {
            self
        }
    }

    /// The state one tick later.
    pub open spec fn step(self, input: Input) -> GameModel {
        self.move_paddles(input).deflect().advance_ball().bounce_off_walls()
    }

    /// The state after one tick for each entry of `inputs`, in their order.
    pub open spec fn run(self, inputs: Seq<Input>) -> GameModel
        decreases inputs.len(),
    {
        if inputs.len() == 0 {
            self
        } else {
            self.run(inputs.drop_last()).step(inputs.last())
        }
    }

    /// Who has won in this state: player two once the ball's left edge is
    /// past the left end of the field, player one once its right edge is
    /// past the right end. A ball that just touches an end is still in play.
    pub open spec fn winner(self) -> Option<Player> {
        if self.ball.position.x < 0 {
            Some(Player::Two)
        } else if self.ball.position.x + self.ball.width > WINDOW_WIDTH {
            Some(Player::One)
        } else {
            None
        }
    }

    /// The state in which a match starts, for entities of the given sizes:
    /// the paddles at rest, [`PADDLE_MARGIN`] from the left and right ends
    /// and half way down; the ball in the middle of the field, moving left
    /// at [`BALL_SPEED`].
    pub open spec fn initial(player1_size: Size, player2_size: Size, ball_size: Size) -> GameModel {
        let player1 = EntityModel::at_rest(player1_size);
        let player2 = EntityModel::at_rest(player2_size);
        let ball = EntityModel::at_rest(ball_size);
        GameModel {
            player1: EntityModel {
                position: Vec2Model {
                    x: PADDLE_MARGIN as int,
                    y: (WINDOW_HEIGHT - player1.height) / 2,
                },
                ..player1
            },
            player2: EntityModel {
                position: Vec2Model {
                    x: WINDOW_WIDTH - PADDLE_MARGIN,
                    y: (WINDOW_HEIGHT - player2.height) / 2,
                },
                ..player2
            },
            ball: EntityModel {
                position: Vec2Model {
                    x: (WINDOW_WIDTH - ball.width) / 2,
                    y: (WINDOW_HEIGHT - ball.height) / 2,
                },
                velocity: Vec2Model { x: -BALL_SPEED, y: 0 },
                ..ball
            },
        }
    }
}

/// Vertical displacement of a paddle in one tick, given its two keys.
pub fn paddle_shift(up: bool, down: bool) -> (shift: i64)
    ensures
        shift == paddle_shift_of(up, down),
{
    let mut shift: i64 = 0;
    if up {
        shift -= PADDLE_SPEED;
    }
    if down {
        shift += PADDLE_SPEED;
    }
    shift
}

/// Horizontal velocity of the ball after a paddle hit.
pub fn rebound(vx: i64) -> (turned: i64)
    requires
        i64::MIN + BALL_ACC < vx <= i64::MAX - BALL_ACC,
    ensures
        turned == rebound_of(vx as int),
{
    if vx > 0 {
        -(vx + BALL_ACC)
    } else if vx < 0 {
        -(vx - BALL_ACC)
    } else {
        0
    }
}

/// Vertical velocity that a paddle adds to a ball it hits. The product of
/// [`PADDLE_SPIN`] and the distance between the centres must be
/// representable.
pub fn spin(paddle_centre_y: i64, ball_centre_y: i64, paddle_height: i64) -> (added: i64)
    requires
        paddle_height > 0,
        i64::MIN <= PADDLE_SPIN * (ball_centre_y - paddle_centre_y) <= i64::MAX,
    ensures
        added == spin_of(paddle_centre_y as int, ball_centre_y as int, paddle_height as int),
{
    let offset: i64 = ball_centre_y - paddle_centre_y;
    let scaled: i64 = PADDLE_SPIN * offset;
    proof {
        lemma_div_away_from_zero(scaled as int, paddle_height as int);
    }
    if scaled > 0 {
        (scaled - 1) / paddle_height + 1
    } else if scaled < 0 {
        (scaled + 1) / paddle_height - 1
    } else {
        0
    }
}

/// Where a stretch of the given length starts when it lies in the middle of
/// a field of the given extent. Both are whole pixels here, so their
/// difference halves without remainder.
fn centred(extent: i64, length: i64) -> (start: i64)
    requires
        0 <= extent <= COORD_LIMIT,
        0 <= length <= COORD_LIMIT,
        (extent - length) % 2 == 0,
    ensures
        start == (extent - length) / 2,
        -COORD_LIMIT <= start <= COORD_LIMIT,
{
    (extent - length) / 2
}

/// The two paddles and the ball.
#[derive(Clone, Copy, Debug, PartialEq, Eq)]
pub struct GameState {
    pub player1: Entity,
    pub player2: Entity,
    pub ball: Entity,
}

impl View for GameState {
    type V = GameModel;

    open spec fn view(&self) -> GameModel {
        GameModel { player1: self.player1@, player2: self.player2@, ball: self.ball@ }
    }
}

impl GameState {
    /// A state is well formed when its three entities are.
    pub open spec fn wf(&self) -> bool {
        self.player1.wf() && self.player2.wf() && self.ball.wf()
    }

    /// Whether all three entities are within range.
    pub open spec fn spec_in_range(&self) -> bool {
        self.player1.in_range() && self.player2.in_range() && self.ball.in_range()
    }

    /// The state in which a match starts, for entities of the given sizes.
    pub fn new(player1_size: Size, player2_size: Size, ball_size: Size) -> (state: GameState)
        requires
            player1_size.width > 0,
            player1_size.height > 0,
            player2_size.width > 0,
            player2_size.height > 0,
            ball_size.width > 0,
            ball_size.height > 0,
        ensures
            state.wf(),
            state.in_range(),
            state.player1.size == player1_size,
            state.player2.size == player2_size,
            state.ball.size == ball_size,
            state@ == GameModel::initial(player1_size, player2_size, ball_size),
    {
        let at_rest = Vec2::zero();
        let mut player1 = Entity::new(player1_size, at_rest);
        player1.position = Vec2::new(PADDLE_MARGIN, centred(WINDOW_HEIGHT, player1.height()));

        let mut player2 = Entity::new(player2_size, at_rest);
        player2.position = Vec2::new(
            WINDOW_WIDTH - PADDLE_MARGIN,
            centred(WINDOW_HEIGHT, player2.height()),
        );

        let mut ball = Entity::with_velocity(ball_size, at_rest, Vec2::new(-BALL_SPEED, 0));
        ball.position = Vec2::new(
            centred(WINDOW_WIDTH, ball.width()),
            centred(WINDOW_HEIGHT, ball.height()),
        );

        GameState { player1, player2, ball }
    }

    /// Tells whether the state is within the range that [`GameState::update`]
    /// asks for.
    #[verifier::when_used_as_spec(spec_in_range)]
    pub fn in_range(&self) -> (ok: bool)
        ensures
            ok == self.spec_in_range(),
    {
        self.player1.in_range() && self.player2.in_range() && self.ball.in_range()
    }

    /// The paddle that the ball overlaps, if any; player one's first.
    pub fn paddle_hit(&self) -> (hit: Option<Player>)
        ensures
            hit == self@.paddle_hit(),
    {
        let player1_bounds = self.player1.bounds();
        let player2_bounds = self.player2.bounds();
        let ball_bounds = self.ball.bounds();

        if ball_bounds.intersects(&player1_bounds) {
            Some(Player::One)
        } else if ball_bounds.intersects(&player2_bounds) {
            Some(Player::Two)
        } else {
            None
        }
    }

    /// Who has won in this state, if anybody.
    pub fn winner(&self) -> (won: Option<Player>)
        ensures
            won == self@.winner(),
    {
        if self.ball.position.x < 0 {
            Some(Player::Two)
        } else if self.ball.position.x > WINDOW_WIDTH - self.ball.width() {
            Some(Player::One)
        } else {
            None
        }
    }

    /// Advances the game by one tick with the given keys held, and reports
    /// who has won by the end of it.
    ///
    /// The state must be within range on entry; it need not be so afterwards.
    pub fn update(&mut self, input: Input) -> (won: Option<Player>)
        requires
            old(self).wf(),
            old(self).in_range(),
        ensures
            final(self)@ == old(self)@.step(input),
            won == final(self)@.winner(),
            final(self).wf(),
            final(self).player1.size == old(self).player1.size,
            final(self).player2.size == old(self).player2.size,
            final(self).ball.size == old(self).ball.size,
    {
        self.player1.position.y += paddle_shift(input.player1_up, input.player1_down);
        self.player2.position.y += paddle_shift(input.player2_up, input.player2_down);

        let paddle_hit = self.paddle_hit();

        if let Some(player) = paddle_hit {
            let paddle = match player {
                Player::One => &self.player1,
                Player::Two => &self.player2,
            };
            let added = spin(paddle.centre().y, self.ball.centre().y, paddle.height());
            self.ball.velocity.x = rebound(self.ball.velocity.x);
            self.ball.velocity.y += added;
        }

        self.ball.position.x += self.ball.velocity.x;
        self.ball.position.y += self.ball.velocity.y;

        if self.ball.position.y <= 0 || self.ball.position.y + self.ball.height() >= WINDOW_HEIGHT {
            self.ball.velocity.y = -self.ball.velocity.y;
        }

        self.winner()
    }
}

} // verus!
