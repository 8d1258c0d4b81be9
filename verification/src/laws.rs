//! What the rules of the game imply, proved for every state and any number
//! of ticks.

use vstd::prelude::*;
use crate::entity::Size;
use crate::game::{paddle_shift_of, rebound_of, spin_of, touches_wall, GameModel, Input, Player};
use crate::units::{
    lemma_div_away_from_zero, magnitude, sign_of, BALL_ACC, BALL_SPEED, PADDLE_SPEED, PADDLE_SPIN,
    WINDOW_HEIGHT, WINDOW_WIDTH,
};

verus! {

/// A tick changes no entity's size, moves no paddle sideways and gives no
/// paddle a velocity; so a well-formed state stays well formed.
pub proof fn lemma_step_keeps_shapes(s: GameModel, input: Input)
    ensures
        s.step(input).player1.width == s.player1.width,
        s.step(input).player1.height == s.player1.height,
        s.step(input).player2.width == s.player2.width,
        s.step(input).player2.height == s.player2.height,
        s.step(input).ball.width == s.ball.width,
        s.step(input).ball.height == s.ball.height,
        s.step(input).player1.position.x == s.player1.position.x,
        s.step(input).player2.position.x == s.player2.position.x,
        s.step(input).player1.velocity == s.player1.velocity,
        s.step(input).player2.velocity == s.player2.velocity,
        s.wf() ==> s.step(input).wf(),
{
}

/// What holds of one tick holds of any number of them: sizes, the paddles'
/// horizontal positions and their velocities stay as they were, and a
/// well-formed state stays well formed.
pub proof fn lemma_run_keeps_shapes(s: GameModel, inputs: Seq<Input>)
    ensures
        s.run(inputs).player1.width == s.player1.width,
        s.run(inputs).player1.height == s.player1.height,
        s.run(inputs).player2.width == s.player2.width,
        s.run(inputs).player2.height == s.player2.height,
        s.run(inputs).ball.width == s.ball.width,
        s.run(inputs).ball.height == s.ball.height,
        s.run(inputs).player1.position.x == s.player1.position.x,
        s.run(inputs).player2.position.x == s.player2.position.x,
        s.run(inputs).player1.velocity == s.player1.velocity,
        s.run(inputs).player2.velocity == s.player2.velocity,
        s.wf() ==> s.run(inputs).wf(),
    decreases inputs.len(),
{
    if inputs.len() > 0 {
        lemma_run_keeps_shapes(s, inputs.drop_last());
        lemma_step_keeps_shapes(s.run(inputs.drop_last()), inputs.last());
    }
}

/// In one tick a paddle moves up by [`PADDLE_SPEED`] if only its up key is
/// held, down by as much if only its down key is held, and stays where it is
/// if both or neither are held. The other player's keys and the ball have
/// no part in it.
pub proof fn lemma_paddle_step(s: GameModel, input: Input, player: Player)
    ensures
        s.step(input).paddle(player).position.y == s.paddle(player).position.y + paddle_shift_of(
            input.up(player),
            input.down(player),
        ),
        paddle_shift_of(true, false) == -PADDLE_SPEED,
        paddle_shift_of(false, true) == PADDLE_SPEED,
        paddle_shift_of(true, true) == 0,
        paddle_shift_of(false, false) == 0,
{
}

/// Over any number of ticks during which a player's keys are held the same
/// way, that player's paddle moves by the number of ticks times what one
/// tick moves it, however far that takes it from the field: up by
/// [`PADDLE_SPEED`] a tick with only the up key held, down by as much with
/// only the down key, and not at all with both or neither.
pub proof fn lemma_paddle_travel(
    s: GameModel,
    inputs: Seq<Input>,
    player: Player,
    up: bool,
    down: bool,
)
    requires
        forall|i: int|
            0 <= i < inputs.len() ==> (#[trigger] inputs[i]).up(player) == up && inputs[i].down(
                player,
            ) == down,
    ensures
        s.run(inputs).paddle(player).position.y == s.paddle(player).position.y + inputs.len()
            * paddle_shift_of(up, down),
        up && !down ==> s.run(inputs).paddle(player).position.y == s.paddle(player).position.y
            - PADDLE_SPEED * inputs.len(),
        !up && down ==> s.run(inputs).paddle(player).position.y == s.paddle(player).position.y
            + PADDLE_SPEED * inputs.len(),
        up == down ==> s.run(inputs).paddle(player).position.y == s.paddle(player).position.y,
    decreases inputs.len(),
{
    let shift = paddle_shift_of(up, down);
    let n = inputs.len() as int;
    if n > 0 {
        let earlier = inputs.drop_last();
        assert forall|i: int| 0 <= i < earlier.len() implies (#[trigger] earlier[i]).up(player)
            == up && earlier[i].down(player) == down by {
            assert(earlier[i] == inputs[i]);
        }
        lemma_paddle_travel(s, earlier, player, up, down);
        lemma_paddle_step(s.run(earlier), inputs.last(), player);
        assert(inputs.last() == inputs[n - 1]);
        assert((n - 1) * shift + shift == n * shift) by (nonlinear_arith);
    } else {
        assert(0 * shift == 0);
    }
    assert(n * (-PADDLE_SPEED) == -(PADDLE_SPEED * n)) by (nonlinear_arith);
    assert(n * (PADDLE_SPEED as int) == PADDLE_SPEED * n) by (nonlinear_arith);
    assert(n * 0 == 0);
}

/// The ball always moves by the velocity that it has once the paddles have
/// acted on it, and its vertical velocity ends the tick reversed exactly if
/// that move brings it to the top or the bottom of the field.
pub proof fn lemma_ball_motion(s: GameModel, input: Input)
    ensures
        ({
            let struck = s.move_paddles(input).deflect().ball;
            let moved = struck.advance();
            &&& struck.position == s.ball.position
            &&& s.step(input).ball.position == s.ball.position.plus(struck.velocity)
            &&& s.step(input).ball.velocity.x == struck.velocity.x
            &&& touches_wall(moved) ==> s.step(input).ball.velocity.y == -struck.velocity.y
            &&& !touches_wall(moved) ==> s.step(input).ball.velocity.y == struck.velocity.y
        }),
{
}

/// Free flight: in a tick in which the ball overlaps neither paddle and does
/// not reach the top or the bottom of the field, its position grows by its
/// velocity and its velocity stays as it was.
pub proof fn lemma_free_flight(s: GameModel, input: Input)
    requires
        s.move_paddles(input).paddle_hit() is None,
        !touches_wall(s.ball.advance()),
    ensures
        s.step(input).ball.position == s.ball.position.plus(s.ball.velocity),
        s.step(input).ball.velocity == s.ball.velocity,
        s.step(input).ball == s.ball.advance(),
{
}

/// Wall reflection: if the paddles leave the ball's vertical velocity `vy`
/// alone in this tick, and `y + vy <= 0` or `y + height + vy >=
/// WINDOW_HEIGHT`, the tick ends with the vertical velocity `-vy`: the same
/// magnitude, the other direction. The ball has moved first, so it may
/// overlap the wall.
pub proof fn lemma_wall_reflection(s: GameModel, input: Input)
    requires
        s.move_paddles(input).deflect().ball.velocity.y == s.ball.velocity.y,
        s.ball.position.y + s.ball.velocity.y <= 0 || s.ball.position.y + s.ball.height
            + s.ball.velocity.y >= WINDOW_HEIGHT,
    ensures
        s.step(input).ball.velocity.y == -s.ball.velocity.y,
        magnitude(s.step(input).ball.velocity.y) == magnitude(s.ball.velocity.y),
        s.step(input).ball.position.y == s.ball.position.y + s.ball.velocity.y,
{
}

/// A paddle hit reverses the ball's horizontal direction and adds
/// [`BALL_ACC`] to its horizontal speed; a ball with no horizontal motion
/// keeps none.
pub proof fn lemma_rebound(vx: int)
    ensures
        vx > 0 ==> rebound_of(vx) == -(vx + BALL_ACC),
        vx < 0 ==> rebound_of(vx) == -(vx - BALL_ACC),
        vx == 0 ==> rebound_of(vx) == 0,
        sign_of(rebound_of(vx)) == -sign_of(vx),
        vx != 0 ==> magnitude(rebound_of(vx)) == magnitude(vx) + BALL_ACC,
{
}

/// The sign of the spin. A ball hit at the very height of the paddle's
/// centre gets none. One hit above the centre, by however little, is sent
/// upward: the spin is negative. One hit below the centre is sent downward:
/// the spin is positive. Hits at equal distances above and below the centre
/// get opposite spins.
///
/// The size of the spin: times the paddle's height it amounts to
/// [`PADDLE_SPIN`] times the distance between the centres or more, and with
/// one unit less it would not; so it exceeds the exact quotient by less
/// than one unit.
pub proof fn lemma_spin_sign(paddle_centre_y: int, ball_centre_y: int, paddle_height: int)
    requires
        paddle_height > 0,
    ensures
        ({
            let spin = spin_of(paddle_centre_y, ball_centre_y, paddle_height);
            let above = paddle_centre_y - ball_centre_y;
            let mirrored = paddle_centre_y + above;
            &&& above == 0 ==> spin == 0
            &&& above > 0 ==> spin < 0
            &&& above < 0 ==> spin > 0
            &&& spin_of(paddle_centre_y, mirrored, paddle_height) == -spin
            &&& magnitude(spin) * paddle_height >= PADDLE_SPIN * magnitude(above)
            &&& above != 0 ==> (magnitude(spin) - 1) * paddle_height < PADDLE_SPIN * magnitude(
                above,
            )
        }),
{
    let down = PADDLE_SPIN * (ball_centre_y - paddle_centre_y);
    let mirrored = paddle_centre_y + (paddle_centre_y - ball_centre_y);
    assert(PADDLE_SPIN * (mirrored - paddle_centre_y) == -down);
    lemma_div_away_from_zero(down, paddle_height);
}

/// In a tick in which the ball overlaps a paddle once the paddles have
/// moved, it is turned back as [`rebound_of`] says and its vertical velocity
/// changes by the spin of that paddle, before a wall may reverse it. So a
/// ball whose centre is level with the paddle's keeps its vertical velocity,
/// one whose centre is higher loses some, and one whose centre is lower
/// gains some. Player one's paddle is the one that counts if the ball
/// overlaps both.
pub proof fn lemma_paddle_collision(s: GameModel, input: Input, player: Player)
    requires
        s.wf(),
        s.move_paddles(input).paddle_hit() == Some(player),
    ensures
        ({
            let placed = s.move_paddles(input);
            let paddle = placed.paddle(player);
            let struck = placed.deflect().ball;
            let above = paddle.centre().y - s.ball.centre().y;
            &&& s.step(input).ball.velocity.x == rebound_of(s.ball.velocity.x)
            &&& struck.velocity.y == s.ball.velocity.y + spin_of(
                paddle.centre().y,
                s.ball.centre().y,
                paddle.height,
            )
            &&& above == 0 ==> struck.velocity.y == s.ball.velocity.y
            &&& above > 0 ==> struck.velocity.y < s.ball.velocity.y
            &&& above < 0 ==> struck.velocity.y > s.ball.velocity.y
            &&& placed.ball.bounds().intersects(placed.player1.bounds()) ==> player == Player::One
        }),
{
    let placed = s.move_paddles(input);
    let paddle = placed.paddle(player);
    lemma_spin_sign(paddle.centre().y, s.ball.centre().y, paddle.height);
}

/// A hit that no wall follows: if the ball overlaps a paddle once the
/// paddles have moved and does not reach the top or the bottom of the field
/// in this tick, it ends the tick with its vertical velocity as it was if
/// the centres are level, lower if its centre is above the paddle's, and
/// higher if it is below.
pub proof fn lemma_spin_after_the_tick(s: GameModel, input: Input, player: Player)
    requires
        s.wf(),
        s.move_paddles(input).paddle_hit() == Some(player),
        !touches_wall(s.move_paddles(input).deflect().ball.advance()),
    ensures
        ({
            let paddle = s.move_paddles(input).paddle(player);
            let above = paddle.centre().y - s.ball.centre().y;
            let after = s.step(input).ball.velocity.y;
            &&& after == s.ball.velocity.y + spin_of(
                paddle.centre().y,
                s.ball.centre().y,
                paddle.height,
            )
            &&& above == 0 ==> after == s.ball.velocity.y
            &&& above > 0 ==> after < s.ball.velocity.y
            &&& above < 0 ==> after > s.ball.velocity.y
        }),
{
    lemma_paddle_collision(s, input, player);
}

/// The ball's horizontal speed never drops: a tick leaves it as it was or
/// raises it by [`BALL_ACC`].
pub proof fn lemma_speed_never_drops(s: GameModel, input: Input)
    ensures
        magnitude(s.step(input).ball.velocity.x) >= magnitude(s.ball.velocity.x),
        magnitude(s.step(input).ball.velocity.x) <= magnitude(s.ball.velocity.x) + BALL_ACC,
{
}

/// Over any number of ticks the ball's horizontal speed is at least what it
/// was at the start, and at most that plus [`BALL_ACC`] for each tick.
pub proof fn lemma_speed_over_a_rally(s: GameModel, inputs: Seq<Input>)
    ensures
        magnitude(s.run(inputs).ball.velocity.x) >= magnitude(s.ball.velocity.x),
        magnitude(s.run(inputs).ball.velocity.x) <= magnitude(s.ball.velocity.x) + inputs.len()
            * BALL_ACC,
    decreases inputs.len(),
{
    if inputs.len() > 0 {
        lemma_speed_over_a_rally(s, inputs.drop_last());
        lemma_speed_never_drops(s.run(inputs.drop_last()), inputs.last());
    }
}

/// Whether the ball overlaps no paddle in any of the ticks that `inputs`
/// stand for, each paddle taken where that tick's keys put it.
pub open spec fn uncontested(s: GameModel, inputs: Seq<Input>) -> bool {
    forall|k: int|
        0 <= k < inputs.len() ==> (#[trigger] s.run(inputs.take(k))).move_paddles(
            inputs[k],
        ).paddle_hit() is None
}

/// The uncontested ball: over `n` ticks in none of which the ball overlaps
/// a paddle, it travels `n` times its horizontal velocity `vx`, which stays
/// as it was. So after those ticks player two has won exactly if
/// `x + n * vx < 0`, and player one exactly if the ball is not past the left
/// end and `x + n * vx + width > WINDOW_WIDTH`. Unless the ball then lies
/// exactly on that end of the field, the same holds with `<=` and `>=`.
pub proof fn lemma_uncontested_ball(s: GameModel, inputs: Seq<Input>)
    requires
        uncontested(s, inputs),
    ensures
        ({
            let n = inputs.len();
            let x = s.ball.position.x + n * s.ball.velocity.x;
            let right = x + s.ball.width;
            let won = s.run(inputs).winner();
            &&& s.run(inputs).ball.position.x == x
            &&& s.run(inputs).ball.velocity.x == s.ball.velocity.x
            &&& s.run(inputs).ball.width == s.ball.width
            &&& won == Some(Player::Two) <==> x < 0
            &&& won == Some(Player::One) <==> x >= 0 && right > WINDOW_WIDTH
            &&& x != 0 ==> (won == Some(Player::Two) <==> x <= 0)
            &&& x >= 0 && right != WINDOW_WIDTH ==> (won == Some(Player::One) <==> right
                >= WINDOW_WIDTH)
        }),
    decreases inputs.len(),
{
    let vx = s.ball.velocity.x;
    let n = inputs.len() as int;
    if n > 0 {
        let earlier = inputs.drop_last();
        assert forall|k: int| 0 <= k < earlier.len() implies (#[trigger] s.run(
            earlier.take(k),
        )).move_paddles(earlier[k]).paddle_hit() is None by {
            assert(earlier.take(k) == inputs.take(k));
            assert(earlier[k] == inputs[k]);
        }
        lemma_uncontested_ball(s, earlier);
        assert(inputs.take(n - 1) == earlier);
        assert(inputs[n - 1] == inputs.last());
        assert(s.run(earlier).move_paddles(inputs.last()).paddle_hit() is None);
        assert((n - 1) * vx + vx == n * vx) by (nonlinear_arith);
    } else {
        assert(0 * vx == 0);
    }
}

/// The opening serve: a match starts with the ball in the middle of the
/// field, moving left at [`BALL_SPEED`]. With no paddle in its way for `n`
/// ticks, its left edge is then at `(WINDOW_WIDTH - width) / 2 - n *
/// BALL_SPEED`, and player two has won exactly if that is negative; player
/// one has not.
pub proof fn lemma_opening_serve(
    player1_size: Size,
    player2_size: Size,
    ball_size: Size,
    inputs: Seq<Input>,
)
    requires
        ball_size.width > 0,
        uncontested(GameModel::initial(player1_size, player2_size, ball_size), inputs),
    ensures
        ({
            let opening = GameModel::initial(player1_size, player2_size, ball_size);
            let x = (WINDOW_WIDTH - opening.ball.width) / 2 - inputs.len() * BALL_SPEED;
            let won = opening.run(inputs).winner();
            &&& opening.run(inputs).ball.position.x == x
            &&& won == Some(Player::Two) <==> x < 0
            &&& x >= 0 ==> won is None
        }),
{
    let opening = GameModel::initial(player1_size, player2_size, ball_size);
    let n = inputs.len() as int;
    lemma_uncontested_ball(opening, inputs);
    assert(n * (-BALL_SPEED) == -(n * BALL_SPEED)) by (nonlinear_arith);
    assert(n * BALL_SPEED >= 0) by (nonlinear_arith)
        requires
            n >= 0,
    {
    }
}

} // verus!
