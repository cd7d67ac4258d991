//! The game engine: players, seats, turns and guesses.
//!
//! Every operation is stated over [`GameView`], the mathematical picture of a
//! game, so that the rules can be read (and the laws at the end of this file
//! proved) without looking at the executable code.

use vstd::prelude::*;
use vstd::std_specs::cmp::PartialEqSpecImpl;
use vstd::string::StringExecFns;

verus! {

/// Lives a player starts with.
pub const INITIAL_LIFE: u8 = 3;

/// A decimal digit as a character.
pub open spec fn digit_char(d: nat) -> char
    recommends
        d < 10,
{
    if d == 0 {
        '0'
    } else if d == 1 {
        '1'
    } else if d == 2 {
        '2'
    } else if d == 3 {
        '3'
    } else if d == 4 {
        '4'
    } else if d == 5 {
        '5'
    } else if d == 6 {
        '6'
    } else if d == 7 {
        '7'
    } else if d == 8 {
        '8'
    } else {
        '9'
    }
}

/// The decimal numeral of `n`, most significant digit first, without padding.
pub open spec fn decimal_chars(n: nat) -> Seq<char>
    decreases n,
{
    if n < 10 {
        seq![digit_char(n)]
    } else {
        decimal_chars(n / 10).push(digit_char(n % 10))
    }
}

/// Text sent when the guess is above the secret.
pub open spec fn too_high_message(number: u16) -> Seq<char> {
    "Secret number is less than "@ + decimal_chars(number as nat)
}

/// Text sent when the guess is below the secret.
pub open spec fn too_low_message(number: u16) -> Seq<char> {
    "Secret number is greater than "@ + decimal_chars(number as nat)
}

/// What a player is, as plain mathematical values.
pub struct PlayerView {
    pub id: Seq<char>,
    pub name: Seq<char>,
    pub secret_number: Option<u16>,
    pub life: u8,
}

/// One participant: an identifier fixed at creation, a display name, the
/// number the opponent has to find, and the remaining lives.
#[derive(Debug)]
pub struct Player {
    id: String,
    name: String,
    secret_number: Option<u16>,
    life: u8,
}

impl View for Player {
    type V = PlayerView;

    closed spec fn view(&self) -> PlayerView {
        PlayerView {
            id: self.id@,
            name: self.name@,
            secret_number: self.secret_number,
            life: self.life,
        }
    }
}

impl PartialEq for Player {
    fn eq(&self, other: &Player) -> (same: bool) {
        self.id == other.id && self.name == other.name && self.secret_number
            == other.secret_number && self.life == other.life
    }
}

impl PartialEqSpecImpl for Player {
    open spec fn obeys_eq_spec() -> bool {
        true
    }

    open spec fn eq_spec(&self, other: &Player) -> bool {
        self@ == other@
    }
}

/// `uuid::Uuid::new_v4` followed by the `Display` form of the identifier.
/// The value is random, so nothing is claimed of it: callers are verified for
/// every string that may come back. The crate panics where the operating
/// system cannot supply random bytes.
#[verifier::external_body]
fn fresh_identifier() -> String {
    uuid::Uuid::new_v4().to_string()
}

/// `u16::to_string` of std: the decimal numeral of `n`.
#[verifier::external_body]
fn decimal_string(n: u16) -> (text: String)
    ensures
        text@ == decimal_chars(n as nat),
{
    n.to_string()
}

impl Player {
    /// Whether `self` and `other` agree in every respect.
    pub fn same_as(&self, other: &Player) -> (same: bool)
        ensures
            same == (self@ == other@),
    {
        self == other
    }

    /// A new player under a freshly drawn identifier, with no secret number
    /// yet and the initial number of lives.
    pub fn new(name: String) -> (player: Player)
        ensures
            player@.name == name@,
            player@.secret_number is None,
            player@.life == INITIAL_LIFE,
    {
        Player::with_id(fresh_identifier(), name)
    }

    /// A new player under the given identifier.
    pub fn with_id(id: String, name: String) -> (player: Player)
        ensures
            player@ == (PlayerView {
                id: id@,
                name: name@,
                secret_number: None,
                life: INITIAL_LIFE,
            }),
    {
        Player { id, name, secret_number: None, life: INITIAL_LIFE }
    }

    /// Commits the number the opponent will have to guess.
    pub fn set_secret_number(&mut self, secret_number: u16)
        ensures
            final(self)@ == (PlayerView {
                secret_number: Some(secret_number),
                ..old(self)@
            }),
    {
        self.secret_number = Some(secret_number);
    }

    /// The identifier the player was created under.
    pub fn id(&self) -> (id: &String)
        ensures
            id@ == self@.id,
    {
        &self.id
    }

    /// The player's display name.
    pub fn name(&self) -> (name: &String)
        ensures
            name@ == self@.name,
    {
        &self.name
    }

    /// The number the opponent has to find, once it is committed.
    pub fn secret_number(&self) -> (secret: Option<u16>)
        ensures
            secret == self@.secret_number,
    {
        self.secret_number
    }

    /// The lives the player has left.
    pub fn life(&self) -> (life: u8)
        ensures
            life == self@.life,
    {
        self.life
    }
}

/// Where a game stands. The modes are ordered as listed and a game only ever
/// moves forward through them.
#[derive(Debug, Clone, Copy, PartialEq, Eq, Structural)]
pub enum GameMode {
    /// A seat may still be empty.
    WaitingForPlayer,
    /// Both seats are taken and play can start.
    Ready,
    /// The players guess in turn.
    InProgress,
    /// Somebody has won. Terminal.
    Finished,
}

/// Position of a mode in the order of play.
pub open spec fn mode_rank(mode: GameMode) -> nat {
    match mode {
        GameMode::WaitingForPlayer => 0,
        GameMode::Ready => 1,
        GameMode::InProgress => 2,
        GameMode::Finished => 3,
    }
}

/// What a guess is answered with.
#[derive(Debug, PartialEq)]
pub enum GameMessages {
    /// The guess is the opponent's secret number.
    YouWin,
    /// It is the other player's turn.
    NotYourTurn,
    /// The guess is wrong; the text says on which side the secret lies.
    WrongAnswer(String),
    /// Something else went wrong; the text says what.
    UnexpectedError(String),
}

/// [`GameMessages`] with its texts as sequences of characters.
pub enum GameMessagesView {
    YouWin,
    NotYourTurn,
    WrongAnswer(Seq<char>),
    UnexpectedError(Seq<char>),
}

impl View for GameMessages {
    type V = GameMessagesView;

    open spec fn view(&self) -> GameMessagesView {
        match self {
            GameMessages::YouWin => GameMessagesView::YouWin,
            GameMessages::NotYourTurn => GameMessagesView::NotYourTurn,
            GameMessages::WrongAnswer(text) => GameMessagesView::WrongAnswer(text@),
            GameMessages::UnexpectedError(text) => GameMessagesView::UnexpectedError(text@),
        }
    }
}

/// A game as plain mathematical values: who sits where, whose turn it is and
/// the mode.
pub struct GameView {
    pub id: Seq<char>,
    pub player_one: Option<PlayerView>,
    pub player_two: Option<PlayerView>,
    pub turn_player: Option<PlayerView>,
    pub mode: GameMode,
}

impl GameView {
    /// A game just opened by `player`.
    pub open spec fn opened(id: Seq<char>, player: PlayerView) -> GameView {
        GameView {
            id,
            player_one: Some(player),
            player_two: None,
            turn_player: None,
            mode: GameMode::WaitingForPlayer,
        }
    }

    /// Both seats are taken.
    pub open spec fn is_full(self) -> bool {
        self.player_one is Some && self.player_two is Some
    }

    /// The states the operations below can produce: once a game is ready both
    /// seats stay taken, and there is a turn player, sitting on one of the two
    /// seats, exactly from the start of play on.
    pub open spec fn wf(self) -> bool {
        &&& self.mode != GameMode::WaitingForPlayer ==> self.is_full()
        &&& (self.mode == GameMode::WaitingForPlayer || self.mode == GameMode::Ready)
            ==> self.turn_player is None
        &&& (self.mode == GameMode::InProgress || self.mode == GameMode::Finished) ==> {
            &&& self.turn_player is Some
            &&& (self.turn_player == self.player_one || self.turn_player == self.player_two)
        }
    }

    /// `player` takes the first free seat, seat one before seat two; a full
    /// game is left as it is.
    pub open spec fn seat(self, player: PlayerView) -> GameView {
        if self.player_one is None {
            GameView { player_one: Some(player), ..self }
        } else if self.player_two is None {
            GameView { player_two: Some(player), ..self }
        } else {
            self
        }
    }

    /// Seat one is given up while the game still waits for players.
    pub open spec fn vacate_one(self) -> GameView {
        if self.mode == GameMode::WaitingForPlayer {
            GameView { player_one: None, ..self }
        } else {
            self
        }
    }

    /// A full game that was waiting becomes ready; nothing else changes.
    pub open spec fn ready(self) -> GameView {
        if self.is_full() && self.mode == GameMode::WaitingForPlayer {
            GameView { mode: GameMode::Ready, ..self }
        } else {
            self
        }
    }

    /// A ready game starts with seat one to play.
    pub open spec fn started(self) -> GameView {
        if self.mode == GameMode::Ready {
            GameView { mode: GameMode::InProgress, turn_player: self.player_one, ..self }
        } else {
            self
        }
    }

    /// Who `player` plays against: seat two for the player on seat one, seat
    /// one for anybody else.
    pub open spec fn opponent(self, player: PlayerView) -> Option<PlayerView> {
        if self.player_one == Some(player) {
            self.player_two
        } else {
            self.player_one
        }
    }

    /// `player` is the one whose guess is evaluated now.
    pub open spec fn is_turn_of(self, player: PlayerView) -> bool {
        self.mode == GameMode::InProgress && self.turn_player == Some(player)
    }

    /// The number that `player` has to find, where the opponent has set one.
    pub open spec fn target(self, player: PlayerView) -> Option<u16> {
        match self.opponent(player) {
            Some(opponent) => opponent.secret_number,
            None => None,
        }
    }

    /// The game after `player` has guessed `number`: nothing changes unless
    /// it is that player's turn and there is a number to find; then a hit
    /// finishes the game and a miss hands the turn to the opponent.
    pub open spec fn guessed(self, player: PlayerView, number: u16) -> GameView {
        if self.is_turn_of(player) {
            match self.target(player) {
                Some(secret) => if number == secret {
                    GameView { mode: GameMode::Finished, ..self }
                } else {
                    GameView { turn_player: self.opponent(player), ..self }
                },
                None => self,
            }
        } else {
            self
        }
    }

    /// What `player` is told for guessing `number`; `None` where the game is
    /// not in progress, or it is the player's turn and there is no number to
    /// find.
    pub open spec fn answer(self, player: PlayerView, number: u16) -> Option<GameMessagesView> {
        if self.mode != GameMode::InProgress {
            None
        } else if self.turn_player != Some(player) {
            Some(GameMessagesView::NotYourTurn)
        } else {
            match self.target(player) {
                Some(secret) => if number > secret {
                    Some(GameMessagesView::WrongAnswer(too_high_message(number)))
                } else if number < secret {
                    Some(GameMessagesView::WrongAnswer(too_low_message(number)))
                } else {
                    Some(GameMessagesView::YouWin)
                },
                None => None,
            }
        }
    }
}

/// A game between two players. The game refers to its players and does not
/// own them; they cannot change while it does.
pub struct Game<'a> {
    id: String,
    player_one: Option<&'a Box<Player>>,
    player_two: Option<&'a Box<Player>>,
    turn_player: Option<&'a Box<Player>>,
    mode: GameMode,
}

/// The view of a seat.
pub open spec fn seat_view(seat: Option<&Box<Player>>) -> Option<PlayerView> {
    match seat {
        Some(player) => Some(player@),
        None => None,
    }
}

impl<'a> View for Game<'a> {
    type V = GameView;

    closed spec fn view(&self) -> GameView {
        GameView {
            id: self.id@,
            player_one: seat_view(self.player_one),
            player_two: seat_view(self.player_two),
            turn_player: seat_view(self.turn_player),
            mode: self.mode,
        }
    }
}

impl<'a> Game<'a> {
    /// Opens a game under a freshly drawn identifier with `player` on seat
    /// one.
    pub fn new(player: &'a Box<Player>) -> (game: Game<'a>)
        ensures
            game@.wf(),
            game@ == GameView::opened(game@.id, player@),
    {
        Game::with_id(fresh_identifier(), player)
    }

    /// Opens a game under the given identifier with `player` on seat one.
    pub fn with_id(id: String, player: &'a Box<Player>) -> (game: Game<'a>)
        ensures
            game@.wf(),
            game@ == GameView::opened(id@, player@),
    {
        Game {
            id,
            player_one: Some(player),
            player_two: None,
            turn_player: None,
            mode: GameMode::WaitingForPlayer,
        }
    }

    /// Starts play: a ready game goes in progress with seat one to move;
    /// any other game is refused and left as it is.
    pub fn start(&mut self) -> (result: Result<(), String>)
        requires
            old(self)@.wf(),
        ensures
            final(self)@.wf(),
            final(self)@ == old(self)@.started(),
            result is Ok <==> old(self)@.mode == GameMode::Ready,
            result matches Err(message) ==> message@ == "Game is not ready to start"@,
    {
        match self.mode {
            GameMode::Ready => {
                self.mode = GameMode::InProgress;
                self.turn_player = self.player_one;
                Ok(())
            },
            _ => Err("Game is not ready to start".to_owned()),
        }
    }

    /// Checks that both seats are taken and names the first empty one.
    fn validate_players(&self) -> (result: Result<(), String>)
        ensures
            result is Ok <==> self@.is_full(),
            result matches Err(message) ==> message@ == (if self@.player_one is None {
                "No player 1 present"@
            } else {
                "No player 2 present"@
            }),
    {
        if self.player_one.is_none() {
            Err("No player 1 present".to_owned())
        } else if self.player_two.is_none() {
            Err("No player 2 present".to_owned())
        } else {
            Ok(())
        }
    }

    /// Declares the game ready once both seats are taken. An empty seat is
    /// reported, seat one first. The mode never moves back: a game that has
    /// already started or finished stays as it is.
    pub fn set_ready(&mut self) -> (result: Result<(), String>)
        requires
            old(self)@.wf(),
        ensures
            final(self)@.wf(),
            final(self)@ == old(self)@.ready(),
            result is Ok <==> old(self)@.is_full(),
            result matches Err(message) ==> message@ == (if old(self)@.player_one is None {
                "No player 1 present"@
            } else {
                "No player 2 present"@
            }),
    {
        match self.validate_players() {
            Ok(()) => {
                if self.mode == GameMode::WaitingForPlayer {
                    self.mode = GameMode::Ready;
                }
                Ok(())
            },
            Err(message) => Err(message),
        }
    }

    /// The first free seat, seat one before seat two, for somebody to be
    /// seated on it.
    fn get_free_position(&mut self) -> (result: Result<&mut Option<&'a Box<Player>>, String>)
        ensures
            result is Err <==> old(self)@.is_full(),
            result matches Err(message) ==> message@ == "This game is full"@ && final(self)@
                == old(self)@,
            result matches Ok(free_position) ==> *free_position is None && final(self)@ == (
                if old(self)@.player_one is None {
                    GameView { player_one: seat_view(*final(free_position)), ..old(self)@ }
                } else {
                    GameView { player_two: seat_view(*final(free_position)), ..old(self)@ }
                }),
    {
        if self.player_one.is_none() {
            Ok(&mut self.player_one)
        } else if self.player_two.is_none() {
            Ok(&mut self.player_two)
        } else {
            Err("This game is full".to_owned())
        }
    }

    /// Seats `joining_player` on the first free seat, seat one before seat
    /// two. A full game refuses and is left as it is.
    pub fn accept_challenge(&mut self, joining_player: &'a Box<Player>) -> (result: Result<
        (),
        String,
    >)
        requires
            old(self)@.wf(),
        ensures
            final(self)@.wf(),
            final(self)@ == old(self)@.seat(joining_player@),
            result is Err <==> old(self)@.is_full(),
            result matches Err(message) ==> message@ == "This game is full"@,
            old(self)@.is_full() ==> final(self)@ == old(self)@,
    {
        match self.get_free_position() {
            Ok(free_position) => {
                *free_position = Some(joining_player);
                Ok(())
            },
            Err(message) => Err(message),
        }
    }

    /// Frees seat one of a game that still waits for players, so that
    /// somebody else can join; says whether the game was still waiting.
    pub fn vacate_player_one(&mut self) -> (waiting: bool)
        requires
            old(self)@.wf(),
        ensures
            final(self)@.wf(),
            final(self)@ == old(self)@.vacate_one(),
            waiting == (old(self)@.mode == GameMode::WaitingForPlayer),
    {
        if self.mode == GameMode::WaitingForPlayer {
            self.player_one = None;
            true
        } else {
            false
        }
    }

    /// Checks that the game is in progress.
    fn validate_wip_mode(&self) -> (result: Result<(), String>)
        ensures
            result is Ok <==> self@.mode == GameMode::InProgress,
            result matches Err(message) ==> message@ == "This game is nor in progress"@,
    {
        match self.mode {
            GameMode::InProgress => Ok(()),
            _ => Err("This game is nor in progress".to_owned()),
        }
    }

    /// Who `player` plays against.
    fn get_opponent(&self, player: &Box<Player>) -> (opponent: &'a Box<Player>)
        requires
            self@.is_full(),
        ensures
            Some(opponent@) == self@.opponent(player@),
    {
        if player.same_as(self.player_one.unwrap()) {
            self.player_two.unwrap()
        } else {
            self.player_one.unwrap()
        }
    }

    /// Evaluates the guess `number` of `player`.
    ///
    /// A game that is not in progress refuses. A player who is not the turn
    /// player is told so and nothing changes. Otherwise the guess is held
    /// against the opponent's secret number: a hit wins and finishes the
    /// game; a miss says on which side the secret lies and passes the turn
    /// to the opponent.
    ///
    /// The opponent of the turn player must have committed a secret number.
    pub fn guess_number(&mut self, player: &'a Box<Player>, number: u16) -> (result: Result<
        GameMessages,
        String,
    >)
        requires
            old(self)@.wf(),
            old(self)@.is_turn_of(player@) ==> old(self)@.target(player@) is Some,
        ensures
            final(self)@.wf(),
            final(self)@ == old(self)@.guessed(player@, number),
            result is Ok <==> old(self)@.mode == GameMode::InProgress,
            result matches Ok(message) ==> Some(message@) == old(self)@.answer(player@, number),
            result matches Err(message) ==> message@ == "This game is nor in progress"@,
    {
        match self.validate_wip_mode() {
            Ok(()) => {},
            Err(message) => {
                return Err(message);
            },
        }
        if !player.same_as(self.turn_player.unwrap()) {
            return Ok(GameMessages::NotYourTurn);
        }
        let opponent = self.get_opponent(player);
        let secret_number = opponent.secret_number.unwrap();

        if number > secret_number {
            self.turn_player = Some(opponent);
            Ok(
                GameMessages::WrongAnswer(
                    "Secret number is less than ".to_owned().concat(
                        decimal_string(number).as_str(),
                    ),
                ),
            )
        } else if number < secret_number {
            self.turn_player = Some(opponent);
            Ok(
                GameMessages::WrongAnswer(
                    "Secret number is greater than ".to_owned().concat(
                        decimal_string(number).as_str(),
                    ),
                ),
            )
        } else {
            self.mode = GameMode::Finished;
            Ok(GameMessages::YouWin)
        }
    }

    /// The identifier the game was opened under.
    pub fn id(&self) -> (id: &String)
        ensures
            id@ == self@.id,
    {
        &self.id
    }

    /// Who sits on seat one.
    pub fn player_one(&self) -> (seat: Option<&'a Box<Player>>)
        ensures
            seat_view(seat) == self@.player_one,
    {
        self.player_one
    }

    /// Who sits on seat two.
    pub fn player_two(&self) -> (seat: Option<&'a Box<Player>>)
        ensures
            seat_view(seat) == self@.player_two,
    {
        self.player_two
    }

    /// Whose turn it is, once play has started.
    pub fn turn_player(&self) -> (seat: Option<&'a Box<Player>>)
        ensures
            seat_view(seat) == self@.turn_player,
    {
        self.turn_player
    }

    /// Where the game stands.
    pub fn mode(&self) -> (mode: GameMode)
        ensures
            mode == self@.mode,
    {
        self.mode
    }
}

/// A full game refuses every newcomer and stays exactly as it was.
pub proof fn law_full_game_is_closed(game: GameView, newcomer: PlayerView)
    requires
        game.is_full(),
    ensures
        game.seat(newcomer) == game,
        game.seat(newcomer).seat(newcomer) == game,
{
}

/// A guess by anybody but the turn player changes nothing: neither the mode
/// nor the turn nor anything else.
pub proof fn law_guess_out_of_turn_changes_nothing(game: GameView, player: PlayerView, number: u16)
    requires
        game.turn_player != Some(player),
    ensures
        game.guessed(player, number) == game,
        game.mode == GameMode::InProgress ==> game.answer(player, number) == Some(
            GameMessagesView::NotYourTurn,
        ),
{
}

/// A wrong guess by the turn player passes the turn to the opponent, who sits
/// on one of the two seats, and leaves the game in progress. Where two
/// different players are seated the turn really moves, and a second wrong
/// guess, by the opponent, brings it back.
pub proof fn law_wrong_guess_passes_turn(
    game: GameView,
    player: PlayerView,
    number: u16,
    reply: u16,
)
    requires
        game.wf(),
        game.is_turn_of(player),
        game.target(player) is Some,
        game.target(player) != Some(number),
    ensures
        game.guessed(player, number).wf(),
        game.guessed(player, number).mode == GameMode::InProgress,
        game.guessed(player, number).turn_player == game.opponent(player),
        game.opponent(player) == game.player_one || game.opponent(player) == game.player_two,
        game.player_one != game.player_two ==> game.guessed(player, number).turn_player
            != game.turn_player,
        ({
            let next = game.guessed(player, number);
            let opponent = game.opponent(player).unwrap();
            game.player_one != game.player_two && next.target(opponent) is Some && next.target(
                opponent,
            ) != Some(reply) ==> next.guessed(opponent, reply).turn_player == game.turn_player
        }),
{
}

/// The guess that equals the opponent's secret finishes the game and leaves
/// the turn where it was.
pub proof fn law_right_guess_finishes(game: GameView, player: PlayerView, number: u16)
    requires
        game.is_turn_of(player),
        game.target(player) == Some(number),
    ensures
        game.guessed(player, number).mode == GameMode::Finished,
        game.guessed(player, number).turn_player == game.turn_player,
        game.answer(player, number) == Some(GameMessagesView::YouWin),
{
}

/// A finished game stays finished whatever is done to it.
pub proof fn law_finished_is_terminal(game: GameView, player: PlayerView, number: u16)
    requires
        game.mode == GameMode::Finished,
    ensures
        game.seat(player).mode == GameMode::Finished,
        game.vacate_one() == game,
        game.ready() == game,
        game.started() == game,
        game.guessed(player, number) == game,
{
}

/// No operation moves the mode of a game backwards.
pub proof fn law_mode_never_moves_back(game: GameView, player: PlayerView, number: u16)
    ensures
        mode_rank(game.mode) <= mode_rank(game.seat(player).mode),
        mode_rank(game.mode) <= mode_rank(game.vacate_one().mode),
        mode_rank(game.mode) <= mode_rank(game.ready().mode),
        mode_rank(game.mode) <= mode_rank(game.started().mode),
        mode_rank(game.mode) <= mode_rank(game.guessed(player, number).mode),
{
}

/// Every operation keeps a game well formed; in particular the turn player,
/// once there is one, always sits on one of the two seats.
pub proof fn law_operations_keep_games_well_formed(
    game: GameView,
    player: PlayerView,
    number: u16,
)
    requires
        game.wf(),
    ensures
        GameView::opened(game.id, player).wf(),
        game.seat(player).wf(),
        game.vacate_one().wf(),
        game.ready().wf(),
        game.started().wf(),
        game.guessed(player, number).wf(),
        game.turn_player is Some ==> game.turn_player == game.player_one || game.turn_player
            == game.player_two,
{
}

} // verus!
