//! The rules of a two-player tic-tac-toe game played over the network:
//! the board, moves, the winner check, and the decisions that the server
//! takes for each turn of a connected player.
use vstd::prelude::*;
use crate::text::{decimal, parse_unsigned, parse_usize_line, push_decimal, to_decimal, trim};

verus! {

// ---------------------------------------------------------------------
// Mathematical model
// ---------------------------------------------------------------------

/// The abstract state of a game.
pub struct GameView {
    /// The nine cells, row by row; an empty cell holds a single space.
    pub board: Seq<Seq<char>>,
    /// The player whose turn it is (1 or 2).
    pub current_player: nat,
    /// Whether the game has ended.
    pub game_over: bool,
}

/// The text of an empty cell.
pub open spec fn empty_cell() -> Seq<char> {
    seq![' ']
}

/// The text that stands for a cell when the board is shown: its index when
/// it is empty, else what it holds.
pub open spec fn cell_label(board: Seq<Seq<char>>, i: int) -> Seq<char> {
    if board[i] == empty_cell() {
        decimal(i as nat)
    } else {
        board[i]
    }
}

/// The board as it is shown to the players.
pub open spec fn board_text(board: Seq<Seq<char>>) -> Seq<char> {
    "\n---------------\n "@ + cell_label(board, 0) + " | "@ + cell_label(board, 1) + " | "@
        + cell_label(board, 2) + "\n___-___-___\n "@ + cell_label(board, 3) + " | "@
        + cell_label(board, 4) + " | "@ + cell_label(board, 5) + "\n___-___-___\n "@
        + cell_label(board, 6) + " | "@ + cell_label(board, 7) + " | "@ + cell_label(board, 8)
        + "\n---------------"@
}

/// The three cells of the `k`-th line that wins: the rows, the columns,
/// then the two diagonals.
pub open spec fn win_line(k: int) -> (int, int, int) {
    if k == 0 {
        (0, 1, 2)
    } else if k == 1 {
        (3, 4, 5)
    } else if k == 2 {
        (6, 7, 8)
    } else if k == 3 {
        (0, 3, 6)
    } else if k == 4 {
        (1, 4, 7)
    } else if k == 5 {
        (2, 5, 8)
    } else if k == 6 {
        (0, 4, 8)
    } else {
        (2, 4, 6)
    }
}

/// Whether the `k`-th line holds three equal marks.
pub open spec fn line_won(board: Seq<Seq<char>>, k: int) -> bool {
    let (a, b, c) = win_line(k);
    &&& board[a] != empty_cell()
    &&& board[a] == board[b]
    &&& board[b] == board[c]
}

/// The mark of the first winning line from line `k` on, in line order.
pub open spec fn first_winner_from(board: Seq<Seq<char>>, k: int) -> Option<Seq<char>>
    decreases 8 - k,
{
    if k < 0 || k >= 8 {
        None
    } else if line_won(board, k) {
        Some(board[win_line(k).0])
    } else {
        first_winner_from(board, k + 1)
    }
}

/// Whether no cell is empty.
pub open spec fn board_full(board: Seq<Seq<char>>) -> bool {
    forall|i: int| 0 <= i < 9 ==> #[trigger] board[i] != empty_cell()
}

/// The word that announces a draw.
pub open spec fn draw_text() -> Seq<char> {
    "Draw"@
}

/// The result of a board: the mark of the first winning line, else a draw
/// when the board is full, else nothing yet.
pub open spec fn outcome(board: Seq<Seq<char>>) -> Option<Seq<char>> {
    match first_winner_from(board, 0) {
        Some(w) => Some(w),
        None => if board_full(board) {
            Some(draw_text())
        } else {
            None
        },
    }
}

/// The state after `symbol` is placed at `position`, or `None` when the
/// position is off the board or already taken.
pub open spec fn move_result(v: GameView, position: nat, symbol: Seq<char>) -> Option<GameView> {
    if position < 9 && v.board[position as int] == empty_cell() {
        Some(GameView { board: v.board.update(position as int, symbol), ..v })
    } else {
        None
    }
}

/// The message of a rejected move.
pub open spec fn invalid_move_text() -> Seq<char> {
    "Invalid move. position is already occupied or it's not there"@
}

/// The mark of a player: player 1 plays with the circle, the other with
/// the cross.
pub open spec fn symbol_text(player_id: nat) -> Seq<char> {
    if player_id == 1 {
        "\u{1F17E}\u{FE0F}"@
    } else {
        "\u{274E}"@
    }
}

/// The player who moves after `player_id`.
pub open spec fn other_player(player_id: nat) -> nat {
    if player_id == 1 {
        2
    } else {
        1
    }
}

/// The announcement of a result: a draw, or the winner's mark.
pub open spec fn result_text(winner: Seq<char>) -> Seq<char> {
    if winner == draw_text() {
        "Game Over! It's a Draw \u{1F91D}"@
    } else {
        "Game Over! Winner: "@ + winner
    }
}

/// What a player reads when it is their turn.
pub open spec fn prompt_text(board: Seq<Seq<char>>) -> Seq<char> {
    "Current Board: "@ + board_text(board) + "\n"@ + "Make Move From (0-8): \n"@
}

/// What a player reads when they join.
pub open spec fn greeting_text(player_id: nat) -> Seq<char> {
    "You are Player "@ + decimal(player_id) + " ("@ + symbol_text(player_id) + ")\n"@
}

// ---------------------------------------------------------------------
// The game state
// ---------------------------------------------------------------------

/// The state of a game shared by the two connected players.
pub struct GameState {
    board: Vec<String>,
    current_player: usize,
    game_over: bool,
}

impl View for GameState {
    type V = GameView;

    closed spec fn view(&self) -> GameView {
        GameView {
            board: self.board@.map_values(|c: String| c@),
            current_player: self.current_player as nat,
            game_over: self.game_over,
        }
    }
}

/// The invariant of every game: nine cells and a player 1 or 2 to move.
pub open spec fn game_wf(v: GameView) -> bool {
    &&& v.board.len() == 9
    &&& (v.current_player == 1 || v.current_player == 2)
}

/// Whether a cell holds the single space of an empty cell.
fn cell_is_empty(c: &String) -> (b: bool)
    ensures
        b == (c@ == empty_cell()),
{
    let s = c.as_str();
    if s.unicode_len() == 1 {
        let ch = s.get_char(0);
        assert(ch == ' ' ==> s@ =~= empty_cell());
        ch == ' '
    } else {
        false
    }
}

/// The cells of the `k`-th winning line.
fn line_cells(k: usize) -> (r: (usize, usize, usize))
    requires
        k < 8,
    ensures
        r.0 as int == win_line(k as int).0,
        r.1 as int == win_line(k as int).1,
        r.2 as int == win_line(k as int).2,
{
    match k {
        0 => (0, 1, 2),
        1 => (3, 4, 5),
        2 => (6, 7, 8),
        3 => (0, 3, 6),
        4 => (1, 4, 7),
        5 => (2, 5, 8),
        6 => (0, 4, 8),
        _ => (2, 4, 6),
    }
}

impl GameState {
    #[verifier::type_invariant]
    spec fn inv(self) -> bool {
        &&& self.board@.len() == 9
        &&& (self.current_player == 1 || self.current_player == 2)
    }

    /// A fresh game: nine empty cells, player 1 to move, not over.
    pub fn new() -> (g: Self)
        ensures
            g@.board == Seq::new(9, |i: int| empty_cell()),
            g@.current_player == 1,
            !g@.game_over,
            game_wf(g@),
    {
        let mut board: Vec<String> = Vec::new();
        let mut i: usize = 0;
        while i < 9
            invariant
                i <= 9,
                board@.len() == i,
                forall|j: int| 0 <= j < i ==> (#[trigger] board@[j])@ == empty_cell(),
            decreases 9 - i,
        {
            proof {
                reveal_strlit(" ");
            }
            board.push(" ".to_owned());
            i = i + 1;
        }
        let g = GameState { board, current_player: 1, game_over: false };
        assert(g@.board =~= Seq::new(9, |i: int| empty_cell()));
        g
    }

    /// Whether the game has ended.
    pub fn is_over(&self) -> (b: bool)
        ensures
            b == self@.game_over,
    {
        self.game_over
    }

    /// The player whose turn it is.
    pub fn current_player(&self) -> (p: usize)
        ensures
            p as nat == self@.current_player,
    {
        self.current_player
    }

    /// The text of one cell as shown on the board: the cell's index when
    /// it is empty, else its mark.
    pub fn board_num_display(&self, index: usize) -> (s: String)
        requires
            index < 9,
        ensures
            s@ == cell_label(self@.board, index as int),
    {
        proof {
            use_type_invariant(self);
        }
        if cell_is_empty(&self.board[index]) {
            to_decimal(index)
        } else {
            self.board[index].clone()
        }
    }

    /// The board as it is shown to the players.
    pub fn display_board(&self) -> (s: String)
        ensures
            s@ == board_text(self@.board),
    {
        proof {
            use_type_invariant(self);
        }
        let mut s = String::new();
        s.append("\n---------------\n ");
        s.append(self.board_num_display(0).as_str());
        s.append(" | ");
        s.append(self.board_num_display(1).as_str());
        s.append(" | ");
        s.append(self.board_num_display(2).as_str());
        s.append("\n___-___-___\n ");
        s.append(self.board_num_display(3).as_str());
        s.append(" | ");
        s.append(self.board_num_display(4).as_str());
        s.append(" | ");
        s.append(self.board_num_display(5).as_str());
        s.append("\n___-___-___\n ");
        s.append(self.board_num_display(6).as_str());
        s.append(" | ");
        s.append(self.board_num_display(7).as_str());
        s.append(" | ");
        s.append(self.board_num_display(8).as_str());
        s.append("\n---------------");
        s
    }

    /// Places `symbol` at `position` when that cell is on the board and
    /// empty; otherwise leaves the game as it is and reports why.
    pub fn make_move(&mut self, position: usize, symbol: &str) -> (r: Result<(), String>)
        ensures
            r is Ok <==> move_result(old(self)@, position as nat, symbol@) is Some,
            r is Ok ==> final(self)@ == move_result(old(self)@, position as nat, symbol@)->0,
            r is Err ==> final(self)@ == old(self)@,
            r matches Err(e) ==> e@ == invalid_move_text(),
    {
        proof {
            use_type_invariant(&*self);
        }
        if position >= 9 || !cell_is_empty(&self.board[position]) {
            return Err("Invalid move. position is already occupied or it's not there".to_owned());
        }
        let ghost before = self@;
        let mut board = self.board.clone();
        board.set(position, symbol.to_owned());
        assert(board@.len() == 9);
        self.board = board;
        assert(self@.board =~= before.board.update(position as int, symbol@));
        Ok(())
    }

    /// The result of the game so far: the mark of the first complete line
    /// (rows, then columns, then diagonals), else `"Draw"` when every cell
    /// is taken, else `None`.
    pub fn winner_chacking(&self) -> (r: Option<String>)
        ensures
            match r {
                Some(w) => outcome(self@.board) == Some(w@),
                None => outcome(self@.board) is None,
            },
    {
        proof {
            use_type_invariant(self);
        }
        let ghost b = self@.board;
        let mut k: usize = 0;
        while k < 8
            invariant
                k <= 8,
                b == self@.board,
                b.len() == 9,
                self.board@.len() == 9,
                first_winner_from(b, 0) == first_winner_from(b, k as int),
            decreases 8 - k,
        {
            let (x, y, z) = line_cells(k);
            if !cell_is_empty(&self.board[x]) && self.board[x] == self.board[y]
                && self.board[y] == self.board[z] {
                return Some(self.board[x].clone());
            }
            k = k + 1;
        }
        assert(first_winner_from(b, 8) is None);
        let mut i: usize = 0;
        while i < 9
            invariant
                i <= 9,
                b == self@.board,
                b.len() == 9,
                self.board@.len() == 9,
                forall|j: int| 0 <= j < i ==> #[trigger] b[j] != empty_cell(),
                first_winner_from(b, 0) is None,
            decreases 9 - i,
        {
            if cell_is_empty(&self.board[i]) {
                assert(b[i as int] == empty_cell());
                assert(!board_full(b));
                return None;
            }
            i = i + 1;
        }
        proof {
            reveal_strlit("Draw");
        }
        Some("Draw".to_owned())
    }

    /// What the server does next for a connected player: stop when the
    /// game is over, wait while it is the other player's turn, else let
    /// this player move.
    pub fn next_step(&self, player_id: usize) -> (s: TurnStep)
        ensures
            self@.game_over ==> s is Finished,
            !self@.game_over && self@.current_player != player_id ==> s is Wait,
            !self@.game_over && self@.current_player == player_id ==> s is Play,
    {
        if self.game_over {
            TurnStep::Finished
        } else if self.current_player != player_id {
            TurnStep::Wait
        } else {
            TurnStep::Play
        }
    }

    /// What a player reads when it is their turn: the board, then the
    /// request for a move.
    pub fn turn_prompt(&self) -> (s: String)
        ensures
            s@ == prompt_text(self@.board),
    {
        let mut s = String::new();
        s.append("Current Board: ");
        s.append(self.display_board().as_str());
        s.append("\n");
        s.append("Make Move From (0-8): \n");
        s
    }

    /// Plays the line a player typed on their turn. A line that is not a
    /// number leaves the game unchanged; so does a position that is off the
    /// board or taken. A legal move places the player's mark, passes the
    /// turn to the other player, and ends the game when it has a result.
    pub fn take_turn(&mut self, player_id: usize, input: &str) -> (t: TurnOutcome)
        requires
            !old(self)@.game_over,
            old(self)@.current_player == player_id,
        ensures
            ({
                let before = old(self)@;
                let after = final(self)@;
                match parse_unsigned(trim(input@), usize::MAX as nat) {
                    None => t is InvalidInput && after == before,
                    Some(p) => match move_result(before, p, symbol_text(player_id as nat)) {
                        None => t is Rejected && after == before,
                        Some(moved) => {
                            &&& after.board == moved.board
                            &&& after.current_player == other_player(player_id as nat)
                            &&& after.current_player == 3 - player_id
                            &&& match outcome(moved.board) {
                                None => t is Moved && !after.game_over,
                                Some(w) => after.game_over && (t matches TurnOutcome::GameOver {
                                    message,
                                } && message@ == result_text(w)),
                            }
                        },
                    },
                }
            }),
    {
        proof {
            use_type_invariant(&*self);
        }
        let position = match parse_usize_line(input) {
            Some(p) => p,
            None => {
                return TurnOutcome::InvalidInput;
            },
        };
        match self.make_move(position, player_symbol(player_id)) {
            Err(_) => TurnOutcome::Rejected,
            Ok(()) => {
                proof {
                    use_type_invariant(&*self);
                }
                self.current_player = if player_id == 1 {
                    2
                } else {
                    1
                };
                match self.winner_chacking() {
                    None => TurnOutcome::Moved,
                    Some(winner) => {
                        self.game_over = true;
                        TurnOutcome::GameOver { message: result_message(&winner) }
                    },
                }
            },
        }
    }
}

/// What the server does next for a connected player.
pub enum TurnStep {
    /// The game is over: stop serving this player.
    Finished,
    /// It is the other player's turn.
    Wait,
    /// It is this player's turn.
    Play,
}

/// The result of playing one input line.
pub enum TurnOutcome {
    /// The line was not a number.
    InvalidInput,
    /// The position was off the board or taken.
    Rejected,
    /// The mark was placed and the game goes on.
    Moved,
    /// The mark was placed and the game has a result.
    GameOver { message: String },
}

impl TurnOutcome {
    /// What the server writes back to the player after this outcome.
    pub fn reply(&self) -> (r: Option<String>)
        ensures
            self is InvalidInput ==> (r matches Some(s) && s@ == "Invalid input. Try again.\n"@),
            self is Rejected ==> (r matches Some(s) && s@ == "Game IS Finish\n"@),
            self is Moved ==> r is None,
            self matches TurnOutcome::GameOver { message } ==> (r matches Some(s) && s@
                == message@ + "\nGame Finish\n"@),
    {
        match self {
            TurnOutcome::InvalidInput => Some("Invalid input. Try again.\n".to_owned()),
            TurnOutcome::Rejected => Some("Game IS Finish\n".to_owned()),
            TurnOutcome::Moved => None,
            TurnOutcome::GameOver { message } => {
                let mut s = message.clone();
                s.append("\nGame Finish\n");
                Some(s)
            },
        }
    }
}

/// The mark of a player: player 1 plays with the circle, the other with
/// the cross.
pub fn player_symbol(player_id: usize) -> (s: &'static str)
    ensures
        s@ == symbol_text(player_id as nat),
{
    if player_id == 1 {
        "\u{1F17E}\u{FE0F}"
    } else {
        "\u{274E}"
    }
}

/// The announcement of a result.
pub fn result_message(winner: &String) -> (s: String)
    ensures
        s@ == result_text(winner@),
{
    proof {
        reveal_strlit("Draw");
    }
    let draw = "Draw".to_owned();
    if *winner == draw {
        "Game Over! It's a Draw \u{1F91D}".to_owned()
    } else {
        let mut s = "Game Over! Winner: ".to_owned();
        s.append(winner.as_str());
        s
    }
}

/// What a player reads when they join.
pub fn greeting(player_id: usize) -> (s: String)
    ensures
        s@ == greeting_text(player_id as nat),
{
    let mut s = "You are Player ".to_owned();
    push_decimal(&mut s, player_id);
    s.append(" (");
    s.append(player_symbol(player_id));
    s.append(")\n");
    s
}


// ---------------------------------------------------------------------
// Laws
// ---------------------------------------------------------------------

/// A fresh board has no result yet.
pub proof fn law_new_board_has_no_result()
    ensures
        outcome(Seq::new(9, |i: int| empty_cell())) is None,
{
    let b = Seq::new(9, |i: int| empty_cell());
    assert(first_winner_from(b, 8) is None);
    assert(first_winner_from(b, 0) is None) by {
        reveal_with_fuel(first_winner_from, 9);
    }
    assert(b[0] == empty_cell());
}

/// A move never changes a taken cell, and it fills exactly the chosen
/// cell, which was empty before.
pub proof fn law_move_keeps_taken_cells(v: GameView, position: nat, symbol: Seq<char>, i: int)
    requires
        game_wf(v),
        move_result(v, position, symbol) is Some,
        0 <= i < 9,
    ensures
        v.board[i] != empty_cell() ==> move_result(v, position, symbol)->0.board[i] == v.board[i],
        i != position ==> move_result(v, position, symbol)->0.board[i] == v.board[i],
        v.board[position as int] == empty_cell(),
        move_result(v, position, symbol)->0.board[position as int] == symbol,
        move_result(v, position, symbol)->0.current_player == v.current_player,
        move_result(v, position, symbol)->0.game_over == v.game_over,
{
}

/// A full board always has a result: the game cannot go on once every
/// cell is taken.
pub proof fn law_full_board_has_result(board: Seq<Seq<char>>)
    requires
        board.len() == 9,
        board_full(board),
    ensures
        outcome(board) is Some,
{
}

proof fn lemma_first_winner_justified(board: Seq<Seq<char>>, k: int, w: Seq<char>)
    requires
        first_winner_from(board, k) == Some(w),
    ensures
        exists|j: int| k <= j < 8 && #[trigger] line_won(board, j) && board[win_line(j).0] == w,
    decreases 8 - k,
{
    if !line_won(board, k) {
        lemma_first_winner_justified(board, k + 1, w);
        let j = choose|j: int| k + 1 <= j < 8 && #[trigger] line_won(board, j) && board[win_line(j).0] == w;
        assert(k <= j < 8 && line_won(board, j) && board[win_line(j).0] == w);
    }
}

/// Every result is justified: either some line holds three copies of the
/// announced mark, or the board is full and the result is a draw.
pub proof fn law_result_is_justified(board: Seq<Seq<char>>, w: Seq<char>)
    requires
        outcome(board) == Some(w),
    ensures
        (exists|k: int| 0 <= k < 8 && #[trigger] line_won(board, k) && board[win_line(k).0] == w)
            || (board_full(board) && w == draw_text()),
{
    if first_winner_from(board, 0) is Some {
        lemma_first_winner_justified(board, 0, w);
    }
}

/// A completed line is never missed: when line `k` is complete, the result
/// is the mark of a complete line at or before `k` in line order.
pub proof fn law_complete_line_is_seen(board: Seq<Seq<char>>, k: int)
    requires
        0 <= k < 8,
        line_won(board, k),
    ensures
        exists|j: int|
            0 <= j <= k && #[trigger] line_won(board, j) && outcome(board) == Some(
                board[win_line(j).0],
            ),
{
    lemma_complete_line_seen_from(board, 0, k);
}

proof fn lemma_complete_line_seen_from(board: Seq<Seq<char>>, i: int, k: int)
    requires
        0 <= i <= k < 8,
        line_won(board, k),
    ensures
        exists|j: int|
            i <= j <= k && #[trigger] line_won(board, j) && first_winner_from(board, i) == Some(
                board[win_line(j).0],
            ),
    decreases k - i,
{
    if !line_won(board, i) {
        lemma_complete_line_seen_from(board, i + 1, k);
        let j = choose|j: int|
            i + 1 <= j <= k && #[trigger] line_won(board, j) && first_winner_from(board, i + 1)
                == Some(board[win_line(j).0]);
        assert(i <= j <= k && line_won(board, j));
    } else {
        assert(line_won(board, i));
    }
}

/// Whether cells `a`, `b`, `c` form a row, a column or a diagonal of the
/// 3-by-3 grid, listed in increasing order.
pub open spec fn is_grid_line(a: int, b: int, c: int) -> bool {
    ||| (0 <= a < 9 && a % 3 == 0 && b == a + 1 && c == a + 2)
    ||| (0 <= a < 3 && b == a + 3 && c == a + 6)
    ||| (a == 0 && b == 4 && c == 8)
    ||| (a == 2 && b == 4 && c == 6)
}

/// Whether cells `a`, `b`, `c` all hold the same mark `w`, which is not
/// the single space of an empty cell.
pub open spec fn cells_hold(board: Seq<Seq<char>>, a: int, b: int, c: int, w: Seq<char>) -> bool {
    &&& w != seq![' ']
    &&& board[a] == w
    &&& board[b] == w
    &&& board[c] == w
}

/// Whether some row, column or diagonal holds three copies of one mark.
pub open spec fn some_grid_line_complete(board: Seq<Seq<char>>) -> bool {
    exists|a: int, b: int, c: int, w: Seq<char>|
        #[trigger] is_grid_line(a, b, c) && #[trigger] cells_hold(board, a, b, c, w)
}

/// The winning lines are exactly the three rows, the three columns and the
/// two diagonals: each is three distinct cells of the grid forming one of
/// them, and each of them is a winning line.
pub proof fn law_win_lines_are_grid_lines()
    ensures
        forall|k: int|
            0 <= k < 8 ==> {
                let (a, b, c) = #[trigger] win_line(k);
                &&& 0 <= a < b < c < 9
                &&& is_grid_line(a, b, c)
            },
        forall|a: int, b: int, c: int|
            #[trigger] is_grid_line(a, b, c) ==> exists|k: int| 0 <= k < 8 && #[trigger] win_line(k) == (a, b, c),
{
    assert forall|a: int, b: int, c: int| #[trigger] is_grid_line(a, b, c) implies exists|k: int|
        0 <= k < 8 && #[trigger] win_line(k) == (a, b, c) by {
        if b == a + 1 {
            if a == 0 {
                assert(win_line(0) == (a, b, c));
            } else if a == 3 {
                assert(win_line(1) == (a, b, c));
            } else {
                assert(win_line(2) == (a, b, c));
            }
        } else if b == a + 3 {
            if a == 0 {
                assert(win_line(3) == (a, b, c));
            } else if a == 1 {
                assert(win_line(4) == (a, b, c));
            } else {
                assert(win_line(5) == (a, b, c));
            }
        } else if a == 0 {
            assert(win_line(6) == (a, b, c));
        } else {
            assert(win_line(7) == (a, b, c));
        }
    }
}

proof fn lemma_line_won_is_grid_line(board: Seq<Seq<char>>, k: int)
    requires
        0 <= k < 8,
        line_won(board, k),
    ensures
        is_grid_line(win_line(k).0, win_line(k).1, win_line(k).2),
        cells_hold(board, win_line(k).0, win_line(k).1, win_line(k).2, board[win_line(k).0]),
{
    law_win_lines_are_grid_lines();
    assert(win_line(k) == #[trigger] win_line(k));
}

/// What the result of a board means, over the grid itself: a mark is
/// announced only when a row, column or diagonal holds three copies of it;
/// a draw only when every one of the nine cells is taken; a complete line
/// always gives a result; a board with an empty cell and no complete line
/// has no result; and a full board with no complete line is a draw.
pub proof fn law_outcome_meaning(board: Seq<Seq<char>>)
    requires
        board.len() == 9,
    ensures
        outcome(board) matches Some(w) ==> (exists|a: int, b: int, c: int|
            #[trigger] is_grid_line(a, b, c) && cells_hold(board, a, b, c, w)) || (w
            == seq!['D', 'r', 'a', 'w'] && forall|i: int| 0 <= i < 9 ==> board[i] != seq![' ']),
        some_grid_line_complete(board) ==> outcome(board) is Some,
        !some_grid_line_complete(board) && (exists|i: int| 0 <= i < 9 && board[i] == seq![' '])
            ==> outcome(board) is None,
        !some_grid_line_complete(board) && (forall|i: int| 0 <= i < 9 ==> board[i] != seq![' '])
            ==> outcome(board) == Some(seq!['D', 'r', 'a', 'w']),
{
    reveal_strlit("Draw");
    assert(draw_text() =~= seq!['D', 'r', 'a', 'w']);
    law_win_lines_are_grid_lines();
    if first_winner_from(board, 0) is Some {
        let w = first_winner_from(board, 0)->0;
        lemma_first_winner_justified(board, 0, w);
        let k = choose|k: int| 0 <= k < 8 && #[trigger] line_won(board, k) && board[win_line(k).0] == w;
        lemma_line_won_is_grid_line(board, k);
        let (a, b, c) = win_line(k);
        assert(is_grid_line(a, b, c) && cells_hold(board, a, b, c, w));
        assert(some_grid_line_complete(board));
    }
    if some_grid_line_complete(board) {
        let (a, b, c, w) = choose|a: int, b: int, c: int, w: Seq<char>|
            #[trigger] is_grid_line(a, b, c) && #[trigger] cells_hold(board, a, b, c, w);
        let k = choose|k: int| 0 <= k < 8 && #[trigger] win_line(k) == (a, b, c);
        assert(line_won(board, k));
        law_complete_line_is_seen(board, k);
    }
    if exists|i: int| 0 <= i < 9 && board[i] == seq![' '] {
        let i = choose|i: int| 0 <= i < 9 && board[i] == seq![' '];
        assert(!board_full(board)) by {
            assert(board[i] == empty_cell());
        }
    }
}

/// The turn passes: after players 1 and 2 the other player moves, so a
/// player never keeps the turn.
pub proof fn law_turn_passes(p: nat)
    requires
        p == 1 || p == 2,
    ensures
        other_player(p) == 3 - p,
        other_player(p) != p,
        other_player(other_player(p)) == p,
{
}

/// The pieces of the shown board, in order: the frame, and the label of
/// cell `i` at index `2 * i + 1`.
spec fn display_parts(board: Seq<Seq<char>>) -> Seq<Seq<char>> {
    let top = "\n---------------\n "@;
    let sep = " | "@;
    let mid = "\n___-___-___\n "@;
    let bot = "\n---------------"@;
    seq![
        top, cell_label(board, 0), sep, cell_label(board, 1), sep, cell_label(board, 2), mid,
        cell_label(board, 3), sep, cell_label(board, 4), sep, cell_label(board, 5), mid,
        cell_label(board, 6), sep, cell_label(board, 7), sep, cell_label(board, 8), bot,
    ]
}

/// The first `n` pieces, joined.
spec fn join_upto(parts: Seq<Seq<char>>, n: nat) -> Seq<char>
    decreases n,
{
    if n == 0 {
        Seq::empty()
    } else {
        join_upto(parts, (n - 1) as nat) + parts[n - 1]
    }
}

proof fn lemma_piece_occurs(parts: Seq<Seq<char>>, j: nat, n: nat)
    requires
        j < n <= parts.len(),
    ensures
        join_upto(parts, j).len() + parts[j as int].len() <= join_upto(parts, n).len(),
        join_upto(parts, n).subrange(
            join_upto(parts, j).len() as int,
            (join_upto(parts, j).len() + parts[j as int].len()) as int,
        ) == parts[j as int],
    decreases n,
{
    let a = join_upto(parts, j).len() as int;
    let len = parts[j as int].len() as int;
    if n == j + 1 {
        assert(join_upto(parts, n).subrange(a, a + len) =~= parts[j as int]);
    } else {
        lemma_piece_occurs(parts, j, (n - 1) as nat);
        let c = join_upto(parts, (n - 1) as nat);
        assert(join_upto(parts, n).subrange(a, a + len) =~= c.subrange(a, a + len));
    }
}

/// The shown board shows every mark: for each taken cell, its mark stands
/// in the display, and for each empty cell its number does.
pub proof fn law_display_shows_cells(board: Seq<Seq<char>>, i: int)
    requires
        board.len() == 9,
        0 <= i < 9,
    ensures
        board[i] != seq![' '] ==> exists|off: int|
            0 <= off && off + board[i].len() <= board_text(board).len() && #[trigger] board_text(
                board,
            ).subrange(off, off + board[i].len()) == board[i],
        board[i] == seq![' '] ==> exists|off: int|
            0 <= off && off + decimal(i as nat).len() <= board_text(board).len()
                && #[trigger] board_text(board).subrange(off, off + decimal(i as nat).len())
                == decimal(i as nat),
{
    let parts = display_parts(board);
    assert(board_text(board) =~= join_upto(parts, 19)) by {
        reveal_with_fuel(join_upto, 20);
    }
    let j = (2 * i + 1) as nat;
    lemma_piece_occurs(parts, j, 19);
    assert(parts[j as int] == cell_label(board, i));
    let off = join_upto(parts, j).len() as int;
    if board[i] == seq![' '] {
        assert(board[i] == empty_cell());
        assert(board_text(board).subrange(off, off + decimal(i as nat).len()) == decimal(i as nat));
    } else {
        assert(board[i] != empty_cell());
        assert(board_text(board).subrange(off, off + board[i].len()) == board[i]);
    }
}

// ---------------------------------------------------------------------
// Admission of players
// ---------------------------------------------------------------------

/// Counts the players that joined; a game has room for two.
pub struct Lobby {
    players: usize,
}

impl View for Lobby {
    type V = nat;

    closed spec fn view(&self) -> nat {
        self.players as nat
    }
}

impl Lobby {
    /// A lobby that nobody joined yet.
    pub fn new() -> (l: Self)
        ensures
            l@ == 0,
    {
        Lobby { players: 0 }
    }

    /// Accepts one more connection: the first two get player numbers 1 and
    /// 2, any later one is turned away.
    pub fn accept_player(&mut self) -> (r: Option<usize>)
        ensures
            old(self)@ < 2 ==> r == Some((old(self)@ + 1) as usize) && final(self)@ == old(self)@
                + 1,
            old(self)@ >= 2 ==> r is None && final(self)@ == old(self)@,
    {
        if self.players < 2 {
            self.players = self.players + 1;
            Some(self.players)
        } else {
            None
        }
    }
}

} // verus!
