//! Graduated sanctions: each category has a board of sanctions, and each
//! player a cursor per category that says which one comes next.

use vstd::prelude::*;
use crate::text::{integer_of, parse_i64, skip_chars};

verus! {

/// One sanction of a board: `K` kicks; `B` bans and `M` mutes, for the number
/// of seconds that follows the letter, or for good when none does.
#[derive(Debug, Clone, Copy, PartialEq, Eq, Structural)]
pub enum Sanction {
    Kick,
    Ban(Option<i64>),
    Mute(Option<i64>),
}

#[derive(Debug, Clone, Copy, PartialEq, Eq, Structural)]
pub enum SanctionError {
    /// The category's board lists no sanction.
    EmptyBoard,
    /// A sanction with no letter.
    Empty,
    /// A duration that is not an integer.
    InvalidDuration,
    /// A letter other than `K`, `B` and `M`.
    UnknownKind,
}

/// The sanction that a board entry spells.
pub open spec fn sanction_of(s: Seq<char>) -> Result<Sanction, SanctionError> {
    if s.len() == 0 {
        Err(SanctionError::Empty)
    } else if s.len() > 1 && integer_of(s.skip(1)) is None {
        Err(SanctionError::InvalidDuration)
    } else {
        let d: Option<i64> = if s.len() == 1 { None } else { Some(integer_of(s.skip(1)).unwrap() as i64) };
        if s[0] == 'K' {
            Ok(Sanction::Kick)
        } else if s[0] == 'B' {
            Ok(Sanction::Ban(d))
        } else if s[0] == 'M' {
            Ok(Sanction::Mute(d))
        } else {
            Err(SanctionError::UnknownKind)
        }
    }
}

/// Reads a board entry.
pub fn parse_sanction(s: &str) -> (r: Result<Sanction, SanctionError>)
    ensures
        r == sanction_of(s@),
{
    let n = s.unicode_len();
    if n == 0 {
        return Err(SanctionError::Empty);
    }
    let d: Option<i64> = if n == 1 {
        None
    } else {
        let rest = skip_chars(s, 1);
        match parse_i64(rest.as_str()) {
            Some(v) => Some(v),
            None => return Err(SanctionError::InvalidDuration),
        }
    };
    let c = s.get_char(0);
    if c == 'K' {
        Ok(Sanction::Kick)
    } else if c == 'B' {
        Ok(Sanction::Ban(d))
    } else if c == 'M' {
        Ok(Sanction::Mute(d))
    } else {
        Err(SanctionError::UnknownKind)
    }
}

/// The cursor a sanction is read at: one back, not below 0, when it is lifted.
pub open spec fn read_cursor(i: int, lift: bool) -> int {
    if lift {
        if i > 0 { i - 1 } else { 0 }
    } else {
        i
    }
}

/// The board position for cursor `i`: past the end (or before the start),
/// the last entry.
pub open spec fn board_index(i: int, len: int) -> int {
    if 0 <= i < len { i } else { len - 1 }
}

/// The cursor stored after a sanction: one further (not past `i32::MAX`),
/// or, when it is lifted, the cursor it was read at.
pub open spec fn next_cursor(i: int, lift: bool) -> int {
    if lift {
        read_cursor(i, lift)
    } else if i < i32::MAX {
        i + 1
    } else {
        i
    }
}

/// What applying or lifting a sanction does.
#[derive(Debug, Clone, Copy, PartialEq, Eq, Structural)]
pub enum SanctionOutcome {
    /// The player is disconnected, if online.
    Kicked,
    /// A ban for this many seconds, or for good.
    Banned(Option<i64>),
    /// A mute for this many seconds, or for good.
    Muted(Option<i64>),
    /// The player's ban is removed.
    LiftBan,
    /// The player's mute is removed.
    LiftMute,
    /// Nothing to do.
    Unchanged,
    /// The player is already banned, or already muted: nothing is done.
    Conflict,
}

/// The outcome of sanction `s` for a player, given whether it is banned or
/// muted now.
pub open spec fn outcome_of(s: Sanction, lift: bool, banned: bool, muted: bool) -> SanctionOutcome {
    match s {
        Sanction::Kick => if lift { SanctionOutcome::Unchanged } else { SanctionOutcome::Kicked },
        Sanction::Ban(d) => if lift {
            if banned { SanctionOutcome::LiftBan } else { SanctionOutcome::Unchanged }
        } else if banned {
            SanctionOutcome::Conflict
        } else {
            SanctionOutcome::Banned(d)
        },
        Sanction::Mute(d) => if lift {
            if muted { SanctionOutcome::LiftMute } else { SanctionOutcome::Unchanged }
        } else if muted {
            SanctionOutcome::Conflict
        } else {
            SanctionOutcome::Muted(d)
        },
    }
}

/// A sanction decided: the sanction read, what it does, and the cursor to
/// store (none after a conflict).
#[derive(Debug, Clone, Copy, PartialEq, Eq, Structural)]
pub struct SanctionPlan {
    pub sanction: Sanction,
    pub outcome: SanctionOutcome,
    pub cursor: Option<i32>,
}

/// Decides a sanction, or its lifting, for a player whose cursor in the
/// category is `cursor`: the board entry at the cursor (clamped to the last)
/// is read, and applied or lifted.
pub fn plan_sanction(board: &Vec<String>, cursor: i32, lift: bool, banned: bool, muted: bool) -> (r: Result<SanctionPlan, SanctionError>)
    ensures
        board@.len() == 0 ==> r == Err::<SanctionPlan, SanctionError>(SanctionError::EmptyBoard),
        board@.len() > 0 ==> {
            let at = board_index(read_cursor(cursor as int, lift), board@.len() as int);
            match sanction_of(board@[at]@) {
                Err(e) => r == Err::<SanctionPlan, SanctionError>(e),
                Ok(s) => r is Ok && r->Ok_0.sanction == s
                    && r->Ok_0.outcome == outcome_of(s, lift, banned, muted)
                    && r->Ok_0.cursor == if outcome_of(s, lift, banned, muted) == SanctionOutcome::Conflict {
                        None::<i32>
                    } else {
                        Some(next_cursor(cursor as int, lift) as i32)
                    },
            }
        },
{
    let n = board.len();
    if n == 0 {
        return Err(SanctionError::EmptyBoard);
    }
    let at: i32 = if lift {
        if cursor > 0 { cursor - 1 } else { 0 }
    } else {
        cursor
    };
    let idx: usize = if at >= 0 && (at as usize) < n { at as usize } else { n - 1 };
    let s = match parse_sanction(board[idx].as_str()) {
        Ok(s) => s,
        Err(e) => return Err(e),
    };
    let outcome = match s {
        Sanction::Kick => if lift { SanctionOutcome::Unchanged } else { SanctionOutcome::Kicked },
        Sanction::Ban(d) => if lift {
            if banned { SanctionOutcome::LiftBan } else { SanctionOutcome::Unchanged }
        } else if banned {
            SanctionOutcome::Conflict
        } else {
            SanctionOutcome::Banned(d)
        },
        Sanction::Mute(d) => if lift {
            if muted { SanctionOutcome::LiftMute } else { SanctionOutcome::Unchanged }
        } else if muted {
            SanctionOutcome::Conflict
        } else {
            SanctionOutcome::Muted(d)
        },
    };
    let next: Option<i32> = if outcome == SanctionOutcome::Conflict {
        None
    } else if lift {
        Some(at)
    } else if cursor < i32::MAX {
        Some(cursor + 1)
    } else {
        Some(cursor)
    };
    Ok(SanctionPlan { sanction: s, outcome, cursor: next })
}

/// Successive sanctions read the board at 0, 1, 2, ... and stay on its last
/// entry once past it (the cursor itself stops at `i32::MAX`); lifting steps
/// the cursor back by one, not below 0, whatever the kind of sanction.
pub proof fn lemma_sanction_cursor(i: int, len: int)
    requires
        0 <= i <= i32::MAX,
        len > 0,
    ensures
        board_index(read_cursor(i, false), len) == if i < len { i } else { len - 1 },
        next_cursor(i, false) == if i < i32::MAX { i + 1 } else { i },
        next_cursor(i, false) >= i,
        next_cursor(i, true) == if i > 0 { i - 1 } else { 0 },
        i < i32::MAX ==> board_index(read_cursor(next_cursor(i, false), true), len) == board_index(i, len),
{
}

} // verus!
