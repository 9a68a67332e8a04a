//! The caller-facing error taxonomy and the small request/response records
//! that travel with it.
//!
//! Every core operation reports success or exactly one of these kinds; none
//! of them is fatal and the core never retries on its own.

use vstd::prelude::*;

verus! {

/// Everything that can go wrong in a core operation.
#[derive(Debug, Clone, Copy, PartialEq, Eq, Structural)]
pub enum Error {
    /// Creating a game id that already exists.
    GameConflict,
    /// Operating on an unknown game id.
    GameNotFound,
    /// Joining a game that already has two players.
    PlayerConflict,
    /// Answering as a player not seated in the game.
    PlayerNotFound,
    /// Joining after the current round has any answer.
    RoundNotInStartState,
    /// Answering after the current round is already complete.
    RoundNotInCollectingAnswersState,
}

/// The identifier of an error kind, as a caller sees it.
pub open spec fn error_name(e: Error) -> Seq<char> {
    match e {
        Error::GameConflict => "GameConflict"@,
        Error::GameNotFound => "GameNotFound"@,
        Error::PlayerConflict => "PlayerConflict"@,
        Error::PlayerNotFound => "PlayerNotFound"@,
        Error::RoundNotInStartState => "RoundNotInStartState"@,
        Error::RoundNotInCollectingAnswersState => "RoundNotInCollectingAnswersState"@,
    }
}

/// The human-readable description of an error kind.
pub open spec fn error_message(e: Error) -> Seq<char> {
    match e {
        Error::GameConflict => "game conflict"@,
        Error::GameNotFound => "game not found"@,
        Error::PlayerConflict => "player conflict"@,
        Error::PlayerNotFound => "player not found"@,
        Error::RoundNotInStartState => "round not in start state"@,
        Error::RoundNotInCollectingAnswersState => "round not in collecting answer state"@,
    }
}

impl Error {
    /// The identifier of the error kind.
    pub fn name(&self) -> (r: String)
        ensures
            r@ == error_name(*self),
    {
        match self {
            Error::GameConflict => "GameConflict".to_owned(),
            Error::GameNotFound => "GameNotFound".to_owned(),
            Error::PlayerConflict => "PlayerConflict".to_owned(),
            Error::PlayerNotFound => "PlayerNotFound".to_owned(),
            Error::RoundNotInStartState => "RoundNotInStartState".to_owned(),
            Error::RoundNotInCollectingAnswersState => {
                "RoundNotInCollectingAnswersState".to_owned()
            },
        }
    }

    /// The human-readable description of the error kind.
    pub fn message(&self) -> (r: String)
        ensures
            r@ == error_message(*self),
    {
        match self {
            Error::GameConflict => "game conflict".to_owned(),
            Error::GameNotFound => "game not found".to_owned(),
            Error::PlayerConflict => "player conflict".to_owned(),
            Error::PlayerNotFound => "player not found".to_owned(),
            Error::RoundNotInStartState => "round not in start state".to_owned(),
            Error::RoundNotInCollectingAnswersState => {
                "round not in collecting answer state".to_owned()
            },
        }
    }
}

/// The body of a failed request: the error's identifier and its description.
#[derive(Debug)]
pub struct BadRequest {
    pub error: String,
    pub message: String,
}

impl BadRequest {
    pub fn new(error: Error) -> (r: BadRequest)
        ensures
            r.error@ == error_name(error),
            r.message@ == error_message(error),
    {
        BadRequest { error: error.name(), message: error.message() }
    }
}

/// The body of a request that carries a prompt.
#[derive(Debug, Clone)]
pub struct PromptData {
    pub prompt: String,
}

impl PromptData {
    pub fn new(prompt: &str) -> (r: PromptData)
        ensures
            r.prompt@ == prompt@,
    {
        PromptData { prompt: prompt.to_owned() }
    }
}

/// The body of a request that identifies the submitting player.
#[derive(Debug, Clone)]
pub struct PlayerData {
    /// The player with which the request is associated.
    pub player: String,
}

impl PlayerData {
    pub fn new(player: &str) -> (r: PlayerData)
        ensures
            r.player@ == player@,
    {
        PlayerData { player: player.to_owned() }
    }
}

} // verus!
