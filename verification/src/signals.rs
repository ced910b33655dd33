//! The closed sets of messages exchanged between the orchestration engine
//! and its collaborators: one tagged union per channel boundary.

use vstd::prelude::*;

verus! {

/// Signals the orchestrator receives from the other collaborators.
#[derive(Debug)]
pub enum MusicPlayerLogicSignals {
    PrepareNextFile,
    PlaybackEnded,
    PlayPrev,
    End,
    BrokenUrl,
}

/// Commands for the playback driver.
#[derive(Debug)]
pub enum LibMpvSignals {
    RemoveBrokenItem(usize),
    AddAudio(String),
    PlayNext,
    PlayPrev,
    PauseResume,
    SetVolume(i64),
    End,
}

/// Which screen the presentation layer shows.
#[derive(PartialEq, Eq, Hash, Debug, Clone)]
pub enum TuiState {
    Player,
    History,
    Help,
}

impl TuiState {
    /// The screen's name, as commands and options spell it.
    pub fn to_str(&self) -> (r: &'static str)
        ensures
            *self is Player ==> r@ == "player"@,
            *self is History ==> r@ == "history"@,
            *self is Help ==> r@ == "help"@,
    {
        match self {
            TuiState::Player => "player",
            TuiState::History => "history",
            TuiState::Help => "help",
        }
    }
}

/// Commands for the presentation layer.
#[derive(Debug)]
pub enum TuiSignals {
    EnterCommandMode(bool),
    UpdateCommandText(char),
    SetCommandText(String),
    UpdateCommandTextBackspace,
    Start,
    AudioReady,
    End,
    PlaybackPause,
    PlaybackResume,
    UpdateTitle(String),
    UpdateDuration(u64),
    UpdateState(TuiState),
    UpdateHelpStr(String),
    UpdateVolume(i64),
    ModifyScroll(i16),
    Quit,
}

/// Commands for the OS now-playing integration.
#[derive(Debug)]
pub enum OSInterfaceSignals {
    Pause,
    Resume,
    PlayNext,
    PlayPrev,
    UpdateMetadataTitle(String),
    End,
}

/// Commands for the user-input reader.
#[derive(Debug)]
pub enum TuiInputHandlerSignals {
    Quit,
    ClipboardCopyVideoUrl(String),
}

/// Commands for the logger thread.
#[derive(Debug)]
pub enum LogSignals {
    Message(String),
    Quit,
}

} // verus!
