//! Enums that represent various parts of the game's current state, each
//! stored in emulated memory as a single byte with a closed set of legal
//! discriminant values.

use crate::codec::GameValue;
use crate::endian::EndianAware;
use vstd::prelude::*;

verus! {

/// Primarily useful for checking whether a scene is loaded and active.
#[derive(Clone, Copy, Debug, PartialEq, Eq, Structural)]
pub enum GameOstrich {
    /// A loading screen is active.
    Loading,
    /// An FMV is playing.
    PlayingMovie,
    /// A scene is loaded and active.
    InScene,
}

impl GameOstrich {
    /// The discriminant byte this variant is stored as.
    pub open spec fn spec_byte(self) -> u8 {
        match self {
            GameOstrich::Loading => 0,
            GameOstrich::PlayingMovie => 1,
            GameOstrich::InScene => 2,
        }
    }
}

impl EndianAware for GameOstrich {
    open spec fn spec_needs_swap() -> bool {
        false
    }

    fn needs_swap() -> bool {
        false
    }
}

impl GameValue for GameOstrich {
    open spec fn spec_width() -> nat {
        1
    }

    open spec fn host_bytes(self) -> Seq<u8> {
        seq![self.spec_byte()]
    }

    open spec fn valid_bytes(s: Seq<u8>) -> bool {
        s.len() == 1 && s[0] <= 2
    }

    proof fn lemma_image_valid(self) {
    }

    proof fn lemma_image_injective(self, other: Self) {
        if self.host_bytes() == other.host_bytes() {
            assert(self.host_bytes()[0] == other.host_bytes()[0]);
        }
    }

    fn width() -> usize {
        1
    }

    fn encode(&self) -> (r: Vec<u8>) {
        let b: u8 = match *self {
            GameOstrich::Loading => 0,
            GameOstrich::PlayingMovie => 1,
            GameOstrich::InScene => 2,
        };
        let mut r: Vec<u8> = Vec::new();
        r.push(b);
        assert(r@ =~= self.host_bytes());
        r
    }

    fn decode(bytes: &[u8]) -> (r: Option<Self>) {
        let v = match bytes[0] {
            0 => Some(GameOstrich::Loading),
            1 => Some(GameOstrich::PlayingMovie),
            2 => Some(GameOstrich::InScene),
            _ => None,
        };
        proof {
            if v is Some {
                assert(v->0.host_bytes() =~= bytes@);
            }
        }
        v
    }
}

/// Macro-level game state, such as menus versus active play.
#[derive(Clone, Copy, Debug, PartialEq, Eq, Structural)]
pub enum GameMode {
    /// Active when the game first starts, until the logo splash-screens.
    Boot,
    /// Logo splash-screen FMVs.
    Intro,
    /// On the main menu.
    Title,
    /// Unknown, appears unused.
    Start,
    /// The load save-game screen.
    Load,
    /// Unknown, appears unused.
    Options,
    /// The save-game menu.
    Save,
    /// In the pause menu.
    Pause,
    /// Unknown, appears unused.
    Stall,
    /// Unknown, appears unused.
    WorldMap,
    /// Unknown, likely a left-over from an earlier game.
    MonsterGallery,
    /// Unknown, not used by the concept art gallery in the theater.
    ConceptArtGallery,
    /// Active while playing in-game and unpaused. Transitioning to this
    /// while on the main menu starts a new game.
    Game,
}

impl GameMode {
    /// The discriminant byte this variant is stored as.
    pub open spec fn spec_byte(self) -> u8 {
        match self {
            GameMode::Boot => 0,
            GameMode::Intro => 1,
            GameMode::Title => 2,
            GameMode::Start => 3,
            GameMode::Load => 4,
            GameMode::Options => 5,
            GameMode::Save => 6,
            GameMode::Pause => 7,
            GameMode::Stall => 8,
            GameMode::WorldMap => 9,
            GameMode::MonsterGallery => 10,
            GameMode::ConceptArtGallery => 11,
            GameMode::Game => 12,
        }
    }
}

impl EndianAware for GameMode {
    open spec fn spec_needs_swap() -> bool {
        false
    }

    fn needs_swap() -> bool {
        false
    }
}

impl GameValue for GameMode {
    open spec fn spec_width() -> nat {
        1
    }

    open spec fn host_bytes(self) -> Seq<u8> {
        seq![self.spec_byte()]
    }

    open spec fn valid_bytes(s: Seq<u8>) -> bool {
        s.len() == 1 && s[0] <= 12
    }

    proof fn lemma_image_valid(self) {
    }

    proof fn lemma_image_injective(self, other: Self) {
        if self.host_bytes() == other.host_bytes() {
            assert(self.host_bytes()[0] == other.host_bytes()[0]);
        }
    }

    fn width() -> usize {
        1
    }

    fn encode(&self) -> (r: Vec<u8>) {
        let b: u8 = match *self {
            GameMode::Boot => 0,
            GameMode::Intro => 1,
            GameMode::Title => 2,
            GameMode::Start => 3,
            GameMode::Load => 4,
            GameMode::Options => 5,
            GameMode::Save => 6,
            GameMode::Pause => 7,
            GameMode::Stall => 8,
            GameMode::WorldMap => 9,
            GameMode::MonsterGallery => 10,
            GameMode::ConceptArtGallery => 11,
            GameMode::Game => 12,
        };
        let mut r: Vec<u8> = Vec::new();
        r.push(b);
        assert(r@ =~= self.host_bytes());
        r
    }

    fn decode(bytes: &[u8]) -> (r: Option<Self>) {
        let v = match bytes[0] {
            0 => Some(GameMode::Boot),
            1 => Some(GameMode::Intro),
            2 => Some(GameMode::Title),
            3 => Some(GameMode::Start),
            4 => Some(GameMode::Load),
            5 => Some(GameMode::Options),
            6 => Some(GameMode::Save),
            7 => Some(GameMode::Pause),
            8 => Some(GameMode::Stall),
            9 => Some(GameMode::WorldMap),
            10 => Some(GameMode::MonsterGallery),
            11 => Some(GameMode::ConceptArtGallery),
            12 => Some(GameMode::Game),
            _ => None,
        };
        proof {
            if v is Some {
                assert(v->0.host_bytes() =~= bytes@);
            }
        }
        v
    }
}

/// Finer-grained state used mostly for tracking states during gameplay.
#[derive(Clone, Copy, Debug, PartialEq, Eq, Structural)]
pub enum GameState {
    /// Used while on the title screen.
    FirstTime,
    /// Used during general play.
    Play,
    /// Transitioning to this state reloads the current level as if the
    /// player had died.
    LoseChance,
    /// Appears unused. Transitioning to this state fades out to the main
    /// menu.
    GameOver,
    /// Unknown, appears unused.
    GameStats,
    /// Used when loading a new level.
    SceneSwitch,
    /// Appears unused. Behaves like [`Self::Exit`].
    Dead,
    /// Transitioning to this state returns the game to the main menu.
    Exit,
}

impl GameState {
    /// The discriminant byte this variant is stored as.
    pub open spec fn spec_byte(self) -> u8 {
        match self {
            GameState::FirstTime => 0,
            GameState::Play => 1,
            GameState::LoseChance => 2,
            GameState::GameOver => 3,
            GameState::GameStats => 4,
            GameState::SceneSwitch => 5,
            GameState::Dead => 6,
            GameState::Exit => 7,
        }
    }
}

impl EndianAware for GameState {
    open spec fn spec_needs_swap() -> bool {
        false
    }

    fn needs_swap() -> bool {
        false
    }
}

impl GameValue for GameState {
    open spec fn spec_width() -> nat {
        1
    }

    open spec fn host_bytes(self) -> Seq<u8> {
        seq![self.spec_byte()]
    }

    open spec fn valid_bytes(s: Seq<u8>) -> bool {
        s.len() == 1 && s[0] <= 7
    }

    proof fn lemma_image_valid(self) {
    }

    proof fn lemma_image_injective(self, other: Self) {
        if self.host_bytes() == other.host_bytes() {
            assert(self.host_bytes()[0] == other.host_bytes()[0]);
        }
    }

    fn width() -> usize {
        1
    }

    fn encode(&self) -> (r: Vec<u8>) {
        let b: u8 = match *self {
            GameState::FirstTime => 0,
            GameState::Play => 1,
            GameState::LoseChance => 2,
            GameState::GameOver => 3,
            GameState::GameStats => 4,
            GameState::SceneSwitch => 5,
            GameState::Dead => 6,
            GameState::Exit => 7,
        };
        let mut r: Vec<u8> = Vec::new();
        r.push(b);
        assert(r@ =~= self.host_bytes());
        r
    }

    fn decode(bytes: &[u8]) -> (r: Option<Self>) {
        let v = match bytes[0] {
            0 => Some(GameState::FirstTime),
            1 => Some(GameState::Play),
            2 => Some(GameState::LoseChance),
            3 => Some(GameState::GameOver),
            4 => Some(GameState::GameStats),
            5 => Some(GameState::SceneSwitch),
            6 => Some(GameState::Dead),
            7 => Some(GameState::Exit),
            _ => None,
        };
        proof {
            if v is Some {
                assert(v->0.host_bytes() =~= bytes@);
            }
        }
        v
    }
}

} // verus!
