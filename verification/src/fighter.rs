use crate::state_machine::{clamp_frames, ActiveAttack};
use crate::weapon::WeaponType;
use vstd::prelude::*;

verus! {

/// The fighters of the roster.
#[derive(Debug, Clone, Copy, PartialEq, Eq, Hash, Structural)]
pub enum FighterId {
    Kenzo,
    Mira,
    Thane,
    Yuki,
    Drago,
    Sage,
}

#[derive(Debug, Clone, Copy, PartialEq, Eq, Structural)]
pub enum FighterStyle {
    Balanced,
    Aggressive,
    Defensive,
    Speed,
    Power,
    Technical,
}

impl FighterId {
    /// Every fighter, in roster order.
    pub const ALL: [FighterId; 6] = [
        FighterId::Kenzo,
        FighterId::Mira,
        FighterId::Thane,
        FighterId::Yuki,
        FighterId::Drago,
        FighterId::Sage,
    ];

    pub open spec fn spec_name(self) -> Seq<char> {
        match self {
            FighterId::Kenzo => "Kenzo"@,
            FighterId::Mira => "Mira"@,
            FighterId::Thane => "Thane"@,
            FighterId::Yuki => "Yuki"@,
            FighterId::Drago => "Drago"@,
            FighterId::Sage => "Sage"@,
        }
    }

    pub open spec fn spec_style(self) -> FighterStyle {
        match self {
            FighterId::Kenzo => FighterStyle::Balanced,
            FighterId::Mira => FighterStyle::Speed,
            FighterId::Thane => FighterStyle::Defensive,
            FighterId::Yuki => FighterStyle::Technical,
            FighterId::Drago => FighterStyle::Power,
            FighterId::Sage => FighterStyle::Aggressive,
        }
    }

    pub open spec fn spec_default_weapon(self) -> WeaponType {
        match self {
            FighterId::Kenzo => WeaponType::Katana,
            FighterId::Mira => WeaponType::DualDaggers,
            FighterId::Thane => WeaponType::GreatSword,
            FighterId::Yuki => WeaponType::Spear,
            FighterId::Drago => WeaponType::WarHammer,
            FighterId::Sage => WeaponType::Staff,
        }
    }

    /// The fighter's display name.
    pub fn name(self) -> (s: &'static str)
        ensures
            s@ == self.spec_name(),
    {
        match self {
            FighterId::Kenzo => "Kenzo",
            FighterId::Mira => "Mira",
            FighterId::Thane => "Thane",
            FighterId::Yuki => "Yuki",
            FighterId::Drago => "Drago",
            FighterId::Sage => "Sage",
        }
    }

    /// The fighter's style of play.
    pub fn style(self) -> (s: FighterStyle)
        ensures
            s == self.spec_style(),
    {
        match self {
            FighterId::Kenzo => FighterStyle::Balanced,
            FighterId::Mira => FighterStyle::Speed,
            FighterId::Thane => FighterStyle::Defensive,
            FighterId::Yuki => FighterStyle::Technical,
            FighterId::Drago => FighterStyle::Power,
            FighterId::Sage => FighterStyle::Aggressive,
        }
    }

    /// The weapon the fighter enters a match with.
    pub fn default_weapon(self) -> (w: WeaponType)
        ensures
            w == self.spec_default_weapon(),
    {
        match self {
            FighterId::Kenzo => WeaponType::Katana,
            FighterId::Mira => WeaponType::DualDaggers,
            FighterId::Thane => WeaponType::GreatSword,
            FighterId::Yuki => WeaponType::Spear,
            FighterId::Drago => WeaponType::WarHammer,
            FighterId::Sage => WeaponType::Staff,
        }
    }
}

/// The error of choosing a fighter by a name that none goes by. The valid
/// choices are the names of `FighterId::ALL`.
#[derive(Debug, Clone, Copy, PartialEq, Eq, Structural)]
pub struct UnknownFighter;

/// The text that `str::to_lowercase` makes of `text`.
pub uninterp spec fn lowercase_of(text: Seq<char>) -> Seq<char>;

/// The fighter that goes by the given name, written in lower case.
pub open spec fn fighter_named(lower: Seq<char>) -> Option<FighterId> {
    if lower == "kenzo"@ {
        Some(FighterId::Kenzo)
    } else if lower == "mira"@ {
        Some(FighterId::Mira)
    } else if lower == "thane"@ {
        Some(FighterId::Thane)
    } else if lower == "yuki"@ {
        Some(FighterId::Yuki)
    } else if lower == "drago"@ {
        Some(FighterId::Drago)
    } else if lower == "sage"@ {
        Some(FighterId::Sage)
    } else {
        None
    }
}

/// Calls `str::to_lowercase` of std, which returns the lowercase equivalent
/// of the text as a new `String`. Nothing is claimed of the result but that
/// it is the text that the call makes of this argument.
#[verifier::external_body]
fn lowercase(name: &str) -> (lower: String)
    ensures
        lower@ == lowercase_of(name@),
{
    name.to_lowercase()
}

/// Whether a text is exactly the given word.
fn is_word(text: &String, word: &str) -> (same: bool)
    ensures
        same == (text@ == word@),
{
    let owned = word.to_owned();
    *text == owned
}

/// The fighter that goes by a name already in lower case.
pub fn fighter_by_lowercase_name(lower: &String) -> (fighter: Option<FighterId>)
    ensures
        fighter == fighter_named(lower@),
{
    if is_word(lower, "kenzo") {
        Some(FighterId::Kenzo)
    } else if is_word(lower, "mira") {
        Some(FighterId::Mira)
    } else if is_word(lower, "thane") {
        Some(FighterId::Thane)
    } else if is_word(lower, "yuki") {
        Some(FighterId::Yuki)
    } else if is_word(lower, "drago") {
        Some(FighterId::Drago)
    } else if is_word(lower, "sage") {
        Some(FighterId::Sage)
    } else {
        None
    }
}

/// The fighter that goes by `name`, in whatever case it is written; a name
/// that no fighter goes by is an error.
pub fn parse_fighter_id(name: &str) -> (parsed: Result<FighterId, UnknownFighter>)
    ensures
        parsed == match fighter_named(lowercase_of(name@)) {
            Some(id) => Ok::<FighterId, UnknownFighter>(id),
            None => Err(UnknownFighter),
        },
{
    let lower = lowercase(name);
    match fighter_by_lowercase_name(&lower) {
        Some(id) => Ok(id),
        None => Err(UnknownFighter),
    }
}

/// The frame counts of one move: startup, active and recovery.
#[derive(Debug, Clone, Copy, PartialEq, Eq, Structural)]
pub struct AttackFrames {
    pub startup_frames: u32,
    pub active_frames: u32,
    pub recovery_frames: u32,
}

impl AttackFrames {
    /// The whole length of the move, clamped to what a counter can hold.
    pub fn total_frames(&self) -> (total: u32)
        ensures
            total == clamp_frames(self.startup_frames + self.active_frames + self.recovery_frames),
    {
        self.startup_frames.saturating_add(self.active_frames).saturating_add(
            self.recovery_frames,
        )
    }
}

/// The frame data of a fighter as armed: one entry per attack, startup
/// already scaled by the weapon's speed, and the length of a dash.
#[derive(Debug, Clone, Copy, PartialEq, Eq, Structural)]
pub struct MoveFrames {
    pub light_attack: AttackFrames,
    pub heavy_attack: AttackFrames,
    pub special_attack: AttackFrames,
    pub mid_kick: AttackFrames,
    pub low_kick: AttackFrames,
    pub aerial: AttackFrames,
    pub combo_finisher: AttackFrames,
    pub super_attack: AttackFrames,
    pub dash_frames: u32,
}

impl MoveFrames {
    pub open spec fn spec_get(&self, attack: ActiveAttack) -> AttackFrames {
        match attack {
            ActiveAttack::Light => self.light_attack,
            ActiveAttack::Heavy => self.heavy_attack,
            ActiveAttack::Special => self.special_attack,
            ActiveAttack::MidKick => self.mid_kick,
            ActiveAttack::LowKick => self.low_kick,
            ActiveAttack::Aerial => self.aerial,
            ActiveAttack::ComboFinisher => self.combo_finisher,
            ActiveAttack::Super => self.super_attack,
        }
    }

    /// The frame counts of the given attack.
    pub fn get(&self, attack: ActiveAttack) -> (frames: AttackFrames)
        ensures
            frames == self.spec_get(attack),
    {
        match attack {
            ActiveAttack::Light => self.light_attack,
            ActiveAttack::Heavy => self.heavy_attack,
            ActiveAttack::Special => self.special_attack,
            ActiveAttack::MidKick => self.mid_kick,
            ActiveAttack::LowKick => self.low_kick,
            ActiveAttack::Aerial => self.aerial,
            ActiveAttack::ComboFinisher => self.combo_finisher,
            ActiveAttack::Super => self.super_attack,
        }
    }
}

} // verus!
