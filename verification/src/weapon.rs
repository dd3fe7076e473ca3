use vstd::prelude::*;

verus! {

/// The kinds of weapon a fighter can carry.
#[derive(Debug, Clone, Copy, PartialEq, Eq, Hash, Structural)]
pub enum WeaponType {
    Katana,
    GreatSword,
    DualDaggers,
    Spear,
    WarHammer,
    Staff,
}

impl WeaponType {
    /// Every weapon, in catalog order.
    pub const ALL: [WeaponType; 6] = [
        WeaponType::Katana,
        WeaponType::GreatSword,
        WeaponType::DualDaggers,
        WeaponType::Spear,
        WeaponType::WarHammer,
        WeaponType::Staff,
    ];

    pub open spec fn spec_name(self) -> Seq<char> {
        match self {
            WeaponType::Katana => "Katana"@,
            WeaponType::GreatSword => "Great Sword"@,
            WeaponType::DualDaggers => "Dual Daggers"@,
            WeaponType::Spear => "Spear"@,
            WeaponType::WarHammer => "War Hammer"@,
            WeaponType::Staff => "Staff"@,
        }
    }

    /// The weapon's display name.
    pub fn name(self) -> (s: &'static str)
        ensures
            s@ == self.spec_name(),
    {
        match self {
            WeaponType::Katana => "Katana",
            WeaponType::GreatSword => "Great Sword",
            WeaponType::DualDaggers => "Dual Daggers",
            WeaponType::Spear => "Spear",
            WeaponType::WarHammer => "War Hammer",
            WeaponType::Staff => "Staff",
        }
    }
}

} // verus!
