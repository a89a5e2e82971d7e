use vstd::prelude::*;

verus! {

/// Health of a module after taking `amount` damage: it drops by `amount`
/// and stops at zero. A negative `amount` repairs without any upper bound.
pub open spec fn damaged(health: int, amount: int) -> int {
    if health - amount < 0 {
        0
    } else {
        health - amount
    }
}

/// A module counts as wrecked once its health is zero or below.
pub open spec fn wrecked(health: int) -> bool {
    health <= 0
}

/// Health of the three modules of a fighter, with its repair speed.
#[derive(Clone, Debug, PartialEq, Eq, Structural)]
pub struct FighterHealth {
    pub engines: i32,
    pub core: i32,
    pub weapons: i32,
    pub repair_speed: i32,
}

impl FighterHealth {
    /// Every module starts at `max_health`.
    pub fn new(max_health: i32, repair_speed: i32) -> (res: Self)
        ensures
            res.engines == max_health,
            res.core == max_health,
            res.weapons == max_health,
            res.repair_speed == repair_speed,
    {
        FighterHealth { engines: max_health, core: max_health, weapons: max_health, repair_speed }
    }

    /// Damages the engines; health never drops below zero.
    pub fn injure_engines(&mut self, amount: i32)
        requires
            i32::MIN <= old(self).engines - amount <= i32::MAX,
        ensures
            final(self).engines == damaged(old(self).engines as int, amount as int),
            old(self).engines - amount >= 0 ==> final(self).engines == old(self).engines - amount,
            old(self).engines - amount < 0 ==> final(self).engines == 0,
            final(self).core == old(self).core,
            final(self).weapons == old(self).weapons,
            final(self).repair_speed == old(self).repair_speed,
    {
        if self.engines - amount < 0 {
            self.engines = 0
        } else {
            self.engines -= amount
        }
    }

    /// Damages the core; health never drops below zero.
    pub fn injure_core(&mut self, amount: i32)
        requires
            i32::MIN <= old(self).core - amount <= i32::MAX,
        ensures
            final(self).core == damaged(old(self).core as int, amount as int),
            old(self).core - amount >= 0 ==> final(self).core == old(self).core - amount,
            old(self).core - amount < 0 ==> final(self).core == 0,
            final(self).engines == old(self).engines,
            final(self).weapons == old(self).weapons,
            final(self).repair_speed == old(self).repair_speed,
    {
        if self.core - amount < 0 {
            self.core = 0
        } else {
            self.core -= amount
        }
    }

    /// Damages the weapon module; health never drops below zero.
    pub fn injure_weapon_module(&mut self, amount: i32)
        requires
            i32::MIN <= old(self).weapons - amount <= i32::MAX,
        ensures
            final(self).weapons == damaged(old(self).weapons as int, amount as int),
            old(self).weapons - amount >= 0 ==> final(self).weapons == old(self).weapons - amount,
            old(self).weapons - amount < 0 ==> final(self).weapons == 0,
            final(self).engines == old(self).engines,
            final(self).core == old(self).core,
            final(self).repair_speed == old(self).repair_speed,
    {
        if self.weapons - amount < 0 {
            self.weapons = 0
        } else {
            self.weapons -= amount
        }
    }

    pub fn are_engines_wrecked(&self) -> (res: bool)
        ensures
            res == wrecked(self.engines as int),
            res == (self.engines <= 0),
    {
        self.engines <= 0
    }

    pub fn are_weapons_wrecked(&self) -> (res: bool)
        ensures
            res == wrecked(self.weapons as int),
            res == (self.weapons <= 0),
    {
        self.weapons <= 0
    }

    /// The ship is wrecked when its core is.
    pub fn is_ship_wrecked(&self) -> (res: bool)
        ensures
            res == wrecked(self.core as int),
            res == (self.core <= 0),
    {
        self.core <= 0
    }
}

/// Damage that leaves a module at zero or above takes off exactly the
/// amount; damage that would take it below zero leaves it at exactly zero.
pub proof fn lemma_damage_exact(health: int, amount: int)
    ensures
        health - amount >= 0 ==> damaged(health, amount) == health - amount,
        health - amount < 0 ==> damaged(health, amount) == 0,
{
}

/// A module is wrecked exactly when its health is zero or below; any
/// positive health is intact.
pub proof fn lemma_wrecked_exactly_at_most_zero(health: int)
    ensures
        wrecked(health) <==> health <= 0,
        health > 0 ==> !wrecked(health),
{
}

/// Damage never drives a module that was not below zero under zero.
pub proof fn lemma_damage_never_negative(health: int, amount: int)
    requires
        health >= 0,
    ensures
        damaged(health, amount) >= 0,
{
}

/// Damage by a non-negative amount never raises a module's health.
pub proof fn lemma_damage_never_heals(health: int, amount: int)
    requires
        health >= 0,
        amount >= 0,
    ensures
        damaged(health, amount) <= health,
{
}

/// A wrecked module stays wrecked, at zero, under further non-negative damage.
pub proof fn lemma_wrecked_stays_wrecked(health: int, amount: int)
    requires
        wrecked(health),
        amount >= 0,
    ensures
        damaged(health, amount) == 0,
        wrecked(damaged(health, amount)),
{
}

/// Two hits of non-negative damage leave a module where one hit of their sum would.
pub proof fn lemma_damage_adds_up(health: int, first: int, second: int)
    requires
        first >= 0,
        second >= 0,
    ensures
        damaged(damaged(health, first), second) == damaged(health, first + second),
{
}

} // verus!
