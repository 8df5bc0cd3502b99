use crate::bullet::BulletType;
use vstd::prelude::*;

verus! {

/// Charging time, in milliseconds, from which the gun releases a `Boom`.
pub const BOOM_CHARGE_TIME: u32 = 1000;

/// Charging time past `BOOM_CHARGE_TIME` at which a `Boom` is fully charged.
pub const BOOM_FULL_CHARGE: u32 = 250;

/// What a charging gun holds. `charge` counts milliseconds: below
/// `BOOM_CHARGE_TIME` for a `PewPew`, and up to `BOOM_FULL_CHARGE` for a `Boom`.
#[derive(Debug, Copy, Clone, PartialEq, Eq, Structural)]
pub enum GunState {
    PewPew { charge: u32 },
    Boom { charge: u32 },
}

/// The player's gun: whether it is charging, and for how long it has been.
#[derive(Debug, Copy, Clone, PartialEq, Eq, Structural)]
pub struct Player {
    pub gun_is_charging: bool,
    pub gun_charge_time: u32,
}

impl Player {
    /// The state of the gun: none while it is not charging, a `PewPew` during
    /// the first `BOOM_CHARGE_TIME` milliseconds of charging, a `Boom` after.
    pub open spec fn spec_gun_state(self) -> Option<GunState> {
        if !self.gun_is_charging {
            None
        } else if self.gun_charge_time < BOOM_CHARGE_TIME {
            Some(GunState::PewPew { charge: self.gun_charge_time })
        } else if self.gun_charge_time - BOOM_CHARGE_TIME < BOOM_FULL_CHARGE {
            Some(GunState::Boom { charge: (self.gun_charge_time - BOOM_CHARGE_TIME) as u32 })
        } else {
            Some(GunState::Boom { charge: BOOM_FULL_CHARGE })
        }
    }

    /// The projectile that firing would release now: none from a resting gun,
    /// a `PewPew` before `BOOM_CHARGE_TIME` milliseconds of charging, a `Boom`
    /// from then on.
    pub open spec fn spec_bullet_type(self) -> Option<BulletType> {
        if !self.gun_is_charging {
            None
        } else if self.gun_charge_time < BOOM_CHARGE_TIME {
            Some(BulletType::PewPew)
        } else {
            Some(BulletType::Boom)
        }
    }

    /// The gun after `time_delta` more milliseconds: a charging gun has
    /// charged on, a resting one is as it was.
    pub open spec fn charged(self, time_delta: u32) -> Player {
        if self.gun_is_charging {
            Player { gun_charge_time: (self.gun_charge_time + time_delta) as u32, ..self }
        } else {
            self
        }
    }

    /// A player whose gun is at rest.
    pub fn new() -> (player: Player)
        ensures
            player == (Player { gun_is_charging: false, gun_charge_time: 0 }),
    {
        Player { gun_is_charging: false, gun_charge_time: 0 }
    }

    /// Starts charging from zero, whatever the gun was doing.
    pub fn start_gun_charging(&mut self)
        ensures
            *final(self) == (Player { gun_is_charging: true, gun_charge_time: 0 }),
    {
        self.gun_is_charging = true;
        self.gun_charge_time = 0;
    }

    /// Releases what the gun holds and puts it at rest.
    pub fn fire_gun(&mut self) -> (fired: Option<BulletType>)
        ensures
            fired == old(self).spec_bullet_type(),
            *final(self) == (Player { gun_is_charging: false, gun_charge_time: 0 }),
    {
        let bullet_type = self.bullet_type();

        self.gun_is_charging = false;
        self.gun_charge_time = 0;

        bullet_type
    }

    /// Lets `time_delta` milliseconds pass: a charging gun charges on, a
    /// resting one is left alone.
    pub fn update(&mut self, time_delta: u32)
        requires
            old(self).gun_is_charging ==> old(self).gun_charge_time + time_delta <= u32::MAX,
        ensures
            *final(self) == old(self).charged(time_delta),
    {
        if self.gun_is_charging {
            self.gun_charge_time += time_delta;
        }
    }

    /// What the gun holds now, and how far it is charged.
    pub fn gun_state(&self) -> (state: Option<GunState>)
        ensures
            state == self.spec_gun_state(),
    {
        if !self.gun_is_charging {
            None
        } else if self.gun_charge_time < BOOM_CHARGE_TIME {
            Some(GunState::PewPew { charge: self.gun_charge_time })
        } else {
            let past: u32 = self.gun_charge_time - BOOM_CHARGE_TIME;
            if past < BOOM_FULL_CHARGE {
                Some(GunState::Boom { charge: past })
            } else {
                Some(GunState::Boom { charge: BOOM_FULL_CHARGE })
            }
        }
    }

    /// The projectile that firing would release now.
    pub fn bullet_type(&self) -> (bullet_type: Option<BulletType>)
        ensures
            bullet_type == self.spec_bullet_type(),
    {
        match self.gun_state() {
            Some(GunState::PewPew { .. }) => Some(BulletType::PewPew),
            Some(GunState::Boom { .. }) => Some(BulletType::Boom),
            None => None,
        }
    }
}

/// The gun fires what its state shows: nothing while it shows no state, and
/// otherwise the projectile that the state is named after.
pub proof fn lemma_gun_fires_what_it_holds(player: Player)
    ensures
        player.spec_bullet_type() is None <==> player.spec_gun_state() is None,
        player.spec_gun_state() is Some ==> (player.spec_gun_state()->0 is PewPew
            <==> player.spec_bullet_type() == Some(BulletType::PewPew)),
        player.spec_gun_state() is Some ==> (player.spec_gun_state()->0 is Boom
            <==> player.spec_bullet_type() == Some(BulletType::Boom)),
{
}

/// The charge does not depend on how time is cut into frames: two updates in
/// a row charge the gun as one update by their sum does.
pub proof fn lemma_charge_adds_up(player: Player, first: u32, second: u32)
    requires
        first + second <= u32::MAX,
        player.gun_is_charging ==> player.gun_charge_time + first + second <= u32::MAX,
    ensures
        player.charged(first).charged(second) == player.charged((first + second) as u32),
{
}

} // verus!
