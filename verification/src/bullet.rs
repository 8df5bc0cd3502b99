use crate::color::Rgb;
use vstd::prelude::*;

verus! {

/// The two kinds of projectile a gun can release.
#[derive(Debug, Copy, Clone, PartialEq, Eq, Structural)]
pub enum BulletType {
    PewPew,
    Boom,
}

/// The colour a projectile of the given kind is drawn in.
pub open spec fn bullet_color(bullet_type: BulletType) -> Rgb {
    match bullet_type {
        BulletType::PewPew => Rgb { r: 255, g: 255, b: 0 },
        BulletType::Boom => Rgb { r: 255, g: 0, b: 0 },
    }
}

/// The radius, in pixels, of a projectile of the given kind.
pub open spec fn bullet_radius(bullet_type: BulletType) -> u32 {
    match bullet_type {
        BulletType::PewPew => 2,
        BulletType::Boom => 4,
    }
}

/// The distance, in pixels, that a projectile of the given kind flies in one
/// frame.
pub open spec fn bullet_speed(bullet_type: BulletType) -> u32 {
    match bullet_type {
        BulletType::PewPew => 20,
        BulletType::Boom => 12,
    }
}

/// A projectile in flight. Its view is its kind.
#[derive(Debug, Copy, Clone)]
pub struct Bullet {
    bullet_type: BulletType,
}

impl View for Bullet {
    type V = BulletType;

    closed spec fn view(&self) -> BulletType {
        self.bullet_type
    }
}

impl Bullet {
    pub fn new(bullet_type: BulletType) -> (bullet: Bullet)
        ensures
            bullet@ == bullet_type,
    {
        Bullet { bullet_type }
    }

    pub fn bullet_type(&self) -> (bullet_type: BulletType)
        ensures
            bullet_type == self@,
    {
        self.bullet_type
    }

    pub fn radius(&self) -> (radius: u32)
        ensures
            radius == bullet_radius(self@),
    {
        match self.bullet_type {
            BulletType::PewPew => 2,
            BulletType::Boom => 4,
        }
    }

    pub fn speed(&self) -> (speed: u32)
        ensures
            speed == bullet_speed(self@),
    {
        match self.bullet_type {
            BulletType::PewPew => 20,
            BulletType::Boom => 12,
        }
    }

    pub fn color(&self) -> (c: Rgb)
        ensures
            c == bullet_color(self@),
    {
        match self.bullet_type {
            BulletType::PewPew => Rgb::new(255, 255, 0),
            BulletType::Boom => Rgb::new(255, 0, 0),
        }
    }
}

} // verus!
