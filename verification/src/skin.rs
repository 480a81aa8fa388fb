//! Minecraft player skins: pixel data handles, body parts, arm variants,
//! animation modes, and where each face of each body part samples the
//! 64×64 skin texture.

use vstd::prelude::*;
use vstd::string::StringExecFns;

use std::sync::Arc;

verus! {

/// Cheaply-cloneable handle to the raw 64×64 RGBA pixel data of a
/// Minecraft player skin.
#[derive(Clone)]
pub struct Skin(Arc<Vec<u8>>);

impl View for Skin {
    type V = Seq<u8>;

    closed spec fn view(&self) -> Seq<u8> {
        self.0@
    }
}

/// Calls `std::sync::Arc::ptr_eq`. Claims only that handles to the same
/// allocation hold the same data; when two handles share an allocation
/// depends on how they were made and is left unsaid.
#[verifier::external_body]
fn arc_ptr_eq(a: &Arc<Vec<u8>>, b: &Arc<Vec<u8>>) -> (r: bool)
    ensures
        r ==> a@ == b@,
{
    Arc::ptr_eq(a, b)
}

impl Skin {
    /// Creates a new skin from raw RGBA pixel data.
    pub fn create(skin_rgba: Vec<u8>) -> (r: Skin)
        ensures
            r@ == skin_rgba@,
    {
        Skin(Arc::new(skin_rgba))
    }

    /// The raw RGBA pixel data.
    pub fn raw(&self) -> (r: &[u8])
        ensures
            r@ == self@,
    {
        self.0.as_slice()
    }

    /// Whether both handles share one pixel buffer (handles of the same
    /// buffer always hold the same data).
    pub fn eq(&self, other: &Skin) -> (r: bool)
        ensures
            r ==> self@ == other@,
    {
        arc_ptr_eq(&self.0, &other.0)
    }
}

/// Cheaply-cloneable handle to raw RGBA skin pixel data.
#[derive(Clone)]
pub struct Source(Arc<Vec<u8>>);

impl View for Source {
    type V = Seq<u8>;

    closed spec fn view(&self) -> Seq<u8> {
        self.0@
    }
}

impl Source {
    /// Creates a new skin source from raw RGBA pixel data.
    pub fn create(skin_rgba: Vec<u8>) -> (r: Source)
        ensures
            r@ == skin_rgba@,
    {
        Source(Arc::new(skin_rgba))
    }

    /// The raw RGBA pixel data.
    pub fn raw(&self) -> (r: &[u8])
        ensures
            r@ == self@,
    {
        self.0.as_slice()
    }

    /// Whether both handles share one pixel buffer (handles of the same
    /// buffer always hold the same data).
    pub fn eq(&self, other: &Source) -> (r: bool)
        ensures
            r ==> self@ == other@,
    {
        arc_ptr_eq(&self.0, &other.0)
    }
}

/// The arm model of a player: classic (4 pixels wide) or slim (3 pixels).
#[derive(Debug, Clone, Copy, PartialEq, Eq, Structural)]
pub enum ArmVariant {
    Classic,
    Slim,
}

/// The arm width in pixels of an arm variant.
pub open spec fn arm_width_spec(v: ArmVariant) -> u32 {
    match v {
        ArmVariant::Classic => 4,
        ArmVariant::Slim => 3,
    }
}

impl Default for ArmVariant {
    fn default() -> (r: ArmVariant)
        ensures
            r == ArmVariant::Classic,
    {
        ArmVariant::Classic
    }
}

impl ArmVariant {
    /// The display name.
    pub fn to_string(&self) -> (r: String)
        ensures
            r@ == match *self {
                ArmVariant::Classic => "Classic"@,
                ArmVariant::Slim => "Slim"@,
            },
    {
        match self {
            ArmVariant::Classic => String::from_str("Classic"),
            ArmVariant::Slim => String::from_str("Slim"),
        }
    }

    /// The arm width in pixels.
    pub fn arm_width(&self) -> (r: u32)
        ensures
            r == arm_width_spec(*self),
    {
        match self {
            ArmVariant::Classic => 4,
            ArmVariant::Slim => 3,
        }
    }
}

/// The parts of the player model: six body parts and their outer layers.
#[derive(Debug, Clone, Copy, PartialEq, Eq, Structural)]
pub enum BodyPart {
    Head,
    Body,
    RightArm,
    LeftArm,
    RightLeg,
    LeftLeg,
    HeadLayer,
    BodyLayer,
    RightArmLayer,
    LeftArmLayer,
    RightLegLayer,
    LeftLegLayer,
}

/// Whether a part is an outer layer.
pub open spec fn is_layer_spec(p: BodyPart) -> bool {
    match p {
        BodyPart::HeadLayer | BodyPart::BodyLayer | BodyPart::RightArmLayer
        | BodyPart::LeftArmLayer | BodyPart::RightLegLayer | BodyPart::LeftLegLayer => true,
        _ => false,
    }
}

impl BodyPart {
    /// Whether the part is one of the outer overlay layers.
    pub fn is_layer(self) -> (r: bool)
        ensures
            r == is_layer_spec(self),
    {
        match self {
            BodyPart::HeadLayer | BodyPart::BodyLayer | BodyPart::RightArmLayer
            | BodyPart::LeftArmLayer | BodyPart::RightLegLayer | BodyPart::LeftLegLayer => true,
            _ => false,
        }
    }
}

/// The skin animation.
#[derive(Debug, Clone, Copy, PartialEq, Eq, Structural)]
pub enum AnimationMode {
    Idle,
    Walk,
}

impl Default for AnimationMode {
    fn default() -> (r: AnimationMode)
        ensures
            r == AnimationMode::Idle,
    {
        AnimationMode::Idle
    }
}

impl AnimationMode {
    /// The display name.
    pub fn to_string(&self) -> (r: String)
        ensures
            r@ == match *self {
                AnimationMode::Idle => "Idle"@,
                AnimationMode::Walk => "Walk"@,
            },
    {
        match self {
            AnimationMode::Idle => String::from_str("Idle"),
            AnimationMode::Walk => String::from_str("Walk"),
        }
    }
}

} // verus!

verus! {

/// The skin pixels of a skin program and their generation, which grows by
/// one with every new skin so the renderer uploads only changed pixels.
pub struct SkinUpload {
    pub rgba: Option<Vec<u8>>,
    pub generation: u64,
}

impl SkinUpload {
    /// No skin yet, generation zero.
    pub fn new() -> (r: SkinUpload)
        ensures
            r.rgba is None,
            r.generation == 0,
    {
        SkinUpload { rgba: None, generation: 0 }
    }

    /// Replaces the skin pixels and starts a new generation.
    pub fn set_skin(&mut self, rgba: Vec<u8>)
        requires
            old(self).generation < u64::MAX,
        ensures
            final(self).generation == old(self).generation + 1,
            final(self).rgba matches Some(v) && v@ == rgba@,
    {
        self.generation = self.generation + 1;
        self.rgba = Some(rgba);
    }

    /// The pixels to upload for a renderer that last saw generation
    /// `last_seen`: a copy of the current pixels when the generation
    /// differs, nothing when it is current.
    pub fn upload_for(&self, last_seen: u64) -> (r: Option<Vec<u8>>)
        ensures
            last_seen == self.generation ==> r is None,
            last_seen != self.generation ==> match self.rgba {
                Some(v) => r matches Some(c) && c@ == v@,
                None => r is None,
            },
    {
        if last_seen != self.generation {
            match &self.rgba {
                Some(v) => Some(v.clone()),
                None => None,
            }
        } else {
            None
        }
    }
}

} // verus!
