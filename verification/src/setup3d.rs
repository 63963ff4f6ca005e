//! The 3D scene setup: which parts of a default scene to build, and the
//! default shape palette.
use vstd::prelude::*;
use crate::flags::{bits_contain, bits_intersect};

verus! {

/// Flag set of the parts of a default 3D scene: grid, shapes and light.
#[derive(Clone, Copy, Debug, PartialEq, Eq, Structural)]
pub struct Plugin3dSettings(u32);

impl View for Plugin3dSettings {
    type V = u32;

    closed spec fn view(&self) -> u32 {
        self.0
    }
}

/// The settings whose flag bits are `bits`.
pub closed spec fn settings_from_bits(bits: u32) -> Plugin3dSettings {
    Plugin3dSettings(bits)
}

/// The settings built from some bits have exactly those bits.
pub broadcast proof fn lemma_settings_from_bits(bits: u32)
    ensures
        #[trigger] settings_from_bits(bits)@ == bits,
{
}

/// An infinite grid.
pub const GRID_BITS: u32 = 0b0001;

/// The default shapes and their materials.
pub const SHAPES_BITS: u32 = 0b0010;

/// A point light.
pub const LIGHT_BITS: u32 = 0b0100;

impl Plugin3dSettings {
    /// The empty set.
    pub fn none() -> (r: Self)
        ensures
            r@ == 0,
    {
        Plugin3dSettings(0)
    }

    /// Spawn an infinite grid.
    pub fn grid() -> (r: Self)
        ensures
            r@ == GRID_BITS,
    {
        Plugin3dSettings(GRID_BITS)
    }

    /// Register the default shapes and materials.
    pub fn shapes() -> (r: Self)
        ensures
            r@ == SHAPES_BITS,
    {
        Plugin3dSettings(SHAPES_BITS)
    }

    /// Spawn a point light.
    pub fn light() -> (r: Self)
        ensures
            r@ == LIGHT_BITS,
    {
        Plugin3dSettings(LIGHT_BITS)
    }

    /// Every bit of `other` is set here, and `other` is not empty.
    pub fn contains(&self, other: Self) -> (r: bool)
        ensures
            r == bits_contain(self@, other@),
    {
        (self.0 & other.0) == other.0 && other.0 != 0
    }

    /// At least one bit of `other` is set here.
    pub fn intersects(&self, other: Self) -> (r: bool)
        ensures
            r == bits_intersect(self@, other@),
    {
        (self.0 & other.0) != 0
    }

    /// Sets every bit of `other`.
    pub fn insert(&mut self, other: Self)
        ensures
            final(self)@ == old(self)@ | other@,
    {
        self.0 = self.0 | other.0;
    }

    /// Clears every bit of `other`.
    pub fn remove(&mut self, other: Self)
        ensures
            final(self)@ == old(self)@ & !other@,
    {
        self.0 = self.0 & !other.0;
    }

    /// Flips every bit of `other`.
    pub fn toggle(&mut self, other: Self)
        ensures
            final(self)@ == old(self)@ ^ other@,
    {
        self.0 = self.0 ^ other.0;
    }
}

impl std::ops::BitOr for Plugin3dSettings {
    type Output = Self;

    fn bitor(self, rhs: Self) -> (r: Self) {
        Plugin3dSettings(self.0 | rhs.0)
    }
}

impl vstd::std_specs::ops::BitOrSpecImpl for Plugin3dSettings {
    open spec fn obeys_bitor_spec() -> bool {
        true
    }

    open spec fn bitor_req(self, rhs: Self) -> bool {
        true
    }

    open spec fn bitor_spec(self, rhs: Self) -> Self {
        settings_from_bits(self@ | rhs@)
    }
}

impl std::ops::BitAnd for Plugin3dSettings {
    type Output = Self;

    fn bitand(self, rhs: Self) -> (r: Self) {
        Plugin3dSettings(self.0 & rhs.0)
    }
}

impl vstd::std_specs::ops::BitAndSpecImpl for Plugin3dSettings {
    open spec fn obeys_bitand_spec() -> bool {
        true
    }

    open spec fn bitand_req(self, rhs: Self) -> bool {
        true
    }

    open spec fn bitand_spec(self, rhs: Self) -> Self {
        settings_from_bits(self@ & rhs@)
    }
}

impl std::ops::BitXor for Plugin3dSettings {
    type Output = Self;

    fn bitxor(self, rhs: Self) -> (r: Self) {
        Plugin3dSettings(self.0 ^ rhs.0)
    }
}

impl vstd::std_specs::ops::BitXorSpecImpl for Plugin3dSettings {
    open spec fn obeys_bitxor_spec() -> bool {
        true
    }

    open spec fn bitxor_req(self, rhs: Self) -> bool {
        true
    }

    open spec fn bitxor_spec(self, rhs: Self) -> Self {
        settings_from_bits(self@ ^ rhs@)
    }
}

impl std::ops::Not for Plugin3dSettings {
    type Output = Self;

    fn not(self) -> (r: Self) {
        Plugin3dSettings(!self.0)
    }
}

impl vstd::std_specs::ops::NotSpecImpl for Plugin3dSettings {
    open spec fn obeys_not_spec() -> bool {
        true
    }

    open spec fn not_req(self) -> bool {
        true
    }

    open spec fn not_spec(self) -> Self {
        settings_from_bits(!self@)
    }
}

impl std::ops::BitOrAssign for Plugin3dSettings {
    /// Sets every bit of `rhs`, as `insert` does.
    fn bitor_assign(&mut self, rhs: Self)
        ensures
            final(self)@ == old(self)@ | rhs@,
    {
        self.0 = self.0 | rhs.0;
    }
}

impl std::ops::BitAndAssign for Plugin3dSettings {
    /// Clears every bit of `rhs`, as `remove` does: `a &= b` keeps the bits
    /// of `a` that are not in `b`.
    fn bitand_assign(&mut self, rhs: Self)
        ensures
            final(self)@ == old(self)@ & !rhs@,
    {
        self.0 = self.0 & !rhs.0;
    }
}

/// The settings of a default setup: grid, shapes and light.
pub fn default_settings() -> (r: Plugin3dSettings)
    ensures
        r@ == GRID_BITS | SHAPES_BITS | LIGHT_BITS,
{
    assert((1u32 | 2u32 | 4u32) == 7u32) by (bit_vector);
    Plugin3dSettings(0b0111)
}

/// What building the 3D setup adds to an app.
#[derive(Clone, Copy, Debug, PartialEq, Eq, Structural)]
pub struct Setup3dPlan {
    /// The infinite grid plugin, and a system spawning a grid.
    pub grid: bool,
    /// The system registering the default shapes.
    pub shapes: bool,
    /// The system spawning a point light.
    pub light: bool,
}

/// Each part of the scene is built exactly when its flag is in the settings.
pub fn setup3d_plan(settings: &Plugin3dSettings) -> (plan: Setup3dPlan)
    ensures
        plan.grid == bits_contain(settings@, GRID_BITS),
        plan.shapes == bits_contain(settings@, SHAPES_BITS),
        plan.light == bits_contain(settings@, LIGHT_BITS),
{
    Setup3dPlan {
        grid: settings.contains(Plugin3dSettings::grid()),
        shapes: settings.contains(Plugin3dSettings::shapes()),
        light: settings.contains(Plugin3dSettings::light()),
    }
}

/// The default settings build every part of the scene.
pub proof fn lemma_default_builds_everything()
    ensures
        bits_contain(GRID_BITS | SHAPES_BITS | LIGHT_BITS, GRID_BITS),
        bits_contain(GRID_BITS | SHAPES_BITS | LIGHT_BITS, SHAPES_BITS),
        bits_contain(GRID_BITS | SHAPES_BITS | LIGHT_BITS, LIGHT_BITS),
{
    assert((1u32 | 2u32 | 4u32) == 7u32) by (bit_vector);
    assert(7u32 & 1u32 == 1u32 && 7u32 & 2u32 == 2u32 && 7u32 & 4u32 == 4u32) by (bit_vector);
}

/// Colour of a default shape's material.
#[derive(Clone, Copy, Debug, PartialEq, Eq, Structural)]
pub enum DefaultShapeColor {
    /// No colour: the plain grey material.
    Plain,
    Red,
    Blue,
    Green,
}

impl Default for DefaultShapeColor {
    fn default() -> (r: Self)
        ensures
            r == DefaultShapeColor::Plain,
    {
        DefaultShapeColor::Plain
    }
}

/// One material per shape colour.
pub struct ShapeMaterials<M> {
    pub plain: M,
    pub red: M,
    pub blue: M,
    pub green: M,
}

impl<M> ShapeMaterials<M> {
    /// The material of a colour; the plain one for no colour.
    pub open spec fn material_of(&self, color: DefaultShapeColor) -> &M {
        match color {
            DefaultShapeColor::Plain => &self.plain,
            DefaultShapeColor::Red => &self.red,
            DefaultShapeColor::Blue => &self.blue,
            DefaultShapeColor::Green => &self.green,
        }
    }

    /// Picks the material of a colour.
    pub fn by_color(&self, color: DefaultShapeColor) -> (r: &M)
        ensures
            r == self.material_of(color),
    {
        match color {
            DefaultShapeColor::Plain => &self.plain,
            DefaultShapeColor::Red => &self.red,
            DefaultShapeColor::Blue => &self.blue,
            DefaultShapeColor::Green => &self.green,
        }
    }
}

} // verus!
