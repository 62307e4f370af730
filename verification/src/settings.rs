use vstd::prelude::*;

verus! {

/// The vector-field equation that drives the particles.
#[derive(Copy, Clone, PartialEq, Eq, Debug, Structural)]
pub enum FieldPreset {
    PerlinCurl,
    PerlinGradient,
    Vortex,
    Dipole,
    Saddle,
    TrigFlow,
    GravityNBody,
}

impl FieldPreset {
    /// Label shown in the preset selector.
    pub fn name(&self) -> (label: &'static str)
        ensures
            label@ == match *self {
                FieldPreset::PerlinCurl => "Perlin Curl (Fluid)"@,
                FieldPreset::PerlinGradient => "Perlin Gradient"@,
                FieldPreset::Vortex => "Vortex / Hurricane"@,
                FieldPreset::Dipole => "Electric Dipole"@,
                FieldPreset::Saddle => "Saddle Point"@,
                FieldPreset::TrigFlow => "Trig Flow (Parametric)"@,
                FieldPreset::GravityNBody => "Gravity N-Body Sandbox"@,
            },
    {
        match self {
            FieldPreset::PerlinCurl => "Perlin Curl (Fluid)",
            FieldPreset::PerlinGradient => "Perlin Gradient",
            FieldPreset::Vortex => "Vortex / Hurricane",
            FieldPreset::Dipole => "Electric Dipole",
            FieldPreset::Saddle => "Saddle Point",
            FieldPreset::TrigFlow => "Trig Flow (Parametric)",
            FieldPreset::GravityNBody => "Gravity N-Body Sandbox",
        }
    }
}


/// Palette that particle colours are drawn from.
#[derive(Copy, Clone, PartialEq, Eq, Debug, Structural)]
pub enum ColorMap {
    Rainbow,
    Magma,
    ElectricPurple,
    Ocean,
    Viridis,
}

impl ColorMap {
    /// Label shown in the palette selector.
    pub fn name(&self) -> (label: &'static str)
        ensures
            label@ == match *self {
                ColorMap::Rainbow => "Spectral Rainbow"@,
                ColorMap::Magma => "Magma Fire"@,
                ColorMap::ElectricPurple => "Electric Neon"@,
                ColorMap::Ocean => "Deep Ocean"@,
                ColorMap::Viridis => "Viridis Scientific"@,
            },
    {
        match self {
            ColorMap::Rainbow => "Spectral Rainbow",
            ColorMap::Magma => "Magma Fire",
            ColorMap::ElectricPurple => "Electric Neon",
            ColorMap::Ocean => "Deep Ocean",
            ColorMap::Viridis => "Viridis Scientific",
        }
    }
}

/// The particle quantity that is mapped onto the palette.
#[derive(Copy, Clone, PartialEq, Eq, Debug, Structural)]
pub enum ColorMode {
    Speed,
    Angle,
    Age,
}

impl ColorMode {
    /// Label shown in the colour-variable selector.
    pub fn name(&self) -> (label: &'static str)
        ensures
            label@ == match *self {
                ColorMode::Speed => "Speed Magnitude"@,
                ColorMode::Angle => "Velocity Direction (Angle)"@,
                ColorMode::Age => "Particle Lifetime / Age"@,
            },
    {
        match self {
            ColorMode::Speed => "Speed Magnitude",
            ColorMode::Angle => "Velocity Direction (Angle)",
            ColorMode::Age => "Particle Lifetime / Age",
        }
    }
}

/// What a particle does when it leaves the domain.
#[derive(Copy, Clone, PartialEq, Eq, Debug, Structural)]
pub enum BoundaryBehavior {
    Respawn,
    Wrap,
    Bounce,
}

impl BoundaryBehavior {
    /// Label shown in the boundary selector.
    pub fn name(&self) -> (label: &'static str)
        ensures
            label@ == match *self {
                BoundaryBehavior::Respawn => "Respawn Randomly"@,
                BoundaryBehavior::Wrap => "Wrap Around"@,
                BoundaryBehavior::Bounce => "Bounce Off Walls"@,
            },
    {
        match self {
            BoundaryBehavior::Respawn => "Respawn Randomly",
            BoundaryBehavior::Wrap => "Wrap Around",
            BoundaryBehavior::Bounce => "Bounce Off Walls",
        }
    }
}

/// How the field acts on a particle: as its velocity (first order) or as
/// a force on it (second order, with inertia).
#[derive(Copy, Clone, PartialEq, Eq, Debug, Structural)]
pub enum PhysicsMode {
    VelocityFlow,
    ForceField,
}

impl PhysicsMode {
    /// Label shown in the physics-model selector.
    pub fn name(&self) -> (label: &'static str)
        ensures
            label@ == match *self {
                PhysicsMode::VelocityFlow => "Velocity Flow (Direct)"@,
                PhysicsMode::ForceField => "Force Field (Inertia)"@,
            },
    {
        match self {
            PhysicsMode::VelocityFlow => "Velocity Flow (Direct)",
            PhysicsMode::ForceField => "Force Field (Inertia)",
        }
    }
}

/// The tool that a left drag in the viewport applies.
#[derive(Copy, Clone, PartialEq, Eq, Debug, Structural)]
pub enum MouseMode {
    ViewOnly,
    Attract,
    Repel,
    VortexCw,
    VortexCcw,
    AddGravityBody,
}

impl MouseMode {
    /// Label shown in the mouse-tool selector.
    pub fn name(&self) -> (label: &'static str)
        ensures
            label@ == match *self {
                MouseMode::ViewOnly => "None (View Only)"@,
                MouseMode::Attract => "Attractor (Pull)"@,
                MouseMode::Repel => "Repeller (Push)"@,
                MouseMode::VortexCw => "Vortex Clockwise"@,
                MouseMode::VortexCcw => "Vortex Counter-Clockwise"@,
                MouseMode::AddGravityBody => "Add Gravity Body (Sandbox)"@,
            },
    {
        match self {
            MouseMode::ViewOnly => "None (View Only)",
            MouseMode::Attract => "Attractor (Pull)",
            MouseMode::Repel => "Repeller (Push)",
            MouseMode::VortexCw => "Vortex Clockwise",
            MouseMode::VortexCcw => "Vortex Counter-Clockwise",
            MouseMode::AddGravityBody => "Add Gravity Body (Sandbox)",
        }
    }

    /// Whether a held left button with this tool bends the field under the
    /// cursor (and the interaction ring is drawn): every tool but the view-only
    /// one and the body-placing one.
    pub fn warps_field(&self) -> (warps: bool)
        ensures
            warps == (*self != MouseMode::ViewOnly && *self != MouseMode::AddGravityBody),
            warps <==> (*self == MouseMode::Attract || *self == MouseMode::Repel
                || *self == MouseMode::VortexCw || *self == MouseMode::VortexCcw),
    {
        match self {
            MouseMode::Attract | MouseMode::Repel | MouseMode::VortexCw | MouseMode::VortexCcw => true,
            MouseMode::ViewOnly | MouseMode::AddGravityBody => false,
        }
    }
}

/// The discrete settings of the simulation: the selected modes, the counts
/// and the visual toggles.
#[derive(Copy, Clone, PartialEq, Eq, Debug, Structural)]
pub struct SimSettings {
    pub preset: FieldPreset,
    pub color_map: ColorMap,
    pub color_mode: ColorMode,
    pub boundary: BoundaryBehavior,
    pub physics_mode: PhysicsMode,
    pub mouse_mode: MouseMode,
    /// Octaves summed by the fractal noise.
    pub noise_octaves: usize,
    /// Number of live particles.
    pub num_particles: usize,
    /// Number of past segments kept in each particle's trail.
    pub trail_length: usize,
    pub show_arrows: bool,
    /// Rows of the arrow grid.
    pub arrow_density: usize,
    pub show_particles: bool,
    pub neon_glow: bool,
}

impl Default for SimSettings {
    /// The start-up settings: curl noise, neon palette by speed, respawn at
    /// the border, velocity flow, no mouse tool, three octaves, 4000
    /// particles, trails of 8, a 30-row arrow grid, and every overlay shown.
    fn default() -> (s: SimSettings)
        ensures
            s == (SimSettings {
                preset: FieldPreset::PerlinCurl,
                color_map: ColorMap::ElectricPurple,
                color_mode: ColorMode::Speed,
                boundary: BoundaryBehavior::Respawn,
                physics_mode: PhysicsMode::VelocityFlow,
                mouse_mode: MouseMode::ViewOnly,
                noise_octaves: 3,
                num_particles: 4000,
                trail_length: 8,
                show_arrows: true,
                arrow_density: 30,
                show_particles: true,
                neon_glow: true,
            }),
    {
        SimSettings {
            preset: FieldPreset::PerlinCurl,
            color_map: ColorMap::ElectricPurple,
            color_mode: ColorMode::Speed,
            boundary: BoundaryBehavior::Respawn,
            physics_mode: PhysicsMode::VelocityFlow,
            mouse_mode: MouseMode::ViewOnly,
            noise_octaves: 3,
            num_particles: 4000,
            trail_length: 8,
            show_arrows: true,
            arrow_density: 30,
            show_particles: true,
            neon_glow: true,
        }
    }
}

impl SimSettings {
    /// Settles a preset choice, given the preset that was selected before it.
    /// Entering the gravity sandbox from another preset switches to
    /// force-field physics, and the result tells the caller to put the
    /// default bodies back; any other choice changes nothing further.
    pub fn settle_preset_change(&mut self, previous: FieldPreset) -> (entered_sandbox: bool)
        ensures
            entered_sandbox == (old(self).preset != previous && old(self).preset
                == FieldPreset::GravityNBody),
            entered_sandbox ==> *final(self) == (SimSettings {
                physics_mode: PhysicsMode::ForceField,
                ..*old(self)
            }),
            !entered_sandbox ==> *final(self) == *old(self),
    {
        if self.preset != previous && self.preset == FieldPreset::GravityNBody {
            self.physics_mode = PhysicsMode::ForceField;
            true
        } else {
            false
        }
    }
}

} // verus!
