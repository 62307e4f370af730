use vector_field::settings::{
    BoundaryBehavior, ColorMap, ColorMode, FieldPreset, MouseMode, PhysicsMode, SimSettings,
};

#[test]
fn preset_labels() {
    assert_eq!(FieldPreset::PerlinCurl.name(), "Perlin Curl (Fluid)");
    assert_eq!(FieldPreset::PerlinGradient.name(), "Perlin Gradient");
    assert_eq!(FieldPreset::Vortex.name(), "Vortex / Hurricane");
    assert_eq!(FieldPreset::Dipole.name(), "Electric Dipole");
    assert_eq!(FieldPreset::Saddle.name(), "Saddle Point");
    assert_eq!(FieldPreset::TrigFlow.name(), "Trig Flow (Parametric)");
    assert_eq!(FieldPreset::GravityNBody.name(), "Gravity N-Body Sandbox");
}

#[test]
fn palette_labels() {
    assert_eq!(ColorMap::Rainbow.name(), "Spectral Rainbow");
    assert_eq!(ColorMap::Magma.name(), "Magma Fire");
    assert_eq!(ColorMap::ElectricPurple.name(), "Electric Neon");
    assert_eq!(ColorMap::Ocean.name(), "Deep Ocean");
    assert_eq!(ColorMap::Viridis.name(), "Viridis Scientific");
}

#[test]
fn color_mode_labels() {
    assert_eq!(ColorMode::Speed.name(), "Speed Magnitude");
    assert_eq!(ColorMode::Angle.name(), "Velocity Direction (Angle)");
    assert_eq!(ColorMode::Age.name(), "Particle Lifetime / Age");
}

#[test]
fn boundary_labels() {
    assert_eq!(BoundaryBehavior::Respawn.name(), "Respawn Randomly");
    assert_eq!(BoundaryBehavior::Wrap.name(), "Wrap Around");
    assert_eq!(BoundaryBehavior::Bounce.name(), "Bounce Off Walls");
}

#[test]
fn physics_labels() {
    assert_eq!(PhysicsMode::VelocityFlow.name(), "Velocity Flow (Direct)");
    assert_eq!(PhysicsMode::ForceField.name(), "Force Field (Inertia)");
}

#[test]
fn mouse_tool_labels() {
    assert_eq!(MouseMode::ViewOnly.name(), "None (View Only)");
    assert_eq!(MouseMode::Attract.name(), "Attractor (Pull)");
    assert_eq!(MouseMode::Repel.name(), "Repeller (Push)");
    assert_eq!(MouseMode::VortexCw.name(), "Vortex Clockwise");
    assert_eq!(MouseMode::VortexCcw.name(), "Vortex Counter-Clockwise");
    assert_eq!(MouseMode::AddGravityBody.name(), "Add Gravity Body (Sandbox)");
}

#[test]
fn warping_tools() {
    assert!(!MouseMode::ViewOnly.warps_field());
    assert!(MouseMode::Attract.warps_field());
    assert!(MouseMode::Repel.warps_field());
    assert!(MouseMode::VortexCw.warps_field());
    assert!(MouseMode::VortexCcw.warps_field());
    assert!(!MouseMode::AddGravityBody.warps_field());
}

#[test]
fn default_settings() {
    let s = SimSettings::default();
    assert_eq!(s.preset, FieldPreset::PerlinCurl);
    assert_eq!(s.color_map, ColorMap::ElectricPurple);
    assert_eq!(s.color_mode, ColorMode::Speed);
    assert_eq!(s.boundary, BoundaryBehavior::Respawn);
    assert_eq!(s.physics_mode, PhysicsMode::VelocityFlow);
    assert_eq!(s.mouse_mode, MouseMode::ViewOnly);
    assert_eq!(s.noise_octaves, 3);
    assert_eq!(s.num_particles, 4000);
    assert_eq!(s.trail_length, 8);
    assert!(s.show_arrows);
    assert_eq!(s.arrow_density, 30);
    assert!(s.show_particles);
    assert!(s.neon_glow);
}

#[test]
fn entering_sandbox_switches_to_force_field() {
    let mut s = SimSettings::default();
    s.preset = FieldPreset::GravityNBody;
    let entered = s.settle_preset_change(FieldPreset::PerlinCurl);
    assert!(entered);
    assert_eq!(s.physics_mode, PhysicsMode::ForceField);
    assert_eq!(s.preset, FieldPreset::GravityNBody);
    assert_eq!(s.num_particles, 4000);
}

#[test]
fn staying_in_sandbox_changes_nothing() {
    let mut s = SimSettings::default();
    s.preset = FieldPreset::GravityNBody;
    s.physics_mode = PhysicsMode::VelocityFlow;
    let before = s;
    assert!(!s.settle_preset_change(FieldPreset::GravityNBody));
    assert_eq!(s, before);
}

#[test]
fn other_preset_change_keeps_physics() {
    let mut s = SimSettings::default();
    s.preset = FieldPreset::Vortex;
    let before = s;
    assert!(!s.settle_preset_change(FieldPreset::GravityNBody));
    assert_eq!(s, before);
    assert_eq!(s.physics_mode, PhysicsMode::VelocityFlow);
}
