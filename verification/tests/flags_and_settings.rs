use sonolil::setup3d::{default_settings, setup3d_plan, DefaultShapeColor, Plugin3dSettings, ShapeMaterials};
use sonolil::tracker_traits::TrackerTraits;

#[test]
fn tracker_traits_contains_needs_every_bit() {
    let both = TrackerTraits::translate() | TrackerTraits::rotate();
    assert_eq!(both, TrackerTraits(3));
    assert!(both.contains(TrackerTraits::translate()));
    assert!(both.contains(TrackerTraits::rotate()));
    assert!(!both.contains(TrackerTraits::scale()));
    assert!(!both.contains(TrackerTraits(7)));
    assert!(both.intersects(TrackerTraits(7)));
}

#[test]
fn tracker_traits_empty_flag_is_never_contained() {
    let all = TrackerTraits(u32::MAX);
    assert!(!all.contains(TrackerTraits::none()));
    assert!(!all.intersects(TrackerTraits::none()));
}

#[test]
fn tracker_traits_insert_remove_toggle() {
    let mut t = TrackerTraits::none();
    t.insert(TrackerTraits::scale());
    assert_eq!(t, TrackerTraits(4));
    assert!(t.contains(TrackerTraits::scale()));
    t.insert(TrackerTraits::translate());
    assert_eq!(t, TrackerTraits(5));
    t.remove(TrackerTraits::scale());
    assert_eq!(t, TrackerTraits(1));
    assert!(!t.intersects(TrackerTraits::scale()));
    t.toggle(TrackerTraits(3));
    assert_eq!(t, TrackerTraits(2));
    t.toggle(TrackerTraits(3));
    assert_eq!(t, TrackerTraits(1));
}

#[test]
fn tracker_traits_operators() {
    let a = TrackerTraits(0b0110);
    let b = TrackerTraits(0b0011);
    assert_eq!(a | b, TrackerTraits(0b0111));
    assert_eq!(a & b, TrackerTraits(0b0010));
    assert_eq!(a ^ b, TrackerTraits(0b0101));
    assert_eq!(!a, TrackerTraits(!0b0110u32));
    assert_eq!(!!a, a);
    let mut c = a;
    c |= b;
    assert_eq!(c, TrackerTraits(0b0111));
}

#[test]
fn tracker_traits_and_assign_clears_the_bits() {
    // `&=` clears the right-hand bits, as `remove` does.
    let mut c = TrackerTraits(0b0111);
    c &= TrackerTraits(0b0010);
    assert_eq!(c, TrackerTraits(0b0101));
    let mut d = TrackerTraits(0b0111);
    d.remove(TrackerTraits(0b0010));
    assert_eq!(c, d);
}

#[test]
fn default_settings_build_everything() {
    let s = default_settings();
    assert!(s.contains(Plugin3dSettings::grid()));
    assert!(s.contains(Plugin3dSettings::shapes()));
    assert!(s.contains(Plugin3dSettings::light()));
    let plan = setup3d_plan(&s);
    assert!(plan.grid && plan.shapes && plan.light);
}

#[test]
fn setup_plan_follows_the_flags() {
    let mut s = default_settings();
    s.remove(Plugin3dSettings::grid());
    let plan = setup3d_plan(&s);
    assert!(!plan.grid);
    assert!(plan.shapes);
    assert!(plan.light);

    let only_light = Plugin3dSettings::none() | Plugin3dSettings::light();
    let plan = setup3d_plan(&only_light);
    assert!(!plan.grid && !plan.shapes && plan.light);

    let nothing = Plugin3dSettings::none();
    let plan = setup3d_plan(&nothing);
    assert!(!plan.grid && !plan.shapes && !plan.light);
}

#[test]
fn settings_operators() {
    let g = Plugin3dSettings::grid();
    let l = Plugin3dSettings::light();
    let mut both = g | l;
    assert!(both.contains(g) && both.contains(l));
    assert!(!both.intersects(Plugin3dSettings::shapes()));
    both &= g;
    assert!(!both.contains(g));
    assert!(both.contains(l));
    let mut t = both;
    t.toggle(Plugin3dSettings::shapes());
    t.toggle(Plugin3dSettings::shapes());
    assert_eq!(t, both);
    assert_eq!(!!both, both);
    assert_eq!((g ^ g), Plugin3dSettings::none());
    assert_eq!((g & l), Plugin3dSettings::none());
}

#[test]
fn shape_palette_picks_by_colour() {
    let mats = ShapeMaterials { plain: "grey", red: "red", blue: "blue", green: "green" };
    assert_eq!(*mats.by_color(DefaultShapeColor::default()), "grey");
    assert_eq!(*mats.by_color(DefaultShapeColor::Plain), "grey");
    assert_eq!(*mats.by_color(DefaultShapeColor::Red), "red");
    assert_eq!(*mats.by_color(DefaultShapeColor::Blue), "blue");
    assert_eq!(*mats.by_color(DefaultShapeColor::Green), "green");
}
