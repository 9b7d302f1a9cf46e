use statenum::ast::{EnumDecl, Expansion, Item, StatenumError, Visibility};
use statenum::expand::{StatenumArgs, _statenum};
use statenum::render::{diagnostic, render};
use statenum::statenum;

fn enum_item(vis: Visibility, name: &str, variants: &[&str]) -> Item {
    Item::Enum(EnumDecl {
        vis,
        name: name.to_string(),
        variants: variants.iter().map(|v| v.to_string()).collect(),
    })
}

fn expect_ok(r: Result<Expansion, StatenumError>) -> Expansion {
    match r {
        Ok(e) => e,
        Err(_) => panic!("expected a successful expansion"),
    }
}

#[test]
fn light_default_expansion() {
    let item = enum_item(Visibility::Inherited, "Light", &["Red", "Yellow", "Green"]);
    let e = expect_ok(statenum(None, item));
    assert_eq!(e.marker.name, "State");
    assert_eq!(e.units.len(), 3);
    assert_eq!(e.units[0].name, "Red");
    assert_eq!(e.units[1].name, "Yellow");
    assert_eq!(e.units[2].name, "Green");
    for u in &e.units {
        assert_eq!(u.implements, "State");
    }
}

#[test]
fn door_explicit_name() {
    let item = enum_item(Visibility::Inherited, "Door", &["Open", "Closed"]);
    let e = expect_ok(statenum(Some("DoorState".to_string()), item));
    assert_eq!(e.marker.name, "DoorState");
    assert_eq!(e.units.len(), 2);
    assert_eq!(e.units[0].name, "Open");
    assert_eq!(e.units[1].name, "Closed");
    for u in &e.units {
        assert_eq!(u.implements, "DoorState");
    }
}

#[test]
fn visibility_propagated_public() {
    let item = enum_item(Visibility::Public, "Light", &["Red", "Green"]);
    let e = expect_ok(statenum(None, item));
    assert!(matches!(e.marker.vis, Visibility::Public));
    for u in &e.units {
        assert!(matches!(u.vis, Visibility::Public));
    }
}

#[test]
fn visibility_propagated_crate() {
    let item = enum_item(Visibility::Crate, "Mode", &["On", "Off"]);
    let e = expect_ok(statenum(Some("ModeState".to_string()), item));
    assert!(matches!(e.marker.vis, Visibility::Crate));
    for u in &e.units {
        assert!(matches!(u.vis, Visibility::Crate));
    }
}

#[test]
fn struct_input_rejected() {
    let r = statenum(None, Item::Struct("Point".to_string()));
    assert!(matches!(r, Err(StatenumError::NotAnEnum)));
}

#[test]
fn function_input_rejected() {
    let r = statenum(Some("State".to_string()), Item::Function("main".to_string()));
    assert!(matches!(r, Err(StatenumError::NotAnEnum)));
}

#[test]
fn union_input_rejected() {
    let r = statenum(None, Item::Union("Bits".to_string()));
    assert!(matches!(r, Err(StatenumError::NotAnEnum)));
}

#[test]
fn rejection_diagnostic_text() {
    let r = statenum(None, Item::Struct("Point".to_string()));
    match r {
        Err(e) => assert_eq!(diagnostic(&e), "statenum can only be used with enums"),
        Ok(_) => panic!("a struct must be rejected"),
    }
}

#[test]
fn naming_idempotence() {
    let make = || enum_item(Visibility::Public, "Door", &["Open", "Closed"]);
    let first = render(&expect_ok(statenum(Some("DoorState".to_string()), make())));
    let second = render(&expect_ok(statenum(Some("DoorState".to_string()), make())));
    assert_eq!(first, second);

    let third = render(&expect_ok(statenum(None, make())));
    let fourth = render(&expect_ok(statenum(None, make())));
    assert_eq!(third, fourth);
}

#[test]
fn render_exact_text_default() {
    let item = enum_item(Visibility::Public, "Light", &["Red", "Yellow", "Green"]);
    let text = render(&expect_ok(statenum(None, item)));
    assert_eq!(
        text,
        "pub trait State {}\n\
         pub struct Red;\n\
         impl State for Red {}\n\
         pub struct Yellow;\n\
         impl State for Yellow {}\n\
         pub struct Green;\n\
         impl State for Green {}\n"
    );
}

#[test]
fn render_exact_text_named_private() {
    let item = enum_item(Visibility::Inherited, "Door", &["Open", "Closed"]);
    let text = render(&expect_ok(statenum(Some("DoorState".to_string()), item)));
    assert_eq!(
        text,
        "trait DoorState {}\n\
         struct Open;\n\
         impl DoorState for Open {}\n\
         struct Closed;\n\
         impl DoorState for Closed {}\n"
    );
}

#[test]
fn render_super_visibility() {
    let item = enum_item(Visibility::Super, "Gate", &["Up"]);
    let text = render(&expect_ok(statenum(None, item)));
    assert_eq!(
        text,
        "pub(super) trait State {}\n\
         pub(super) struct Up;\n\
         impl State for Up {}\n"
    );
}

#[test]
fn empty_enum_yields_marker_only() {
    let item = enum_item(Visibility::Public, "Never", &[]);
    let e = expect_ok(statenum(None, item));
    assert_eq!(e.marker.name, "State");
    assert_eq!(e.units.len(), 0);
    assert_eq!(render(&e), "pub trait State {}\n");
}

#[test]
fn args_default_marker_name() {
    let args = StatenumArgs::parse(None);
    assert_eq!(args.marker_name(), "State");
}

#[test]
fn args_explicit_marker_name() {
    let args = StatenumArgs::parse(Some("Phase".to_string()));
    assert_eq!(args.marker_name(), "Phase");
}

#[test]
fn entry_point_matches_core() {
    let make = || enum_item(Visibility::Crate, "Lock", &["Held", "Free"]);
    let via_entry = render(&expect_ok(statenum(None, make())));
    let via_core = render(&expect_ok(_statenum(None, make())));
    assert_eq!(via_entry, via_core);
}
