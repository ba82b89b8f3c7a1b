//! Presentation decisions: log routing, intro lines, device rendering and
//! widget state.

use lichen::disks::{render_device, Disk, DiskKind};
use lichen::logging::{CliclackLayer, LogLevel, LogTarget};
use lichen::system::{intro_banner, intro_remark, OsInfo};
use lichen::tui::{
    border_class, constraints, text_class, Action, BorderClass, Constraint, Direction, State,
    TextBox, TextClass, STATE_ACTIVE, STATE_HIGHLIGHT, STATE_NONE,
};

#[test]
fn log_routing_styles_and_channels() {
    let layer = CliclackLayer;
    let (target, msg) = layer.route(LogLevel::Error, "boom").unwrap();
    assert_eq!(target, LogTarget::Error);
    assert_eq!(msg, "\u{1b}[31mboom\u{1b}[0m");
    let (target, msg) = layer.route(LogLevel::Warn, "careful").unwrap();
    assert_eq!(target, LogTarget::Warning);
    assert_eq!(msg, "\u{1b}[33mcareful\u{1b}[0m");
    let (target, msg) = layer.route(LogLevel::Info, "done").unwrap();
    assert_eq!(target, LogTarget::Info);
    assert_eq!(msg, "\u{1b}[36mdone\u{1b}[0m");
}

#[test]
fn debug_and_trace_never_reach_the_prompt() {
    let layer = CliclackLayer;
    assert!(layer.route(LogLevel::Debug, "detail").is_none());
    assert!(layer.route(LogLevel::Trace, "detail").is_none());
}

fn info(color: Option<&str>) -> OsInfo {
    OsInfo {
        version: "1.0".to_owned(),
        name: "aerynos".to_owned(),
        display: "AerynOS".to_owned(),
        ansi_color: color.map(|c| c.to_owned()),
    }
}

#[test]
fn intro_lines_use_branding_color_and_names() {
    assert_eq!(intro_banner(&info(Some("1;35"))), "\u{1b}[1;35m  Install AerynOS   ");
    assert_eq!(intro_banner(&info(None)), "\u{1b}[1;36m  Install AerynOS   ");
    assert_eq!(intro_remark(&info(None)), "Welcome to the aerynos installer");
}

#[test]
fn render_device_names_loopback_devices() {
    let lo = Disk {
        name: "loop3".to_owned(),
        sectors: 0,
        device: "/dev/loop3".to_owned(),
        model: None,
        vendor: None,
        partitions: Vec::new(),
        kind: DiskKind::Loopback,
        display_size: "1.00 GiB".to_owned(),
        image_path: Some("/img.raw".to_owned()),
    };
    assert_eq!(render_device(&lo), "Loopback device");
    let mut sda = lo;
    sda.kind = DiskKind::Scsi;
    sda.device = "/dev/sda".to_owned();
    assert_eq!(render_device(&sda), "/dev/sda - Unknown - 1.00 GiB");
}

#[test]
fn widget_state_flags_form_a_set() {
    let mut s = State::none();
    assert_eq!(s.bits, STATE_NONE);
    s.insert(State { bits: STATE_ACTIVE });
    assert!(s.contains(State { bits: STATE_ACTIVE }));
    s.insert(State { bits: STATE_HIGHLIGHT });
    assert!(s.contains(State { bits: STATE_HIGHLIGHT }));
    s.remove(State { bits: STATE_ACTIVE });
    assert!(!s.contains(State { bits: STATE_ACTIVE }));
    assert!(s.contains(State { bits: STATE_HIGHLIGHT }));
}

#[test]
fn styling_classes_follow_the_state() {
    let active = State { bits: STATE_NONE | STATE_ACTIVE };
    assert_eq!(border_class(&active), BorderClass::Active);
    assert_eq!(text_class(&active, false), (TextClass::Focused, false));

    let highlighted = State { bits: STATE_NONE | STATE_HIGHLIGHT };
    assert_eq!(border_class(&highlighted), BorderClass::Highlighted);
    assert_eq!(text_class(&highlighted, true), (TextClass::Dimmed, true));

    let idle = State { bits: STATE_NONE };
    assert_eq!(border_class(&idle), BorderClass::Inactive);
}

#[test]
fn text_box_state_transitions() {
    let mut tb = TextBox::new("Password");
    assert_eq!(tb.title(), "Password");
    tb.set_hide_chars();

    let (border, text) = tb.push_state(State { bits: STATE_ACTIVE });
    assert_eq!(border, BorderClass::Active);
    assert_eq!(text, TextClass::Focused);
    assert!(tb.state().contains(State { bits: STATE_ACTIVE }));

    let (_, text) = tb.pop_state(State { bits: STATE_ACTIVE });
    assert_eq!(text, TextClass::Dimmed);

    assert!(tb.update(&Action::Key));
    assert!(tb.update(&Action::Mouse));
    assert!(!tb.update(&Action::Quit));
    assert!(!tb.update(&Action::Redraw));
    assert!(!tb.update(&Action::Noop));
}

#[test]
fn component_constraints_per_direction() {
    assert_eq!(constraints(Direction::Horizontal), Constraint::Max(10));
    assert_eq!(constraints(Direction::Vertical), Constraint::Max(3));
}
