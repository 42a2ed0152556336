use rot8::classifier::Orientation;
use rot8::error::Error;
use rot8::orientation::AbsoluteOrientation;
use rot8::transform::Transform;
use rot8::xorg::XorgBackend;

const LISTING: &str = "Screen 0: minimum 320 x 200, current 1920 x 1080, maximum 16384 x 16384\n\
eDP-1 connected primary 1920x1080+0+0 inverted (normal left inverted right x axis y axis) 309mm x 174mm\n\
   1920x1080     60.00*+  59.93\n\
HDMI-1 disconnected (normal left inverted right x axis y axis)\n\
DP-1 connected primary 1920x1080+0+0 (normal left inverted right x axis y axis) 509mm x 286mm\n";

#[test]
fn xorg_reads_rotation_of_target_display() {
    let backend = XorgBackend::new("eDP-1", vec![]);
    assert!(matches!(
        backend.query(LISTING),
        Ok(Transform::_180)
    ));
}

#[test]
fn xorg_line_without_rotation_is_normal() {
    let backend = XorgBackend::new("DP-1", vec![]);
    assert!(matches!(
        backend.query(LISTING),
        Ok(Transform::Normal)
    ));
}

#[test]
fn xorg_left_and_right() {
    let backend = XorgBackend::new("eDP-1", vec![]);
    let left = "eDP-1 connected primary 1080x1920+0+0 left (normal left inverted right x axis y axis) 309mm x 174mm";
    let right = "eDP-1 connected primary 1080x1920+0+0 right (normal left inverted right x axis y axis) 309mm x 174mm";
    assert!(matches!(backend.query(left), Ok(Transform::_90)));
    assert!(matches!(backend.query(right), Ok(Transform::_270)));
}

#[test]
fn xorg_unknown_display_is_parse_failure() {
    let backend = XorgBackend::new("eDP-9", vec![]);
    assert!(matches!(
        backend.query(LISTING),
        Err(Error::ParseFailure)
    ));
}

#[test]
fn xorg_display_name_is_taken_literally() {
    // Without escaping, the dot would match any character.
    let backend = XorgBackend::new("eDP.1", vec![]);
    assert!(matches!(
        backend.query(LISTING),
        Err(Error::ParseFailure)
    ));
    let listing = "e+P.1 connected primary 1920x1080+0+0 left (normal left inverted right x axis y axis) 1mm x 1mm";
    let backend = XorgBackend::new("e+P.1", vec![]);
    assert!(matches!(backend.query(listing), Ok(Transform::_90)));
}

#[test]
fn xorg_rotation_commands() {
    let backend = XorgBackend::new(
        "eDP-1",
        vec!["ELAN0732:00 04F3:22E1".to_string(), "Wacom Pen".to_string()],
    );
    let commands = backend.apply(&Orientation::of(AbsoluteOrientation::RightUp));
    assert_eq!(commands.len(), 3);
    assert_eq!(commands[0].program, "xrandr");
    assert_eq!(commands[0].args, vec!["-o", "right"]);
    assert_eq!(commands[1].program, "xinput");
    assert_eq!(
        commands[1].args,
        vec![
            "set-prop",
            "ELAN0732:00 04F3:22E1",
            "Coordinate Transformation Matrix",
            "0", "1", "0", "-1", "0", "1", "0", "0", "1"
        ]
    );
    assert_eq!(commands[2].args[1], "Wacom Pen");
    assert!(commands.iter().all(|c| c.env.is_empty() && !c.quiet));
}
