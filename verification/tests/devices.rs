use rot8::devices::dummy::DummyCreator;
use rot8::devices::xrandr::{XRandRCreator, XRandRDriver};
use rot8::devices::{Rotator, RotatorCreator};
use rot8::error::{Error, Result};
use rot8::orientation::{AbsoluteOrientation, Rotation};
use rot8::sensors::dummy::DummyCreator as DummySensorCreator;
use rot8::sensors::{Sensor, SensorDriver};

#[test]
fn create_rotatable() -> Result<()> {
    let driver = DummyCreator {};
    assert_eq!(
        driver.available_rotators()?,
        ["0", "90", "180", "270"]
            .iter()
            .map(|s| String::from(*s))
            .collect::<Vec<String>>()
    );

    for rotator_arg in driver.available_rotators()? {
        let rotator = driver.create_rotator(rotator_arg.clone())?;
        assert_eq!(
            rotator.get_current_orientation()?,
            AbsoluteOrientation::from(Rotation::from_degrees(
                rotator_arg.parse::<isize>().unwrap()
            )?)
        )
    }

    Ok(())
}

#[test]
fn set_orientation() -> Result<()> {
    let driver = DummyCreator {};
    let mut rotator = driver.create_rotator(String::from("0"))?;

    assert_eq!(
        rotator.get_current_orientation()?,
        AbsoluteOrientation::Normal
    );

    rotator.set_orientation(AbsoluteOrientation::RightUp)?;
    assert_eq!(
        rotator.get_current_orientation()?,
        AbsoluteOrientation::RightUp
    );

    rotator.set_orientation(AbsoluteOrientation::Flipped)?;
    assert_eq!(
        rotator.get_current_orientation()?,
        AbsoluteOrientation::Flipped
    );

    rotator.set_orientation(AbsoluteOrientation::LeftUp)?;
    assert_eq!(
        rotator.get_current_orientation()?,
        AbsoluteOrientation::LeftUp
    );

    Ok(())
}

#[test]
fn create_sensor() -> Result<()> {
    let driver = DummySensorCreator {};
    assert_eq!(
        driver.available_sensors()?,
        ["0", "90", "180", "270"]
            .iter()
            .map(|s| String::from(*s))
            .collect::<Vec<String>>()
    );

    for sensor_arg in driver.available_sensors()? {
        let sensor = driver.create_sensor(sensor_arg.clone())?;
        assert_eq!(
            sensor.get_rotation()?,
            Rotation::from_degrees(sensor_arg.parse::<isize>().unwrap())?
        )
    }

    Ok(())
}

#[test]
fn dummy_devices_reject_bad_arguments() {
    let sensors = DummySensorCreator {};
    assert!(matches!(sensors.create_sensor("north".to_string()), Err(Error::Unknown)));
    assert!(matches!(sensors.create_sensor("".to_string()), Err(Error::Unknown)));
    assert!(matches!(
        sensors.create_sensor("42".to_string()),
        Err(Error::InvalidDegrees(42))
    ));
    assert!(matches!(
        sensors.create_sensor("-365".to_string()),
        Err(Error::InvalidDegrees(-5))
    ));
    let rotators = DummyCreator {};
    assert!(matches!(rotators.create_rotator("1e2".to_string()), Err(Error::Unknown)));
    assert!(matches!(
        rotators.create_rotator("91".to_string()),
        Err(Error::InvalidDegrees(91))
    ));
    let rotator = rotators.create_rotator("-90".to_string()).unwrap();
    assert_eq!(rotator.get_current_orientation().unwrap(), AbsoluteOrientation::LeftUp);
    let rotator = rotators.create_rotator("+3690".to_string()).unwrap();
    assert_eq!(rotator.get_current_orientation().unwrap(), AbsoluteOrientation::RightUp);
}

#[test]
fn invalid_degrees_carry_the_remainder() {
    assert!(matches!(Rotation::from_degrees(42), Err(Error::InvalidDegrees(42))));
    assert!(matches!(Rotation::from_degrees(402), Err(Error::InvalidDegrees(42))));
    assert!(matches!(Rotation::from_degrees(-1), Err(Error::InvalidDegrees(-1))));
    assert!(matches!(Rotation::from_degrees(-361), Err(Error::InvalidDegrees(-1))));
    assert!(matches!(Rotation::from_degrees(isize::MAX), Err(Error::InvalidDegrees(_))));
}

const LISTING: &str = "Screen 0: minimum 320 x 200, current 1920 x 1080, maximum 16384 x 16384\n\
eDP-1 connected primary 1920x1080+0+0 inverted (normal left inverted right x axis y axis) 309mm x 174mm\n\
   1920x1080     60.00*+  59.93\n\
HDMI-1 disconnected (normal left inverted right x axis y axis)\n\
DP-1 connected 1080x1920+1920+0 1 left (normal left inverted right x axis y axis) 509mm x 286mm\n\
DP-2 connected 1920x1080+3000+0 (normal left inverted right x axis y axis) 509mm x 286mm\n";

fn driver(name: &str) -> XRandRDriver {
    XRandRCreator {}.create_rotator(name.to_string())
}

#[test]
fn xrandr_lists_connected_monitors() {
    let creator = XRandRCreator {};
    assert_eq!(creator.available_rotators(LISTING), vec!["eDP-1", "DP-1", "DP-2"]);
    assert!(creator.available_rotators("").is_empty());
    assert!(creator
        .available_rotators("HDMI-1 disconnected (normal left inverted right)")
        .is_empty());
}

#[test]
fn xrandr_reads_orientation() {
    assert_eq!(driver("eDP-1").get_current_orientation(LISTING), AbsoluteOrientation::Flipped);
    assert_eq!(driver("DP-1").get_current_orientation(LISTING), AbsoluteOrientation::LeftUp);
    assert_eq!(driver("HDMI-1").get_current_orientation(LISTING), AbsoluteOrientation::Normal);
    assert_eq!(driver("nothing").get_current_orientation(LISTING), AbsoluteOrientation::Normal);
    assert_eq!(driver("eDP-1").get_current_orientation(""), AbsoluteOrientation::Normal);
    let right = "eDP-1 connected primary 1920x1080+0+0 right (normal left";
    assert_eq!(driver("eDP-1").get_current_orientation(right), AbsoluteOrientation::RightUp);
    let odd = "eDP-1 connected primary 1920x1080+0+0 sideways (normal left";
    assert_eq!(driver("eDP-1").get_current_orientation(odd), AbsoluteOrientation::Normal);
}

#[test]
fn xrandr_orientation_from_matches() {
    let matches = vec![
        vec![Some("x".to_string()), Some("A".to_string()), Some("left".to_string())],
        vec![Some("x".to_string()), Some("B".to_string()), None],
        vec![Some("x".to_string()), Some("B".to_string()), Some("inverted".to_string())],
        vec![Some("x".to_string()), Some("B".to_string()), Some("right".to_string())],
        vec![Some("x".to_string())],
    ];
    assert_eq!(driver("A").orientation_of(&matches), AbsoluteOrientation::LeftUp);
    assert_eq!(driver("B").orientation_of(&matches), AbsoluteOrientation::Flipped);
    assert_eq!(driver("C").orientation_of(&matches), AbsoluteOrientation::Normal);
    assert_eq!(XRandRCreator::monitors_of(&matches), vec!["A", "B", "B", "B"]);
}

#[test]
fn xrandr_rotate_command() {
    let d = driver("eDP-1");
    let words = [
        (AbsoluteOrientation::Normal, "normal"),
        (AbsoluteOrientation::RightUp, "right"),
        (AbsoluteOrientation::Flipped, "inverted"),
        (AbsoluteOrientation::LeftUp, "left"),
    ];
    for (orientation, word) in words {
        let command = d.set_orientation(orientation);
        assert_eq!(command.program, "xrandr");
        assert_eq!(command.args, vec!["--output", "eDP-1", "--rotate", word]);
        assert!(command.env.is_empty());
        assert!(!command.quiet);
    }
}
