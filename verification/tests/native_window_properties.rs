use wm::native_window_properties::{NativeWindowProperties, NativeWindowReadings};
use wm::rect::{Rect, RectDelta};

fn readings() -> NativeWindowReadings<&'static str> {
    NativeWindowReadings {
        title: Ok("Notes".to_string()),
        class_name: Some(Ok("Notepad".to_string())),
        process_name: Ok("notepad".to_string()),
        frame: Ok(Rect::from_ltrb(1, 2, 3, 4)),
        is_minimized: Ok(false),
        is_maximized: Ok(true),
        is_resizable: Ok(true),
        shadow_borders: Some(Ok(RectDelta { left: 7, top: 0, right: 7, bottom: 7 })),
        read_at: 42,
    }
}

#[test]
fn properties_hold_what_was_read() {
    let properties = NativeWindowProperties::try_from(readings()).unwrap();

    assert_eq!(properties.title, "Notes");
    assert_eq!(properties.class_name.as_deref(), Some("Notepad"));
    assert_eq!(properties.process_name, "notepad");
    assert_eq!(properties.frame, Rect::from_ltrb(1, 2, 3, 4));
    assert!(!properties.is_minimized);
    assert!(properties.is_maximized);
    assert!(properties.is_resizable);
    assert_eq!(
        properties.shadow_borders,
        Some(RectDelta { left: 7, top: 0, right: 7, bottom: 7 })
    );
    assert_eq!(properties.read_at, 42);
}

#[test]
fn properties_can_be_cloned() {
    let properties = NativeWindowProperties::try_from(readings()).unwrap();
    let clone = properties.clone();

    assert_eq!(clone.title, properties.title);
    assert_eq!(clone.class_name, properties.class_name);
    assert_eq!(clone.frame, properties.frame);
    assert_eq!(clone.shadow_borders, properties.shadow_borders);
    assert_eq!(clone.read_at, properties.read_at);
}

#[test]
fn what_the_system_does_not_know_is_absent() {
    let mut without = readings();
    without.class_name = None;
    without.shadow_borders = None;

    let properties = NativeWindowProperties::try_from(without).unwrap();

    assert_eq!(properties.class_name, None);
    assert_eq!(properties.shadow_borders, None);
}

#[test]
fn the_first_reading_that_failed_is_reported() {
    let mut failing = readings();
    failing.shadow_borders = Some(Err("borders"));
    assert_eq!(NativeWindowProperties::try_from(failing).err(), Some("borders"));

    let mut failing = readings();
    failing.shadow_borders = Some(Err("borders"));
    failing.is_resizable = Err("resizable");
    failing.is_maximized = Err("maximized");
    assert_eq!(NativeWindowProperties::try_from(failing).err(), Some("maximized"));

    let mut failing = readings();
    failing.is_minimized = Err("minimized");
    failing.frame = Err("frame");
    failing.process_name = Err("process");
    failing.class_name = Some(Err("class"));
    assert_eq!(NativeWindowProperties::try_from(failing).err(), Some("class"));

    let mut failing = readings();
    failing.class_name = Some(Err("class"));
    failing.title = Err("title");
    assert_eq!(NativeWindowProperties::try_from(failing).err(), Some("title"));
}
