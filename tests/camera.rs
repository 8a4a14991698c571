use tileview::camera::{
    key_motion, scroll_zoom, Drag, KeyMotion, Keys, ScrollZoom, BOOST_PAN_SPEED, PAN_SPEED,
};

fn none() -> Keys {
    Keys {
        right: false,
        left: false,
        up: false,
        down: false,
        boost: false,
        zoom_in: false,
        zoom_out: false,
    }
}

#[test]
fn no_keys_no_motion() {
    assert_eq!(
        key_motion(&none()),
        KeyMotion {
            dx: 0,
            dy: 0,
            pan_speed: PAN_SPEED,
            zoom: 0,
            zoom_rate: 1
        }
    );
}

#[test]
fn directional_keys_pan() {
    let k = Keys { right: true, up: true, ..none() };
    let m = key_motion(&k);
    assert_eq!((m.dx, m.dy), (1, -1));
    let k = Keys { left: true, down: true, ..none() };
    let m = key_motion(&k);
    assert_eq!((m.dx, m.dy), (-1, 1));
}

#[test]
fn opposite_keys_cancel() {
    let k = Keys { right: true, left: true, zoom_in: true, zoom_out: true, ..none() };
    let m = key_motion(&k);
    assert_eq!((m.dx, m.zoom), (0, 0));
}

#[test]
fn boost_speeds_up_pan_and_zoom() {
    let k = Keys { boost: true, zoom_in: true, ..none() };
    let m = key_motion(&k);
    assert_eq!(m.pan_speed, BOOST_PAN_SPEED);
    assert_eq!(m.pan_speed, 20);
    assert_eq!(m.zoom_rate, 4);
    assert_eq!(m.zoom, 1);
}

#[test]
fn scroll_zooms_within_bounds() {
    assert_eq!(scroll_zoom(1, true, true), ScrollZoom::In);
    assert_eq!(scroll_zoom(1, false, true), ScrollZoom::Hold);
    assert_eq!(scroll_zoom(-1, true, true), ScrollZoom::Out);
    assert_eq!(scroll_zoom(-1, true, false), ScrollZoom::Hold);
    assert_eq!(scroll_zoom(0, true, true), ScrollZoom::Hold);
    assert_eq!(scroll_zoom(2, true, true), ScrollZoom::Hold);
}

#[test]
fn drag_records_anchor_then_pans_from_it() {
    let mut d: Drag<(i32, i32)> = Drag::Idle;
    assert_eq!(d.update(true, (10, 10)), None);
    assert_eq!(d.update(true, (50, 50)), Some((10, 10)));
    assert_eq!(d.update(true, (70, 20)), Some((10, 10)));
    assert_eq!(d.update(false, (70, 20)), None);
    assert!(matches!(d, Drag::Idle));
    assert_eq!(d.update(true, (1, 2)), None);
    assert_eq!(d.update(true, (3, 4)), Some((1, 2)));
}
