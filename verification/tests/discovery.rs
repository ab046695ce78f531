use rtlsdr_nusb::discovery::{list, select, Selector, UsbIdentity};
use rtlsdr_nusb::{DeviceDescriptor, Error};

fn identity(vid: u16, pid: u16, serial: Option<&str>) -> UsbIdentity {
    UsbIdentity {
        vid,
        pid,
        serial: serial.map(str::to_owned),
        manufacturer: Some("Realtek".to_owned()),
        product: None,
    }
}

fn found() -> Vec<UsbIdentity> {
    vec![
        identity(0x1d6b, 0x0002, None),
        identity(0x0bda, 0x2838, Some("1")),
        identity(0x0bda, 0x2833, Some("1")),
        identity(0x0bda, 0x2832, Some("2")),
        identity(0x0ccd, 0x00a9, Some("2")),
        identity(0x0bda, 0x2838, Some("2")),
    ]
}

fn selector(index: Option<usize>, serial: Option<&str>, usb_id: Option<(u16, u16)>) -> Selector {
    Selector {
        index,
        serial: serial.map(str::to_owned),
        usb_id,
    }
}

#[test]
fn standard_receivers_are_listed_in_order() {
    let listed = list(&found());
    let shown: Vec<_> = listed
        .iter()
        .map(|d| (d.index, d.pid, d.serial.as_deref().unwrap()))
        .collect();
    assert_eq!(shown, [(0, 0x2838, "1"), (1, 0x2832, "2"), (2, 0x2838, "2")]);
    assert_eq!(listed[0].manufacturer.as_deref(), Some("Realtek"));
    assert_eq!(listed[0].product, None);
    assert_eq!(listed[1].clone(), listed[1]);
}

#[test]
fn selection_goes_by_index_serial_and_id() {
    let found = found();
    let at = |index, serial, id| {
        select(&selector(index, serial, id), &found).map(|(d, at)| (d.index, at))
    };
    assert_eq!(at(None, None, None).unwrap(), (0, 1));
    assert_eq!(at(Some(2), None, None).unwrap(), (2, 5));
    assert_eq!(at(None, Some("2"), None).unwrap(), (1, 3));
    assert_eq!(at(None, None, Some((0x0ccd, 0x00a9))).unwrap(), (0, 4));
    assert_eq!(at(None, Some("2"), Some((0x0bda, 0x2838))).unwrap(), (1, 5));
    for (index, serial, id) in [
        (Some(3), None, None),
        (None, Some("3"), None),
        (Some(0), Some("2"), None),
        (None, None, Some((1, 2))),
    ] {
        assert!(matches!(at(index, serial, id), Err(Error::DeviceNotFound)));
    }
}

#[test]
fn permission_is_asked_for_the_selected_ids() {
    assert_eq!(
        Selector::default().permission_ids(),
        [(0x0bda, 0x2832), (0x0bda, 0x2838)]
    );
    assert_eq!(
        selector(None, None, Some((1, 2))).permission_ids(),
        [(1, 2)]
    );
}

#[test]
fn branding_identifies_the_blog_v4() {
    let branded = |manufacturer: Option<&str>, product: Option<&str>| DeviceDescriptor {
        index: 0,
        vid: 0x0bda,
        pid: 0x2838,
        serial: None,
        manufacturer: manufacturer.map(str::to_owned),
        product: product.map(str::to_owned),
    };
    assert!(branded(Some("RTLSDRBlog"), Some("Blog V4")).blog_v4());
    assert!(!branded(Some("RTLSDRBlog"), Some("Blog V3")).blog_v4());
    assert!(!branded(Some("Realtek"), Some("Blog V4")).blog_v4());
    assert!(!branded(None, Some("Blog V4")).blog_v4());
    assert!(!branded(Some("RTLSDRBlog"), None).blog_v4());
}
