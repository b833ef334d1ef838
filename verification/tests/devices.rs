use spotify_player::devices::{find_available_device, DeviceStatus};
use spotify_player::model::Device;

fn device(id: Option<&str>, name: &str, is_active: bool) -> DeviceStatus {
    DeviceStatus { id: id.map(|s| s.to_string()), name: name.to_string(), is_active }
}

#[test]
fn active_device_is_chosen_first() {
    let devices = vec![
        device(Some("a"), "Laptop", false),
        device(Some("b"), "Phone", true),
        device(Some("c"), "Speaker", true),
    ];
    assert_eq!(
        find_available_device(&devices, None, &"Laptop".to_string()),
        Some("b".to_string())
    );
}

#[test]
fn active_device_without_id_gives_none() {
    let devices = vec![device(Some("a"), "Laptop", false), device(None, "Phone", true)];
    assert_eq!(find_available_device(&devices, None, &"Laptop".to_string()), None);
}

#[test]
fn default_device_is_preferred() {
    let devices = vec![
        device(Some("a"), "Laptop", false),
        device(None, "Speaker", false),
        device(Some("c"), "Speaker", false),
    ];
    assert_eq!(
        find_available_device(&devices, None, &"Speaker".to_string()),
        Some("c".to_string())
    );
}

#[test]
fn first_device_is_used_without_default() {
    let devices = vec![device(None, "TV", false), device(Some("b"), "Phone", false)];
    assert_eq!(
        find_available_device(&devices, None, &"Laptop".to_string()),
        Some("b".to_string())
    );
}

#[test]
fn integrated_device_is_listed_last() {
    let devices = vec![device(Some("a"), "Laptop", false)];
    let integrated = Device { id: "local".to_string(), name: "spotify-player".to_string() };
    assert_eq!(
        find_available_device(&devices, Some(integrated.clone()), &"spotify-player".to_string()),
        Some("local".to_string())
    );
    assert_eq!(
        find_available_device(&devices, Some(integrated.clone()), &"Other".to_string()),
        Some("a".to_string())
    );
    assert_eq!(
        find_available_device(&vec![], Some(integrated), &"Other".to_string()),
        Some("local".to_string())
    );
}

#[test]
fn no_device_gives_none() {
    assert_eq!(find_available_device(&vec![], None, &"Laptop".to_string()), None);
    let devices = vec![device(None, "TV", false)];
    assert_eq!(find_available_device(&devices, None, &"TV".to_string()), None);
}
