use remote_control::error::CommandError;
use remote_control::system::{get_system_info, system_info, Display, DisplayInfo, SystemInfo};

#[test]
fn displays_are_numbered_in_the_order_given() {
    let displays = vec![
        Display { width: 1920, height: 1080, x: 0, y: 0, is_primary: true },
        Display { width: 1280, height: 1024, x: 1920, y: -56, is_primary: false },
        Display { width: 800, height: 600, x: -800, y: 0, is_primary: false },
    ];
    let info = get_system_info(Ok(displays), "linux".to_string()).unwrap();
    assert_eq!(
        info.screens,
        vec![
            DisplayInfo { id: 0, width: 1920, height: 1080, x: 0, y: 0, is_primary: true },
            DisplayInfo { id: 1, width: 1280, height: 1024, x: 1920, y: -56, is_primary: false },
            DisplayInfo { id: 2, width: 800, height: 600, x: -800, y: 0, is_primary: false },
        ]
    );
    assert_eq!(info.platform, "linux");
}

#[test]
fn no_display_is_an_empty_list() {
    let info = get_system_info(Ok(vec![]), "macos".to_string()).unwrap();
    assert_eq!(info.screens, vec![]);
    assert_eq!(info.platform, "macos");
}

#[test]
fn system_info_is_stamped_with_the_current_time() {
    let before = chrono::Utc::now();
    let info = get_system_info(Ok(vec![]), "windows".to_string()).unwrap();
    let after = chrono::Utc::now();
    let stamped = chrono::DateTime::parse_from_rfc3339(&info.timestamp).unwrap();
    assert!(before <= stamped && stamped <= after);
}

#[test]
fn failed_enumeration_fails_the_command() {
    let outcome = get_system_info(Err("no display server".to_string()), "linux".to_string());
    assert_eq!(
        outcome,
        Err(CommandError::DisplayEnumerationFailed { detail: "no display server".to_string() })
    );
    assert_eq!(outcome.unwrap_err().message(), "Error obteniendo pantallas: no display server");
}

#[test]
fn system_information_stores_the_time_and_the_platform_given() {
    let displays = vec![Display { width: 640, height: 480, x: 10, y: 20, is_primary: true }];
    assert_eq!(
        system_info(Ok(displays), "linux".to_string(), "2024-05-06T07:08:09+00:00".to_string()),
        Ok(SystemInfo {
            screens: vec![DisplayInfo {
                id: 0,
                width: 640,
                height: 480,
                x: 10,
                y: 20,
                is_primary: true,
            }],
            timestamp: "2024-05-06T07:08:09+00:00".to_string(),
            platform: "linux".to_string(),
        })
    );
    assert_eq!(
        system_info(Ok(vec![]), "macos".to_string(), "now".to_string()),
        Ok(SystemInfo { screens: vec![], timestamp: "now".to_string(), platform: "macos".to_string() })
    );
}

#[test]
fn system_information_fails_with_the_providers_words() {
    assert_eq!(
        system_info(Err("no display".to_string()), "linux".to_string(), "now".to_string()),
        Err(CommandError::DisplayEnumerationFailed { detail: "no display".to_string() })
    );
}
