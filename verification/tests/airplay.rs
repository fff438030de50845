use amos_tauri::airplay::{
    platform_get_devices, platform_is_active, platform_start_discovery, platform_stop_discovery,
    AirPlayDevice, AirPlayHost, AirPlayManager, AirPlayResult, DeviceKind, PlatformDiscovery,
    StreamKind,
};

/// A desktop development host: AirPlay present, no AVFoundation path, demo
/// receivers on.
fn dev_host() -> AirPlayHost {
    AirPlayHost { available: true, apple: false, demo_devices: true }
}

#[test]
fn test_new_discovery_is_inactive() {
    let discovery = Some(PlatformDiscovery::new());
    assert!(!platform_is_active(&discovery));
}

#[test]
fn test_start_then_stop() {
    let mut discovery = None;
    let _ = platform_start_discovery(&mut discovery, true);
    platform_stop_discovery(&mut discovery);
    assert!(!platform_is_active(&discovery));
}

#[test]
fn test_get_devices_when_inactive() {
    let discovery = Some(PlatformDiscovery::new());
    let devices = platform_get_devices(&discovery);
    assert!(devices.is_empty());
}

#[test]
fn test_get_devices_with_none() {
    let discovery: Option<PlatformDiscovery> = None;
    let devices = platform_get_devices(&discovery);
    assert!(devices.is_empty());
}

#[test]
fn test_stop_when_none() {
    let mut discovery: Option<PlatformDiscovery> = None;
    platform_stop_discovery(&mut discovery);
    assert!(discovery.is_none());
}

#[test]
fn test_is_active_with_none() {
    let discovery: Option<PlatformDiscovery> = None;
    assert!(!platform_is_active(&discovery));
}

#[test]
fn test_apple_platform_discovery_lifecycle() {
    let mut discovery = None;
    match platform_start_discovery(&mut discovery, true) {
        AirPlayResult::Succeeded => assert!(platform_is_active(&discovery)),
        other => panic!("unexpected {other:?}"),
    }
    platform_stop_discovery(&mut discovery);
    assert!(!platform_is_active(&discovery));
    let mut off_main = None;
    match platform_start_discovery(&mut off_main, false) {
        AirPlayResult::Failed { reason } => assert!(reason.contains("main thread")),
        other => panic!("unexpected {other:?}"),
    }
    assert!(!platform_is_active(&off_main));
}

#[test]
fn test_multiple_start_calls() {
    let mut discovery = None;
    let _ = platform_start_discovery(&mut discovery, true);
    let _ = platform_start_discovery(&mut discovery, true);
    assert!(platform_is_active(&discovery));
    platform_stop_discovery(&mut discovery);
}

#[test]
fn test_airplay_device_creation() {
    let device = AirPlayDevice {
        id: "test-device-001".to_string(),
        name: "Test Apple TV".to_string(),
        kind: DeviceKind::AppleTv,
        supports_video: true,
        supports_audio: true,
        supports_mirroring: true,
        signal_strength: 85,
        connected: false,
    };

    assert_eq!(device.id, "test-device-001");
    assert_eq!(device.kind, DeviceKind::AppleTv);
    assert!(device.supports_video);
    assert!(!device.connected);
}

#[test]
fn test_manager_creation() {
    let mgr = AirPlayManager::new(dev_host());
    let link = mgr.link();
    assert!(!link.active);
    assert!(link.device.is_none());
}

#[test]
fn test_discovery() {
    let mut mgr = AirPlayManager::new(dev_host());
    assert_eq!(mgr.start_discovery(true), AirPlayResult::Succeeded);
    assert!(!mgr.get_devices().is_empty());
}

#[test]
fn test_connect_disconnect() {
    let mut mgr = AirPlayManager::new(dev_host());
    mgr.start_discovery(true);
    let devices = mgr.get_devices();
    let device = devices.first().expect("demo devices");
    assert_eq!(mgr.connect(&device.id), AirPlayResult::Succeeded);
    assert!(mgr.link().active);
    assert!(mgr.get_devices()[0].connected);
    assert_eq!(mgr.disconnect(), AirPlayResult::Succeeded);
    assert!(!mgr.link().active);
    assert!(!mgr.get_devices()[0].connected);
}

#[test]
fn test_manager_connect_device_not_found() {
    let mut mgr = AirPlayManager::new(dev_host());
    mgr.start_discovery(true);
    assert_eq!(mgr.connect("nope"), AirPlayResult::DeviceNotFound);
}

#[test]
fn test_start_stream_no_connection() {
    let mut mgr = AirPlayManager::new(dev_host());
    match mgr.start_stream(StreamKind::Video, None) {
        AirPlayResult::Failed { reason } => assert_eq!(reason, "No device connected"),
        other => panic!("unexpected {other:?}"),
    }
}

#[test]
fn a_homepod_refuses_video_but_plays_audio() {
    let mut mgr = AirPlayManager::new(dev_host());
    mgr.start_discovery(true);
    assert_eq!(mgr.connect("demo-homepod"), AirPlayResult::Succeeded);
    match mgr.start_stream(StreamKind::Video, None) {
        AirPlayResult::Failed { reason } => {
            assert_eq!(reason, "Device does not support video streaming")
        }
        other => panic!("unexpected {other:?}"),
    }
    assert_eq!(mgr.start_stream(StreamKind::Audio, None), AirPlayResult::Succeeded);
    assert!(mgr.link().playing);
    assert_eq!(mgr.stop_stream(), AirPlayResult::Succeeded);
    assert!(!mgr.link().playing);
}

#[test]
fn an_unavailable_platform_refuses_everything() {
    let mut mgr = AirPlayManager::new(AirPlayHost {
        available: false,
        apple: false,
        demo_devices: true,
    });
    let refused = AirPlayResult::Unavailable {
        reason: "AirPlay is not supported on this platform".to_string(),
    };
    assert_eq!(mgr.start_discovery(true), refused);
    assert_eq!(mgr.connect("demo-tv"), refused);
    assert_eq!(mgr.disconnect(), refused);
    assert_eq!(mgr.volume_gate(), refused);
    assert!(mgr.get_devices().is_empty());
}

#[test]
fn availability_follows_the_host() {
    assert!(AirPlayManager::new(dev_host()).is_available());
    let none = AirPlayHost { available: false, apple: false, demo_devices: false };
    assert!(!AirPlayManager::new(none).is_available());
}

#[test]
fn test_airplay_manager_new() {
    let manager = AirPlayManager::new(dev_host());
    let status = manager.link();
    assert!(!status.active);
    assert!(status.device.is_none());
}

#[test]
fn test_manager_start_discovery() {
    let mut manager = AirPlayManager::new(dev_host());
    let result = manager.start_discovery(true);
    match result {
        AirPlayResult::Succeeded => {}
        AirPlayResult::Unavailable { .. } => {}
        AirPlayResult::Failed { .. } => {}
        _ => panic!("Unexpected result from start_discovery"),
    }
}

#[test]
fn test_manager_stop_discovery() {
    let mut manager = AirPlayManager::new(dev_host());
    let _ = manager.start_discovery(true);
    manager.stop_discovery();
}

#[test]
fn test_manager_get_devices() {
    let mut manager = AirPlayManager::new(dev_host());
    let result = manager.start_discovery(true);
    match result {
        AirPlayResult::Succeeded => {
            let devices = manager.get_devices();
            assert_eq!(devices.len(), 3);
        }
        AirPlayResult::Failed { .. } => {}
        AirPlayResult::Unavailable { .. } => {}
        _ => {}
    }
}

#[test]
fn test_manager_disconnect_not_connected() {
    let mut manager = AirPlayManager::new(dev_host());
    let result = manager.disconnect();
    match result {
        AirPlayResult::Succeeded => {}
        AirPlayResult::Unavailable { .. } => {}
        _ => panic!("Unexpected result from disconnect"),
    }
}

#[test]
fn test_platform_availability() {
    let manager = AirPlayManager::new(dev_host());
    let available = manager.is_available();
    assert!(available);
}

#[test]
fn test_stop_stream_no_active_stream() {
    let mut manager = AirPlayManager::new(dev_host());
    let result = manager.stop_stream();
    match result {
        AirPlayResult::Succeeded => (),
        AirPlayResult::Unavailable { .. } => (),
        _ => panic!("Expected Ok or Unavailable"),
    }
}

#[test]
fn discovery_lists_the_demo_receivers_only_on_a_demo_host() {
    let mut plain = AirPlayManager::new(AirPlayHost { available: true, apple: false, demo_devices: false });
    assert_eq!(plain.start_discovery(true), AirPlayResult::Succeeded);
    assert!(plain.get_devices().is_empty());
    let mut demo = AirPlayManager::new(dev_host());
    assert_eq!(demo.start_discovery(false), AirPlayResult::Succeeded);
    let ids: Vec<String> = demo.get_devices().into_iter().map(|d| d.id).collect();
    assert_eq!(ids, vec!["demo-appletv", "demo-homepod", "demo-tv"]);
}

#[test]
fn apple_route_detection_off_the_main_thread_is_refused() {
    let mut m = AirPlayManager::new(AirPlayHost { available: true, apple: true, demo_devices: true });
    match m.start_discovery(false) {
        AirPlayResult::Failed { reason } => {
            assert_eq!(reason, "AVRouteDetector requires main thread (Tauri limitation)")
        }
        other => panic!("unexpected {other:?}"),
    }
    assert!(m.get_devices().is_empty());
    assert_eq!(m.start_discovery(true), AirPlayResult::Succeeded);
    assert_eq!(m.get_devices().len(), 3);
}
