//! AirPlay / screen mirroring / media casting: the device model, the discovery
//! handle, and the manager's connection state machine.
//!
//! The platform facts the manager depends on (whether AirPlay exists on this
//! host, whether the AVFoundation discovery path is used, whether the build
//! offers demo devices, and whether the caller runs on the main thread) are
//! handed in by the host; every decision made from them is here.
use vstd::prelude::*;

verus! {

/// AirPlay device type classification.
#[derive(Debug, Clone, Copy, PartialEq, Eq, Structural)]
pub enum DeviceKind {
    /// Apple TV or HomePod (native AirPlay 2).
    AppleTv,
    /// Smart TV with AirPlay 2 support.
    Tv,
    /// Mac, iPad, or AirPlay-enabled speaker.
    Audio,
    /// Generic DLNA/Cast receiver.
    Generic,
}

/// An AirPlay receiver.
#[derive(Debug)]
pub struct AirPlayDevice {
    /// Unique identifier (MAC address or service ID).
    pub id: String,
    /// Human-readable device name.
    pub name: String,
    pub kind: DeviceKind,
    pub supports_video: bool,
    pub supports_audio: bool,
    pub supports_mirroring: bool,
    /// Signal strength (0-100, 0 = unknown).
    pub signal_strength: u8,
    /// Whether the device is currently connected.
    pub connected: bool,
}

/// Mathematical model of an [`AirPlayDevice`].
pub ghost struct DeviceModel {
    pub id: Seq<char>,
    pub name: Seq<char>,
    pub kind: DeviceKind,
    pub supports_video: bool,
    pub supports_audio: bool,
    pub supports_mirroring: bool,
    pub signal_strength: u8,
    pub connected: bool,
}

impl View for AirPlayDevice {
    type V = DeviceModel;

    open spec fn view(&self) -> DeviceModel {
        DeviceModel {
            id: self.id@,
            name: self.name@,
            kind: self.kind,
            supports_video: self.supports_video,
            supports_audio: self.supports_audio,
            supports_mirroring: self.supports_mirroring,
            signal_strength: self.signal_strength,
            connected: self.connected,
        }
    }
}

impl Clone for AirPlayDevice {
    fn clone(&self) -> (r: Self)
        ensures
            r@ == self@,
    {
        AirPlayDevice {
            id: self.id.clone(),
            name: self.name.clone(),
            kind: self.kind,
            supports_video: self.supports_video,
            supports_audio: self.supports_audio,
            supports_mirroring: self.supports_mirroring,
            signal_strength: self.signal_strength,
            connected: self.connected,
        }
    }
}

/// Type of AirPlay stream.
#[derive(Debug, Clone, Copy, PartialEq, Eq, Structural)]
pub enum StreamKind {
    /// Audio-only streaming.
    Audio,
    /// Video streaming.
    Video,
    /// Full screen mirroring.
    Mirroring,
}

/// AirPlay command result.
#[derive(Debug, Clone, PartialEq, Eq)]
pub enum AirPlayResult {
    /// Command succeeded (`Ok` on the wire).
    Succeeded,
    /// Feature unavailable on this platform.
    Unavailable { reason: String },
    /// Permission denied.
    PermissionDenied { reason: String },
    /// Device not found or disconnected.
    DeviceNotFound,
    /// Operation failed.
    Failed { reason: String },
}

/// The result kinds with their reasons.
pub ghost enum ResultModel {
    Succeeded,
    Unavailable(Seq<char>),
    PermissionDenied(Seq<char>),
    DeviceNotFound,
    Failed(Seq<char>),
}

impl View for AirPlayResult {
    type V = ResultModel;

    open spec fn view(&self) -> ResultModel {
        match self {
            AirPlayResult::Succeeded => ResultModel::Succeeded,
            AirPlayResult::Unavailable { reason } => ResultModel::Unavailable(reason@),
            AirPlayResult::PermissionDenied { reason } => ResultModel::PermissionDenied(reason@),
            AirPlayResult::DeviceNotFound => ResultModel::DeviceNotFound,
            AirPlayResult::Failed { reason } => ResultModel::Failed(reason@),
        }
    }
}

// ---------------------------------------------------------------------------
// Platform discovery (AVFoundation route detection)
// ---------------------------------------------------------------------------

/// The AVFoundation route-discovery handle: whether discovery was started.
#[derive(Debug)]
pub struct AppleAirPlayDiscovery {
    active: bool,
}

/// The platform discovery handle of this build.
pub type PlatformDiscovery = AppleAirPlayDiscovery;

impl AppleAirPlayDiscovery {
    pub closed spec fn active_spec(&self) -> bool {
        self.active
    }

    /// A handle whose discovery has not started.
    pub fn new() -> (r: AppleAirPlayDiscovery)
        ensures
            !r.active_spec(),
    {
        AppleAirPlayDiscovery { active: false }
    }

    /// Start route detection. Route detection needs the main thread: off it,
    /// the start is refused and the handle stays as it was.
    pub fn start_discovery(&mut self, on_main_thread: bool) -> (r: AirPlayResult)
        ensures
            on_main_thread ==> final(self).active_spec() && r@ == ResultModel::Succeeded,
            !on_main_thread ==> final(self).active_spec() == old(self).active_spec() && r@
                == ResultModel::Failed("AVRouteDetector requires main thread (Tauri limitation)"@),
    {
        if !on_main_thread {
            return AirPlayResult::Failed {
                reason: String::from_str("AVRouteDetector requires main thread (Tauri limitation)"),
            };
        }
        self.active = true;
        AirPlayResult::Succeeded
    }

    /// Stop route detection.
    pub fn stop_discovery(&mut self)
        ensures
            !final(self).active_spec(),
    {
        self.active = false;
    }

    /// Whether discovery is active.
    pub fn is_active(&self) -> (r: bool)
        ensures
            r == self.active_spec(),
    {
        self.active
    }

    /// The devices route detection found. Route detection does not enumerate
    /// devices, so the list is empty whether or not discovery is active.
    pub fn get_devices(&self) -> (r: Vec<AirPlayDevice>)
        ensures
            r@.len() == 0,
    {
        Vec::new()
    }
}

/// Start platform discovery, creating the handle when there is none.
pub fn platform_start_discovery(
    discovery: &mut Option<PlatformDiscovery>,
    on_main_thread: bool,
) -> (r: AirPlayResult)
    ensures
        (*final(discovery)) is Some,
        on_main_thread ==> (*final(discovery)).unwrap().active_spec() && r@ == ResultModel::Succeeded,
        !on_main_thread ==> r@ == ResultModel::Failed(
            "AVRouteDetector requires main thread (Tauri limitation)"@,
        ) && (*final(discovery)).unwrap().active_spec() == match (*old(discovery)) {
            Some(d) => d.active_spec(),
            None => false,
        },
{
    let mut disc = match discovery.take() {
        Some(d) => d,
        None => AppleAirPlayDiscovery::new(),
    };
    let result = disc.start_discovery(on_main_thread);
    *discovery = Some(disc);
    result
}

/// Stop platform discovery, if a handle exists.
pub fn platform_stop_discovery(discovery: &mut Option<PlatformDiscovery>)
    ensures
        (*final(discovery)) is Some == (*old(discovery)) is Some,
        (*final(discovery)) matches Some(d) ==> !d.active_spec(),
{
    if let Some(disc) = discovery {
        disc.stop_discovery();
    }
}

/// The devices platform discovery found (none without a handle).
pub fn platform_get_devices(discovery: &Option<PlatformDiscovery>) -> (r: Vec<AirPlayDevice>)
    ensures
        r@.len() == 0,
{
    match discovery {
        Some(d) => d.get_devices(),
        None => Vec::new(),
    }
}

/// Whether platform discovery is active (never without a handle).
pub fn platform_is_active(discovery: &Option<PlatformDiscovery>) -> (r: bool)
    ensures
        r == match discovery {
            Some(d) => d.active_spec(),
            None => false,
        },
{
    match discovery {
        Some(d) => d.is_active(),
        None => false,
    }
}

// ---------------------------------------------------------------------------
// Manager
// ---------------------------------------------------------------------------

/// What the host tells the manager about itself.
#[derive(Debug, Clone, Copy)]
pub struct AirPlayHost {
    /// AirPlay (or a Cast/RAOP stand-in) exists on this platform.
    pub available: bool,
    /// Discovery goes through AVFoundation route detection (macOS / iOS).
    pub apple: bool,
    /// The build offers the demo receivers (development builds).
    pub demo_devices: bool,
}

/// The connection half of the AirPlay status: whether a session is active,
/// with which device, which stream, and whether it plays. (The volume, a
/// float, is kept by the host beside it.)
#[derive(Debug, Clone)]
pub struct AirPlayLink {
    pub active: bool,
    pub device: Option<AirPlayDevice>,
    pub stream_kind: Option<StreamKind>,
    pub playing: bool,
}

pub ghost struct LinkModel {
    pub active: bool,
    pub device: Option<DeviceModel>,
    pub stream_kind: Option<StreamKind>,
    pub playing: bool,
}

pub open spec fn opt_device(d: Option<AirPlayDevice>) -> Option<DeviceModel> {
    match d {
        Some(d) => Some(d@),
        None => None,
    }
}

impl View for AirPlayLink {
    type V = LinkModel;

    open spec fn view(&self) -> LinkModel {
        LinkModel {
            active: self.active,
            device: opt_device(self.device),
            stream_kind: self.stream_kind,
            playing: self.playing,
        }
    }
}

pub open spec fn devices_view(v: Seq<AirPlayDevice>) -> Seq<DeviceModel> {
    v.map_values(|d: AirPlayDevice| d@)
}

/// The first index of a device with id `id`, or `devs.len()`.
pub open spec fn device_index(devs: Seq<DeviceModel>, id: Seq<char>, from: int) -> int
    decreases devs.len() - from,
{
    if from >= devs.len() {
        devs.len() as int
    } else if devs[from].id == id {
        from
    } else {
        device_index(devs, id, from + 1)
    }
}

/// The manager state.
pub struct AirPlayManager {
    host: AirPlayHost,
    devices: Vec<AirPlayDevice>,
    status: AirPlayLink,
    discovering: bool,
    platform_discovery: Option<PlatformDiscovery>,
}

pub ghost struct ManagerModel {
    pub available: bool,
    /// The host discovers through AVFoundation route detection.
    pub apple: bool,
    /// The host offers the demo receivers.
    pub demo: bool,
    pub devices: Seq<DeviceModel>,
    pub link: LinkModel,
    pub discovering: bool,
    /// The platform discovery handle: `Some(active)` once one was made.
    pub platform: Option<bool>,
}

impl View for AirPlayManager {
    type V = ManagerModel;

    closed spec fn view(&self) -> ManagerModel {
        ManagerModel {
            available: self.host.available,
            apple: self.host.apple,
            demo: self.host.demo_devices,
            devices: devices_view(self.devices@),
            link: self.status@,
            discovering: self.discovering,
            platform: match self.platform_discovery {
                Some(d) => Some(d.active_spec()),
                None => None,
            },
        }
    }
}

/// The reason given when the manager refuses to act.
pub open spec fn unavailable_reason_spec(available: bool) -> Seq<char> {
    if !available {
        "AirPlay is not supported on this platform"@
    } else {
        "AirPlay service not initialized"@
    }
}

/// The failure reason when `d` cannot carry a stream of `kind`.
pub open spec fn capability_refusal(d: DeviceModel, kind: StreamKind) -> Option<Seq<char>> {
    match kind {
        StreamKind::Video => if !d.supports_video {
            Some("Device does not support video streaming"@)
        } else {
            None
        },
        StreamKind::Audio => if !d.supports_audio {
            Some("Device does not support audio streaming"@)
        } else {
            None
        },
        StreamKind::Mirroring => if !d.supports_mirroring {
            Some("Device does not support screen mirroring"@)
        } else {
            None
        },
    }
}

/// One demo receiver: audio always, never connected.
pub open spec fn demo_model(
    id: Seq<char>,
    name: Seq<char>,
    kind: DeviceKind,
    video: bool,
    mirroring: bool,
    signal: u8,
) -> DeviceModel {
    DeviceModel {
        id,
        name,
        kind,
        supports_video: video,
        supports_audio: true,
        supports_mirroring: mirroring,
        signal_strength: signal,
        connected: false,
    }
}

/// The demo receivers a development host offers.
pub open spec fn demo_models() -> Seq<DeviceModel> {
    seq![
        demo_model("demo-appletv"@, "Living Room Apple TV"@, DeviceKind::AppleTv, true, true, 85),
        demo_model("demo-homepod"@, "Bedroom HomePod"@, DeviceKind::Audio, false, false, 70),
        demo_model("demo-tv"@, "Samsung Smart TV"@, DeviceKind::Tv, true, true, 60),
    ]
}

/// The main-thread refusal of route detection.
pub open spec fn main_thread_refusal() -> Seq<char> {
    "AVRouteDetector requires main thread (Tauri limitation)"@
}

fn demo_device(
    id: &str,
    name: &str,
    kind: DeviceKind,
    video: bool,
    mirroring: bool,
    signal: u8,
) -> (r: AirPlayDevice)
    ensures
        r.id@ == id@,
        r.name@ == name@,
        r.kind == kind,
        r.supports_video == video,
        r.supports_audio,
        r.supports_mirroring == mirroring,
        r.signal_strength == signal,
        !r.connected,
{
    AirPlayDevice {
        id: String::from_str(id),
        name: String::from_str(name),
        kind,
        supports_video: video,
        supports_audio: true,
        supports_mirroring: mirroring,
        signal_strength: signal,
        connected: false,
    }
}

impl AirPlayManager {
    /// A manager with no devices, no discovery and no connection.
    pub fn new(host: AirPlayHost) -> (r: AirPlayManager)
        ensures
            r@.available == host.available,
            r@.devices.len() == 0,
            !r@.discovering,
            r@.link == (LinkModel { active: false, device: None, stream_kind: None, playing: false }),
    {
        let r = AirPlayManager {
            host,
            devices: Vec::new(),
            status: AirPlayLink { active: false, device: None, stream_kind: None, playing: false },
            discovering: false,
            platform_discovery: None,
        };
        assert(devices_view(r.devices@) =~= Seq::<DeviceModel>::empty());
        r
    }

    /// Whether AirPlay is available on this platform.
    pub fn is_available(&self) -> (r: bool)
        ensures
            r == self@.available,
    {
        self.host.available
    }

    fn unavailable_reason(&self) -> (r: String)
        ensures
            r@ == unavailable_reason_spec(self@.available),
    {
        if !self.host.available {
            return String::from_str("AirPlay is not supported on this platform");
        }
        String::from_str("AirPlay service not initialized")
    }

    /// The demo receivers a development build offers.
    pub fn demo_devices() -> (r: Vec<AirPlayDevice>)
        ensures
            devices_view(r@) == demo_models(),
            r@.len() == 3,
            r@[0].id@ == "demo-appletv"@,
            r@[1].id@ == "demo-homepod"@,
            r@[2].id@ == "demo-tv"@,
            forall|i: int| 0 <= i < 3 ==> !(#[trigger] r@[i]).connected,
    {
        let mut v: Vec<AirPlayDevice> = Vec::new();
        v.push(demo_device("demo-appletv", "Living Room Apple TV", DeviceKind::AppleTv, true, true, 85));
        v.push(demo_device("demo-homepod", "Bedroom HomePod", DeviceKind::Audio, false, false, 70));
        v.push(demo_device("demo-tv", "Samsung Smart TV", DeviceKind::Tv, true, true, 60));
        assert(devices_view(v@) =~= demo_models());
        v
    }

    /// Start device discovery. On an unavailable platform nothing changes.
    /// Otherwise discovery is on; an Apple host starts route detection (which
    /// needs the main thread and lists no devices of its own), and a host
    /// with demo receivers then lists them.
    pub fn start_discovery(&mut self, on_main_thread: bool) -> (r: AirPlayResult)
        ensures
            !old(self)@.available ==> r@ == ResultModel::Unavailable(unavailable_reason_spec(false))
                && final(self)@ == old(self)@,
            old(self)@.available ==> final(self)@.discovering,
            final(self)@.link == old(self)@.link,
            final(self)@.available == old(self)@.available,
            final(self)@.apple == old(self)@.apple,
            final(self)@.demo == old(self)@.demo,
            old(self)@.available && old(self)@.apple && !on_main_thread ==> r@ == ResultModel::Failed(
                main_thread_refusal(),
            ) && final(self)@.devices == old(self)@.devices && final(self)@.platform == Some(
                match old(self)@.platform {
                    Some(a) => a,
                    None => false,
                },
            ),
            old(self)@.available && (!old(self)@.apple || on_main_thread) ==> r@
                == ResultModel::Succeeded && final(self)@.devices == if old(self)@.demo {
                demo_models()
            } else {
                old(self)@.devices
            } && final(self)@.platform == if old(self)@.apple {
                Some(true)
            } else {
                old(self)@.platform
            },
    {
        if !self.host.available {
            return AirPlayResult::Unavailable { reason: self.unavailable_reason() };
        }
        self.discovering = true;
        if self.host.apple {
            let result = platform_start_discovery(&mut self.platform_discovery, on_main_thread);
            match result {
                AirPlayResult::Succeeded => {},
                _ => return result,
            }
            let found = platform_get_devices(&self.platform_discovery);
            if found.len() > 0 {
                self.devices = found;
                return AirPlayResult::Succeeded;
            }
        }
        if self.host.demo_devices {
            self.devices = Self::demo_devices();
        }
        AirPlayResult::Succeeded
    }

    /// Stop device discovery.
    pub fn stop_discovery(&mut self)
        ensures
            !final(self)@.discovering,
            final(self)@.devices == old(self)@.devices,
            final(self)@.link == old(self)@.link,
            final(self)@.available == old(self)@.available,
    {
        self.discovering = false;
        if self.host.apple {
            platform_stop_discovery(&mut self.platform_discovery);
        }
    }

    /// The discovered devices.
    pub fn get_devices(&self) -> (r: Vec<AirPlayDevice>)
        ensures
            devices_view(r@) == self@.devices,
    {
        let mut r: Vec<AirPlayDevice> = Vec::new();
        let mut i: usize = 0;
        while i < self.devices.len()
            invariant
                i <= self.devices.len(),
                r.len() == i,
                devices_view(r@) == devices_view(self.devices@).take(i as int),
            decreases self.devices.len() - i,
        {
            let d = self.devices[i].clone();
            let ghost old_r = r@;
            r.push(d);
            proof {
                assert forall|k: int| 0 <= k < i + 1 implies #[trigger] devices_view(r@)[k]
                    == devices_view(self.devices@).take(i + 1)[k] by {
                    if k < i {
                        assert(r@[k] == old_r[k]);
                        assert(devices_view(old_r)[k] == devices_view(self.devices@).take(
                            i as int,
                        )[k]);
                    }
                }
                assert(devices_view(r@) =~= devices_view(self.devices@).take(i + 1));
            }
            i = i + 1;
        }
        assert(devices_view(self.devices@).take(self.devices.len() as int) =~= devices_view(
            self.devices@,
        ));
        r
    }

    /// The connection status.
    pub fn link(&self) -> (r: AirPlayLink)
        ensures
            r@ == self@.link,
    {
        AirPlayLink {
            active: self.status.active,
            device: match &self.status.device {
                Some(d) => Some(d.clone()),
                None => None,
            },
            stream_kind: self.status.stream_kind,
            playing: self.status.playing,
        }
    }

    /// Connect to the first discovered device with id `device_id`: it is
    /// marked connected and becomes the session's device.
    pub fn connect(&mut self, device_id: &str) -> (r: AirPlayResult)
        ensures
            final(self)@.available == old(self)@.available,
            !old(self)@.available ==> r@ == ResultModel::Unavailable(unavailable_reason_spec(false))
                && final(self)@ == old(self)@,
            old(self)@.available ==> ({
                let i = device_index(old(self)@.devices, device_id@, 0);
                if i >= old(self)@.devices.len() {
                    r@ == ResultModel::DeviceNotFound && final(self)@ == old(self)@
                } else {
                    let d = DeviceModel { connected: true, ..old(self)@.devices[i] };
                    &&& r@ == ResultModel::Succeeded
                    &&& final(self)@.devices == old(self)@.devices.update(i, d)
                    &&& final(self)@.link == LinkModel {
                        active: true,
                        device: Some(d),
                        ..old(self)@.link
                    }
                    &&& final(self)@.discovering == old(self)@.discovering
                }
            }),
    {
        if !self.host.available {
            return AirPlayResult::Unavailable { reason: self.unavailable_reason() };
        }
        let ghost devs = devices_view(self.devices@);
        let mut i: usize = 0;
        while i < self.devices.len()
            invariant
                i <= self.devices.len(),
                devs == devices_view(self.devices@),
                device_index(devs, device_id@, 0) == device_index(devs, device_id@, i as int),
            ensures
                i <= self.devices.len(),
                devs == devices_view(self.devices@),
                device_index(devs, device_id@, 0) == i,
            decreases self.devices.len() - i,
        {
            if crate::text::str_eq(self.devices[i].id.as_str(), device_id) {
                break ;
            }
            i = i + 1;
        }
        if i >= self.devices.len() {
            return AirPlayResult::DeviceNotFound;
        }
        let mut device = self.devices[i].clone();
        device.connected = true;
        self.status.active = true;
        self.status.device = Some(device.clone());
        let mut d = self.devices.remove(i);
        d.connected = true;
        self.devices.insert(i, d);
        proof {
            assert(devices_view(self.devices@) =~= devs.update(
                i as int,
                DeviceModel { connected: true, ..devs[i as int] },
            ));
        }
        AirPlayResult::Succeeded
    }

    /// End the session: the session's device is marked disconnected and the
    /// stream stops.
    pub fn disconnect(&mut self) -> (r: AirPlayResult)
        ensures
            final(self)@.available == old(self)@.available,
            !old(self)@.available ==> r@ == ResultModel::Unavailable(unavailable_reason_spec(false))
                && final(self)@ == old(self)@,
            old(self)@.available ==> r@ == ResultModel::Succeeded && final(self)@.link == (LinkModel {
                active: false,
                device: None,
                stream_kind: None,
                playing: false,
            }) && final(self)@.discovering == old(self)@.discovering,
            old(self)@.available ==> final(self)@.devices == match old(self)@.link.device {
                Some(c) => {
                    let i = device_index(old(self)@.devices, c.id, 0);
                    if i < old(self)@.devices.len() {
                        old(self)@.devices.update(
                            i,
                            DeviceModel { connected: false, ..old(self)@.devices[i] },
                        )
                    } else {
                        old(self)@.devices
                    }
                },
                None => old(self)@.devices,
            },
    {
        if !self.host.available {
            return AirPlayResult::Unavailable { reason: self.unavailable_reason() };
        }
        let ghost devs = devices_view(self.devices@);
        if let Some(current) = &self.status.device {
            let mut i: usize = 0;
            while i < self.devices.len()
                invariant
                    i <= self.devices.len(),
                    devs == devices_view(self.devices@),
                    device_index(devs, current.id@, 0) == device_index(devs, current.id@, i as int),
                ensures
                    i <= self.devices.len(),
                    devs == devices_view(self.devices@),
                    device_index(devs, current.id@, 0) == i,
                decreases self.devices.len() - i,
            {
                if crate::text::str_eq(self.devices[i].id.as_str(), current.id.as_str()) {
                    break ;
                }
                i = i + 1;
            }
            if i < self.devices.len() {
                let mut d = self.devices.remove(i);
                d.connected = false;
                self.devices.insert(i, d);
                proof {
                    assert(devices_view(self.devices@) =~= devs.update(
                        i as int,
                        DeviceModel { connected: false, ..devs[i as int] },
                    ));
                }
            }
        }
        self.status.active = false;
        self.status.device = None;
        self.status.stream_kind = None;
        self.status.playing = false;
        AirPlayResult::Succeeded
    }

    /// Start streaming to the session's device. The stream kind is recorded
    /// and playback marked before the device's capabilities are checked, so a
    /// refused stream still leaves that mark.
    pub fn start_stream(&mut self, kind: StreamKind, url: Option<String>) -> (r: AirPlayResult)
        ensures
            final(self)@.available == old(self)@.available,
            final(self)@.devices == old(self)@.devices,
            !old(self)@.available ==> r@ == ResultModel::Unavailable(unavailable_reason_spec(false))
                && final(self)@ == old(self)@,
            old(self)@.available && old(self)@.link.device is None ==> r@ == ResultModel::Failed(
                "No device connected"@,
            ) && final(self)@ == old(self)@,
            (old(self)@.available && old(self)@.link.device is Some) ==> {
                let d = old(self)@.link.device.unwrap();
                &&& final(self)@.link == LinkModel {
                    stream_kind: Some(kind),
                    playing: true,
                    ..old(self)@.link
                }
                &&& r@ == match capability_refusal(d, kind) {
                    Some(why) => ResultModel::Failed(why),
                    None => ResultModel::Succeeded,
                }
            },
            r@ == ResultModel::Succeeded ==> (old(self)@.link.device matches Some(d) && match kind {
                StreamKind::Video => d.supports_video,
                StreamKind::Audio => d.supports_audio,
                StreamKind::Mirroring => d.supports_mirroring,
            }),
    {
        if !self.host.available {
            return AirPlayResult::Unavailable { reason: self.unavailable_reason() };
        }
        if self.status.device.is_none() {
            return AirPlayResult::Failed { reason: String::from_str("No device connected") };
        }
        self.status.stream_kind = Some(kind);
        self.status.playing = true;
        let _ = url;
        match &self.status.device {
            Some(device) => match kind {
                StreamKind::Video => if !device.supports_video {
                    return AirPlayResult::Failed {
                        reason: String::from_str("Device does not support video streaming"),
                    };
                },
                StreamKind::Audio => if !device.supports_audio {
                    return AirPlayResult::Failed {
                        reason: String::from_str("Device does not support audio streaming"),
                    };
                },
                StreamKind::Mirroring => if !device.supports_mirroring {
                    return AirPlayResult::Failed {
                        reason: String::from_str("Device does not support screen mirroring"),
                    };
                },
            },
            None => {},
        }
        AirPlayResult::Succeeded
    }

    /// Stop the current stream.
    pub fn stop_stream(&mut self) -> (r: AirPlayResult)
        ensures
            final(self)@.available == old(self)@.available,
            final(self)@.devices == old(self)@.devices,
            !old(self)@.available ==> r@ == ResultModel::Unavailable(unavailable_reason_spec(false))
                && final(self)@ == old(self)@,
            old(self)@.available ==> r@ == ResultModel::Succeeded && final(self)@.link == (LinkModel {
                stream_kind: None,
                playing: false,
                ..old(self)@.link
            }),
    {
        if !self.host.available {
            return AirPlayResult::Unavailable { reason: self.unavailable_reason() };
        }
        self.status.stream_kind = None;
        self.status.playing = false;
        AirPlayResult::Succeeded
    }

    /// Whether a volume change may be applied (the volume itself, a float, is
    /// kept by the host): on an unavailable platform the refusal.
    pub fn volume_gate(&self) -> (r: AirPlayResult)
        ensures
            self@.available ==> r@ == ResultModel::Succeeded,
            !self@.available ==> r@ == ResultModel::Unavailable(unavailable_reason_spec(false)),
    {
        if !self.host.available {
            return AirPlayResult::Unavailable { reason: self.unavailable_reason() };
        }
        AirPlayResult::Succeeded
    }
}

/// A stream of a kind is refused exactly when the device lacks that
/// capability, and each refusal names what is missing: a device that cannot
/// mirror never starts mirroring ("Device does not support screen
/// mirroring"), one without video never plays video, one without audio never
/// plays audio.
pub proof fn lemma_stream_needs_capability(d: DeviceModel, kind: StreamKind)
    ensures
        kind == StreamKind::Mirroring ==> (capability_refusal(d, kind) is None
            <==> d.supports_mirroring),
        kind == StreamKind::Video ==> (capability_refusal(d, kind) is None <==> d.supports_video),
        kind == StreamKind::Audio ==> (capability_refusal(d, kind) is None <==> d.supports_audio),
        kind == StreamKind::Mirroring && !d.supports_mirroring ==> capability_refusal(d, kind)
            == Some("Device does not support screen mirroring"@),
        kind == StreamKind::Video && !d.supports_video ==> capability_refusal(d, kind) == Some(
            "Device does not support video streaming"@,
        ),
        kind == StreamKind::Audio && !d.supports_audio ==> capability_refusal(d, kind) == Some(
            "Device does not support audio streaming"@,
        ),
{
}

} // verus!
