//! Cross-platform permission handling: which permissions the app asks for,
//! how each is named on Android and iOS, how check results are summarised,
//! and the onboarding flow that walks the user through the requests.

use vstd::prelude::*;
use crate::error::Error;

verus! {

/// Cross-platform permissions.
#[derive(Debug, Clone, Copy, PartialEq, Eq, Hash, Structural)]
pub enum Permission {
    Bluetooth,
    BluetoothAdmin,
    BluetoothConnect,
    BluetoothScan,
    BluetoothAdvertise,
    AccessCoarseLocation,
    AccessFineLocation,
    AccessBackgroundLocation,
    Camera,
    RecordAudio,
    ReadExternalStorage,
    WriteExternalStorage,
    ForegroundService,
    WakeLock,
    Vibrate,
    Internet,
    AccessNetworkState,
    AccessWifiState,
    ChangeWifiState,
    SystemAlertWindow,
    LocationWhenInUse,
    LocationAlways,
    Microphone,
    PhotoLibrary,
    Contacts,
    PostNotifications,
}

/// Permission states.
#[derive(Debug, Clone, Copy, PartialEq, Eq, Structural)]
pub enum PermissionState {
    NotDetermined,
    Granted,
    Denied,
    PermanentlyDenied,
    Restricted,
}

/// Permission categories for grouping.
#[derive(Debug, Clone, Copy, PartialEq, Eq, Structural)]
pub enum PermissionCategory {
    Bluetooth,
    Location,
    Media,
    System,
    Network,
    Notifications,
    Privacy,
}

pub open spec fn android_name(p: Permission) -> Seq<char> {
    match p {
        Permission::Bluetooth => "android.permission.BLUETOOTH"@,
        Permission::BluetoothAdmin => "android.permission.BLUETOOTH_ADMIN"@,
        Permission::BluetoothConnect => "android.permission.BLUETOOTH_CONNECT"@,
        Permission::BluetoothScan => "android.permission.BLUETOOTH_SCAN"@,
        Permission::BluetoothAdvertise => "android.permission.BLUETOOTH_ADVERTISE"@,
        Permission::AccessCoarseLocation => "android.permission.ACCESS_COARSE_LOCATION"@,
        Permission::AccessFineLocation => "android.permission.ACCESS_FINE_LOCATION"@,
        Permission::AccessBackgroundLocation => "android.permission.ACCESS_BACKGROUND_LOCATION"@,
        Permission::Camera => "android.permission.CAMERA"@,
        Permission::RecordAudio => "android.permission.RECORD_AUDIO"@,
        Permission::ReadExternalStorage => "android.permission.READ_EXTERNAL_STORAGE"@,
        Permission::WriteExternalStorage => "android.permission.WRITE_EXTERNAL_STORAGE"@,
        Permission::ForegroundService => "android.permission.FOREGROUND_SERVICE"@,
        Permission::WakeLock => "android.permission.WAKE_LOCK"@,
        Permission::Vibrate => "android.permission.VIBRATE"@,
        Permission::Internet => "android.permission.INTERNET"@,
        Permission::AccessNetworkState => "android.permission.ACCESS_NETWORK_STATE"@,
        Permission::AccessWifiState => "android.permission.ACCESS_WIFI_STATE"@,
        Permission::ChangeWifiState => "android.permission.CHANGE_WIFI_STATE"@,
        Permission::SystemAlertWindow => "android.permission.SYSTEM_ALERT_WINDOW"@,
        Permission::PostNotifications => "android.permission.POST_NOTIFICATIONS"@,
        _ => "android.permission.UNKNOWN"@,
    }
}

pub open spec fn ios_name(p: Permission) -> Seq<char> {
    match p {
        Permission::Bluetooth => "NSBluetoothPeripheralUsageDescription"@,
        Permission::LocationWhenInUse => "NSLocationWhenInUseUsageDescription"@,
        Permission::LocationAlways => "NSLocationAlwaysAndWhenInUseUsageDescription"@,
        Permission::Camera => "NSCameraUsageDescription"@,
        Permission::Microphone => "NSMicrophoneUsageDescription"@,
        Permission::PhotoLibrary => "NSPhotoLibraryUsageDescription"@,
        Permission::Contacts => "NSContactsUsageDescription"@,
        _ => "NSUnknownUsageDescription"@,
    }
}

pub open spec fn category_of(p: Permission) -> PermissionCategory {
    match p {
        Permission::Bluetooth | Permission::BluetoothAdmin | Permission::BluetoothConnect
        | Permission::BluetoothScan | Permission::BluetoothAdvertise => PermissionCategory::Bluetooth,
        Permission::AccessCoarseLocation | Permission::AccessFineLocation
        | Permission::AccessBackgroundLocation | Permission::LocationWhenInUse
        | Permission::LocationAlways => PermissionCategory::Location,
        Permission::Camera | Permission::RecordAudio | Permission::ReadExternalStorage
        | Permission::WriteExternalStorage | Permission::PhotoLibrary => PermissionCategory::Media,
        Permission::ForegroundService | Permission::WakeLock | Permission::Vibrate
        | Permission::SystemAlertWindow => PermissionCategory::System,
        Permission::Internet | Permission::AccessNetworkState | Permission::AccessWifiState
        | Permission::ChangeWifiState => PermissionCategory::Network,
        Permission::PostNotifications => PermissionCategory::Notifications,
        Permission::Microphone | Permission::Contacts => PermissionCategory::Privacy,
    }
}

impl Permission {
    /// Android manifest name of the permission.
    pub fn to_android_string(&self) -> (r: &'static str)
        ensures
            r@ == android_name(*self),
    {
        match self {
            Permission::Bluetooth => "android.permission.BLUETOOTH",
            Permission::BluetoothAdmin => "android.permission.BLUETOOTH_ADMIN",
            Permission::BluetoothConnect => "android.permission.BLUETOOTH_CONNECT",
            Permission::BluetoothScan => "android.permission.BLUETOOTH_SCAN",
            Permission::BluetoothAdvertise => "android.permission.BLUETOOTH_ADVERTISE",
            Permission::AccessCoarseLocation => "android.permission.ACCESS_COARSE_LOCATION",
            Permission::AccessFineLocation => "android.permission.ACCESS_FINE_LOCATION",
            Permission::AccessBackgroundLocation => "android.permission.ACCESS_BACKGROUND_LOCATION",
            Permission::Camera => "android.permission.CAMERA",
            Permission::RecordAudio => "android.permission.RECORD_AUDIO",
            Permission::ReadExternalStorage => "android.permission.READ_EXTERNAL_STORAGE",
            Permission::WriteExternalStorage => "android.permission.WRITE_EXTERNAL_STORAGE",
            Permission::ForegroundService => "android.permission.FOREGROUND_SERVICE",
            Permission::WakeLock => "android.permission.WAKE_LOCK",
            Permission::Vibrate => "android.permission.VIBRATE",
            Permission::Internet => "android.permission.INTERNET",
            Permission::AccessNetworkState => "android.permission.ACCESS_NETWORK_STATE",
            Permission::AccessWifiState => "android.permission.ACCESS_WIFI_STATE",
            Permission::ChangeWifiState => "android.permission.CHANGE_WIFI_STATE",
            Permission::SystemAlertWindow => "android.permission.SYSTEM_ALERT_WINDOW",
            Permission::PostNotifications => "android.permission.POST_NOTIFICATIONS",
            _ => "android.permission.UNKNOWN",
        }
    }

    /// Info.plist usage-description key of the permission.
    pub fn to_ios_string(&self) -> (r: &'static str)
        ensures
            r@ == ios_name(*self),
    {
        match self {
            Permission::Bluetooth => "NSBluetoothPeripheralUsageDescription",
            Permission::LocationWhenInUse => "NSLocationWhenInUseUsageDescription",
            Permission::LocationAlways => "NSLocationAlwaysAndWhenInUseUsageDescription",
            Permission::Camera => "NSCameraUsageDescription",
            Permission::Microphone => "NSMicrophoneUsageDescription",
            Permission::PhotoLibrary => "NSPhotoLibraryUsageDescription",
            Permission::Contacts => "NSContactsUsageDescription",
            _ => "NSUnknownUsageDescription",
        }
    }

    /// Category the permission belongs to.
    pub fn category(&self) -> (r: PermissionCategory)
        ensures
            r == category_of(*self),
    {
        match self {
            Permission::Bluetooth | Permission::BluetoothAdmin | Permission::BluetoothConnect
            | Permission::BluetoothScan | Permission::BluetoothAdvertise => PermissionCategory::Bluetooth,
            Permission::AccessCoarseLocation | Permission::AccessFineLocation
            | Permission::AccessBackgroundLocation | Permission::LocationWhenInUse
            | Permission::LocationAlways => PermissionCategory::Location,
            Permission::Camera | Permission::RecordAudio | Permission::ReadExternalStorage
            | Permission::WriteExternalStorage | Permission::PhotoLibrary => PermissionCategory::Media,
            Permission::ForegroundService | Permission::WakeLock | Permission::Vibrate
            | Permission::SystemAlertWindow => PermissionCategory::System,
            Permission::Internet | Permission::AccessNetworkState | Permission::AccessWifiState
            | Permission::ChangeWifiState => PermissionCategory::Network,
            Permission::PostNotifications => PermissionCategory::Notifications,
            Permission::Microphone | Permission::Contacts => PermissionCategory::Privacy,
        }
    }
}

/// The sequence with later repetitions of an element removed.
pub open spec fn dedup(s: Seq<Permission>) -> Seq<Permission>
    decreases s.len(),
{
    if s.len() == 0 {
        Seq::empty()
    } else {
        let d = dedup(s.drop_last());
        if d.contains(s.last()) { d } else { d.push(s.last()) }
    }
}

/// What a filter keeps of a list without repetitions comes from the list
/// and has no repetitions either.
proof fn lemma_filter_no_duplicates(s: Seq<Permission>, pred: spec_fn(Permission) -> bool)
    requires
        s.no_duplicates(),
    ensures
        s.filter(pred).no_duplicates(),
        forall|i: int| 0 <= i < s.filter(pred).len() ==> s.contains(#[trigger] s.filter(pred)[i]),
    decreases s.len(),
{
    reveal(Seq::filter);
    if s.len() > 0 {
        let t = s.drop_last();
        assert(t.no_duplicates());
        lemma_filter_no_duplicates(t, pred);
        let sub = t.filter(pred);
        assert forall|i: int| 0 <= i < sub.len() implies s.contains(#[trigger] sub[i]) && sub[i] != s.last() by {
            let k = choose|k: int| 0 <= k < t.len() && t[k] == sub[i];
            assert(s[k] == sub[i]);
            assert(s[s.len() - 1] == s.last());
        }
        if pred(s.last()) {
            let f = sub.push(s.last());
            assert(s.filter(pred) == f);
            assert forall|i: int| 0 <= i < f.len() implies s.contains(#[trigger] f[i]) by {
                if i == sub.len() {
                    assert(s[s.len() - 1] == f[i]);
                }
            }
        }
    }
}

/// The granted and the denied part of a list without repetitions have
/// none either.
proof fn lemma_parts_distinct(s: Seq<Permission>, probe: spec_fn(Permission) -> PermissionState)
    requires
        s.no_duplicates(),
    ensures
        granted_part(s, probe).no_duplicates(),
        denied_part(s, probe).no_duplicates(),
{
    lemma_filter_no_duplicates(s, |p: Permission| probe(p) == PermissionState::Granted);
    lemma_filter_no_duplicates(s, |p: Permission| probe(p) == PermissionState::Denied || probe(p) == PermissionState::PermanentlyDenied);
}

/// The granted and the denied part of a permission list without repetitions
/// are disjoint lists without repetitions drawn from it: a member of the list
/// is in the granted part exactly when it is granted, in the denied part
/// exactly when it is denied for now or for good, and in neither when its
/// state is undetermined or restricted.
pub proof fn lemma_permission_parts(s: Seq<Permission>, probe: spec_fn(Permission) -> PermissionState)
    requires
        s.no_duplicates(),
    ensures
        granted_part(s, probe).no_duplicates(),
        denied_part(s, probe).no_duplicates(),
        forall|p: Permission| #[trigger] granted_part(s, probe).contains(p) ==> s.contains(p),
        forall|p: Permission| #[trigger] denied_part(s, probe).contains(p) ==> s.contains(p),
        forall|p: Permission| #![trigger granted_part(s, probe).contains(p), denied_part(s, probe).contains(p)]
            !(granted_part(s, probe).contains(p) && denied_part(s, probe).contains(p)),
        forall|p: Permission| #[trigger] s.contains(p) ==> {
            &&& granted_part(s, probe).contains(p) <==> probe(p) == PermissionState::Granted
            &&& denied_part(s, probe).contains(p) <==> (probe(p) == PermissionState::Denied || probe(p)
                == PermissionState::PermanentlyDenied)
        },
{
    let gp = |p: Permission| probe(p) == PermissionState::Granted;
    let dp = |p: Permission| probe(p) == PermissionState::Denied || probe(p) == PermissionState::PermanentlyDenied;
    lemma_filter_no_duplicates(s, gp);
    lemma_filter_no_duplicates(s, dp);
    #[allow(deprecated)]
    s.filter_lemma(gp);
    #[allow(deprecated)]
    s.filter_lemma(dp);
    let g = granted_part(s, probe);
    let d = denied_part(s, probe);
    assert forall|p: Permission| #[trigger] g.contains(p) implies s.contains(p) && probe(p) == PermissionState::Granted by {
        let i = choose|i: int| 0 <= i < g.len() && g[i] == p;
        assert(s.contains(g[i]));
    }
    assert forall|p: Permission| #[trigger] d.contains(p) implies s.contains(p) && (probe(p) == PermissionState::Denied
        || probe(p) == PermissionState::PermanentlyDenied) by {
        let i = choose|i: int| 0 <= i < d.len() && d[i] == p;
        assert(s.contains(d[i]));
    }
    assert forall|p: Permission| #[trigger] s.contains(p) implies {
        &&& g.contains(p) <==> probe(p) == PermissionState::Granted
        &&& d.contains(p) <==> (probe(p) == PermissionState::Denied || probe(p) == PermissionState::PermanentlyDenied)
    } by {
        let i = choose|i: int| 0 <= i < s.len() && s[i] == p;
        if gp(s[i]) {
            s.lemma_filter_contains(gp, i);
        }
        if dp(s[i]) {
            s.lemma_filter_contains(dp, i);
        }
    }
}

/// Taking each permission once leaves a list without repetitions.
proof fn lemma_dedup_distinct(s: Seq<Permission>)
    ensures
        dedup(s).no_duplicates(),
    decreases s.len(),
{
    if s.len() > 0 {
        lemma_dedup_distinct(s.drop_last());
    }
}

/// Members of `s` whose state is `Granted`.
pub open spec fn granted_part(s: Seq<Permission>, probe: spec_fn(Permission) -> PermissionState) -> Seq<Permission> {
    s.filter(|p: Permission| probe(p) == PermissionState::Granted)
}

/// Members of `s` whose state is `Denied` or `PermanentlyDenied`.
pub open spec fn denied_part(s: Seq<Permission>, probe: spec_fn(Permission) -> PermissionState) -> Seq<Permission> {
    s.filter(|p: Permission| probe(p) == PermissionState::Denied || probe(p) == PermissionState::PermanentlyDenied)
}

/// State that the permission check reports for `p`. No platform permission
/// service is reachable from this build, which runs in simulation mode and
/// reports every permission as granted.
pub open spec fn probed_state(p: Permission) -> PermissionState {
    PermissionState::Granted
}

pub open spec fn probe() -> spec_fn(Permission) -> PermissionState {
    |p: Permission| probed_state(p)
}

pub open spec fn perm_index(p: Permission) -> int {
    match p {
        Permission::Bluetooth => 0,
        Permission::BluetoothAdmin => 1,
        Permission::BluetoothConnect => 2,
        Permission::BluetoothScan => 3,
        Permission::BluetoothAdvertise => 4,
        Permission::AccessCoarseLocation => 5,
        Permission::AccessFineLocation => 6,
        Permission::AccessBackgroundLocation => 7,
        Permission::Camera => 8,
        Permission::RecordAudio => 9,
        Permission::ReadExternalStorage => 10,
        Permission::WriteExternalStorage => 11,
        Permission::ForegroundService => 12,
        Permission::WakeLock => 13,
        Permission::Vibrate => 14,
        Permission::Internet => 15,
        Permission::AccessNetworkState => 16,
        Permission::AccessWifiState => 17,
        Permission::ChangeWifiState => 18,
        Permission::SystemAlertWindow => 19,
        Permission::LocationWhenInUse => 20,
        Permission::LocationAlways => 21,
        Permission::Microphone => 22,
        Permission::PhotoLibrary => 23,
        Permission::Contacts => 24,
        Permission::PostNotifications => 25,
    }
}

/// Number of distinct permissions.
pub const PERMISSION_COUNT: usize = 26;

fn index_of(p: Permission) -> (i: usize)
    ensures
        i as int == perm_index(p),
        i < PERMISSION_COUNT,
{
    match p {
        Permission::Bluetooth => 0,
        Permission::BluetoothAdmin => 1,
        Permission::BluetoothConnect => 2,
        Permission::BluetoothScan => 3,
        Permission::BluetoothAdvertise => 4,
        Permission::AccessCoarseLocation => 5,
        Permission::AccessFineLocation => 6,
        Permission::AccessBackgroundLocation => 7,
        Permission::Camera => 8,
        Permission::RecordAudio => 9,
        Permission::ReadExternalStorage => 10,
        Permission::WriteExternalStorage => 11,
        Permission::ForegroundService => 12,
        Permission::WakeLock => 13,
        Permission::Vibrate => 14,
        Permission::Internet => 15,
        Permission::AccessNetworkState => 16,
        Permission::AccessWifiState => 17,
        Permission::ChangeWifiState => 18,
        Permission::SystemAlertWindow => 19,
        Permission::LocationWhenInUse => 20,
        Permission::LocationAlways => 21,
        Permission::Microphone => 22,
        Permission::PhotoLibrary => 23,
        Permission::Contacts => 24,
        Permission::PostNotifications => 25,
    }
}

/// Distinct permissions have distinct indices.
proof fn lemma_index_injective(p: Permission, q: Permission)
    ensures
        perm_index(p) == perm_index(q) ==> p == q,
{
}

/// Check summary of the required and optional permissions.
#[derive(Debug)]
pub struct PermissionSummary {
    pub all_required_granted: bool,
    pub granted_required: Vec<Permission>,
    pub denied_required: Vec<Permission>,
    pub granted_optional: Vec<Permission>,
    pub denied_optional: Vec<Permission>,
    pub can_continue: bool,
}

/// One step of the onboarding flow.
#[derive(Debug)]
pub struct PermissionStep {
    pub permissions: Vec<Permission>,
    pub title: String,
    pub description: String,
    pub required: bool,
}

/// Permission request flow for onboarding.
#[derive(Debug)]
pub struct PermissionFlow {
    pub steps: Vec<PermissionStep>,
    pub current_step: usize,
    pub completed: bool,
}

impl PermissionFlow {
    pub open spec fn spec_is_complete(&self) -> bool {
        self.completed || self.current_step >= self.steps.len()
    }

    /// Steps left before the flow is complete; every call of `next_step`
    /// on a flow that is not complete lowers it.
    pub open spec fn remaining(&self) -> nat {
        if self.spec_is_complete() {
            0
        } else {
            (self.steps.len() - self.current_step) as nat
        }
    }

    /// Moves to the next step; at the last step the flow is marked completed.
    pub fn next_step(&mut self) -> (r: Option<&PermissionStep>)
        requires
            old(self).steps.len() > 0,
        ensures
            final(self).steps == old(self).steps,
            old(self).current_step < old(self).steps.len() - 1 ==> {
                &&& final(self).current_step == old(self).current_step + 1
                &&& final(self).completed == old(self).completed
                &&& r == Some(&final(self).steps[final(self).current_step as int])
            },
            old(self).current_step >= old(self).steps.len() - 1 ==> {
                &&& final(self).current_step == old(self).current_step
                &&& final(self).completed
                &&& r is None
            },
    {
        if self.current_step < self.steps.len() - 1 {
            self.current_step = self.current_step + 1;
            Some(&self.steps[self.current_step])
        } else {
            self.completed = true;
            None
        }
    }

    /// The step the flow is at, if it is within the steps.
    pub fn current(&self) -> (r: Option<&PermissionStep>)
        ensures
            self.current_step < self.steps.len() ==> r == Some(&self.steps[self.current_step as int]),
            self.current_step >= self.steps.len() ==> r is None,
    {
        if self.current_step < self.steps.len() {
            Some(&self.steps[self.current_step])
        } else {
            None
        }
    }

    /// Whether the flow is complete.
    pub fn is_complete(&self) -> (r: bool)
        ensures
            r == self.spec_is_complete(),
    {
        self.completed || self.current_step >= self.steps.len()
    }
}

/// Every call of `next_step` on a non-empty flow that is not complete either
/// completes it or advances it by one step, so the number of steps left goes
/// down; a complete flow stays complete.
pub proof fn lemma_next_step_progress(before: PermissionFlow, after: PermissionFlow)
    requires
        before.steps.len() > 0,
        after.steps == before.steps,
        before.current_step < before.steps.len() - 1 ==> after.current_step == before.current_step + 1
            && after.completed == before.completed,
        before.current_step >= before.steps.len() - 1 ==> after.current_step == before.current_step
            && after.completed,
    ensures
        !before.spec_is_complete() ==> after.remaining() < before.remaining(),
        before.spec_is_complete() ==> after.spec_is_complete(),
{
}

/// Cross-platform permission manager.
pub struct PermissionManager {
    pub required_permissions: Vec<Permission>,
    pub optional_permissions: Vec<Permission>,
    /// Last recorded state of each permission, indexed by its position in `Permission`.
    pub permission_states: Vec<Option<PermissionState>>,
    /// State changes recorded and not yet handed to the registered callbacks,
    /// oldest first.
    pub state_changes: Vec<(Permission, PermissionState)>,
}

/// Appends `p` unless it is already present.
fn push_unique(v: &mut Vec<Permission>, p: Permission)
    ensures
        final(v)@ == (if old(v)@.contains(p) { old(v)@ } else { old(v)@.push(p) }),
{
    let mut i: usize = 0;
    while i < v.len()
        invariant
            i <= v.len(),
            forall|j: int| 0 <= j < i ==> v@[j] != p,
        decreases v.len() - i,
    {
        if v[i] == p {
            assert(v@.contains(p));
            return;
        }
        i = i + 1;
    }
    v.push(p);
}

fn dedup_vec(input: Vec<Permission>) -> (out: Vec<Permission>)
    ensures
        out@ == dedup(input@),
{
    let mut out: Vec<Permission> = Vec::new();
    let mut i: usize = 0;
    while i < input.len()
        invariant
            i <= input.len(),
            out@ == dedup(input@.take(i as int)),
        decreases input.len() - i,
    {
        proof {
            assert(input@.take(i + 1).drop_last() =~= input@.take(i as int));
        }
        push_unique(&mut out, input[i]);
        i = i + 1;
    }
    assert(input@.take(input.len() as int) =~= input@);
    out
}

impl PermissionManager {
    pub open spec fn wf(&self) -> bool {
        &&& self.permission_states.len() == PERMISSION_COUNT
        &&& self.required_permissions@.no_duplicates()
        &&& self.optional_permissions@.no_duplicates()
    }

    /// Recorded state of `p`, if it has been checked.
    pub open spec fn state_of(&self, p: Permission) -> Option<PermissionState> {
        self.permission_states@[perm_index(p)]
    }

    /// Creates a manager; each list is taken as a set, and the state of every
    /// listed permission is checked and recorded.
    pub fn new(required: Vec<Permission>, optional: Vec<Permission>) -> (m: Self)
        ensures
            m.wf(),
            m.required_permissions@ == dedup(required@),
            m.optional_permissions@ == dedup(optional@),
            forall|p: Permission| m.required_permissions@.contains(p) || m.optional_permissions@.contains(p)
                ==> #[trigger] m.state_of(p) == Some(probed_state(p)),
    {
        let mut states: Vec<Option<PermissionState>> = Vec::new();
        let mut k: usize = 0;
        while k < PERMISSION_COUNT
            invariant
                k <= PERMISSION_COUNT,
                states.len() == k,
            decreases PERMISSION_COUNT - k,
        {
            states.push(None);
            k = k + 1;
        }
        let mut manager = PermissionManager {
            required_permissions: dedup_vec(required),
            optional_permissions: dedup_vec(optional),
            permission_states: states,
            state_changes: Vec::new(),
        };
        proof {
            lemma_dedup_distinct(required@);
            lemma_dedup_distinct(optional@);
        }
        manager.initialize_permission_states();
        manager
    }

    /// State that the platform reports for `permission`.
    fn check_permission_state(&self, permission: Permission) -> (r: Result<PermissionState, Error>)
        ensures
            r == Ok::<PermissionState, Error>(probed_state(permission)),
    {
        Ok(PermissionState::Granted)
    }

    fn record_state(&mut self, permission: Permission, state: PermissionState)
        requires
            old(self).wf(),
        ensures
            final(self).wf(),
            final(self).required_permissions == old(self).required_permissions,
            final(self).optional_permissions == old(self).optional_permissions,
            final(self).state_of(permission) == Some(state),
            forall|q: Permission| q != permission ==> #[trigger] final(self).state_of(q) == old(self).state_of(q),
            final(self).state_changes == old(self).state_changes,
    {
        let i = index_of(permission);
        self.permission_states.set(i, Some(state));
        proof {
            assert forall|q: Permission| q != permission implies #[trigger] self.state_of(q) == old(self).state_of(q) by {
                lemma_index_injective(q, permission);
            }
        }
    }

    /// Checks and records the state of every required and optional permission.
    fn initialize_permission_states(&mut self)
        requires
            old(self).wf(),
        ensures
            final(self).wf(),
            final(self).required_permissions == old(self).required_permissions,
            final(self).optional_permissions == old(self).optional_permissions,
            forall|p: Permission| final(self).required_permissions@.contains(p) || final(self).optional_permissions@.contains(p)
                ==> #[trigger] final(self).state_of(p) == Some(probed_state(p)),
    {
        let n = self.required_permissions.len();
        let mut i: usize = 0;
        while i < n
            invariant
                self.wf(),
                n == self.required_permissions.len(),
                self.required_permissions == old(self).required_permissions,
                self.optional_permissions == old(self).optional_permissions,
                i <= n,
                forall|j: int| 0 <= j < i ==> #[trigger] self.state_of(self.required_permissions@[j]) == Some(probed_state(self.required_permissions@[j])),
            decreases n - i,
        {
            let p = self.required_permissions[i];
            let s = self.check_permission_state(p);
            if let Ok(state) = s {
                self.record_state(p, state);
            }
            i = i + 1;
        }
        let m = self.optional_permissions.len();
        let mut i: usize = 0;
        while i < m
            invariant
                self.wf(),
                m == self.optional_permissions.len(),
                self.required_permissions == old(self).required_permissions,
                self.optional_permissions == old(self).optional_permissions,
                i <= m,
                forall|j: int| 0 <= j < self.required_permissions@.len() ==> #[trigger] self.state_of(self.required_permissions@[j]) == Some(probed_state(self.required_permissions@[j])),
                forall|j: int| 0 <= j < i ==> #[trigger] self.state_of(self.optional_permissions@[j]) == Some(probed_state(self.optional_permissions@[j])),
            decreases m - i,
        {
            let p = self.optional_permissions[i];
            let s = self.check_permission_state(p);
            if let Ok(state) = s {
                self.record_state(p, state);
            }
            i = i + 1;
        }
        assert forall|p: Permission| self.required_permissions@.contains(p) || self.optional_permissions@.contains(p)
            implies #[trigger] self.state_of(p) == Some(probed_state(p)) by {
            if self.required_permissions@.contains(p) {
                let j = choose|j: int| 0 <= j < self.required_permissions@.len() && self.required_permissions@[j] == p;
                assert(self.state_of(self.required_permissions@[j]) == Some(probed_state(self.required_permissions@[j])));
            } else {
                let j = choose|j: int| 0 <= j < self.optional_permissions@.len() && self.optional_permissions@[j] == p;
                assert(self.state_of(self.optional_permissions@[j]) == Some(probed_state(self.optional_permissions@[j])));
            }
        }
    }

    /// Checks each permission of the required list (`optional == false`) or
    /// of the optional list, records its state and sorts it into granted and
    /// denied.
    fn classify(&mut self, optional: bool) -> (r: (Vec<Permission>, Vec<Permission>))
        requires
            old(self).wf(),
        ensures
            final(self).wf(),
            final(self).required_permissions == old(self).required_permissions,
            final(self).optional_permissions == old(self).optional_permissions,
            optional ==> {
                &&& r.0@ == granted_part(old(self).optional_permissions@, probe())
                &&& r.1@ == denied_part(old(self).optional_permissions@, probe())
                &&& forall|j: int| 0 <= j < old(self).optional_permissions@.len()
                    ==> #[trigger] final(self).state_of(old(self).optional_permissions@[j]) == Some(probed_state(old(self).optional_permissions@[j]))
                &&& forall|q: Permission| !old(self).optional_permissions@.contains(q) ==> #[trigger] final(self).state_of(q) == old(self).state_of(q)
            },
            !optional ==> {
                &&& r.0@ == granted_part(old(self).required_permissions@, probe())
                &&& r.1@ == denied_part(old(self).required_permissions@, probe())
                &&& forall|j: int| 0 <= j < old(self).required_permissions@.len()
                    ==> #[trigger] final(self).state_of(old(self).required_permissions@[j]) == Some(probed_state(old(self).required_permissions@[j]))
                &&& forall|q: Permission| !old(self).required_permissions@.contains(q) ==> #[trigger] final(self).state_of(q) == old(self).state_of(q)
            },
    {
        let ghost list = if optional { self.optional_permissions@ } else { self.required_permissions@ };
        let n = if optional { self.optional_permissions.len() } else { self.required_permissions.len() };
        let mut granted: Vec<Permission> = Vec::new();
        let mut denied: Vec<Permission> = Vec::new();
        let mut i: usize = 0;
        while i < n
            invariant
                self.wf(),
                self.required_permissions == old(self).required_permissions,
                self.optional_permissions == old(self).optional_permissions,
                list == (if optional { self.optional_permissions@ } else { self.required_permissions@ }),
                n == list.len(),
                i <= n,
                granted@ == granted_part(list.take(i as int), probe()),
                denied@ == denied_part(list.take(i as int), probe()),
                forall|j: int| 0 <= j < i ==> #[trigger] self.state_of(list[j]) == Some(probed_state(list[j])),
                forall|q: Permission| !list.take(i as int).contains(q) ==> #[trigger] self.state_of(q) == old(self).state_of(q),
            decreases n - i,
        {
            let p = if optional { self.optional_permissions[i] } else { self.required_permissions[i] };
            proof {
                assert(list.take(i + 1) =~= list.take(i as int).push(p));
                list.take(i as int).lemma_filter_push(p, |q: Permission| probe()(q) == PermissionState::Granted);
                list.take(i as int).lemma_filter_push(p, |q: Permission| probe()(q) == PermissionState::Denied || probe()(q) == PermissionState::PermanentlyDenied);
            }
            let checked = self.check_permission_state(p);
            if let Ok(state) = checked {
                self.record_state(p, state);
                match state {
                    PermissionState::Granted => granted.push(p),
                    PermissionState::Denied | PermissionState::PermanentlyDenied => denied.push(p),
                    _ => {},
                }
            }
            proof {
                assert forall|q: Permission| !list.take(i + 1).contains(q) implies #[trigger] self.state_of(q) == old(self).state_of(q) by {
                    assert(list.take(i + 1)[i as int] == p);
                    assert forall|k: int| 0 <= k < i implies list.take(i as int)[k] == list.take(i + 1)[k] by {}
                    if list.take(i as int).contains(q) {
                        let k = choose|k: int| 0 <= k < i && list.take(i as int)[k] == q;
                        assert(list.take(i + 1)[k] == q);
                    }
                }
            }
            i = i + 1;
        }
        assert(list.take(n as int) =~= list);
        (granted, denied)
    }

    /// Checks the state of every permission and summarises the result; the
    /// app can continue when no required permission is denied.
    pub fn check_all_permissions(&mut self) -> (r: Result<PermissionSummary, Error>)
        requires
            old(self).wf(),
        ensures
            final(self).wf(),
            final(self).required_permissions == old(self).required_permissions,
            final(self).optional_permissions == old(self).optional_permissions,
            r is Ok,
            r matches Ok(s) ==> {
                &&& s.granted_required@ == granted_part(old(self).required_permissions@, probe())
                &&& s.denied_required@ == denied_part(old(self).required_permissions@, probe())
                &&& s.granted_optional@ == granted_part(old(self).optional_permissions@, probe())
                &&& s.denied_optional@ == denied_part(old(self).optional_permissions@, probe())
                &&& s.all_required_granted == (s.denied_required@.len() == 0)
                &&& s.can_continue == s.all_required_granted
                &&& s.granted_required@.no_duplicates() && s.denied_required@.no_duplicates()
                &&& s.granted_optional@.no_duplicates() && s.denied_optional@.no_duplicates()
            },
            forall|p: Permission| old(self).required_permissions@.contains(p) || old(self).optional_permissions@.contains(p)
                ==> #[trigger] final(self).state_of(p) == Some(probed_state(p)),
    {
        let (granted_required, denied_required) = self.classify(false);
        let ghost mid = *self;
        let (granted_optional, denied_optional) = self.classify(true);
        proof {
            assert forall|p: Permission| old(self).required_permissions@.contains(p) || old(self).optional_permissions@.contains(p)
                implies #[trigger] self.state_of(p) == Some(probed_state(p)) by {
                if self.optional_permissions@.contains(p) {
                    let j = choose|j: int| 0 <= j < self.optional_permissions@.len() && self.optional_permissions@[j] == p;
                    assert(self.state_of(self.optional_permissions@[j]) == Some(probed_state(self.optional_permissions@[j])));
                } else {
                    let j = choose|j: int| 0 <= j < self.required_permissions@.len() && self.required_permissions@[j] == p;
                    assert(mid.state_of(mid.required_permissions@[j]) == Some(probed_state(mid.required_permissions@[j])));
                    assert(!mid.optional_permissions@.contains(p));
                }
            }
        }
        proof {
            lemma_parts_distinct(old(self).required_permissions@, probe());
            lemma_parts_distinct(old(self).optional_permissions@, probe());
        }
        let all_required_granted = denied_required.len() == 0;
        Ok(PermissionSummary {
            all_required_granted,
            granted_required,
            denied_required,
            granted_optional,
            denied_optional,
            can_continue: all_required_granted,
        })
    }

    /// State that a platform request for `p` yields; in simulation mode the
    /// request is granted.
    pub open spec fn requested_state(p: Permission) -> PermissionState {
        PermissionState::Granted
    }

    /// State after a request of `p`: a granted or permanently denied
    /// permission is not asked again, any other is requested.
    pub open spec fn state_after_request(p: Permission) -> PermissionState {
        if probed_state(p) == PermissionState::Granted || probed_state(p) == PermissionState::PermanentlyDenied {
            probed_state(p)
        } else {
            Self::requested_state(p)
        }
    }

    fn platform_request_permission(&self, permission: Permission) -> (r: Result<PermissionState, Error>)
        ensures
            r == Ok::<PermissionState, Error>(Self::requested_state(permission)),
    {
        Ok(PermissionState::Granted)
    }

    /// Records a new state for `permission`.
    fn update_permission_state(&mut self, permission: Permission, new_state: PermissionState) -> (r: Result<(), Error>)
        requires
            old(self).wf(),
        ensures
            r is Ok,
            final(self).wf(),
            final(self).required_permissions == old(self).required_permissions,
            final(self).optional_permissions == old(self).optional_permissions,
            final(self).state_of(permission) == Some(new_state),
            forall|q: Permission| q != permission ==> #[trigger] final(self).state_of(q) == old(self).state_of(q),
            final(self).state_changes@ == old(self).state_changes@.push((permission, new_state)),
    {
        self.record_state(permission, new_state);
        let ghost mid = *self;
        self.state_changes.push((permission, new_state));
        assert forall|q: Permission| #[trigger] self.state_of(q) == mid.state_of(q) by {}
        Ok(())
    }

    /// Hands over the recorded state changes, oldest first, and forgets them.
    pub fn take_state_changes(&mut self) -> (r: Vec<(Permission, PermissionState)>)
        ensures
            r@ == old(self).state_changes@,
            final(self).state_changes@.len() == 0,
            final(self).required_permissions == old(self).required_permissions,
            final(self).optional_permissions == old(self).optional_permissions,
            final(self).permission_states == old(self).permission_states,
    {
        let mut taken = Vec::new();
        std::mem::swap(&mut taken, &mut self.state_changes);
        taken
    }

    /// Requests one permission: a granted or permanently denied permission
    /// is returned as it is, any other is requested and its new state
    /// recorded. The platform of this build asks for no rationale, so
    /// `rationale` is not shown.
    pub fn request_permission(&mut self, permission: Permission, rationale: &str) -> (r: Result<PermissionState, Error>)
        requires
            old(self).wf(),
        ensures
            final(self).wf(),
            final(self).required_permissions == old(self).required_permissions,
            final(self).optional_permissions == old(self).optional_permissions,
            r == Ok::<PermissionState, Error>(Self::state_after_request(permission)),
            !(probed_state(permission) == PermissionState::Granted || probed_state(permission) == PermissionState::PermanentlyDenied)
                ==> final(self).state_of(permission) == Some(Self::requested_state(permission)),
            (probed_state(permission) == PermissionState::Granted || probed_state(permission) == PermissionState::PermanentlyDenied)
                ==> *final(self) == *old(self),
    {
        let current_state = match self.check_permission_state(permission) {
            Ok(s) => s,
            Err(e) => return Err(e),
        };
        match current_state {
            PermissionState::Granted => return Ok(current_state),
            PermissionState::PermanentlyDenied => return Ok(current_state),
            _ => {},
        }
        let new_state = match self.platform_request_permission(permission) {
            Ok(s) => s,
            Err(e) => return Err(e),
        };
        match self.update_permission_state(permission, new_state) {
            Ok(()) => {},
            Err(e) => return Err(e),
        }
        Ok(new_state)
    }

    /// Requests several permissions; the result holds one entry for each
    /// distinct permission asked for, with its state after the request.
    pub fn request_permissions(&mut self, permissions: Vec<Permission>, rationale: &str)
        -> (r: Result<Vec<(Permission, PermissionState)>, Error>)
        requires
            old(self).wf(),
        ensures
            final(self).wf(),
            final(self).required_permissions == old(self).required_permissions,
            final(self).optional_permissions == old(self).optional_permissions,
            r is Ok,
            r matches Ok(res) ==> {
                &&& res@.len() == dedup(permissions@).len()
                &&& forall|i: int| 0 <= i < res@.len() ==> (#[trigger] res@[i]).0 == dedup(permissions@)[i]
                &&& forall|i: int| 0 <= i < res@.len() ==> (#[trigger] res@[i]).1 == Self::state_after_request(res@[i].0)
            },
    {
        let keys = dedup_vec(permissions);
        let mut results: Vec<(Permission, PermissionState)> = Vec::new();
        let mut i: usize = 0;
        while i < keys.len()
            invariant
                self.wf(),
                self.required_permissions == old(self).required_permissions,
                self.optional_permissions == old(self).optional_permissions,
                i <= keys.len(),
                results@.len() == i,
                forall|j: int| 0 <= j < i ==> (#[trigger] results@[j]).0 == keys@[j],
                forall|j: int| 0 <= j < results@.len() ==> (#[trigger] results@[j]).1 == Self::state_after_request(results@[j].0),
            decreases keys.len() - i,
        {
            let p = keys[i];
            let state = match self.request_permission(p, rationale) {
                Ok(s) => s,
                Err(e) => return Err(e),
            };
            results.push((p, state));
            i = i + 1;
        }
        Ok(results)
    }

    /// The permissions BitCraps cannot work without.
    pub fn get_bitcraps_required_permissions() -> (r: Vec<Permission>)
        ensures
            r@ == seq![Permission::Bluetooth, Permission::BluetoothAdmin,
                Permission::AccessCoarseLocation, Permission::ForegroundService],
    {
        let mut v: Vec<Permission> = Vec::new();
        v.push(Permission::Bluetooth);
        v.push(Permission::BluetoothAdmin);
        v.push(Permission::AccessCoarseLocation);
        v.push(Permission::ForegroundService);
        assert(v@ =~= seq![Permission::Bluetooth, Permission::BluetoothAdmin,
            Permission::AccessCoarseLocation, Permission::ForegroundService]);
        v
    }

    /// The permissions that improve BitCraps but are not needed.
    pub fn get_bitcraps_optional_permissions() -> (r: Vec<Permission>)
        ensures
            r@ == seq![Permission::AccessFineLocation, Permission::Camera, Permission::Vibrate,
                Permission::WakeLock, Permission::SystemAlertWindow],
    {
        let mut v: Vec<Permission> = Vec::new();
        v.push(Permission::AccessFineLocation);
        v.push(Permission::Camera);
        v.push(Permission::Vibrate);
        v.push(Permission::WakeLock);
        v.push(Permission::SystemAlertWindow);
        assert(v@ =~= seq![Permission::AccessFineLocation, Permission::Camera, Permission::Vibrate,
            Permission::WakeLock, Permission::SystemAlertWindow]);
        v
    }

    /// Whether the app can work without `permission`: it can without any
    /// permission that is not required.
    pub fn can_function_without(&self, permission: Permission) -> (r: bool)
        ensures
            r == !self.required_permissions@.contains(permission),
    {
        let mut i: usize = 0;
        while i < self.required_permissions.len()
            invariant
                i <= self.required_permissions.len(),
                forall|j: int| 0 <= j < i ==> self.required_permissions@[j] != permission,
            decreases self.required_permissions.len() - i,
        {
            if self.required_permissions[i] == permission {
                assert(self.required_permissions@[i as int] == permission);
                return false;
            }
            i = i + 1;
        }
        true
    }

    /// User-facing explanation of why BitCraps asks for `permission`.
    pub fn get_permission_explanation(&self, permission: Permission) -> (r: &'static str)
        ensures
            r@ == explanation(permission),
    {
        match permission {
            Permission::Bluetooth => "BitCraps uses Bluetooth to connect with other players for peer-to-peer gaming. This enables secure, private games without internet connection.",
            Permission::BluetoothAdmin => "BitCraps needs to manage Bluetooth connections to host and join games. This allows you to become discoverable to other players.",
            Permission::AccessCoarseLocation => "Location permission is required by Android for Bluetooth Low Energy scanning. BitCraps does not access your actual location - this is just needed for BLE discovery.",
            Permission::AccessFineLocation => "Precise location can improve Bluetooth connection reliability and enable location-based game features in the future.",
            Permission::Camera => "Camera access enables QR code scanning for quick game joining and easy wallet address sharing.",
            Permission::ForegroundService => "BitCraps runs a background service to maintain game connections even when the app is minimized. This ensures uninterrupted gameplay.",
            Permission::Vibrate => "Haptic feedback enhances the gaming experience with tactile responses to dice rolls, wins, and game events.",
            Permission::WakeLock => "Prevents the screen from turning off during active games, ensuring you don't miss important game events.",
            Permission::SystemAlertWindow => "Allows important game notifications to appear over other apps, so you never miss your turn.",
            _ => "This permission helps BitCraps provide the best gaming experience.",
        }
    }

    /// The onboarding flow: Bluetooth, then player discovery, then the
    /// background service (all required), then optional enhancements.
    pub fn create_onboarding_flow(&self) -> (f: PermissionFlow)
        ensures
            f.current_step == 0,
            !f.completed,
            f.steps.len() == 4,
            f.steps[0].permissions@ == seq![Permission::Bluetooth, Permission::BluetoothAdmin],
            f.steps[0].title@ == "Enable Bluetooth Gaming"@,
            f.steps[0].description@ == "BitCraps connects players directly through Bluetooth for secure, private games without internet."@,
            f.steps[0].required,
            f.steps[1].permissions@ == seq![Permission::AccessCoarseLocation],
            f.steps[1].title@ == "Enable Player Discovery"@,
            f.steps[1].description@ == "Android requires location permission for Bluetooth Low Energy discovery. BitCraps doesn't access your location."@,
            f.steps[1].required,
            f.steps[2].permissions@ == seq![Permission::ForegroundService],
            f.steps[2].title@ == "Background Gaming"@,
            f.steps[2].description@ == "Keep games running even when switching apps, ensuring uninterrupted gameplay."@,
            f.steps[2].required,
            f.steps[3].permissions@ == seq![Permission::Camera, Permission::Vibrate, Permission::WakeLock],
            f.steps[3].title@ == "Enhanced Experience"@,
            f.steps[3].description@ == "Optional permissions for QR scanning, haptic feedback, and screen management."@,
            !f.steps[3].required,
    {
        let mut steps: Vec<PermissionStep> = Vec::new();
        let mut p0: Vec<Permission> = Vec::new();
        p0.push(Permission::Bluetooth);
        p0.push(Permission::BluetoothAdmin);
        steps.push(PermissionStep {
            permissions: p0,
            title: "Enable Bluetooth Gaming".to_owned(),
            description: "BitCraps connects players directly through Bluetooth for secure, private games without internet.".to_owned(),
            required: true,
        });
        let mut p1: Vec<Permission> = Vec::new();
        p1.push(Permission::AccessCoarseLocation);
        steps.push(PermissionStep {
            permissions: p1,
            title: "Enable Player Discovery".to_owned(),
            description: "Android requires location permission for Bluetooth Low Energy discovery. BitCraps doesn't access your location.".to_owned(),
            required: true,
        });
        let mut p2: Vec<Permission> = Vec::new();
        p2.push(Permission::ForegroundService);
        steps.push(PermissionStep {
            permissions: p2,
            title: "Background Gaming".to_owned(),
            description: "Keep games running even when switching apps, ensuring uninterrupted gameplay.".to_owned(),
            required: true,
        });
        let mut p3: Vec<Permission> = Vec::new();
        p3.push(Permission::Camera);
        p3.push(Permission::Vibrate);
        p3.push(Permission::WakeLock);
        steps.push(PermissionStep {
            permissions: p3,
            title: "Enhanced Experience".to_owned(),
            description: "Optional permissions for QR scanning, haptic feedback, and screen management.".to_owned(),
            required: false,
        });
        assert(steps[0].permissions@ =~= seq![Permission::Bluetooth, Permission::BluetoothAdmin]);
        assert(steps[1].permissions@ =~= seq![Permission::AccessCoarseLocation]);
        assert(steps[2].permissions@ =~= seq![Permission::ForegroundService]);
        assert(steps[3].permissions@ =~= seq![Permission::Camera, Permission::Vibrate, Permission::WakeLock]);
        PermissionFlow { steps, current_step: 0, completed: false }
    }
}

/// Explanation shown to the user for each permission.
pub open spec fn explanation(p: Permission) -> Seq<char> {
    match p {
        Permission::Bluetooth => "BitCraps uses Bluetooth to connect with other players for peer-to-peer gaming. This enables secure, private games without internet connection."@,
        Permission::BluetoothAdmin => "BitCraps needs to manage Bluetooth connections to host and join games. This allows you to become discoverable to other players."@,
        Permission::AccessCoarseLocation => "Location permission is required by Android for Bluetooth Low Energy scanning. BitCraps does not access your actual location - this is just needed for BLE discovery."@,
        Permission::AccessFineLocation => "Precise location can improve Bluetooth connection reliability and enable location-based game features in the future."@,
        Permission::Camera => "Camera access enables QR code scanning for quick game joining and easy wallet address sharing."@,
        Permission::ForegroundService => "BitCraps runs a background service to maintain game connections even when the app is minimized. This ensures uninterrupted gameplay."@,
        Permission::Vibrate => "Haptic feedback enhances the gaming experience with tactile responses to dice rolls, wins, and game events."@,
        Permission::WakeLock => "Prevents the screen from turning off during active games, ensuring you don't miss important game events."@,
        Permission::SystemAlertWindow => "Allows important game notifications to appear over other apps, so you never miss your turn."@,
        _ => "This permission helps BitCraps provide the best gaming experience."@,
    }
}

/// Callbacks registered for permission state changes, called in the order
/// they were registered.
pub struct PermissionCallbacks<F: Fn(Permission, PermissionState)> {
    callbacks: Vec<F>,
}

impl<F: Fn(Permission, PermissionState)> PermissionCallbacks<F> {
    /// Number of registered callbacks.
    pub closed spec fn count(&self) -> nat {
        self.callbacks@.len()
    }

    /// Every registered callback accepts every permission and state.
    #[verifier::type_invariant]
    spec fn callable(&self) -> bool {
        forall|i: int, p: Permission, s: PermissionState|
            0 <= i < self.callbacks@.len() ==> #[trigger] call_requires(self.callbacks@[i], (p, s))
    }

    /// No callback registered.
    pub fn new() -> (c: Self)
        ensures
            c.count() == 0,
    {
        PermissionCallbacks { callbacks: Vec::new() }
    }

    /// Number of registered callbacks.
    pub fn len(&self) -> (r: usize)
        ensures
            r == self.count(),
    {
        self.callbacks.len()
    }

    /// Registers a callback for permission state changes.
    pub fn add_permission_callback(&mut self, callback: F) -> (r: Result<(), Error>)
        requires
            forall|p: Permission, s: PermissionState| call_requires(callback, (p, s)),
        ensures
            r is Ok,
            final(self).count() == old(self).count() + 1,
    {
        proof {
            use_type_invariant(&*self);
        }
        let mut callbacks = Vec::new();
        std::mem::swap(&mut callbacks, &mut self.callbacks);
        callbacks.push(callback);
        self.callbacks = callbacks;
        Ok(())
    }

    /// Calls every registered callback with the new state of `permission`.
    pub fn notify(&self, permission: Permission, state: PermissionState) {
        proof {
            use_type_invariant(self);
        }
        let mut i: usize = 0;
        while i < self.callbacks.len()
            invariant
                forall|j: int, p: Permission, s: PermissionState|
                    0 <= j < self.callbacks@.len() ==> #[trigger] call_requires(self.callbacks@[j], (p, s)),
            decreases self.callbacks.len() - i,
        {
            (self.callbacks[i])(permission, state);
            i = i + 1;
        }
    }

    /// Hands every state change that `manager` recorded to the callbacks,
    /// oldest first, and empties the manager's record of them; gives the
    /// number of changes handed over.
    pub fn notify_state_changes(&self, manager: &mut PermissionManager) -> (n: usize)
        ensures
            n == old(manager).state_changes@.len(),
            final(manager).state_changes@.len() == 0,
            final(manager).required_permissions == old(manager).required_permissions,
            final(manager).optional_permissions == old(manager).optional_permissions,
            final(manager).permission_states == old(manager).permission_states,
    {
        let changes = manager.take_state_changes();
        let mut i: usize = 0;
        while i < changes.len()
            invariant
                i <= changes@.len(),
            decreases changes.len() - i,
        {
            let (p, s) = changes[i];
            self.notify(p, s);
            i = i + 1;
        }
        changes.len()
    }
}

} // verus!
