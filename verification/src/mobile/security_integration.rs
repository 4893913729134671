//! Mobile security integration: the security level a device reaches, the
//! recommendations that raise it, the permission gate of initialization,
//! the storage self-check and the symmetric data cipher.

use vstd::prelude::*;
use vstd::slice::slice_to_vec;
use crate::error::Error;
use crate::mobile::permissions::{
    denied_part, granted_part, probe, Permission, PermissionManager, PermissionState, PermissionSummary,
};
use crate::mobile::secure_storage::{stored_under, user_credentials_name, PlatformStorage, SecureStorage, SecureStorageManager};
use crate::mobile::platform_adaptations::PlatformType;
use crate::text::concat_str;

verus! {

/// Security levels, from lowest to highest.
#[derive(Debug, Clone, Copy, PartialEq, Eq, Structural)]
pub enum SecurityLevel {
    Low,
    Medium,
    High,
    Maximum,
}

/// Position of a level in the order Low < Medium < High < Maximum.
pub open spec fn level_rank(l: SecurityLevel) -> int {
    match l {
        SecurityLevel::Low => 1,
        SecurityLevel::Medium => 2,
        SecurityLevel::High => 3,
        SecurityLevel::Maximum => 4,
    }
}

impl SecurityLevel {
    /// Numeric value of the level (1 to 4).
    pub fn rank(&self) -> (r: u8)
        ensures
            r == level_rank(*self),
    {
        match self {
            SecurityLevel::Low => 1,
            SecurityLevel::Medium => 2,
            SecurityLevel::High => 3,
            SecurityLevel::Maximum => 4,
        }
    }
}

/// Level reached with the given permission, biometric and hardware state.
pub open spec fn security_level_of(permissions_granted: bool, biometric: bool, hardware: bool) -> SecurityLevel {
    if hardware && biometric && permissions_granted {
        SecurityLevel::Maximum
    } else if biometric && permissions_granted {
        SecurityLevel::High
    } else if permissions_granted {
        SecurityLevel::Medium
    } else {
        SecurityLevel::Low
    }
}

/// The security level: Maximum with hardware backing, biometrics and all
/// required permissions; High without the hardware; Medium with the
/// permissions alone; Low otherwise.
pub fn security_level_for(permissions_granted: bool, biometric_available: bool, hardware_backed: bool) -> (l: SecurityLevel)
    ensures
        l == security_level_of(permissions_granted, biometric_available, hardware_backed),
{
    if hardware_backed && biometric_available && permissions_granted {
        SecurityLevel::Maximum
    } else if biometric_available && permissions_granted {
        SecurityLevel::High
    } else if permissions_granted {
        SecurityLevel::Medium
    } else {
        SecurityLevel::Low
    }
}

/// Each added capability never lowers the level, and wallets can be
/// created exactly when all required permissions are granted.
pub proof fn lemma_security_level_monotone(p1: bool, b1: bool, h1: bool, p2: bool, b2: bool, h2: bool)
    requires
        p1 ==> p2,
        b1 ==> b2,
        h1 ==> h2,
    ensures
        level_rank(security_level_of(p1, b1, h1)) <= level_rank(security_level_of(p2, b2, h2)),
        (level_rank(security_level_of(p1, b1, h1)) >= level_rank(SecurityLevel::Medium)) == p1,
{
}

/// Texts of the recommendations, in the order they are given.
pub open spec fn recommendation_texts(permissions_granted: bool, biometric: bool, hardware: bool, optional_denied: bool) -> Seq<Seq<char>> {
    let a = if !permissions_granted { seq!["Grant required permissions for full functionality"@] } else { seq![] };
    let b = if !biometric { seq!["Enable biometric authentication for enhanced security"@] } else { seq![] };
    let c = if !hardware { seq!["Consider upgrading to a device with hardware security module"@] } else { seq![] };
    let d = if optional_denied { seq!["Consider granting optional permissions for better user experience"@] } else { seq![] };
    a + b + c + d
}

/// Security recommendations: one for each missing capability, and one
/// where optional permissions were denied.
pub fn get_security_recommendations(
    permission_summary: &PermissionSummary,
    biometric_available: bool,
    hardware_backed: bool,
) -> (r: Vec<String>)
    ensures
        ({
            let t = recommendation_texts(
                permission_summary.all_required_granted,
                biometric_available,
                hardware_backed,
                permission_summary.denied_optional@.len() > 0,
            );
            &&& r@.len() == t.len()
            &&& forall|i: int| 0 <= i < t.len() ==> (#[trigger] r@[i])@ == t[i]
        }),
{
    let mut recommendations: Vec<String> = Vec::new();
    let ghost mut t: Seq<Seq<char>> = seq![];
    if !permission_summary.all_required_granted {
        recommendations.push("Grant required permissions for full functionality".to_owned());
        proof { t = t.push("Grant required permissions for full functionality"@); }
    }
    if !biometric_available {
        recommendations.push("Enable biometric authentication for enhanced security".to_owned());
        proof { t = t.push("Enable biometric authentication for enhanced security"@); }
    }
    if !hardware_backed {
        recommendations.push("Consider upgrading to a device with hardware security module".to_owned());
        proof { t = t.push("Consider upgrading to a device with hardware security module"@); }
    }
    if permission_summary.denied_optional.len() > 0 {
        recommendations.push("Consider granting optional permissions for better user experience".to_owned());
        proof { t = t.push("Consider granting optional permissions for better user experience"@); }
    }
    assert(t =~= recommendation_texts(
        permission_summary.all_required_granted,
        biometric_available,
        hardware_backed,
        permission_summary.denied_optional@.len() > 0,
    ));
    recommendations
}

/// Overall security status.
pub struct SecurityStatus {
    pub security_level: SecurityLevel,
    pub permissions_granted: bool,
    pub biometric_available: bool,
    pub hardware_backed: bool,
    pub can_create_wallets: bool,
    pub recommended_actions: Vec<String>,
}

/// The security status from the permission summary and what the device
/// reports of biometrics and hardware backing.
pub fn get_security_status(
    permission_summary: &PermissionSummary,
    biometric_available: bool,
    hardware_backed: bool,
) -> (s: SecurityStatus)
    ensures
        s.security_level == security_level_of(permission_summary.all_required_granted, biometric_available, hardware_backed),
        s.permissions_granted == permission_summary.all_required_granted,
        s.biometric_available == biometric_available,
        s.hardware_backed == hardware_backed,
        s.can_create_wallets == (level_rank(s.security_level) >= level_rank(SecurityLevel::Medium)),
        ({
            let t = recommendation_texts(
                permission_summary.all_required_granted,
                biometric_available,
                hardware_backed,
                permission_summary.denied_optional@.len() > 0,
            );
            &&& s.recommended_actions@.len() == t.len()
            &&& forall|i: int| 0 <= i < t.len() ==> (#[trigger] s.recommended_actions@[i])@ == t[i]
        }),
{
    let security_level = security_level_for(permission_summary.all_required_granted, biometric_available, hardware_backed);
    let can_create_wallets = security_level.rank() >= SecurityLevel::Medium.rank();
    SecurityStatus {
        security_level,
        permissions_granted: permission_summary.all_required_granted,
        biometric_available,
        hardware_backed,
        can_create_wallets,
        recommended_actions: get_security_recommendations(permission_summary, biometric_available, hardware_backed),
    }
}

/// State of `p` in a list of request results, if it was requested.
fn requested_result(results: &Vec<(Permission, PermissionState)>, p: Permission) -> (r: Option<PermissionState>)
    ensures
        r matches Some(s) ==> exists|i: int| 0 <= i < results@.len() && results@[i] == (p, s),
        r is None ==> forall|i: int| 0 <= i < results@.len() ==> (#[trigger] results@[i]).0 != p,
{
    let mut i: usize = 0;
    while i < results.len()
        invariant
            i <= results.len(),
            forall|j: int| 0 <= j < i ==> (#[trigger] results@[j]).0 != p,
        decreases results.len() - i,
    {
        if results[i].0 == p {
            return Some(results[i].1);
        }
        i = i + 1;
    }
    None
}

/// Checks all permissions and requests the required ones that were denied;
/// fails when one of them is still not granted afterwards.
pub fn check_and_request_permissions(permission_manager: &mut PermissionManager) -> (r: Result<PermissionSummary, Error>)
    requires
        old(permission_manager).wf(),
    ensures
        final(permission_manager).wf(),
        r matches Ok(s) ==> {
            &&& s.granted_required@ == granted_part(old(permission_manager).required_permissions@, probe())
            &&& s.denied_required@ == denied_part(old(permission_manager).required_permissions@, probe())
            &&& s.granted_optional@ == granted_part(old(permission_manager).optional_permissions@, probe())
            &&& s.denied_optional@ == denied_part(old(permission_manager).optional_permissions@, probe())
            &&& s.all_required_granted == (s.denied_required@.len() == 0)
            &&& s.can_continue == s.all_required_granted
        },
        r is Ok,
{
    let summary = permission_manager.check_all_permissions()?;
    if !summary.all_required_granted {
        let results = permission_manager.request_permissions(
            summary.denied_required.clone(),
            "BitCraps requires these permissions for secure peer-to-peer gaming",
        )?;
        let mut all_granted = true;
        let mut i: usize = 0;
        while i < summary.denied_required.len()
            invariant
                i <= summary.denied_required.len(),
                all_granted,
                forall|j: int| 0 <= j < results@.len() ==> (#[trigger] results@[j]).1 == PermissionManager::state_after_request(results@[j].0),
            decreases summary.denied_required.len() - i,
        {
            let p = summary.denied_required[i];
            match requested_result(&results, p) {
                Some(state) => {
                    if state != PermissionState::Granted {
                        all_granted = false;
                    }
                },
                None => {},
            }
            i = i + 1;
        }
        if !all_granted {
            return Err(Error::Security("Required permissions not granted".to_owned()));
        }
    }
    Ok(summary)
}

/// The manager's readiness check: an uninitialized manager is refused.
pub fn ensure_initialized(initialized: bool) -> (r: Result<(), Error>)
    ensures
        initialized ==> r is Ok,
        !initialized ==> (r matches Err(Error::InvalidState(m)) && m@ == "Mobile security manager not initialized"@),
{
    if !initialized {
        return Err(Error::InvalidState("Mobile security manager not initialized".to_owned()));
    }
    Ok(())
}

/// Byte-wise equality of two slices.
fn bytes_eq(a: &[u8], b: &[u8]) -> (r: bool)
    ensures
        r == (a@ == b@),
{
    if a.len() != b.len() {
        return false;
    }
    let mut i: usize = 0;
    while i < a.len()
        invariant
            a@.len() == b@.len(),
            i <= a.len(),
            forall|j: int| 0 <= j < i ==> a@[j] == b@[j],
        decreases a.len() - i,
    {
        if a[i] != b[i] {
            return false;
        }
        i = i + 1;
    }
    assert(a@ =~= b@);
    true
}

/// Storage self-check: stores a test value, reads it back, compares it and
/// deletes it again.
pub fn verify_secure_storage(storage: &mut PlatformStorage) -> (r: Result<(), Error>)
    ensures
        r is Ok,
        final(storage).same_platform(*old(storage)),
        final(storage).entries() == old(storage).entries().remove("security_verification_test"@),
{
    let test_key = "security_verification_test";
    let test_text = "secure_storage_verification_data";
    let test_data = test_text.as_bytes();
    proof {
        reveal_strlit("secure_storage_verification_data");
        assert(vstd::string::is_ascii(test_text));
        vstd::utf8::is_ascii_chars_encode_utf8(test_text@);
        assert(test_data@.len() == 32);
    }
    storage.store(test_key, test_data)?;
    let ghost stored = storage.entries();
    let retrieved = match storage.retrieve(test_key)? {
        Some(v) => v,
        None => return Err(Error::Security("Secure storage verification failed".to_owned())),
    };
    if !bytes_eq(retrieved.as_slice(), test_data) {
        return Err(Error::Security("Secure storage data integrity check failed".to_owned()));
    }
    storage.delete(test_key)?;
    assert(stored.remove(test_key@) =~= old(storage).entries().remove(test_key@));
    Ok(())
}

/// Each byte of `data` combined by exclusive or with the key, repeated.
pub open spec fn xor_with_key(data: Seq<u8>, key: Seq<u8>) -> Seq<u8> {
    Seq::new(data.len(), |i: int| data[i] ^ key[i % (key.len() as int)])
}

/// Placeholder cipher of the security layer: exclusive or with the
/// repeated key. The key must not be empty.
pub fn aes_gcm_encrypt(data: &[u8], key: &[u8]) -> (r: Result<Vec<u8>, Error>)
    requires
        key@.len() > 0,
    ensures
        r matches Ok(v) && v@ == xor_with_key(data@, key@),
{
    let mut encrypted = slice_to_vec(data);
    let mut i: usize = 0;
    while i < encrypted.len()
        invariant
            key@.len() > 0,
            encrypted@.len() == data@.len(),
            i <= encrypted.len(),
            forall|j: int| 0 <= j < i ==> encrypted@[j] == data@[j] ^ key@[j % (key@.len() as int)],
            forall|j: int| i <= j < encrypted@.len() ==> encrypted@[j] == data@[j],
        decreases encrypted.len() - i,
    {
        let b = encrypted[i] ^ key[i % key.len()];
        encrypted.set(i, b);
        i = i + 1;
    }
    assert(encrypted@ =~= xor_with_key(data@, key@));
    Ok(encrypted)
}

/// Decryption of the placeholder cipher, the same exclusive or.
pub fn aes_gcm_decrypt(encrypted_data: &[u8], key: &[u8]) -> (r: Result<Vec<u8>, Error>)
    requires
        key@.len() > 0,
    ensures
        r matches Ok(v) && v@ == xor_with_key(encrypted_data@, key@),
{
    aes_gcm_encrypt(encrypted_data, key)
}

/// Decrypting what was encrypted under the same key gives the data back.
pub proof fn lemma_xor_roundtrip(data: Seq<u8>, key: Seq<u8>)
    requires
        key.len() > 0,
    ensures
        xor_with_key(xor_with_key(data, key), key) == data,
{
    let e = xor_with_key(data, key);
    assert forall|i: int| 0 <= i < data.len() implies #[trigger] xor_with_key(e, key)[i] == data[i] by {
        let a = data[i];
        let b = key[i % (key.len() as int)];
        assert((a ^ b) ^ b == a) by (bit_vector);
    }
    assert(xor_with_key(e, key) =~= data);
}

/// Security policy configuration.
pub struct SecurityPolicy {
    pub require_biometric_auth: bool,
    pub allow_fallback_to_passcode: bool,
    pub minimum_security_level: SecurityLevel,
    pub auto_lock_timeout: Option<u64>,
    pub require_hardware_backing: bool,
}

impl Default for SecurityPolicy {
    fn default() -> (p: Self)
        ensures
            !p.require_biometric_auth,
            p.allow_fallback_to_passcode,
            p.minimum_security_level == SecurityLevel::Medium,
            p.auto_lock_timeout == Some(300u64),
            !p.require_hardware_backing,
    {
        SecurityPolicy {
            require_biometric_auth: false,
            allow_fallback_to_passcode: true,
            minimum_security_level: SecurityLevel::Medium,
            auto_lock_timeout: Some(300),
            require_hardware_backing: false,
        }
    }
}

/// Mobile security configuration.
pub struct MobileSecurityConfig {
    pub security_policy: SecurityPolicy,
    pub enable_hardware_backing: bool,
    pub require_biometric_auth: bool,
    pub key_rotation_period: Option<u64>,
}

impl Default for MobileSecurityConfig {
    fn default() -> (c: Self)
        ensures
            !c.security_policy.require_biometric_auth,
            c.security_policy.allow_fallback_to_passcode,
            c.security_policy.minimum_security_level == SecurityLevel::Medium,
            c.security_policy.auto_lock_timeout == Some(300u64),
            !c.security_policy.require_hardware_backing,
            c.enable_hardware_backing,
            !c.require_biometric_auth,
            c.key_rotation_period == Some(2592000u64),
    {
        MobileSecurityConfig {
            security_policy: SecurityPolicy::default(),
            enable_hardware_backing: true,
            require_biometric_auth: false,
            key_rotation_period: Some(86400 * 30),
        }
    }
}

/// Wallet metadata.
pub struct WalletMetadata {
    pub wallet_id: String,
    pub master_key_id: String,
    pub created_at: u64,
    pub last_used: u64,
    pub biometric_protected: bool,
    pub hardware_backed: bool,
    pub version: u32,
}

/// Key hierarchy metadata.
pub struct KeyHierarchyInfo {
    pub app_id: String,
    pub master_key_id: String,
    pub created_at: u64,
    pub version: u32,
}

/// A secure wallet: its metadata, the metadata of its key hierarchy and,
/// where biometrics protect it, the identifier of its protected signing key.
pub struct SecureWallet {
    pub wallet_id: String,
    pub metadata: WalletMetadata,
    pub key_hierarchy: KeyHierarchyInfo,
    pub signing_key: Option<String>,
}

/// Identifier of the master key of wallet `id`.
pub open spec fn wallet_master_key_name(id: Seq<char>) -> Seq<char> {
    "wallet_master_"@ + id
}

/// Storage key of the serialized metadata of wallet `id`.
pub open spec fn wallet_metadata_name(id: Seq<char>) -> Seq<char> {
    "wallet_metadata_"@ + id
}

/// A wallet's credentials and its metadata lie under different keys, so
/// storing the one leaves the other as it was.
pub proof fn lemma_wallet_record_names_distinct(id: Seq<char>)
    ensures
        user_credentials_name(id) != wallet_metadata_name(id),
{
    reveal_strlit("user_credentials_");
    reveal_strlit("wallet_metadata_");
    assert(user_credentials_name(id)[0] == 'u');
    assert(wallet_metadata_name(id)[0] == 'w');
}

/// `w` is wallet `id` with master key `wallet_master_<id>`, signing key
/// `signing_key` (biometric-protected where there is one) and a key
/// hierarchy created at `now`.
pub open spec fn wallet_shape(w: SecureWallet, id: Seq<char>, signing_key: Option<String>, now: u64) -> bool {
    &&& w.wallet_id@ == id
    &&& w.metadata.wallet_id@ == id
    &&& w.metadata.master_key_id@ == wallet_master_key_name(id)
    &&& w.signing_key == signing_key
    &&& w.metadata.biometric_protected == signing_key is Some
    &&& w.key_hierarchy.app_id@ == id
    &&& w.key_hierarchy.master_key_id@ == wallet_master_key_name(id)
    &&& w.key_hierarchy.created_at == now
    &&& w.key_hierarchy.version == 1
}

/// Encrypted data container.
pub struct EncryptedData {
    pub data: Vec<u8>,
    pub context: String,
    pub algorithm: String,
    pub created_at: u64,
}

/// The reasons initialization refuses, in the order they are checked.
pub open spec fn init_refusal(permissions_granted: bool, require_biometric: bool, biometric_configured: bool) -> Option<Seq<char>> {
    if !permissions_granted {
        Some("Essential permissions not granted - cannot continue"@)
    } else if require_biometric && !biometric_configured {
        Some("Biometric authentication required but not configured"@)
    } else {
        None
    }
}

/// The permission check reports no required permission of `s` as denied.
pub open spec fn none_denied(s: Seq<Permission>) -> bool {
    denied_part(s, probe()).len() == 0
}

proof fn lemma_none_denied(s: Seq<Permission>)
    ensures
        none_denied(s),
{
    let pred = |p: Permission| probe()(p) == PermissionState::Denied || probe()(p) == PermissionState::PermanentlyDenied;
    if s.filter(pred).len() > 0 {
        s.lemma_filter_pred(pred, 0);
    }
}

/// The security manager: the secure storage, the permissions, the policy,
/// and what the device reports of biometric authentication and of
/// hardware-backed keys.
pub struct MobileSecurityManager {
    storage_manager: SecureStorageManager,
    permission_manager: PermissionManager,
    security_policy: SecurityPolicy,
    biometric_configured: bool,
    hardware_backed: bool,
    initialized: bool,
}

impl MobileSecurityManager {
    /// Whether initialization completed.
    pub closed spec fn is_initialized(self) -> bool {
        self.initialized
    }

    /// The security policy in force.
    pub closed spec fn policy_requires_biometric(self) -> bool {
        self.security_policy.require_biometric_auth
    }

    /// The permission manager is well formed.
    pub closed spec fn wf(self) -> bool {
        self.permission_manager.wf()
    }

    /// What the device reports of biometrics and hardware backing.
    pub closed spec fn device(self) -> (bool, bool) {
        (self.biometric_configured, self.hardware_backed)
    }

    /// A manager over a new in-memory secure storage, the storage of
    /// platforms other than Android and iOS; see `new_for_platform`.
    pub fn new(config: MobileSecurityConfig, biometric_configured: bool, hardware_backed: bool) -> (r: Result<Self, Error>)
        ensures
            ({
                let refusal = init_refusal(true, config.security_policy.require_biometric_auth, biometric_configured);
                &&& refusal is None <==> r is Ok
                &&& refusal matches Some(m) ==> (r matches Err(Error::Security(e)) && e@ == m)
                &&& r matches Ok(mgr) ==> {
                    &&& mgr.is_initialized()
                    &&& mgr.wf()
                    &&& mgr.device() == (biometric_configured, hardware_backed)
                    &&& mgr.policy_requires_biometric() == config.security_policy.require_biometric_auth
                    &&& mgr.storage() is Memory
                    &&& mgr.storage().entries() == Map::<Seq<char>, Seq<u8>>::empty()
                }
            }),
    {
        Self::new_for_platform(config, PlatformType::Desktop, biometric_configured, hardware_backed)
    }

    /// A manager over a new secure storage of `platform` and the BitCraps
    /// permissions, initialized: the required permissions are checked (and
    /// requested where denied), biometric authentication must be configured
    /// where the policy requires it, and the storage must pass its
    /// self-check.
    pub fn new_for_platform(config: MobileSecurityConfig, platform: PlatformType, biometric_configured: bool, hardware_backed: bool)
        -> (r: Result<Self, Error>)
        ensures
            ({
                let refusal = init_refusal(true, config.security_policy.require_biometric_auth, biometric_configured);
                &&& refusal is None <==> r is Ok
                &&& refusal matches Some(m) ==> (r matches Err(Error::Security(e)) && e@ == m)
                &&& r matches Ok(mgr) ==> {
                    &&& mgr.is_initialized()
                    &&& mgr.wf()
                    &&& mgr.device() == (biometric_configured, hardware_backed)
                    &&& mgr.policy_requires_biometric() == config.security_policy.require_biometric_auth
                    &&& (mgr.storage() is Android <==> platform == PlatformType::Android)
                    &&& (mgr.storage() is Ios <==> platform == PlatformType::Ios)
                    &&& mgr.storage().entries() == Map::<Seq<char>, Seq<u8>>::empty()
                }
            }),
    {
        let storage_manager = SecureStorageManager::for_platform(platform)?;
        let required = PermissionManager::get_bitcraps_required_permissions();
        let optional = PermissionManager::get_bitcraps_optional_permissions();
        let permission_manager = PermissionManager::new(required, optional);
        let mut manager = MobileSecurityManager {
            storage_manager,
            permission_manager,
            security_policy: config.security_policy,
            biometric_configured,
            hardware_backed,
            initialized: false,
        };
        manager.initialize()?;
        proof {
            assert(Map::<Seq<char>, Seq<u8>>::empty().remove("security_verification_test"@) =~= Map::<Seq<char>, Seq<u8>>::empty());
        }
        Ok(manager)
    }

    /// Initializes the manager once; see `new`.
    fn initialize(&mut self) -> (r: Result<(), Error>)
        requires
            old(self).wf(),
        ensures
            final(self).wf(),
            final(self).device() == old(self).device(),
            final(self).policy_requires_biometric() == old(self).policy_requires_biometric(),
            old(self).is_initialized() ==> r is Ok && final(self).is_initialized(),
            final(self).storage().same_platform(old(self).storage()),
            r is Ok ==> final(self).storage().entries() == old(self).storage().entries().remove("security_verification_test"@)
                || final(self).storage().entries() == old(self).storage().entries(),
            !old(self).is_initialized() ==> ({
                let refusal = init_refusal(true, old(self).policy_requires_biometric(), old(self).device().0);
                &&& refusal is None <==> r is Ok
                &&& refusal matches Some(m) ==> (r matches Err(Error::Security(e)) && e@ == m)
                &&& r is Ok ==> final(self).is_initialized()
            }),
    {
        if self.initialized {
            return Ok(());
        }
        let permission_summary = check_and_request_permissions(&mut self.permission_manager)?;
        proof {
            lemma_none_denied(old(self).permission_manager.required_permissions@);
        }
        if !permission_summary.can_continue {
            return Err(Error::Security("Essential permissions not granted - cannot continue".to_owned()));
        }
        if self.security_policy.require_biometric_auth && !self.biometric_configured {
            return Err(Error::Security("Biometric authentication required but not configured".to_owned()));
        }
        verify_secure_storage(&mut self.storage_manager.storage)?;
        self.initialized = true;
        Ok(())
    }

    /// The secure storage.
    pub closed spec fn storage(self) -> PlatformStorage {
        self.storage_manager.storage
    }

    /// Whether creating a wallet needs the user to authenticate first.
    pub fn wallet_creation_needs_auth(&self) -> (r: bool)
        ensures
            r == self.policy_requires_biometric(),
    {
        self.security_policy.require_biometric_auth
    }

    /// Whether unlocking a wallet with metadata `metadata` needs the user to
    /// authenticate first: where the policy asks for it or the wallet is
    /// biometric-protected.
    pub fn wallet_unlock_needs_auth(&self, metadata: &WalletMetadata) -> (r: bool)
        ensures
            r == (self.policy_requires_biometric() || metadata.biometric_protected),
    {
        self.security_policy.require_biometric_auth || metadata.biometric_protected
    }

    /// A new wallet `wallet_id`, created at `now`, for an initialized
    /// manager: its master key is `wallet_master_<id>`, it is created and
    /// last used at `now`, it keeps the protected signing key
    /// `signing_key` only where biometrics are configured, and it is
    /// hardware-backed as the device is.
    pub fn create_secure_wallet_at(&self, wallet_id: &str, signing_key: Option<String>, now: u64) -> (r: Result<SecureWallet, Error>)
        ensures
            !self.is_initialized() ==> (r matches Err(Error::InvalidState(m)) && m@ == "Mobile security manager not initialized"@),
            self.is_initialized() ==> (r matches Ok(w) && wallet_shape(w, wallet_id@, if self.device().0 { signing_key } else { None }, now)
                && w.metadata.created_at == now && w.metadata.last_used == now
                && w.metadata.hardware_backed == self.device().1 && w.metadata.version == 1),
    {
        self.ensure_initialized()?;
        let master_key_id = concat_str("wallet_master_", wallet_id);
        let signing_key = if self.biometric_configured { signing_key } else { None };
        let metadata = WalletMetadata {
            wallet_id: wallet_id.to_owned(),
            master_key_id: master_key_id.clone(),
            created_at: now,
            last_used: now,
            biometric_protected: signing_key.is_some(),
            hardware_backed: self.hardware_backed,
            version: 1,
        };
        let key_hierarchy = KeyHierarchyInfo { app_id: wallet_id.to_owned(), master_key_id, created_at: now, version: 1 };
        Ok(SecureWallet { wallet_id: wallet_id.to_owned(), metadata, key_hierarchy, signing_key })
    }

    /// Stores the serialized credentials and metadata of wallet `wallet_id`
    /// under `user_credentials_<id>` and `wallet_metadata_<id>`.
    pub fn store_wallet_records(&mut self, wallet_id: &str, credentials: &[u8], metadata: &[u8]) -> (r: Result<(), Error>)
        ensures
            r is Ok <==> old(self).storage().storable(credentials@) && old(self).storage().storable(metadata@),
            r matches Err(e) ==> e is Crypto,
            final(self).storage().same_platform(old(self).storage()),
            r is Ok ==> {
                let e = final(self).storage().entries();
                &&& final(self).storage().holds(user_credentials_name(wallet_id@), credentials@)
                &&& final(self).storage().holds(wallet_metadata_name(wallet_id@), metadata@)
                &&& e == old(self).storage().entries().insert(user_credentials_name(wallet_id@), e[user_credentials_name(wallet_id@)]).insert(
                    wallet_metadata_name(wallet_id@),
                    e[wallet_metadata_name(wallet_id@)],
                )
            },
            final(self).is_initialized() == old(self).is_initialized(),
            final(self).device() == old(self).device(),
            final(self).policy_requires_biometric() == old(self).policy_requires_biometric(),
            final(self).wf() == old(self).wf(),
    {
        self.storage_manager.store_user_credentials(wallet_id, credentials)?;
        let ghost mid = self.storage();
        let r = self.store_wallet_metadata(wallet_id, metadata);
        proof {
            lemma_wallet_record_names_distinct(wallet_id@);
            if r is Ok {
                let k1 = user_credentials_name(wallet_id@);
                let k2 = wallet_metadata_name(wallet_id@);
                assert(self.storage().entries()[k1] == mid.entries()[k1]);
                assert(self.storage().entries() =~= old(self).storage().entries().insert(k1, self.storage().entries()[k1]).insert(
                    k2,
                    self.storage().entries()[k2],
                ));
            }
        }
        r
    }

    /// Stores the serialized metadata of wallet `wallet_id`.
    pub fn store_wallet_metadata(&mut self, wallet_id: &str, metadata: &[u8]) -> (r: Result<(), Error>)
        ensures
            stored_under(old(self).storage(), final(self).storage(), wallet_metadata_name(wallet_id@), metadata@, r is Ok),
            r matches Err(e) ==> e is Crypto,
            final(self).is_initialized() == old(self).is_initialized(),
            final(self).device() == old(self).device(),
            final(self).policy_requires_biometric() == old(self).policy_requires_biometric(),
            final(self).wf() == old(self).wf(),
    {
        let key = concat_str("wallet_metadata_", wallet_id);
        self.storage_manager.storage.store(key.as_str(), metadata)
    }

    /// The serialized metadata of wallet `wallet_id`, for an initialized
    /// manager; a wallet without metadata is not found.
    pub fn load_wallet_metadata(&self, wallet_id: &str) -> (r: Result<Vec<u8>, Error>)
        ensures
            !self.is_initialized() ==> (r matches Err(Error::InvalidState(_))),
            self.is_initialized() ==> forall|v: Seq<u8>| #[trigger] self.storage().holds(wallet_metadata_name(wallet_id@), v) ==> (r matches Ok(w)
                && w@ == v),
            self.is_initialized() && self.storage().entries().contains_key(wallet_metadata_name(wallet_id@)) ==> (r is Ok || r matches Err(
                Error::Crypto(_),
            )),
            self.is_initialized() && !self.storage().entries().contains_key(wallet_metadata_name(wallet_id@)) ==> (r matches Err(
                Error::NotFound(m),
            ) && m@ == "Wallet '"@ + wallet_id@ + "' not found"@),
    {
        self.ensure_initialized()?;
        let key = concat_str("wallet_metadata_", wallet_id);
        match self.storage_manager.storage.retrieve(key.as_str())? {
            Some(bytes) => Ok(bytes),
            None => {
                let head = concat_str("Wallet '", wallet_id);
                Err(Error::NotFound(concat_str(head.as_str(), "' not found")))
            },
        }
    }

    /// The wallet `wallet_id` unlocked at `now` from its stored metadata
    /// `metadata`: last used at `now`, with the protected signing key
    /// `signing_key` where the wallet is biometric-protected.
    pub fn unlock_secure_wallet_at(&self, wallet_id: &str, metadata: WalletMetadata, signing_key: Option<String>, now: u64) -> (r: Result<SecureWallet, Error>)
        ensures
            !self.is_initialized() ==> (r matches Err(Error::InvalidState(_))),
            self.is_initialized() ==> (r matches Ok(w) && w.wallet_id@ == wallet_id@ && w.metadata.wallet_id == metadata.wallet_id
                && w.metadata.master_key_id == metadata.master_key_id && w.metadata.created_at == metadata.created_at
                && w.metadata.last_used == now && w.metadata.biometric_protected == metadata.biometric_protected
                && w.metadata.hardware_backed == metadata.hardware_backed && w.metadata.version == metadata.version
                && w.signing_key == (if metadata.biometric_protected { signing_key } else { None })
                && w.key_hierarchy.app_id@ == wallet_id@
                && w.key_hierarchy.master_key_id@ == wallet_master_key_name(wallet_id@)
                && w.key_hierarchy.created_at == now && w.key_hierarchy.version == 1),
    {
        self.ensure_initialized()?;
        let signing_key = if metadata.biometric_protected { signing_key } else { None };
        let updated = WalletMetadata { last_used: now, ..metadata };
        let key_hierarchy = KeyHierarchyInfo {
            app_id: wallet_id.to_owned(),
            master_key_id: concat_str("wallet_master_", wallet_id),
            created_at: now,
            version: 1,
        };
        Ok(SecureWallet { wallet_id: wallet_id.to_owned(), metadata: updated, key_hierarchy, signing_key })
    }

    /// `data` encrypted at `now` for `context` under `encryption_key`, the
    /// key derived for that context, by an initialized manager.
    pub fn encrypt_sensitive_data_at(&self, data: &[u8], context: &str, encryption_key: &[u8], now: u64) -> (r: Result<EncryptedData, Error>)
        requires
            encryption_key@.len() > 0,
        ensures
            !self.is_initialized() ==> (r matches Err(Error::InvalidState(_))),
            self.is_initialized() ==> (r matches Ok(e) && e.data@ == xor_with_key(data@, encryption_key@) && e.context@ == context@
                && e.algorithm@ == "AES-256-GCM"@ && e.created_at == now),
    {
        self.ensure_initialized()?;
        let encrypted = aes_gcm_encrypt(data, encryption_key)?;
        Ok(EncryptedData { data: encrypted, context: context.to_owned(), algorithm: "AES-256-GCM".to_owned(), created_at: now })
    }

    /// The data of `encrypted` decrypted under `encryption_key`, the key
    /// derived for its context, by an initialized manager.
    pub fn decrypt_sensitive_data_with(&self, encrypted: &EncryptedData, encryption_key: &[u8]) -> (r: Result<Vec<u8>, Error>)
        requires
            encryption_key@.len() > 0,
        ensures
            !self.is_initialized() ==> (r matches Err(Error::InvalidState(_))),
            self.is_initialized() ==> (r matches Ok(d) && d@ == xor_with_key(encrypted.data@, encryption_key@)),
    {
        self.ensure_initialized()?;
        aes_gcm_decrypt(encrypted.data.as_slice(), encryption_key)
    }

    /// Refuses a manager that is not initialized.
    pub fn ensure_initialized(&self) -> (r: Result<(), Error>)
        ensures
            self.is_initialized() ==> r is Ok,
            !self.is_initialized() ==> (r matches Err(Error::InvalidState(m)) && m@ == "Mobile security manager not initialized"@),
    {
        ensure_initialized(self.initialized)
    }

    /// The security status: the level reached with the permissions granted
    /// and what the device reports, and the recommendations.
    pub fn get_security_status(&mut self) -> (r: Result<SecurityStatus, Error>)
        requires
            old(self).wf(),
        ensures
            final(self).wf(),
            final(self).is_initialized() == old(self).is_initialized(),
            r matches Ok(s) && s.security_level == security_level_of(true, old(self).device().0, old(self).device().1)
                && s.biometric_available == old(self).device().0 && s.hardware_backed == old(self).device().1
                && s.permissions_granted,
    {
        let summary = self.permission_manager.check_all_permissions()?;
        proof {
            lemma_none_denied(old(self).permission_manager.required_permissions@);
        }
        Ok(get_security_status(&summary, self.biometric_configured, self.hardware_backed))
    }
}

} // verus!
