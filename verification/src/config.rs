//! Configuration read by the streaming core, with its defaults and
//! validation rules. Parsing the file itself is the caller's
//! business; the values arrive here as plain strings and numbers
//! and are checked against the rules below.

use vstd::prelude::*;

verus! {

/// Everything wrong a configuration can be, one variant per rule.
#[derive(Clone, Copy, PartialEq, Eq, Structural, Debug)]
pub enum ConfigError {
    /// A username is empty or all whitespace.
    EmptyUsername,
    /// A username is one of the reserved role names.
    ReservedUsername,
    /// `stream` names no known stream source.
    InvalidStream,
    /// `tls_client_auth` names no known mode.
    InvalidTlsAuth,
    /// `pause.mode` names no known mode.
    InvalidPauseMode,
    /// `max_encryption` names no known method.
    InvalidMaxEncryption,
    /// `channel_id` is out of range.
    InvalidChannel,
    /// `buffer_size` is out of range.
    InvalidBufferSize,
    /// Neither a camera address nor a uid was given.
    MissingCameraIdentity,
    /// An MQTT section sets both `ca` and `client_auth`.
    MqttCaAndClientAuth,
}

/// Pause behaviour of one camera stream. The timeout is kept in
/// milliseconds.
#[derive(Clone, Debug)]
pub struct PauseConfig {
    pub on_motion: bool,
    pub on_disconnect: bool,
    pub motion_timeout_ms: u64,
    pub mode: String,
}

/// One RTSP user.
#[derive(Clone, Debug)]
pub struct UserConfig {
    pub name: String,
    pub pass: String,
}

/// MQTT discovery parameters; carried through, not read here.
#[derive(Clone, Debug)]
pub struct MqttDiscoveryConfig {
    pub topic: String,
    pub features: Vec<String>,
}

/// MQTT connection of one camera. Certificate paths are carried as
/// plain strings.
#[derive(Clone, Debug)]
pub struct MqttConfig {
    pub broker_addr: String,
    pub port: u16,
    pub credentials: Option<(String, String)>,
    pub ca: Option<String>,
    pub client_auth: Option<(String, String)>,
    pub discovery: Option<MqttDiscoveryConfig>,
}

/// One camera.
#[derive(Clone, Debug)]
pub struct CameraConfig {
    pub name: String,
    pub camera_addr: Option<String>,
    pub camera_uid: Option<String>,
    pub username: String,
    pub password: Option<String>,
    pub stream: String,
    pub permitted_users: Option<Vec<String>>,
    pub channel_id: u8,
    pub mqtt: Option<MqttConfig>,
    pub pause: PauseConfig,
    pub max_encryption: String,
    /// If strict, malformed media aborts the stream instead of
    /// being dropped.
    pub strict: bool,
    pub update_time: bool,
    pub buffer_size: usize,
    pub use_smoothing: bool,
}

/// The whole file.
#[derive(Clone, Debug)]
pub struct Config {
    pub cameras: Vec<CameraConfig>,
    pub bind_addr: String,
    pub bind_port: u16,
    pub tokio_console: bool,
    pub certificate: Option<String>,
    pub tls_client_auth: String,
    pub users: Vec<UserConfig>,
}

pub fn default_mqtt() -> (r: Option<MqttConfig>)
    ensures
        r is None,
{
    None
}

pub fn default_maxenc() -> (r: String)
    ensures
        r@ == "Aes"@,
{
    "Aes".to_owned()
}

pub fn default_bind_addr() -> (r: String)
    ensures
        r@ == "0.0.0.0"@,
{
    "0.0.0.0".to_owned()
}

pub fn default_bind_port() -> (r: u16)
    ensures
        r == 8554,
{
    8554
}

pub fn default_stream() -> (r: String)
    ensures
        r@ == "both"@,
{
    "both".to_owned()
}

pub fn default_certificate() -> (r: Option<String>)
    ensures
        r is None,
{
    None
}

pub fn default_tls_client_auth() -> (r: String)
    ensures
        r@ == "none"@,
{
    "none".to_owned()
}

pub fn default_tokio_console() -> (r: bool)
    ensures
        !r,
{
    false
}

pub fn default_channel_id() -> (r: u8)
    ensures
        r == 0,
{
    0
}

pub fn default_update_time() -> (r: bool)
    ensures
        !r,
{
    false
}

/// One second, in milliseconds.
pub fn default_motion_timeout_ms() -> (r: u64)
    ensures
        r == 1000,
{
    1000
}

pub fn default_on_disconnect() -> (r: bool)
    ensures
        !r,
{
    false
}

pub fn default_on_motion() -> (r: bool)
    ensures
        !r,
{
    false
}

pub fn default_pause_mode() -> (r: String)
    ensures
        r@ == "none"@,
{
    "none".to_owned()
}

pub fn default_strict() -> (r: bool)
    ensures
        !r,
{
    false
}

pub fn default_pause() -> (r: PauseConfig)
    ensures
        !r.on_motion,
        !r.on_disconnect,
        r.motion_timeout_ms == 1000,
        r.mode@ == "none"@,
{
    PauseConfig {
        on_motion: default_on_motion(),
        on_disconnect: default_on_disconnect(),
        motion_timeout_ms: default_motion_timeout_ms(),
        mode: default_pause_mode(),
    }
}

pub fn default_smoothing() -> (r: bool)
    ensures
        r,
{
    true
}

pub fn default_buffer_size() -> (r: usize)
    ensures
        r == 100,
{
    100
}

/// Exact string equality, stated over the character views.
pub fn string_eq(a: &str, b: &str) -> (r: bool)
    ensures
        r == (a@ == b@),
{
    let x = a.to_owned();
    let y = b.to_owned();
    x == y
}

/// `c` equals `lower`, allowing the ASCII uppercase form of it.
pub open spec fn char_matches_ci(c: char, lower: char) -> bool {
    c == lower || (c as u32) + 32 == (lower as u32)
}

/// `s` spells `lower`, each character matched case-insensitively
/// against the lowercase pattern.
pub open spec fn str_matches_ci(s: Seq<char>, lower: Seq<char>) -> bool {
    s.len() == lower.len() && (forall|i: int|
        0 <= i < s.len() ==> char_matches_ci(s[i], lower[i]))
}

/// Case-insensitive match of `s` against the lowercase `lower`.
pub fn matches_ci(s: &str, lower: &str) -> (r: bool)
    ensures
        r == str_matches_ci(s@, lower@),
{
    let n = s.unicode_len();
    if n != lower.unicode_len() {
        return false;
    }
    let mut i: usize = 0;
    while i < n
        invariant
            n == s@.len(),
            n == lower@.len(),
            i <= n,
            forall|j: int| 0 <= j < i ==> char_matches_ci(s@[j], lower@[j]),
        decreases n - i,
    {
        let c = s.get_char(i);
        let l = lower.get_char(i);
        if !(c == l || (c as u32) + 32 == (l as u32)) {
            return false;
        }
        i = i + 1;
    }
    true
}

/// The known stream sources.
pub open spec fn spec_valid_stream(s: Seq<char>) -> bool {
    ||| s == "mainStream"@
    ||| s == "subStream"@
    ||| s == "externStream"@
    ||| s == "both"@
    ||| s == "all"@
}

/// Accepts exactly the known stream sources.
pub fn is_valid_stream(s: &str) -> (r: bool)
    ensures
        r == spec_valid_stream(s@),
{
    string_eq(s, "mainStream") || string_eq(s, "subStream") || string_eq(s, "externStream")
        || string_eq(s, "both") || string_eq(s, "all")
}

/// The known TLS client-auth modes.
pub open spec fn spec_valid_tls_auth(s: Seq<char>) -> bool {
    s == "none"@ || s == "request"@ || s == "require"@
}

/// Accepts exactly the known TLS client-auth modes.
pub fn is_valid_tls_auth(s: &str) -> (r: bool)
    ensures
        r == spec_valid_tls_auth(s@),
{
    string_eq(s, "none") || string_eq(s, "request") || string_eq(s, "require")
}

/// The known pause modes.
pub open spec fn spec_valid_pause_mode(s: Seq<char>) -> bool {
    s == "black"@ || s == "still"@ || s == "test"@ || s == "none"@
}

/// Accepts exactly the known pause modes. Only `none` has observable
/// behaviour; the others are validated and carried through.
pub fn is_valid_pause_mode(s: &str) -> (r: bool)
    ensures
        r == spec_valid_pause_mode(s@),
{
    string_eq(s, "black") || string_eq(s, "still") || string_eq(s, "test") || string_eq(s, "none")
}

/// The known maximum-encryption methods: `none` with either leading
/// case, and `aes` and `bcencrypt` in any case.
pub open spec fn spec_valid_maxenc(s: Seq<char>) -> bool {
    ||| s == "none"@
    ||| s == "None"@
    ||| str_matches_ci(s, "aes"@)
    ||| str_matches_ci(s, "bcencrypt"@)
}

/// Accepts exactly the known maximum-encryption methods.
pub fn is_valid_maxenc(s: &str) -> (r: bool)
    ensures
        r == spec_valid_maxenc(s@),
{
    string_eq(s, "none") || string_eq(s, "None") || matches_ci(s, "aes") || matches_ci(
        s,
        "bcencrypt",
    )
}

/// The Unicode White_Space characters: exactly what trimming a
/// string removes from its ends, so a name is blank here exactly
/// when it trims to nothing.
pub open spec fn spec_is_space(c: char) -> bool {
    let n = c as u32;
    ||| (0x09 <= n && n <= 0x0D)  // tab, LF, vertical tab, form feed, CR
    ||| n == 0x20  // space
    ||| n == 0x85  // next line
    ||| n == 0xA0  // no-break space
    ||| n == 0x1680  // ogham space mark
    ||| (0x2000 <= n && n <= 0x200A)  // en quad .. hair space
    ||| n == 0x2028  // line separator
    ||| n == 0x2029  // paragraph separator
    ||| n == 0x202F  // narrow no-break space
    ||| n == 0x205F  // medium mathematical space
    ||| n == 0x3000  // ideographic space
}

/// One character of the set above.
pub fn is_space_char(c: char) -> (r: bool)
    ensures
        r == spec_is_space(c),
{
    let n = c as u32;
    (0x09 <= n && n <= 0x0D) || n == 0x20 || n == 0x85 || n == 0xA0 || n == 0x1680 || (0x2000 <= n
        && n <= 0x200A) || n == 0x2028 || n == 0x2029 || n == 0x202F || n == 0x205F || n == 0x3000
}

/// Nothing but whitespace (or nothing at all).
pub open spec fn spec_blank(s: Seq<char>) -> bool {
    forall|i: int| 0 <= i < s.len() ==> spec_is_space(s[i])
}

/// What a username must satisfy: not blank, and not one of the
/// reserved role names `anyone` and `anonymous`.
pub open spec fn spec_validate_username(s: Seq<char>) -> Result<(), ConfigError> {
    if spec_blank(s) {
        Err(ConfigError::EmptyUsername)
    } else if s == "anyone"@ || s == "anonymous"@ {
        Err(ConfigError::ReservedUsername)
    } else {
        Ok(())
    }
}

/// Checks one username against the rules above.
pub fn validate_username(name: &str) -> (r: Result<(), ConfigError>)
    ensures
        r == spec_validate_username(name@),
{
    let n = name.unicode_len();
    let mut i: usize = 0;
    let mut blank = true;
    while i < n
        invariant
            n == name@.len(),
            i <= n,
            blank == (forall|j: int| 0 <= j < i ==> spec_is_space(name@[j])),
        decreases n - i,
    {
        let c = name.get_char(i);
        if !is_space_char(c) {
            blank = false;
        }
        i = i + 1;
    }
    if blank {
        return Err(ConfigError::EmptyUsername);
    }
    if string_eq(name, "anyone") || string_eq(name, "anonymous") {
        return Err(ConfigError::ReservedUsername);
    }
    Ok(())
}

/// What an MQTT section must satisfy: `ca` and `client_auth` cannot
/// both be set.
pub open spec fn spec_validate_mqtt(m: MqttConfig) -> Result<(), ConfigError> {
    if m.ca is Some && m.client_auth is Some {
        Err(ConfigError::MqttCaAndClientAuth)
    } else {
        Ok(())
    }
}

/// Checks one MQTT section.
pub fn validate_mqtt_config(config: &MqttConfig) -> (r: Result<(), ConfigError>)
    ensures
        r == spec_validate_mqtt(*config),
{
    if config.ca.is_some() && config.client_auth.is_some() {
        Err(ConfigError::MqttCaAndClientAuth)
    } else {
        Ok(())
    }
}

/// What a camera section must satisfy, checked in this order: a
/// known stream source, channel in range, a known pause mode, a
/// known encryption method, buffer size in range, a sound MQTT
/// section if present, and an address or uid to reach the camera.
pub open spec fn spec_validate_camera(c: CameraConfig) -> Result<(), ConfigError> {
    if !spec_valid_stream(c.stream@) {
        Err(ConfigError::InvalidStream)
    } else if c.channel_id > 31 {
        Err(ConfigError::InvalidChannel)
    } else if !spec_valid_pause_mode(c.pause.mode@) {
        Err(ConfigError::InvalidPauseMode)
    } else if !spec_valid_maxenc(c.max_encryption@) {
        Err(ConfigError::InvalidMaxEncryption)
    } else if !(10 <= c.buffer_size <= 500) {
        Err(ConfigError::InvalidBufferSize)
    } else if c.mqtt matches Some(m) && spec_validate_mqtt(m) is Err {
        spec_validate_mqtt(c.mqtt->Some_0)
    } else if c.camera_addr is None && c.camera_uid is None {
        Err(ConfigError::MissingCameraIdentity)
    } else {
        Ok(())
    }
}

/// Checks one camera section.
pub fn validate_camera_config(camera_config: &CameraConfig) -> (r: Result<(), ConfigError>)
    ensures
        r == spec_validate_camera(*camera_config),
{
    if !is_valid_stream(camera_config.stream.as_str()) {
        return Err(ConfigError::InvalidStream);
    }
    if camera_config.channel_id > 31 {
        return Err(ConfigError::InvalidChannel);
    }
    if !is_valid_pause_mode(camera_config.pause.mode.as_str()) {
        return Err(ConfigError::InvalidPauseMode);
    }
    if !is_valid_maxenc(camera_config.max_encryption.as_str()) {
        return Err(ConfigError::InvalidMaxEncryption);
    }
    if camera_config.buffer_size < 10 || camera_config.buffer_size > 500 {
        return Err(ConfigError::InvalidBufferSize);
    }
    match &camera_config.mqtt {
        Some(m) => {
            match validate_mqtt_config(m) {
                Ok(()) => (),
                Err(e) => {
                    return Err(e);
                },
            }
        },
        None => (),
    }
    if camera_config.camera_addr.is_none() && camera_config.camera_uid.is_none() {
        return Err(ConfigError::MissingCameraIdentity);
    }
    Ok(())
}

} // verus!
