//! Host-facing settings: defaults, normalization and validation.

use vstd::prelude::*;

use crate::text::{lower_of, spec_trim, str_eq, to_lowercase, trim_of};
use crate::transcript::{
    DEFAULT_PARTIAL_REWRITE_ENABLED, DEFAULT_PARTIAL_REWRITE_MAX_BACKSPACE,
    DEFAULT_PARTIAL_REWRITE_WINDOW_MS, MAX_PARTIAL_REWRITE_MAX_BACKSPACE,
    MAX_PARTIAL_REWRITE_WINDOW_MS, MIN_PARTIAL_REWRITE_MAX_BACKSPACE,
    MIN_PARTIAL_REWRITE_WINDOW_MS,
};

verus! {

/// The hotkey bound when none is configured.
pub const DEFAULT_HOTKEY_LABEL: &'static str = "Ctrl+N";

/// A fatal error surfaced to the host.
#[derive(Debug)]
pub enum AppError {
    LoggingInit(String),
    Runtime(String),
}

impl AppError {
    pub fn message(&self) -> (r: String)
        ensures
            match self {
                AppError::LoggingInit(m) => r@ == "failed to initialize logging: "@ + m@,
                AppError::Runtime(m) => r@ == "runtime error: "@ + m@,
            },
    {
        match self {
            AppError::LoggingInit(m) => String::from_str("failed to initialize logging: ").concat(
                m.as_str(),
            ),
            AppError::Runtime(m) => String::from_str("runtime error: ").concat(m.as_str()),
        }
    }
}

/// The service identity and readiness reported to the host.
#[derive(Debug, Clone)]
pub struct AppStatus {
    pub service: String,
    pub version: String,
    pub ready: bool,
}

/// Reports the service as up.
pub fn status_snapshot() -> (r: Result<AppStatus, AppError>)
    ensures
        match r {
            Ok(s) => s.service@ == "raflow-core"@ && s.version@ == "0.1.0"@ && s.ready,
            Err(_) => false,
        },
{
    Ok(
        AppStatus {
            service: String::from_str("raflow-core"),
            version: String::from_str("0.1.0"),
            ready: true,
        },
    )
}

/// The persisted, host-editable settings.
#[derive(Debug, Clone)]
pub struct AppSettings {
    pub api_key: String,
    pub language_code: String,
    pub hotkey: String,
    pub partial_rewrite_enabled: bool,
    pub partial_rewrite_max_backspace: usize,
    pub partial_rewrite_window_ms: u64,
}

pub fn default_language_code() -> (r: String)
    ensures
        r@ == "eng"@,
{
    String::from_str("eng")
}

pub fn default_hotkey() -> (r: String)
    ensures
        r@ == "Ctrl+N"@,
{
    String::from_str(DEFAULT_HOTKEY_LABEL)
}

pub fn default_partial_rewrite_enabled() -> (r: bool)
    ensures
        r == DEFAULT_PARTIAL_REWRITE_ENABLED,
{
    DEFAULT_PARTIAL_REWRITE_ENABLED
}

pub fn default_partial_rewrite_max_backspace() -> (r: usize)
    ensures
        r == DEFAULT_PARTIAL_REWRITE_MAX_BACKSPACE,
{
    DEFAULT_PARTIAL_REWRITE_MAX_BACKSPACE
}

pub fn default_partial_rewrite_window_ms() -> (r: u64)
    ensures
        r == DEFAULT_PARTIAL_REWRITE_WINDOW_MS,
{
    DEFAULT_PARTIAL_REWRITE_WINDOW_MS
}

impl Default for AppSettings {
    fn default() -> (r: Self)
        ensures
            r.api_key@ == Seq::<char>::empty(),
            r.language_code@ == "eng"@,
            r.hotkey@ == "Ctrl+N"@,
            r.partial_rewrite_enabled == DEFAULT_PARTIAL_REWRITE_ENABLED,
            r.partial_rewrite_max_backspace == DEFAULT_PARTIAL_REWRITE_MAX_BACKSPACE,
            r.partial_rewrite_window_ms == DEFAULT_PARTIAL_REWRITE_WINDOW_MS,
    {
        AppSettings {
            api_key: String::new(),
            language_code: default_language_code(),
            hotkey: default_hotkey(),
            partial_rewrite_enabled: default_partial_rewrite_enabled(),
            partial_rewrite_max_backspace: default_partial_rewrite_max_backspace(),
            partial_rewrite_window_ms: default_partial_rewrite_window_ms(),
        }
    }
}

/// The canonical language code for a user-entered one, already lowercased:
/// English and Chinese spellings collapse to `eng` and `zho`, empty and
/// `auto` fall back to the default, anything else passes through.
pub open spec fn spec_canonical_language(l: Seq<char>) -> Seq<char> {
    if l.len() == 0 {
        "eng"@
    } else if l == "en"@ || l == "eng"@ || l == "english"@ {
        "eng"@
    } else if l == "zh"@ || l == "zh-cn"@ || l == "zh-hans"@ || l == "zh-tw"@ || l == "zh-hant"@
        || l == "cn"@ || l == "chinese"@ || l == "zho"@ {
        "zho"@
    } else if l == "auto"@ {
        "eng"@
    } else {
        l
    }
}

/// Maps a user-entered language code to its canonical form.
pub fn normalize_language_code(language_code: &str) -> (r: String)
    ensures
        r@ == spec_canonical_language(lower_of(spec_trim(language_code@))),
{
    let trimmed = trim_of(language_code);
    let lowered = to_lowercase(trimmed.as_str());
    let l = lowered.as_str();
    if l.unicode_len() == 0 {
        default_language_code()
    } else if str_eq(l, "en") || str_eq(l, "eng") || str_eq(l, "english") {
        String::from_str("eng")
    } else if str_eq(l, "zh") || str_eq(l, "zh-cn") || str_eq(l, "zh-hans") || str_eq(l, "zh-tw")
        || str_eq(l, "zh-hant") || str_eq(l, "cn") || str_eq(l, "chinese") || str_eq(l, "zho") {
        String::from_str("zho")
    } else if str_eq(l, "auto") {
        default_language_code()
    } else {
        lowered
    }
}

/// The hotkey is opaque to the core; its syntax belongs to the host's
/// shortcut binder, so the core accepts any text here.
pub fn validate_hotkey(hotkey: &str) -> (r: Result<(), String>)
    ensures
        r is Ok,
{
    let _ = hotkey;
    Ok(())
}

/// A loaded hotkey: trimmed, or the default when empty.
pub fn normalize_hotkey(hotkey: &str) -> (r: String)
    ensures
        spec_trim(hotkey@).len() == 0 ==> r@ == "Ctrl+N"@,
        spec_trim(hotkey@).len() > 0 ==> r@ == spec_trim(hotkey@),
{
    let trimmed = trim_of(hotkey);
    if trimmed.as_str().unicode_len() == 0 {
        return default_hotkey();
    }
    match validate_hotkey(trimmed.as_str()) {
        Ok(()) => trimmed,
        Err(_) => default_hotkey(),
    }
}

/// A language the streaming service is asked for.
pub open spec fn spec_language_supported(l: Seq<char>) -> bool {
    l == "eng"@ || l == "zho"@
}

/// Brings settings read from disk into range: fields are trimmed and
/// canonicalized, and out-of-range rewrite knobs reset to their defaults.
pub fn normalize_loaded_settings(settings: AppSettings) -> (r: AppSettings)
    ensures
        r.api_key@ == spec_trim(settings.api_key@),
        r.language_code@ == spec_canonical_language(lower_of(spec_trim(settings.language_code@))),
        spec_trim(settings.hotkey@).len() == 0 ==> r.hotkey@ == "Ctrl+N"@,
        spec_trim(settings.hotkey@).len() > 0 ==> r.hotkey@ == spec_trim(settings.hotkey@),
        r.partial_rewrite_enabled == settings.partial_rewrite_enabled,
        r.partial_rewrite_max_backspace == if settings.partial_rewrite_max_backspace
            <= MAX_PARTIAL_REWRITE_MAX_BACKSPACE {
            settings.partial_rewrite_max_backspace
        } else {
            DEFAULT_PARTIAL_REWRITE_MAX_BACKSPACE
        },
        r.partial_rewrite_window_ms == if settings.partial_rewrite_window_ms
            <= MAX_PARTIAL_REWRITE_WINDOW_MS {
            settings.partial_rewrite_window_ms
        } else {
            DEFAULT_PARTIAL_REWRITE_WINDOW_MS
        },
{
    let api_key = trim_of(settings.api_key.as_str());
    let language_code = normalize_language_code(settings.language_code.as_str());
    let hotkey = normalize_hotkey(settings.hotkey.as_str());
    let partial_rewrite_max_backspace = if MIN_PARTIAL_REWRITE_MAX_BACKSPACE
        <= settings.partial_rewrite_max_backspace && settings.partial_rewrite_max_backspace
        <= MAX_PARTIAL_REWRITE_MAX_BACKSPACE {
        settings.partial_rewrite_max_backspace
    } else {
        DEFAULT_PARTIAL_REWRITE_MAX_BACKSPACE
    };
    let partial_rewrite_window_ms = if MIN_PARTIAL_REWRITE_WINDOW_MS
        <= settings.partial_rewrite_window_ms && settings.partial_rewrite_window_ms
        <= MAX_PARTIAL_REWRITE_WINDOW_MS {
        settings.partial_rewrite_window_ms
    } else {
        DEFAULT_PARTIAL_REWRITE_WINDOW_MS
    };
    AppSettings {
        api_key,
        language_code,
        hotkey,
        partial_rewrite_enabled: settings.partial_rewrite_enabled,
        partial_rewrite_max_backspace,
        partial_rewrite_window_ms,
    }
}

/// Checks settings the host wants to save: the language must be one the
/// service supports, the hotkey nonempty, and the rewrite knobs in range.
/// Accepted settings come back trimmed and canonicalized.
pub fn validate_settings(settings: AppSettings) -> (r: Result<AppSettings, String>)
    ensures
        ({
            let lang = spec_canonical_language(lower_of(spec_trim(settings.language_code@)));
            let hotkey = spec_trim(settings.hotkey@);
            match r {
                Ok(v) => {
                    &&& spec_language_supported(lang)
                    &&& hotkey.len() > 0
                    &&& settings.partial_rewrite_max_backspace <= MAX_PARTIAL_REWRITE_MAX_BACKSPACE
                    &&& settings.partial_rewrite_window_ms <= MAX_PARTIAL_REWRITE_WINDOW_MS
                    &&& v.api_key@ == spec_trim(settings.api_key@)
                    &&& v.language_code@ == lang
                    &&& v.hotkey@ == hotkey
                    &&& v.partial_rewrite_enabled == settings.partial_rewrite_enabled
                    &&& v.partial_rewrite_max_backspace == settings.partial_rewrite_max_backspace
                    &&& v.partial_rewrite_window_ms == settings.partial_rewrite_window_ms
                },
                Err(m) => if !spec_language_supported(lang) {
                    m@ == "languageCode must be one of: eng (English), zho (Simplified Chinese)"@
                } else if hotkey.len() == 0 {
                    m@ == "hotkey cannot be empty"@
                } else if settings.partial_rewrite_max_backspace
                    > MAX_PARTIAL_REWRITE_MAX_BACKSPACE {
                    m@ == "partialRewriteMaxBackspace must be between 0 and 64"@
                } else if settings.partial_rewrite_window_ms > MAX_PARTIAL_REWRITE_WINDOW_MS {
                    m@ == "partialRewriteWindowMs must be between 0 and 2000"@
                } else {
                    false
                },
            }
        }),
{
    let api_key = trim_of(settings.api_key.as_str());
    let language_code = normalize_language_code(settings.language_code.as_str());
    if !(str_eq(language_code.as_str(), "eng") || str_eq(language_code.as_str(), "zho")) {
        return Err(
            String::from_str(
                "languageCode must be one of: eng (English), zho (Simplified Chinese)",
            ),
        );
    }
    let hotkey = trim_of(settings.hotkey.as_str());
    if hotkey.as_str().unicode_len() == 0 {
        return Err(String::from_str("hotkey cannot be empty"));
    }
    match validate_hotkey(hotkey.as_str()) {
        Ok(()) => {},
        Err(e) => {
            return Err(e);
        },
    }
    if !(MIN_PARTIAL_REWRITE_MAX_BACKSPACE <= settings.partial_rewrite_max_backspace
        && settings.partial_rewrite_max_backspace <= MAX_PARTIAL_REWRITE_MAX_BACKSPACE) {
        return Err(
            String::from_str("partialRewriteMaxBackspace must be between 0 and 64"),
        );
    }
    if !(MIN_PARTIAL_REWRITE_WINDOW_MS <= settings.partial_rewrite_window_ms
        && settings.partial_rewrite_window_ms <= MAX_PARTIAL_REWRITE_WINDOW_MS) {
        return Err(
            String::from_str("partialRewriteWindowMs must be between 0 and 2000"),
        );
    }
    Ok(
        AppSettings {
            api_key,
            language_code,
            hotkey,
            partial_rewrite_enabled: settings.partial_rewrite_enabled,
            partial_rewrite_max_backspace: settings.partial_rewrite_max_backspace,
            partial_rewrite_window_ms: settings.partial_rewrite_window_ms,
        },
    )
}

} // verus!
