//! Validation of the smaller sections and of single keys.

use crate::config::fault::{
    either, fault_of, first_fault, first_fault_stands_first, invalid, lemma_first_fault,
    lemma_no_fault, ConfigFault,
};
use crate::config::raw::{
    RawCertIntegrityMode, RawFlyDmGreeter, RawMacPolicy, RawMacRuntimeMode, RawRoles,
    RawRolesEnforce, RawTags, RawTagsMode,
};
use crate::config::validated::{
    CertIntegrityMode, FlyDmGreeterSection, Gravity, MacPolicy, MacRuntimeMode, RolesEnforce,
    RolesSection, TagsMode, TagsSection, DEFAULT_ROLES_DIR, DEFAULT_ROLE_SESSION_TTL_SECONDS,
    DEFAULT_TAGS_FILE,
};
use crate::error::Error;
use crate::foreign::{debug_form, debug_text};
use crate::mac::label::IntegrityLabel;
use crate::text::{
    all_hex, ascii_lower, byte_len, cat2, cat3, chars_of, dec, decimal, hex_number, hex_value,
    is_absolute, is_absolute_path, is_all_hex, lemma_hex_number_bound, lemma_pow16, parse_hex, pow16,
    str_eq, to_ascii_lower, utf8_len,
};
use crate::time::Duration;
use vstd::prelude::*;
use vstd::utf8::encode_utf8;

verus! {

/// The value of an optional string, or a default.
pub open spec fn text_or(v: Option<String>, default: Seq<char>) -> Seq<char> {
    match v {
        Some(s) => s@,
        None => default,
    }
}

/// The value of an optional key, or a default.
pub open spec fn value_or<T>(v: Option<T>, default: T) -> T {
    match v {
        Some(x) => x,
        None => default,
    }
}

/// The refusal of a relative path, with the words that name the key.
pub open spec fn relative_fault(path: Seq<char>, what: Seq<char>) -> Option<ConfigFault> {
    if is_absolute_path(path) {
        None
    } else {
        Some(ConfigFault::Invalid(what + " must be absolute (got "@ + path + ")"@))
    }
}

/// Accepts an absolute path.
pub(crate) fn require_absolute(path: &str, what: &str) -> (r: Result<(), Error>)
    ensures
        r is Ok <==> relative_fault(path@, what@) is None,
        r matches Err(e) ==> relative_fault(path@, what@) == Some(fault_of(e)),
{
    if is_absolute(path) {
        Ok(())
    } else {
        Err(invalid(crate::text::cat4(what, " must be absolute (got ", path, ")")))
    }
}

/// The path of an optional key, or a default.
fn path_or(v: &Option<String>, default: &str) -> (r: String)
    ensures
        r@ == text_or(*v, default@),
{
    match v {
        Some(s) => s.clone(),
        None => default.to_owned(),
    }
}

// --- [tags] -----------------------------------------------------------------

/// The mode of a `[tags]` section.
pub open spec fn tags_mode(m: RawTagsMode) -> TagsMode {
    match m {
        RawTagsMode::Standalone => TagsMode::Standalone,
        RawTagsMode::Managed => TagsMode::Managed,
    }
}

/// Why a `[tags]` section is refused: its source is relative.
pub open spec fn tags_fault(raw: RawTags) -> Option<ConfigFault> {
    match raw.source {
        Some(p) => relative_fault(p@, "[tags].source"@),
        None => None,
    }
}

/// The source of the tags: as configured, or by default the tags file, and in managed mode the
/// role-store directory.
pub open spec fn tags_source(raw: RawTags, roles: RawRoles) -> Seq<char> {
    match raw.source {
        Some(p) => p@,
        None => match raw.mode {
            RawTagsMode::Standalone => DEFAULT_TAGS_FILE@,
            RawTagsMode::Managed => text_or(roles.dir, DEFAULT_ROLES_DIR@),
        },
    }
}

/// Validate the `[tags]` section. A section that is absent applies no tags.
pub fn validate_tags(raw: &RawTags, roles: &RawRoles) -> (r: Result<TagsSection, Error>)
    ensures
        r matches Ok(t) ==> tags_fault(*raw) is None && t.enforce == raw.enforce && t.mode
            == tags_mode(raw.mode) && t.source@ == tags_source(*raw, *roles),
        r matches Err(e) ==> tags_fault(*raw) == Some(fault_of(e)),
{
    let mode = match raw.mode {
        RawTagsMode::Standalone => TagsMode::Standalone,
        RawTagsMode::Managed => TagsMode::Managed,
    };
    let source = match &raw.source {
        Some(p) => {
            match require_absolute(p.as_str(), "[tags].source") {
                Ok(()) => p.clone(),
                Err(e) => {
                    return Err(e);
                },
            }
        },
        None => match mode {
            TagsMode::Standalone => DEFAULT_TAGS_FILE.to_owned(),
            TagsMode::Managed => path_or(&roles.dir, DEFAULT_ROLES_DIR),
        },
    };
    Ok(TagsSection { enforce: raw.enforce, mode, source })
}

// --- [roles] ----------------------------------------------------------------

/// The enforcement of a `[roles]` section.
pub open spec fn roles_enforce(e: RawRolesEnforce) -> RolesEnforce {
    match e {
        RawRolesEnforce::False => RolesEnforce::False,
        RawRolesEnforce::Warn => RolesEnforce::Warn,
        RawRolesEnforce::Require => RolesEnforce::Require,
    }
}

/// Why a `[roles]` section is refused: a relative directory, or sessions without a lifetime.
pub open spec fn roles_fault(raw: RawRoles) -> Option<ConfigFault> {
    either(
        match raw.dir {
            Some(p) => relative_fault(p@, "[roles].dir"@),
            None => None,
        },
        if raw.default_session_ttl_seconds == Some(0u64) {
            Some(ConfigFault::Invalid("[roles].default_session_ttl_seconds must be > 0"@))
        } else {
            None
        },
    )
}

/// Validate the `[roles]` section.
pub fn validate_roles(raw: &RawRoles) -> (r: Result<RolesSection, Error>)
    ensures
        r matches Ok(s) ==> roles_fault(*raw) is None && s.enforce == roles_enforce(raw.enforce)
            && s.dir@ == text_or(raw.dir, DEFAULT_ROLES_DIR@) && s.default_session_ttl
            == Duration::of_secs(
            value_or(raw.default_session_ttl_seconds, DEFAULT_ROLE_SESSION_TTL_SECONDS),
        ),
        r matches Err(e) ==> roles_fault(*raw) == Some(fault_of(e)),
{
    let enforce = match raw.enforce {
        RawRolesEnforce::False => RolesEnforce::False,
        RawRolesEnforce::Warn => RolesEnforce::Warn,
        RawRolesEnforce::Require => RolesEnforce::Require,
    };
    if let Some(p) = &raw.dir {
        match require_absolute(p.as_str(), "[roles].dir") {
            Ok(()) => {},
            Err(e) => {
                return Err(e);
            },
        }
    }
    let dir = path_or(&raw.dir, DEFAULT_ROLES_DIR);
    // With a lifetime of zero every session would expire at once.
    let default_session_ttl = match raw.default_session_ttl_seconds {
        Some(secs) => {
            if secs == 0 {
                return Err(
                    invalid("[roles].default_session_ttl_seconds must be > 0".to_owned()),
                );
            }
            Duration::from_secs(secs)
        },
        None => Duration::from_secs(DEFAULT_ROLE_SESSION_TTL_SECONDS),
    };
    Ok(RolesSection { enforce, dir, default_session_ttl })
}

// --- [fly_dm_greeter] -------------------------------------------------------

/// The bytes of a colour `#RRGGBB` or `#RRGGBBAA`; without the last pair it is opaque.
pub open spec fn color_of(s: Seq<char>) -> Option<Seq<u8>> {
    let hex = s.skip(1);
    if s.len() == 0 || s[0] != '#' || !all_hex(hex) {
        None
    } else if hex.len() == 6 {
        Some(seq![hex_pair(hex, 0), hex_pair(hex, 2), hex_pair(hex, 4), 255u8])
    } else if hex.len() == 8 {
        Some(seq![hex_pair(hex, 0), hex_pair(hex, 2), hex_pair(hex, 4), hex_pair(hex, 6)])
    } else {
        None
    }
}

/// The byte that two hexadecimal digits denote.
pub open spec fn hex_pair(hex: Seq<char>, at: int) -> u8 {
    hex_number(hex.subrange(at, at + 2)) as u8
}

fn read_pair(chars: &Vec<char>, at: usize) -> (r: u8)
    requires
        at <= 7,
        at + 2 <= chars@.len(),
        all_hex(chars@.subrange(at as int, at + 2)),
    ensures
        r as nat == hex_number(chars@.subrange(at as int, at + 2)),
{
    proof {
        lemma_hex_number_bound(chars@.subrange(at as int, at + 2));
        lemma_pow16();
    }
    match parse_hex(chars, at, at + 2) {
        Some(v) => v as u8,
        None => 0,
    }
}

/// Parses a colour.
pub fn parse_hex_color(input: &str) -> (r: Option<[u8; 4]>)
    ensures
        r is Some <==> color_of(input@) is Some,
        r matches Some(c) ==> color_of(input@) == Some(c@),
{
    let chars = chars_of(input);
    let n: usize = chars.len();
    let ghost hex = input@.skip(1);
    if n == 0 || chars[0] != '#' {
        return None;
    }
    assert(chars@.subrange(1, n as int) =~= hex);
    if !is_all_hex(&chars, 1, n) {
        return None;
    }
    if n != 7 && n != 9 {
        return None;
    }
    assert(chars@.subrange(1, 3) =~= hex.subrange(0, 2));
    assert(chars@.subrange(3, 5) =~= hex.subrange(2, 4));
    assert(chars@.subrange(5, 7) =~= hex.subrange(4, 6));
    let red: u8 = read_pair(&chars, 1);
    let green: u8 = read_pair(&chars, 3);
    let blue: u8 = read_pair(&chars, 5);
    if n == 7 {
        let c: [u8; 4] = [red, green, blue, 255];
        assert(c@ =~= seq![hex_pair(hex, 0), hex_pair(hex, 2), hex_pair(hex, 4), 255u8]);
        Some(c)
    } else {
        assert(chars@.subrange(7, 9) =~= hex.subrange(6, 8));
        let alpha: u8 = read_pair(&chars, 7);
        let c: [u8; 4] = [red, green, blue, alpha];
        assert(c@ =~= seq![
            hex_pair(hex, 0),
            hex_pair(hex, 2),
            hex_pair(hex, 4),
            hex_pair(hex, 6),
        ]);
        Some(c)
    }
}

/// The anchor that a name selects, whatever its ASCII case.
pub open spec fn gravity_named(s: Seq<char>) -> Option<Gravity> {
    let l = ascii_lower(s);
    if l == "north"@ {
        Some(Gravity::North)
    } else if l == "south"@ {
        Some(Gravity::South)
    } else if l == "east"@ {
        Some(Gravity::East)
    } else if l == "west"@ {
        Some(Gravity::West)
    } else if l == "center"@ || l == "centre"@ {
        Some(Gravity::Center)
    } else {
        None
    }
}

/// Parses an anchor.
pub fn parse_gravity(s: &str) -> (r: Option<Gravity>)
    ensures
        r == gravity_named(s@),
{
    let l = to_ascii_lower(s);
    let l = l.as_str();
    if str_eq(l, "north") {
        Some(Gravity::North)
    } else if str_eq(l, "south") {
        Some(Gravity::South)
    } else if str_eq(l, "east") {
        Some(Gravity::East)
    } else if str_eq(l, "west") {
        Some(Gravity::West)
    } else if str_eq(l, "center") || str_eq(l, "centre") {
        Some(Gravity::Center)
    } else {
        None
    }
}

/// The refusal of a relative path of the greeter section.
pub open spec fn greeter_path_fault(v: Option<String>, field: Seq<char>) -> Option<ConfigFault> {
    match v {
        Some(p) => relative_fault(p@, "fly_dm_greeter."@ + field),
        None => None,
    }
}

/// Why a `[fly_dm_greeter]` section is refused: the first rule that it breaks.
pub open spec fn greeter_fault(raw: Option<RawFlyDmGreeter>) -> Option<ConfigFault> {
    match raw {
        None => None,
        Some(g) => either(
            greeter_path_fault(g.wallpaper_target, "wallpaper_target"@),
            either(
                greeter_path_fault(g.wallpaper_backup, "wallpaper_backup"@),
                either(
                    greeter_path_fault(g.wallpaper_font, "wallpaper_font"@),
                    either(
                        match g.wallpaper_text_color {
                            Some(c) => if color_of(c@) is None {
                                Some(
                                    ConfigFault::Invalid(
                                        "fly_dm_greeter.wallpaper_text_color must be #RRGGBB or #RRGGBBAA (got "@
                                            + debug_form(c@) + ")"@,
                                    ),
                                )
                            } else {
                                None
                            },
                            None => None,
                        },
                        either(
                            match g.wallpaper_gravity {
                                Some(c) => if gravity_named(c@) is None {
                                    Some(
                                        ConfigFault::Invalid(
                                            "fly_dm_greeter.wallpaper_gravity must be one of north|south|east|west|center (got "@
                                                + debug_form(c@) + ")"@,
                                        ),
                                    )
                                } else {
                                    None
                                },
                                None => None,
                            },
                            if g.wallpaper_font_size == Some(0u32) {
                                Some(
                                    ConfigFault::Invalid(
                                        "fly_dm_greeter.wallpaper_font_size must be > 0"@,
                                    ),
                                )
                            } else {
                                None
                            },
                        ),
                    ),
                ),
            ),
        ),
    }
}

/// Whether a greeter section is what validation makes of a raw one: each key as written, or
/// its default.
pub open spec fn greeter_validated(raw: Option<RawFlyDmGreeter>, s: FlyDmGreeterSection) -> bool {
    let g = raw->0;
    let set = raw is Some;
    &&& s.update_wallpaper == (set && g.update_wallpaper == Some(true))
    &&& s.wallpaper_target@ == if set {
        text_or(g.wallpaper_target, "/usr/share/wallpapers/fly-default-light.jpg"@)
    } else {
        "/usr/share/wallpapers/fly-default-light.jpg"@
    }
    &&& s.wallpaper_backup@ == if set {
        text_or(g.wallpaper_backup, "/var/lib/tessera/wallpaper.orig.jpg"@)
    } else {
        "/var/lib/tessera/wallpaper.orig.jpg"@
    }
    &&& s.wallpaper_font@ == if set {
        text_or(g.wallpaper_font, "/usr/share/fonts/truetype/dejavu/DejaVuSans-Bold.ttf"@)
    } else {
        "/usr/share/fonts/truetype/dejavu/DejaVuSans-Bold.ttf"@
    }
    &&& s.wallpaper_font_size == if set {
        value_or(g.wallpaper_font_size, 64u32)
    } else {
        64u32
    }
    &&& if set && g.wallpaper_text_color is Some {
        color_of(g.wallpaper_text_color->0@) == Some(s.wallpaper_text_color@)
    } else {
        s.wallpaper_text_color@ == seq![0u8, 0u8, 0u8, 255u8]
    }
    &&& if set && g.wallpaper_gravity is Some {
        gravity_named(g.wallpaper_gravity->0@) == Some(s.wallpaper_gravity)
    } else {
        s.wallpaper_gravity == Gravity::South
    }
    &&& s.wallpaper_offset_x == if set {
        value_or(g.wallpaper_offset_x, 0i32)
    } else {
        0i32
    }
    &&& s.wallpaper_offset_y == if set {
        value_or(g.wallpaper_offset_y, 120i32)
    } else {
        120i32
    }
    &&& s.template_ru@ == if set {
        text_or(g.template_ru, "Устройство %n  host_id={host_id_short} ({source})"@)
    } else {
        "Устройство %n  host_id={host_id_short} ({source})"@
    }
    &&& s.template_en@ == if set {
        text_or(g.template_en, "Device %n  host_id={host_id_short} ({source})"@)
    } else {
        "Device %n  host_id={host_id_short} ({source})"@
    }
}

fn fly_dm_absolute_path(field: &str, value: &Option<String>, default: String) -> (r: Result<
    String,
    Error,
>)
    ensures
        r matches Ok(p) ==> greeter_path_fault(*value, field@) is None && p@ == text_or(
            *value,
            default@,
        ),
        r matches Err(e) ==> greeter_path_fault(*value, field@) == Some(fault_of(e)),
{
    match value {
        Some(p) => {
            let what = cat2("fly_dm_greeter.", field);
            match require_absolute(p.as_str(), what.as_str()) {
                Ok(()) => Ok(p.clone()),
                Err(e) => Err(e),
            }
        },
        None => Ok(default),
    }
}

/// Validate the `[fly_dm_greeter]` section.
pub fn validate_fly_dm_greeter(raw: Option<&RawFlyDmGreeter>) -> (r: Result<
    FlyDmGreeterSection,
    Error,
>)
    ensures
        r matches Ok(s) ==> greeter_fault(opt_copy(raw)) is None && greeter_validated(
            opt_copy(raw),
            s,
        ),
        r matches Err(e) ==> greeter_fault(opt_copy(raw)) == Some(fault_of(e)),
{
    let defaults = FlyDmGreeterSection::default();
    let raw = match raw {
        Some(g) => g,
        None => {
            return Ok(defaults);
        },
    };
    let wallpaper_target = match fly_dm_absolute_path(
        "wallpaper_target",
        &raw.wallpaper_target,
        defaults.wallpaper_target,
    ) {
        Ok(p) => p,
        Err(e) => {
            return Err(e);
        },
    };
    let wallpaper_backup = match fly_dm_absolute_path(
        "wallpaper_backup",
        &raw.wallpaper_backup,
        defaults.wallpaper_backup,
    ) {
        Ok(p) => p,
        Err(e) => {
            return Err(e);
        },
    };
    let wallpaper_font = match fly_dm_absolute_path(
        "wallpaper_font",
        &raw.wallpaper_font,
        defaults.wallpaper_font,
    ) {
        Ok(p) => p,
        Err(e) => {
            return Err(e);
        },
    };
    let wallpaper_text_color = match &raw.wallpaper_text_color {
        Some(c) => match parse_hex_color(c.as_str()) {
            Some(color) => color,
            None => {
                let shown = debug_text(c.as_str());
                return Err(
                    invalid(
                        cat3(
                            "fly_dm_greeter.wallpaper_text_color must be #RRGGBB or #RRGGBBAA (got ",
                            shown.as_str(),
                            ")",
                        ),
                    ),
                );
            },
        },
        None => defaults.wallpaper_text_color,
    };
    let wallpaper_gravity = match &raw.wallpaper_gravity {
        Some(c) => match parse_gravity(c.as_str()) {
            Some(g) => g,
            None => {
                let shown = debug_text(c.as_str());
                return Err(
                    invalid(
                        cat3(
                            "fly_dm_greeter.wallpaper_gravity must be one of north|south|east|west|center (got ",
                            shown.as_str(),
                            ")",
                        ),
                    ),
                );
            },
        },
        None => defaults.wallpaper_gravity,
    };
    let wallpaper_font_size: u32 = match raw.wallpaper_font_size {
        Some(n) => n,
        None => defaults.wallpaper_font_size,
    };
    if wallpaper_font_size == 0 {
        return Err(invalid("fly_dm_greeter.wallpaper_font_size must be > 0".to_owned()));
    }
    let update_wallpaper: bool = match raw.update_wallpaper {
        Some(b) => b,
        None => defaults.update_wallpaper,
    };
    let wallpaper_offset_x: i32 = match raw.wallpaper_offset_x {
        Some(n) => n,
        None => defaults.wallpaper_offset_x,
    };
    let wallpaper_offset_y: i32 = match raw.wallpaper_offset_y {
        Some(n) => n,
        None => defaults.wallpaper_offset_y,
    };
    let template_ru = path_or(&raw.template_ru, defaults.template_ru.as_str());
    let template_en = path_or(&raw.template_en, defaults.template_en.as_str());
    Ok(
        FlyDmGreeterSection {
            update_wallpaper,
            wallpaper_target,
            wallpaper_backup,
            wallpaper_font,
            wallpaper_font_size,
            wallpaper_text_color,
            wallpaper_gravity,
            wallpaper_offset_x,
            wallpaper_offset_y,
            template_ru,
            template_en,
        },
    )
}

/// The value behind an optional reference.
pub open spec fn opt_copy<T>(v: Option<&T>) -> Option<T> {
    match v {
        Some(x) => Some(*x),
        None => None,
    }
}

// --- [mac] ------------------------------------------------------------------

/// Most hexadecimal digits of a category mask: 64 bits.
pub const MAC_CATEGORIES_HEX_MAX_LEN: usize = 16;

/// The mode of the certificate extension; optional where none is configured.
pub open spec fn cert_integrity_mode(m: Option<RawCertIntegrityMode>) -> CertIntegrityMode {
    match m {
        Some(RawCertIntegrityMode::Required) => CertIntegrityMode::Required,
        Some(RawCertIntegrityMode::Ignore) => CertIntegrityMode::Ignore,
        Some(RawCertIntegrityMode::Optional) => CertIntegrityMode::Optional,
        None => CertIntegrityMode::Optional,
    }
}

/// The runtime selection; automatic where none is configured.
pub open spec fn mac_runtime_mode(m: Option<RawMacRuntimeMode>) -> MacRuntimeMode {
    match m {
        Some(RawMacRuntimeMode::Required) => MacRuntimeMode::Required,
        Some(RawMacRuntimeMode::Disabled) => MacRuntimeMode::Disabled,
        Some(RawMacRuntimeMode::Auto) => MacRuntimeMode::Auto,
        None => MacRuntimeMode::Auto,
    }
}

/// The digits of a hexadecimal number, after an optional plus sign.
pub open spec fn unsigned_digits(s: Seq<char>) -> Seq<char> {
    if s.len() > 1 && s[0] == '+' {
        s.skip(1)
    } else {
        s
    }
}

/// Why a category mask is refused.
pub open spec fn categories_fault(s: Seq<char>) -> Option<ConfigFault> {
    if s.len() == 0 {
        None
    } else if utf8_len(s) > MAC_CATEGORIES_HEX_MAX_LEN {
        Some(
            ConfigFault::Invalid(
                "mac.fallback_max_integrity.categories must be at most 16 hex chars (got "@ + dec(
                    utf8_len(s),
                ) + ")"@,
            ),
        )
    } else if !all_hex(unsigned_digits(s)) {
        Some(
            ConfigFault::Invalid(
                "mac.fallback_max_integrity.categories must be hex: invalid digit found in string"@,
            ),
        )
    } else {
        None
    }
}

/// The value of a category mask; none for the empty text.
pub open spec fn categories_value(s: Seq<char>) -> u64 {
    hex_number(unsigned_digits(s)) as u64
}

/// Why a `[mac]` section is refused. A build without the backend can require nothing of it.
pub open spec fn mac_fault(raw: RawMacPolicy, backend_built: bool) -> Option<ConfigFault> {
    let cert = cert_integrity_mode(raw.cert_integrity);
    let runtime = mac_runtime_mode(raw.runtime);
    if runtime == MacRuntimeMode::Disabled && cert == CertIntegrityMode::Required {
        Some(
            ConfigFault::Invalid(
                "[mac].runtime = \"disabled\" is incompatible with cert_integrity = \"required\" (the stub backend cannot enforce the cert label)"@,
            ),
        )
    } else if !backend_built && cert == CertIntegrityMode::Required {
        Some(
            ConfigFault::Invalid(
                "[mac].cert_integrity = \"required\" but binary built without `astra-mac` feature"@,
            ),
        )
    } else if !backend_built && runtime == MacRuntimeMode::Required {
        Some(
            ConfigFault::Invalid(
                "[mac].runtime = \"required\" but binary built without `astra-mac` feature"@,
            ),
        )
    } else {
        match raw.fallback_max_integrity {
            Some(l) => categories_fault(l.categories@),
            None => None,
        }
    }
}

/// Whether a policy is what validation makes of a raw `[mac]` section.
pub open spec fn mac_validated(raw: RawMacPolicy, p: MacPolicy) -> bool {
    &&& p.cert_integrity == cert_integrity_mode(raw.cert_integrity)
    &&& p.runtime == mac_runtime_mode(raw.runtime)
    &&& p.warn_on_homedir_label_mismatch == value_or(raw.warn_on_homedir_label_mismatch, true)
    &&& p.fallback_max_integrity == match raw.fallback_max_integrity {
        Some(l) => Some(
            IntegrityLabel { level: l.level, categories: categories_value(l.categories@) },
        ),
        None => None,
    }
}

proof fn lemma_utf8_len(s: Seq<char>)
    ensures
        s.len() <= utf8_len(s),
    decreases s.len(),
{
    if s.len() > 0 {
        lemma_utf8_len(s.drop_first());
    }
}

fn parse_categories(s: &str) -> (r: Result<u64, Error>)
    ensures
        r matches Ok(v) ==> categories_fault(s@) is None && v == categories_value(s@),
        r matches Err(e) ==> categories_fault(s@) == Some(fault_of(e)),
{
    let chars = chars_of(s);
    let n: usize = chars.len();
    if n == 0 {
        assert(unsigned_digits(s@) =~= Seq::<char>::empty());
        return Ok(0);
    }
    let bytes: usize = byte_len(s);
    if bytes > MAC_CATEGORIES_HEX_MAX_LEN {
        return Err(
            invalid(
                cat3(
                    "mac.fallback_max_integrity.categories must be at most 16 hex chars (got ",
                    decimal(bytes as u64).as_str(),
                    ")",
                ),
            ),
        );
    }
    proof {
        lemma_utf8_len(s@);
    }
    let from: usize = if n > 1 && chars[0] == '+' {
        1
    } else {
        0
    };
    assert(chars@.subrange(from as int, n as int) =~= unsigned_digits(s@));
    match parse_hex(&chars, from, n) {
        Some(v) => Ok(v),
        None => Err(
            invalid(
                "mac.fallback_max_integrity.categories must be hex: invalid digit found in string".to_owned(),
            ),
        ),
    }
}

/// Validate the `[mac]` section; `backend_built` says whether the enforcing backend is part of
/// the build.
pub fn validate_mac(raw: &RawMacPolicy, backend_built: bool) -> (r: Result<MacPolicy, Error>)
    ensures
        r matches Ok(p) ==> mac_fault(*raw, backend_built) is None && mac_validated(*raw, p),
        r matches Err(e) ==> mac_fault(*raw, backend_built) == Some(fault_of(e)),
{
    let cert_integrity = match raw.cert_integrity {
        Some(RawCertIntegrityMode::Required) => CertIntegrityMode::Required,
        Some(RawCertIntegrityMode::Ignore) => CertIntegrityMode::Ignore,
        Some(RawCertIntegrityMode::Optional) => CertIntegrityMode::Optional,
        None => CertIntegrityMode::Optional,
    };
    let runtime = match raw.runtime {
        Some(RawMacRuntimeMode::Required) => MacRuntimeMode::Required,
        Some(RawMacRuntimeMode::Disabled) => MacRuntimeMode::Disabled,
        Some(RawMacRuntimeMode::Auto) => MacRuntimeMode::Auto,
        None => MacRuntimeMode::Auto,
    };
    // The clearer of two refusals comes first.
    if matches!(runtime, MacRuntimeMode::Disabled) && matches!(
        cert_integrity,
        CertIntegrityMode::Required
    ) {
        return Err(
            invalid(
                "[mac].runtime = \"disabled\" is incompatible with cert_integrity = \"required\" (the stub backend cannot enforce the cert label)".to_owned(),
            ),
        );
    }
    if !backend_built && matches!(cert_integrity, CertIntegrityMode::Required) {
        return Err(
            invalid(
                "[mac].cert_integrity = \"required\" but binary built without `astra-mac` feature".to_owned(),
            ),
        );
    }
    if !backend_built && matches!(runtime, MacRuntimeMode::Required) {
        return Err(
            invalid(
                "[mac].runtime = \"required\" but binary built without `astra-mac` feature".to_owned(),
            ),
        );
    }
    let fallback_max_integrity = match &raw.fallback_max_integrity {
        Some(l) => match parse_categories(l.categories.as_str()) {
            Ok(categories) => Some(IntegrityLabel { level: l.level, categories }),
            Err(e) => {
                return Err(e);
            },
        },
        None => None,
    };
    let warn_on_homedir_label_mismatch: bool = match raw.warn_on_homedir_label_mismatch {
        Some(b) => b,
        None => true,
    };
    Ok(MacPolicy { cert_integrity, fallback_max_integrity, warn_on_homedir_label_mismatch, runtime })
}

// --- USB keys ---------------------------------------------------------------

/// Longest wait for a USB stick, in seconds.
pub const USB_WAIT_SECONDS_MAX: u64 = 300;

/// Partitions inspected where the key is absent.
pub const DEFAULT_MAX_USB_PARTITIONS: u32 = 8;

/// Most partitions inspected.
pub const MAX_USB_PARTITIONS_HARD_CAP: u32 = 64;

/// Why `usb_wait_seconds` is refused.
pub open spec fn usb_wait_fault(raw: u64) -> Option<ConfigFault> {
    if raw > USB_WAIT_SECONDS_MAX {
        Some(
            ConfigFault::Invalid(
                "usb_wait_seconds must be in 0..=300 (got "@ + dec(raw as nat) + ")"@,
            ),
        )
    } else {
        None
    }
}

/// Validate `usb_wait_seconds`; zero means no wait.
pub fn validate_usb_wait_seconds(raw: u64) -> (r: Result<Duration, Error>)
    ensures
        r matches Ok(d) ==> usb_wait_fault(raw) is None && d == Duration::of_secs(raw),
        r matches Err(e) ==> usb_wait_fault(raw) == Some(fault_of(e)),
{
    if raw > USB_WAIT_SECONDS_MAX {
        return Err(
            invalid(
                cat3("usb_wait_seconds must be in 0..=300 (got ", decimal(raw).as_str(), ")"),
            ),
        );
    }
    Ok(Duration::from_secs(raw))
}

/// Whether an entry is `vid:pid`, four hexadecimal digits on each side.
pub open spec fn is_vid_pid(s: Seq<char>) -> bool {
    s.len() == 9 && s[4] == ':' && all_hex(s.subrange(0, 4)) && all_hex(s.subrange(5, 9))
}

/// The vendor and product of an entry.
pub open spec fn vid_pid(s: Seq<char>) -> (u16, u16) {
    (hex_number(s.subrange(0, 4)) as u16, hex_number(s.subrange(5, 9)) as u16)
}

/// Why an entry of `usb_allowed_devices` is refused.
pub open spec fn vid_pid_fault(s: Seq<char>) -> Option<ConfigFault> {
    if is_vid_pid(s) {
        None
    } else {
        Some(
            ConfigFault::Invalid(
                "usb_allowed_devices entries must be \"vid:pid\": 4 hex digits on each side, colon-separated, no spaces (e.g. \"0951:1666\", as in lsusb output) (got "@
                    + debug_form(s) + ")"@,
            ),
        )
    }
}

/// Parse one `vid:pid` entry.
pub fn parse_vid_pid_entry(entry: &str) -> (r: Result<(u16, u16), Error>)
    ensures
        r matches Ok(p) ==> vid_pid_fault(entry@) is None && p == vid_pid(entry@),
        r matches Err(e) ==> vid_pid_fault(entry@) == Some(fault_of(e)),
{
    let chars = chars_of(entry);
    if chars.len() == 9 && chars[4] == ':' {
        proof {
            lemma_hex_number_bound(chars@.subrange(0, 4));
            lemma_hex_number_bound(chars@.subrange(5, 9));
            lemma_pow16();
        }
        match (parse_hex(&chars, 0, 4), parse_hex(&chars, 5, 9)) {
            (Some(vid), Some(pid)) => {
                return Ok((vid as u16, pid as u16));
            },
            _ => {},
        }
    }
    let shown = debug_text(entry);
    Err(
        invalid(
            cat3(
                "usb_allowed_devices entries must be \"vid:pid\": 4 hex digits on each side, colon-separated, no spaces (e.g. \"0951:1666\", as in lsusb output) (got ",
                shown.as_str(),
                ")",
            ),
        ),
    )
}

/// Why `usb_allowed_devices` is refused: its first faulty entry.
pub open spec fn usb_devices_fault(raw: Seq<String>) -> Option<ConfigFault> {
    first_fault(raw.len(), |i: int| vid_pid_fault(raw[i]@))
}

/// Parse and validate the USB allow-list. The empty list means no filter.
pub fn validate_usb_allowed_devices(raw: &Vec<String>) -> (r: Result<Vec<(u16, u16)>, Error>)
    ensures
        r matches Ok(v) ==> usb_devices_fault(raw@) is None && v@.len() == raw@.len() && forall|
            i: int,
        |
            0 <= i < v@.len() ==> #[trigger] v@[i] == vid_pid(raw@[i]@),
        r matches Err(e) ==> usb_devices_fault(raw@) == Some(fault_of(e)),
{
    let ghost at = |i: int| vid_pid_fault(raw@[i]@);
    let mut out: Vec<(u16, u16)> = Vec::new();
    let mut i: usize = 0;
    while i < raw.len()
        invariant
            i <= raw@.len(),
            at == (|i: int| vid_pid_fault(raw@[i]@)),
            first_fault(i as nat, at) is None,
            out@.len() == i,
            forall|k: int| 0 <= k < i ==> #[trigger] out@[k] == vid_pid(raw@[k]@),
        decreases raw@.len() - i,
    {
        proof {
            if first_fault((i + 1) as nat, at) is Some {
                lemma_first_fault(raw@.len(), (i + 1) as nat, at);
            }
        }
        match parse_vid_pid_entry(raw[i].as_str()) {
            Ok(p) => {
                out.push(p);
            },
            Err(e) => {
                return Err(e);
            },
        }
        i = i + 1;
    }
    Ok(out)
}

/// Why `max_usb_partitions` is refused.
pub open spec fn max_partitions_fault(raw: Option<u32>) -> Option<ConfigFault> {
    let v = value_or(raw, DEFAULT_MAX_USB_PARTITIONS);
    if v == 0 {
        Some(ConfigFault::Invalid("max_usb_partitions must be >= 1"@))
    } else if v > MAX_USB_PARTITIONS_HARD_CAP {
        Some(
            ConfigFault::Invalid(
                "max_usb_partitions must be <= 64 (got "@ + dec(v as nat) + ")"@,
            ),
        )
    } else {
        None
    }
}

/// Validate `max_usb_partitions`.
pub fn validate_max_usb_partitions(raw: Option<u32>) -> (r: Result<u32, Error>)
    ensures
        r matches Ok(v) ==> max_partitions_fault(raw) is None && v == value_or(
            raw,
            DEFAULT_MAX_USB_PARTITIONS,
        ),
        r matches Err(e) ==> max_partitions_fault(raw) == Some(fault_of(e)),
{
    let v: u32 = match raw {
        Some(v) => v,
        None => DEFAULT_MAX_USB_PARTITIONS,
    };
    if v == 0 {
        return Err(invalid("max_usb_partitions must be >= 1".to_owned()));
    }
    if v > MAX_USB_PARTITIONS_HARD_CAP {
        return Err(
            invalid(cat3("max_usb_partitions must be <= 64 (got ", decimal(v as u64).as_str(), ")")),
        );
    }
    Ok(v)
}

/// Where the tags come from: the configured file, which is absolute; else the file of tags, or the
/// role base where a manifest carries them.
pub proof fn tags_come_from_their_source(raw: RawTags, roles: RawRoles)
    ensures
        tags_fault(raw) is None <==> (raw.source matches Some(p) ==> p@.len() > 0 && p@[0] == '/'),
        raw.source matches Some(p) ==> tags_source(raw, roles) == p@,
        raw.source is None && raw.mode == RawTagsMode::Standalone ==> tags_source(raw, roles)
            == "/var/lib/tessera/tags.toml"@,
        raw.source is None && raw.mode == RawTagsMode::Managed ==> tags_source(raw, roles)
            == match roles.dir {
            Some(d) => d@,
            None => "/var/lib/tessera/roles"@,
        },
        tags_mode(raw.mode) == TagsMode::Managed <==> raw.mode == RawTagsMode::Managed,
{
}

/// What a `[roles]` section may say: an absolute directory, and a time to live that is not zero,
/// twelve hours where none is set.
pub proof fn accepted_roles(raw: RawRoles)
    ensures
        roles_fault(raw) is None <==> (raw.dir matches Some(p) ==> p@.len() > 0 && p@[0] == '/')
            && raw.default_session_ttl_seconds != Some(0u64),
        roles_enforce(raw.enforce) == RolesEnforce::Require <==> raw.enforce
            == RawRolesEnforce::Require,
        roles_enforce(raw.enforce) == RolesEnforce::Warn <==> raw.enforce == RawRolesEnforce::Warn,
        roles_enforce(raw.enforce) == RolesEnforce::False <==> raw.enforce
            == RawRolesEnforce::False,
        value_or(None::<u64>, DEFAULT_ROLE_SESSION_TTL_SECONDS) == 12 * 3600,
{
}

/// A colour is a hash sign with six or eight hexadecimal digits: red, green, blue and how opaque it
/// is, which is fully where that is left out.
pub proof fn colours_are_read_by_pairs(s: Seq<char>)
    ensures
        color_of(s) is Some <==> (s.len() == 7 || s.len() == 9) && s[0] == '#' && forall|i: int|
            1 <= i < s.len() ==> hex_value(#[trigger] s[i]) is Some,
        color_of(s) is Some ==> {
            let c = color_of(s)->0;
            &&& c.len() == 4
            &&& c[0] == hex_value(s[1])->0 * 16 + hex_value(s[2])->0
            &&& c[1] == hex_value(s[3])->0 * 16 + hex_value(s[4])->0
            &&& c[2] == hex_value(s[5])->0 * 16 + hex_value(s[6])->0
            &&& s.len() == 7 ==> c[3] == 255
            &&& s.len() == 9 ==> c[3] == hex_value(s[7])->0 * 16 + hex_value(s[8])->0
        },
{
    let hex = s.skip(1);
    if s.len() > 0 {
        assert forall|i: int| 1 <= i < s.len() && all_hex(hex) implies hex_value(
            #[trigger] s[i],
        ) is Some by {
            assert(hex_value(hex[i - 1]) is Some);
        }
        if forall|i: int| 1 <= i < s.len() ==> hex_value(#[trigger] s[i]) is Some {
            assert forall|i: int| 0 <= i < hex.len() implies hex_value(#[trigger] hex[i]) is Some by {
                assert(hex_value(s[i + 1]) is Some);
            }
        }
    }
    if color_of(s) is Some {
        lemma_pair(s, 0);
        lemma_pair(s, 2);
        lemma_pair(s, 4);
        if s.len() == 9 {
            lemma_pair(s, 6);
        }
    }
}

proof fn lemma_pair(s: Seq<char>, at: int)
    requires
        s.len() > 0,
        all_hex(s.skip(1)),
        0 <= at,
        at + 2 <= s.len() - 1,
    ensures
        hex_pair(s.skip(1), at) == hex_value(s[at + 1])->0 * 16 + hex_value(s[at + 2])->0,
{
    let hex = s.skip(1);
    let p = hex.subrange(at, at + 2);
    assert(hex_value(hex[at]) is Some);
    assert(hex_value(hex[at + 1]) is Some);
    assert(p.last() == s[at + 2]);
    assert(p.drop_last().last() == s[at + 1]);
    assert(p.drop_last().drop_last() =~= Seq::<char>::empty());
    reveal_with_fuel(hex_number, 3);
    lemma_hex_number_bound(p);
    lemma_pow16();
}

/// The places of the text, by their names in any case.
pub proof fn gravities_go_by_their_names(s: Seq<char>)
    ensures
        ascii_lower(s) == "north"@ ==> gravity_named(s) == Some(Gravity::North),
        ascii_lower(s) == "south"@ ==> gravity_named(s) == Some(Gravity::South),
        ascii_lower(s) == "east"@ ==> gravity_named(s) == Some(Gravity::East),
        ascii_lower(s) == "west"@ ==> gravity_named(s) == Some(Gravity::West),
        ascii_lower(s) == "center"@ || ascii_lower(s) == "centre"@ ==> gravity_named(s) == Some(
            Gravity::Center,
        ),
        gravity_named(s) is Some ==> ascii_lower(s) == "north"@ || ascii_lower(s) == "south"@
            || ascii_lower(s) == "east"@ || ascii_lower(s) == "west"@ || ascii_lower(s)
            == "center"@ || ascii_lower(s) == "centre"@,
{
    reveal_strlit("center");
    reveal_strlit("centre");
    reveal_strlit("east");
    reveal_strlit("north");
    reveal_strlit("south");
    reveal_strlit("west");
    assert("center"@.len() == 6);
    assert("centre"@.len() == 6);
    assert("east"@.len() == 4);
    assert("north"@.len() == 5);
    assert("south"@.len() == 5);
    assert("west"@.len() == 4);
    assert("center"@[4] == 'e');
    assert("centre"@[4] == 'r');
    assert("east"@[0] == 'e');
    assert("west"@[0] == 'w');
    assert("north"@[0] == 'n');
    assert("south"@[0] == 's');
}

/// What a `[fly_dm_greeter]` section may say: absolute paths, a colour, a place, and a size that is
/// not zero.
pub proof fn accepted_greeter(g: RawFlyDmGreeter)
    ensures
        greeter_fault(None) is None,
        greeter_fault(Some(g)) is None <==> {
            &&& g.wallpaper_target matches Some(p) ==> p@.len() > 0 && p@[0] == '/'
            &&& g.wallpaper_backup matches Some(p) ==> p@.len() > 0 && p@[0] == '/'
            &&& g.wallpaper_font matches Some(p) ==> p@.len() > 0 && p@[0] == '/'
            &&& g.wallpaper_text_color matches Some(c) ==> color_of(c@) is Some
            &&& g.wallpaper_gravity matches Some(c) ==> gravity_named(c@) is Some
            &&& g.wallpaper_font_size != Some(0u32)
        },
{
}

/// What a `[fly_dm_greeter]` section becomes: each key as it is set.
pub proof fn greeter_keys_are_carried_over(g: RawFlyDmGreeter, s: FlyDmGreeterSection)
    requires
        greeter_validated(Some(g), s),
    ensures
        s.update_wallpaper == (g.update_wallpaper == Some(true)),
        g.wallpaper_target matches Some(p) ==> s.wallpaper_target@ == p@,
        g.wallpaper_backup matches Some(p) ==> s.wallpaper_backup@ == p@,
        g.wallpaper_font matches Some(p) ==> s.wallpaper_font@ == p@,
        g.wallpaper_font_size matches Some(n) ==> s.wallpaper_font_size == n,
        g.wallpaper_font_size is None ==> s.wallpaper_font_size == 64,
        g.wallpaper_text_color matches Some(c) ==> color_of(c@) == Some(s.wallpaper_text_color@),
        g.wallpaper_gravity matches Some(c) ==> gravity_named(c@) == Some(s.wallpaper_gravity),
        g.wallpaper_gravity is None ==> s.wallpaper_gravity == Gravity::South,
        g.wallpaper_offset_x matches Some(n) ==> s.wallpaper_offset_x == n,
        g.wallpaper_offset_y matches Some(n) ==> s.wallpaper_offset_y == n,
        g.wallpaper_offset_x is None ==> s.wallpaper_offset_x == 0,
        g.wallpaper_offset_y is None ==> s.wallpaper_offset_y == 120,
        g.template_ru matches Some(t) ==> s.template_ru@ == t@,
        g.template_en matches Some(t) ==> s.template_en@ == t@,
{
}

/// What a `[mac]` section may say: what is required must be built in and not switched off, and the
/// categories of the fallback are at most sixteen hexadecimal digits.
pub proof fn accepted_mac_policy(raw: RawMacPolicy, built: bool)
    ensures
        mac_fault(raw, built) is None <==> {
            &&& raw.cert_integrity == Some(RawCertIntegrityMode::Required) ==> built && raw.runtime
                != Some(RawMacRuntimeMode::Disabled)
            &&& raw.runtime == Some(RawMacRuntimeMode::Required) ==> built
            &&& raw.fallback_max_integrity matches Some(l) ==> categories_fault(l.categories@)
                is None
        },
{
}

/// What a `[mac]` section becomes: each mode as it is set, `optional` and `auto` where not; the
/// check of the home directory unless it is switched off; and the fallback with its level and its
/// categories.
pub proof fn mac_keys_are_carried_over(raw: RawMacPolicy, p: MacPolicy)
    requires
        mac_validated(raw, p),
    ensures
        p.cert_integrity == CertIntegrityMode::Required <==> raw.cert_integrity == Some(
            RawCertIntegrityMode::Required,
        ),
        p.cert_integrity == CertIntegrityMode::Ignore <==> raw.cert_integrity == Some(
            RawCertIntegrityMode::Ignore,
        ),
        p.runtime == MacRuntimeMode::Required <==> raw.runtime == Some(RawMacRuntimeMode::Required),
        p.runtime == MacRuntimeMode::Disabled <==> raw.runtime == Some(RawMacRuntimeMode::Disabled),
        p.warn_on_homedir_label_mismatch <==> raw.warn_on_homedir_label_mismatch != Some(false),
        p.fallback_max_integrity is Some <==> raw.fallback_max_integrity is Some,
        raw.fallback_max_integrity matches Some(l) ==> p.fallback_max_integrity->0.level == l.level
            && (l.categories@.len() == 0 ==> p.fallback_max_integrity->0.categories == 0),
        raw.fallback_max_integrity matches Some(l) ==> (l.categories@.len() > 0 && l.categories@[0]
            != '+' && categories_fault(l.categories@) is None
            ==> p.fallback_max_integrity->0.categories == hex_number(l.categories@)),
{
    if let Some(l) = raw.fallback_max_integrity {
        let s = l.categories@;
        if s.len() > 0 && s[0] != '+' && categories_fault(s) is None {
            lemma_utf8_len(s);
            lemma_hex_number_bound(s);
            lemma_pow16();
            lemma_pow16_up_to(s.len());
        }
        assert(s.len() == 0 ==> unsigned_digits(s) =~= s);
    }
}

proof fn lemma_pow16_up_to(n: nat)
    requires
        n <= 16,
    ensures
        pow16(n) <= pow16(16),
    decreases 16 - n,
{
    if n < 16 {
        lemma_pow16_up_to(n + 1);
    }
}

/// The categories of the fallback: none, or hexadecimal digits, sixteen at most.
pub proof fn categories_are_hexadecimal(s: Seq<char>)
    ensures
        s.len() == 0 ==> categories_fault(s) is None,
        s.len() > 0 && s[0] != '+' ==> (categories_fault(s) is None <==> encode_utf8(s).len() <= 16
            && forall|i: int| 0 <= i < s.len() ==> hex_value(#[trigger] s[i]) is Some),
{
}

/// A device is four hexadecimal digits, a colon and four more, and stands for the two numbers.
pub proof fn devices_are_two_numbers(s: Seq<char>)
    ensures
        vid_pid_fault(s) is None <==> s.len() == 9 && s[4] == ':' && forall|i: int|
            0 <= i < 9 && i != 4 ==> hex_value(#[trigger] s[i]) is Some,
        vid_pid_fault(s) is None ==> vid_pid(s).0 == hex_number(s.take(4)) && vid_pid(s).1
            == hex_number(s.skip(5)),
{
    if s.len() == 9 {
        let a = s.subrange(0, 4);
        let b = s.subrange(5, 9);
        assert(a =~= s.take(4));
        assert(b =~= s.skip(5));
        if all_hex(a) && all_hex(b) {
            assert forall|i: int| 0 <= i < 9 && i != 4 implies hex_value(#[trigger] s[i]) is Some by {
                if i < 4 {
                    assert(hex_value(a[i]) is Some);
                } else {
                    assert(hex_value(b[i - 5]) is Some);
                }
            }
            lemma_hex_number_bound(a);
            lemma_hex_number_bound(b);
            lemma_pow16();
        }
        if forall|i: int| 0 <= i < 9 && i != 4 ==> hex_value(#[trigger] s[i]) is Some {
            assert forall|i: int| 0 <= i < a.len() implies hex_value(#[trigger] a[i]) is Some by {
                assert(hex_value(s[i]) is Some);
            }
            assert forall|i: int| 0 <= i < b.len() implies hex_value(#[trigger] b[i]) is Some by {
                assert(hex_value(s[i + 5]) is Some);
            }
        }
    }
}

/// Every listed device must be one: the first that is not is the fault.
pub proof fn every_device_is_checked(raw: Seq<String>, i: int)
    requires
        0 <= i < raw.len(),
    ensures
        usb_devices_fault(raw) is None ==> vid_pid_fault(raw[i]@) is None,
        (vid_pid_fault(raw[i]@) is Some && forall|j: int|
            0 <= j < i ==> vid_pid_fault((#[trigger] raw[j])@) is None) ==> usb_devices_fault(raw)
            == vid_pid_fault(raw[i]@),
{
    let at = |j: int| vid_pid_fault(raw[j]@);
    if usb_devices_fault(raw) is None {
        lemma_no_fault(raw.len(), i, at);
    }
    if vid_pid_fault(raw[i]@) is Some && forall|j: int|
        0 <= j < i ==> vid_pid_fault((#[trigger] raw[j])@) is None {
        first_fault_stands_first(raw.len(), i, at);
    }
}

/// At most five minutes are waited for a device, and one to 64 partitions are looked at, eight where
/// nothing is set.
pub proof fn usb_limits(wait: u64, partitions: Option<u32>)
    ensures
        usb_wait_fault(wait) is None <==> wait <= 300,
        max_partitions_fault(partitions) is None <==> (partitions matches Some(n) ==> 1 <= n <= 64),
        value_or(None::<u32>, DEFAULT_MAX_USB_PARTITIONS) == 8,
{
}

} // verus!
