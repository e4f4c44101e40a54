//! The Waydroid configuration section and its defaults.
use vstd::prelude::*;

use crate::datetime::{parsed_i64, UpdateDatetime};

verus! {

#[verifier::external_type_specification]
#[verifier::external_body]
pub struct ExProperties(ini::Properties);

/// The first value of each key of a section of an INI file.
pub uninterp spec fn properties_map(p: ini::Properties) -> Map<Seq<char>, Seq<char>>;

/// Relies on `ini::Properties::new`: a section with no key.
#[verifier::external_body]
fn properties_new() -> (r: ini::Properties)
    ensures
        properties_map(r) =~= Map::empty(),
{
    ini::Properties::new()
}

/// Relies on `ini::Properties::contains_key`: whether the key has a value.
#[verifier::external_body]
fn properties_contains(p: &ini::Properties, key: &str) -> (r: bool)
    ensures
        r == properties_map(*p).contains_key(key@),
{
    p.contains_key(key)
}

/// Relies on `ini::Properties::get`: the first value of the key.
#[verifier::external_body]
fn properties_get(p: &ini::Properties, key: &str) -> (r: Option<String>)
    ensures
        match r {
            Some(v) => properties_map(*p).contains_key(key@) && properties_map(*p)[key@] == v@,
            None => !properties_map(*p).contains_key(key@),
        },
{
    p.get(key).map(|v| v.to_string())
}

/// Relies on `ini::Properties::insert`: every earlier value of the key is
/// replaced by the one given.
#[verifier::external_body]
fn properties_insert(p: &mut ini::Properties, key: &str, value: &str)
    ensures
        properties_map(*final(p)) == properties_map(*old(p)).insert(key@, value@),
{
    p.insert(key, value)
}

/// The directory that holds the images when the configuration names none.
pub const DEFAULT_IMAGES_PATH: &'static str = "/var/lib/waydroid/images";

/// The first of the two directories where images come preinstalled.
pub const PREINSTALLED_ETC_PATH: &'static str = "/etc/waydroid-extra/images";

/// The second of the two directories where images come preinstalled.
pub const PREINSTALLED_USR_PATH: &'static str = "/usr/share/waydroid-extra/images";

/// The value that each recognised key takes when the section lacks it.
pub open spec fn defaults() -> Map<Seq<char>, Seq<char>> {
    map![
        "images_path"@ => DEFAULT_IMAGES_PATH@,
        "system_datetime"@ => "0"@,
        "vendor_datetime"@ => "0"@,
    ]
}

/// The section with every recognised key that it lacks set to its default.
pub open spec fn with_defaults(section: Map<Seq<char>, Seq<char>>) -> Map<Seq<char>, Seq<char>> {
    defaults().union_prefer_right(section)
}

/// Sets `key` to `value` unless the section already has it.
fn fill_default(section: &mut ini::Properties, key: &str, value: &str)
    ensures
        properties_map(*final(section)) == if properties_map(*old(section)).contains_key(key@) {
            properties_map(*old(section))
        } else {
            properties_map(*old(section)).insert(key@, value@)
        },
{
    if !properties_contains(section, key) {
        properties_insert(section, key, value);
    }
}

/// The `waydroid` section of the configuration file, as found there (`None`
/// where the file or the section could not be had), with the defaults filled
/// in for `images_path`, `system_datetime` and `vendor_datetime`.
pub fn load(found: Option<ini::Properties>) -> (r: ini::Properties)
    ensures
        properties_map(r) == with_defaults(
            match found {
                Some(p) => properties_map(p),
                None => Map::empty(),
            },
        ),
{
    let mut section = match found {
        Some(p) => p,
        None => properties_new(),
    };
    let ghost base = properties_map(section);
    fill_default(&mut section, "images_path", DEFAULT_IMAGES_PATH);
    fill_default(&mut section, "system_datetime", "0");
    fill_default(&mut section, "vendor_datetime", "0");
    proof {
        reveal_strlit("images_path");
        reveal_strlit("system_datetime");
        reveal_strlit("vendor_datetime");
        assert("images_path"@.len() != "system_datetime"@.len());
        assert("images_path"@.len() != "vendor_datetime"@.len());
        assert("system_datetime"@[0] != "vendor_datetime"@[0]);
    }
    assert(properties_map(section) =~= with_defaults(base));
    section
}

/// An empty section comes out of loading with the images under
/// `/var/lib/waydroid/images` and both image timestamps at `0`.
pub proof fn empty_section_gets_defaults()
    ensures
        with_defaults(Map::empty()) =~= map![
            "images_path"@ => "/var/lib/waydroid/images"@,
            "system_datetime"@ => "0"@,
            "vendor_datetime"@ => "0"@,
        ],
{
}

/// The path names one of the directories of preinstalled images.
pub open spec fn is_preinstalled_path(path: Seq<char>) -> bool {
    path == PREINSTALLED_ETC_PATH@ || path == PREINSTALLED_USR_PATH@
}

/// Whether the images live in a directory of preinstalled images, which
/// cannot be upgraded in place.
pub fn is_preinstalled(path: &str) -> (r: bool)
    ensures
        r == is_preinstalled_path(path@),
{
    let p = path.to_owned();
    let etc = PREINSTALLED_ETC_PATH.to_owned();
    let usr = PREINSTALLED_USR_PATH.to_owned();
    p == etc || p == usr
}

/// Whether the configured `images_path` is a directory of preinstalled
/// images; `false` where the section has no `images_path`.
pub fn uses_preinstalled_images(config: &ini::Properties) -> (r: bool)
    ensures
        r == (properties_map(*config).contains_key("images_path"@) && is_preinstalled_path(
            properties_map(*config)["images_path"@],
        )),
{
    match properties_get(config, "images_path") {
        Some(path) => is_preinstalled(path.as_str()),
        None => false,
    }
}

/// Why a recorded image timestamp could not be read.
#[derive(Debug, Clone, Copy, PartialEq, Eq, Structural)]
pub enum LocalDatetimeError {
    /// The section has no such key.
    Missing,
    /// The value is not a decimal integer that fits in 64 bits.
    Invalid,
}

/// The recorded timestamp under `key`, such as `system_datetime`.
pub fn local_datetime(config: &ini::Properties, key: &str) -> (r: Result<
    UpdateDatetime,
    LocalDatetimeError,
>)
    ensures
        !properties_map(*config).contains_key(key@) <==> r == Err::<
            UpdateDatetime,
            LocalDatetimeError,
        >(LocalDatetimeError::Missing),
        properties_map(*config).contains_key(key@) ==> match parsed_i64(
            properties_map(*config)[key@],
        ) {
            Some(v) => r matches Ok(d) && d.epoch_spec() == v,
            None => r == Err::<UpdateDatetime, LocalDatetimeError>(LocalDatetimeError::Invalid),
        },
{
    match properties_get(config, key) {
        Some(v) => match UpdateDatetime::from_str(v.as_str()) {
            Ok(d) => Ok(d),
            Err(_) => Err(LocalDatetimeError::Invalid),
        },
        None => Err(LocalDatetimeError::Missing),
    }
}

} // verus!
