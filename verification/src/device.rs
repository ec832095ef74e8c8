//! How this device presents itself.

use vstd::prelude::*;
use vstd::string::*;

use crate::commands;
use crate::credentials;
use crate::ids;
use crate::json;
use crate::json::{Json, JsonView, ObjectBuilder};
use crate::protocol::{
    AUDIO_QUALITY_HIRES_LEVEL2, AUDIO_QUALITY_MP3, VOLUME_REMOTE_CONTROL_ALLOWED,
};
use crate::text;

verus! {

// ---------------------------------------------------------------------------
// Its name
// ---------------------------------------------------------------------------

/// What a text says, when it is given and not blank.
pub open spec fn given(value: Option<Seq<char>>) -> Option<Seq<char>> {
    match value {
        Some(text) => credentials::said_in(text),
        None => None,
    }
}

/// The name of the host: the one that the environment says, or the one in the
/// system's file.
pub open spec fn host_name(environment: Option<Seq<char>>, file: Option<Seq<char>>) -> Option<
    Seq<char>,
> {
    match environment {
        Some(hostname) if text::trimmed(hostname).len() > 0 => Some(hostname),
        _ => given(file),
    }
}

/// The name of this device: the one that was chosen, or one that says the host.
pub open spec fn device_name(
    explicit: Option<Seq<char>>,
    environment: Option<Seq<char>>,
    file: Option<Seq<char>>,
) -> Seq<char> {
    match given(explicit) {
        Some(name) => name,
        None => match host_name(environment, file) {
            Some(hostname) => "qconnect-cli ("@ + hostname + ")"@,
            None => "qconnect-cli"@,
        },
    }
}

pub open spec fn str_view(value: Option<&str>) -> Option<Seq<char>> {
    match value {
        Some(text) => Some(text@),
        None => None,
    }
}

fn given_text(value: Option<&str>) -> (r: Option<String>)
    ensures
        commands::setting_view(r) == given(str_view(value)),
{
    match value {
        Some(text) => credentials::said_text(text),
        None => None,
    }
}

/// Chooses the name of this device.
pub fn resolve_device_name(
    explicit: Option<&str>,
    environment: Option<&str>,
    file: Option<&str>,
) -> (r: String)
    ensures
        r@ == device_name(str_view(explicit), str_view(environment), str_view(file)),
{
    if let Some(name) = given_text(explicit) {
        return name;
    }
    let host = match environment {
        Some(hostname) => if hostname.trim().is_empty() {
            given_text(file)
        } else {
            Some(hostname.to_owned())
        },
        None => given_text(file),
    };
    match host {
        Some(hostname) => {
            let mut full = "qconnect-cli (".to_owned();
            full.append(hostname.as_str());
            full.append(")");
            full
        },
        None => "qconnect-cli".to_owned(),
    }
}

// ---------------------------------------------------------------------------
// Its identifier
// ---------------------------------------------------------------------------

/// The identifier of this device.
#[derive(Debug, PartialEq, Eq)]
pub enum DeviceUuid {
    /// It was chosen or found.
    Known(String),
    /// It is new and is to be kept.
    Fresh(String),
}

/// The identifier that was chosen, or else the one that was kept.
pub open spec fn known_uuid(explicit: Option<Seq<char>>, stored: Option<Seq<char>>) -> Option<
    Seq<char>,
> {
    match given(explicit) {
        Some(uuid) => Some(uuid),
        None => given(stored),
    }
}

/// Chooses the identifier of this device; where none is known, a random one.
pub fn resolve_device_uuid(explicit: Option<&str>, stored: Option<&str>) -> (r: DeviceUuid)
    ensures
        match r {
            DeviceUuid::Known(uuid) => known_uuid(str_view(explicit), str_view(stored)) == Some(
                uuid@,
            ),
            DeviceUuid::Fresh(uuid) => {
                &&& known_uuid(str_view(explicit), str_view(stored)) is None
                &&& ids::is_v4_text(uuid@)
            },
        },
{
    match given_text(explicit) {
        Some(uuid) => DeviceUuid::Known(uuid),
        None => match given_text(stored) {
            Some(uuid) => DeviceUuid::Known(uuid),
            None => DeviceUuid::Fresh(ids::fresh_uuid()),
        },
    }
}

// ---------------------------------------------------------------------------
// What it says of itself
// ---------------------------------------------------------------------------

/// What the device can do.
pub open spec fn capabilities_said() -> JsonView {
    JsonView::Object(
        seq![
            ("min_audio_quality"@, json::signed_view(AUDIO_QUALITY_MP3 as i64)),
            ("max_audio_quality"@, json::signed_view(AUDIO_QUALITY_HIRES_LEVEL2 as i64)),
            ("volume_remote_control"@, json::signed_view(VOLUME_REMOTE_CONTROL_ALLOWED as i64)),
        ],
    )
}

fn capabilities() -> (r: Json)
    ensures
        r@ == capabilities_said(),
{
    let mut said = ObjectBuilder::new();
    said.put("min_audio_quality", Json::signed(AUDIO_QUALITY_MP3 as i64));
    said.put("max_audio_quality", Json::signed(AUDIO_QUALITY_HIRES_LEVEL2 as i64));
    said.put("volume_remote_control", Json::signed(VOLUME_REMOTE_CONTROL_ALLOWED as i64));
    assert(said@ =~= capabilities_said()->Object_0);
    said.build()
}

/// What the device says of itself, in this version of the program.
pub open spec fn device_said(name: Seq<char>, uuid: Seq<char>, version: Seq<char>) -> JsonView {
    JsonView::Object(
        seq![
            ("device_uuid"@, JsonView::Text(uuid)),
            ("friendly_name"@, JsonView::Text(name)),
            ("brand"@, JsonView::Text("qconnect"@)),
            ("model"@, JsonView::Text("qconnect-cli"@)),
            ("serial_number"@, JsonView::Null),
            ("device_type"@, json::unsigned_view(5)),
            ("capabilities"@, capabilities_said()),
            ("software_version"@, JsonView::Text("qconnect-cli/"@ + version)),
        ],
    )
}

pub fn build_device_info(device_name: &str, device_uuid: &str, version: &str) -> (r: Json)
    ensures
        r@ == device_said(device_name@, device_uuid@, version@),
{
    let mut software_version = "qconnect-cli/".to_owned();
    software_version.append(version);
    let mut said = ObjectBuilder::new();
    said.put("device_uuid", Json::text(device_uuid));
    said.put("friendly_name", Json::text(device_name));
    said.put("brand", Json::text("qconnect"));
    said.put("model", Json::text("qconnect-cli"));
    said.put("serial_number", Json::Null);
    said.put("device_type", Json::unsigned(5));
    said.put("capabilities", capabilities());
    said.put("software_version", Json::Text(software_version));
    assert(said@ =~= device_said(device_name@, device_uuid@, version@)->Object_0);
    said.build()
}

// ---------------------------------------------------------------------------
// Audio devices
// ---------------------------------------------------------------------------

/// The line that lists an audio device, marked when it is the default one.
pub open spec fn device_line(name: Seq<char>, default_name: Option<Seq<char>>) -> Seq<char> {
    name + (if default_name == Some(name) {
        " (default)"@
    } else {
        ""@
    })
}

pub fn audio_device_line(name: &str, default_name: Option<&str>) -> (r: String)
    ensures
        r@ == device_line(name@, str_view(default_name)),
{
    let is_default = match default_name {
        Some(default) => *default == *name,
        None => false,
    };
    let mut line = name.to_owned();
    line.append(
        if is_default {
            " (default)"
        } else {
            ""
        },
    );
    line
}

// ---------------------------------------------------------------------------
// Laws
// ---------------------------------------------------------------------------

/// A name that was chosen is the name of the device, as it was given.
pub proof fn chosen_name_goes_first(
    explicit: Seq<char>,
    environment: Option<Seq<char>>,
    file: Option<Seq<char>>,
)
    requires
        text::trimmed(explicit).len() > 0,
    ensures
        device_name(Some(explicit), environment, file) == text::trimmed(explicit),
{
}

/// Where no name was chosen, the device is named after its host.
pub proof fn unnamed_device_is_named_after_its_host(
    explicit: Option<Seq<char>>,
    hostname: Seq<char>,
    file: Option<Seq<char>>,
)
    requires
        explicit matches Some(name) ==> text::trimmed(name).len() == 0,
        text::trimmed(hostname).len() > 0,
    ensures
        device_name(explicit, Some(hostname), file) == "qconnect-cli ("@ + hostname + ")"@,
{
}

/// An identifier that was kept is found again, as long as none is chosen.
pub proof fn kept_uuid_is_found_again(uuid: Seq<char>)
    requires
        ids::is_v4_text(uuid),
    ensures
        known_uuid(None, Some(uuid)) == Some(uuid),
{
    ids::v4_text_shape(uuid);
    ids::v4_text_has_no_white_ends(uuid);
}

/// A device says who it is: its identifier, its name, the program that it is
/// and its version, and that it plays everything from the lowest quality to the
/// highest and lets its volume be controlled.
pub proof fn device_says_who_it_is(name: Seq<char>, uuid: Seq<char>, version: Seq<char>)
    ensures
        ({
            let said = device_said(name, uuid, version);
            &&& json::member_text(said, "device_uuid"@) == Some(uuid)
            &&& json::member_text(said, "friendly_name"@) == Some(name)
            &&& json::member_text(said, "brand"@) == Some("qconnect"@)
            &&& json::member_text(said, "model"@) == Some("qconnect-cli"@)
            &&& json::member(said, "serial_number"@) == Some(JsonView::Null)
            &&& json::member_u64(said, "device_type"@) == Some(5u64)
            &&& json::member_text(said, "software_version"@) == Some("qconnect-cli/"@ + version)
            &&& json::member(said, "capabilities"@) matches Some(able) && {
                &&& json::member_i32(able, "min_audio_quality"@) == Some(1i32)
                &&& json::member_i32(able, "max_audio_quality"@) == Some(4i32)
                &&& json::member_i32(able, "volume_remote_control"@) == Some(2i32)
            }
        }),
{
    lemma_device_keys();
    let said = device_said(name, uuid, version)->Object_0;
    json::lemma_member_at(said, 0);
    json::lemma_member_at(said, 1);
    json::lemma_member_at(said, 2);
    json::lemma_member_at(said, 3);
    json::lemma_member_at(said, 4);
    json::lemma_member_at(said, 5);
    json::lemma_member_at(said, 6);
    json::lemma_member_at(said, 7);
    let able = capabilities_said()->Object_0;
    json::lemma_member_at(able, 0);
    json::lemma_member_at(able, 1);
    json::lemma_member_at(able, 2);
    json::i32_reads_back(1);
    json::i32_reads_back(4);
    json::i32_reads_back(2);
}

/// The names of the members of what a device says differ.
proof fn lemma_device_keys()
    ensures
        "device_uuid"@.len() == 11,
        "friendly_name"@.len() == 13,
        "brand"@.len() == 5,
        "model"@.len() == 5,
        "serial_number"@.len() == 13,
        "device_type"@.len() == 11,
        "capabilities"@.len() == 12,
        "software_version"@.len() == 16,
        "brand"@ != "model"@,
        "device_uuid"@ != "device_type"@,
        "friendly_name"@ != "serial_number"@,
        "min_audio_quality"@ != "max_audio_quality"@,
        "min_audio_quality"@ != "volume_remote_control"@,
        "max_audio_quality"@ != "volume_remote_control"@,
{
    reveal_strlit("device_uuid");
    reveal_strlit("friendly_name");
    reveal_strlit("brand");
    reveal_strlit("model");
    reveal_strlit("serial_number");
    reveal_strlit("device_type");
    reveal_strlit("capabilities");
    reveal_strlit("software_version");
    reveal_strlit("min_audio_quality");
    reveal_strlit("max_audio_quality");
    reveal_strlit("volume_remote_control");
    assert("brand"@[0] != "model"@[0]);
    assert("device_uuid"@[7] != "device_type"@[7]);
    assert("friendly_name"@[0] != "serial_number"@[0]);
    assert("min_audio_quality"@[1] != "max_audio_quality"@[1]);
    assert("volume_remote_control"@.len() == 21);
    assert("min_audio_quality"@.len() == 17);
    assert("max_audio_quality"@.len() == 17);
}

/// Where neither a name was chosen nor the environment names the host, the
/// system's file does, and without any of them the device has the program's
/// name.
pub proof fn host_is_named_by_the_file_last(
    explicit: Option<Seq<char>>,
    environment: Option<Seq<char>>,
    file: Option<Seq<char>>,
)
    requires
        explicit matches Some(name) ==> text::trimmed(name).len() == 0,
        environment matches Some(name) ==> text::trimmed(name).len() == 0,
    ensures
        (file matches Some(name) && text::trimmed(name).len() > 0) ==> device_name(
            explicit,
            environment,
            file,
        ) == "qconnect-cli ("@ + text::trimmed(file->0) + ")"@,
        (file matches Some(name) ==> text::trimmed(name).len() == 0) ==> device_name(
            explicit,
            environment,
            file,
        ) == "qconnect-cli"@,
{
}

/// An identifier that was chosen goes before the one that was kept, each
/// without the white space around it, and blank ones are none.
pub proof fn chosen_uuid_goes_first(explicit: Option<Seq<char>>, stored: Option<Seq<char>>)
    ensures
        (explicit matches Some(uuid) && text::trimmed(uuid).len() > 0) ==> known_uuid(
            explicit,
            stored,
        ) == Some(text::trimmed(explicit->0)),
        (explicit matches Some(uuid) ==> text::trimmed(uuid).len() == 0) && (stored matches Some(
            uuid,
        ) && text::trimmed(uuid).len() > 0) ==> known_uuid(explicit, stored) == Some(
            text::trimmed(stored->0),
        ),
        (explicit matches Some(uuid) ==> text::trimmed(uuid).len() == 0) && (stored matches Some(
            uuid,
        ) ==> text::trimmed(uuid).len() == 0) ==> known_uuid(explicit, stored) is None,
{
}

/// Exactly the default device is marked as such in the list.
pub proof fn default_device_is_marked(name: Seq<char>, other: Seq<char>)
    requires
        name != other,
    ensures
        device_line(name, Some(name)) == name + " (default)"@,
        device_line(name, Some(other)) == name,
        device_line(name, None) == name,
{
    reveal_strlit("");
    assert(name + ""@ =~= name);
}

} // verus!
