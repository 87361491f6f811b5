//! Account profile.
use vstd::prelude::*;
use crate::json::{
    bool_of, field, i32_of, optional_string_of, read_bool, read_i32, read_optional_string,
    read_string, required, string_of, JsonValue,
};

verus! {

/// Basic account profile information returned by the Fyers API.
#[derive(Debug, Clone)]
pub struct Profile {
    /// Name of the client.
    pub name: String,
    /// Optional display name chosen by the client.
    pub display_name: Option<String>,
    /// Client ID of the user.
    pub fy_id: String,
    /// URL to the user's profile image, if available.
    pub image: Option<String>,
    /// Registered email address of the client.
    pub email_id: String,
    /// Permanent Account Number (PAN) of the client; the member `PAN` on the wire.
    pub pan: String,
    /// Date when the account PIN was last changed.
    pub pin_change_date: Option<String>,
    /// Date when the account password was last changed.
    pub pwd_change_date: Option<String>,
    /// Registered mobile number.
    pub mobile_number: String,
    /// Whether time-based one-time passwords are enabled.
    pub totp: bool,
    /// Number of days remaining until the current password expires.
    pub pwd_to_expire: i32,
    /// Whether DDPI (Demat Debit and Pledge Instruction) is enabled.
    pub ddpi_enabled: bool,
    /// Whether the Margin Trading Facility is enabled.
    pub mtf_enabled: bool,
}

/// A required string member.
pub open spec fn string_field(v: JsonValue, key: Seq<char>) -> Option<String> {
    match field(v, key) {
        Some(f) => string_of(f),
        None => None,
    }
}

/// A required boolean member.
pub open spec fn bool_field(v: JsonValue, key: Seq<char>) -> Option<bool> {
    match field(v, key) {
        Some(f) => bool_of(f),
        None => None,
    }
}

/// A required `i32` member.
pub open spec fn i32_field(v: JsonValue, key: Seq<char>) -> Option<i32> {
    match field(v, key) {
        Some(f) => i32_of(f),
        None => None,
    }
}

/// `v` read as a profile: an object with each required member of the right
/// type, and each optional one absent, `null` or a string.
pub open spec fn profile_of(v: JsonValue) -> Option<Profile> {
    let name = string_field(v, "name"@);
    let display_name = optional_string_of(field(v, "display_name"@));
    let fy_id = string_field(v, "fy_id"@);
    let image = optional_string_of(field(v, "image"@));
    let email_id = string_field(v, "email_id"@);
    let pan = string_field(v, "PAN"@);
    let pin_change_date = optional_string_of(field(v, "pin_change_date"@));
    let pwd_change_date = optional_string_of(field(v, "pwd_change_date"@));
    let mobile_number = string_field(v, "mobile_number"@);
    let totp = bool_field(v, "totp"@);
    let pwd_to_expire = i32_field(v, "pwd_to_expire"@);
    let ddpi_enabled = bool_field(v, "ddpi_enabled"@);
    let mtf_enabled = bool_field(v, "mtf_enabled"@);
    if name is Some && display_name is Some && fy_id is Some && image is Some && email_id is Some
        && pan is Some && pin_change_date is Some && pwd_change_date is Some
        && mobile_number is Some && totp is Some && pwd_to_expire is Some && ddpi_enabled is Some
        && mtf_enabled is Some {
        Some(
            Profile {
                name: name.unwrap(),
                display_name: display_name.unwrap(),
                fy_id: fy_id.unwrap(),
                image: image.unwrap(),
                email_id: email_id.unwrap(),
                pan: pan.unwrap(),
                pin_change_date: pin_change_date.unwrap(),
                pwd_change_date: pwd_change_date.unwrap(),
                mobile_number: mobile_number.unwrap(),
                totp: totp.unwrap(),
                pwd_to_expire: pwd_to_expire.unwrap(),
                ddpi_enabled: ddpi_enabled.unwrap(),
                mtf_enabled: mtf_enabled.unwrap(),
            },
        )
    } else {
        None
    }
}

fn read_string_field(v: &JsonValue, key: &str) -> (r: Result<String, serde_json::Error>)
    ensures
        match string_field(*v, key@) {
            Some(s) => r == Ok::<String, serde_json::Error>(s),
            None => r is Err,
        },
{
    read_string(required(v, key)?)
}

fn read_bool_field(v: &JsonValue, key: &str) -> (r: Result<bool, serde_json::Error>)
    ensures
        match bool_field(*v, key@) {
            Some(b) => r == Ok::<bool, serde_json::Error>(b),
            None => r is Err,
        },
{
    read_bool(required(v, key)?)
}

impl Profile {
    /// Reads a profile from the `data` member of a profile response.
    pub fn decode(v: &JsonValue) -> (r: Result<Profile, serde_json::Error>)
        ensures
            match profile_of(*v) {
                Some(p) => r is Ok && r.unwrap() == p,
                None => r is Err,
            },
    {
        let name = read_string_field(v, "name")?;
        let display_name = read_optional_string(v, "display_name")?;
        let fy_id = read_string_field(v, "fy_id")?;
        let image = read_optional_string(v, "image")?;
        let email_id = read_string_field(v, "email_id")?;
        let pan = read_string_field(v, "PAN")?;
        let pin_change_date = read_optional_string(v, "pin_change_date")?;
        let pwd_change_date = read_optional_string(v, "pwd_change_date")?;
        let mobile_number = read_string_field(v, "mobile_number")?;
        let totp = read_bool_field(v, "totp")?;
        let pwd_to_expire = read_i32(required(v, "pwd_to_expire")?)?;
        let ddpi_enabled = read_bool_field(v, "ddpi_enabled")?;
        let mtf_enabled = read_bool_field(v, "mtf_enabled")?;
        Ok(
            Profile {
                name,
                display_name,
                fy_id,
                image,
                email_id,
                pan,
                pin_change_date,
                pwd_change_date,
                mobile_number,
                totp,
                pwd_to_expire,
                ddpi_enabled,
                mtf_enabled,
            },
        )
    }
}

} // verus!
