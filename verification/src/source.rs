//! Resolving the user's chosen upgrade source to a single identifier.

use vstd::prelude::*;
use vstd::string::StringExecFns;
use vstd::utf8::decode_utf8;
use vstd::utf8::valid_utf8;

use crate::error::ErrorModel;
use crate::error::UpgradeError;

verus! {

/// Where the new version comes from.
pub enum UpgradeSource {
    /// The rolling-release channel.
    RollingRelease,
    /// The development branch.
    Master,
    /// A local source directory, as the bytes of its path.
    Local(Vec<u8>),
}

/// The user's choice of an upgrade source; `None` selects the default, the
/// rolling-release channel.
pub struct UpgradeTo {
    pub source: Option<UpgradeSource>,
}

/// The source an [`UpgradeTo`] selects: the named one, or the
/// rolling-release channel by default.
pub open spec fn selected_source(t: UpgradeTo) -> UpgradeSource {
    match t.source {
        Some(s) => s,
        None => UpgradeSource::RollingRelease,
    }
}

/// The identifier a source resolves to: the channel or branch name, or the
/// text of a local path whose bytes are valid UTF-8.  A local path that is
/// not valid UTF-8 resolves to nothing.
pub open spec fn spec_resolve(s: UpgradeSource) -> Option<Seq<char>> {
    match s {
        UpgradeSource::RollingRelease => Some("rolling-release"@),
        UpgradeSource::Master => Some("master"@),
        UpgradeSource::Local(p) => if valid_utf8(p@) {
            Some(decode_utf8(p@))
        } else {
            None
        },
    }
}

/// The message of the configuration error for a local path that is not
/// valid UTF-8.
pub open spec fn not_utf8_message() -> Seq<char> {
    "requested upgrade source directory is not UTF-8 clean"@
}

/// Relies on `String::from_utf8`: it returns `Ok` exactly when the bytes
/// are a valid UTF-8 encoding, and the returned string is their decoding.
#[verifier::external_body]
fn utf8_string(bytes: Vec<u8>) -> (r: Option<String>)
    ensures
        r is Some <==> valid_utf8(bytes@),
        r matches Some(s) ==> s@ == decode_utf8(bytes@),
{
    String::from_utf8(bytes).ok()
}

/// Resolve the chosen upgrade source to the identifier handed to the
/// upgrade expression.  A local path that is not valid UTF-8 is rejected as
/// a configuration error; every other choice resolves.
pub fn resolve_source(t: UpgradeTo) -> (r: Result<String, UpgradeError>)
    ensures
        match spec_resolve(selected_source(t)) {
            Some(id) => r matches Ok(s) && s@ == id,
            None => r matches Err(e) && e@ == ErrorModel::Configuration(not_utf8_message()),
        },
{
    let source = match t.source {
        Some(s) => s,
        None => UpgradeSource::RollingRelease,
    };
    match source {
        UpgradeSource::RollingRelease => Ok(String::from_str("rolling-release")),
        UpgradeSource::Master => Ok(String::from_str("master")),
        UpgradeSource::Local(p) => match utf8_string(p) {
            Some(s) => Ok(s),
            None => Err(
                UpgradeError::Configuration(
                    String::from_str("requested upgrade source directory is not UTF-8 clean"),
                ),
            ),
        },
    }
}

} // verus!
