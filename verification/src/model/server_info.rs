//! Server metadata, as `servers/getVersion.json` returns it.

use vstd::prelude::*;

use crate::error::MispError;
use crate::fields::{get_bool_field, get_text_field, spec_get_bool, spec_get_text};
use crate::json::{Jv, JsonValue};

verus! {

#[derive(Debug, Clone)]
pub struct ServerInfo {
    pub version: String,
    perm_sync: bool,
    perm_sighting: bool,
}

/// The mathematical shape of the server metadata.
#[verifier::ext_equal]
pub struct ServerInfoV {
    pub version: Seq<char>,
    pub perm_sync: bool,
    pub perm_sighting: bool,
}

impl View for ServerInfo {
    type V = ServerInfoV;

    closed spec fn view(&self) -> ServerInfoV {
        ServerInfoV {
            version: self.version@,
            perm_sync: self.perm_sync,
            perm_sighting: self.perm_sighting,
        }
    }
}

/// What decoding the server metadata from JSON yields.
pub open spec fn jv_dec_server_info(v: Jv) -> Option<ServerInfoV> {
    match v {
        Jv::Obj(fs) => {
            if spec_get_text(fs, "version"@) is Some && spec_get_bool(fs, "perm_sync"@) is Some
                && spec_get_bool(fs, "perm_sighting"@) is Some {
                Some(
                    ServerInfoV {
                        version: spec_get_text(fs, "version"@)->Some_0,
                        perm_sync: spec_get_bool(fs, "perm_sync"@)->Some_0,
                        perm_sighting: spec_get_bool(fs, "perm_sighting"@)->Some_0,
                    },
                )
            } else {
                None
            }
        },
        _ => None,
    }
}

impl ServerInfo {
    pub fn perm_sync(&self) -> (r: bool)
        ensures
            r == self@.perm_sync,
    {
        self.perm_sync
    }

    pub fn perm_sighting(&self) -> (r: bool)
        ensures
            r == self@.perm_sighting,
    {
        self.perm_sighting
    }

    /// The path the core requests server metadata from.
    pub fn fetch_path() -> (r: String)
        ensures
            r@ == "servers/getVersion.json"@,
    {
        "servers/getVersion.json".to_owned()
    }

    /// Decodes the server metadata from a JSON object, atomically.
    pub fn decode(v: &JsonValue) -> (r: Result<ServerInfo, MispError>)
        ensures
            jv_dec_server_info(v@) matches Some(o) ==> (r matches Ok(d) && d@ == o),
            jv_dec_server_info(v@) is None ==> (r matches Err(e) && e is MalformedValue),
    {
        match v {
            JsonValue::Obj(fields) => {
                let version = get_text_field(fields, "version")?;
                let perm_sync = get_bool_field(fields, "perm_sync")?;
                let perm_sighting = get_bool_field(fields, "perm_sighting")?;
                Ok(ServerInfo { version, perm_sync, perm_sighting })
            },
            _ => Err(crate::codec::malformed("", "a JSON object holding server metadata")),
        }
    }
}

} // verus!
