//! The configuration that the client is built from.

use vstd::prelude::*;

verus! {

/// The defaults of an upload.
#[derive(Clone, Copy, Debug, PartialEq, Eq, Structural)]
pub struct Upload {
    /// Whether the metadata of an upload is public.
    pub public_metadata: bool,
}

impl Upload {
    /// Whether these are the defaults that hold where nothing is configured.
    pub fn is_default(&self) -> (res: bool)
        ensures
            res == !self.public_metadata,
    {
        !self.public_metadata
    }
}

impl Default for Upload {
    fn default() -> (res: Upload)
        ensures
            !res.public_metadata,
    {
        Upload { public_metadata: false }
    }
}

/// The credentials and upload defaults that a user has configured. Each
/// credential may be absent.
#[derive(Clone, Debug)]
pub struct Config {
    /// The `Gyazo_session` cookie, for the internal API.
    pub cookie: Option<String>,
    /// The identifier of a linked device.
    pub device: Option<String>,
    /// The access token of an application.
    pub key: Option<String>,
    pub upload: Upload,
}

impl Default for Config {
    fn default() -> (res: Config)
        ensures
            res.cookie is None,
            res.device is None,
            res.key is None,
            !res.upload.public_metadata,
    {
        Config { cookie: None, device: None, key: None, upload: Upload { public_metadata: false } }
    }
}

} // verus!
