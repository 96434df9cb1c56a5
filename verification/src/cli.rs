//! What the command line decides before the client is used: which
//! credentials hold, and what an upload is meant to be.

use vstd::prelude::*;
use vstd::string::*;
use crate::client::Upload;
use crate::config::Config;
use crate::image::text_of;

verus! {

/// The options of the command line that concern an upload.
#[derive(Clone, Debug)]
pub struct UploadArgs {
    pub anonymous: bool,
    pub app: Option<String>,
    pub public_metadata: bool,
    pub private_metadata: bool,
}

/// The options of the command line that concern credentials: a value for
/// each credential, and a switch that turns each off.
#[derive(Clone, Debug)]
pub struct Gyazo {
    pub cookie: Option<String>,
    pub device: Option<String>,
    pub key: Option<String>,
    pub no_cookie: bool,
    pub no_device: bool,
    pub no_key: bool,
}

/// The credential that holds: none where it is turned off, else the one
/// given on the command line, else the configured one.
pub open spec fn spec_resolved(
    off: bool,
    given: Option<Seq<char>>,
    configured: Option<Seq<char>>,
) -> Option<Seq<char>> {
    if off {
        None
    } else if given is Some {
        given
    } else {
        configured
    }
}

fn resolved(off: bool, given: &Option<String>, configured: Option<String>) -> (res: Option<String>)
    ensures
        text_of(res) == spec_resolved(off, text_of(*given), text_of(configured)),
{
    if off {
        None
    } else {
        match given {
            Some(text) => Some(text.clone()),
            None => configured,
        }
    }
}

impl Gyazo {
    /// The configuration with the credentials that hold after the command
    /// line has been taken into account. The upload defaults are kept.
    pub fn resolve(&self, config: Config) -> (res: Config)
        ensures
            text_of(res.cookie) == spec_resolved(
                self.no_cookie,
                text_of(self.cookie),
                text_of(config.cookie),
            ),
            text_of(res.device) == spec_resolved(
                self.no_device,
                text_of(self.device),
                text_of(config.device),
            ),
            text_of(res.key) == spec_resolved(self.no_key, text_of(self.key), text_of(config.key)),
            res.upload == config.upload,
    {
        let Config { cookie, device, key, upload } = config;
        Config {
            cookie: resolved(self.no_cookie, &self.cookie, cookie),
            device: resolved(self.no_device, &self.device, device),
            key: resolved(self.no_key, &self.key, key),
            upload,
        }
    }
}

/// Whether a file is uploaded as a video: its extension is exactly `mp4`.
pub fn is_mp4(extension: Option<&str>) -> (res: bool)
    ensures
        res == (extension matches Some(text) && text@ == "mp4"@),
{
    match extension {
        Some(text) => String::from_str(text) == String::from_str("mp4"),
        None => false,
    }
}

impl UploadArgs {
    /// The upload with the options applied: a named application replaces
    /// the default, the switch for private metadata wins over the one for
    /// public metadata, and an upload is anonymous once either side says so.
    pub fn update(&self, upload: Upload) -> (res: Upload)
        ensures
            res.app@ == (match self.app {
                Some(app) => app@,
                None => upload.app@,
            }),
            res.public_metadata == (if self.private_metadata {
                false
            } else if self.public_metadata {
                true
            } else {
                upload.public_metadata
            }),
            res.anonymous == (self.anonymous || upload.anonymous),
    {
        let mut upload = upload;
        match &self.app {
            Some(app) => {
                upload.app = app.clone();
            },
            None => {},
        }
        if self.public_metadata {
            upload.public_metadata = true;
        }
        if self.private_metadata {
            upload.public_metadata = false;
        }
        if self.anonymous {
            upload.anonymous = true;
        }
        upload
    }
}

} // verus!
