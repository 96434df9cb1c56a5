//! Client-side logic for the Gyazo image and video hosting API.
//!
//! The crate builds the requests that the service understands and interprets
//! the responses that come back. Sending a request and reading a response is
//! left to the caller; everything in between is stated and proved here.

pub mod capture;
pub mod cli;
pub mod client;
pub mod config;
pub mod decimal;
pub mod error;
pub mod image;
pub mod listing;
pub mod transport;
pub mod trusted;
pub mod upload;

pub use error::{ApiStatus, ClientError, TypeName, WrapErr, WrapNone};
pub use image::{File, Image, Metadata, Ocr, Timestamp};
pub use transport::{ExtractJson, Method, Param, Part, Request, Response, Verify};
pub use config::Config;
pub use client::{
    Client, Device, Upload, User, API_IMAGE_UPLOAD_URL, API_URL, CGI_IMAGE_UPLOAD_URL, DEFAULT_APP,
    VIDEO_UPLOAD_URL,
};
pub use listing::{Lister, Step};
