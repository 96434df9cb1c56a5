//! The media entities of the service and their normal form.
//!
//! The service describes a stored item as an [`Image`]. Callers work with a
//! [`File`], which is derived from it: the type tag is corrected where the
//! service reports a video as a GIF, and the download URL is computed from
//! the identifier and the corrected tag.

use vstd::prelude::*;
use vstd::string::*;
use crate::error::{status_is_success, TypeName};
use crate::trusted::{parse_url, parsed_url};

verus! {

/// A creation time as the service writes it, such as
/// `2018-07-24T07:33:24.771Z`. It is carried along and never read.
pub type Timestamp = String;

/// What the uploader recorded about an item.
#[derive(Clone, Debug)]
pub struct Metadata {
    pub app: Option<String>,
    pub title: Option<String>,
    pub url: Option<String>,
    pub desc: String,
}

/// The text that the service recognised in an image.
#[derive(Clone, Debug)]
pub struct Ocr {
    pub locale: String,
    pub description: String,
}

/// A stored item as the service describes it.
#[derive(Clone, Debug)]
pub struct Image {
    pub image_id: String,
    pub permalink_url: String,
    pub thumb_url: Option<String>,
    pub file_type: String,
    pub created_at: Timestamp,
    pub metadata: Option<Metadata>,
    pub ocr: Option<Ocr>,
}

/// A stored item in its normal form.
#[derive(Clone, Debug)]
pub struct File {
    pub id: String,
    pub file_type: String,
    pub create_time: Timestamp,
    pub download: String,
    pub permalink: String,
    pub meta: Option<Metadata>,
}

/// The text of an optional string.
pub open spec fn text_of(value: Option<String>) -> Option<Seq<char>> {
    match value {
        Some(text) => Some(text@),
        None => None,
    }
}

/// Metadata as contracts speak of it.
pub struct MetadataView {
    pub app: Option<Seq<char>>,
    pub title: Option<Seq<char>>,
    pub url: Option<Seq<char>>,
    pub desc: Seq<char>,
}

/// Recognised text as contracts speak of it.
pub struct OcrView {
    pub locale: Seq<char>,
    pub description: Seq<char>,
}

/// A stored item, as the service describes it, as contracts speak of it.
pub struct ImageView {
    pub image_id: Seq<char>,
    pub permalink_url: Seq<char>,
    pub thumb_url: Option<Seq<char>>,
    pub file_type: Seq<char>,
    pub created_at: Seq<char>,
    pub metadata: Option<MetadataView>,
    pub ocr: Option<OcrView>,
}

/// A stored item in its normal form as contracts speak of it.
pub struct FileView {
    pub id: Seq<char>,
    pub file_type: Seq<char>,
    pub create_time: Seq<char>,
    pub download: Seq<char>,
    pub permalink: Seq<char>,
    pub meta: Option<MetadataView>,
}

impl View for Metadata {
    type V = MetadataView;

    open spec fn view(&self) -> MetadataView {
        MetadataView {
            app: text_of(self.app),
            title: text_of(self.title),
            url: text_of(self.url),
            desc: self.desc@,
        }
    }
}

impl View for Ocr {
    type V = OcrView;

    open spec fn view(&self) -> OcrView {
        OcrView { locale: self.locale@, description: self.description@ }
    }
}

/// The view of optional metadata.
pub open spec fn metadata_of(meta: Option<Metadata>) -> Option<MetadataView> {
    match meta {
        Some(meta) => Some(meta@),
        None => None,
    }
}

impl View for Image {
    type V = ImageView;

    open spec fn view(&self) -> ImageView {
        ImageView {
            image_id: self.image_id@,
            permalink_url: self.permalink_url@,
            thumb_url: text_of(self.thumb_url),
            file_type: self.file_type@,
            created_at: self.created_at@,
            metadata: metadata_of(self.metadata),
            ocr: match self.ocr {
                Some(ocr) => Some(ocr@),
                None => None,
            },
        }
    }
}

impl View for File {
    type V = FileView;

    open spec fn view(&self) -> FileView {
        FileView {
            id: self.id@,
            file_type: self.file_type@,
            create_time: self.create_time@,
            download: self.download@,
            permalink: self.permalink@,
            meta: metadata_of(self.meta),
        }
    }
}

/// An optional text says nothing: it is absent or empty.
pub open spec fn spec_useless(value: Option<Seq<char>>) -> bool {
    match value {
        Some(text) => text.len() == 0,
        None => true,
    }
}

impl MetadataView {
    /// The metadata says nothing: application, title and source URL are each
    /// absent or empty, and the description is empty.
    pub open spec fn is_empty(self) -> bool {
        spec_useless(self.app) && spec_useless(self.title) && spec_useless(self.url)
            && self.desc.len() == 0
    }
}

/// Optional metadata says nothing: it is absent or empty.
pub open spec fn spec_empty(meta: Option<MetadataView>) -> bool {
    match meta {
        Some(meta) => meta.is_empty(),
        None => true,
    }
}

/// Whether an optional text is absent or empty.
pub fn useless(value: &Option<String>) -> (res: bool)
    ensures
        res == spec_useless(text_of(*value)),
{
    match value {
        Some(text) => text.as_str().is_empty(),
        None => true,
    }
}

/// Whether optional metadata is absent or empty.
pub fn empty(meta: &Option<Metadata>) -> (res: bool)
    ensures
        res == spec_empty(metadata_of(*meta)),
{
    match meta {
        Some(meta) => useless(&meta.app) && useless(&meta.title) && useless(&meta.url)
            && meta.desc.as_str().is_empty(),
        None => true,
    }
}

/// Whether a text is exactly the given word.
pub(crate) fn text_is(text: &String, word: &str) -> (res: bool)
    ensures
        res == (text@ == word@),
{
    let word = String::from_str(word);
    *text == word
}

impl FileView {
    /// The name under which the file is saved: identifier, dot, type.
    pub open spec fn name(self) -> Seq<char> {
        self.id + "."@ + self.file_type
    }
}

impl File {
    /// The name under which the file is saved: identifier, dot, type.
    pub fn name(&self) -> (res: String)
        ensures
            res@ == self@.name(),
    {
        self.id.clone().concat(".").concat(self.file_type.as_str())
    }
}

impl ImageView {
    /// Where the video of an item is downloaded.
    pub open spec fn mp4_download_url(self) -> Seq<char> {
        "https://i.gyazo.com/download/"@ + self.image_id + ".mp4"@
    }

    /// Where the item is downloaded: the video path for an `mp4`, the plain
    /// path with the type as extension for everything else.
    pub open spec fn download_url(self) -> Seq<char> {
        if self.file_type == "mp4"@ {
            self.mp4_download_url()
        } else {
            "https://i.gyazo.com/"@ + self.image_id + "."@ + self.file_type
        }
    }

    /// Whether the type tag may be wrong: the service reports some videos as
    /// `gif`, and only for those is the video path probed.
    pub open spec fn needs_probe(self) -> bool {
        self.file_type == "gif"@
    }

    /// Whether a probe of the video path turns the item into an `mp4`. The
    /// probe is the status of a GET on the video path, absent where none was
    /// made.
    pub open spec fn reclassified(self, probe: Option<u16>) -> bool {
        self.needs_probe() && probe is Some && status_is_success(probe->0)
    }

    /// The item after the probe: tagged `mp4` where the probe succeeded on a
    /// `gif`, unchanged otherwise.
    pub open spec fn fixed(self, probe: Option<u16>) -> ImageView {
        if self.reclassified(probe) {
            ImageView { file_type: "mp4"@, ..self }
        } else {
            self
        }
    }

    /// The normal form of an item whose download URL parsed as `download`.
    pub open spec fn to_file(self, download: Seq<char>) -> FileView {
        FileView {
            id: self.image_id,
            file_type: self.file_type,
            create_time: self.created_at,
            download,
            permalink: self.permalink_url,
            meta: if spec_empty(self.metadata) {
                None
            } else {
                self.metadata
            },
        }
    }

    /// The normal form of the item after the probe; nothing where its
    /// download URL is no URL.
    pub open spec fn normalized(self, probe: Option<u16>) -> Option<FileView> {
        let fixed = self.fixed(probe);
        match parsed_url(fixed.download_url()) {
            Some(download) => Some(fixed.to_file(download)),
            None => None,
        }
    }
}

impl Image {
    /// Where the video of this item is downloaded.
    pub fn mp4_download_url(&self) -> (res: String)
        ensures
            res@ == self@.mp4_download_url(),
    {
        String::from_str("https://i.gyazo.com/download/").concat(self.image_id.as_str()).concat(
            ".mp4",
        )
    }

    /// Where this item is downloaded.
    pub fn download_url(&self) -> (res: String)
        ensures
            res@ == self@.download_url(),
    {
        if text_is(&self.file_type, "mp4") {
            self.mp4_download_url()
        } else {
            String::from_str("https://i.gyazo.com/").concat(self.image_id.as_str()).concat(
                ".",
            ).concat(self.file_type.as_str())
        }
    }

    /// Whether the video path of this item has to be probed before the item
    /// is put in its normal form.
    pub fn needs_probe(&self) -> (res: bool)
        ensures
            res == self@.needs_probe(),
    {
        text_is(&self.file_type, "gif")
    }

    /// Corrects the type tag by the outcome of the probe: a `gif` whose video
    /// path answered with success is an `mp4`.
    pub fn fix_mp4(&mut self, probe: Option<u16>)
        ensures
            final(self)@ == old(self)@.fixed(probe),
    {
        if self.needs_probe() {
            if let Some(status) = probe {
                if 200 <= status && status < 300 {
                    self.file_type = String::from_str("mp4");
                }
            }
        }
    }

    /// Puts the item in its normal form: the tag corrected by the probe, the
    /// download URL computed from identifier and tag, the thumbnail dropped
    /// and metadata that says nothing left out.
    pub fn into_file(self, probe: Option<u16>) -> (res: File)
        requires
            parsed_url(self@.fixed(probe).download_url()) is Some,
        ensures
            Some(res@) == self@.normalized(probe),
    {
        let mut image = self;
        image.fix_mp4(probe);
        let download = match parse_url(image.download_url().as_str()) {
            Ok(download) => download,
            Err(_) => {
                proof {
                    assert(false);
                }
                String::new()
            },
        };
        let Image { image_id, permalink_url, file_type, created_at, metadata, .. } = image;
        let meta = if empty(&metadata) {
            None
        } else {
            metadata
        };
        File {
            id: image_id,
            file_type,
            create_time: created_at,
            download,
            permalink: permalink_url,
            meta,
        }
    }

    /// Puts the item in its normal form where its download URL is a URL, and
    /// gives nothing where it is not.
    pub fn try_into_file(self, probe: Option<u16>) -> (res: Option<File>)
        ensures
            match res {
                Some(file) => Some(file@) == self@.normalized(probe),
                None => self@.normalized(probe) is None,
            },
    {
        let mut fixed = self;
        fixed.fix_mp4(probe);
        proof {
            lemma_fix_mp4_idempotent(self@, probe);
        }
        match parse_url(fixed.download_url().as_str()) {
            Ok(_) => Some(fixed.into_file(probe)),
            Err(_) => None,
        }
    }
}

impl TypeName for Image {
    open spec fn spec_type_label() -> Seq<char> {
        "Image"@
    }

    fn type_label() -> (res: &'static str) {
        "Image"
    }
}

impl TypeName for Vec<Image> {
    open spec fn spec_type_label() -> Seq<char> {
        "vector of Image"@
    }

    fn type_label() -> (res: &'static str) {
        "vector of Image"
    }
}

/// Correcting the type tag twice by the same probe changes nothing more than
/// correcting it once.
pub proof fn lemma_fix_mp4_idempotent(image: ImageView, probe: Option<u16>)
    ensures
        image.fixed(probe).fixed(probe) == image.fixed(probe),
{
    if image.reclassified(probe) {
        reveal_strlit("mp4");
        reveal_strlit("gif");
        assert("mp4"@.len() == 3);
        assert("gif"@.len() == 3);
        assert("mp4"@[0] != "gif"@[0]);
    }
}

/// Two items with the same content have the same normal form under the same
/// probe: the normal form depends on nothing else.
pub proof fn lemma_normal_form_is_determined(first: Image, second: Image, probe: Option<u16>)
    requires
        first@ == second@,
    ensures
        first@.normalized(probe) == second@.normalized(probe),
{
}

/// The download URL of an `mp4` is its video path; that of any other type is
/// the plain path with the type as extension.
pub proof fn lemma_download_url(image: ImageView)
    ensures
        image.file_type == "mp4"@ ==> image.download_url() == "https://i.gyazo.com/download/"@
            + image.image_id + ".mp4"@,
        image.file_type != "mp4"@ ==> image.download_url() == "https://i.gyazo.com/"@
            + image.image_id + "."@ + image.file_type,
{
}

/// Metadata without application, title and source URL and with an empty
/// description is empty; metadata with a description is not.
pub proof fn lemma_metadata_emptiness(meta: MetadataView)
    ensures
        meta.app is None && meta.title is None && meta.url is None && meta.desc.len() == 0
            ==> meta.is_empty(),
        meta.desc.len() > 0 ==> !meta.is_empty(),
{
}

} // verus!
