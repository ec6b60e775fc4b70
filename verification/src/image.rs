//! Images: where they come from, how they are staged on the remote platform, and the
//! algorithms that read them.

pub mod classifier;
pub mod classifiers;
pub mod colorizer;

pub use self::classifier::{Classification, ClassificationView, Classifier, ClassifierAlgo};
pub use self::classifier::{ImageWrapper, Labelling, Tag, TagView, Tagging};
pub use self::colorizer::{BatchColorize, BatchColorizing, Colorize, Colorizing};

use crate::error::Error;
use vstd::prelude::*;
use vstd::string::StringExecFns;

verus! {

/// The image formats that can be told from the first bytes of a file, and TGA, which
/// cannot.
#[derive(Clone, Copy, Debug, PartialEq, Eq, Structural)]
pub enum ImageFormat {
    Png,
    Jpeg,
    Gif,
    WebP,
    Ppm,
    Tiff,
    Tga,
    Bmp,
    Ico,
    Hdr,
}

/// `bytes` begins with `signature`.
pub open spec fn starts_with(bytes: Seq<u8>, signature: Seq<u8>) -> bool {
    signature.len() <= bytes.len() && bytes.subrange(0, signature.len() as int) == signature
}

/// The format whose signature `bytes` begins with, if it begins with one.
pub open spec fn signature_format(bytes: Seq<u8>) -> Option<ImageFormat> {
    if starts_with(bytes, seq![0x89u8, 0x50, 0x4e, 0x47, 0x0d, 0x0a, 0x1a, 0x0a]) {
        Some(ImageFormat::Png)
    } else if starts_with(bytes, seq![0xffu8, 0xd8, 0xff]) {
        Some(ImageFormat::Jpeg)
    } else if starts_with(bytes, seq![0x47u8, 0x49, 0x46, 0x38, 0x39, 0x61]) {
        Some(ImageFormat::Gif)
    } else if starts_with(bytes, seq![0x47u8, 0x49, 0x46, 0x38, 0x37, 0x61]) {
        Some(ImageFormat::Gif)
    } else if starts_with(bytes, seq![0x57u8, 0x45, 0x42, 0x50]) {
        Some(ImageFormat::WebP)
    } else if starts_with(bytes, seq![0x4du8, 0x4d, 0x2e, 0x2a]) {
        Some(ImageFormat::Tiff)
    } else if starts_with(bytes, seq![0x49u8, 0x49, 0x2a, 0x2e]) {
        Some(ImageFormat::Tiff)
    } else if starts_with(bytes, seq![0x42u8, 0x4d]) {
        Some(ImageFormat::Bmp)
    } else if starts_with(bytes, seq![0x00u8, 0x00, 0x01, 0x00]) {
        Some(ImageFormat::Ico)
    } else if starts_with(bytes, seq![0x23u8, 0x3f, 0x52, 0x41, 0x44, 0x49, 0x41, 0x4e, 0x43, 0x45]) {
        Some(ImageFormat::Hdr)
    } else if starts_with(bytes, seq![0x50u8, 0x36]) {
        Some(ImageFormat::Ppm)
    } else {
        None
    }
}

/// Calls `image::guess_format`, which compares the beginning of the buffer with a table
/// of eleven signatures and answers with the format of the first that matches. The
/// contract restates that table; nothing here proves that the table is the crate's.
#[verifier::external_body]
fn sniff(bytes: &[u8]) -> (format: Option<ImageFormat>)
    ensures
        format == signature_format(bytes@),
{
    match image::guess_format(bytes) {
        Ok(image::ImageFormat::PNG) => Some(ImageFormat::Png),
        Ok(image::ImageFormat::JPEG) => Some(ImageFormat::Jpeg),
        Ok(image::ImageFormat::GIF) => Some(ImageFormat::Gif),
        Ok(image::ImageFormat::WEBP) => Some(ImageFormat::WebP),
        Ok(image::ImageFormat::PPM) => Some(ImageFormat::Ppm),
        Ok(image::ImageFormat::TIFF) => Some(ImageFormat::Tiff),
        Ok(image::ImageFormat::TGA) => Some(ImageFormat::Tga),
        Ok(image::ImageFormat::BMP) => Some(ImageFormat::Bmp),
        Ok(image::ImageFormat::ICO) => Some(ImageFormat::Ico),
        Ok(image::ImageFormat::HDR) => Some(ImageFormat::Hdr),
        Err(_) => None,
    }
}

/// The format of an image, told from its first bytes.
pub fn guess_format(bytes: &[u8]) -> (r: Result<ImageFormat, Error>)
    ensures
        match r {
            Ok(format) => signature_format(bytes@) == Some(format),
            Err(e) => e is Format && signature_format(bytes@) is None,
        },
{
    match sniff(bytes) {
        Some(format) => Ok(format),
        None => Err(Error::Format("Unsupported image format".to_owned())),
    }
}

/// The file extension under which an image of the given format is staged.
pub open spec fn extension(format: ImageFormat) -> Seq<char> {
    match format {
        ImageFormat::Png => "png"@,
        ImageFormat::Jpeg => "jpeg"@,
        ImageFormat::Gif => "gif"@,
        ImageFormat::WebP => "webp"@,
        ImageFormat::Ppm => "ppm"@,
        ImageFormat::Tiff => "tiff"@,
        ImageFormat::Tga => "tga"@,
        ImageFormat::Bmp => "bmp"@,
        ImageFormat::Ico => "ico"@,
        ImageFormat::Hdr => "hdr"@,
    }
}

/// The file extension under which an image of the given format is staged.
pub fn get_ext(format: ImageFormat) -> (ext: &'static str)
    ensures
        ext@ == extension(format),
{
    match format {
        ImageFormat::Png => "png",
        ImageFormat::Jpeg => "jpeg",
        ImageFormat::Gif => "gif",
        ImageFormat::WebP => "webp",
        ImageFormat::Ppm => "ppm",
        ImageFormat::Tiff => "tiff",
        ImageFormat::Tga => "tga",
        ImageFormat::Bmp => "bmp",
        ImageFormat::Ico => "ico",
        ImageFormat::Hdr => "hdr",
    }
}

/// `c` is a digit or one of the letters `a` to `f`.
pub open spec fn is_lower_hex(c: char) -> bool {
    ('0' <= c && c <= '9') || ('a' <= c && c <= 'f')
}

/// `token` has the shape of a staging token: thirty-two lower-case hexadecimal digits.
pub open spec fn is_token(token: Seq<char>) -> bool {
    &&& token.len() == 32
    &&& forall|i: int| 0 <= i < token.len() ==> is_lower_hex(#[trigger] token[i])
}

/// Calls `uuid::Uuid::new_v4` and writes the identifier in its simple form: the sixteen
/// random bytes as thirty-two lower-case hexadecimal digits, without hyphens. Which
/// digits come out is left open. The outside function panics where the operating system
/// hands out no random bytes.
#[verifier::external_body]
fn fresh_token() -> (token: String)
    ensures
        is_token(token@),
{
    uuid::Uuid::new_v4().simple().to_string()
}

/// The name under which a byte stream is staged: the token, a dot, the extension.
pub open spec fn stream_name(token: Seq<char>, ext: Seq<char>) -> Seq<char> {
    token + seq!['.'] + ext
}

/// The name under which a named file is staged: the token, a hyphen, the file's name.
pub open spec fn path_name(token: Seq<char>, file_name: Seq<char>) -> Seq<char> {
    token + seq!['-'] + file_name
}

/// The name under which a byte stream of the given format is staged.
pub fn staged_stream_name(token: &str, format: ImageFormat) -> (name: String)
    ensures
        name@ == stream_name(token@, extension(format)),
{
    proof {
        reveal_strlit(".");
    }
    let mut name = token.to_owned();
    name.append(".");
    name.append(get_ext(format));
    assert("."@ =~= seq!['.']);
    name
}

/// The name under which a file is staged that has a name of its own.
pub fn staged_path_name(token: &str, file_name: &str) -> (name: String)
    ensures
        name@ == path_name(token@, file_name@),
{
    proof {
        reveal_strlit("-");
    }
    let mut name = token.to_owned();
    name.append("-");
    name.append(file_name);
    assert("-"@ =~= seq!['-']);
    name
}

/// `name` is a token, a dot and `ext`.
pub open spec fn is_stream_name(name: Seq<char>, ext: Seq<char>) -> bool {
    &&& name.len() >= 32
    &&& is_token(name.subrange(0, 32))
    &&& name == stream_name(name.subrange(0, 32), ext)
}

/// `name` is a token, a hyphen and `file_name`.
pub open spec fn is_path_name(name: Seq<char>, file_name: Seq<char>) -> bool {
    &&& name.len() >= 32
    &&& is_token(name.subrange(0, 32))
    &&& name == path_name(name.subrange(0, 32), file_name)
}

/// A fresh name under which to stage a byte stream with the given content. The content
/// decides the extension; a stream of no known format is not staged.
pub fn name_for_stream(content: &[u8]) -> (r: Result<String, Error>)
    ensures
        match r {
            Ok(name) => signature_format(content@) matches Some(format) && is_stream_name(
                name@,
                extension(format),
            ),
            Err(e) => e is Format && signature_format(content@) is None,
        },
{
    let format = match guess_format(content) {
        Ok(format) => format,
        Err(e) => return Err(e),
    };
    let token = fresh_token();
    let name = staged_stream_name(token.as_str(), format);
    assert(name@.subrange(0, 32) =~= token@);
    Ok(name)
}

/// A fresh name under which to stage a file that is called `file_name`.
pub fn name_for_path(file_name: &str) -> (name: String)
    ensures
        is_path_name(name@, file_name@),
{
    let token = fresh_token();
    let name = staged_path_name(token.as_str(), file_name);
    assert(name@.subrange(0, 32) =~= token@);
    name
}

/// A reference to content that the remote platform holds.
#[derive(Debug, PartialEq)]
pub struct BlobHandle {
    /// The location of the content, as the platform writes it.
    pub uri: String,
}

impl DeepView for BlobHandle {
    type V = Seq<char>;

    open spec fn deep_view(&self) -> Seq<char> {
        self.uri@
    }
}

impl BlobHandle {
    /// The handle of the content at `uri`.
    pub fn new(uri: &str) -> (handle: BlobHandle)
        ensures
            handle.uri@ == uri@,
    {
        BlobHandle { uri: uri.to_owned() }
    }

    /// The location of the content, as the platform writes it.
    pub fn to_data_uri(&self) -> (uri: String)
        ensures
            uri@ == self.uri@,
    {
        self.uri.clone()
    }
}

/// The result of an algorithm that makes an image: a reference to it.
#[derive(Debug, PartialEq)]
pub struct ImageFile {
    pub file: BlobHandle,
}

impl DeepView for ImageFile {
    type V = Seq<char>;

    open spec fn deep_view(&self) -> Seq<char> {
        self.file.uri@
    }
}

/// What is already on the remote platform and needs no staging.
pub trait ImageInterop {
    /// Where the content is.
    spec fn location(&self) -> Seq<char>;

    /// The handle of the content. Nothing is sent: the handle points where `self`
    /// points.
    fn into_data_file(self) -> (r: Result<BlobHandle, Error>)
        ensures
            r matches Ok(handle) && handle.uri@ == self.location(),
    ;
}

impl ImageInterop for BlobHandle {
    open spec fn location(&self) -> Seq<char> {
        self.uri@
    }

    /// The handle itself.
    fn into_data_file(self) -> (r: Result<BlobHandle, Error>)
        ensures
            r == Ok::<BlobHandle, Error>(self),
    {
        Ok(self)
    }
}

impl<'a> ImageInterop for &'a BlobHandle {
    open spec fn location(&self) -> Seq<char> {
        self.uri@
    }

    /// A handle of its own for the same location.
    fn into_data_file(self) -> (r: Result<BlobHandle, Error>) {
        Ok(BlobHandle::new(self.uri.as_str()))
    }
}

/// Where an image comes from.
#[derive(Debug, PartialEq)]
pub enum Source<'a> {
    /// An open local file, or any other stream of bytes.
    Stream,
    /// A path in the local file system, with the name of the file where the path ends in
    /// one.
    Path(Option<String>),
    /// Content that is already on the remote platform.
    Remote(BlobHandle),
    /// Content that is already on the remote platform, borrowed.
    Shared(&'a BlobHandle),
}

/// The mathematical value of a [`Source`].
pub enum SourceView {
    Stream,
    Path(Option<Seq<char>>),
    Remote(Seq<char>),
    Shared(Seq<char>),
}

impl<'a> DeepView for Source<'a> {
    type V = SourceView;

    open spec fn deep_view(&self) -> SourceView {
        match self {
            Source::Stream => SourceView::Stream,
            Source::Path(name) => SourceView::Path(name.deep_view()),
            Source::Remote(handle) => SourceView::Remote(handle.uri@),
            Source::Shared(handle) => SourceView::Shared(handle.uri@),
        }
    }
}

impl SourceView {
    /// Where the content is, for a source that is already on the remote platform.
    pub open spec fn location(self) -> Option<Seq<char>> {
        match self {
            SourceView::Remote(uri) => Some(uri),
            SourceView::Shared(uri) => Some(uri),
            _ => None,
        }
    }
}

} // verus!
