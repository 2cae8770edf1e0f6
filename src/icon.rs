//! Icon records and the classification of downloaded candidates.

use crate::error::{Error, ParseError, ScrapeError};
use crate::text::{after_last, extension_of};
use crate::urls::{url_host, url_host_of};
use vstd::prelude::*;
use vstd::string::*;

verus! {

/// Pixel dimensions of a decoded image.
///
/// Sizes are ordered by width first and by height where widths are equal
/// (see `size_le`); the derived `Ord` compares the fields in that order.
#[derive(Debug, Clone, Copy, PartialEq, Eq, Structural, PartialOrd, Ord, Hash)]
pub struct Size {
    pub w: u32,
    pub h: u32,
}

/// `a` orders at or below `b`: smaller width, or equal width and no larger height.
pub open spec fn size_le(a: Size, b: Size) -> bool {
    a.w < b.w || (a.w == b.w && a.h <= b.h)
}

impl Size {
    /// Whether `self` orders at or below `other`.
    pub fn at_most(&self, other: &Size) -> (r: bool)
        ensures
            r == size_le(*self, *other),
    {
        self.w < other.w || (self.w == other.w && self.h <= other.h)
    }
}

impl From<(u32, u32)> for Size {
    fn from(d: (u32, u32)) -> (r: Size) {
        Size { w: d.0, h: d.1 }
    }
}

impl vstd::std_specs::convert::FromSpecImpl<(u32, u32)> for Size {
    open spec fn obeys_from_spec() -> bool {
        true
    }

    open spec fn from_spec(d: (u32, u32)) -> Size {
        Size { w: d.0, h: d.1 }
    }
}

/// An icon found for a web page: downloaded, sniffed and decoded.
#[derive(Debug)]
pub struct Icon {
    /// The URL the icon was downloaded from.
    pub source: String,
    /// The host of `source`, empty where it has none.
    pub name: String,
    /// The number of bytes in `buffer`.
    pub size: usize,
    /// A dot and what follows the last dot of `source`.
    pub ext: String,
    /// The content type sniffed from `buffer`.
    pub mime: String,
    /// The downloaded bytes.
    pub buffer: Vec<u8>,
    /// The dimensions the image decoder reports for `buffer`.
    pub dimensions: Size,
}

/// Two icons are the same when their names and dimensions are.
impl PartialEq for Icon {
    fn eq(&self, other: &Icon) -> (r: bool) {
        self.name == other.name && self.dimensions == other.dimensions
    }
}

impl vstd::std_specs::cmp::PartialEqSpecImpl for Icon {
    open spec fn obeys_eq_spec() -> bool {
        true
    }

    open spec fn eq_spec(&self, other: &Icon) -> bool {
        self.name@ == other.name@ && self.dimensions == other.dimensions
    }
}

impl Icon {
    /// The downloaded bytes.
    pub fn as_bytes(&self) -> (r: &[u8])
        ensures
            r@ == self.buffer@,
    {
        self.buffer.as_slice()
    }
}

impl AsRef<[u8]> for Icon {
    fn as_ref(&self) -> &[u8] {
        self.buffer.as_slice()
    }
}

/// The content type that magic-number detection finds in the bytes, if any.
pub uninterp spec fn sniffed_mime_of(data: Seq<u8>) -> Option<Seq<char>>;

/// The width and height of the image that the bytes decode to, if they decode.
pub uninterp spec fn decoded_dimensions_of(data: Seq<u8>) -> Option<(u32, u32)>;

/// Relies on `mime_sniffer::MimeTypeSniffer::sniff_mime_type` for byte buffers,
/// which looks at the content alone.
#[verifier::external_body]
fn sniff_mime(data: &Vec<u8>) -> (r: Option<String>)
    ensures
        r is Some <==> sniffed_mime_of(data@) is Some,
        r matches Some(m) ==> sniffed_mime_of(data@) == Some(m@),
{
    mime_sniffer::MimeTypeSniffer::sniff_mime_type(data).map(String::from)
}

/// Relies on `image::load_from_memory` to decode the bytes, and on
/// `image::GenericImageView::dimensions` of the decoded image.
#[verifier::external_body]
fn decode_dimensions(data: &Vec<u8>) -> (r: Result<(u32, u32), image::ImageError>)
    ensures
        r is Ok <==> decoded_dimensions_of(data@) is Some,
        r matches Ok(d) ==> decoded_dimensions_of(data@) == Some(d),
{
    let img = image::load_from_memory(data)?;
    Ok(image::GenericImageView::dimensions(&img))
}

/// The display name of an icon from `href`: its host, empty where it has none.
pub open spec fn host_name(host: Option<Seq<char>>) -> Seq<char> {
    match host {
        Some(h) => h,
        None => Seq::empty(),
    }
}

/// `icon` is the record that classifying the bytes `data` downloaded from `href` yields.
pub open spec fn classified(href: Seq<char>, data: Seq<u8>, icon: Icon) -> bool {
    &&& icon.source@ == href
    &&& url_host_of(href) matches Some(host) && icon.name@ == host_name(host)
    &&& icon.size == data.len()
    &&& icon.ext@ == seq!['.'] + after_last(href, '.')
    &&& sniffed_mime_of(data) == Some(icon.mime@)
    &&& icon.buffer@ == data
    &&& decoded_dimensions_of(data) == Some((icon.dimensions.w, icon.dimensions.h))
}

impl Icon {
    /// Classifies the bytes `data` downloaded from `href`.
    ///
    /// Fails when no content type can be sniffed from the bytes, when `href`
    /// does not parse as a URL, or when the bytes do not decode as an image,
    /// checked in that order.
    pub fn classify(href: &str, data: Vec<u8>) -> (r: Result<Icon, Error>)
        ensures
            sniffed_mime_of(data@) is None ==> (r matches Err(Error::Scrape(ScrapeError::NoMime(u)))
                && u@ == href@),
            sniffed_mime_of(data@) is Some && url_host_of(href@) is None
                ==> r matches Err(Error::Parse(ParseError::Url(_))),
            sniffed_mime_of(data@) is Some && url_host_of(href@) is Some
                && decoded_dimensions_of(data@) is None ==> r matches Err(Error::Image(_)),
            sniffed_mime_of(data@) is Some && url_host_of(href@) is Some
                && decoded_dimensions_of(data@) is Some ==> (r matches Ok(icon)
                && classified(href@, data@, icon)),
    {
        let mime = match sniff_mime(&data) {
            Some(m) => m,
            None => {
                return Err(Error::Scrape(ScrapeError::NoMime(String::from_str(href))));
            },
        };
        let name = match url_host(href) {
            Ok(Some(h)) => h,
            Ok(None) => String::new(),
            Err(e) => {
                return Err(Error::Parse(ParseError::Url(e)));
            },
        };
        let ext = extension_of(href);
        let dims = match decode_dimensions(&data) {
            Ok(d) => d,
            Err(e) => {
                return Err(Error::Image(e));
            },
        };
        let size = data.len();
        Ok(
            Icon {
                source: String::from_str(href),
                name,
                size,
                ext,
                mime,
                buffer: data,
                dimensions: Size { w: dims.0, h: dims.1 },
            },
        )
    }
}

} // verus!
