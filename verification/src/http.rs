//! The HTTP-facing frame-serving contracts. Handlers are pure readers: they
//! turn a snapshot of the latest-frame store (or a fixed, registration-time
//! set of frames) into a complete response whose content-length is exactly
//! its body's byte length.
use vstd::prelude::*;
use vstd::slice::slice_to_vec;
use vstd::string::{StringExecFns, StringSliceAdditionalSpecFns};
use vstd::utf8::encode_utf8;
use crate::frame::LatestFrameStore;
use crate::text::{decimal_string, spec_decimal};

verus! {

/// The content type a handler declares for its body.
#[derive(Clone, Copy, PartialEq, Eq, Structural, Debug)]
pub enum ContentType {
    ImageJpeg,
    TextPlain,
    TextHtml,
}

/// A complete response: status code, content type and the exact body bytes.
/// Nothing may be written beyond the body, and the content-length header
/// must equal the body's byte length.
pub struct HttpResponse {
    pub status: u16,
    pub content_type: ContentType,
    pub body: Vec<u8>,
}

impl HttpResponse {
    /// The exact content-length: the byte length of the body.
    pub fn content_length(&self) -> (n: usize)
        ensures
            n == self.body@.len(),
    {
        self.body.len()
    }

    /// The content-length header value, in decimal.
    pub fn content_length_string(&self) -> (r: String)
        ensures
            r@ == spec_decimal(self.body@.len()),
    {
        decimal_string(self.body.len() as u64)
    }
}

/// The bytes a snapshot of the store delivered, if it held a frame.
pub open spec fn spec_opt_bytes(o: Option<Vec<u8>>) -> Option<Seq<u8>> {
    match o {
        Some(v) => Some(v@),
        None => None,
    }
}

/// The placeholder body of the root route before any capture.
pub open spec fn spec_no_image_text() -> Seq<u8> {
    "No image yet.".spec_bytes()
}

/// The placeholder body of the camera route before any capture.
pub open spec fn spec_no_framebuffer_text() -> Seq<u8> {
    "no framebuffer".spec_bytes()
}

/// What the root route serves: the latest frame's bytes as an image, or —
/// while no capture has completed — a successful plain-text placeholder.
pub open spec fn spec_root_response(latest: Option<Seq<u8>>) -> (u16, ContentType, Seq<u8>) {
    match latest {
        Some(b) => (200u16, ContentType::ImageJpeg, b),
        None => (200u16, ContentType::TextPlain, spec_no_image_text()),
    }
}

/// What the camera route serves: the same frame bytes as the root route,
/// with its own placeholder text.
pub open spec fn spec_camera_jpg_response(latest: Option<Seq<u8>>) -> (u16, ContentType, Seq<u8>) {
    match latest {
        Some(b) => (200u16, ContentType::ImageJpeg, b),
        None => (200u16, ContentType::TextPlain, spec_no_framebuffer_text()),
    }
}

/// Builds the root route's response from a store snapshot.
pub fn handle_root(snapshot: Option<Vec<u8>>) -> (r: HttpResponse)
    ensures
        (r.status, r.content_type, r.body@) == spec_root_response(spec_opt_bytes(snapshot)),
{
    match snapshot {
        Some(b) => HttpResponse { status: 200, content_type: ContentType::ImageJpeg, body: b },
        None => HttpResponse {
            status: 200,
            content_type: ContentType::TextPlain,
            body: slice_to_vec("No image yet.".as_bytes()),
        },
    }
}

/// Builds the camera route's response from a store snapshot.
pub fn handle_camera_jpg(snapshot: Option<Vec<u8>>) -> (r: HttpResponse)
    ensures
        (r.status, r.content_type, r.body@) == spec_camera_jpg_response(spec_opt_bytes(snapshot)),
{
    match snapshot {
        Some(b) => HttpResponse { status: 200, content_type: ContentType::ImageJpeg, body: b },
        None => HttpResponse {
            status: 200,
            content_type: ContentType::TextPlain,
            body: slice_to_vec("no framebuffer".as_bytes()),
        },
    }
}

/// Serves the root route straight from the store: the snapshot is copied
/// out first, so the response can be transmitted without holding the store.
pub fn serve_root(store: &LatestFrameStore) -> (r: HttpResponse)
    ensures
        (r.status, r.content_type, r.body@) == spec_root_response(store@),
{
    handle_root(store.snapshot())
}

/// Serves the camera route straight from the store.
pub fn serve_camera_jpg(store: &LatestFrameStore) -> (r: HttpResponse)
    ensures
        (r.status, r.content_type, r.body@) == spec_camera_jpg_response(store@),
{
    handle_camera_jpg(store.snapshot())
}

/// Before any capture completes, the root route serves the plain-text
/// placeholder: a successful status with the exact placeholder body — not
/// an error, and not an empty body under image headers.
pub proof fn lemma_placeholder_before_first_capture()
    ensures
        spec_root_response(None).0 == 200,
        spec_root_response(None).1 is TextPlain,
        !(spec_root_response(None).1 is ImageJpeg),
        spec_root_response(None).2 == spec_no_image_text(),
        spec_camera_jpg_response(None).2 == spec_no_framebuffer_text(),
{
}

/// Once a frame is held, the root route and the camera route serve
/// identical byte content — exactly the held frame — as an image.
pub proof fn lemma_root_and_camera_agree(frame: Seq<u8>)
    ensures
        spec_root_response(Some(frame)) == spec_camera_jpg_response(Some(frame)),
        spec_root_response(Some(frame)) == (200u16, ContentType::ImageJpeg, frame),
{
}

/// The path of fixed preview image `i`.
pub open spec fn spec_preview_path(i: nat) -> Seq<char> {
    "/camera_"@ + spec_decimal(i) + ".jpg"@
}

/// Renders the path of fixed preview image `i`.
pub fn preview_path(i: u64) -> (r: String)
    ensures
        r@ == spec_preview_path(i as nat),
{
    let mut s = String::from_str("/camera_");
    let digits = decimal_string(i);
    s.append(digits.as_str());
    s.append(".jpg");
    s
}

/// The response bound to fixed preview image `i` at registration time: its
/// bytes, captured once by value, as an image. Such a handler is immutable
/// after registration and needs no further synchronization.
pub fn preview_response(frames: &Vec<Vec<u8>>, i: usize) -> (r: HttpResponse)
    requires
        i < frames@.len(),
    ensures
        r.status == 200,
        r.content_type is ImageJpeg,
        r.body@ == frames@[i as int]@,
{
    HttpResponse {
        status: 200,
        content_type: ContentType::ImageJpeg,
        body: slice_to_vec(frames[i].as_slice()),
    }
}

/// The whole fixed preview route table: for each captured frame, its path
/// and its immutable response.
pub fn preview_routes(frames: &Vec<Vec<u8>>) -> (r: Vec<(String, HttpResponse)>)
    ensures
        r@.len() == frames@.len(),
        forall|i: int|
            0 <= i < r@.len() ==> (#[trigger] r@[i]).0@ == spec_preview_path(i as nat)
                && r@[i].1.status == 200 && r@[i].1.content_type is ImageJpeg && r@[i].1.body@
                == frames@[i]@,
{
    let mut r: Vec<(String, HttpResponse)> = Vec::new();
    let mut i: usize = 0;
    while i < frames.len()
        invariant
            0 <= i <= frames@.len(),
            r@.len() == i,
            forall|k: int|
                0 <= k < i ==> (#[trigger] r@[k]).0@ == spec_preview_path(k as nat)
                    && r@[k].1.status == 200 && r@[k].1.content_type is ImageJpeg && r@[k].1.body@
                    == frames@[k]@,
        decreases frames@.len() - i,
    {
        let path = preview_path(i as u64);
        let response = preview_response(frames, i);
        r.push((path, response));
        i = i + 1;
    }
    r
}

/// The markup of the preview page from image `i` on: one image tag per
/// fixed preview path.
pub open spec fn spec_preview_imgs(i: int, n: int) -> Seq<char>
    decreases n - i,
{
    if i < 0 || i >= n {
        Seq::empty()
    } else {
        "<img src=\""@ + spec_preview_path(i as nat) + "\"/>"@ + spec_preview_imgs(i + 1, n)
    }
}

/// The static markup of the preview page: an image tag for each of the `n`
/// fixed preview paths.
pub open spec fn spec_preview_page(n: int) -> Seq<char> {
    "<html><body>"@ + spec_preview_imgs(0, n) + "</body></html>"@
}

/// Renders the preview page for `count` fixed preview images.
pub fn preview_page_html(count: u32) -> (r: String)
    ensures
        r@ == spec_preview_page(count as int),
{
    let mut s = String::from_str("<html><body>");
    let mut i: u32 = 0;
    while i < count
        invariant
            0 <= i <= count,
            s@ + spec_preview_imgs(i as int, count as int) == "<html><body>"@ + spec_preview_imgs(
                0,
                count as int,
            ),
        decreases count - i,
    {
        let ghost s0 = s@;
        s.append("<img src=\"");
        let path = preview_path(i as u64);
        s.append(path.as_str());
        s.append("\"/>");
        proof {
            assert(s@ + spec_preview_imgs(i + 1, count as int) =~= s0 + spec_preview_imgs(
                i as int,
                count as int,
            ));
        }
        i = i + 1;
    }
    s.append("</body></html>");
    proof {
        assert(spec_preview_imgs(count as int, count as int) =~= Seq::<char>::empty());
        assert(s@ =~= spec_preview_page(count as int));
    }
    s
}

/// The response of the preview page route: the static markup as HTML.
pub fn preview_page_response(count: u32) -> (r: HttpResponse)
    ensures
        r.status == 200,
        r.content_type is TextHtml,
        r.body@ == encode_utf8(spec_preview_page(count as int)),
{
    let page = preview_page_html(count);
    HttpResponse {
        status: 200,
        content_type: ContentType::TextHtml,
        body: slice_to_vec(page.as_str().as_bytes()),
    }
}

} // verus!
