//! QR code production: choosing the advertised host, composing and
//! validating the encoded URL, naming the image file, and rendering the
//! SVG form. PNG rasterization and file writing are left to the caller.

use vstd::prelude::*;

use crate::config::{spec_image_text, ImageOptions};
use crate::errors::{Error, IoKind};
use crate::net::{
    host_text, is_global_4, get_first_net, spec_first_global, spec_host_text, spec_is_global_4,
    HostAddr,
};
use crate::server::Server;
use crate::url::{checked_url, spec_uri_ok, spec_url};

verus! {

/// Which file type to render.
#[derive(Clone, Copy, Debug, PartialEq, Eq, Structural)]
pub enum QrFileType {
    Png,
    Svg,
}

/// The file extension of each QR file type.
pub open spec fn spec_qr_file_text(t: QrFileType) -> Seq<char> {
    match t {
        QrFileType::Png => "png"@,
        QrFileType::Svg => "svg"@,
    }
}

impl QrFileType {
    /// The file extension this type is written with.
    pub fn text(&self) -> (r: String)
        ensures
            r@ == spec_qr_file_text(*self),
    {
        match self {
            QrFileType::Png => String::from_str("png"),
            QrFileType::Svg => String::from_str("svg"),
        }
    }
}

/// The SVG image encoding a string as a QR code.
pub uninterp spec fn spec_qr_svg(data: Seq<char>) -> Seq<char>;

/// Whether a string fits into some QR code version: a function of the
/// data alone.
pub uninterp spec fn spec_qr_encodable(data: Seq<char>) -> bool;

/// Relies on qrcode::QrCode::new and its SVG renderer: the rendered
/// image depends on the encoded data alone, and encoding fails exactly
/// when the data does not fit any QR code version — a property of the
/// data alone.
#[verifier::external_body]
fn qr_svg(data: &str) -> (r: Option<String>)
    ensures
        r is Some <==> spec_qr_encodable(data@),
        match r {
            Some(svg) => svg@ == spec_qr_svg(data@),
            None => true,
        },
{
    match qrcode::QrCode::new(data.as_bytes()) {
        Ok(code) => Some(code.render::<qrcode::render::svg::Color>().build()),
        Err(_) => None,
    }
}

/// Render the QR SVG for a data string; the QR error comes exactly when
/// the data cannot be encoded.
pub fn qr_svg_image(data: &str) -> (r: Result<String, Error>)
    ensures
        r is Ok <==> spec_qr_encodable(data@),
        match r {
            Ok(svg) => svg@ == spec_qr_svg(data@),
            Err(e) => e is Qr,
        },
{
    match qr_svg(data) {
        Some(svg) => Ok(svg),
        None => Err(Error::Qr),
    }
}

/// The QR image served for a digest: the SVG encoding of that digest's
/// download URL. It succeeds exactly when that URL fits a QR code.
pub fn show_qr_image(server: &Server, digest: &str, interfaces: &Vec<HostAddr>) -> (r: Result<
    String,
    Error,
>)
    ensures
        r is Ok <==> spec_qr_encodable(
            server.spec_digest_url("sha512"@, digest@, interfaces@),
        ),
        match r {
            Ok(svg) => svg@ == spec_qr_svg(
                server.spec_digest_url("sha512"@, digest@, interfaces@),
            ),
            Err(e) => e is Qr,
        },
{
    let host = server.bind.primary_host(interfaces);
    let host_str = host_text(&host);
    let url = crate::url::compose_url(
        "http",
        host_str.as_str(),
        server.bind.port(),
        "sha512",
        digest,
    );
    qr_svg_image(url.as_str())
}

/// A prepared QR generation: the validated URL to encode, and the path
/// of the image file to write.
pub struct QrPlan {
    pub url: String,
    pub file_path: String,
}

/// The host encoded into a generated QR code: the bound address when it
/// is globally routable, else the first globally routable interface
/// address.
pub open spec fn spec_qr_host(addr: HostAddr, interfaces: Seq<HostAddr>) -> Option<HostAddr> {
    if spec_is_global_4(addr) {
        Some(addr)
    } else {
        spec_first_global(interfaces)
    }
}

/// The name of the generated image file inside its directory.
pub open spec fn spec_qr_file_name(
    dir: Seq<char>,
    method: Seq<char>,
    ft: ImageOptions,
) -> Seq<char> {
    dir + "/"@ + method + "_qrshare."@ + spec_image_text(ft)
}

/// Prepare the QR code file for a digest: choose a globally routable
/// host, compose and validate the URL, and name the image file. Fails
/// with the no-global-address error when no routable host exists, with
/// a URI error when the composition does not parse, and with an
/// input/output error when no image output was requested.
pub fn gen_qr(
    addr: &HostAddr,
    port: u16,
    digest: &str,
    method: &str,
    scheme: &str,
    ft: ImageOptions,
    dir: &str,
    interfaces: &Vec<HostAddr>,
) -> (r: Result<QrPlan, Error>)
    ensures
        match r {
            Ok(plan) => {
                &&& spec_qr_host(*addr, interfaces@) is Some
                &&& plan.url@ == spec_url(
                    scheme@,
                    spec_host_text(spec_qr_host(*addr, interfaces@).unwrap()),
                    port,
                    method@,
                    digest@,
                )
                &&& spec_uri_ok(plan.url@)
                &&& !(ft is NoImage)
                &&& plan.file_path@ == spec_qr_file_name(dir@, method@, ft)
            },
            Err(e) => match e {
                Error::NoGlobalIpv4 => spec_qr_host(*addr, interfaces@) is None,
                Error::Uri(u) => spec_qr_host(*addr, interfaces@) is Some && u@ == spec_url(
                    scheme@,
                    spec_host_text(spec_qr_host(*addr, interfaces@).unwrap()),
                    port,
                    method@,
                    digest@,
                ) && !spec_uri_ok(u@),
                Error::IO(k) => k is Other && spec_qr_host(*addr, interfaces@) is Some
                    && spec_uri_ok(
                    spec_url(
                        scheme@,
                        spec_host_text(spec_qr_host(*addr, interfaces@).unwrap()),
                        port,
                        method@,
                        digest@,
                    ),
                ) && ft is NoImage,
                _ => false,
            },
        },
{
    let host = if is_global_4(addr) {
        *addr
    } else {
        match get_first_net(interfaces) {
            Some(h) => h,
            None => {
                return Err(Error::NoGlobalIpv4);
            },
        }
    };
    let host_str = host_text(&host);
    let url = match checked_url(scheme, host_str.as_str(), port, method, digest) {
        Ok(u) => u,
        Err(e) => {
            return Err(e);
        },
    };
    match ft {
        ImageOptions::NoImage => Err(Error::IO(IoKind::Other)),
        _ => {
            let mut file_path = String::from_str(dir);
            file_path.append("/");
            file_path.append(method);
            file_path.append("_qrshare.");
            let ext = ft.text();
            file_path.append(ext.as_str());
            proof {
                assert(file_path@ =~= spec_qr_file_name(dir@, method@, ft));
            }
            Ok(QrPlan { url, file_path })
        },
    }
}

} // verus!
