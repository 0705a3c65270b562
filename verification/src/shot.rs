//! The screenshot reply: raw pixels from the capture are encoded as PNG
//! and then as base64 text.
use vstd::prelude::*;
use crate::json::{jview, Json, JsonM};
use crate::rpc::{RpcId, RpcResponse};
use vstd::string::StringExecFns;

verus! {

/// The PNG encoding of an RGBA8 pixel buffer: a function of the pixels and
/// the dimensions alone.
pub uninterp spec fn png_of(rgba: Seq<u8>, width: nat, height: nat) -> Seq<u8>;

/// Whether the PNG encoder accepts an RGBA8 buffer of these dimensions:
/// like the encoding itself, a function of the arguments alone.
pub uninterp spec fn png_ok(rgba: Seq<u8>, width: nat, height: nat) -> bool;

/// The standard base64 text of a byte string: a function of the bytes
/// alone.
pub uninterp spec fn b64_of(bytes: Seq<u8>) -> Seq<char>;

/// Relies on image's PngEncoder and its ImageEncoder::write_image: the PNG
/// bytes depend on the pixel buffer and dimensions alone. write_image
/// panics when the buffer length disagrees with the dimensions, so that is
/// required away.
#[verifier::external_body]
fn png_encode_rgba(rgba: &Vec<u8>, width: u32, height: u32) -> (r: Result<Vec<u8>, String>)
    requires
        rgba@.len() == 4 * (width as int) * (height as int),
    ensures
        r is Ok <==> png_ok(rgba@, width as nat, height as nat),
        r matches Ok(b) ==> b@ == png_of(rgba@, width as nat, height as nat),
{
    let mut buf = Vec::new();
    let enc = image::codecs::png::PngEncoder::new(&mut buf);
    match image::ImageEncoder::write_image(
        enc,
        rgba,
        width,
        height,
        image::ExtendedColorType::Rgba8,
    ) {
        Ok(()) => Ok(buf),
        Err(e) => Err(e.to_string()),
    }
}

/// Relies on base64's general_purpose::STANDARD engine: the padded text
/// depends on the bytes alone, four characters for every started three
/// bytes.
#[verifier::external_body]
fn b64_encode(bytes: &Vec<u8>) -> (r: String)
    ensures
        r@ == b64_of(bytes@),
        r@.len() == 4 * ((bytes@.len() + 2) / 3),
{
    base64::Engine::encode(&base64::engine::general_purpose::STANDARD, bytes)
}

/// The reply to `window.screenshot`, built from what the capture returned:
/// the pixels as base64 PNG text, or the capture-scoped failure code when
/// the buffer does not fit its stated dimensions or the encoder fails.
pub fn screenshot_response(rpc_id: RpcId, width: u32, height: u32, rgba: Vec<u8>) -> (r:
    RpcResponse)
    ensures
        rgba@.len() == 4 * (width as int) * (height as int) && png_ok(
            rgba@,
            width as nat,
            height as nat,
        ) ==> (r matches RpcResponse::Result { id, result } && id == rpc_id && jview(result)
            == JsonM::Obj(
            seq![("base64Png"@, JsonM::Str(b64_of(png_of(rgba@, width as nat, height as nat))))],
        )),
        rgba@.len() == 4 * (width as int) * (height as int) && !png_ok(
            rgba@,
            width as nat,
            height as nat,
        ) ==> (r matches RpcResponse::Error { id, error } && id == rpc_id && error.code as int
            == -33010),
        rgba@.len() != 4 * (width as int) * (height as int) ==> (r matches RpcResponse::Error {
            id,
            error,
        } && id == rpc_id && error.code as int == -33010),
{
    proof {
        assert(4u128 * (width as u128) * (height as u128) <= 4u128 * 0xFFFF_FFFFu128
            * 0xFFFF_FFFFu128) by (nonlinear_arith)
            requires
                width as u128 <= 0xFFFF_FFFFu128,
                height as u128 <= 0xFFFF_FFFFu128,
        ;
    }
    let need: u128 = 4u128 * (width as u128) * (height as u128);
    if (rgba.len() as u128) != need {
        return RpcResponse::error(
            rpc_id,
            -33010,
            String::from_str("capture buffer does not match its dimensions"),
        );
    }
    match png_encode_rgba(&rgba, width, height) {
        Ok(png) => {
            let b = b64_encode(&png);
            RpcResponse::result(rpc_id, crate::reply::str_field_obj("base64Png", b))
        },
        Err(m) => RpcResponse::error(rpc_id, -33010, m),
    }
}

} // verus!
