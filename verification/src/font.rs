//! Korean font discovery helpers.
use vstd::prelude::*;

verus! {

/// Font files tried, in order, for Hangul coverage. Only single-face `.ttf`
/// files: `.ttc` collections would need a face index.
pub const KOREAN_FONT_FILES: [&'static str; 4] = [
    "malgun.ttf",
    "malgunsl.ttf",
    "NanumGothic.ttf",
    "NotoSansKR-Regular.ttf",
];

/// The first four bytes are a single-face sfnt signature: TrueType
/// (`00 01 00 00`), CFF (`OTTO`) or legacy Apple (`true`).
pub open spec fn sfnt_signature(bytes: Seq<u8>) -> bool {
    bytes.len() >= 4 && (
        (bytes[0] == 0 && bytes[1] == 1 && bytes[2] == 0 && bytes[3] == 0)
        || (bytes[0] == 0x4f && bytes[1] == 0x54 && bytes[2] == 0x54 && bytes[3] == 0x4f)
        || (bytes[0] == 0x74 && bytes[1] == 0x72 && bytes[2] == 0x75 && bytes[3] == 0x65))
}

/// Minimal sanity check for a single-face sfnt font; `ttcf` collections,
/// short buffers and other files are rejected.
pub fn looks_like_sfnt(bytes: &[u8]) -> (yes: bool)
    ensures
        yes == sfnt_signature(bytes@),
{
    if bytes.len() < 4 {
        return false;
    }
    let (a, b, c, d) = (bytes[0], bytes[1], bytes[2], bytes[3]);
    (a == 0 && b == 1 && c == 0 && d == 0) || (a == 0x4f && b == 0x54 && c == 0x54 && d == 0x4f)
        || (a == 0x74 && b == 0x72 && c == 0x75 && d == 0x65)
}

} // verus!
