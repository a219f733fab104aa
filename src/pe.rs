//! Locating the bytecode inside a 64-bit PE image: the bytes of the first
//! section flagged as holding code.
use vstd::prelude::*;
use pelite::pe64::{Pe, PeFile};

verus! {

/// Why no bytecode could be taken from an image.
#[derive(Debug, Clone, Copy, PartialEq, Eq, Structural)]
pub enum ImageError {
    /// The bytes are not a 64-bit PE image that pelite accepts.
    NotPe,
    /// No section is flagged as holding code.
    NoCodeSection,
    /// The code section's bytes lie outside the image.
    BadSection,
}

/// Relies on `pelite::image::IMAGE_SCN_CNT_CODE`, the section flag for
/// code, which pelite defines as 0x20.
#[verifier::external_body]
fn code_flag() -> (f: u32)
    ensures
        f == 0x20,
{
    pelite::image::IMAGE_SCN_CNT_CODE
}

/// Relies on pelite's `PeFile::from_bytes` and `section_headers`: the
/// `Characteristics` of each section header, in order, or `None` where
/// pelite rejects the image. Whether it does depends on where the bytes
/// lie in memory too (it asks for 4-byte alignment), so nothing is claimed
/// of the outcome.
#[verifier::external_body]
fn section_characteristics(image: &[u8]) -> Option<Vec<u32>> {
    match PeFile::from_bytes(image) {
        Ok(file) => Some(file.section_headers().iter().map(|h| h.Characteristics).collect()),
        Err(_) => None,
    }
}

/// Relies on pelite's `PeFile::from_bytes`, `section_headers` and
/// `get_section_bytes`: the file bytes of section `index`, or `None` where
/// pelite rejects the image or the section. Nothing is claimed of the
/// outcome, for the reason given above.
#[verifier::external_body]
fn section_bytes(image: &[u8], index: usize) -> Option<Vec<u8>> {
    let file = PeFile::from_bytes(image).ok()?;
    let header = file.section_headers().as_slice().get(index)?;
    file.get_section_bytes(header).ok().map(|bytes| bytes.to_vec())
}

/// The section flags `flags` mark a code section.
pub open spec fn is_code_section(flags: u32) -> bool {
    flags & 0x20u32 != 0
}

/// The index of the first section whose flags mark it as code.
pub fn first_code_section(characteristics: &Vec<u32>) -> (r: Option<usize>)
    ensures
        r matches Some(i) ==> i < characteristics@.len() && is_code_section(characteristics@[i as int])
            && forall|j: int| 0 <= j < i ==> !is_code_section(#[trigger] characteristics@[j]),
        r is None ==> forall|j: int|
            0 <= j < characteristics@.len() ==> !is_code_section(#[trigger] characteristics@[j]),
{
    let flag = code_flag();
    let mut i: usize = 0;
    while i < characteristics.len()
        invariant
            flag == 0x20,
            i <= characteristics@.len(),
            forall|j: int| 0 <= j < i ==> !is_code_section(#[trigger] characteristics@[j]),
        decreases characteristics@.len() - i,
    {
        if characteristics[i] & flag != 0 {
            return Some(i);
        }
        i = i + 1;
    }
    None
}

/// The bytes of the first code section of a 64-bit PE image. What pelite
/// reports of the image decides the outcome; `first_code_section` decides
/// which section is taken.
pub fn code_section(image: &[u8]) -> Result<Vec<u8>, ImageError> {
    let characteristics = match section_characteristics(image) {
        Some(c) => c,
        None => {
            return Err(ImageError::NotPe);
        },
    };
    match first_code_section(&characteristics) {
        Some(index) => match section_bytes(image, index) {
            Some(bytes) => Ok(bytes),
            None => Err(ImageError::BadSection),
        },
        None => Err(ImageError::NoCodeSection),
    }
}

} // verus!
