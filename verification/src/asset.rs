//! `.mrb` files: the bytes of a RITE binary, checked when they are loaded.
use vstd::prelude::*;

verus! {

/// `std::io::Error`: what reading a file failed with.
#[verifier::external_type_specification]
#[verifier::external_body]
pub struct ExIoError(std::io::Error);

/// The bytes of a RITE binary (`.mrb`).
pub struct MrbAsset {
    pub bytes: Vec<u8>,
}

/// Why a `.mrb` file did not load.
pub enum MrbLoadError {
    /// The file could not be read.
    Io(std::io::Error),
    /// The bytes are not a RITE binary the VM can run; the text says why.
    Rite(String),
}

/// Loads `.mrb` files as [`MrbAsset`]s.
pub struct MrbLoader;

/// What SabiRuby's `rite::parse` decides about these bytes: `None` where it reads them as a
/// RITE binary, or the text of the error it refuses them with (`VmError::to_string`).
pub uninterp spec fn rite_refusal(bytes: Seq<u8>) -> Option<Seq<char>>;

/// The four bytes every RITE binary starts with.
pub open spec fn rite_magic() -> Seq<u8> {
    seq![0x52u8, 0x49u8, 0x54u8, 0x45u8]
}

/// The version this VM reads: `0400`.
pub open spec fn rite_version() -> Seq<u8> {
    seq![0x30u8, 0x34u8, 0x30u8, 0x30u8]
}

/// The first four bytes are `RITE`.
pub open spec fn starts_with_magic(bytes: Seq<u8>) -> bool {
    bytes.len() >= 4 && bytes.subrange(0, 4) == rite_magic()
}

/// The text an optional `String` holds.
pub open spec fn text_of(s: Option<String>) -> Option<Seq<char>> {
    match s {
        Some(t) => Some(t@),
        None => None,
    }
}

/// Four bytes or more, and the first four are not `RITE`.
pub open spec fn lacks_magic(bytes: Seq<u8>) -> bool {
    bytes.len() >= 4 && !starts_with_magic(bytes)
}

/// The bytes are long enough for the 20-byte header and start with `RITE` and `0400`.
pub open spec fn has_rite_header(bytes: Seq<u8>) -> bool {
    &&& bytes.len() >= 20
    &&& starts_with_magic(bytes)
    &&& bytes.subrange(4, 8) == rite_version()
}

/// What `rite::parse` says of bytes that do not start with `RITE`.
pub open spec fn bad_identifier_text() -> Seq<char> {
    "invalid RITE binary: bad identifier (expected RITE)"@
}

/// `sabiruby::rite::parse`, reduced to the text of its error, `None` where it succeeded.
/// The verdict is named (`rite_refusal`). What `parse` shows in its first lines is stated as
/// well: it accepts nothing shorter than its 20-byte header, nothing that does not start with
/// `RITE` and the version `0400`, and where the first four bytes are not `RITE` it says so.
/// `parse` reads nested records by recursion, with no limit on the depth, so a binary nested
/// deeply enough runs out of stack before it answers; the depth at which that happens is the
/// machine's, not the bytes', so no `requires` here excludes it.
#[verifier::external_body]
fn rite_check(bytes: &[u8]) -> (r: Option<String>)
    ensures
        text_of(r) == rite_refusal(bytes@),
        r is None ==> has_rite_header(bytes@),
        lacks_magic(bytes@) ==> text_of(r) == Some(bad_identifier_text()),
{
    sabiruby::rite::parse(bytes).err().map(|e| e.to_string())
}

impl MrbLoader {
    /// What becomes of the bytes of a `.mrb` file: an asset where the VM reads them as a RITE
    /// binary, so that a broken file fails when it is loaded and not when a script is spawned
    /// from it; otherwise the parser's complaint.
    pub fn load(&self, bytes: Vec<u8>) -> (r: Result<MrbAsset, MrbLoadError>)
        ensures
            rite_refusal(bytes@) is None ==> (r matches Ok(asset) && asset.bytes@ == bytes@),
            rite_refusal(bytes@) matches Some(why) ==> (r matches Err(MrbLoadError::Rite(e)) && e@ == why),
    {
        match rite_check(bytes.as_slice()) {
            None => Ok(MrbAsset { bytes }),
            Some(e) => Err(MrbLoadError::Rite(e)),
        }
    }

    /// The file extensions this loader takes: `mrb`.
    pub fn extensions(&self) -> (r: Vec<&'static str>)
        ensures
            r@.len() == 1,
            r@[0]@ == "mrb"@,
    {
        let mut v = Vec::new();
        v.push("mrb");
        v
    }
}

} // verus!
