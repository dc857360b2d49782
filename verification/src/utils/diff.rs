//! The binary differ adapter: bsdiff 4.x patches between two byte strings.

use vstd::prelude::*;
use vstd::slice::slice_subrange;
use crate::encoding::bytes_result;
use crate::error::ErrorKind;

verus! {

/// The longest old byte string the differ can index.
pub const MAX_SOURCE_LEN: usize = 0x7fff_ffff;

/// Bytes in the header of a patch: the magic, then three sizes.
pub const HEADER_LEN: usize = 32;

/// The bsdiff patch that turns `old` into `new`.
pub uninterp spec fn bsdiff_patch(old: Seq<u8>, new: Seq<u8>) -> Seq<u8>;

/// What applying a well-framed bsdiff patch to `old` reconstructs, if its
/// streams can be read to the end.
pub uninterp spec fn bspatch_target(old: Seq<u8>, patch: Seq<u8>) -> Option<Seq<u8>>;

/// The eight bytes that open every patch: `BSDIFF40`.
pub open spec fn magic() -> Seq<u8> {
    seq![0x42u8, 0x53u8, 0x44u8, 0x49u8, 0x46u8, 0x46u8, 0x34u8, 0x30u8]
}

/// The number that eight bytes spell, least significant byte first.
pub open spec fn little_endian(bytes: Seq<u8>) -> int {
    bytes[0] as int + bytes[1] as int * 0x100 + bytes[2] as int * 0x1_0000 + bytes[3] as int
        * 0x100_0000 + bytes[4] as int * 0x1_0000_0000 + bytes[5] as int * 0x100_0000_0000
        + bytes[6] as int * 0x1_0000_0000_0000 + bytes[7] as int * 0x100_0000_0000_0000
}

/// The size that the header field at `at` holds, if it is not negative:
/// the fields are in sign-magnitude form, the sign in the topmost bit.
pub open spec fn size_field(patch: Seq<u8>, at: int) -> Option<int> {
    let raw = little_endian(patch.subrange(at, at + 8));
    if raw < 0x8000_0000_0000_0000 {
        Some(raw)
    } else {
        None
    }
}

/// Whether a byte string is framed as a patch: it opens with the magic,
/// and the two compressed streams whose sizes the header gives, the
/// controls and the deltas, lie within it.
pub open spec fn well_framed(patch: Seq<u8>) -> bool {
    &&& patch.len() >= HEADER_LEN
    &&& patch.subrange(0, 8) == magic()
    &&& size_field(patch, 8) is Some
    &&& size_field(patch, 16) is Some
    &&& HEADER_LEN + size_field(patch, 8)->0 + size_field(patch, 16)->0 <= patch.len()
}

/// What applying a patch to `old` yields.
pub open spec fn patched(old: Seq<u8>, patch: Seq<u8>) -> Result<Seq<u8>, ErrorKind> {
    if !well_framed(patch) {
        Err(ErrorKind::InvalidPatch)
    } else {
        match bspatch_target(old, patch) {
            Some(target) => Ok(target),
            None => Err(ErrorKind::InvalidPatch),
        }
    }
}

/// `Bsdiff::compare` of the `qbsdiff` crate, on `Bsdiff::new(old, new)`
/// with its default settings, writing into memory.
///
/// Trusted: a patch always comes back, since the differ writes to memory
/// only and nothing it does there can fail; the patch is a function of the
/// two inputs, is framed as a patch, and reconstructs `new` when applied
/// to `old`.
#[verifier::external_body]
pub(crate) fn bsdiff_compare(old: &[u8], new: &[u8]) -> (patch: Option<Vec<u8>>)
    requires
        old@.len() <= MAX_SOURCE_LEN,
    ensures
        patch is Some,
        patch matches Some(p) ==> {
            &&& p@ == bsdiff_patch(old@, new@)
            &&& well_framed(p@)
            &&& bspatch_target(old@, p@) == Some(new@)
        },
{
    let mut patch = Vec::new();
    qbsdiff::Bsdiff::new(old, new).compare(std::io::Cursor::new(&mut patch)).ok()?;
    Some(patch)
}

/// `Bspatch::apply` of the `qbsdiff` crate, on `Bspatch::new(patch)` with
/// its default settings, writing into memory.
///
/// Trusted: for a well-framed patch the outcome is a function of the two
/// inputs.
#[verifier::external_body]
pub(crate) fn bspatch_apply(old: &[u8], patch: &[u8]) -> (target: Option<Vec<u8>>)
    requires
        well_framed(patch@),
    ensures
        target matches Some(t) ==> bspatch_target(old@, patch@) == Some(t@),
        target is None ==> bspatch_target(old@, patch@) is None,
{
    let mut target = Vec::new();
    qbsdiff::Bspatch::new(patch).ok()?.apply(old, std::io::Cursor::new(&mut target)).ok()?;
    Some(target)
}

/// What diffing yields: the differ's patch, unless `old` is longer than
/// the differ can index.
pub open spec fn diffed(old: Seq<u8>, new: Seq<u8>) -> Result<Seq<u8>, ErrorKind> {
    if old.len() > MAX_SOURCE_LEN {
        Err(ErrorKind::DiffFailed)
    } else {
        Ok(bsdiff_patch(old, new))
    }
}

/// Computes a patch that transforms `old` into `new`.
///
/// Fails, with `DiffFailed`, exactly when `old` is longer than the differ
/// can index. Otherwise the result is the bsdiff patch of the pair, and
/// applying it to `old` yields `new` byte for byte.
pub fn create_patch(old: &[u8], new: &[u8]) -> (patch: Result<Vec<u8>, ErrorKind>)
    ensures
        bytes_result(patch) == diffed(old@, new@),
        patch matches Ok(p) ==> patched(old@, p@) == Ok::<Seq<u8>, ErrorKind>(new@),
{
    if old.len() > MAX_SOURCE_LEN {
        return Err(ErrorKind::DiffFailed);
    }
    match bsdiff_compare(old, new) {
        Some(p) => Ok(p),
        None => Err(ErrorKind::DiffFailed),
    }
}

/// Reads eight bytes as a number, least significant byte first.
fn read_little_endian(bytes: &[u8]) -> (value: u64)
    requires
        bytes@.len() == 8,
    ensures
        value == little_endian(bytes@),
{
    (bytes[0] as u64) + (bytes[1] as u64) * 0x100 + (bytes[2] as u64) * 0x1_0000 + (
    bytes[3] as u64) * 0x100_0000 + (bytes[4] as u64) * 0x1_0000_0000 + (bytes[5] as u64)
        * 0x100_0000_0000 + (bytes[6] as u64) * 0x1_0000_0000_0000 + (bytes[7] as u64)
        * 0x100_0000_0000_0000
}

/// Whether the first eight bytes are the magic.
fn opens_with_magic(patch: &[u8]) -> (ok: bool)
    requires
        patch@.len() >= 8,
    ensures
        ok == (patch@.subrange(0, 8) == magic()),
{
    let ok = patch[0] == 0x42 && patch[1] == 0x53 && patch[2] == 0x44 && patch[3] == 0x49
        && patch[4] == 0x46 && patch[5] == 0x46 && patch[6] == 0x34 && patch[7] == 0x30;
    proof {
        let head = patch@.subrange(0, 8);
        if ok {
            assert(head =~= magic());
        } else {
            assert(head[0] == patch@[0] && head[1] == patch@[1] && head[2] == patch@[2]
                && head[3] == patch@[3] && head[4] == patch@[4] && head[5] == patch@[5]
                && head[6] == patch@[6] && head[7] == patch@[7]);
        }
    }
    ok
}

/// Checks that a byte string is framed as a patch.
pub fn is_well_framed(patch: &[u8]) -> (ok: bool)
    ensures
        ok == well_framed(patch@),
{
    if patch.len() < HEADER_LEN {
        return false;
    }
    if !opens_with_magic(patch) {
        return false;
    }
    let controls = read_little_endian(slice_subrange(patch, 8, 16));
    let deltas = read_little_endian(slice_subrange(patch, 16, 24));
    if controls >= 0x8000_0000_0000_0000 || deltas >= 0x8000_0000_0000_0000 {
        return false;
    }
    let room = (patch.len() - HEADER_LEN) as u64;
    controls <= room && deltas <= room - controls
}

/// Applies a patch to `old`.
///
/// Fails with `InvalidPatch` when the patch is not framed as one, and when
/// its streams cannot be read to the end; otherwise returns what the patch
/// reconstructs. For a patch that [`create_patch`] made from `old` and
/// `new`, that is `new`.
pub fn apply_patch(old: &[u8], patch: &[u8]) -> (target: Result<Vec<u8>, ErrorKind>)
    ensures
        bytes_result(target) == patched(old@, patch@),
{
    if !is_well_framed(patch) {
        return Err(ErrorKind::InvalidPatch);
    }
    match bspatch_apply(old, patch) {
        Some(t) => Ok(t),
        None => Err(ErrorKind::InvalidPatch),
    }
}

} // verus!
