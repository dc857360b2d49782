use hotpatch::error::ErrorKind;
use hotpatch::utils::diff::{apply_patch, create_patch, is_well_framed};

fn apply(old: &[u8], patch: &[u8]) -> Vec<u8> {
    let mut target = Vec::new();
    qbsdiff::Bspatch::new(patch)
        .unwrap()
        .apply(old, std::io::Cursor::new(&mut target))
        .unwrap();
    assert_eq!(apply_patch(old, patch), Ok(target.clone()));
    target
}

fn framed(controls: u64, deltas: u64, body: usize) -> Vec<u8> {
    let mut patch = b"BSDIFF40".to_vec();
    patch.extend_from_slice(&controls.to_le_bytes());
    patch.extend_from_slice(&deltas.to_le_bytes());
    patch.extend_from_slice(&0u64.to_le_bytes());
    patch.extend(std::iter::repeat(0u8).take(body));
    patch
}

fn sample(len: usize, seed: u32) -> Vec<u8> {
    let mut state = seed;
    (0..len)
        .map(|_| {
            state = state.wrapping_mul(1664525).wrapping_add(1013904223);
            (state >> 24) as u8
        })
        .collect()
}

#[test]
fn applying_the_patch_gives_the_new_bytes() {
    let old = sample(4000, 1);
    let mut new = old.clone();
    new[100] ^= 0xff;
    new.extend_from_slice(b"appended at the end");
    new.drain(2000..2100);
    let patch = create_patch(&old, &new).unwrap();
    assert_eq!(apply(&old, &patch), new);
}

#[test]
fn patch_between_unrelated_inputs() {
    let old = sample(3000, 7);
    let new = sample(5000, 11);
    let patch = create_patch(&old, &new).unwrap();
    assert_eq!(apply(&old, &patch), new);
}

#[test]
fn patch_of_identical_inputs_reproduces_them() {
    let old = sample(2500, 3);
    let patch = create_patch(&old, &old).unwrap();
    assert_eq!(apply(&old, &patch), old);
}

#[test]
fn patch_from_and_to_nothing() {
    let new = b"from nothing".to_vec();
    let patch = create_patch(&[], &new).unwrap();
    assert_eq!(apply(&[], &patch), new);
    let patch = create_patch(&new, &[]).unwrap();
    assert_eq!(apply(&new, &patch), Vec::<u8>::new());
    let patch = create_patch(&[], &[]).unwrap();
    assert_eq!(apply(&[], &patch), Vec::<u8>::new());
}

#[test]
fn patch_is_in_bsdiff_format_and_not_an_input() {
    let old = sample(1000, 5);
    let new = sample(1000, 6);
    let patch = create_patch(&old, &new).unwrap();
    assert_eq!(&patch[..8], b"BSDIFF40");
    assert_ne!(patch, old);
    assert_ne!(patch, new);
}

#[test]
fn patch_of_similar_inputs_is_small() {
    let old = sample(20000, 9);
    let mut new = old.clone();
    new[10000] = new[10000].wrapping_add(1);
    let patch = create_patch(&old, &new).unwrap();
    assert!(patch.len() < 2000);
    assert_eq!(apply(&old, &patch), new);
}

#[test]
fn patching_is_repeatable() {
    let old = sample(3000, 21);
    let new = sample(3100, 22);
    assert_eq!(create_patch(&old, &new), create_patch(&old, &new));
}

#[test]
fn inserting_in_the_middle() {
    let patch = create_patch(b"abcdef", b"abcxyzdef").unwrap();
    assert_eq!(apply_patch(b"abcdef", &patch), Ok(b"abcxyzdef".to_vec()));
    assert_eq!(apply(b"abcdef", &patch).len(), 9);
}

#[test]
fn made_patches_are_well_framed() {
    assert!(is_well_framed(&create_patch(&sample(500, 1), &sample(600, 2)).unwrap()));
    assert!(is_well_framed(&create_patch(&[], &[]).unwrap()));
}

#[test]
fn framing_is_checked_field_by_field() {
    assert!(is_well_framed(&framed(0, 0, 0)));
    assert!(is_well_framed(&framed(3, 4, 7)));
    assert!(is_well_framed(&framed(3, 4, 8)));
    assert!(is_well_framed(&framed(0x0102, 0x0304, 0x0102 + 0x0304)));
    assert!(!is_well_framed(&framed(0x0102, 0x0304, 0x0102 + 0x0303)));
    assert!(!is_well_framed(&framed(3, 4, 6)));
    assert!(!is_well_framed(&framed(8, 0, 7)));
    assert!(!is_well_framed(&framed(0, 8, 7)));
    assert!(!is_well_framed(&framed(1 << 63, 0, 10)));
    assert!(!is_well_framed(&framed(0, (1 << 63) | 1, 10)));
    assert!(!is_well_framed(&framed(u64::MAX, u64::MAX, 10)));
    assert!(!is_well_framed(&framed((1 << 63) - 1, (1 << 63) - 1, 10)));
    assert!(!is_well_framed(&framed(1 << 56, 0, 10)));
}

#[test]
fn framing_needs_header_and_magic() {
    assert!(!is_well_framed(&[]));
    assert!(!is_well_framed(b"BSDIFF40"));
    assert!(!is_well_framed(&framed(0, 0, 0)[..31]));
    for i in 0..8 {
        let mut patch = framed(0, 0, 0);
        patch[i] ^= 0x20;
        assert!(!is_well_framed(&patch), "byte {}", i);
    }
}

#[test]
fn applying_what_is_no_patch_fails() {
    assert_eq!(apply_patch(b"old", &[]), Err(ErrorKind::InvalidPatch));
    assert_eq!(apply_patch(b"old", b"not a patch at all, though long enough to be"), Err(ErrorKind::InvalidPatch));
    assert_eq!(apply_patch(b"old", &framed(u64::MAX, 0, 4)), Err(ErrorKind::InvalidPatch));
    assert_eq!(apply_patch(b"old", &framed(9, 9, 4)), Err(ErrorKind::InvalidPatch));
}

#[test]
fn applying_a_truncated_patch_fails() {
    let old = sample(3000, 31);
    let new = sample(3000, 32);
    let patch = create_patch(&old, &new).unwrap();
    assert_eq!(apply_patch(&old, &patch[..40]), Err(ErrorKind::InvalidPatch));
    assert_eq!(apply_patch(&old, &patch[..32]), Err(ErrorKind::InvalidPatch));
}

#[test]
fn applying_to_other_bytes_gives_other_bytes() {
    let old = sample(2000, 41);
    let mut new = old.clone();
    new[5] ^= 1;
    let patch = create_patch(&old, &new).unwrap();
    let mut other = old.clone();
    other[1500] ^= 0x10;
    assert_eq!(apply_patch(&old, &patch), Ok(new.clone()));
    assert_ne!(apply_patch(&other, &patch), Ok(new));
}
