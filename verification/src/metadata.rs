//! The metadata buffer that accompanies a container, and the two size
//! fields in it that follow the container's length.

use crate::container::{field_value, HEADER_LEN, TRAILER_LEN};
use crate::error::FormatError;
use crate::le32::{field_at, le_bytes, lemma_field_kept, lemma_field_written, put_u32, write_at};
use crate::locate::{find_field, lemma_locate, lookup, occurs, Lookup};
use vstd::prelude::*;

verus! {

/// Nominal offset of the field that holds the combined size.
pub const COMBINED_SIZE_OFFSET: usize = 0xA9;

/// What the container-size field holds for a container of `container_len`
/// bytes: its length without the trailer.
pub open spec fn container_size(container_len: int) -> int {
    container_len - TRAILER_LEN
}

/// What the combined-size field holds for a container of `container_len`
/// bytes beside metadata of `metadata_len` bytes.
pub open spec fn combined_size(container_len: int, metadata_len: int) -> int {
    container_len - TRAILER_LEN + metadata_len
}

/// Where the combined-size field of `metadata` is taken to start: where the
/// combined size for the old container first stands, or else at the nominal
/// offset.
pub open spec fn combined_offset(metadata: Seq<u8>, old_len: int) -> int {
    lookup(
        metadata,
        le_bytes(combined_size(old_len, metadata.len() as int) as u32),
    ).spec_or_nominal(COMBINED_SIZE_OFFSET) as int
}

/// The lookup of the container-size field of `metadata`: where the size of
/// the old container first stands. There is no offset to fall back on.
pub open spec fn container_lookup(metadata: Seq<u8>, old_len: int) -> Lookup {
    lookup(metadata, le_bytes(container_size(old_len) as u32))
}

/// Both combined sizes, and with them both container sizes, fit a field.
pub open spec fn sizes_fit(metadata_len: int, old_len: int, new_len: int) -> bool {
    &&& combined_size(old_len, metadata_len) <= u32::MAX
    &&& combined_size(new_len, metadata_len) <= u32::MAX
}

/// `metadata` with the combined size and then the container size rewritten
/// for a container of `new_len` bytes in place of one of `old_len` bytes.
pub open spec fn patched(metadata: Seq<u8>, old_len: int, new_len: int) -> Seq<u8>
    recommends
        container_lookup(metadata, old_len) is Located,
{
    let combined_at = combined_offset(metadata, old_len);
    let container_at = container_lookup(metadata, old_len)->Located_0 as int;
    write_at(
        write_at(
            metadata,
            combined_at,
            le_bytes(combined_size(new_len, metadata.len() as int) as u32),
        ),
        container_at,
        le_bytes(container_size(new_len) as u32),
    )
}

/// What `patch_metadata` does for each triple of inputs: the error it
/// returns, or the metadata it leaves.
pub open spec fn patch_result(metadata: Seq<u8>, old_len: int, new_len: int) -> Result<
    Seq<u8>,
    FormatError,
> {
    if old_len < HEADER_LEN + TRAILER_LEN || new_len < HEADER_LEN + TRAILER_LEN {
        Err(FormatError::ContainerTooSmall)
    } else if !sizes_fit(metadata.len() as int, old_len, new_len) {
        Err(FormatError::SizeTooLarge)
    } else if container_lookup(metadata, old_len) is Missing {
        Err(FormatError::SizeFieldNotFound)
    } else {
        Ok(patched(metadata, old_len, new_len))
    }
}

/// The two fields do not share a byte.
pub open spec fn fields_apart(a: int, b: int) -> bool {
    a + 4 <= b || b + 4 <= a
}

/// What patching sets: the container-size field holds the new container
/// size, and the combined-size field holds the new combined size wherever the
/// two fields do not share a byte. The metadata keeps its length unless the
/// combined-size field, at its nominal offset, reached beyond its end.
pub proof fn lemma_patched(metadata: Seq<u8>, old_len: int, new_len: int)
    requires
        old_len >= HEADER_LEN + TRAILER_LEN,
        new_len >= HEADER_LEN + TRAILER_LEN,
        sizes_fit(metadata.len() as int, old_len, new_len),
        container_lookup(metadata, old_len) is Located,
    ensures
        0 <= combined_offset(metadata, old_len),
        container_lookup(metadata, old_len)->Located_0 + 4 <= metadata.len(),
        patched(metadata, old_len, new_len).len() == if metadata.len() >= combined_offset(
            metadata,
            old_len,
        ) + 4 {
            metadata.len() as int
        } else {
            combined_offset(metadata, old_len) + 4
        },
        field_at(
            patched(metadata, old_len, new_len),
            container_lookup(metadata, old_len)->Located_0 as int,
        ) == container_size(new_len),
        fields_apart(
            combined_offset(metadata, old_len),
            container_lookup(metadata, old_len)->Located_0 as int,
        ) ==> field_at(patched(metadata, old_len, new_len), combined_offset(metadata, old_len))
            == combined_size(new_len, metadata.len() as int),
{
    let combined_at = combined_offset(metadata, old_len);
    let container_at = container_lookup(metadata, old_len)->Located_0 as int;
    let combined = combined_size(new_len, metadata.len() as int) as u32;
    let only = container_size(new_len) as u32;
    lemma_locate(metadata, le_bytes(container_size(old_len) as u32));
    lemma_locate(metadata, le_bytes(combined_size(old_len, metadata.len() as int) as u32));
    let once = write_at(metadata, combined_at, le_bytes(combined));
    lemma_field_written(metadata, combined_at, combined);
    lemma_field_written(once, container_at, only);
    if fields_apart(combined_at, container_at) {
        lemma_field_kept(once, container_at, le_bytes(only), combined_at);
    }
}

/// After a patch that succeeds, the combined-size field decodes to the length
/// of the new container without its trailer plus the length that the metadata
/// had, provided that the container-size field, which is written after it,
/// does not share a byte with it.
pub proof fn combined_size_patched(metadata: Seq<u8>, old_len: int, new_len: int)
    requires
        patch_result(metadata, old_len, new_len) is Ok,
        fields_apart(
            combined_offset(metadata, old_len),
            container_lookup(metadata, old_len)->Located_0 as int,
        ),
    ensures
        field_at(
            patch_result(metadata, old_len, new_len)->Ok_0,
            combined_offset(metadata, old_len),
        ) == new_len - TRAILER_LEN + metadata.len(),
{
    lemma_patched(metadata, old_len, new_len);
}

/// A patch fails whenever the size of the old container stands nowhere in the
/// metadata, and with `SizeFieldNotFound` when nothing else is wrong.
/// `patch_metadata` leaves the metadata of a failed patch as it was.
pub proof fn missing_container_size_is_fatal(metadata: Seq<u8>, old_len: int, new_len: int)
    requires
        !occurs(metadata, le_bytes(container_size(old_len) as u32)),
    ensures
        patch_result(metadata, old_len, new_len) is Err,
        old_len >= HEADER_LEN + TRAILER_LEN && new_len >= HEADER_LEN + TRAILER_LEN && sizes_fit(
            metadata.len() as int,
            old_len,
            new_len,
        ) ==> patch_result(metadata, old_len, new_len) == Err::<Seq<u8>, FormatError>(
            FormatError::SizeFieldNotFound,
        ),
{
    lemma_locate(metadata, le_bytes(container_size(old_len) as u32));
}

/// The combined size of a container of `container_len` bytes and metadata of
/// `metadata_len` bytes as the value of a field, where it fits one.
pub fn combined_value(container_len: usize, metadata_len: usize) -> (value: Option<u32>)
    requires
        container_len >= TRAILER_LEN,
    ensures
        match value {
            Some(v) => v == combined_size(container_len as int, metadata_len as int),
            None => combined_size(container_len as int, metadata_len as int) > u32::MAX,
        },
{
    match (field_value(container_len - TRAILER_LEN), field_value(metadata_len)) {
        (Some(container), Some(metadata)) => container.checked_add(metadata),
        _ => None,
    }
}

/// Rewrites the two size fields of `metadata` after its container changed
/// from `old_container` to `new_container`.
///
/// Both fields are looked up in `metadata` as it is before any write. The
/// combined-size field is taken to start where the old combined size first
/// stands, or else at its nominal offset; the new combined size, reckoned
/// with the length that `metadata` has before the call, is written there,
/// `metadata` being zero extended first where it is too short. The
/// container-size field starts where the old container size first stands,
/// and the new container size is written there afterwards.
///
/// Fails, leaving `metadata` as it was,
/// with `ContainerTooSmall` exactly when one of the containers is shorter
/// than a header and a trailer together; otherwise with `SizeTooLarge`
/// exactly when one of the combined sizes does not fit a field; otherwise
/// with `SizeFieldNotFound` exactly when the old container size stands
/// nowhere in `metadata`.
pub fn patch_metadata(metadata: &mut Vec<u8>, old_container: &[u8], new_container: &[u8]) -> (done:
    Result<(), FormatError>)
    ensures
        match done {
            Ok(()) => patch_result(
                old(metadata)@,
                old_container@.len() as int,
                new_container@.len() as int,
            ) == Ok::<Seq<u8>, FormatError>(final(metadata)@),
            Err(e) => patch_result(
                old(metadata)@,
                old_container@.len() as int,
                new_container@.len() as int,
            ) == Err::<Seq<u8>, FormatError>(e) && final(metadata)@ == old(metadata)@,
        },
        done is Ok ==> field_at(
            final(metadata)@,
            container_lookup(old(metadata)@, old_container@.len() as int)->Located_0 as int,
        ) == container_size(new_container@.len() as int),
        done is Ok && fields_apart(
            combined_offset(old(metadata)@, old_container@.len() as int),
            container_lookup(old(metadata)@, old_container@.len() as int)->Located_0 as int,
        ) ==> field_at(
            final(metadata)@,
            combined_offset(old(metadata)@, old_container@.len() as int),
        ) == combined_size(new_container@.len() as int, old(metadata)@.len() as int),
{
    if old_container.len() < HEADER_LEN + TRAILER_LEN || new_container.len() < HEADER_LEN
        + TRAILER_LEN {
        return Err(FormatError::ContainerTooSmall);
    }
    let old_combined: u32 = match combined_value(old_container.len(), metadata.len()) {
        Some(size) => size,
        None => { return Err(FormatError::SizeTooLarge); },
    };
    let new_combined: u32 = match combined_value(new_container.len(), metadata.len()) {
        Some(size) => size,
        None => { return Err(FormatError::SizeTooLarge); },
    };
    let old_only: u32 = (old_container.len() - TRAILER_LEN) as u32;
    let new_only: u32 = (new_container.len() - TRAILER_LEN) as u32;

    let combined_at: usize = find_field(metadata.as_slice(), old_combined).or_nominal(
        COMBINED_SIZE_OFFSET,
    );
    let container_at: usize = match find_field(metadata.as_slice(), old_only).located() {
        Some(at) => at,
        None => { return Err(FormatError::SizeFieldNotFound); },
    };
    proof {
        lemma_locate(old(metadata)@, le_bytes(old_combined));
        lemma_patched(old(metadata)@, old_container@.len() as int, new_container@.len() as int);
    }
    put_u32(metadata, combined_at, new_combined);
    put_u32(metadata, container_at, new_only);
    Ok(())
}

} // verus!
