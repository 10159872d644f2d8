//! The container: a fixed header, the embedded payload, and a trailer that
//! holds a marker.

use crate::error::FormatError;
use crate::le32::{
    field_at, get_u32, le_bytes, lemma_bytes_of_value, lemma_field_kept, lemma_field_written,
    put_u32, write_at,
};
use crate::locate::{find_field, lemma_locate, lookup, Lookup};
use vstd::prelude::*;

verus! {

/// Length of the header that precedes the payload.
pub const HEADER_LEN: usize = 0x34;

/// Length of the trailer that follows the payload and holds the marker.
pub const TRAILER_LEN: usize = 0x4;

/// Nominal offset of the doubled field that holds the payload's size.
pub const SIZE_OFFSET: usize = 0x24;

/// Length of the part of the header that is searched for the payload's size:
/// the offsets at which a doubled field can start and still end within the
/// header.
pub const SIZE_REGION_LEN: usize = 0x30;

/// `container` is long enough to hold a header and a trailer.
pub open spec fn is_container(container: Seq<u8>) -> bool {
    container.len() >= HEADER_LEN + TRAILER_LEN
}

/// The bytes between the header and the trailer.
pub open spec fn payload_of(container: Seq<u8>) -> Seq<u8>
    recommends
        is_container(container),
{
    container.subrange(HEADER_LEN as int, container.len() - TRAILER_LEN)
}

/// The bytes of the trailer.
pub open spec fn marker_of(container: Seq<u8>) -> Seq<u8>
    recommends
        is_container(container),
{
    container.subrange(container.len() - TRAILER_LEN, container.len() as int)
}

/// The lookup of the size of the payload of `container` in the searched part
/// of its header.
pub open spec fn size_lookup(container: Seq<u8>) -> Lookup
    recommends
        is_container(container),
{
    lookup(
        container.subrange(0, SIZE_REGION_LEN as int),
        le_bytes((container.len() - HEADER_LEN - TRAILER_LEN) as u32),
    )
}

/// Where the doubled size field of `container` is taken to start: where the
/// size of its payload first stands in the searched part of the header, or
/// else at the nominal offset.
pub open spec fn size_offset(container: Seq<u8>) -> int
    recommends
        is_container(container),
{
    size_lookup(container).spec_or_nominal(SIZE_OFFSET) as int
}

/// The sizes involved in putting `payload` into `container` can be stored:
/// both payload sizes fit a field and the new container fits in memory.
pub open spec fn sizes_fit(payload: Seq<u8>, container: Seq<u8>) -> bool {
    &&& container.len() - HEADER_LEN - TRAILER_LEN <= u32::MAX
    &&& payload.len() <= u32::MAX
    &&& HEADER_LEN + payload.len() + TRAILER_LEN <= usize::MAX
}

/// `container` with `payload` in place of its own: the header and the marker
/// are kept, and both slots of the doubled size field hold the new size.
pub open spec fn injected(payload: Seq<u8>, container: Seq<u8>) -> Seq<u8>
    recommends
        is_container(container),
        sizes_fit(payload, container),
{
    let at = size_offset(container);
    let size = le_bytes(payload.len() as u32);
    let body = container.subrange(0, HEADER_LEN as int) + payload + marker_of(container);
    write_at(write_at(body, at, size), at + 4, size)
}

/// What `inject` returns for each pair of inputs.
pub open spec fn inject_result(payload: Seq<u8>, container: Seq<u8>) -> Result<
    Seq<u8>,
    FormatError,
> {
    if !is_container(container) {
        Err(FormatError::ContainerTooSmall)
    } else if !sizes_fit(payload, container) {
        Err(FormatError::SizeTooLarge)
    } else {
        Ok(injected(payload, container))
    }
}

/// The doubled size field starts early enough to end within the header.
pub proof fn lemma_size_field_in_header(container: Seq<u8>)
    requires
        is_container(container),
    ensures
        0 <= size_offset(container),
        size_offset(container) + 8 <= HEADER_LEN,
{
    lemma_locate(
        container.subrange(0, SIZE_REGION_LEN as int),
        le_bytes((container.len() - HEADER_LEN - TRAILER_LEN) as u32),
    );
}

/// What injection keeps and what it sets: the result is a container of the
/// new length with the old header outside the size field, the new payload,
/// the old marker, and the new size in both slots of the size field.
pub proof fn lemma_injected(payload: Seq<u8>, container: Seq<u8>)
    requires
        is_container(container),
        sizes_fit(payload, container),
    ensures
        injected(payload, container).len() == HEADER_LEN + payload.len() + TRAILER_LEN,
        is_container(injected(payload, container)),
        payload_of(injected(payload, container)) == payload,
        marker_of(injected(payload, container)) == marker_of(container),
        field_at(injected(payload, container), size_offset(container)) == payload.len(),
        field_at(injected(payload, container), size_offset(container) + 4) == payload.len(),
        forall|i: int|
            0 <= i < HEADER_LEN && !(size_offset(container) <= i < size_offset(container) + 8)
                ==> #[trigger] injected(payload, container)[i] == container[i],
{
    lemma_size_field_in_header(container);
    let at = size_offset(container);
    let size = payload.len() as u32;
    let body = container.subrange(0, HEADER_LEN as int) + payload + marker_of(container);
    let once = write_at(body, at, le_bytes(size));
    let twice = write_at(once, at + 4, le_bytes(size));
    lemma_field_written(body, at, size);
    lemma_field_written(once, at + 4, size);
    lemma_field_kept(once, at + 4, le_bytes(size), at);
    assert(payload_of(twice) =~= payload);
    assert(marker_of(twice) =~= marker_of(container));
}

/// Injection followed by extraction gives the injected payload back: for
/// every container and every payload whose sizes can be stored, the injection
/// succeeds, its result is a container, and the payload of that container is
/// the payload that was injected.
pub proof fn round_trip(payload: Seq<u8>, container: Seq<u8>)
    requires
        is_container(container),
        sizes_fit(payload, container),
    ensures
        inject_result(payload, container) == Ok::<Seq<u8>, FormatError>(
            injected(payload, container),
        ),
        is_container(injected(payload, container)),
        payload_of(injected(payload, container)) == payload,
{
    lemma_injected(payload, container);
}

/// Injection keeps the marker: the last four bytes of the result are the last
/// four bytes of the container that was injected into.
pub proof fn marker_preserved(payload: Seq<u8>, container: Seq<u8>)
    requires
        is_container(container),
        sizes_fit(payload, container),
    ensures
        marker_of(injected(payload, container)) == marker_of(container),
        injected(payload, container).subrange(
            injected(payload, container).len() - 4,
            injected(payload, container).len() as int,
        ) == container.subrange(container.len() - 4, container.len() as int),
{
    lemma_injected(payload, container);
}

/// After an injection both slots of the doubled size field, at the offset at
/// which the field was located, decode to the length of the injected payload.
pub proof fn size_field_consistent(payload: Seq<u8>, container: Seq<u8>)
    requires
        is_container(container),
        sizes_fit(payload, container),
    ensures
        field_at(injected(payload, container), size_offset(container)) == payload.len(),
        field_at(injected(payload, container), size_offset(container) + 4) == payload.len(),
{
    lemma_injected(payload, container);
}

/// The payload embedded in `container`: its bytes from the end of the header
/// to the start of the trailer, as they are.
///
/// Fails with `ContainerTooSmall` exactly when `container` is shorter than a
/// header and a trailer together.
pub fn extract(container: &[u8]) -> (payload: Result<Vec<u8>, FormatError>)
    ensures
        match payload {
            Ok(bytes) => is_container(container@) && bytes@ == payload_of(container@),
            Err(e) => !is_container(container@) && e == FormatError::ContainerTooSmall,
        },
{
    if container.len() < HEADER_LEN + TRAILER_LEN {
        return Err(FormatError::ContainerTooSmall);
    }
    let payload = vstd::slice::slice_subrange(
        container,
        HEADER_LEN,
        container.len() - TRAILER_LEN,
    );
    Ok(vstd::slice::slice_to_vec(payload))
}

/// `size` as the value of a field, where it fits one.
pub fn field_value(size: usize) -> (value: Option<u32>)
    ensures
        match value {
            Some(v) => v == size,
            None => size > u32::MAX,
        },
{
    if size <= u32::MAX as usize {
        Some(size as u32)
    } else {
        None
    }
}

/// Copies `bytes` over `buf` from offset `at` on.
fn overwrite(buf: &mut Vec<u8>, at: usize, bytes: &[u8])
    requires
        at + bytes.len() <= old(buf).len(),
    ensures
        final(buf)@ == write_at(old(buf)@, at as int, bytes@),
{
    let mut i: usize = 0;
    while i < bytes.len()
        invariant
            i <= bytes.len(),
            at + bytes.len() <= buf.len(),
            buf@.len() == old(buf)@.len(),
            forall|j: int| 0 <= j < buf@.len() ==> buf@[j] == if at <= j < at + i {
                bytes@[j - at]
            } else {
                old(buf)@[j]
            },
        decreases bytes.len() - i,
    {
        buf[at + i] = bytes[i];
        i += 1;
    }
    assert(buf@ =~= write_at(old(buf)@, at as int, bytes@));
}

/// `container` with `new_payload` in place of its payload.
///
/// The result is `HEADER_LEN + new_payload.len() + TRAILER_LEN` bytes long.
/// It keeps the marker of `container` as its trailer, holds `new_payload`
/// after the header, and holds the new payload size in both slots of the
/// doubled size field. That field is taken to start where the old payload
/// size first stands in the searched part of the header of `container`, and
/// at the nominal offset where it stands nowhere there.
///
/// Fails with `ContainerTooSmall` exactly when `container` is shorter than a
/// header and a trailer together, and otherwise with `SizeTooLarge` exactly
/// when one of the two payload sizes does not fit a field or the result
/// would not fit in memory.
pub fn inject(new_payload: &[u8], container: &[u8]) -> (new_container: Result<
    Vec<u8>,
    FormatError,
>)
    ensures
        match new_container {
            Ok(bytes) => inject_result(new_payload@, container@) == Ok::<Seq<u8>, FormatError>(
                bytes@,
            ),
            Err(e) => inject_result(new_payload@, container@) == Err::<Seq<u8>, FormatError>(e),
        },
        new_container matches Ok(bytes) ==> {
            &&& bytes@.len() == HEADER_LEN + new_payload@.len() + TRAILER_LEN
            &&& payload_of(bytes@) == new_payload@
            &&& marker_of(bytes@) == marker_of(container@)
            &&& field_at(bytes@, size_offset(container@)) == new_payload@.len()
            &&& field_at(bytes@, size_offset(container@) + 4) == new_payload@.len()
        },
{
    if container.len() < HEADER_LEN + TRAILER_LEN {
        return Err(FormatError::ContainerTooSmall);
    }
    let old_size: u32 = match field_value(container.len() - HEADER_LEN - TRAILER_LEN) {
        Some(size) => size,
        None => { return Err(FormatError::SizeTooLarge); },
    };
    let new_size: u32 = match field_value(new_payload.len()) {
        Some(size) => size,
        None => { return Err(FormatError::SizeTooLarge); },
    };
    if new_payload.len() > usize::MAX - HEADER_LEN - TRAILER_LEN {
        return Err(FormatError::SizeTooLarge);
    }
    let marker: u32 = get_u32(container, container.len() - TRAILER_LEN);
    let at: usize = find_field(
        vstd::slice::slice_subrange(container, 0, SIZE_REGION_LEN),
        old_size,
    ).or_nominal(SIZE_OFFSET);
    proof {
        lemma_size_field_in_header(container@);
        lemma_bytes_of_value(marker_of(container@));
        lemma_injected(new_payload@, container@);
    }

    let mut bytes = vstd::slice::slice_to_vec(container);
    bytes.resize(HEADER_LEN + new_payload.len() + TRAILER_LEN, 0u8);
    overwrite(&mut bytes, HEADER_LEN, new_payload);
    put_u32(&mut bytes, HEADER_LEN + new_payload.len(), marker);
    assert(bytes@ =~= container@.subrange(0, HEADER_LEN as int) + new_payload@ + marker_of(
        container@,
    ));
    put_u32(&mut bytes, at, new_size);
    put_u32(&mut bytes, at + 4, new_size);
    Ok(bytes)
}

} // verus!
