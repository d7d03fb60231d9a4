use cilmeta::error::AssemblyReadError;
use cilmeta::heap::{
    decode_blob_compressed_value, find_terminator, get_blob, guid_in_heap, read_guids,
    str_in_heap, text_from_bytes, BlobIndex, GUIDIndex, HeapSizes, StringIndex,
};

#[test]
fn compressed_one_byte() {
    let bytes = [0x03u8, 0xaa];
    let mut cursor: &[u8] = &bytes;
    assert_eq!(decode_blob_compressed_value(&mut cursor), Ok(3));
    assert_eq!(cursor, &[0xaa]);
}

#[test]
fn compressed_two_bytes() {
    let bytes = [0x80u8, 0x80];
    let mut cursor: &[u8] = &bytes;
    assert_eq!(decode_blob_compressed_value(&mut cursor), Ok(128));
    assert!(cursor.is_empty());
}

#[test]
fn compressed_four_bytes() {
    let bytes = [0xC0u8, 0x00, 0x00, 0x00];
    let mut cursor: &[u8] = &bytes;
    assert_eq!(decode_blob_compressed_value(&mut cursor), Ok(0));
    assert!(cursor.is_empty());
}

#[test]
fn compressed_keeps_the_high_bits() {
    let mut cursor: &[u8] = &[0xBF, 0xFF];
    assert_eq!(decode_blob_compressed_value(&mut cursor), Ok(0x3FFF));
    let mut cursor: &[u8] = &[0x81, 0x02];
    assert_eq!(decode_blob_compressed_value(&mut cursor), Ok(0x0102));
    let mut cursor: &[u8] = &[0xDF, 0xFF, 0xFF, 0xFF];
    assert_eq!(decode_blob_compressed_value(&mut cursor), Ok(0x1FFF_FFFF));
    let mut cursor: &[u8] = &[0xC1, 0x02, 0x03, 0x04];
    assert_eq!(decode_blob_compressed_value(&mut cursor), Ok(0x0102_0304));
    let mut cursor: &[u8] = &[0x7F];
    assert_eq!(decode_blob_compressed_value(&mut cursor), Ok(0x7F));
}

#[test]
fn compressed_with_all_tag_bits_set_is_four_bytes() {
    let mut cursor: &[u8] = &[0xFF, 0x00, 0x00, 0x01, 0x55];
    assert_eq!(decode_blob_compressed_value(&mut cursor), Ok(0x1F00_0001));
    assert_eq!(cursor, &[0x55]);
}

#[test]
fn compressed_cut_short_consumes_nothing() {
    let mut cursor: &[u8] = &[];
    assert_eq!(decode_blob_compressed_value(&mut cursor), Err(AssemblyReadError::UnexpectedEnd));
    let bytes = [0x80u8];
    let mut cursor: &[u8] = &bytes;
    assert_eq!(decode_blob_compressed_value(&mut cursor), Err(AssemblyReadError::UnexpectedEnd));
    assert_eq!(cursor, &[0x80]);
    let bytes = [0xC0u8, 1, 2];
    let mut cursor: &[u8] = &bytes;
    assert_eq!(decode_blob_compressed_value(&mut cursor), Err(AssemblyReadError::UnexpectedEnd));
    assert_eq!(cursor, &[0xC0, 1, 2]);
}

#[test]
fn blob_lookup() {
    let heap = [0x00u8, 0x03, 0xa, 0xb, 0xc, 0x00, 0x80, 0x02, 0x1, 0x2];
    assert_eq!(get_blob(&heap, BlobIndex(0)), Ok(&heap[1..1]));
    assert_eq!(get_blob(&heap, BlobIndex(1)), Ok(&heap[2..5]));
    assert_eq!(get_blob(&heap, BlobIndex(5)), Ok(&heap[6..6]));
    assert_eq!(get_blob(&heap, BlobIndex(6)), Ok(&heap[8..10]));
}

#[test]
fn blob_lookup_out_of_the_heap() {
    let heap = [0x00u8, 0x03, 0xa, 0xb];
    assert_eq!(get_blob(&heap, BlobIndex(1)), Err(AssemblyReadError::InvalidHeapIndex));
    assert_eq!(get_blob(&heap, BlobIndex(4)), Err(AssemblyReadError::InvalidHeapIndex));
    assert_eq!(get_blob(&heap, BlobIndex(5)), Err(AssemblyReadError::InvalidHeapIndex));
    assert_eq!(get_blob(&heap, BlobIndex(u32::MAX)), Err(AssemblyReadError::InvalidHeapIndex));
    assert_eq!(get_blob(&[0x80], BlobIndex(0)), Err(AssemblyReadError::InvalidHeapIndex));
}

#[test]
fn string_lookup() {
    let heap = b"\0Program\0Main\0";
    assert_eq!(str_in_heap(heap, StringIndex(1)), Ok("Program"));
    assert_eq!(str_in_heap(heap, StringIndex(4)), Ok("gram"));
    assert_eq!(str_in_heap(heap, StringIndex(9)), Ok("Main"));
    assert_eq!(str_in_heap(heap, StringIndex(0)), Ok(""));
    assert_eq!(str_in_heap(heap, StringIndex(13)), Ok(""));
}

#[test]
fn string_lookup_out_of_the_heap() {
    let heap = b"\0Program\0Main";
    assert_eq!(str_in_heap(heap, StringIndex(9)), Err(AssemblyReadError::InvalidHeapIndex));
    assert_eq!(str_in_heap(heap, StringIndex(13)), Err(AssemblyReadError::InvalidHeapIndex));
    assert_eq!(str_in_heap(heap, StringIndex(400)), Err(AssemblyReadError::InvalidHeapIndex));
    assert_eq!(str_in_heap(&[], StringIndex(0)), Err(AssemblyReadError::InvalidHeapIndex));
}

#[test]
fn string_lookup_checks_the_encoding() {
    let heap = [0u8, 0xc3, 0xa9, 0x74, 0xc3, 0xa9, 0, 0xff, 0xfe, 0, 0xc3, 0];
    assert_eq!(str_in_heap(&heap, StringIndex(1)), Ok("\u{e9}t\u{e9}"));
    assert_eq!(str_in_heap(&heap, StringIndex(7)), Err(AssemblyReadError::InvalidEncoding));
    assert_eq!(str_in_heap(&heap, StringIndex(2)), Err(AssemblyReadError::InvalidEncoding));
    assert_eq!(str_in_heap(&heap, StringIndex(10)), Err(AssemblyReadError::InvalidEncoding));
}

#[test]
fn text_is_what_the_bytes_spell() {
    assert_eq!(text_from_bytes(b"v4.0.30319"), Ok("v4.0.30319"));
    assert_eq!(text_from_bytes(&[]), Ok(""));
    assert_eq!(text_from_bytes(&[0xe2, 0x82, 0xac]), Ok("\u{20ac}"));
    assert_eq!(text_from_bytes(&[0xe2, 0x82]), Err(AssemblyReadError::InvalidEncoding));
    assert_eq!(text_from_bytes(&[0xed, 0xa0, 0x80]), Err(AssemblyReadError::InvalidEncoding));
    assert_eq!(text_from_bytes(&[0xc0, 0x80]), Err(AssemblyReadError::InvalidEncoding));
}

#[test]
fn terminator_is_the_first_zero() {
    let bytes = [1u8, 0, 2, 3, 0, 4];
    assert_eq!(find_terminator(&bytes, 0), 1);
    assert_eq!(find_terminator(&bytes, 1), 1);
    assert_eq!(find_terminator(&bytes, 2), 4);
    assert_eq!(find_terminator(&bytes, 5), 6);
    assert_eq!(find_terminator(&bytes, 6), 6);
    assert_eq!(find_terminator(&bytes, 100), 6);
}

#[test]
fn guid_heap() {
    let mut stream: Vec<u8> = (0..16).collect();
    stream.extend([0xffu8; 16]);
    stream.extend([1, 2, 3]);
    let guids = read_guids(&stream);
    assert_eq!(guids, vec![0x0f0e_0d0c_0b0a_0908_0706_0504_0302_0100, u128::MAX]);
    assert_eq!(guid_in_heap(&guids, GUIDIndex(0)), Ok(0));
    assert_eq!(guid_in_heap(&guids, GUIDIndex(1)), Ok(0x0f0e_0d0c_0b0a_0908_0706_0504_0302_0100));
    assert_eq!(guid_in_heap(&guids, GUIDIndex(2)), Ok(u128::MAX));
    assert_eq!(guid_in_heap(&guids, GUIDIndex(3)), Err(AssemblyReadError::InvalidHeapIndex));
    assert_eq!(read_guids(&[0u8; 15]), Vec::<u128>::new());
    assert_eq!(guid_in_heap(&[], GUIDIndex(0)), Ok(0));
}

#[test]
fn heap_sizes_flags() {
    let narrow = HeapSizes::from(0);
    assert_eq!(narrow.string_index_size(), 2);
    assert_eq!(narrow.guid_index_size(), 2);
    assert_eq!(narrow.blob_index_size(), 2);
    let wide = HeapSizes::from(0b111);
    assert_eq!(wide.string_index_size(), 4);
    assert_eq!(wide.guid_index_size(), 4);
    assert_eq!(wide.blob_index_size(), 4);
    let mixed = HeapSizes::from(0b010);
    assert_eq!(mixed.string_index_size(), 2);
    assert_eq!(mixed.guid_index_size(), 4);
    assert_eq!(mixed.blob_index_size(), 2);
    let blob_only = HeapSizes::from(0b100);
    assert_eq!(blob_only.string_index_size(), 2);
    assert_eq!(blob_only.blob_index_size(), 4);
}

#[test]
fn heap_sizes_read_indices() {
    let bytes = [0x34u8, 0x12, 0x78, 0x56];
    let narrow = HeapSizes::from(0);
    assert_eq!(narrow.read_string_index(&bytes), StringIndex(0x1234));
    assert_eq!(narrow.read_guid_index(&bytes), GUIDIndex(0x1234));
    assert_eq!(narrow.read_blob_index(&bytes), BlobIndex(0x1234));
    let wide = HeapSizes::from(0b111);
    assert_eq!(wide.read_string_index(&bytes), StringIndex(0x5678_1234));
    assert_eq!(wide.read_guid_index(&bytes), GUIDIndex(0x5678_1234));
    assert_eq!(wide.read_blob_index(&bytes), BlobIndex(0x5678_1234));
}
