use std::collections::HashMap;

use bytes::Bytes;
use waveinfo::{
    Chunk, ChunkError, ChunkParseError, ChunkType, Fact, FieldParseError, Fmt, IncorrectChunkError,
    InfoChunk, List, TagMap,
};
use waveinfo::list_chunk::info_tuple;

#[test]
fn pop_from_data() {
    let mut good_chunk = Bytes::from_static(&[
        0x54, 0x45, 0x53, 0x54, 0x04, 0x00, 0x00, 0x00, 0x44, 0x41, 0x54, 0x41, 0x44, 0x41, 0x54,
    ]);
    let mut null_chunk = Bytes::from_static(&[0x54, 0x45, 0x53]);
    let mut short_chunk =
        Bytes::from_static(&[0x54, 0x45, 0x53, 0x54, 0x04, 0x00, 0x00, 0x00, 0x44, 0x41]);
    let mut long_chunk = Bytes::from_static(&[
        0x54, 0x45, 0x53, 0x54, 0x08, 0x00, 0x00, 0x00, 0x44, 0x41, 0x54, 0x41,
    ]);

    assert!(Chunk::pop_from_data(&mut null_chunk).is_err());
    assert!(Chunk::pop_from_data(&mut short_chunk).is_err());
    assert!(Chunk::pop_from_data(&mut long_chunk).is_err());

    let chunk_res = Chunk::pop_from_data(&mut good_chunk);
    assert!(chunk_res.is_ok());
    let chunk = chunk_res.unwrap();
    assert_eq!(chunk.id, "TEST");
    assert_eq!(chunk.size, 4);
    assert_eq!(chunk.data, Bytes::from_static(&[0x44, 0x41, 0x54, 0x41]))
}

#[test]
fn pop_with_padding_byte() {
    let mut chunk_data = Bytes::from_static(&[
        0x54, 0x45, 0x53, 0x54, 0x03, 0x00, 0x00, 0x00, 0x44, 0x41, 0x54, 0x00, 0x42, 0x41, 0x54,
    ]);
    let chunk = Chunk::pop_from_data(&mut chunk_data).unwrap();
    assert_eq!(chunk.size, 3);
    assert_eq!(chunk.data, Bytes::from_static(&[0x44, 0x41, 0x54]));
    assert_eq!(chunk_data, Bytes::from_static(&[0x42, 0x41, 0x54]));
}

#[test]
fn data_bytes() {
    let mut chunk = Chunk {
        id: "".to_string(),
        size: 8,
        data: Bytes::from_static(b"TESTDATA"),
    };

    assert_eq!(chunk.data_bytes::<4>("").unwrap(), *b"TEST");
    assert_eq!(chunk.data, Bytes::from_static(b"DATA"));
    assert!(chunk.data_bytes::<8>("").is_err());
}

#[test]
fn pop_zstring() {
    let mut chunk = Chunk {
        id: "".to_string(),
        size: 8,
        data: Bytes::from_static(&[0x54, 0x45, 0x53, 0x54, 0x00, 0x44, 0x41, 0x54, 0x41]),
    };

    assert_eq!(chunk.data_zstring("test").unwrap(), "TEST".to_string());
    assert_eq!(chunk.data, Bytes::from_static(&[0x44, 0x41, 0x54, 0x41]));
    assert!(chunk.data_zstring("test").is_err());
}

#[test]
fn to_fact_chunk() {
    let mut chunk_data = Bytes::from_static(&[
        0x66, 0x61, 0x63, 0x74, 0x04, 0x00, 0x00, 0x00, 0x21, 0x96, 0x00, 0x00,
    ]);
    let chunk = Chunk::pop_from_data(&mut chunk_data)
        .unwrap()
        .load_type()
        .unwrap();
    let expected_chunk = ChunkType::Fact(Fact { samples: 0x9621 });
    assert_eq!(chunk, expected_chunk);
}

#[test]
fn to_std_fmt_chunk() {
    let mut chunk_data = Bytes::from_static(&[
        0x66, 0x6d, 0x74, 0x20, 0x10, 0x00, 0x00, 0x00, 0x01, 0x00, 0x02, 0x00, 0x00, 0xee, 0x02,
        0x00, 0x00, 0xb8, 0x0b, 0x00, 0x04, 0x00, 0x10, 0x00,
    ]);
    let chunk = Chunk::pop_from_data(&mut chunk_data)
        .unwrap()
        .load_type()
        .unwrap();
    let expected_chunk = ChunkType::Fmt(Fmt {
        format_tag: [0x01, 0x00],
        channels: 2,
        samples_per_sec: 192000,
        avg_bytes_per_sec: 768000,
        block_align: 4,
        bits_per_sample: 16,
        extension_size: None,
        valid_bits_per_sample: None,
        channel_mask: None,
        sub_format: None,
    });
    assert_eq!(chunk, expected_chunk);
}

#[test]
fn to_ex_fmt_chunk() {
    let mut chunk_data = Bytes::from_static(&[
        0x66, 0x6d, 0x74, 0x20, 0x12, 0x00, 0x00, 0x00, 0x06, 0x00, 0x02, 0x00, 0x44, 0xac, 0x00,
        0x00, 0x88, 0x58, 0x01, 0x00, 0x02, 0x00, 0x08, 0x00, 0x00, 0x00,
    ]);
    let chunk = Chunk::pop_from_data(&mut chunk_data)
        .unwrap()
        .load_type()
        .unwrap();
    let expected_chunk = ChunkType::Fmt(Fmt {
        format_tag: [0x06, 0x00],
        channels: 2,
        samples_per_sec: 44100,
        avg_bytes_per_sec: 88200,
        block_align: 2,
        bits_per_sample: 8,
        extension_size: Some(0),
        valid_bits_per_sample: None,
        channel_mask: None,
        sub_format: None,
    });
    assert_eq!(chunk, expected_chunk);
}

#[test]
fn to_extensible_fmt_chunk() {
    let mut chunk_data = Bytes::from_static(&[
        0x66, 0x6d, 0x74, 0x20, 0x28, 0x00, 0x00, 0x00, 0xfe, 0xff, 0x02, 0x00, 0x00, 0xee, 0x02,
        0x00, 0x00, 0xdc, 0x05, 0x00, 0x02, 0x00, 0x08, 0x00, 0x16, 0x00, 0x08, 0x00, 0x03, 0x00,
        0x00, 0x00, 0x06, 0x00, 0x00, 0x00, 0x00, 0x00, 0x10, 0x00, 0x80, 0x00, 0x00, 0xaa, 0x00,
        0x38, 0x9b, 0x71,
    ]);
    let chunk = Chunk::pop_from_data(&mut chunk_data)
        .unwrap()
        .load_type()
        .unwrap();
    let expected_chunk = ChunkType::Fmt(Fmt {
        format_tag: [0xFE, 0xFF],
        channels: 2,
        samples_per_sec: 192000,
        avg_bytes_per_sec: 384000,
        block_align: 2,
        bits_per_sample: 8,
        extension_size: Some(22),
        valid_bits_per_sample: Some(8),
        channel_mask: Some(3),
        sub_format: Some([
            0x06, 0x00, 0x00, 0x00, 0x00, 0x00, 0x10, 0x00, 0x80, 0x00, 0x00, 0xaa, 0x00, 0x38,
            0x9b, 0x71,
        ]),
    });
    assert_eq!(chunk, expected_chunk);
}

#[test]
fn bad_fmt_ext_chunk() {
    let mut chunk_data = Bytes::from_static(&[
        0x66, 0x6d, 0x74, 0x20, 0x16, 0x00, 0x00, 0x00, 0x06, 0x00, 0x02, 0x00, 0x44, 0xac, 0x00,
        0x00, 0x88, 0x58, 0x01, 0x00, 0x02, 0x00, 0x08, 0x00, 0x00, 0x00, 0x08, 0x00, 0x00, 0x00,
    ]);
    assert_eq!(
        Chunk::pop_from_data(&mut chunk_data)
            .unwrap()
            .load_type()
            .unwrap_err(),
        ChunkError::FieldParse(FieldParseError {
            chunk_code: "fmt ".to_string(),
            field_name: "cbSize".to_string(),
            position: 18,
            reason: "Extension size mismatch. Reported: 0. Found: 4".to_string(),
        })
    );
}

#[test]
fn invalid_fmt_ext_chunk() {
    let mut chunk_data = Bytes::from_static(&[
        0x66, 0x6d, 0x74, 0x20, 0x16, 0x00, 0x00, 0x00, 0x06, 0x00, 0x02, 0x00, 0x44, 0xac, 0x00,
        0x00, 0x88, 0x58, 0x01, 0x00, 0x02, 0x00, 0x08, 0x00, 0x04, 0x00, 0x08, 0x00, 0x00, 0x00,
    ]);
    assert_eq!(
        Chunk::pop_from_data(&mut chunk_data)
            .unwrap()
            .load_type()
            .unwrap_err(),
        ChunkError::FieldParse(FieldParseError {
            chunk_code: "fmt ".to_string(),
            field_name: "cbSize".to_string(),
            position: 18,
            reason: "Invalid fmt extension size: 4".to_string(),
        })
    );
}

#[test]
fn info_list() {
    let mut chunk_data = Bytes::from_static(&[
        0x4c, 0x49, 0x53, 0x54, 0x1a, 0x0, 0x0, 0x0, 0x49, 0x4e, 0x46, 0x4f, 0x49, 0x53, 0x46,
        0x54, 0xd, 0x0, 0x0, 0x0, 0x4c, 0x61, 0x76, 0x66, 0x36, 0x31, 0x2e, 0x31, 0x2e, 0x31, 0x30,
        0x30, 0x0, 0x0,
    ]);
    let chunk = Chunk::pop_from_data(&mut chunk_data)
        .unwrap()
        .load_type()
        .unwrap();
    match chunk {
        ChunkType::List(list_chunk) => {
            let chunk_hashmap: Option<HashMap<String, String>> = list_chunk
                .info_tags()
                .map(|tags| tags.pairs().into_iter().collect());
            assert!(chunk_hashmap.is_some());
            assert_eq!(
                chunk_hashmap.unwrap(),
                HashMap::from([("Software".to_string(), "Lavf61.1.100".to_string())])
            );
        }
        _ => panic!("Not an Info chunk: {:?}", chunk),
    }
}

#[test]
fn pop_consumes_header_size_and_padding() {
    // Even size: 8 + 4 bytes consumed.
    let mut even = Bytes::from_static(&[
        0x41, 0x42, 0x43, 0x44, 0x04, 0x00, 0x00, 0x00, 1, 2, 3, 4, 9, 9,
    ]);
    let before = even.len();
    let chunk = Chunk::pop_from_data(&mut even).unwrap();
    assert_eq!(before - even.len(), 8 + chunk.size);
    // Odd size: 8 + 3 + 1 padding byte consumed.
    let mut odd = Bytes::from_static(&[
        0x41, 0x42, 0x43, 0x44, 0x03, 0x00, 0x00, 0x00, 1, 2, 3, 0, 9, 9,
    ]);
    let before = odd.len();
    let chunk = Chunk::pop_from_data(&mut odd).unwrap();
    assert_eq!(before - odd.len(), 8 + chunk.size + 1);
    assert_eq!(odd, Bytes::from_static(&[9, 9]));
}

#[test]
fn pop_odd_size_without_padding_byte_at_end() {
    let mut data = Bytes::from_static(&[0x41, 0x42, 0x43, 0x44, 0x03, 0x00, 0x00, 0x00, 1, 2, 3]);
    let chunk = Chunk::pop_from_data(&mut data).unwrap();
    assert_eq!(chunk.data, Bytes::from_static(&[1, 2, 3]));
    assert!(data.is_empty());
}

#[test]
fn pop_errors_leave_data_untouched() {
    let mut short = Bytes::from_static(&[0x41, 0x42, 0x43]);
    assert_eq!(
        Chunk::pop_from_data(&mut short).unwrap_err(),
        ChunkError::ChunkParse(ChunkParseError {
            chunk_code: "Unknown".to_string(),
            reason: "Invalid chunk: too short".to_string(),
        })
    );
    assert_eq!(short.len(), 3);

    let mut non_ascii = Bytes::from_static(&[0x41, 0xC3, 0x43, 0x44, 0x00, 0x00, 0x00, 0x00]);
    assert_eq!(
        Chunk::pop_from_data(&mut non_ascii).unwrap_err(),
        ChunkError::ChunkParse(ChunkParseError {
            chunk_code: "Unknown".to_string(),
            reason: "Invalid chunk code: not ASCII".to_string(),
        })
    );
    assert_eq!(non_ascii.len(), 8);

    let mut too_long = Bytes::from_static(&[0x41, 0x42, 0x43, 0x44, 0x05, 0x00, 0x00, 0x00, 1, 2]);
    assert_eq!(
        Chunk::pop_from_data(&mut too_long).unwrap_err(),
        ChunkError::ChunkParse(ChunkParseError {
            chunk_code: "ABCD".to_string(),
            reason: "Requested chunk size too large".to_string(),
        })
    );
    assert_eq!(too_long.len(), 10);
}

#[test]
fn field_readers_little_endian_and_short_fields() {
    let mut chunk = Chunk {
        id: "abcd".to_string(),
        size: 7,
        data: Bytes::from_static(&[0x34, 0x12, 0x78, 0x56, 0x34, 0x12, 0xFF]),
    };
    assert_eq!(chunk.data_u16("a").unwrap(), 0x1234);
    assert_eq!(chunk.data_u32("b").unwrap(), 0x12345678);
    assert_eq!(
        chunk.data_u16("c").unwrap_err(),
        FieldParseError {
            chunk_code: "abcd".to_string(),
            field_name: "c".to_string(),
            position: 6,
            reason: "2 bytes expected, 1 left remaining in chunk.".to_string(),
        }
    );
    assert_eq!(chunk.data, Bytes::from_static(&[0xFF]));
}

#[test]
fn data_string_reads_ascii_only() {
    let mut chunk = Chunk {
        id: "LIST".to_string(),
        size: 8,
        data: Bytes::from_static(&[0x49, 0x4e, 0x46, 0x4f, 0x80, 0x41, 0x42, 0x43]),
    };
    assert_eq!(chunk.data_string::<4>("LIST").unwrap(), "INFO");
    let err = chunk.data_string::<4>("LIST").unwrap_err();
    assert_eq!(err.position, 4);
    assert_eq!(err.reason, "Text is not ASCII");
    assert_eq!(chunk.data.len(), 4);
}

#[test]
fn zstring_decodes_utf8_and_rejects_bad_bytes() {
    let mut chunk = Chunk {
        id: "ISFT".to_string(),
        size: 8,
        data: Bytes::from_static(&[0xC3, 0xA9, 0x00, 0xFF, 0x00, 0x41, 0x42, 0x43]),
    };
    assert_eq!(chunk.data_zstring("v").unwrap(), "\u{e9}");
    let err = chunk.data_zstring("v").unwrap_err();
    assert_eq!(err.reason, "String is not valid UTF-8");
    assert_eq!(err.position, 3);
    assert_eq!(chunk.data.len(), 5);
}

#[test]
fn fmt_decoding_is_repeatable() {
    let bytes = Bytes::from_static(&[
        0x66, 0x6d, 0x74, 0x20, 0x12, 0x00, 0x00, 0x00, 0x06, 0x00, 0x02, 0x00, 0x44, 0xac, 0x00,
        0x00, 0x88, 0x58, 0x01, 0x00, 0x02, 0x00, 0x08, 0x00, 0x00, 0x00,
    ]);
    let first = Fmt::from_chunk(Chunk::pop_from_data(&mut bytes.clone()).unwrap()).unwrap();
    let second = Fmt::from_chunk(Chunk::pop_from_data(&mut bytes.clone()).unwrap()).unwrap();
    assert_eq!(first, second);
}

#[test]
fn fmt_extension_size_over_remaining() {
    // Extension size 22 with only 2 bytes after it.
    let mut chunk_data = Bytes::from_static(&[
        0x66, 0x6d, 0x74, 0x20, 0x14, 0x00, 0x00, 0x00, 0x01, 0x00, 0x01, 0x00, 0x44, 0xac, 0x00,
        0x00, 0x88, 0x58, 0x01, 0x00, 0x02, 0x00, 0x10, 0x00, 0x16, 0x00, 0x00, 0x00,
    ]);
    let err = Chunk::pop_from_data(&mut chunk_data)
        .unwrap()
        .load_type()
        .unwrap_err();
    assert_eq!(
        err,
        ChunkError::FieldParse(FieldParseError {
            chunk_code: "fmt ".to_string(),
            field_name: "cbSize".to_string(),
            position: 18,
            reason: "Extension size mismatch. Reported: 22. Found: 2".to_string(),
        })
    );
}

#[test]
fn fmt_short_field() {
    let chunk = Chunk {
        id: "fmt ".to_string(),
        size: 5,
        data: Bytes::from_static(&[0x01, 0x00, 0x02, 0x00, 0x44]),
    };
    assert_eq!(
        Fmt::from_chunk(chunk).unwrap_err(),
        ChunkError::FieldParse(FieldParseError {
            chunk_code: "fmt ".to_string(),
            field_name: "dwSamplesPerSec".to_string(),
            position: 4,
            reason: "4 bytes expected, 1 left remaining in chunk.".to_string(),
        })
    );
}

#[test]
fn fact_from_wrong_chunk() {
    let chunk = Chunk {
        id: "data".to_string(),
        size: 4,
        data: Bytes::from_static(&[1, 0, 0, 0]),
    };
    assert_eq!(
        Fact::from_chunk(chunk).unwrap_err(),
        ChunkError::IncorrectChunk(IncorrectChunkError {
            expected_chunk_code: "fact".to_string(),
            actual_chunk_code: "data".to_string(),
        })
    );
}

#[test]
fn unknown_and_data_chunks_stay_undecoded() {
    let mut bytes = Bytes::from_static(&[0x4a, 0x55, 0x4e, 0x4b, 0x02, 0x00, 0x00, 0x00, 7, 8]);
    match Chunk::pop_from_data(&mut bytes).unwrap().load_type().unwrap() {
        ChunkType::Unknown(c) => assert_eq!(c.id, "JUNK"),
        other => panic!("unexpected {:?}", other),
    }
    let mut bytes = Bytes::from_static(&[0x64, 0x61, 0x74, 0x61, 0x02, 0x00, 0x00, 0x00, 7, 8]);
    match Chunk::pop_from_data(&mut bytes).unwrap().load_type().unwrap() {
        ChunkType::Data(c) => assert_eq!(c.size, 2),
        other => panic!("unexpected {:?}", other),
    }
}

#[test]
fn typed_iter_walks_sub_chunks() {
    let container = Chunk {
        id: "LIST".to_string(),
        size: 22,
        data: Bytes::from_static(&[
            0x66, 0x61, 0x63, 0x74, 0x04, 0x00, 0x00, 0x00, 0x05, 0x00, 0x00, 0x00, 0x4a, 0x55,
            0x4e, 0x4b, 0x01, 0x00, 0x00, 0x00, 0x07, 0x00,
        ]),
    };
    let mut iter = container.typed_iter();
    assert_eq!(iter.next_ok(), Some(ChunkType::Fact(Fact { samples: 5 })));
    match iter.next_ok() {
        Some(ChunkType::Unknown(c)) => assert_eq!(c.data, Bytes::from_static(&[7])),
        other => panic!("unexpected {:?}", other),
    }
    assert!(iter.next().is_none());
}

#[test]
fn info_list_later_value_wins_and_unknown_codes_dropped() {
    let chunk = Chunk {
        id: "LIST".to_string(),
        size: 42,
        data: Bytes::from_static(&[
            0x49, 0x4e, 0x46, 0x4f, // INFO
            0x49, 0x41, 0x52, 0x54, 0x02, 0x00, 0x00, 0x00, 0x41, 0x00, // IART "A"
            0x58, 0x58, 0x58, 0x58, 0x02, 0x00, 0x00, 0x00, 0x42, 0x00, // XXXX "B"
            0x49, 0x41, 0x52, 0x54, 0x02, 0x00, 0x00, 0x00, 0x43, 0x00, // IART "C"
            0x49, 0x43, 0x4d, 0x54, 0x00, 0x00, 0x00, 0x00, // ICMT, no terminator
        ]),
    };
    let list = List::from_chunk(chunk).unwrap();
    assert_eq!(list.subchunks.len(), 4);
    let tags = list.info_tags().unwrap();
    assert_eq!(tags.get(InfoChunk::IART), Some("C".to_string()));
    assert_eq!(tags.get(InfoChunk::ICMT), None);
    assert_eq!(tags.pairs(), vec![("Artist".to_string(), "C".to_string())]);
}

#[test]
fn non_info_list_gives_no_tags() {
    let chunk = Chunk {
        id: "LIST".to_string(),
        size: 4,
        data: Bytes::from_static(b"adtl"),
    };
    let list = List::from_chunk(chunk).unwrap();
    assert_eq!(list.list_type, "adtl");
    assert!(list.info_tags().is_none());
}

#[test]
fn info_codes_and_labels() {
    assert_eq!(InfoChunk::from_code("ISFT"), Some(InfoChunk::ISFT));
    assert_eq!(InfoChunk::from_code("ICRD").map(|t| t.label()), Some("Creation date"));
    assert_eq!(InfoChunk::from_code("isft"), None);
    assert_eq!(InfoChunk::ITCH.code(), "ITCH");
}

#[test]
fn info_tuple_reads_known_codes_only() {
    let known = Chunk {
        id: "IGNR".to_string(),
        size: 5,
        data: Bytes::from_static(b"Jazz\0"),
    };
    assert_eq!(info_tuple(&known), Some((InfoChunk::IGNR, "Jazz".to_string())));
    assert_eq!(known.data.len(), 5);
    let unknown = Chunk {
        id: "ABCD".to_string(),
        size: 5,
        data: Bytes::from_static(b"Jazz\0"),
    };
    assert_eq!(info_tuple(&unknown), None);
    let unterminated = Chunk {
        id: "IGNR".to_string(),
        size: 4,
        data: Bytes::from_static(b"Jazz"),
    };
    assert_eq!(info_tuple(&unterminated), None);
}

#[test]
fn tag_map_merge_prefers_later_values() {
    let mut first = TagMap::new();
    first.insert(InfoChunk::IART, "a".to_string());
    first.insert(InfoChunk::INAM, "n".to_string());
    let mut second = TagMap::new();
    second.insert(InfoChunk::IART, "b".to_string());
    first.merge(second);
    assert_eq!(first.get(InfoChunk::IART), Some("b".to_string()));
    assert_eq!(first.get(InfoChunk::INAM), Some("n".to_string()));
    assert_eq!(first.get(InfoChunk::ICOP), None);
}

#[test]
fn pop_rejects_codes_that_are_not_printable() {
    for code in [[0x01, 0x45, 0x53, 0x54], [0x54, 0x45, 0x53, 0x7F], [0x54, 0x0A, 0x53, 0x54]] {
        let mut bytes = code.to_vec();
        bytes.extend_from_slice(&[0x00, 0x00, 0x00, 0x00]);
        let mut data = Bytes::from(bytes);
        assert_eq!(
            Chunk::pop_from_data(&mut data).unwrap_err(),
            ChunkError::ChunkParse(ChunkParseError {
                chunk_code: "Unknown".to_string(),
                reason: "Invalid chunk code: not printable ASCII".to_string(),
            })
        );
        assert_eq!(data.len(), 8);
    }
    let mut edges = Bytes::from_static(&[0x20, 0x7E, 0x41, 0x42, 0x00, 0x00, 0x00, 0x00]);
    assert_eq!(Chunk::pop_from_data(&mut edges).unwrap().id, " ~AB");
}
