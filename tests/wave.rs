use bytes::Bytes;
use waveinfo::{
    ChunkError, ChunkParseError, FatalError, FieldParseError, Format, IncorrectChunkError,
    InfoChunk, MissingChunkError, RawDetail, SpeakerPosition, WavDetail, WavFile,
};

fn chunk(id: &[u8; 4], payload: &[u8]) -> Vec<u8> {
    let mut out = id.to_vec();
    out.extend_from_slice(&(payload.len() as u32).to_le_bytes());
    out.extend_from_slice(payload);
    if payload.len() % 2 == 1 {
        out.push(0);
    }
    out
}

fn riff(form: &[u8; 4], parts: &[Vec<u8>]) -> Bytes {
    let mut body = form.to_vec();
    for p in parts {
        body.extend_from_slice(p);
    }
    Bytes::from(chunk(b"RIFF", &body))
}

fn pcm_fmt(tag: u16, channels: u16, rate: u32, bits: u16) -> Vec<u8> {
    let mut p = tag.to_le_bytes().to_vec();
    p.extend_from_slice(&channels.to_le_bytes());
    p.extend_from_slice(&rate.to_le_bytes());
    p.extend_from_slice(&(rate * (bits as u32 / 8) * channels as u32).to_le_bytes());
    p.extend_from_slice(&((bits / 8) * channels).to_le_bytes());
    p.extend_from_slice(&bits.to_le_bytes());
    chunk(b"fmt ", &p)
}

fn info(tag: &[u8; 4], value: &str) -> Vec<u8> {
    let mut payload = b"INFO".to_vec();
    let mut text = value.as_bytes().to_vec();
    text.push(0);
    payload.extend_from_slice(&chunk(tag, &text));
    chunk(b"LIST", &payload)
}

fn fatal(e: ChunkError) -> FatalError {
    FatalError { inner: e }
}

#[test]
fn parse_pcm_file() {
    let file = riff(
        b"WAVE",
        &[
            pcm_fmt(1, 2, 44100, 16),
            chunk(b"JUNK", &[0; 3]),
            info(b"ISFT", "Lavf61.1.100"),
            chunk(b"data", &[0; 400]),
        ],
    );
    let wav = WavFile::parse(file).unwrap();
    assert_eq!(
        wav.raw_details,
        RawDetail {
            format_tag: 1,
            channels: 2,
            sample_rate: 44100,
            data_rate: 176400,
            block_size: 4,
            sample_depth: 16,
            channel_mask: None,
            subformat: None,
            total_samples: 100,
        }
    );
    assert_eq!(wav.info.get(InfoChunk::ISFT), Some("Lavf61.1.100".to_string()));
    let detail = wav.detail();
    assert_eq!(detail.format, Format::Pcm);
    assert_eq!(
        detail.channel_positions,
        vec![SpeakerPosition::FRONT_LEFT, SpeakerPosition::FRONT_RIGHT]
    );
}

#[test]
fn parse_extensible_pcm_without_fact() {
    let mut p = 0xFFFEu16.to_le_bytes().to_vec();
    p.extend_from_slice(&2u16.to_le_bytes());
    p.extend_from_slice(&192000u32.to_le_bytes());
    p.extend_from_slice(&1152000u32.to_le_bytes());
    p.extend_from_slice(&6u16.to_le_bytes());
    p.extend_from_slice(&24u16.to_le_bytes());
    p.extend_from_slice(&22u16.to_le_bytes());
    p.extend_from_slice(&20u16.to_le_bytes());
    p.extend_from_slice(&3u32.to_le_bytes());
    p.extend_from_slice(&[
        0x01, 0x00, 0x00, 0x00, 0x00, 0x00, 0x10, 0x00, 0x80, 0x00, 0x00, 0xaa, 0x00, 0x38, 0x9b,
        0x71,
    ]);
    assert_eq!(p.len(), 40);
    let file = riff(b"WAVE", &[chunk(b"fmt ", &p), chunk(b"data", &[0; 60])]);
    let wav = WavFile::parse(file).unwrap();
    assert_eq!(wav.raw_details.sample_depth, 20);
    assert_eq!(wav.raw_details.channel_mask, Some(3));
    assert_eq!(wav.raw_details.total_samples, 10);
    assert_eq!(wav.detail().format, Format::Pcm);
}

#[test]
fn parse_alaw_with_fact() {
    let file = riff(
        b"WAVE",
        &[
            pcm_fmt(6, 1, 8000, 8),
            chunk(b"fact", &0x9621u32.to_le_bytes()),
            chunk(b"data", &[0; 10]),
        ],
    );
    let detail = WavDetail::new(file).unwrap();
    assert_eq!(detail.format, Format::Alaw);
    assert_eq!(detail.total_samples, 0x9621);
}

#[test]
fn tags_of_several_lists_merge() {
    let file = riff(
        b"WAVE",
        &[
            pcm_fmt(1, 1, 8000, 8),
            info(b"IART", "first"),
            info(b"ICMT", "note"),
            info(b"IART", "second"),
            chunk(b"data", &[0; 4]),
        ],
    );
    let wav = WavFile::parse(file).unwrap();
    assert_eq!(
        wav.info.pairs(),
        vec![
            ("Artist".to_string(), "second".to_string()),
            ("Comments".to_string(), "note".to_string()),
        ]
    );
}

#[test]
fn malformed_list_is_tolerated() {
    let file = riff(
        b"WAVE",
        &[pcm_fmt(1, 1, 8000, 8), chunk(b"LIST", &[0x49, 0x4e]), chunk(b"data", &[0; 4])],
    );
    let wav = WavFile::parse(file).unwrap();
    assert!(wav.info.pairs().is_empty());
}

#[test]
fn missing_fact_for_compressed_format() {
    let file = riff(b"WAVE", &[pcm_fmt(6, 1, 8000, 8), chunk(b"data", &[0; 4])]);
    assert_eq!(
        WavFile::parse(file).unwrap_err(),
        fatal(ChunkError::MissingChunk(MissingChunkError::new("fact")))
    );
}

#[test]
fn fact_after_other_chunks_is_accepted() {
    let file = riff(
        b"WAVE",
        &[
            pcm_fmt(3, 1, 8000, 32),
            info(b"ISFT", "x"),
            chunk(b"fact", &7u32.to_le_bytes()),
            chunk(b"data", &[0; 28]),
        ],
    );
    assert_eq!(RawDetail::new(file).unwrap().total_samples, 7);
}

#[test]
fn envelope_errors() {
    assert_eq!(
        WavFile::parse(Bytes::from_static(b"RIF")).unwrap_err(),
        fatal(ChunkError::ChunkParse(ChunkParseError::new_idless(
            "Invalid chunk: too short".to_string()
        )))
    );
    assert_eq!(
        WavFile::parse(Bytes::from(chunk(b"RIFX", b"WAVE"))).unwrap_err(),
        fatal(ChunkError::IncorrectChunk(IncorrectChunkError {
            expected_chunk_code: "RIFF".to_string(),
            actual_chunk_code: "RIFX".to_string(),
        }))
    );
    assert_eq!(
        WavFile::parse(riff(b"AVI ", &[])).unwrap_err(),
        fatal(ChunkError::FieldParse(FieldParseError {
            chunk_code: "RIFF".to_string(),
            field_name: "WAVEID".to_string(),
            position: 4,
            reason: "Incorrect RIFF type".to_string(),
        }))
    );
    assert_eq!(
        WavFile::parse(Bytes::from(chunk(b"RIFF", b"WA"))).unwrap_err(),
        fatal(ChunkError::FieldParse(FieldParseError {
            chunk_code: "RIFF".to_string(),
            field_name: "WAVEID".to_string(),
            position: 0,
            reason: "4 bytes expected, 2 left remaining in chunk.".to_string(),
        }))
    );
}

#[test]
fn walk_errors() {
    assert_eq!(
        WavFile::parse(riff(b"WAVE", &[chunk(b"JUNK", &[1, 2])])).unwrap_err(),
        fatal(ChunkError::MissingChunk(MissingChunkError::new("fmt")))
    );
    assert_eq!(
        WavFile::parse(riff(b"WAVE", &[chunk(b"data", &[1, 2])])).unwrap_err(),
        fatal(ChunkError::IncorrectChunk(IncorrectChunkError {
            expected_chunk_code: "fmt ".to_string(),
            actual_chunk_code: "data".to_string(),
        }))
    );
    assert_eq!(
        WavFile::parse(riff(b"WAVE", &[pcm_fmt(1, 1, 8000, 8)])).unwrap_err(),
        fatal(ChunkError::MissingChunk(MissingChunkError::new("data")))
    );
    assert_eq!(
        WavFile::parse(riff(b"WAVE", &[pcm_fmt(1, 1, 8000, 8), pcm_fmt(1, 1, 8000, 8)]))
            .unwrap_err(),
        fatal(ChunkError::IncorrectChunk(IncorrectChunkError {
            expected_chunk_code: "Non-fmt".to_string(),
            actual_chunk_code: "fmt".to_string(),
        }))
    );
    let fact = chunk(b"fact", &1u32.to_le_bytes());
    assert_eq!(
        WavFile::parse(riff(b"WAVE", &[pcm_fmt(6, 1, 8000, 8), fact.clone(), fact])).unwrap_err(),
        fatal(ChunkError::IncorrectChunk(IncorrectChunkError {
            expected_chunk_code: "Non-fact".to_string(),
            actual_chunk_code: "fact".to_string(),
        }))
    );
    let mut broken = pcm_fmt(1, 1, 8000, 8);
    broken.extend_from_slice(b"da");
    let err = WavFile::parse(riff(b"WAVE", &[broken])).unwrap_err();
    assert_eq!(
        err,
        fatal(ChunkError::ChunkParse(ChunkParseError::new(
            "Invalid chunk: too short".to_string()
        )))
    );
}

#[test]
fn zero_width_samples_overflow() {
    let file = riff(b"WAVE", &[pcm_fmt(1, 1, 8000, 0), chunk(b"data", &[0; 4])]);
    assert_eq!(
        WavFile::parse(file).unwrap_err(),
        fatal(ChunkError::NumericOverflow(
            "Sample count undefined: sample width is zero".to_string()
        ))
    );
}

#[test]
fn error_messages() {
    assert_eq!(
        ChunkError::FieldParse(FieldParseError {
            chunk_code: "fmt ".to_string(),
            field_name: "cbSize".to_string(),
            position: 18,
            reason: "Invalid fmt extension size: 4".to_string(),
        })
        .describe(),
        "Unable to parse fmt  chunk field cbSize byte 18: Invalid fmt extension size: 4"
    );
    assert_eq!(
        fatal(ChunkError::MissingChunk(MissingChunkError::new("data"))).describe(),
        "No data chunk found"
    );
    assert_eq!(
        ChunkError::IncorrectChunk(IncorrectChunkError {
            expected_chunk_code: "RIFF".to_string(),
            actual_chunk_code: "RIFX".to_string(),
        })
        .describe(),
        "Expected a RIFF chunk, got a RIFX chunk"
    );
    assert_eq!(
        ChunkError::ChunkParse(ChunkParseError::new_with_id(
            "ABCD".to_string(),
            "Requested chunk size too large".to_string()
        ))
        .describe(),
        "Unable to parse ABCD chunk: Requested chunk size too large"
    );
    assert_eq!(
        ChunkError::NumericOverflow("Sample count undefined: sample width is zero".to_string())
            .describe(),
        "Sample count undefined: sample width is zero"
    );
    assert_eq!(
        ChunkParseError::new("x".to_string()).chunk_code,
        "Unknown".to_string()
    );
}
