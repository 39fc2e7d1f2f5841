use stage_core::codec::{decode_context, encode_bytes_list, encode_context, u64_to_string};
use stage_core::contexts::GenerateContext;
use stage_core::signature::{hex_decode, hex_encode, sign_message};

fn sample_context() -> GenerateContext {
    GenerateContext::new(
        "p1",
        "/data/proof/p1",
        "/data/proof/p1/elf",
        "/data/proof/p1/segment",
        "/data/proof/p1/prove",
        "/data/proof/p1/aggregate",
        "/data/proof/p1/final/proof_with_public_inputs.json",
        "/data/proof/p1/input_stream/public_input",
        "",
        "/data/proof/p1/output_stream/output_stream",
        42,
        65536,
        false,
        true,
        "",
        "/data/proof/p1/input_stream/receipts",
    )
}

#[test]
fn u64_rendering() {
    assert_eq!(u64_to_string(0), "0");
    assert_eq!(u64_to_string(7), "7");
    assert_eq!(u64_to_string(1234567890), "1234567890");
    assert_eq!(u64_to_string(u64::MAX), "18446744073709551615");
}

#[test]
fn context_round_trip() {
    let ctx = sample_context();
    let encoded = encode_context(&ctx);
    let decoded = decode_context(encoded.as_str()).expect("round trip must decode");
    assert_eq!(decoded.proof_id, ctx.proof_id);
    assert_eq!(decoded.basedir, ctx.basedir);
    assert_eq!(decoded.elf_path, ctx.elf_path);
    assert_eq!(decoded.seg_path, ctx.seg_path);
    assert_eq!(decoded.prove_path, ctx.prove_path);
    assert_eq!(decoded.agg_path, ctx.agg_path);
    assert_eq!(decoded.final_path, ctx.final_path);
    assert_eq!(decoded.public_input_path, ctx.public_input_path);
    assert_eq!(decoded.private_input_path, ctx.private_input_path);
    assert_eq!(decoded.output_stream_path, ctx.output_stream_path);
    assert_eq!(decoded.block_no, ctx.block_no);
    assert_eq!(decoded.seg_size, ctx.seg_size);
    assert_eq!(decoded.execute_only, ctx.execute_only);
    assert_eq!(decoded.precompile, ctx.precompile);
    assert_eq!(decoded.receipt_inputs_path, ctx.receipt_inputs_path);
    assert_eq!(decoded.receipts_path, ctx.receipts_path);
}

#[test]
fn context_round_trip_non_ascii() {
    let mut ctx = sample_context();
    ctx.proof_id = String::from("p\u{00e9}-\u{6bb5}");
    let encoded = encode_context(&ctx);
    let decoded = decode_context(encoded.as_str()).expect("round trip must decode");
    assert_eq!(decoded.proof_id, ctx.proof_id);
}

#[test]
fn decode_rejects_garbage() {
    assert!(decode_context("").is_none());
    assert!(decode_context("not a context").is_none());
    let ctx = sample_context();
    let mut encoded = encode_context(&ctx);
    encoded.push('x');
    assert!(decode_context(encoded.as_str()).is_none(), "trailing bytes must be rejected");
}

#[test]
fn bytes_list_encoding_matches_the_reference_serializer() {
    let items: Vec<Vec<u8>> = vec![vec![1, 2, 3], vec![], vec![255; 300]];
    let ours = encode_bytes_list(&items);
    let reference = bincode::serialize(&items).expect("serialize");
    assert_eq!(ours, reference);

    let empty: Vec<Vec<u8>> = Vec::new();
    assert_eq!(encode_bytes_list(&empty), bincode::serialize(&empty).unwrap());
}

#[test]
fn hex_encoding_matches_the_reference_encoder() {
    let bytes: Vec<u8> = vec![0x00, 0x0f, 0xa5, 0xff, 0x10];
    assert_eq!(hex_encode(&bytes), hex::encode(&bytes));
    assert_eq!(hex_encode(&Vec::new()), "");
}

#[test]
fn hex_decoding_inverts_encoding() {
    let bytes: Vec<u8> = (0u8..=255).collect();
    let s = hex_encode(&bytes);
    assert_eq!(hex_decode(s.as_str()).expect("decodes"), bytes);
    assert_eq!(hex_decode("ABCDEF").unwrap(), vec![0xab, 0xcd, 0xef]);
    assert!(hex_decode("abc").is_none(), "odd length");
    assert!(hex_decode("zz").is_none(), "non-digit");
}

#[test]
fn canonical_message_with_block_number() {
    let m = sign_message("p1", Some(5), 65536);
    assert_eq!(m.as_bytes(), b"p1&5&65536");
}

#[test]
fn canonical_message_without_block_number() {
    let m = sign_message("p1", None, 262144);
    assert_eq!(m.as_bytes(), b"p1&262144");
}

#[test]
fn context_round_trip_at_the_integer_extremes() {
    let mut ctx = sample_context();
    ctx.block_no = u64::MAX;
    ctx.seg_size = u32::MAX;
    let decoded = decode_context(encode_context(&ctx).as_str()).expect("decodes");
    assert_eq!(decoded.block_no, u64::MAX);
    assert_eq!(decoded.seg_size, u32::MAX);
}
