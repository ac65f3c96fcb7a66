use lib_ruby_parser::source::decoder::{
    decode_input, decode_with_name, CustomDecoder, Decoder, DecoderResult, InputError,
};

fn decoded_output() -> Vec<u8> {
    Vec::<u8>::from(vec![b'3', b'+', b'3'])
}

fn decoding_error() -> InputError {
    InputError::new_decoding_error(String::from("foo"))
}

struct DecodeOk;

impl CustomDecoder for DecodeOk {
    fn decode(&self, _encoding: String, _input: Vec<u8>) -> DecoderResult {
        DecoderResult::new_ok(decoded_output())
    }
}

struct DecodeErr;

impl CustomDecoder for DecodeErr {
    fn decode(&self, _encoding: String, _input: Vec<u8>) -> DecoderResult {
        DecoderResult::new_err(decoding_error())
    }
}

fn dummy_ok_decoder() -> Decoder {
    Decoder::new(Box::new(DecodeOk))
}

fn dummy_err_decoder() -> Decoder {
    Decoder::new(Box::new(DecodeErr))
}

fn call_dummy_decoder(decoder: Decoder) -> DecoderResult {
    // the decoder is a dummy, so encoding and input do not matter
    let encoding = String::from("UTF-8");
    let input = Vec::<u8>::from(vec![b'2', b'+', b'2']);

    decoder.call(encoding, input)
}

#[test]
fn test_decoder_ok() {
    assert_eq!(
        call_dummy_decoder(dummy_ok_decoder()),
        DecoderResult::new_ok(decoded_output())
    );
}

#[test]
fn test_decoder_err() {
    assert_eq!(
        call_dummy_decoder(dummy_err_decoder()),
        DecoderResult::new_err(decoding_error())
    );
}

#[test]
fn builtin_encodings_give_the_input_back() {
    for name in ["UTF-8", "ASCII-8BIT", "BINARY"] {
        assert_eq!(
            decode_input(b"2+2".to_vec(), name.to_string(), &Some(dummy_err_decoder())),
            DecoderResult::new_ok(b"2+2".to_vec())
        );
    }
}

#[test]
fn encoding_names_are_compared_in_upper_case() {
    assert_eq!(
        decode_input(b"2+2".to_vec(), "utf-8".to_string(), &None),
        DecoderResult::new_ok(b"2+2".to_vec())
    );
    assert_eq!(
        decode_input(b"2+2".to_vec(), "Binary".to_string(), &None),
        DecoderResult::new_ok(b"2+2".to_vec())
    );
}

#[test]
fn other_encodings_go_to_the_decoder() {
    assert_eq!(
        decode_input(b"2+2".to_vec(), "US-ASCII".to_string(), &Some(dummy_ok_decoder())),
        DecoderResult::new_ok(decoded_output())
    );
    assert_eq!(
        decode_input(b"2+2".to_vec(), "US-ASCII".to_string(), &Some(dummy_err_decoder())),
        DecoderResult::new_err(decoding_error())
    );
}

#[test]
fn without_a_decoder_other_encodings_are_unsupported() {
    assert_eq!(
        decode_input(b"2+2".to_vec(), "koi8-r".to_string(), &None),
        DecoderResult::new_err(InputError::new_unsupported_encoding("koi8-r".to_string()))
    );
}

#[test]
fn decode_with_name_goes_by_the_upper_case_name_it_is_given() {
    assert_eq!(
        decode_with_name(b"x".to_vec(), "utf-8".to_string(), &"utf-8".to_string(), &None),
        DecoderResult::Failed(InputError::UnsupportedEncoding("utf-8".to_string()))
    );
    assert_eq!(
        decode_with_name(b"x".to_vec(), "utf-8".to_string(), &"UTF-8".to_string(), &None),
        DecoderResult::Decoded(b"x".to_vec())
    );
}
