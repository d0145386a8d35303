// Sessions and one-call functions, with the engine's part played by hand:
// each test writes into the output region what the engine would, and hands
// the session the report that goes with it.

use brotli_stream::{
    compress_buf, decompress_buf, CoStatus, Compress, CompressOp, CompressParams, DeStatus,
    Decompress, DecoderReport, DecoderResult, EncoderReport,
};

// "hello!" as one stored block of a brotli stream with a window of 22 bits.
const HELLO: [u8; 10] = [0x8b, 0x02, 0x80, b'h', b'e', b'l', b'l', b'o', b'!', 0x03];

fn decoded(code: u32, available_in: usize, available_out: usize) -> DecoderReport {
    DecoderReport { result: DecoderResult::from_code(code).unwrap(), available_in, available_out }
}

fn encoded(
    available_in: usize,
    available_out: usize,
    has_more_output: i32,
    is_finished: i32,
) -> EncoderReport {
    EncoderReport { result: 1, available_in, available_out, has_more_output, is_finished }
}

#[test]
fn decompress_error() {
    let mut d = Decompress::new();
    let report = decoded(0, 1020, 2048);
    d.decompress(&mut &[0; 1024][..], &mut &mut [0; 2048][..], report).unwrap_err();
}

#[test]
fn compress_buf_smoke() {
    let mut data = [0; 128];
    let mut data = &mut data[..];
    assert_eq!(CompressParams::new().encoder_args(), (11, 22, 0));
    data[..HELLO.len()].copy_from_slice(&HELLO);
    compress_buf(&mut data, 1, HELLO.len()).unwrap();
    assert_eq!(data, &HELLO[..]);

    let mut dst = [0; 128];
    {
        let mut dst = &mut dst[..];
        dst[..6].copy_from_slice(b"hello!");
        let n = decompress_buf(&mut dst, 1, 6).unwrap();
        assert_eq!(n, dst.len());
        assert_eq!(dst.len(), 6);
    }
    assert_eq!(&dst[..6], b"hello!");
}

#[test]
fn decompress_smoke() {
    let mut data = [0; 128];
    let mut data = &mut data[..];
    data[..HELLO.len()].copy_from_slice(&HELLO);
    compress_buf(&mut data, 1, HELLO.len()).unwrap();

    let mut d = Decompress::new();
    let mut dst = [0; 128];
    {
        let mut data = &data[..];
        let mut dst = &mut dst[..];
        dst[..6].copy_from_slice(b"hello!");
        let report = decoded(1, 0, 122);
        assert_eq!(d.decompress(&mut data, &mut dst, report), Ok(DeStatus::Finished));
    }
    assert_eq!(&dst[..6], b"hello!");
}

#[test]
fn compress_smoke() {
    let mut data = [0; 128];
    let mut dst = [0; 128];

    {
        let mut data = &mut data[..];
        let mut c = Compress::new();
        let input = &mut &b"hello!"[..];
        data[..HELLO.len()].copy_from_slice(&HELLO);
        let report = encoded(0, 118, 0, 1);
        assert_eq!(c.compress(CompressOp::Finish, input, &mut data, report), Ok(CoStatus::Finished));
        assert!(input.is_empty());
    }
    dst[..6].copy_from_slice(&data[3..9]);
    decompress_buf(&mut &mut dst[..], 1, 6).unwrap();
    assert_eq!(&dst[..6], b"hello!");

    {
        let mut data = &mut data[..];
        let mut c = Compress::new();
        let input = &mut &b"hel"[..];
        data[..3].copy_from_slice(b"hel");
        let report = encoded(0, 125, 0, 0);
        assert_eq!(c.compress(CompressOp::Flush, input, &mut data, report), Ok(CoStatus::Finished));
        assert!(input.is_empty());
        let input = &mut &b"lo!"[..];
        data[..3].copy_from_slice(b"lo!");
        let report = encoded(0, 122, 0, 1);
        assert_eq!(c.compress(CompressOp::Finish, input, &mut data, report), Ok(CoStatus::Finished));
        assert!(input.is_empty());
        assert_eq!(data.len(), 122);
    }
    dst[..6].copy_from_slice(&data[..6]);
    decompress_buf(&mut &mut dst[..], 1, 6).unwrap();
    assert_eq!(&dst[..6], b"hello!");
}

#[test]
fn empty_input_finishes() {
    let mut data = [0u8; 16];
    let mut c = Compress::new();
    let mut input: &[u8] = &[];
    {
        let mut out = &mut data[..];
        out[0] = 0x3b;
        let report = encoded(0, 15, 0, 1);
        assert_eq!(c.compress(CompressOp::Finish, &mut input, &mut out, report), Ok(CoStatus::Finished));
        assert_eq!(out.len(), 15);
    }
    assert_eq!(data[0], 0x3b);

    let mut d = Decompress::new();
    let mut dst = [0u8; 16];
    let mut stream = &data[..1];
    let mut out = &mut dst[..];
    let report = decoded(1, 0, 16);
    assert_eq!(d.decompress(&mut stream, &mut out, report), Ok(DeStatus::Finished));
    assert!(stream.is_empty());
    assert_eq!(out.len(), 16);
}

#[test]
fn views_move_by_what_the_engine_reports() {
    let mut d = Decompress::new();
    let src = [1u8, 2, 3, 4, 5, 6, 7, 8, 9, 10];
    let mut buf = [0u8; 8];
    let mut input = &src[..];
    {
        let mut output = &mut buf[..];
        output[..5].copy_from_slice(&[9, 9, 9, 9, 9]);
        let report = decoded(2, 3, 3);
        assert!(report.fits_in(input.len(), output.len()));
        assert_eq!(d.decompress(&mut input, &mut output, report), Ok(DeStatus::NeedInput));
        assert_eq!(input, &[8u8, 9, 10][..]);
        assert_eq!(output.len(), 3);
        output[0] = 7;
    }
    assert_eq!(buf, [9, 9, 9, 9, 9, 7, 0, 0]);
}

#[test]
fn report_that_does_not_fit_is_told() {
    let report = decoded(1, 5, 0);
    assert!(!report.fits_in(4, 0));
    assert!(report.fits_in(5, 0));
    let report = encoded(0, 9, 0, 0);
    assert!(!report.fits_in(0, 8));
    assert!(report.fits_in(0, 9));
}

#[test]
fn small_output_asks_for_more_and_loses_nothing() {
    let mut d = Decompress::new();
    let mut first = [0u8; 4];
    let mut second = [0u8; 4];
    let mut input = &HELLO[..];
    {
        let mut output = &mut first[..];
        output.copy_from_slice(b"hell");
        let report = decoded(3, 1, 0);
        assert_eq!(d.decompress(&mut input, &mut output, report), Ok(DeStatus::NeedOutput));
        assert_eq!(input, &[0x03u8][..]);
        assert!(output.is_empty());
    }
    {
        let mut output = &mut second[..];
        output[..2].copy_from_slice(b"o!");
        let report = decoded(1, 0, 2);
        assert_eq!(d.decompress(&mut input, &mut output, report), Ok(DeStatus::Finished));
        assert!(input.is_empty());
        assert_eq!(output.len(), 2);
    }
    let mut all = first.to_vec();
    all.extend_from_slice(&second[..2]);
    assert_eq!(all, b"hello!");
}

#[test]
fn unfinished_operation_is_repeated_until_finished() {
    let mut c = Compress::new();
    let mut input = &b"hello!"[..];
    let mut none: [u8; 0] = [];
    let mut room = [0u8; 16];
    {
        let mut output = &mut none[..];
        let report = encoded(0, 0, 1, 0);
        assert_eq!(c.compress(CompressOp::Finish, &mut input, &mut output, report), Ok(CoStatus::Unfinished));
        assert!(input.is_empty());
    }
    {
        let mut output = &mut room[..];
        output[..HELLO.len()].copy_from_slice(&HELLO);
        let report = encoded(0, 6, 0, 1);
        assert_eq!(c.compress(CompressOp::Finish, &mut input, &mut output, report), Ok(CoStatus::Finished));
        assert_eq!(output.len(), 6);
    }
    assert_eq!(&room[..10], &HELLO[..]);
}

#[test]
fn encoder_failure_is_the_error() {
    let mut c = Compress::new();
    let mut input = &b"abc"[..];
    let mut room = [0u8; 4];
    let mut output = &mut room[..];
    let report = EncoderReport {
        result: 0,
        available_in: 3,
        available_out: 4,
        has_more_output: 0,
        is_finished: 0,
    };
    let r = c.compress(CompressOp::EmitMetadata, &mut input, &mut output, report);
    assert_eq!(r, Err(brotli_stream::Error));
    assert_eq!(input.len(), 3);
    assert_eq!(output.len(), 4);
}

#[test]
fn one_call_failure_is_the_error() {
    let mut room = [1u8, 2, 3, 4];
    {
        let mut output = &mut room[..];
        assert_eq!(compress_buf(&mut output, 0, 0), Err(brotli_stream::Error));
        assert!(output.is_empty());
    }
    {
        let mut output = &mut room[..];
        assert_eq!(decompress_buf(&mut output, 0, 2), Err(brotli_stream::Error));
        assert_eq!(output, &[1u8, 2][..]);
    }
    {
        let mut output = &mut room[..];
        assert_eq!(decompress_buf(&mut output, 1, 3), Ok(3));
        assert_eq!(output, &[1u8, 2, 3][..]);
        output[0] = 9;
    }
    assert_eq!(room, [9, 2, 3, 4]);
}

#[test]
fn drained_session_hands_out_nothing() {
    let mut c = Compress::new();
    let mut d = Decompress::new();
    let held = [5u8, 6, 7];
    assert_eq!(c.take_output(None, &held), Some(&held[..]));
    assert_eq!(c.take_output(Some(3), &held), Some(&held[..]));
    assert_eq!(c.take_output(Some(0), &held), None);
    assert_eq!(c.take_output(None, &[]), None);
    assert_eq!(c.take_output(None, &[]), None);
    assert_eq!(d.take_output(Some(2), &held[..2]), Some(&held[..2]));
    assert_eq!(d.take_output(Some(0), &[]), None);
    assert_eq!(d.take_output(Some(8), &[]), None);
    assert_eq!(d.take_output(None, &[]), None);
}
