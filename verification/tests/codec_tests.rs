use giga_segy::bitconverter::{encode_sample, SampleValue};
use giga_segy::enums::SampleFormatCode;
use giga_segy::header_structs::BinHeader;
use giga_segy::write_data::{convert_data, convert_data_losslessly};

fn header_for(format: SampleFormatCode, le: bool) -> BinHeader {
    let mut header = BinHeader::default();
    header.sample_format_code = format;
    header.binary_flag_direction_is_le = le;
    header
}

fn chooser_works(v: SampleValue) {
    for le in [true, false] {
        for f in [
            SampleFormatCode::Int32,
            SampleFormatCode::Int16,
            SampleFormatCode::Float32,
            SampleFormatCode::Float64,
            SampleFormatCode::Int8,
            SampleFormatCode::Int64,
            SampleFormatCode::UInt32,
            SampleFormatCode::UInt16,
            SampleFormatCode::UInt64,
            SampleFormatCode::UInt8,
        ] {
            assert!(encode_sample(&v, f, le).is_ok(), "encoding should work");
        }
        for f in [
            SampleFormatCode::IbmFloat32,
            SampleFormatCode::FixPoint32,
            SampleFormatCode::Int24,
            SampleFormatCode::UInt24,
        ] {
            assert!(encode_sample(&v, f, le).is_err(), "encoding should fail");
        }
    }
}

#[test]
fn converter_chooser_formats_ux() {
    chooser_works(SampleValue::U8(1));
    chooser_works(SampleValue::U16(1));
    chooser_works(SampleValue::U32(1));
    chooser_works(SampleValue::U64(1));
}

#[test]
fn converter_chooser_formats_ix() {
    chooser_works(SampleValue::I8(1));
    chooser_works(SampleValue::I16(1));
    chooser_works(SampleValue::I32(1));
    chooser_works(SampleValue::I64(1));
}

#[test]
fn converter_chooser_formats_fx() {
    chooser_works(SampleValue::F32Bits(1.0f32.to_bits()));
    chooser_works(SampleValue::F64Bits(1.0f64.to_bits()));
}

#[test]
fn convert_u64_to_u32_ok() {
    for le in [false, true] {
        let original: Vec<SampleValue> = (1..=10).map(|i: i64| SampleValue::U64(i as u64)).collect();
        let header = header_for(SampleFormatCode::UInt32, le);
        let lossless_res = convert_data_losslessly(&original, &header);
        assert!(lossless_res.is_err());
        let res = convert_data(&original, &header).expect("conversion works");
        let expected: Vec<u8> = (1..=10)
            .flat_map(|i: i64| {
                let v = (i as u32);
                if le {
                    v.to_le_bytes().to_vec()
                } else {
                    v.to_be_bytes().to_vec()
                }
            })
            .collect();
        assert_eq!(res, expected);
    }
}

#[test]
fn convert_u32_to_u64_ok() {
    for le in [false, true] {
        let original: Vec<SampleValue> = (1..=10).map(|i: i64| SampleValue::U32(i as u32)).collect();
        let header = header_for(SampleFormatCode::UInt64, le);
        let lossless_res = convert_data_losslessly(&original, &header);
        assert!(lossless_res.is_ok());
        let res = convert_data(&original, &header).expect("conversion works");
        let expected: Vec<u8> = (1..=10)
            .flat_map(|i: i64| {
                let v = (i as u64);
                if le {
                    v.to_le_bytes().to_vec()
                } else {
                    v.to_be_bytes().to_vec()
                }
            })
            .collect();
        assert_eq!(res, expected);
    }
}

#[test]
fn convert_i64_to_i32_ok() {
    for le in [false, true] {
        let original: Vec<SampleValue> = (1..=10).map(|i: i64| SampleValue::I64(i as i64)).collect();
        let header = header_for(SampleFormatCode::Int32, le);
        let lossless_res = convert_data_losslessly(&original, &header);
        assert!(lossless_res.is_err());
        let res = convert_data(&original, &header).expect("conversion works");
        let expected: Vec<u8> = (1..=10)
            .flat_map(|i: i64| {
                let v = (i as i32);
                if le {
                    v.to_le_bytes().to_vec()
                } else {
                    v.to_be_bytes().to_vec()
                }
            })
            .collect();
        assert_eq!(res, expected);
    }
}

#[test]
fn convert_i32_to_i64_ok() {
    for le in [false, true] {
        let original: Vec<SampleValue> = (1..=10).map(|i: i64| SampleValue::I32(i as i32)).collect();
        let header = header_for(SampleFormatCode::Int64, le);
        let lossless_res = convert_data_losslessly(&original, &header);
        assert!(lossless_res.is_ok());
        let res = convert_data(&original, &header).expect("conversion works");
        let expected: Vec<u8> = (1..=10)
            .flat_map(|i: i64| {
                let v = (i as i64);
                if le {
                    v.to_le_bytes().to_vec()
                } else {
                    v.to_be_bytes().to_vec()
                }
            })
            .collect();
        assert_eq!(res, expected);
    }
}

#[test]
fn convert_f64_to_f32_ok() {
    for le in [false, true] {
        let original: Vec<SampleValue> = (1..=10).map(|i: i64| SampleValue::F64Bits((i as f64).to_bits())).collect();
        let header = header_for(SampleFormatCode::Float32, le);
        let lossless_res = convert_data_losslessly(&original, &header);
        assert!(lossless_res.is_err());
        let res = convert_data(&original, &header).expect("conversion works");
        let expected: Vec<u8> = (1..=10)
            .flat_map(|i: i64| {
                let v = (i as f32);
                if le {
                    v.to_le_bytes().to_vec()
                } else {
                    v.to_be_bytes().to_vec()
                }
            })
            .collect();
        assert_eq!(res, expected);
    }
}

#[test]
fn convert_f32_to_f64_ok() {
    for le in [false, true] {
        let original: Vec<SampleValue> = (1..=10).map(|i: i64| SampleValue::F32Bits((i as f32).to_bits())).collect();
        let header = header_for(SampleFormatCode::Float64, le);
        let lossless_res = convert_data_losslessly(&original, &header);
        assert!(lossless_res.is_ok());
        let res = convert_data(&original, &header).expect("conversion works");
        let expected: Vec<u8> = (1..=10)
            .flat_map(|i: i64| {
                let v = (i as f64);
                if le {
                    v.to_le_bytes().to_vec()
                } else {
                    v.to_be_bytes().to_vec()
                }
            })
            .collect();
        assert_eq!(res, expected);
    }
}

#[test]
fn convert_i32_to_f32_ok() {
    for le in [false, true] {
        let original: Vec<SampleValue> = (1..=10).map(|i: i64| SampleValue::I32(i as i32)).collect();
        let header = header_for(SampleFormatCode::Float32, le);
        let lossless_res = convert_data_losslessly(&original, &header);
        assert!(lossless_res.is_err());
        let res = convert_data(&original, &header).expect("conversion works");
        let expected: Vec<u8> = (1..=10)
            .flat_map(|i: i64| {
                let v = (i as f32);
                if le {
                    v.to_le_bytes().to_vec()
                } else {
                    v.to_be_bytes().to_vec()
                }
            })
            .collect();
        assert_eq!(res, expected);
    }
}

#[test]
fn convert_u32_to_f32_ok() {
    for le in [false, true] {
        let original: Vec<SampleValue> = (1..=10).map(|i: i64| SampleValue::U32(i as u32)).collect();
        let header = header_for(SampleFormatCode::Float32, le);
        let lossless_res = convert_data_losslessly(&original, &header);
        assert!(lossless_res.is_err());
        let res = convert_data(&original, &header).expect("conversion works");
        let expected: Vec<u8> = (1..=10)
            .flat_map(|i: i64| {
                let v = (i as f32);
                if le {
                    v.to_le_bytes().to_vec()
                } else {
                    v.to_be_bytes().to_vec()
                }
            })
            .collect();
        assert_eq!(res, expected);
    }
}

#[test]
fn convert_u64_to_f32_ok() {
    for le in [false, true] {
        let original: Vec<SampleValue> = (1..=10).map(|i: i64| SampleValue::U64(i as u64)).collect();
        let header = header_for(SampleFormatCode::Float32, le);
        let lossless_res = convert_data_losslessly(&original, &header);
        assert!(lossless_res.is_err());
        let res = convert_data(&original, &header).expect("conversion works");
        let expected: Vec<u8> = (1..=10)
            .flat_map(|i: i64| {
                let v = (i as f32);
                if le {
                    v.to_le_bytes().to_vec()
                } else {
                    v.to_be_bytes().to_vec()
                }
            })
            .collect();
        assert_eq!(res, expected);
    }
}

#[test]
fn convert_i64_to_f32_ok() {
    for le in [false, true] {
        let original: Vec<SampleValue> = (1..=10).map(|i: i64| SampleValue::I64(i as i64)).collect();
        let header = header_for(SampleFormatCode::Float32, le);
        let lossless_res = convert_data_losslessly(&original, &header);
        assert!(lossless_res.is_err());
        let res = convert_data(&original, &header).expect("conversion works");
        let expected: Vec<u8> = (1..=10)
            .flat_map(|i: i64| {
                let v = (i as f32);
                if le {
                    v.to_le_bytes().to_vec()
                } else {
                    v.to_be_bytes().to_vec()
                }
            })
            .collect();
        assert_eq!(res, expected);
    }
}

#[test]
fn convert_i32_to_f64_ok() {
    for le in [false, true] {
        let original: Vec<SampleValue> = (1..=10).map(|i: i64| SampleValue::I32(i as i32)).collect();
        let header = header_for(SampleFormatCode::Float64, le);
        let lossless_res = convert_data_losslessly(&original, &header);
        assert!(lossless_res.is_ok());
        let res = convert_data(&original, &header).expect("conversion works");
        let expected: Vec<u8> = (1..=10)
            .flat_map(|i: i64| {
                let v = (i as f64);
                if le {
                    v.to_le_bytes().to_vec()
                } else {
                    v.to_be_bytes().to_vec()
                }
            })
            .collect();
        assert_eq!(res, expected);
    }
}

#[test]
fn convert_u32_to_f64_ok() {
    for le in [false, true] {
        let original: Vec<SampleValue> = (1..=10).map(|i: i64| SampleValue::U32(i as u32)).collect();
        let header = header_for(SampleFormatCode::Float64, le);
        let lossless_res = convert_data_losslessly(&original, &header);
        assert!(lossless_res.is_err());
        let res = convert_data(&original, &header).expect("conversion works");
        let expected: Vec<u8> = (1..=10)
            .flat_map(|i: i64| {
                let v = (i as f64);
                if le {
                    v.to_le_bytes().to_vec()
                } else {
                    v.to_be_bytes().to_vec()
                }
            })
            .collect();
        assert_eq!(res, expected);
    }
}

#[test]
fn convert_u64_to_f64_ok() {
    for le in [false, true] {
        let original: Vec<SampleValue> = (1..=10).map(|i: i64| SampleValue::U64(i as u64)).collect();
        let header = header_for(SampleFormatCode::Float64, le);
        let lossless_res = convert_data_losslessly(&original, &header);
        assert!(lossless_res.is_err());
        let res = convert_data(&original, &header).expect("conversion works");
        let expected: Vec<u8> = (1..=10)
            .flat_map(|i: i64| {
                let v = (i as f64);
                if le {
                    v.to_le_bytes().to_vec()
                } else {
                    v.to_be_bytes().to_vec()
                }
            })
            .collect();
        assert_eq!(res, expected);
    }
}

#[test]
fn convert_i64_to_f64_ok() {
    for le in [false, true] {
        let original: Vec<SampleValue> = (1..=10).map(|i: i64| SampleValue::I64(i as i64)).collect();
        let header = header_for(SampleFormatCode::Float64, le);
        let lossless_res = convert_data_losslessly(&original, &header);
        assert!(lossless_res.is_err());
        let res = convert_data(&original, &header).expect("conversion works");
        let expected: Vec<u8> = (1..=10)
            .flat_map(|i: i64| {
                let v = (i as f64);
                if le {
                    v.to_le_bytes().to_vec()
                } else {
                    v.to_be_bytes().to_vec()
                }
            })
            .collect();
        assert_eq!(res, expected);
    }
}
