use openzl::{DataType, Error, Span, TypedBuffer};

fn parts(e: Error) -> (i32, String, String) {
    let Error::Report { code, name, context } = e;
    (code, name, context)
}

fn numbers(width: usize, count: usize, address: usize) -> TypedBuffer {
    TypedBuffer {
        data_type: DataType::Numeric,
        elt_width: width,
        num_elts: count,
        byte_size: width * count,
        address,
        lens_address: 0,
    }
}

#[test]
fn layout_names_are_the_engines() {
    assert_eq!(DataType::Serial.name(), "ZL_Type_serial");
    assert_eq!(DataType::Struct.name(), "ZL_Type_struct");
    assert_eq!(DataType::Numeric.name(), "ZL_Type_numeric");
    assert_eq!(DataType::String.name(), "ZL_Type_string");
}

#[test]
fn getters_give_what_was_found() {
    let b = numbers(4, 1000, 0x1000);
    assert_eq!(b.data_type(), DataType::Numeric);
    assert_eq!(b.elt_width(), 4);
    assert_eq!(b.num_elts(), 1000);
    assert_eq!(b.byte_size(), 4000);
}

#[test]
fn bytes_of_a_filled_buffer() {
    let b = TypedBuffer {
        data_type: DataType::Serial,
        elt_width: 1,
        num_elts: 22,
        byte_size: 22,
        address: 0x2000,
        lens_address: 0,
    };
    assert_eq!(b.as_bytes(), Span { address: 0x2000, len: 22 });
}

#[test]
fn bytes_of_a_buffer_without_content_are_empty() {
    let mut b = numbers(4, 10, 0);
    assert_eq!(b.as_bytes(), Span::empty());
    b.address = 0x2000;
    b.byte_size = 0;
    assert_eq!(b.as_bytes(), Span::empty());
    assert_eq!(Span::empty(), Span { address: 0, len: 0 });
}

#[test]
fn numbers_of_matching_width_and_alignment() {
    assert_eq!(numbers(4, 1000, 0x1000).as_numeric::<u32>(), Some(Span { address: 0x1000, len: 1000 }));
    assert_eq!(numbers(4, 1000, 0x1000).as_numeric::<i32>(), Some(Span { address: 0x1000, len: 1000 }));
    assert_eq!(numbers(4, 1000, 0x1000).as_numeric::<f32>(), Some(Span { address: 0x1000, len: 1000 }));
    assert_eq!(numbers(8, 5, 0x1008).as_numeric::<u64>(), Some(Span { address: 0x1008, len: 5 }));
    assert_eq!(numbers(1, 5, 0x1003).as_numeric::<u8>(), Some(Span { address: 0x1003, len: 5 }));
}

#[test]
fn numbers_of_another_layout_are_not_given() {
    let mut b = numbers(4, 10, 0x1000);
    b.data_type = DataType::Serial;
    assert_eq!(b.as_numeric::<u32>(), None);
    b.data_type = DataType::Struct;
    assert_eq!(b.as_numeric::<u32>(), None);
    b.data_type = DataType::String;
    assert_eq!(b.as_numeric::<u32>(), None);
}

#[test]
fn numbers_of_another_width_are_not_given() {
    assert_eq!(numbers(4, 10, 0x1000).as_numeric::<u64>(), None);
    assert_eq!(numbers(4, 10, 0x1000).as_numeric::<u16>(), None);
    assert_eq!(numbers(8, 10, 0x1000).as_numeric::<f32>(), None);
}

#[test]
fn numbers_at_no_address_are_not_given() {
    assert_eq!(numbers(4, 10, 0).as_numeric::<u32>(), None);
    assert_eq!(numbers(4, 0, 0).as_numeric::<u32>(), None);
}

#[test]
fn numbers_at_a_misaligned_address_are_not_given() {
    let align = std::mem::align_of::<u32>();
    if align > 1 {
        assert_eq!(numbers(4, 10, 0x1000 + 1).as_numeric::<u32>(), None);
    }
    assert_eq!(numbers(4, 10, 0x1001).numeric_view(4, 4), None);
    assert_eq!(numbers(4, 10, 0x1002).numeric_view(4, 4), None);
    assert_eq!(numbers(4, 10, 0x1004).numeric_view(4, 4), Some(Span { address: 0x1004, len: 10 }));
    assert_eq!(numbers(4, 10, 0x1004).numeric_view(4, 0), None);
}

#[test]
fn no_numbers_are_the_empty_run() {
    assert_eq!(numbers(4, 0, 0x1000).as_numeric::<u32>(), Some(Span::empty()));
    assert_eq!(Span::of(0x1000, 0), Span::empty());
    assert_eq!(Span::of(0x1000, 3), Span { address: 0x1000, len: 3 });
}

#[test]
fn the_checks_come_in_the_order_layout_width_alignment() {
    let mut b = numbers(8, 10, 0x1001);
    b.data_type = DataType::Serial;
    let (_, name, _) = parts(b.numbers(4, 4).unwrap_err());
    assert_eq!(name, "Type mismatch");
    b.data_type = DataType::Numeric;
    let (_, name, _) = parts(b.numbers(4, 4).unwrap_err());
    assert_eq!(name, "Width mismatch");
    b.elt_width = 4;
    let (_, name, _) = parts(b.numbers(4, 4).unwrap_err());
    assert_eq!(name, "Failed to extract numeric data");
    b.address = 0x1004;
    assert_eq!(b.numbers(4, 4).unwrap(), Span { address: 0x1004, len: 10 });
}

#[test]
fn numbers_asked_of_bytes_name_the_layout_found() {
    let mut b = numbers(1, 22, 0x1000);
    b.data_type = DataType::Serial;
    let (code, name, context) = parts(b.numbers(4, 4).unwrap_err());
    assert_eq!(code, -1);
    assert_eq!(name, "Type mismatch");
    assert_eq!(context, "\nExpected numeric type, got ZL_Type_serial");
    b.data_type = DataType::String;
    let (_, _, context) = parts(b.numbers(4, 4).unwrap_err());
    assert_eq!(context, "\nExpected numeric type, got ZL_Type_string");
    b.data_type = DataType::Struct;
    let (_, _, context) = parts(b.numbers(4, 4).unwrap_err());
    assert_eq!(context, "\nExpected numeric type, got ZL_Type_struct");
}

#[test]
fn numbers_of_another_width_name_both_widths() {
    let (code, name, context) = parts(numbers(8, 500, 0x1000).numbers(4, 4).unwrap_err());
    assert_eq!(code, -1);
    assert_eq!(name, "Width mismatch");
    assert_eq!(context, "\nExpected element width 4, got 8");
}

#[test]
fn numbers_that_cannot_be_read_are_an_extraction_failure() {
    let (code, name, context) = parts(numbers(4, 10, 0x1002).numbers(4, 4).unwrap_err());
    assert_eq!(code, -1);
    assert_eq!(name, "Failed to extract numeric data");
    assert_eq!(context, "\nAlignment or type mismatch");
    let (_, name, _) = parts(numbers(4, 10, 0).numbers(4, 4).unwrap_err());
    assert_eq!(name, "Failed to extract numeric data");
}

#[test]
fn string_lengths_of_a_buffer_of_strings() {
    let b = TypedBuffer {
        data_type: DataType::String,
        elt_width: 0,
        num_elts: 4,
        byte_size: 16,
        address: 0x1000,
        lens_address: 0x3000,
    };
    assert_eq!(b.string_lens(), Some(Span { address: 0x3000, len: 4 }));
    assert_eq!(b.as_bytes(), Span { address: 0x1000, len: 16 });
}

#[test]
fn string_lengths_of_another_layout_are_not_given() {
    let mut b = numbers(4, 10, 0x1000);
    b.lens_address = 0x3000;
    assert_eq!(b.string_lens(), None);
    b.data_type = DataType::Serial;
    assert_eq!(b.string_lens(), None);
}

#[test]
fn string_lengths_at_no_address_are_not_given() {
    let b = TypedBuffer {
        data_type: DataType::String,
        elt_width: 0,
        num_elts: 4,
        byte_size: 16,
        address: 0x1000,
        lens_address: 0,
    };
    assert_eq!(b.string_lens(), None);
}

#[test]
fn string_lengths_of_no_strings_are_the_empty_run() {
    let b = TypedBuffer {
        data_type: DataType::String,
        elt_width: 0,
        num_elts: 0,
        byte_size: 0,
        address: 0,
        lens_address: 0x3000,
    };
    assert_eq!(b.string_lens(), Some(Span::empty()));
}
