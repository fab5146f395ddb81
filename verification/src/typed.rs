use crate::decimal::{decimal, push_decimal};
use crate::error::{Error, ErrorView, INVALID_ARGUMENT};
use crate::report::result_view;
use vstd::layout::{align_of, layout_for_type_is_valid, size_of};
use vstd::prelude::*;
use vstd::string::*;

verus! {

/// The four layouts of data that the engine takes and gives.
#[derive(Debug, Clone, Copy, PartialEq, Eq, Structural)]
pub enum DataType {
    /// Bytes with no structure.
    Serial,
    /// Records of one fixed width.
    Struct,
    /// Numbers of one fixed width.
    Numeric,
    /// Strings laid end to end, with an array of their lengths.
    String,
}

impl DataType {
    /// The name that the engine gives the layout.
    pub open spec fn spec_name(self) -> Seq<char> {
        match self {
            DataType::Serial => "ZL_Type_serial"@,
            DataType::Struct => "ZL_Type_struct"@,
            DataType::Numeric => "ZL_Type_numeric"@,
            DataType::String => "ZL_Type_string"@,
        }
    }

    /// The name that the engine gives the layout.
    pub fn name(self) -> (name: &'static str)
        ensures
            name@ == self.spec_name(),
    {
        match self {
            DataType::Serial => "ZL_Type_serial",
            DataType::Struct => "ZL_Type_struct",
            DataType::Numeric => "ZL_Type_numeric",
            DataType::String => "ZL_Type_string",
        }
    }
}

/// What a typed input is made of.
#[derive(Debug, Clone, Copy, PartialEq, Eq, Structural)]
pub enum Shape {
    Serial { len: usize },
    Numeric { width: usize, count: usize },
    String { flat_len: usize, count: usize },
    Struct { width: usize, count: usize },
}

impl Shape {
    /// What the constructors of [`TypedRef`] let through: a numeric width of
    /// 1, 2, 4 or 8 bytes; records that are neither empty nor none.
    pub open spec fn valid(self) -> bool {
        match self {
            Shape::Serial { .. } => true,
            Shape::Numeric { width, .. } => supported_width(width as nat),
            Shape::String { .. } => true,
            Shape::Struct { width, count } => width != 0 && count != 0 && width * count
                <= usize::MAX,
        }
    }
}

/// Whether elements of `width` bytes can be compressed as numbers.
pub open spec fn supported_width(width: nat) -> bool {
    width == 1 || width == 2 || width == 4 || width == 8
}

/// The context of the error for a numeric element of `width` bytes.
pub open spec fn unsupported_width_context(width: nat) -> Seq<char> {
    "\nElement size must be 1, 2, 4, or 8 bytes, got "@ + decimal(width)
}

/// The error for a numeric element whose width is not supported.
pub open spec fn unsupported_width_error(width: nat) -> ErrorView {
    ErrorView {
        code: INVALID_ARGUMENT as int,
        name: "Invalid numeric type"@,
        context: unsupported_width_context(width),
    }
}

/// The error for records of no width, or for no records.
pub open spec fn empty_struct_error() -> ErrorView {
    ErrorView {
        code: INVALID_ARGUMENT as int,
        name: "Invalid struct parameters"@,
        context: "\nWidth and count must be non-zero"@,
    }
}

/// The context of the error for a buffer of `actual` bytes that should hold
/// `count` records of `width` bytes.
pub open spec fn struct_size_context(width: nat, count: nat, actual: nat) -> Seq<char> {
    "\nExpected "@ + decimal(width * count) + " bytes (width="@ + decimal(width) + " * count="@
        + decimal(count) + "), got "@ + decimal(actual)
}

/// The error for a buffer of `actual` bytes that should hold `count` records
/// of `width` bytes.
pub open spec fn struct_size_error(width: nat, count: nat, actual: nat) -> ErrorView {
    ErrorView {
        code: INVALID_ARGUMENT as int,
        name: "Invalid struct buffer size"@,
        context: struct_size_context(width, count, actual),
    }
}

/// The error for a buffer of the wrong size names both sizes: the numeral of
/// the size that was expected follows the first word of its context, and the
/// numeral of the size that was found ends it.
pub proof fn size_error_names_both_sizes(width: nat, count: nat, actual: nat)
    ensures
        ({
            let context = struct_size_error(width, count, actual).context;
            let expected = decimal(width * count);
            let found = decimal(actual);
            &&& context.len() >= 10 + expected.len() + found.len()
            &&& context.subrange(10, 10 + expected.len() as int) == expected
            &&& context.subrange(context.len() - found.len(), context.len() as int) == found
        }),
{
    reveal_strlit("\nExpected ");
    let context = struct_size_error(width, count, actual).context;
    let expected = decimal(width * count);
    let found = decimal(actual);
    let middle = " bytes (width="@ + decimal(width) + " * count="@ + decimal(count) + "), got "@;
    assert(context =~= "\nExpected "@ + expected + middle + found);
    assert(context.subrange(10, 10 + expected.len() as int) =~= expected);
    assert(context.subrange(context.len() - found.len(), context.len() as int) =~= found);
}

/// The error for a numeric element of `width` bytes.
pub fn unsupported_width(width: usize) -> (e: Error)
    ensures
        e@ == unsupported_width_error(width as nat),
{
    let mut context = String::from_str("\nElement size must be 1, 2, 4, or 8 bytes, got ");
    push_decimal(&mut context, width as u128);
    Error::invalid_argument("Invalid numeric type", context)
}

/// A typed input that has passed validation: the layout of data that the
/// caller keeps, and keeps unchanged, for as long as `'a` lasts.
#[derive(Debug, Clone, Copy)]
pub struct TypedRef<'a> {
    shape: Shape,
    data: core::marker::PhantomData<&'a [u8]>,
}

impl<'a> View for TypedRef<'a> {
    type V = Shape;

    closed spec fn view(&self) -> Shape {
        self.shape
    }
}

impl<'a> TypedRef<'a> {
    /// Every typed input is valid.
    #[verifier::type_invariant]
    closed spec fn inv(self) -> bool {
        self.shape.valid()
    }

    /// A typed input of bytes with no structure. Nothing is checked.
    pub fn serial(data: &'a [u8]) -> (r: TypedRef<'a>)
        ensures
            r@ == (Shape::Serial { len: data@.len() as usize }),
    {
        TypedRef { shape: Shape::Serial { len: data.len() }, data: core::marker::PhantomData }
    }

    /// A typed input of numbers. The element must be 1, 2, 4 or 8 bytes
    /// wide; any other is refused with [`unsupported_width_error`].
    pub fn numeric<T: Copy>(data: &'a [T]) -> (r: Result<TypedRef<'a>, Error>)
        ensures
            supported_width(size_of::<T>()) ==> r is Ok && r->Ok_0@ == (Shape::Numeric {
                width: size_of::<T>() as usize,
                count: data@.len() as usize,
            }),
            !supported_width(size_of::<T>()) ==> r is Err && r->Err_0@ == unsupported_width_error(
                size_of::<T>(),
            ),
    {
        let width: usize = core::mem::size_of::<T>();
        if !(width == 1 || width == 2 || width == 4 || width == 8) {
            return Err(unsupported_width(width));
        }
        Ok(
            TypedRef {
                shape: Shape::Numeric { width, count: data.len() },
                data: core::marker::PhantomData,
            },
        )
    }

    /// A typed input of strings: `flat` holds them end to end and `lens`
    /// their lengths. The number of strings is that of the lengths. Whether
    /// the lengths add up to the length of `flat` is left to the engine.
    pub fn strings(flat: &'a [u8], lens: &'a [u32]) -> (r: TypedRef<'a>)
        ensures
            r@ == (Shape::String { flat_len: flat@.len() as usize, count: lens@.len() as usize }),
    {
        TypedRef {
            shape: Shape::String { flat_len: flat.len(), count: lens.len() },
            data: core::marker::PhantomData,
        }
    }

    /// A typed input of `count` records of `width` bytes each. Neither may
    /// be zero, and `bytes` must hold exactly `width * count` bytes.
    pub fn structs(bytes: &'a [u8], width: usize, count: usize) -> (r: Result<TypedRef<'a>, Error>)
        ensures
            (width == 0 || count == 0) ==> r is Err && r->Err_0@ == empty_struct_error(),
            (width != 0 && count != 0 && bytes@.len() != width * count) ==> r is Err
                && r->Err_0@ == struct_size_error(width as nat, count as nat, bytes@.len()),
            (width != 0 && count != 0 && bytes@.len() == width * count) ==> r is Ok && r->Ok_0@
                == (Shape::Struct { width, count }),
    {
        if width == 0 || count == 0 {
            return Err(
                Error::invalid_argument(
                    "Invalid struct parameters",
                    String::from_str("\nWidth and count must be non-zero"),
                ),
            );
        }
        assert(width * count <= usize::MAX * usize::MAX) by (nonlinear_arith)
            requires
                width <= usize::MAX,
                count <= usize::MAX,
        ;
        let expected: u128 = (width as u128) * (count as u128);
        if bytes.len() as u128 != expected {
            let mut context = String::from_str("\nExpected ");
            push_decimal(&mut context, expected);
            context.append(" bytes (width=");
            push_decimal(&mut context, width as u128);
            context.append(" * count=");
            push_decimal(&mut context, count as u128);
            context.append("), got ");
            push_decimal(&mut context, bytes.len() as u128);
            return Err(Error::invalid_argument("Invalid struct buffer size", context));
        }
        Ok(TypedRef { shape: Shape::Struct { width, count }, data: core::marker::PhantomData })
    }

    /// What the input is made of.
    pub fn shape(&self) -> (shape: Shape)
        ensures
            shape == self@,
            shape.valid(),
    {
        proof {
            use_type_invariant(self);
        }
        self.shape
    }
}

/// A run of elements in memory: `len` of them, the first at `address`. The
/// empty run has no address: both are zero.
#[derive(Debug, Clone, Copy, PartialEq, Eq, Structural)]
pub struct Span {
    pub address: usize,
    pub len: usize,
}

impl Span {
    /// The empty run.
    pub open spec fn spec_empty() -> Span {
        Span { address: 0, len: 0 }
    }

    /// The empty run.
    #[verifier::when_used_as_spec(spec_empty)]
    pub fn empty() -> (s: Span)
        ensures
            s == Span::spec_empty(),
    {
        Span { address: 0, len: 0 }
    }

    /// The run of `len` elements at `address`: the empty run where there are
    /// none.
    pub open spec fn spec_of(address: usize, len: usize) -> Span {
        if len == 0 {
            Span::spec_empty()
        } else {
            Span { address, len }
        }
    }

    /// The run of `len` elements at `address`: the empty run where there are
    /// none.
    #[verifier::when_used_as_spec(spec_of)]
    pub fn of(address: usize, len: usize) -> (s: Span)
        ensures
            s == Span::spec_of(address, len),
    {
        if len == 0 {
            Span::empty()
        } else {
            Span { address, len }
        }
    }
}

/// What the engine has put into an output buffer, as found after
/// decompression: nothing of it is known in advance.
#[derive(Debug, Clone, Copy, PartialEq, Eq, Structural)]
pub struct TypedBuffer {
    /// The layout of the content.
    pub data_type: DataType,
    /// The width of one element in bytes.
    pub elt_width: usize,
    /// The number of elements.
    pub num_elts: usize,
    /// The size of the content in bytes.
    pub byte_size: usize,
    /// Where the content lies; zero where there is none.
    pub address: usize,
    /// Where the lengths of the strings lie; zero where there are none.
    pub lens_address: usize,
}

/// The numbers of width `width` and alignment `align` that a buffer can be
/// read as: none unless the buffer holds numbers of that width at an
/// address that is there and a multiple of `align`.
pub open spec fn numeric_span(buffer: TypedBuffer, width: nat, align: nat) -> Option<Span> {
    if buffer.data_type != DataType::Numeric {
        None
    } else if buffer.elt_width != width {
        None
    } else if buffer.address == 0 {
        None
    } else if align == 0 || buffer.address as nat % align != 0 {
        None
    } else {
        Some(Span::of(buffer.address, buffer.num_elts))
    }
}

impl TypedBuffer {
    /// The layout of the content.
    pub fn data_type(&self) -> (t: DataType)
        ensures
            t == self.data_type,
    {
        self.data_type
    }

    /// The size of the content in bytes.
    pub fn byte_size(&self) -> (n: usize)
        ensures
            n == self.byte_size,
    {
        self.byte_size
    }

    /// The number of elements.
    pub fn num_elts(&self) -> (n: usize)
        ensures
            n == self.num_elts,
    {
        self.num_elts
    }

    /// The width of one element in bytes.
    pub fn elt_width(&self) -> (n: usize)
        ensures
            n == self.elt_width,
    {
        self.elt_width
    }

    /// The bytes of the content: the empty run where there is no content or
    /// none of it.
    pub open spec fn bytes(&self) -> Span {
        if self.address == 0 {
            Span::empty()
        } else {
            Span::of(self.address, self.byte_size)
        }
    }

    /// The bytes of the content, see [`TypedBuffer::bytes`].
    pub fn as_bytes(&self) -> (s: Span)
        ensures
            s == self.bytes(),
    {
        if self.address == 0 || self.byte_size == 0 {
            Span::empty()
        } else {
            Span { address: self.address, len: self.byte_size }
        }
    }

    /// The content as numbers of `width` bytes that lie at multiples of
    /// `align`, see [`numeric_span`]: the layout is checked first, then the
    /// width, then the address and its alignment.
    pub fn numeric_view(&self, width: usize, align: usize) -> (s: Option<Span>)
        ensures
            s == numeric_span(*self, width as nat, align as nat),
    {
        match self.data_type {
            DataType::Numeric => {},
            _ => {
                return None;
            },
        }
        if self.elt_width != width {
            return None;
        }
        if self.address == 0 {
            return None;
        }
        if align == 0 || self.address % align != 0 {
            return None;
        }
        Some(Span::of(self.address, self.num_elts))
    }

    /// The content as numbers of type `T`: [`numeric_span`] for the width
    /// and the alignment of `T`.
    pub fn as_numeric<T: Copy>(&self) -> (s: Option<Span>)
        ensures
            s == numeric_span(*self, size_of::<T>(), align_of::<T>()),
    {
        layout_for_type_is_valid::<T>();
        self.numeric_view(core::mem::size_of::<T>(), core::mem::align_of::<T>())
    }

    /// The lengths of the strings: none unless the buffer holds strings and
    /// their lengths are there.
    pub open spec fn lens(&self) -> Option<Span> {
        if self.data_type != DataType::String {
            None
        } else if self.lens_address == 0 {
            None
        } else {
            Some(Span::of(self.lens_address, self.num_elts))
        }
    }

    /// The lengths of the strings, see [`TypedBuffer::lens`].
    pub fn string_lens(&self) -> (s: Option<Span>)
        ensures
            s == self.lens(),
    {
        match self.data_type {
            DataType::String => {},
            _ => {
                return None;
            },
        }
        if self.lens_address == 0 {
            return None;
        }
        Some(Span::of(self.lens_address, self.num_elts))
    }
}

/// The error for a buffer that holds `found` where numbers were asked for.
pub open spec fn type_mismatch_error(found: DataType) -> ErrorView {
    ErrorView {
        code: INVALID_ARGUMENT as int,
        name: "Type mismatch"@,
        context: "\nExpected numeric type, got "@ + found.spec_name(),
    }
}

/// The error for a buffer of elements `found` bytes wide where `expected`
/// bytes were asked for.
pub open spec fn width_mismatch_error(expected: nat, found: nat) -> ErrorView {
    ErrorView {
        code: INVALID_ARGUMENT as int,
        name: "Width mismatch"@,
        context: "\nExpected element width "@ + decimal(expected) + ", got "@ + decimal(found),
    }
}

/// The error for numbers that cannot be read where they lie.
pub open spec fn extraction_error() -> ErrorView {
    ErrorView {
        code: INVALID_ARGUMENT as int,
        name: "Failed to extract numeric data"@,
        context: "\nAlignment or type mismatch"@,
    }
}

/// The numbers of width `width` and alignment `align` in a buffer, or the
/// reason why there are none: the layout is judged first, then the width,
/// then whether the numbers can be read where they lie.
pub open spec fn numbers_found(buffer: TypedBuffer, width: nat, align: nat) -> Result<
    Span,
    ErrorView,
> {
    if buffer.data_type != DataType::Numeric {
        Err(type_mismatch_error(buffer.data_type))
    } else if buffer.elt_width != width {
        Err(width_mismatch_error(width, buffer.elt_width as nat))
    } else {
        match numeric_span(buffer, width, align) {
            Some(span) => Ok(span),
            None => Err(extraction_error()),
        }
    }
}

impl TypedBuffer {
    /// The numbers of width `width` and alignment `align` in the buffer,
    /// see [`numbers_found`].
    pub fn numbers(&self, width: usize, align: usize) -> (r: Result<Span, Error>)
        ensures
            result_view(r) == numbers_found(*self, width as nat, align as nat),
    {
        match self.data_type {
            DataType::Numeric => {},
            _ => {
                let mut context = String::from_str("\nExpected numeric type, got ");
                context.append(self.data_type.name());
                return Err(Error::invalid_argument("Type mismatch", context));
            },
        }
        if self.elt_width != width {
            let mut context = String::from_str("\nExpected element width ");
            push_decimal(&mut context, width as u128);
            context.append(", got ");
            push_decimal(&mut context, self.elt_width as u128);
            return Err(Error::invalid_argument("Width mismatch", context));
        }
        match self.numeric_view(width, align) {
            Some(span) => Ok(span),
            None => Err(
                Error::invalid_argument(
                    "Failed to extract numeric data",
                    String::from_str("\nAlignment or type mismatch"),
                ),
            ),
        }
    }
}

} // verus!
