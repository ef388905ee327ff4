//! CNNL element types and their correspondence with digit layouts.
use vstd::prelude::*;
use digit_layout::DigitLayout;

verus! {

/// The element types that CNNL names (`cnnlDataType_t`). `Other` carries the code of a type that
/// none of the named variants stands for.
#[derive(Clone, Copy, PartialEq, Eq, Structural, Hash, Debug)]
pub enum CnnlDataType {
    Invalid,
    Half,
    Bfloat16,
    Float,
    Double,
    Int8,
    Int16,
    Int32,
    Int64,
    Uint8,
    Uint16,
    Uint32,
    Uint64,
    Bool,
    Other(u32),
}

/// The element type that CNNL gives a code (`cnnlDataType_t`); `Other` for a code that none of
/// the named types has.
pub open spec fn code_type(code: u32) -> CnnlDataType {
    match code {
        0u32 => CnnlDataType::Invalid,
        1u32 => CnnlDataType::Half,
        2u32 => CnnlDataType::Float,
        3u32 => CnnlDataType::Int8,
        4u32 => CnnlDataType::Int16,
        6u32 => CnnlDataType::Int32,
        7u32 => CnnlDataType::Uint8,
        8u32 => CnnlDataType::Bool,
        9u32 => CnnlDataType::Int64,
        10u32 => CnnlDataType::Double,
        11u32 => CnnlDataType::Uint32,
        12u32 => CnnlDataType::Uint64,
        13u32 => CnnlDataType::Uint16,
        16u32 => CnnlDataType::Bfloat16,
        _ => CnnlDataType::Other(code),
    }
}

/// The code CNNL gives an element type.
pub open spec fn type_code(t: CnnlDataType) -> u32 {
    match t {
        CnnlDataType::Invalid => 0u32,
        CnnlDataType::Half => 1u32,
        CnnlDataType::Float => 2u32,
        CnnlDataType::Int8 => 3u32,
        CnnlDataType::Int16 => 4u32,
        CnnlDataType::Int32 => 6u32,
        CnnlDataType::Uint8 => 7u32,
        CnnlDataType::Bool => 8u32,
        CnnlDataType::Int64 => 9u32,
        CnnlDataType::Double => 10u32,
        CnnlDataType::Uint32 => 11u32,
        CnnlDataType::Uint64 => 12u32,
        CnnlDataType::Uint16 => 13u32,
        CnnlDataType::Bfloat16 => 16u32,
        CnnlDataType::Other(code) => code,
    }
}

/// An element type in its one form: `Other` only for a code that none of the named types has.
pub open spec fn is_canonical(t: CnnlDataType) -> bool {
    match t {
        CnnlDataType::Other(code) => code_type(code) == t,
        _ => true,
    }
}

impl CnnlDataType {
    /// The element type of a code; a code of a named type always gives that type.
    pub fn from_code(code: u32) -> (t: CnnlDataType)
        ensures
            t == code_type(code),
    {
        match code {
            0u32 => CnnlDataType::Invalid,
            1u32 => CnnlDataType::Half,
            2u32 => CnnlDataType::Float,
            3u32 => CnnlDataType::Int8,
            4u32 => CnnlDataType::Int16,
            6u32 => CnnlDataType::Int32,
            7u32 => CnnlDataType::Uint8,
            8u32 => CnnlDataType::Bool,
            9u32 => CnnlDataType::Int64,
            10u32 => CnnlDataType::Double,
            11u32 => CnnlDataType::Uint32,
            12u32 => CnnlDataType::Uint64,
            13u32 => CnnlDataType::Uint16,
            16u32 => CnnlDataType::Bfloat16,
            _ => CnnlDataType::Other(code),
        }
    }

    /// The code of an element type.
    pub fn to_code(self) -> (code: u32)
        ensures
            code == type_code(self),
    {
        match self {
            CnnlDataType::Invalid => 0u32,
            CnnlDataType::Half => 1u32,
            CnnlDataType::Float => 2u32,
            CnnlDataType::Int8 => 3u32,
            CnnlDataType::Int16 => 4u32,
            CnnlDataType::Int32 => 6u32,
            CnnlDataType::Uint8 => 7u32,
            CnnlDataType::Bool => 8u32,
            CnnlDataType::Int64 => 9u32,
            CnnlDataType::Double => 10u32,
            CnnlDataType::Uint32 => 11u32,
            CnnlDataType::Uint64 => 12u32,
            CnnlDataType::Uint16 => 13u32,
            CnnlDataType::Bfloat16 => 16u32,
            CnnlDataType::Other(code) => code,
        }
    }
}

/// Codes and element types correspond one to one: the type of a code is in its one form and has
/// that code, and a type in its one form is the type of its code.
pub proof fn lemma_code_round_trip(code: u32, t: CnnlDataType)
    ensures
        is_canonical(code_type(code)),
        type_code(code_type(code)) == code,
        is_canonical(t) ==> code_type(type_code(t)) == t,
{
}

/// The codes of the named element types are those of `cnnlDataType_t`: `INVALID` 0, `HALF` 1,
/// `FLOAT` 2, `INT8` 3, `INT16` 4, `INT32` 6, `UINT8` 7, `BOOL` 8, `INT64` 9, `DOUBLE` 10,
/// `UINT32` 11, `UINT64` 12, `UINT16` 13, `BFLOAT16` 16; each of these codes gives its type back,
/// and the codes 5, 14 and 15, of types that have no variant here, give `Other`.
pub proof fn lemma_cnnl_codes()
    ensures
        type_code(CnnlDataType::Invalid) == 0,
        type_code(CnnlDataType::Half) == 1,
        type_code(CnnlDataType::Float) == 2,
        type_code(CnnlDataType::Int8) == 3,
        type_code(CnnlDataType::Int16) == 4,
        type_code(CnnlDataType::Int32) == 6,
        type_code(CnnlDataType::Uint8) == 7,
        type_code(CnnlDataType::Bool) == 8,
        type_code(CnnlDataType::Int64) == 9,
        type_code(CnnlDataType::Double) == 10,
        type_code(CnnlDataType::Uint32) == 11,
        type_code(CnnlDataType::Uint64) == 12,
        type_code(CnnlDataType::Uint16) == 13,
        type_code(CnnlDataType::Bfloat16) == 16,
        code_type(0) == CnnlDataType::Invalid,
        code_type(1) == CnnlDataType::Half,
        code_type(2) == CnnlDataType::Float,
        code_type(3) == CnnlDataType::Int8,
        code_type(4) == CnnlDataType::Int16,
        code_type(6) == CnnlDataType::Int32,
        code_type(7) == CnnlDataType::Uint8,
        code_type(8) == CnnlDataType::Bool,
        code_type(9) == CnnlDataType::Int64,
        code_type(10) == CnnlDataType::Double,
        code_type(11) == CnnlDataType::Uint32,
        code_type(12) == CnnlDataType::Uint64,
        code_type(13) == CnnlDataType::Uint16,
        code_type(16) == CnnlDataType::Bfloat16,
        code_type(5) == CnnlDataType::Other(5),
        code_type(14) == CnnlDataType::Other(14),
        code_type(15) == CnnlDataType::Other(15),
{
}

/// A CNNL element type.
#[derive(Clone, Copy, PartialEq, Eq, Structural, Hash, Debug)]
pub struct DataType(pub CnnlDataType);

/// The CNNL element type has no digit layout.
#[derive(Clone, Copy, PartialEq, Eq, Structural, Hash, Debug)]
pub struct DataTypeNotMatch(pub CnnlDataType);

/// What a digit layout decodes to.
#[derive(Clone, Copy, Eq, Hash, Debug)]
pub enum LayoutContent {
    /// An unsigned integer of `width` bits.
    Unsigned { width: u32 },
    /// A number with `exponent` exponent bits and `mantissa` mantissa bits (signed integers have
    /// no exponent bits).
    Real { exponent: u32, mantissa: u32 },
    /// A named type; the name is padded with zero bytes.
    Named { name: [u8; 8] },
}

/// A digit layout as plain values: its content, how many digits a group holds, and the bytes a
/// group takes.
#[derive(Clone, Copy, Eq, Hash, Debug)]
pub struct Layout {
    pub content: LayoutContent,
    pub group: usize,
    pub size: usize,
}


/// Compares two padded names byte by byte.
fn same_name(a: &[u8; 8], b: &[u8; 8]) -> (r: bool)
    ensures
        r == (*a == *b),
{
    let mut i: usize = 0;
    while i < 8
        invariant
            i <= 8,
            forall|j: int| 0 <= j < i ==> a[j] == b[j],
        decreases 8 - i,
    {
        if a[i] != b[i] {
            assert(a[i as int] != b[i as int]);
            return false;
        }
        i = i + 1;
    }
    proof {
        vstd::array::axiom_array_ext_equal(*a, *b);
    }
    true
}

impl PartialEq for LayoutContent {
    fn eq(&self, other: &Self) -> (r: bool) {
        match self {
            LayoutContent::Unsigned { width: a } => match other {
                LayoutContent::Unsigned { width: b } => *a == *b,
                _ => false,
            },
            LayoutContent::Real { exponent: e1, mantissa: m1 } => match other {
                LayoutContent::Real { exponent: e2, mantissa: m2 } => *e1 == *e2 && *m1 == *m2,
                _ => false,
            },
            LayoutContent::Named { name: a } => match other {
                LayoutContent::Named { name: b } => same_name(a, b),
                _ => false,
            },
        }
    }
}

impl vstd::std_specs::cmp::PartialEqSpecImpl for LayoutContent {
    open spec fn obeys_eq_spec() -> bool {
        true
    }

    open spec fn eq_spec(&self, other: &Self) -> bool {
        *self == *other
    }
}

impl PartialEq for Layout {
    fn eq(&self, other: &Self) -> (r: bool) {
        self.content == other.content && self.group == other.group && self.size == other.size
    }
}

impl vstd::std_specs::cmp::PartialEqSpecImpl for Layout {
    open spec fn obeys_eq_spec() -> bool {
        true
    }

    open spec fn eq_spec(&self, other: &Self) -> bool {
        *self == *other
    }
}

/// A layout of single numbers with `exponent` and `mantissa` bits taking `size` bytes.
pub open spec fn real_layout(exponent: u32, mantissa: u32, size: usize) -> Layout {
    Layout { content: LayoutContent::Real { exponent, mantissa }, group: 1, size }
}

/// A layout of single unsigned integers of `width` bits.
pub open spec fn unsigned_layout(width: u32) -> Layout {
    Layout { content: LayoutContent::Unsigned { width }, group: 1, size: (width / 8) as usize }
}

/// The name `bool`, padded.
pub open spec fn bool_name() -> [u8; 8] {
    [98u8, 111u8, 111u8, 108u8, 0u8, 0u8, 0u8, 0u8]
}

/// The layout of single booleans.
pub open spec fn bool_layout() -> Layout {
    Layout { content: LayoutContent::Named { name: bool_name() }, group: 1, size: 1 }
}

/// The digit layout of each CNNL element type that has one.
pub open spec fn known_layout(t: CnnlDataType) -> Option<Layout> {
    match t {
        CnnlDataType::Half => Some(real_layout(5, 10, 2)),
        CnnlDataType::Bfloat16 => Some(real_layout(8, 7, 2)),
        CnnlDataType::Float => Some(real_layout(8, 23, 4)),
        CnnlDataType::Double => Some(real_layout(11, 52, 8)),
        CnnlDataType::Int8 => Some(real_layout(0, 7, 1)),
        CnnlDataType::Int16 => Some(real_layout(0, 15, 2)),
        CnnlDataType::Int32 => Some(real_layout(0, 31, 4)),
        CnnlDataType::Int64 => Some(real_layout(0, 63, 8)),
        CnnlDataType::Uint8 => Some(unsigned_layout(8)),
        CnnlDataType::Uint16 => Some(unsigned_layout(16)),
        CnnlDataType::Uint32 => Some(unsigned_layout(32)),
        CnnlDataType::Uint64 => Some(unsigned_layout(64)),
        CnnlDataType::Bool => Some(bool_layout()),
        _ => None,
    }
}

/// The digit layout of the element type with `t`'s code: the types are told apart by their codes,
/// so `Other` with the code of a named type has that type's layout.
pub open spec fn type_layout(t: CnnlDataType) -> Option<Layout> {
    known_layout(code_type(type_code(t)))
}

/// The CNNL element type of a digit layout: the type whose layout it is, `Invalid` when there is
/// none.
pub open spec fn layout_data_type(l: Layout) -> CnnlDataType {
    if l == real_layout(5, 10, 2) {
        CnnlDataType::Half
    } else if l == real_layout(8, 7, 2) {
        CnnlDataType::Bfloat16
    } else if l == real_layout(8, 23, 4) {
        CnnlDataType::Float
    } else if l == real_layout(11, 52, 8) {
        CnnlDataType::Double
    } else if l == real_layout(0, 7, 1) {
        CnnlDataType::Int8
    } else if l == real_layout(0, 15, 2) {
        CnnlDataType::Int16
    } else if l == real_layout(0, 31, 4) {
        CnnlDataType::Int32
    } else if l == real_layout(0, 63, 8) {
        CnnlDataType::Int64
    } else if l == unsigned_layout(8) {
        CnnlDataType::Uint8
    } else if l == unsigned_layout(16) {
        CnnlDataType::Uint16
    } else if l == unsigned_layout(32) {
        CnnlDataType::Uint32
    } else if l == unsigned_layout(64) {
        CnnlDataType::Uint64
    } else if l == bool_layout() {
        CnnlDataType::Bool
    } else {
        CnnlDataType::Invalid
    }
}

impl Layout {
    /// Single numbers with `exponent` and `mantissa` bits taking `size` bytes.
    fn real_number(exponent: u32, mantissa: u32, size: usize) -> (l: Layout)
        ensures
            l == real_layout(exponent, mantissa, size),
    {
        Layout { content: LayoutContent::Real { exponent, mantissa }, group: 1, size }
    }

    /// Single unsigned integers of `width` bits.
    fn unsigned_integer(width: u32) -> (l: Layout)
        ensures
            l == unsigned_layout(width),
    {
        Layout { content: LayoutContent::Unsigned { width }, group: 1, size: (width / 8) as usize }
    }

    /// Single booleans.
    fn boolean() -> (l: Layout)
        ensures
            l == bool_layout(),
    {
        let name: [u8; 8] = [98u8, 111u8, 111u8, 108u8, 0u8, 0u8, 0u8, 0u8];
        assert(name == bool_name());
        Layout { content: LayoutContent::Named { name }, group: 1, size: 1 }
    }
}

impl DataType {
    /// The CNNL element type of a digit layout; `Invalid` for a layout that CNNL has no type for.
    pub fn from_layout(layout: &Layout) -> (dt: DataType)
        ensures
            dt == DataType(layout_data_type(*layout)),
    {
        let t = if *layout == Layout::real_number(5, 10, 2) {
            CnnlDataType::Half
        } else if *layout == Layout::real_number(8, 7, 2) {
            CnnlDataType::Bfloat16
        } else if *layout == Layout::real_number(8, 23, 4) {
            CnnlDataType::Float
        } else if *layout == Layout::real_number(11, 52, 8) {
            CnnlDataType::Double
        } else if *layout == Layout::real_number(0, 7, 1) {
            CnnlDataType::Int8
        } else if *layout == Layout::real_number(0, 15, 2) {
            CnnlDataType::Int16
        } else if *layout == Layout::real_number(0, 31, 4) {
            CnnlDataType::Int32
        } else if *layout == Layout::real_number(0, 63, 8) {
            CnnlDataType::Int64
        } else if *layout == Layout::unsigned_integer(8) {
            CnnlDataType::Uint8
        } else if *layout == Layout::unsigned_integer(16) {
            CnnlDataType::Uint16
        } else if *layout == Layout::unsigned_integer(32) {
            CnnlDataType::Uint32
        } else if *layout == Layout::unsigned_integer(64) {
            CnnlDataType::Uint64
        } else if *layout == Layout::boolean() {
            CnnlDataType::Bool
        } else {
            CnnlDataType::Invalid
        };
        DataType(t)
    }

    /// The digit layout of the element type, found by its code (so that `Other` with the code of a
    /// named type converts as that type), or `DataTypeNotMatch` carrying the type when it has none.
    pub fn to_layout(self) -> (r: Result<Layout, DataTypeNotMatch>)
        ensures
            r == (match type_layout(self.0) {
                Some(l) => Ok(l),
                None => Err(DataTypeNotMatch(self.0)),
            }),
    {
        match CnnlDataType::from_code(self.0.to_code()) {
            CnnlDataType::Half => Ok(Layout::real_number(5, 10, 2)),
            CnnlDataType::Bfloat16 => Ok(Layout::real_number(8, 7, 2)),
            CnnlDataType::Float => Ok(Layout::real_number(8, 23, 4)),
            CnnlDataType::Double => Ok(Layout::real_number(11, 52, 8)),
            CnnlDataType::Int8 => Ok(Layout::real_number(0, 7, 1)),
            CnnlDataType::Int16 => Ok(Layout::real_number(0, 15, 2)),
            CnnlDataType::Int32 => Ok(Layout::real_number(0, 31, 4)),
            CnnlDataType::Int64 => Ok(Layout::real_number(0, 63, 8)),
            CnnlDataType::Uint8 => Ok(Layout::unsigned_integer(8)),
            CnnlDataType::Uint16 => Ok(Layout::unsigned_integer(16)),
            CnnlDataType::Uint32 => Ok(Layout::unsigned_integer(32)),
            CnnlDataType::Uint64 => Ok(Layout::unsigned_integer(64)),
            CnnlDataType::Bool => Ok(Layout::boolean()),
            _ => Err(DataTypeNotMatch(self.0)),
        }
    }
}

/// Going from an element type to its layout and back gives the element type again.
pub proof fn lemma_layout_round_trip(t: CnnlDataType)
    ensures
        known_layout(t) matches Some(l) ==> layout_data_type(l) == t,
{
    if let Some(l) = known_layout(t) {
        assert(bool_name()[0] == 98u8);
    }
}

/// Converting an element type to its layout and back gives the type with the same code, in its
/// one form; for a type already in that form, the layout is the one `known_layout` gives.
pub proof fn lemma_type_round_trip(t: CnnlDataType)
    ensures
        type_layout(t) matches Some(l) ==> layout_data_type(l) == code_type(type_code(t)),
        is_canonical(t) ==> type_layout(t) == known_layout(t),
{
    lemma_layout_round_trip(code_type(type_code(t)));
    lemma_code_round_trip(type_code(t), t);
}

/// Going from a layout to its element type and back gives the layout again, whenever the layout
/// has an element type; the layouts without one all give `Invalid`.
pub proof fn lemma_data_type_round_trip(l: Layout)
    ensures
        layout_data_type(l) != CnnlDataType::Invalid ==> known_layout(layout_data_type(l)) == Some(l),
        layout_data_type(l) !is Other,
{
}

/// The widths, in bits, that a digit layout can have: powers of two from 8 up.
pub open spec fn digit_width(w: int) -> bool {
    w == 8 || w == 16 || w == 32 || w == 64 || w == 128 || w == 256 || w == 512 || w == 1024
        || w == 2048 || w == 4096 || w == 8192 || w == 16384 || w == 32768
}

/// A name a digit layout can carry: up to six digits or lowercase letters.
pub open spec fn layout_name_chars(name: Seq<char>) -> bool {
    &&& name.len() <= 6
    &&& forall|i: int|
        0 <= i < name.len() ==> ('0' <= #[trigger] name[i] <= '9' || 'a' <= name[i] <= 'z')
}

/// A byte of a digit layout's name: a digit or a lowercase letter.
pub open spec fn name_byte(b: u8) -> bool {
    48 <= b <= 57 || 97 <= b <= 122
}

/// A padded name that a digit layout can carry: up to six digits or lowercase letters, then zero
/// bytes.
pub open spec fn padded_name_ok(name: [u8; 8]) -> bool {
    &&& forall|i: int| 0 <= i < 8 ==> #[trigger] name@[i] == 0 || name_byte(name@[i])
    &&& forall|i: int, j: int| 0 <= i < j < 8 && #[trigger] name@[i] == 0 ==> #[trigger] name@[j] == 0
    &&& name@[6] == 0
}

/// A layout that a digit layout can hold: a valid width, a group and size that fit in 16 bits,
/// and a size that the width and the group determine (named layouts carry their size).
pub open spec fn layout_well_formed(l: Layout) -> bool {
    &&& l.group <= 0xFFFF
    &&& l.size <= 0xFFFF
    &&& match l.content {
        LayoutContent::Unsigned { width } => digit_width(width as int) && l.size == (width / 8) as int
            * l.group,
        LayoutContent::Real { exponent, mantissa } => {
            &&& exponent < 256
            &&& mantissa <= 0xFFFF
            &&& digit_width(1 + exponent + mantissa)
            &&& l.size == ((1 + exponent + mantissa) / 8) * l.group
        },
        LayoutContent::Named { name } => padded_name_ok(name),
    }
}

#[verifier::external_type_specification]
#[verifier::external_body]
pub struct ExDigitLayout(DigitLayout);

/// What a digit layout decodes to (`DigitLayout::decode`).
pub uninterp spec fn digit_layout_content(dl: DigitLayout) -> LayoutContent;

/// How many digits a group of a digit layout holds (`DigitLayout::group_size`).
pub uninterp spec fn digit_layout_group(dl: DigitLayout) -> usize;

/// How many bytes a group of a digit layout takes (`DigitLayout::nbytes`).
pub uninterp spec fn digit_layout_size(dl: DigitLayout) -> usize;

/// The plain values of a digit layout.
pub open spec fn layout_of(dl: DigitLayout) -> Layout {
    Layout {
        content: digit_layout_content(dl),
        group: digit_layout_group(dl),
        size: digit_layout_size(dl),
    }
}

/// `DigitLayout::decode`, with each variant of `digit_layout::LayoutContent` moved into the
/// variant of the same name here: what the layout decodes to.
#[verifier::external_body]
fn decode_digit_layout(dl: DigitLayout) -> (c: LayoutContent)
    ensures
        c == digit_layout_content(dl),
{
    match dl.decode() {
        digit_layout::LayoutContent::Unsigned { width } => LayoutContent::Unsigned { width },
        digit_layout::LayoutContent::Real { exponent, mantissa } => LayoutContent::Real {
            exponent,
            mantissa,
        },
        digit_layout::LayoutContent::Named { name } => LayoutContent::Named { name },
    }
}

/// `DigitLayout::group_size`: the number of digits in a group.
#[verifier::external_body]
fn digit_layout_group_size(dl: DigitLayout) -> (n: usize)
    ensures
        n == digit_layout_group(dl),
{
    dl.group_size()
}

/// `DigitLayout::nbytes`: the bytes a group takes.
#[verifier::external_body]
fn digit_layout_nbytes(dl: DigitLayout) -> (n: usize)
    ensures
        n == digit_layout_size(dl),
{
    dl.nbytes()
}

/// `DigitLayout::unsigned`; it asserts a width that is a power of two of at least 8, and
/// computes `width / 8 * group` in 16 bits, which the requirements keep from panicking. The
/// layout decodes to an unsigned integer of that width, with that group and that size.
#[verifier::external_body]
fn new_unsigned_digit_layout(width: u16, group: u16) -> (dl: DigitLayout)
    requires
        digit_width(width as int),
        (width / 8) as int * group <= 0xFFFF,
    ensures
        digit_layout_content(dl) == (LayoutContent::Unsigned { width: width as u32 }),
        digit_layout_group(dl) == group as usize,
        digit_layout_size(dl) == ((width / 8) as int * group) as usize,
{
    DigitLayout::unsigned(width, group)
}

/// `DigitLayout::real`; it computes `1 + exponent + mantissa` and `width / 8 * group` in 16 bits
/// and asserts a width that is a power of two of at least 8 and an exponent below `0x2000`, which
/// the requirements keep from panicking. The layout decodes to the low eight bits of the exponent
/// and the mantissa, with that group and that size.
#[verifier::external_body]
fn new_real_digit_layout(exponent: u16, mantissa: u16, group: u16) -> (dl: DigitLayout)
    requires
        digit_width(1 + exponent + mantissa),
        exponent < 0x2000,
        ((1 + exponent + mantissa) / 8) * group <= 0xFFFF,
    ensures
        digit_layout_content(dl) == (LayoutContent::Real {
            exponent: (exponent % 256) as u32,
            mantissa: mantissa as u32,
        }),
        digit_layout_group(dl) == group as usize,
        digit_layout_size(dl) == (((1 + exponent + mantissa) / 8) * group) as usize,
{
    DigitLayout::real(exponent, mantissa, group)
}

/// `DigitLayout::named`; it accepts digits and letters, and with at most six of them its
/// arithmetic stays within 32 bits and its guards hold. Each character is a base-37 digit of
/// the code, so the layout decodes to the name's bytes padded with zeros, with that group and
/// that size.
#[verifier::external_body]
fn new_named_digit_layout(name: &str, group: u16, size: u16) -> (dl: DigitLayout)
    requires
        layout_name_chars(name@),
    ensures
        digit_layout_content(dl) matches LayoutContent::Named { name: n } && forall|i: int|
            0 <= i < 8 ==> #[trigger] n@[i] == (if i < name@.len() {
                name@[i] as u8
            } else {
                0u8
            }),
        digit_layout_group(dl) == group as usize,
        digit_layout_size(dl) == size as usize,
{
    DigitLayout::named(name, group, size)
}

impl Layout {
    /// The plain values of a digit layout: what it decodes to, its group size and its byte size.
    pub fn from_digit_layout(dl: DigitLayout) -> (l: Layout)
        ensures
            l == layout_of(dl),
    {
        let content = decode_digit_layout(dl);
        let group = digit_layout_group_size(dl);
        let size = digit_layout_nbytes(dl);
        Layout { content, group, size }
    }

    /// The digit layout with these plain values.
    pub fn to_digit_layout(&self) -> (dl: DigitLayout)
        requires
            layout_well_formed(*self),
        ensures
            layout_of(dl) == *self,
    {
        match self.content {
            LayoutContent::Unsigned { width } => {
                new_unsigned_digit_layout(width as u16, self.group as u16)
            },
            LayoutContent::Real { exponent, mantissa } => {
                new_real_digit_layout(exponent as u16, mantissa as u16, self.group as u16)
            },
            LayoutContent::Named { name } => {
                let text = name_text(&name);
                let dl = new_named_digit_layout(text.as_str(), self.group as u16, self.size as u16);
                proof {
                    let n = digit_layout_content(dl)->name;
                    assert forall|i: int| 0 <= i < 8 implies #[trigger] n@[i] == name@[i] by {}
                    assert(n@ =~= name@);
                    vstd::array::axiom_array_ext_equal(n, name);
                }
                dl
            },
        }
    }
}

/// The text of a padded name, up to its first zero byte.
fn name_text(name: &[u8; 8]) -> (s: String)
    requires
        padded_name_ok(*name),
    ensures
        s@ == crate::text::ascii_chars(crate::text::until_nul(name@)),
        layout_name_chars(s@),
        forall|i: int|
            0 <= i < 8 ==> #[trigger] name@[i] == (if i < s@.len() {
                s@[i] as u8
            } else {
                0u8
            }),
{
    let mut bytes: Vec<u8> = Vec::new();
    let mut i: usize = 0;
    while i < 8 && name[i] != 0
        invariant
            padded_name_ok(*name),
            i <= 6,
            forall|j: int| 0 <= j < i ==> name_byte(#[trigger] name@[j]),
            bytes@ == name@.subrange(0, i as int),
        decreases 8 - i,
    {
        assert(name_byte(name@[i as int]));
        bytes.push(name[i]);
        i = i + 1;
        assert(name@[6] == 0);
    }
    proof {
        assert forall|j: int| 0 <= j < bytes@.len() implies #[trigger] bytes@[j] < 128 by {
            assert(name_byte(name@[j]));
        }
        crate::text::lemma_ascii_decode(bytes@);
        assert forall|j: int| 0 <= j < i implies #[trigger] name@[j] != 0 by {
            assert(name_byte(name@[j]));
        }
        crate::text::lemma_until_nul(name@, i as int);
        assert(name@[i as int] == 0);
        assert forall|j: int| i <= j < 8 implies #[trigger] name@[j] == 0 by {
            if j > i {
                assert(name@[i as int] == 0);
            }
        }
    }
    let ghost b = bytes@;
    match crate::text::string_from_utf8(bytes) {
        Some(s) => {
            assert forall|j: int| 0 <= j < s@.len() implies ('0' <= #[trigger] s@[j] <= '9' || 'a'
                <= s@[j] <= 'z') by {
                assert(s@[j] == b[j] as char);
                assert(name_byte(b[j]));
            }
            assert forall|j: int| 0 <= j < 8 implies #[trigger] name@[j] == (if j < s@.len() {
                s@[j] as u8
            } else {
                0u8
            }) by {
                if j < s@.len() {
                    assert(s@[j] == b[j] as char);
                    assert((b[j] as char) as u8 == b[j]);
                }
            }
            s
        },
        None => String::new(),
    }
}

/// Every layout an element type maps to can be held by a digit layout.
pub proof fn lemma_known_layouts_well_formed(t: CnnlDataType)
    ensures
        known_layout(t) matches Some(l) ==> layout_well_formed(l),
{
    if t == CnnlDataType::Bool {
        let name = bool_name();
        assert(name@ =~= seq![98u8, 111u8, 111u8, 108u8, 0u8, 0u8, 0u8, 0u8]);
    }
}

impl DataType {
    /// The CNNL element type of a digit layout: the type whose layout it is, `Invalid` when
    /// there is none.
    pub fn from_digit_layout(dl: DigitLayout) -> (dt: DataType)
        ensures
            dt == DataType(layout_data_type(layout_of(dl))),
            dt.0 !is Other,
    {
        let layout = Layout::from_digit_layout(dl);
        let dt = DataType::from_layout(&layout);
        proof {
            lemma_data_type_round_trip(layout);
        }
        dt
    }

    /// The digit layout of the element type, or `DataTypeNotMatch` carrying the type when it has
    /// none.
    pub fn to_digit_layout(self) -> (r: Result<DigitLayout, DataTypeNotMatch>)
        ensures
            r is Ok <==> type_layout(self.0) is Some,
            r matches Ok(dl) ==> type_layout(self.0) == Some(layout_of(dl)),
            r matches Err(e) ==> e == DataTypeNotMatch(self.0),
    {
        match self.to_layout() {
            Ok(layout) => {
                proof {
                    lemma_known_layouts_well_formed(code_type(type_code(self.0)));
                }
                Ok(layout.to_digit_layout())
            },
            Err(e) => Err(e),
        }
    }
}

} // verus!
