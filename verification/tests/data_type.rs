use cndrv::cnnl::data_type::{CnnlDataType, DataType, DataTypeNotMatch, Layout, LayoutContent};
use cndrv::cnnl::tensor::{Tensor, TensorLayout};
use digit_layout::types;

fn real_layout(exponent: u32, mantissa: u32, size: usize) -> Layout {
    Layout { content: LayoutContent::Real { exponent, mantissa }, group: 1, size }
}

#[test]
fn data_type_from_known_layouts() {
    assert_eq!(DataType::from_layout(&real_layout(5, 10, 2)), DataType(CnnlDataType::Half));
    assert_eq!(DataType::from_layout(&real_layout(8, 7, 2)), DataType(CnnlDataType::Bfloat16));
    assert_eq!(DataType::from_layout(&real_layout(8, 23, 4)), DataType(CnnlDataType::Float));
    assert_eq!(DataType::from_layout(&real_layout(11, 52, 8)), DataType(CnnlDataType::Double));
    assert_eq!(DataType::from_layout(&real_layout(0, 31, 4)), DataType(CnnlDataType::Int32));
    let u16 = Layout { content: LayoutContent::Unsigned { width: 16 }, group: 1, size: 2 };
    assert_eq!(DataType::from_layout(&u16), DataType(CnnlDataType::Uint16));
    let boolean = Layout {
        content: LayoutContent::Named { name: *b"bool\0\0\0\0" },
        group: 1,
        size: 1,
    };
    assert_eq!(DataType::from_layout(&boolean), DataType(CnnlDataType::Bool));
}

#[test]
fn data_type_from_unknown_layouts_is_invalid() {
    assert_eq!(DataType::from_layout(&real_layout(15, 112, 16)), DataType(CnnlDataType::Invalid));
    let grouped = Layout { content: LayoutContent::Real { exponent: 5, mantissa: 10 }, group: 2, size: 4 };
    assert_eq!(DataType::from_layout(&grouped), DataType(CnnlDataType::Invalid));
    let q8 = Layout { content: LayoutContent::Named { name: *b"q80\0\0\0\0\0" }, group: 32, size: 34 };
    assert_eq!(DataType::from_layout(&q8), DataType(CnnlDataType::Invalid));
}

#[test]
fn data_type_from_digit_layouts() {
    assert_eq!(DataType::from_digit_layout(types::F16), DataType(CnnlDataType::Half));
    assert_eq!(DataType::from_digit_layout(types::BF16), DataType(CnnlDataType::Bfloat16));
    assert_eq!(DataType::from_digit_layout(types::F32), DataType(CnnlDataType::Float));
    assert_eq!(DataType::from_digit_layout(types::F64), DataType(CnnlDataType::Double));
    assert_eq!(DataType::from_digit_layout(types::I8), DataType(CnnlDataType::Int8));
    assert_eq!(DataType::from_digit_layout(types::I16), DataType(CnnlDataType::Int16));
    assert_eq!(DataType::from_digit_layout(types::I32), DataType(CnnlDataType::Int32));
    assert_eq!(DataType::from_digit_layout(types::I64), DataType(CnnlDataType::Int64));
    assert_eq!(DataType::from_digit_layout(types::U8), DataType(CnnlDataType::Uint8));
    assert_eq!(DataType::from_digit_layout(types::U16), DataType(CnnlDataType::Uint16));
    assert_eq!(DataType::from_digit_layout(types::U32), DataType(CnnlDataType::Uint32));
    assert_eq!(DataType::from_digit_layout(types::U64), DataType(CnnlDataType::Uint64));
    assert_eq!(DataType::from_digit_layout(types::Bool), DataType(CnnlDataType::Bool));
    assert_eq!(DataType::from_digit_layout(types::F128), DataType(CnnlDataType::Invalid));
    assert_eq!(DataType::from_digit_layout(types::U128), DataType(CnnlDataType::Invalid));
}

#[test]
fn data_type_to_digit_layouts() {
    assert_eq!(DataType(CnnlDataType::Half).to_digit_layout(), Ok(types::F16));
    assert_eq!(DataType(CnnlDataType::Bfloat16).to_digit_layout(), Ok(types::BF16));
    assert_eq!(DataType(CnnlDataType::Float).to_digit_layout(), Ok(types::F32));
    assert_eq!(DataType(CnnlDataType::Double).to_digit_layout(), Ok(types::F64));
    assert_eq!(DataType(CnnlDataType::Int8).to_digit_layout(), Ok(types::I8));
    assert_eq!(DataType(CnnlDataType::Int16).to_digit_layout(), Ok(types::I16));
    assert_eq!(DataType(CnnlDataType::Int32).to_digit_layout(), Ok(types::I32));
    assert_eq!(DataType(CnnlDataType::Int64).to_digit_layout(), Ok(types::I64));
    assert_eq!(DataType(CnnlDataType::Uint8).to_digit_layout(), Ok(types::U8));
    assert_eq!(DataType(CnnlDataType::Uint16).to_digit_layout(), Ok(types::U16));
    assert_eq!(DataType(CnnlDataType::Uint32).to_digit_layout(), Ok(types::U32));
    assert_eq!(DataType(CnnlDataType::Uint64).to_digit_layout(), Ok(types::U64));
    assert_eq!(DataType(CnnlDataType::Bool).to_digit_layout(), Ok(types::Bool));
}

#[test]
fn data_type_not_match() {
    assert_eq!(
        DataType(CnnlDataType::Invalid).to_digit_layout(),
        Err(DataTypeNotMatch(CnnlDataType::Invalid))
    );
    assert_eq!(
        DataType(CnnlDataType::Other(14)).to_layout(),
        Err(DataTypeNotMatch(CnnlDataType::Other(14)))
    );
}

#[test]
fn data_type_round_trips() {
    let all = [
        CnnlDataType::Half,
        CnnlDataType::Bfloat16,
        CnnlDataType::Float,
        CnnlDataType::Double,
        CnnlDataType::Int8,
        CnnlDataType::Int16,
        CnnlDataType::Int32,
        CnnlDataType::Int64,
        CnnlDataType::Uint8,
        CnnlDataType::Uint16,
        CnnlDataType::Uint32,
        CnnlDataType::Uint64,
        CnnlDataType::Bool,
    ];
    for t in all {
        let layout = DataType(t).to_layout().unwrap();
        assert_eq!(DataType::from_layout(&layout), DataType(t));
        let dl = DataType(t).to_digit_layout().unwrap();
        assert_eq!(DataType::from_digit_layout(dl), DataType(t));
        assert_eq!(Layout::from_digit_layout(dl), layout);
    }
}

#[test]
fn tensor_test() {
    let desc = Tensor::new(DataType::from_digit_layout(types::F16), &[2, 3, 4], &[12, 4, 1]);
    assert_eq!(desc.layout, TensorLayout::Array);
    assert_eq!(desc.data_type, DataType(CnnlDataType::Half));
    assert_eq!(desc.dims, 3);
    assert_eq!(desc.shape, vec![2, 3, 4]);
    assert_eq!(desc.strides, vec![12, 4, 1]);
}

#[test]
fn data_type_codes() {
    assert_eq!(CnnlDataType::from_code(1), CnnlDataType::Half);
    assert_eq!(CnnlDataType::from_code(16), CnnlDataType::Bfloat16);
    assert_eq!(CnnlDataType::from_code(0), CnnlDataType::Invalid);
    assert_eq!(CnnlDataType::from_code(5), CnnlDataType::Other(5));
    assert_eq!(CnnlDataType::Other(5).to_code(), 5);
    assert_eq!(CnnlDataType::Uint16.to_code(), 13);
    for code in 0..40u32 {
        assert_eq!(CnnlDataType::from_code(code).to_code(), code);
    }
    assert_eq!(DataType(CnnlDataType::from_code(1)).to_layout(), Ok(real_layout(5, 10, 2)));
}

#[test]
fn data_type_converts_by_code() {
    assert_eq!(DataType(CnnlDataType::Other(1)).to_layout(), Ok(real_layout(5, 10, 2)));
    assert_eq!(DataType(CnnlDataType::Other(1)).to_digit_layout(), Ok(types::F16));
    assert_eq!(DataType(CnnlDataType::Other(16)).to_digit_layout(), Ok(types::BF16));
    assert_eq!(
        DataType(CnnlDataType::Other(0)).to_layout(),
        Err(DataTypeNotMatch(CnnlDataType::Other(0)))
    );
    assert_eq!(
        DataType(CnnlDataType::Other(5)).to_digit_layout(),
        Err(DataTypeNotMatch(CnnlDataType::Other(5)))
    );
}
