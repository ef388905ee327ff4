//! The CNNL side: element types, tensor descriptors and the library version.
pub mod data_type;
pub mod tensor;
pub mod version;
