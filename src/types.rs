use vstd::prelude::*;

verus! {

/// The pixel data types of a raster band.
#[derive(Clone, Copy, Debug, PartialEq, Eq, Structural)]
pub enum DataType {
    Byte,
    UInt16,
    UInt32,
    Int16,
    Int32,
    Float32,
    Float64,
}

/// A Rust type that raster pixels can be read into, with its pixel type.
pub trait GdalType {
    /// The pixel type that this Rust type stands for.
    spec fn spec_gdal_type() -> DataType;

    fn gdal_type() -> (r: DataType)
        ensures
            r == Self::spec_gdal_type(),
    ;
}

impl GdalType for u8 {
    open spec fn spec_gdal_type() -> DataType {
        DataType::Byte
    }

    fn gdal_type() -> (r: DataType) {
        DataType::Byte
    }
}

impl GdalType for u16 {
    open spec fn spec_gdal_type() -> DataType {
        DataType::UInt16
    }

    fn gdal_type() -> (r: DataType) {
        DataType::UInt16
    }
}

impl GdalType for u32 {
    open spec fn spec_gdal_type() -> DataType {
        DataType::UInt32
    }

    fn gdal_type() -> (r: DataType) {
        DataType::UInt32
    }
}

impl GdalType for i16 {
    open spec fn spec_gdal_type() -> DataType {
        DataType::Int16
    }

    fn gdal_type() -> (r: DataType) {
        DataType::Int16
    }
}

impl GdalType for i32 {
    open spec fn spec_gdal_type() -> DataType {
        DataType::Int32
    }

    fn gdal_type() -> (r: DataType) {
        DataType::Int32
    }
}

} // verus!
