//! The status and mode enumerations of the dense linear-algebra module's
//! native interface, as the vendor declares them, with the vendor's numeric
//! code attached to each value through `code`. The loader core never
//! interprets these: they are pass-through data between the caller and the
//! native functions.

use vstd::prelude::*;

verus! {

#[derive(Debug, Copy, Clone, PartialEq, Eq, Hash, Structural)]
pub enum cublasStatus_t {
    CUBLAS_STATUS_SUCCESS,
    CUBLAS_STATUS_NOT_INITIALIZED,
    CUBLAS_STATUS_ALLOC_FAILED,
    CUBLAS_STATUS_INVALID_VALUE,
    CUBLAS_STATUS_ARCH_MISMATCH,
    CUBLAS_STATUS_MAPPING_ERROR,
    CUBLAS_STATUS_EXECUTION_FAILED,
    CUBLAS_STATUS_INTERNAL_ERROR,
    CUBLAS_STATUS_NOT_SUPPORTED,
    CUBLAS_STATUS_LICENSE_ERROR,
}

impl cublasStatus_t {
    /// The numeric code of this value in the vendor's native interface.
    pub open spec fn spec_code(self) -> int {
        match self {
            cublasStatus_t::CUBLAS_STATUS_SUCCESS => 0,
            cublasStatus_t::CUBLAS_STATUS_NOT_INITIALIZED => 1,
            cublasStatus_t::CUBLAS_STATUS_ALLOC_FAILED => 3,
            cublasStatus_t::CUBLAS_STATUS_INVALID_VALUE => 7,
            cublasStatus_t::CUBLAS_STATUS_ARCH_MISMATCH => 8,
            cublasStatus_t::CUBLAS_STATUS_MAPPING_ERROR => 11,
            cublasStatus_t::CUBLAS_STATUS_EXECUTION_FAILED => 13,
            cublasStatus_t::CUBLAS_STATUS_INTERNAL_ERROR => 14,
            cublasStatus_t::CUBLAS_STATUS_NOT_SUPPORTED => 15,
            cublasStatus_t::CUBLAS_STATUS_LICENSE_ERROR => 16,
        }
    }

    /// The numeric code of this value in the vendor's native interface.
    pub fn code(&self) -> (r: i32)
        ensures
            r as int == self.spec_code(),
    {
        match self {
            cublasStatus_t::CUBLAS_STATUS_SUCCESS => 0,
            cublasStatus_t::CUBLAS_STATUS_NOT_INITIALIZED => 1,
            cublasStatus_t::CUBLAS_STATUS_ALLOC_FAILED => 3,
            cublasStatus_t::CUBLAS_STATUS_INVALID_VALUE => 7,
            cublasStatus_t::CUBLAS_STATUS_ARCH_MISMATCH => 8,
            cublasStatus_t::CUBLAS_STATUS_MAPPING_ERROR => 11,
            cublasStatus_t::CUBLAS_STATUS_EXECUTION_FAILED => 13,
            cublasStatus_t::CUBLAS_STATUS_INTERNAL_ERROR => 14,
            cublasStatus_t::CUBLAS_STATUS_NOT_SUPPORTED => 15,
            cublasStatus_t::CUBLAS_STATUS_LICENSE_ERROR => 16,
        }
    }
}

#[derive(Debug, Copy, Clone, PartialEq, Eq, Hash, Structural)]
pub enum cublasFillMode_t {
    CUBLAS_FILL_MODE_LOWER,
    CUBLAS_FILL_MODE_UPPER,
}

impl cublasFillMode_t {
    /// The numeric code of this value in the vendor's native interface.
    pub open spec fn spec_code(self) -> int {
        match self {
            cublasFillMode_t::CUBLAS_FILL_MODE_LOWER => 0,
            cublasFillMode_t::CUBLAS_FILL_MODE_UPPER => 1,
        }
    }

    /// The numeric code of this value in the vendor's native interface.
    pub fn code(&self) -> (r: i32)
        ensures
            r as int == self.spec_code(),
    {
        match self {
            cublasFillMode_t::CUBLAS_FILL_MODE_LOWER => 0,
            cublasFillMode_t::CUBLAS_FILL_MODE_UPPER => 1,
        }
    }
}

#[derive(Debug, Copy, Clone, PartialEq, Eq, Hash, Structural)]
pub enum cublasDiagType_t {
    CUBLAS_DIAG_NON_UNIT,
    CUBLAS_DIAG_UNIT,
}

impl cublasDiagType_t {
    /// The numeric code of this value in the vendor's native interface.
    pub open spec fn spec_code(self) -> int {
        match self {
            cublasDiagType_t::CUBLAS_DIAG_NON_UNIT => 0,
            cublasDiagType_t::CUBLAS_DIAG_UNIT => 1,
        }
    }

    /// The numeric code of this value in the vendor's native interface.
    pub fn code(&self) -> (r: i32)
        ensures
            r as int == self.spec_code(),
    {
        match self {
            cublasDiagType_t::CUBLAS_DIAG_NON_UNIT => 0,
            cublasDiagType_t::CUBLAS_DIAG_UNIT => 1,
        }
    }
}

#[derive(Debug, Copy, Clone, PartialEq, Eq, Hash, Structural)]
pub enum cublasSideMode_t {
    CUBLAS_SIDE_LEFT,
    CUBLAS_SIDE_RIGHT,
}

impl cublasSideMode_t {
    /// The numeric code of this value in the vendor's native interface.
    pub open spec fn spec_code(self) -> int {
        match self {
            cublasSideMode_t::CUBLAS_SIDE_LEFT => 0,
            cublasSideMode_t::CUBLAS_SIDE_RIGHT => 1,
        }
    }

    /// The numeric code of this value in the vendor's native interface.
    pub fn code(&self) -> (r: i32)
        ensures
            r as int == self.spec_code(),
    {
        match self {
            cublasSideMode_t::CUBLAS_SIDE_LEFT => 0,
            cublasSideMode_t::CUBLAS_SIDE_RIGHT => 1,
        }
    }
}

#[derive(Debug, Copy, Clone, PartialEq, Eq, Hash, Structural)]
pub enum cublasOperation_t {
    CUBLAS_OP_N,
    CUBLAS_OP_T,
    CUBLAS_OP_C,
}

impl cublasOperation_t {
    /// The numeric code of this value in the vendor's native interface.
    pub open spec fn spec_code(self) -> int {
        match self {
            cublasOperation_t::CUBLAS_OP_N => 0,
            cublasOperation_t::CUBLAS_OP_T => 1,
            cublasOperation_t::CUBLAS_OP_C => 2,
        }
    }

    /// The numeric code of this value in the vendor's native interface.
    pub fn code(&self) -> (r: i32)
        ensures
            r as int == self.spec_code(),
    {
        match self {
            cublasOperation_t::CUBLAS_OP_N => 0,
            cublasOperation_t::CUBLAS_OP_T => 1,
            cublasOperation_t::CUBLAS_OP_C => 2,
        }
    }
}

#[derive(Debug, Copy, Clone, PartialEq, Eq, Hash, Structural)]
pub enum cublasPointerMode_t {
    CUBLAS_POINTER_MODE_HOST,
    CUBLAS_POINTER_MODE_DEVICE,
}

impl cublasPointerMode_t {
    /// The numeric code of this value in the vendor's native interface.
    pub open spec fn spec_code(self) -> int {
        match self {
            cublasPointerMode_t::CUBLAS_POINTER_MODE_HOST => 0,
            cublasPointerMode_t::CUBLAS_POINTER_MODE_DEVICE => 1,
        }
    }

    /// The numeric code of this value in the vendor's native interface.
    pub fn code(&self) -> (r: i32)
        ensures
            r as int == self.spec_code(),
    {
        match self {
            cublasPointerMode_t::CUBLAS_POINTER_MODE_HOST => 0,
            cublasPointerMode_t::CUBLAS_POINTER_MODE_DEVICE => 1,
        }
    }
}

#[derive(Debug, Copy, Clone, PartialEq, Eq, Hash, Structural)]
pub enum cublasAtomicsMode_t {
    CUBLAS_ATOMICS_NOT_ALLOWED,
    CUBLAS_ATOMICS_ALLOWED,
}

impl cublasAtomicsMode_t {
    /// The numeric code of this value in the vendor's native interface.
    pub open spec fn spec_code(self) -> int {
        match self {
            cublasAtomicsMode_t::CUBLAS_ATOMICS_NOT_ALLOWED => 0,
            cublasAtomicsMode_t::CUBLAS_ATOMICS_ALLOWED => 1,
        }
    }

    /// The numeric code of this value in the vendor's native interface.
    pub fn code(&self) -> (r: i32)
        ensures
            r as int == self.spec_code(),
    {
        match self {
            cublasAtomicsMode_t::CUBLAS_ATOMICS_NOT_ALLOWED => 0,
            cublasAtomicsMode_t::CUBLAS_ATOMICS_ALLOWED => 1,
        }
    }
}

#[derive(Debug, Copy, Clone, PartialEq, Eq, Hash, Structural)]
pub enum cublasGemmAlgo_t {
    CUBLAS_GEMM_DFALT,
    CUBLAS_GEMM_ALGO0,
    CUBLAS_GEMM_ALGO1,
    CUBLAS_GEMM_ALGO2,
    CUBLAS_GEMM_ALGO3,
    CUBLAS_GEMM_ALGO4,
    CUBLAS_GEMM_ALGO5,
    CUBLAS_GEMM_ALGO6,
    CUBLAS_GEMM_ALGO7,
    CUBLAS_GEMM_ALGO8,
    CUBLAS_GEMM_ALGO9,
    CUBLAS_GEMM_ALGO10,
    CUBLAS_GEMM_ALGO11,
    CUBLAS_GEMM_ALGO12,
    CUBLAS_GEMM_ALGO13,
    CUBLAS_GEMM_ALGO14,
    CUBLAS_GEMM_ALGO15,
    CUBLAS_GEMM_ALGO16,
    CUBLAS_GEMM_ALGO17,
    CUBLAS_GEMM_ALGO18,
    CUBLAS_GEMM_ALGO19,
    CUBLAS_GEMM_ALGO20,
    CUBLAS_GEMM_ALGO21,
    CUBLAS_GEMM_ALGO22,
    CUBLAS_GEMM_ALGO23,
    CUBLAS_GEMM_DEFAULT_TENSOR_OP,
    CUBLAS_GEMM_ALGO0_TENSOR_OP,
    CUBLAS_GEMM_ALGO1_TENSOR_OP,
    CUBLAS_GEMM_ALGO2_TENSOR_OP,
    CUBLAS_GEMM_ALGO3_TENSOR_OP,
    CUBLAS_GEMM_ALGO4_TENSOR_OP,
    CUBLAS_GEMM_ALGO5_TENSOR_OP,
    CUBLAS_GEMM_ALGO6_TENSOR_OP,
    CUBLAS_GEMM_ALGO7_TENSOR_OP,
    CUBLAS_GEMM_ALGO8_TENSOR_OP,
    CUBLAS_GEMM_ALGO9_TENSOR_OP,
    CUBLAS_GEMM_ALGO10_TENSOR_OP,
    CUBLAS_GEMM_ALGO11_TENSOR_OP,
    CUBLAS_GEMM_ALGO12_TENSOR_OP,
    CUBLAS_GEMM_ALGO13_TENSOR_OP,
    CUBLAS_GEMM_ALGO14_TENSOR_OP,
    CUBLAS_GEMM_ALGO15_TENSOR_OP,
}

impl cublasGemmAlgo_t {
    /// The vendor's alias for its default algorithm.
    pub const CUBLAS_GEMM_DEFAULT: cublasGemmAlgo_t = cublasGemmAlgo_t::CUBLAS_GEMM_DFALT;

    /// The vendor's alias for its default tensor-operation algorithm.
    pub const CUBLAS_GEMM_DFALT_TENSOR_OP: cublasGemmAlgo_t =
        cublasGemmAlgo_t::CUBLAS_GEMM_DEFAULT_TENSOR_OP;

    /// The numeric code of this value in the vendor's native interface.
    pub open spec fn spec_code(self) -> int {
        match self {
            cublasGemmAlgo_t::CUBLAS_GEMM_DFALT => -1,
            cublasGemmAlgo_t::CUBLAS_GEMM_ALGO0 => 0,
            cublasGemmAlgo_t::CUBLAS_GEMM_ALGO1 => 1,
            cublasGemmAlgo_t::CUBLAS_GEMM_ALGO2 => 2,
            cublasGemmAlgo_t::CUBLAS_GEMM_ALGO3 => 3,
            cublasGemmAlgo_t::CUBLAS_GEMM_ALGO4 => 4,
            cublasGemmAlgo_t::CUBLAS_GEMM_ALGO5 => 5,
            cublasGemmAlgo_t::CUBLAS_GEMM_ALGO6 => 6,
            cublasGemmAlgo_t::CUBLAS_GEMM_ALGO7 => 7,
            cublasGemmAlgo_t::CUBLAS_GEMM_ALGO8 => 8,
            cublasGemmAlgo_t::CUBLAS_GEMM_ALGO9 => 9,
            cublasGemmAlgo_t::CUBLAS_GEMM_ALGO10 => 10,
            cublasGemmAlgo_t::CUBLAS_GEMM_ALGO11 => 11,
            cublasGemmAlgo_t::CUBLAS_GEMM_ALGO12 => 12,
            cublasGemmAlgo_t::CUBLAS_GEMM_ALGO13 => 13,
            cublasGemmAlgo_t::CUBLAS_GEMM_ALGO14 => 14,
            cublasGemmAlgo_t::CUBLAS_GEMM_ALGO15 => 15,
            cublasGemmAlgo_t::CUBLAS_GEMM_ALGO16 => 16,
            cublasGemmAlgo_t::CUBLAS_GEMM_ALGO17 => 17,
            cublasGemmAlgo_t::CUBLAS_GEMM_ALGO18 => 18,
            cublasGemmAlgo_t::CUBLAS_GEMM_ALGO19 => 19,
            cublasGemmAlgo_t::CUBLAS_GEMM_ALGO20 => 20,
            cublasGemmAlgo_t::CUBLAS_GEMM_ALGO21 => 21,
            cublasGemmAlgo_t::CUBLAS_GEMM_ALGO22 => 22,
            cublasGemmAlgo_t::CUBLAS_GEMM_ALGO23 => 23,
            cublasGemmAlgo_t::CUBLAS_GEMM_DEFAULT_TENSOR_OP => 99,
            cublasGemmAlgo_t::CUBLAS_GEMM_ALGO0_TENSOR_OP => 100,
            cublasGemmAlgo_t::CUBLAS_GEMM_ALGO1_TENSOR_OP => 101,
            cublasGemmAlgo_t::CUBLAS_GEMM_ALGO2_TENSOR_OP => 102,
            cublasGemmAlgo_t::CUBLAS_GEMM_ALGO3_TENSOR_OP => 103,
            cublasGemmAlgo_t::CUBLAS_GEMM_ALGO4_TENSOR_OP => 104,
            cublasGemmAlgo_t::CUBLAS_GEMM_ALGO5_TENSOR_OP => 105,
            cublasGemmAlgo_t::CUBLAS_GEMM_ALGO6_TENSOR_OP => 106,
            cublasGemmAlgo_t::CUBLAS_GEMM_ALGO7_TENSOR_OP => 107,
            cublasGemmAlgo_t::CUBLAS_GEMM_ALGO8_TENSOR_OP => 108,
            cublasGemmAlgo_t::CUBLAS_GEMM_ALGO9_TENSOR_OP => 109,
            cublasGemmAlgo_t::CUBLAS_GEMM_ALGO10_TENSOR_OP => 110,
            cublasGemmAlgo_t::CUBLAS_GEMM_ALGO11_TENSOR_OP => 111,
            cublasGemmAlgo_t::CUBLAS_GEMM_ALGO12_TENSOR_OP => 112,
            cublasGemmAlgo_t::CUBLAS_GEMM_ALGO13_TENSOR_OP => 113,
            cublasGemmAlgo_t::CUBLAS_GEMM_ALGO14_TENSOR_OP => 114,
            cublasGemmAlgo_t::CUBLAS_GEMM_ALGO15_TENSOR_OP => 115,
        }
    }

    /// The numeric code of this value in the vendor's native interface.
    pub fn code(&self) -> (r: i32)
        ensures
            r as int == self.spec_code(),
    {
        match self {
            cublasGemmAlgo_t::CUBLAS_GEMM_DFALT => -1,
            cublasGemmAlgo_t::CUBLAS_GEMM_ALGO0 => 0,
            cublasGemmAlgo_t::CUBLAS_GEMM_ALGO1 => 1,
            cublasGemmAlgo_t::CUBLAS_GEMM_ALGO2 => 2,
            cublasGemmAlgo_t::CUBLAS_GEMM_ALGO3 => 3,
            cublasGemmAlgo_t::CUBLAS_GEMM_ALGO4 => 4,
            cublasGemmAlgo_t::CUBLAS_GEMM_ALGO5 => 5,
            cublasGemmAlgo_t::CUBLAS_GEMM_ALGO6 => 6,
            cublasGemmAlgo_t::CUBLAS_GEMM_ALGO7 => 7,
            cublasGemmAlgo_t::CUBLAS_GEMM_ALGO8 => 8,
            cublasGemmAlgo_t::CUBLAS_GEMM_ALGO9 => 9,
            cublasGemmAlgo_t::CUBLAS_GEMM_ALGO10 => 10,
            cublasGemmAlgo_t::CUBLAS_GEMM_ALGO11 => 11,
            cublasGemmAlgo_t::CUBLAS_GEMM_ALGO12 => 12,
            cublasGemmAlgo_t::CUBLAS_GEMM_ALGO13 => 13,
            cublasGemmAlgo_t::CUBLAS_GEMM_ALGO14 => 14,
            cublasGemmAlgo_t::CUBLAS_GEMM_ALGO15 => 15,
            cublasGemmAlgo_t::CUBLAS_GEMM_ALGO16 => 16,
            cublasGemmAlgo_t::CUBLAS_GEMM_ALGO17 => 17,
            cublasGemmAlgo_t::CUBLAS_GEMM_ALGO18 => 18,
            cublasGemmAlgo_t::CUBLAS_GEMM_ALGO19 => 19,
            cublasGemmAlgo_t::CUBLAS_GEMM_ALGO20 => 20,
            cublasGemmAlgo_t::CUBLAS_GEMM_ALGO21 => 21,
            cublasGemmAlgo_t::CUBLAS_GEMM_ALGO22 => 22,
            cublasGemmAlgo_t::CUBLAS_GEMM_ALGO23 => 23,
            cublasGemmAlgo_t::CUBLAS_GEMM_DEFAULT_TENSOR_OP => 99,
            cublasGemmAlgo_t::CUBLAS_GEMM_ALGO0_TENSOR_OP => 100,
            cublasGemmAlgo_t::CUBLAS_GEMM_ALGO1_TENSOR_OP => 101,
            cublasGemmAlgo_t::CUBLAS_GEMM_ALGO2_TENSOR_OP => 102,
            cublasGemmAlgo_t::CUBLAS_GEMM_ALGO3_TENSOR_OP => 103,
            cublasGemmAlgo_t::CUBLAS_GEMM_ALGO4_TENSOR_OP => 104,
            cublasGemmAlgo_t::CUBLAS_GEMM_ALGO5_TENSOR_OP => 105,
            cublasGemmAlgo_t::CUBLAS_GEMM_ALGO6_TENSOR_OP => 106,
            cublasGemmAlgo_t::CUBLAS_GEMM_ALGO7_TENSOR_OP => 107,
            cublasGemmAlgo_t::CUBLAS_GEMM_ALGO8_TENSOR_OP => 108,
            cublasGemmAlgo_t::CUBLAS_GEMM_ALGO9_TENSOR_OP => 109,
            cublasGemmAlgo_t::CUBLAS_GEMM_ALGO10_TENSOR_OP => 110,
            cublasGemmAlgo_t::CUBLAS_GEMM_ALGO11_TENSOR_OP => 111,
            cublasGemmAlgo_t::CUBLAS_GEMM_ALGO12_TENSOR_OP => 112,
            cublasGemmAlgo_t::CUBLAS_GEMM_ALGO13_TENSOR_OP => 113,
            cublasGemmAlgo_t::CUBLAS_GEMM_ALGO14_TENSOR_OP => 114,
            cublasGemmAlgo_t::CUBLAS_GEMM_ALGO15_TENSOR_OP => 115,
        }
    }
}

#[derive(Debug, Copy, Clone, PartialEq, Eq, Hash, Structural)]
pub enum cublasMath_t {
    CUBLAS_DEFAULT_MATH,
    CUBLAS_TENSOR_OP_MATH,
}

impl cublasMath_t {
    /// The numeric code of this value in the vendor's native interface.
    pub open spec fn spec_code(self) -> int {
        match self {
            cublasMath_t::CUBLAS_DEFAULT_MATH => 0,
            cublasMath_t::CUBLAS_TENSOR_OP_MATH => 1,
        }
    }

    /// The numeric code of this value in the vendor's native interface.
    pub fn code(&self) -> (r: i32)
        ensures
            r as int == self.spec_code(),
    {
        match self {
            cublasMath_t::CUBLAS_DEFAULT_MATH => 0,
            cublasMath_t::CUBLAS_TENSOR_OP_MATH => 1,
        }
    }
}

/// The opaque context of the dense linear-algebra module. Callers only ever
/// hold it behind a handle owned by the native library.
#[derive(Debug, Copy, Clone)]
pub struct cublasContext {
}

} // verus!
