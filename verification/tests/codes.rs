use cuda_loader::cublas::cublasAtomicsMode_t;
use cuda_loader::cublas::cublasContext;
use cuda_loader::cublas::cublasDiagType_t;
use cuda_loader::cublas::cublasFillMode_t;
use cuda_loader::cublas::cublasGemmAlgo_t;
use cuda_loader::cublas::cublasMath_t;
use cuda_loader::cublas::cublasOperation_t;
use cuda_loader::cublas::cublasPointerMode_t;
use cuda_loader::cublas::cublasSideMode_t;
use cuda_loader::cublas::cublasStatus_t;

#[test]
fn status_codes_match_the_vendor_values() {
    assert_eq!(cublasStatus_t::CUBLAS_STATUS_SUCCESS.code(), 0);
    assert_eq!(cublasStatus_t::CUBLAS_STATUS_NOT_INITIALIZED.code(), 1);
    assert_eq!(cublasStatus_t::CUBLAS_STATUS_ALLOC_FAILED.code(), 3);
    assert_eq!(cublasStatus_t::CUBLAS_STATUS_INVALID_VALUE.code(), 7);
    assert_eq!(cublasStatus_t::CUBLAS_STATUS_EXECUTION_FAILED.code(), 13);
    assert_eq!(cublasStatus_t::CUBLAS_STATUS_LICENSE_ERROR.code(), 16);
}

#[test]
fn mode_codes_match_the_vendor_values() {
    assert_eq!(cublasFillMode_t::CUBLAS_FILL_MODE_LOWER.code(), 0);
    assert_eq!(cublasFillMode_t::CUBLAS_FILL_MODE_UPPER.code(), 1);
    assert_eq!(cublasDiagType_t::CUBLAS_DIAG_UNIT.code(), 1);
    assert_eq!(cublasSideMode_t::CUBLAS_SIDE_RIGHT.code(), 1);
    assert_eq!(cublasOperation_t::CUBLAS_OP_C.code(), 2);
    assert_eq!(cublasPointerMode_t::CUBLAS_POINTER_MODE_DEVICE.code(), 1);
    assert_eq!(cublasAtomicsMode_t::CUBLAS_ATOMICS_ALLOWED.code(), 1);
    assert_eq!(cublasMath_t::CUBLAS_TENSOR_OP_MATH.code(), 1);
}

#[test]
fn gemm_algorithm_codes_match_the_vendor_values() {
    assert_eq!(cublasGemmAlgo_t::CUBLAS_GEMM_DFALT.code(), -1);
    assert_eq!(cublasGemmAlgo_t::CUBLAS_GEMM_ALGO0.code(), 0);
    assert_eq!(cublasGemmAlgo_t::CUBLAS_GEMM_ALGO23.code(), 23);
    assert_eq!(cublasGemmAlgo_t::CUBLAS_GEMM_DEFAULT_TENSOR_OP.code(), 99);
    assert_eq!(cublasGemmAlgo_t::CUBLAS_GEMM_ALGO15_TENSOR_OP.code(), 115);
}

#[test]
fn context_is_an_opaque_marker() {
    let c = cublasContext {};
    let _copy = c;
}
