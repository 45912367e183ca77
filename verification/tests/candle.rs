use ln_bench::backend::Backend;
use ln_bench::backend::run_backend;
use ln_bench::candle_backend::CandleBackend;
use ln_bench::candle_backend::bench_candle;
use ln_bench::config::BenchmarkConfig;
use ln_bench::error::BenchError;

fn small_config() -> BenchmarkConfig {
    BenchmarkConfig { seq_len: 2, normalized_dim: 3, batch_sizes: vec![1, 2], repeats: 2 }
}

#[test]
fn candle_module_has_unit_weight_zero_bias() {
    let mut backend = CandleBackend::with_device(candle_core::Device::Cpu);
    backend.setup(2, 3).unwrap();
    let module = backend.module().as_ref().unwrap();
    let weight: Vec<f32> = module.weight().to_vec1().unwrap();
    assert_eq!(weight, vec![1.0, 1.0, 1.0]);
    let bias: Vec<f32> = module.bias().unwrap().to_vec1().unwrap();
    assert_eq!(bias, vec![0.0, 0.0, 0.0]);
}

#[test]
fn candle_identity_layer_norm_on_standardized_input() {
    // With weight = 1 and bias = 0, inputs that already have mean zero and
    // unit variance along the normalized dimension come back almost unchanged.
    let mut backend = CandleBackend::with_device(candle_core::Device::Cpu);
    backend.setup(1, 2).unwrap();
    let module = backend.module().as_ref().unwrap();
    let device = backend.device.as_ref().unwrap();
    let input = candle_core::Tensor::new(&[[[-1f32, 1f32]]], device).unwrap();
    let output = candle_core::Module::forward(module, &input).unwrap();
    let values: Vec<Vec<Vec<f32>>> = output.to_vec3().unwrap();
    assert!((values[0][0][0] + 1.0).abs() < 1e-3);
    assert!((values[0][0][1] - 1.0).abs() < 1e-3);
}

#[test]
fn candle_cpu_end_to_end_covers_sweep() {
    let mut backend = CandleBackend::with_device(candle_core::Device::Cpu);
    let config = small_config();
    let rows = run_backend(&mut backend, &config).unwrap();
    assert_eq!(rows.len(), 2);
    assert_eq!(rows[0].batch_size, 1);
    assert_eq!(rows[1].batch_size, 2);
}

#[test]
fn candle_without_cuda_fails_fast() {
    // This build of candle carries no CUDA support, so binding GPU 0 must fail
    // before any measurement — never a silent CPU fallback.
    let err = bench_candle(&small_config()).unwrap_err();
    assert_eq!(err, BenchError::DeviceUnavailable);
}

#[test]
fn candle_make_input_without_setup_is_refused() {
    let mut backend = CandleBackend::new();
    let err = backend.make_input(1).unwrap_err();
    assert_eq!(err, BenchError::DeviceUnavailable);
}
