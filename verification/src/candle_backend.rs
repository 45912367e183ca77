use vstd::prelude::*;
use crate::backend::Backend;
use crate::backend::covers;
use crate::backend::run_backend;
use crate::config::BenchmarkConfig;
use crate::error::BenchError;
use crate::report::BackendRow;

verus! {

#[verifier::external_type_specification]
#[verifier::external_body]
pub struct ExDevice(candle_core::Device);

#[verifier::external_type_specification]
#[verifier::external_body]
pub struct ExCandleError(candle_core::Error);

#[verifier::external_type_specification]
#[verifier::external_body]
pub struct ExTensor(candle_core::Tensor);

#[verifier::external_type_specification]
#[verifier::external_body]
pub struct ExLayerNorm(candle_nn::LayerNorm);

/// Relies on candle_core::Device::new_cuda: binds the CUDA device at the given
/// index, failing when the library was built without CUDA support or the
/// device cannot be acquired — never a silent CPU fallback.
#[verifier::external_body]
fn acquire_device(index: usize) -> (r: Result<candle_core::Device, candle_core::Error>) {
    candle_core::Device::new_cuda(index)
}

/// Relies on candle_nn::layer_norm fed from an explicit tensor map: a LayerNorm
/// module over the trailing dimension whose weight is Tensor::ones(dim) and
/// whose bias is Tensor::zeros(dim), 32-bit floats on the given device, with
/// the library's default configuration (its default epsilon, mean removal and
/// the affine transform enabled).
#[verifier::external_body]
fn build_layer_norm(dim: usize, dev: &candle_core::Device) -> (r: Result<
    candle_nn::LayerNorm,
    candle_core::Error,
>) {
    let dtype = candle_core::DType::F32;
    let mut vars: std::collections::HashMap<String, candle_core::Tensor> =
        std::collections::HashMap::new();
    vars.insert("weight".to_string(), candle_core::Tensor::ones(&[dim], dtype, dev)?);
    vars.insert("bias".to_string(), candle_core::Tensor::zeros(&[dim], dtype, dev)?);
    let vb = candle_nn::VarBuilder::new_with_args(Box::new(vars), dtype, dev);
    candle_nn::layer_norm(dim, candle_nn::LayerNormConfig::default(), vb)
}

/// Relies on candle_core::Tensor::zeros and Tensor::randn_like: a fresh tensor
/// of shape [batch, seq_len, dim], 32-bit floats on the given device, each
/// value drawn from a standard normal distribution (mean zero, unit standard
/// deviation). The values are random, so nothing is promised of them.
#[verifier::external_body]
fn random_input(batch: usize, seq_len: usize, dim: usize, dev: &candle_core::Device) -> (r: Result<
    candle_core::Tensor,
    candle_core::Error,
>) {
    let zeros = candle_core::Tensor::zeros(&[batch, seq_len, dim], candle_core::DType::F32, dev)?;
    // Mean zero and standard deviation one, written as integer conversions.
    zeros.randn_like(0u8.into(), 1u8.into())
}

/// Relies on candle_core::Module::forward as implemented by
/// candle_nn::LayerNorm: one forward pass of the module over the input.
#[verifier::external_body]
fn forward_pass(ln: &candle_nn::LayerNorm, input: &candle_core::Tensor) -> (r: Result<
    candle_core::Tensor,
    candle_core::Error,
>) {
    candle_core::Module::forward(ln, input)
}

/// Relies on candle_core::Device::synchronize: blocks until all device work
/// issued so far has completed.
#[verifier::external_body]
fn device_barrier(dev: &candle_core::Device) -> (r: Result<(), candle_core::Error>) {
    dev.synchronize()
}

/// The candle backend adapter: owns the device, the LayerNorm module and the
/// current input tensor for the duration of one benchmark run.
pub struct CandleBackend {
    /// Trailing two input dimensions, fixed at setup.
    pub seq_len: usize,
    pub normalized_dim: usize,
    /// The batch size of the current input, once one was made.
    pub current_batch: Option<usize>,
    pub device: Option<candle_core::Device>,
    pub module: Option<candle_nn::LayerNorm>,
    pub input: Option<candle_core::Tensor>,
}

impl CandleBackend {
    /// A fresh adapter holding no device, module or input yet; `setup` will
    /// bind the CUDA device at index 0 and fail fast when it is unavailable.
    pub fn new() -> (b: CandleBackend)
        ensures
            b.device is None,
            b.module is None,
            b.input is None,
            b.current_batch is None,
    {
        CandleBackend {
            seq_len: 0,
            normalized_dim: 0,
            current_batch: None,
            device: None,
            module: None,
            input: None,
        }
    }

    /// An adapter that will run on the given device instead of binding the CUDA
    /// device at index 0 — the affordance for examining the module and its
    /// forward pass directly, on the CPU, say.
    pub fn with_device(device: candle_core::Device) -> (b: CandleBackend)
        ensures
            b.device is Some,
            b.module is None,
            b.input is None,
            b.current_batch is None,
    {
        CandleBackend {
            seq_len: 0,
            normalized_dim: 0,
            current_batch: None,
            device: Some(device),
            module: None,
            input: None,
        }
    }

    /// The LayerNorm module built at setup, if any — exposed so that its
    /// parameters and its forward pass can be examined from outside.
    pub fn module(&self) -> (m: &Option<candle_nn::LayerNorm>)
        ensures
            m == self.module,
    {
        &self.module
    }
}

impl Backend for CandleBackend {
    fn setup(&mut self, seq_len: usize, normalized_dim: usize) -> (r: Result<(), BenchError>)
        ensures
            (r matches Ok(()) ==> {
                &&& final(self).device is Some
                &&& final(self).module is Some
                &&& final(self).seq_len == seq_len
                &&& final(self).normalized_dim == normalized_dim
                &&& final(self).input is None
                &&& final(self).current_batch is None
            }),
            (r matches Err(e) ==> e == BenchError::DeviceUnavailable || e == (
            BenchError::AllocationFailure { batch_size: None })),
            old(self).device is Some ==> !(r matches Err(BenchError::DeviceUnavailable)),
            (r matches Err(BenchError::DeviceUnavailable)) ==> *final(self) == *old(self),
    {
        if self.device.is_none() {
            match acquire_device(0) {
                Ok(d) => {
                    self.device = Some(d);
                },
                Err(_) => {
                    return Err(BenchError::DeviceUnavailable);
                },
            }
        }
        let module = match &self.device {
            Some(d) => match build_layer_norm(normalized_dim, d) {
                Ok(m) => m,
                Err(_) => {
                    return Err(BenchError::AllocationFailure { batch_size: None });
                },
            },
            None => {
                // The device was just bound or held from construction.
                return Err(BenchError::DeviceUnavailable);
            },
        };
        self.module = Some(module);
        self.seq_len = seq_len;
        self.normalized_dim = normalized_dim;
        self.input = None;
        self.current_batch = None;
        Ok(())
    }

    fn make_input(&mut self, batch_size: usize) -> (r: Result<(), BenchError>)
        ensures
            ((r matches Err(BenchError::DeviceUnavailable)) <==> old(self).device is None),
            (r matches Err(e) ==> {
                &&& (e == BenchError::DeviceUnavailable || e == (BenchError::AllocationFailure {
                    batch_size: Some(batch_size),
                }))
                &&& *final(self) == *old(self)
            }),
            (r matches Ok(()) ==> {
                &&& final(self).input is Some
                &&& final(self).current_batch == Some(batch_size)
                &&& final(self).device == old(self).device
                &&& final(self).module == old(self).module
                &&& final(self).seq_len == old(self).seq_len
                &&& final(self).normalized_dim == old(self).normalized_dim
            }),
    {
        let dev = match &self.device {
            Some(d) => d,
            None => {
                return Err(BenchError::DeviceUnavailable);
            },
        };
        let input = match random_input(batch_size, self.seq_len, self.normalized_dim, dev) {
            Ok(t) => t,
            Err(_) => {
                return Err(BenchError::AllocationFailure { batch_size: Some(batch_size) });
            },
        };
        self.input = Some(input);
        self.current_batch = Some(batch_size);
        Ok(())
    }

    fn forward(&mut self) -> (r: Result<(), BenchError>)
        ensures
            *final(self) == *old(self),
            (r matches Err(e) ==> e == (BenchError::ForwardFailure {
                batch_size: old(self).current_batch,
            })),
            (old(self).module is None || old(self).input is None) ==> r matches Err(_),
    {
        let module = match &self.module {
            Some(m) => m,
            None => {
                return Err(BenchError::ForwardFailure { batch_size: self.current_batch });
            },
        };
        let input = match &self.input {
            Some(t) => t,
            None => {
                return Err(BenchError::ForwardFailure { batch_size: self.current_batch });
            },
        };
        match forward_pass(module, input) {
            Ok(_) => Ok(()),
            Err(_) => Err(BenchError::ForwardFailure { batch_size: self.current_batch }),
        }
    }

    fn timed_forward(&mut self) -> (r: Result<u64, BenchError>)
        ensures
            *final(self) == *old(self),
            ((r matches Err(BenchError::DeviceUnavailable)) <==> old(self).device is None),
            (r matches Err(e) ==> e == BenchError::DeviceUnavailable || e == (
            BenchError::ForwardFailure { batch_size: old(self).current_batch })),
            (old(self).device is Some && (old(self).module is None || old(self).input is None))
                ==> (r matches Err(e) && e == (BenchError::ForwardFailure {
                batch_size: old(self).current_batch,
            })),
    {
        let dev = match &self.device {
            Some(d) => d,
            None => {
                return Err(BenchError::DeviceUnavailable);
            },
        };
        let module = match &self.module {
            Some(m) => m,
            None => {
                return Err(BenchError::ForwardFailure { batch_size: self.current_batch });
            },
        };
        let input = match &self.input {
            Some(t) => t,
            None => {
                return Err(BenchError::ForwardFailure { batch_size: self.current_batch });
            },
        };
        let tic = crate::clock::monotonic_now();
        match forward_pass(module, input) {
            Ok(_) => (),
            Err(_) => {
                return Err(BenchError::ForwardFailure { batch_size: self.current_batch });
            },
        }
        match device_barrier(dev) {
            Ok(()) => (),
            Err(_) => {
                return Err(BenchError::ForwardFailure { batch_size: self.current_batch });
            },
        }
        Ok(crate::clock::elapsed_micros(&tic))
    }

    fn synchronize(&mut self) -> (r: Result<(), BenchError>)
        ensures
            *final(self) == *old(self),
            ((r matches Err(BenchError::DeviceUnavailable)) <==> old(self).device is None),
            (r matches Err(e) ==> e == BenchError::DeviceUnavailable || e == (
            BenchError::ForwardFailure { batch_size: old(self).current_batch })),
    {
        let dev = match &self.device {
            Some(d) => d,
            None => {
                return Err(BenchError::DeviceUnavailable);
            },
        };
        match device_barrier(dev) {
            Ok(()) => Ok(()),
            Err(_) => Err(BenchError::ForwardFailure { batch_size: self.current_batch }),
        }
    }
}

/// Benchmarks the candle backend over one configuration: device 0, a LayerNorm
/// with weight = ones and bias = zeros over `normalized_dim`, warmup, then the
/// measured sweep. On success the rows cover the configured batch sizes
/// exactly, in order.
pub fn bench_candle(config: &BenchmarkConfig) -> (r: Result<Vec<BackendRow>, BenchError>)
    requires
        config.well_formed(),
    ensures
        (r matches Ok(rows) ==> covers(rows@, config.batch_sizes@)),
        (r matches Err(e) ==> e != BenchError::ConfigInconsistency),
{
    let mut backend = CandleBackend::new();
    run_backend(&mut backend, config)
}

} // verus!
