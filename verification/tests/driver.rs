use ln_bench::backend::Backend;
use ln_bench::backend::run_backend;
use ln_bench::backend::run_pair;
use ln_bench::config::BenchmarkConfig;
use ln_bench::config::default_config;
use ln_bench::error::BenchError;
use ln_bench::report::BackendRow;
use ln_bench::report::align_rows;
use ln_bench::report::render_table;
use ln_bench::stats::average_micros;
use ln_bench::text::u64_to_dec;

/// A backend whose first forward call ever (warmup or measured) is slow and
/// whose later calls take a fixed steady time.
struct SlowFirstCallBackend {
    calls: usize,
    first_call_us: u64,
    steady_us: u64,
    inputs_made: Vec<usize>,
}

impl SlowFirstCallBackend {
    fn new(first_call_us: u64, steady_us: u64) -> Self {
        SlowFirstCallBackend { calls: 0, first_call_us, steady_us, inputs_made: Vec::new() }
    }
}

impl Backend for SlowFirstCallBackend {
    fn setup(&mut self, _seq_len: usize, _normalized_dim: usize) -> Result<(), BenchError> {
        Ok(())
    }

    fn make_input(&mut self, batch_size: usize) -> Result<(), BenchError> {
        self.inputs_made.push(batch_size);
        Ok(())
    }

    fn forward(&mut self) -> Result<(), BenchError> {
        self.calls += 1;
        Ok(())
    }

    fn timed_forward(&mut self) -> Result<u64, BenchError> {
        self.calls += 1;
        if self.calls == 1 {
            Ok(self.first_call_us)
        } else {
            Ok(self.steady_us)
        }
    }

    fn synchronize(&mut self) -> Result<(), BenchError> {
        Ok(())
    }
}

/// A backend whose n-th forward call (warmup or measured) takes 3n µs.
struct ScriptedBackend {
    calls: u64,
}

impl Backend for ScriptedBackend {
    fn setup(&mut self, _seq_len: usize, _normalized_dim: usize) -> Result<(), BenchError> {
        Ok(())
    }

    fn make_input(&mut self, _batch_size: usize) -> Result<(), BenchError> {
        Ok(())
    }

    fn forward(&mut self) -> Result<(), BenchError> {
        self.calls += 1;
        Ok(())
    }

    fn timed_forward(&mut self) -> Result<u64, BenchError> {
        self.calls += 1;
        Ok(self.calls * 3)
    }

    fn synchronize(&mut self) -> Result<(), BenchError> {
        Ok(())
    }
}

/// A backend that fails at a chosen stage.
struct FailingBackend {
    fail_on_batch: usize,
}

impl Backend for FailingBackend {
    fn setup(&mut self, _seq_len: usize, _normalized_dim: usize) -> Result<(), BenchError> {
        Ok(())
    }

    fn make_input(&mut self, batch_size: usize) -> Result<(), BenchError> {
        if batch_size == self.fail_on_batch {
            Err(BenchError::AllocationFailure { batch_size: Some(batch_size) })
        } else {
            Ok(())
        }
    }

    fn forward(&mut self) -> Result<(), BenchError> {
        Ok(())
    }

    fn timed_forward(&mut self) -> Result<u64, BenchError> {
        Ok(1)
    }

    fn synchronize(&mut self) -> Result<(), BenchError> {
        Ok(())
    }
}

fn small_config() -> BenchmarkConfig {
    BenchmarkConfig { seq_len: 2, normalized_dim: 3, batch_sizes: vec![1, 2], repeats: 3 }
}

#[test]
fn warmup_not_in_average() {
    // The synthetic slow first call must not appear in any reported average:
    // warmup consumes it before timing starts.
    let mut backend = SlowFirstCallBackend::new(1_000_000, 9);
    let rows = run_backend(&mut backend, &small_config()).unwrap();
    assert_eq!(rows.len(), 2);
    for row in &rows {
        assert_eq!(row.average_us, 9);
    }
    // Warmup built a batch-1 input before the sweep's own inputs.
    assert_eq!(backend.inputs_made, vec![1, 1, 2]);
}

#[test]
fn single_repeat_average_equals_value() {
    // With repeats = 1 each reported average is exactly the one measured value.
    let mut backend = ScriptedBackend { calls: 0 };
    let config = BenchmarkConfig { seq_len: 2, normalized_dim: 3, batch_sizes: vec![1, 2], repeats: 1 };
    let rows = run_backend(&mut backend, &config).unwrap();
    // Call 1 is warmup; calls 2 and 3 are the measured ones.
    assert_eq!(rows[0].average_us, 6);
    assert_eq!(rows[1].average_us, 9);
}

#[test]
fn average_micros_is_truncating_mean() {
    assert_eq!(average_micros(&vec![3, 5]), 4);
    assert_eq!(average_micros(&vec![3, 4]), 3);
    assert_eq!(average_micros(&vec![42]), 42);
    assert_eq!(average_micros(&vec![0, 0, 1]), 0);
    assert_eq!(average_micros(&vec![u64::MAX, u64::MAX]), u64::MAX);
}

#[test]
fn batch_size_one_is_reported() {
    let mut backend = SlowFirstCallBackend::new(5, 5);
    let config = default_config();
    let rows = run_backend(&mut backend, &config).unwrap();
    assert_eq!(rows[0].batch_size, 1);
}

#[test]
fn largest_batch_completes() {
    let mut backend = SlowFirstCallBackend::new(5, 5);
    let config = default_config();
    let rows = run_backend(&mut backend, &config).unwrap();
    assert_eq!(rows.len(), config.batch_sizes.len());
    assert_eq!(rows.last().unwrap().batch_size, 2048);
}

#[test]
fn table_rows_follow_config_order() {
    // Exactly one row per configured batch size, in configured order.
    let mut a = SlowFirstCallBackend::new(4, 4);
    let mut b = SlowFirstCallBackend::new(6, 6);
    let config = default_config();
    let rows = run_pair(&mut a, &mut b, &config).unwrap();
    let batches: Vec<usize> = rows.iter().map(|r| r.batch_size).collect();
    assert_eq!(batches, vec![1, 2, 4, 8, 16, 32, 64, 128, 256, 512, 1024, 2048]);
    for want in &config.batch_sizes {
        assert_eq!(batches.iter().filter(|b| *b == want).count(), 1);
    }
}

#[test]
fn default_config_values() {
    let config = default_config();
    assert_eq!(config.seq_len, 76);
    assert_eq!(config.normalized_dim, 60);
    assert_eq!(config.repeats, 50);
    assert_eq!(config.batch_sizes, vec![1, 2, 4, 8, 16, 32, 64, 128, 256, 512, 1024, 2048]);
}

#[test]
fn csv_header_exact() {
    let mut a = SlowFirstCallBackend::new(4, 4);
    let mut b = SlowFirstCallBackend::new(6, 6);
    let config = default_config();
    let rows = run_pair(&mut a, &mut b, &config).unwrap();
    let table = render_table(&rows);
    let lines: Vec<&str> = table.split('\n').collect();
    assert_eq!(lines[0], "batch_size,tch_μs_average,cdl_μs_average");
    // A header line plus exactly 12 data rows, each newline terminated.
    assert_eq!(lines.len(), 14);
    assert_eq!(lines[13], "");
    assert_eq!(lines[1], "1,4,6");
    assert_eq!(lines[12], "2048,4,6");
}

#[test]
fn two_backend_alignment() {
    // For every row the batch size from one backend's list equals the other's.
    let mut a = ScriptedBackend { calls: 0 };
    let mut b = SlowFirstCallBackend::new(8, 8);
    let config = small_config();
    let list_a = run_backend(&mut a, &config).unwrap();
    let list_b = run_backend(&mut b, &config).unwrap();
    for (ra, rb) in list_a.iter().zip(list_b.iter()) {
        assert_eq!(ra.batch_size, rb.batch_size);
    }
    let rows = align_rows(&list_a, &list_b).unwrap();
    assert_eq!(rows.len(), list_a.len());
}

#[test]
fn align_rows_rejects_length_mismatch() {
    let a = vec![BackendRow { batch_size: 1, average_us: 5 }];
    let b = vec![
        BackendRow { batch_size: 1, average_us: 5 },
        BackendRow { batch_size: 2, average_us: 5 },
    ];
    assert_eq!(align_rows(&a, &b).unwrap_err(), BenchError::ConfigInconsistency);
}

#[test]
fn align_rows_rejects_batch_mismatch() {
    let a = vec![BackendRow { batch_size: 1, average_us: 5 }];
    let b = vec![BackendRow { batch_size: 2, average_us: 5 }];
    assert_eq!(align_rows(&a, &b).unwrap_err(), BenchError::ConfigInconsistency);
}

#[test]
fn align_rows_joins_matching_lists() {
    let a = vec![BackendRow { batch_size: 4, average_us: 11 }];
    let b = vec![BackendRow { batch_size: 4, average_us: 13 }];
    let rows = align_rows(&a, &b).unwrap();
    assert_eq!(rows.len(), 1);
    assert_eq!(rows[0].batch_size, 4);
    assert_eq!(rows[0].tch_average_us, 11);
    assert_eq!(rows[0].cdl_average_us, 13);
}

#[test]
fn failed_batch_emits_no_rows() {
    let mut backend = FailingBackend { fail_on_batch: 2 };
    let config = small_config();
    let err = run_backend(&mut backend, &config).unwrap_err();
    assert_eq!(err, BenchError::AllocationFailure { batch_size: Some(2) });
}

#[test]
fn error_messages_name_stage_and_batch() {
    assert_eq!(
        BenchError::DeviceUnavailable.message(),
        "device stage failed: no usable device at index 0"
    );
    assert_eq!(
        BenchError::AllocationFailure { batch_size: Some(2048) }.message(),
        "allocation stage failed at batch size 2048"
    );
    assert_eq!(
        BenchError::AllocationFailure { batch_size: None }.message(),
        "allocation stage failed"
    );
    assert_eq!(
        BenchError::ForwardFailure { batch_size: Some(16) }.message(),
        "forward stage failed at batch size 16"
    );
    assert_eq!(
        BenchError::ConfigInconsistency.message(),
        "backend result lists disagree in length or batch-size order"
    );
}

#[test]
fn decimal_rendering_exact() {
    assert_eq!(u64_to_dec(0), "0");
    assert_eq!(u64_to_dec(7), "7");
    assert_eq!(u64_to_dec(204), "204");
    assert_eq!(u64_to_dec(2048), "2048");
    assert_eq!(u64_to_dec(u64::MAX), "18446744073709551615");
}
