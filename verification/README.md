# node_exporter

Host metrics for Prometheus: readings of the processor, disks, memory,
network and platform become metric lines of the text exposition format, or
samples recorded in a metrics registry that an HTTP endpoint serves.

- `src/` is the library, verified with Verus:
  - `metrics`: the line format, `MetricBuilder` and the `MetricValue` trait;
  - `data`: the lines of each kind of reading, written into a `BytesMut`;
  - `collectors`: the samples (gauges and counters) of each kind of reading;
  - `decimal`: decimal text of integers (through `itoa`) and its laws;
  - `byte_buffer`: the `bytes::BytesMut` operations the library relies on;
  - `concat`: sequences built piece by piece, for the proofs.
- `app/` reads the host with `heim`, records samples with `metrics`, and
  serves `/metrics` with `tide`.
- `tests/` runs the library on concrete readings.
