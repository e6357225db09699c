# rust_tracer

A tracer for TDS (Tabular Data Stream) traffic, with MARS (SMP) support.

- `src/headers.rs`: TDS and MARS headers and their decoding from bytes.
- `src/text.rs`: decimal and hex rendering, header lines, the hex dump.
- `src/tracer.rs`: the tracer's state between chunks of traffic and what it
  writes for each chunk (`TracerState::process_data`), with the laws that
  tie chunks together.
- `src/simple_tracer.rs`: the single-file form of the tracer.
- `app/`: the program around the library: the log file, the console, the
  clock and process id that name the log file.
