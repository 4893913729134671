//! Measured metrics: memory statistics from page counts, gzip compression
//! of messages, and an operation counter for benchmarks.

use vstd::prelude::*;
use std::io::Write;

verus! {

/// Memory statistics of the process, in MiB.
#[derive(Debug, Clone, Copy, PartialEq, Eq, Structural)]
pub struct MemoryStats {
    pub total_mb: u64,
    pub resident_mb: u64,
    pub shared_mb: u64,
    pub text_mb: u64,
    pub data_mb: u64,
}

/// MiB in `pages` pages of 4096 bytes, rounded down.
pub open spec fn pages_to_mb(pages: u64) -> int {
    (pages * 4096) / 1048576
}

/// Memory statistics from the page counts the kernel reports.
pub fn memory_stats_from_pages(size: u64, resident: u64, shared: u64, text: u64, data: u64) -> (m: MemoryStats)
    requires
        size * 4096 <= u64::MAX,
        resident * 4096 <= u64::MAX,
        shared * 4096 <= u64::MAX,
        text * 4096 <= u64::MAX,
        data * 4096 <= u64::MAX,
    ensures
        m.total_mb == pages_to_mb(size),
        m.resident_mb == pages_to_mb(resident),
        m.shared_mb == pages_to_mb(shared),
        m.text_mb == pages_to_mb(text),
        m.data_mb == pages_to_mb(data),
{
    MemoryStats {
        total_mb: (size * 4096) / 1_048_576,
        resident_mb: (resident * 4096) / 1_048_576,
        shared_mb: (shared * 4096) / 1_048_576,
        text_mb: (text * 4096) / 1_048_576,
        data_mb: (data * 4096) / 1_048_576,
    }
}

/// The gzip stream (default compression level) that flate2 writes for `data`.
pub uninterp spec fn gzip_stream(data: Seq<u8>) -> Seq<u8>;

/// `flate2::write::GzEncoder` at the default level, writing into a vector:
/// the gzip stream of `data`. The encoder fails only on bad compressor
/// parameters or when its output writer fails; the default level is a valid
/// parameter and writing into a vector does not fail, so the result is `Ok`.
#[verifier::external_body]
pub fn compress(data: &[u8]) -> (r: Result<Vec<u8>, String>)
    ensures
        r is Ok,
        r matches Ok(c) ==> c@ == gzip_stream(data@),
{
    let mut encoder = flate2::write::GzEncoder::new(Vec::new(), flate2::Compression::default());
    match encoder.write_all(data) {
        Ok(()) => encoder.finish().map_err(|e| e.to_string()),
        Err(e) => Err(e.to_string()),
    }
}

/// `flate2::write::GzDecoder` writing into a vector: the data of a gzip
/// stream, or the I/O error's message. A stream that gzip wrote decodes to
/// the data it was written from.
#[verifier::external_body]
pub fn decompress(data: &[u8]) -> (r: Result<Vec<u8>, String>)
    ensures
        forall|d: Seq<u8>| data@ == gzip_stream(d) ==> (r is Ok && r->Ok_0@ == d),
{
    let mut decoder = flate2::write::GzDecoder::new(Vec::new());
    match decoder.write_all(data) {
        Ok(()) => decoder.finish().map_err(|e| e.to_string()),
        Err(e) => Err(e.to_string()),
    }
}

/// The LZ4 block (default mode, the data's length prepended) that the lz4
/// library's block compressor writes for `data`.
pub uninterp spec fn lz4_block(data: Seq<u8>) -> Seq<u8>;

/// The largest input the LZ4 block format takes (`LZ4_MAX_INPUT_SIZE`).
pub open spec fn lz4_max_input() -> nat {
    0x7E000000
}

/// Four bytes of `n`, least significant first.
pub open spec fn le32(n: nat) -> Seq<u8> {
    seq![(n % 256) as u8, ((n / 256) % 256) as u8, ((n / 65536) % 256) as u8, ((n / 16777216) % 256) as u8]
}

/// `lz4::block::compress` in the default mode with the size prefix: the
/// data's length as four little-endian bytes, then the LZ4 block. The C
/// library promises success for inputs up to its maximum size; longer
/// inputs are refused. The error is the I/O error's message.
#[verifier::external_body]
pub fn compress_lz4(data: &[u8]) -> (r: Result<Vec<u8>, String>)
    ensures
        r matches Ok(c) ==> c@ == lz4_block(data@) && c@.len() >= 4 && c@.subrange(0, 4) == le32(data@.len()),
        data@.len() <= lz4_max_input() <==> r is Ok,
{
    lz4::block::compress(data, Some(lz4::block::CompressionMode::DEFAULT), true).map_err(|e| e.to_string())
}

/// `lz4::block::decompress` reading the size prefix: the data of a block
/// that `compress_lz4` wrote, or the I/O error's message.
#[verifier::external_body]
pub fn decompress_lz4(data: &[u8]) -> (r: Result<Vec<u8>, String>)
    ensures
        forall|d: Seq<u8>| d.len() <= lz4_max_input() && data@ == lz4_block(d) ==> (r is Ok && r->Ok_0@ == d),
{
    lz4::block::decompress(data, None).map_err(|e| e.to_string())
}

/// Counts operations for a throughput benchmark.
#[derive(Debug)]
pub struct PerformanceBenchmark {
    pub operations: u64,
}

impl PerformanceBenchmark {
    pub fn new() -> (b: Self)
        ensures
            b.operations == 0,
    {
        PerformanceBenchmark { operations: 0 }
    }

    /// Counts one operation.
    pub fn record_operation(&mut self)
        requires
            old(self).operations < u64::MAX,
        ensures
            final(self).operations == old(self).operations + 1,
    {
        self.operations = self.operations + 1;
    }

    /// Starts counting again from zero.
    pub fn reset(&mut self)
        ensures
            final(self).operations == 0,
    {
        self.operations = 0;
    }
}

} // verus!
