//! Converter settings and the errors a conversion reports.

use vstd::prelude::*;
use vstd::string::*;

verus! {

/// Bytes in one MiB.
pub const MIB: u64 = 1048576;

/// Errors reported while configuring or running a conversion.
#[derive(Debug, PartialEq, Eq)]
pub enum ConversionError {
    InvalidConfiguration(String),
    InvalidSource(String),
    UnsupportedType(String),
    InvalidBlobSpec(String),
    InvalidIndexSpec(String),
    Read(String),
    Write(String),
    Validation(String),
    Index(String),
    InvalidDestination(String),
    Unsupported(String),
    Delete(String),
}

/// The model of a conversion error.
pub enum ConversionErrorView {
    InvalidConfiguration(Seq<char>),
    InvalidSource(Seq<char>),
    UnsupportedType(Seq<char>),
    InvalidBlobSpec(Seq<char>),
    InvalidIndexSpec(Seq<char>),
    Read(Seq<char>),
    Write(Seq<char>),
    Validation(Seq<char>),
    Index(Seq<char>),
    InvalidDestination(Seq<char>),
    Unsupported(Seq<char>),
    Delete(Seq<char>),
}

impl View for ConversionError {
    type V = ConversionErrorView;

    open spec fn view(&self) -> ConversionErrorView {
        match self {
            ConversionError::InvalidConfiguration(m) => ConversionErrorView::InvalidConfiguration(m@),
            ConversionError::InvalidSource(m) => ConversionErrorView::InvalidSource(m@),
            ConversionError::UnsupportedType(m) => ConversionErrorView::UnsupportedType(m@),
            ConversionError::InvalidBlobSpec(m) => ConversionErrorView::InvalidBlobSpec(m@),
            ConversionError::InvalidIndexSpec(m) => ConversionErrorView::InvalidIndexSpec(m@),
            ConversionError::Read(m) => ConversionErrorView::Read(m@),
            ConversionError::Write(m) => ConversionErrorView::Write(m@),
            ConversionError::Validation(m) => ConversionErrorView::Validation(m@),
            ConversionError::Index(m) => ConversionErrorView::Index(m@),
            ConversionError::InvalidDestination(m) => ConversionErrorView::InvalidDestination(m@),
            ConversionError::Unsupported(m) => ConversionErrorView::Unsupported(m@),
            ConversionError::Delete(m) => ConversionErrorView::Delete(m@),
        }
    }
}

/// The human-readable text of a conversion error.
pub open spec fn conversion_error_message(error: ConversionErrorView) -> Seq<char> {
    match error {
        ConversionErrorView::InvalidConfiguration(m) => "invalid converter configuration: "@ + m,
        ConversionErrorView::InvalidSource(m) => "invalid source: "@ + m,
        ConversionErrorView::UnsupportedType(m) => "unsupported source schema: "@ + m,
        ConversionErrorView::InvalidBlobSpec(m) => "invalid blob column selection: "@ + m,
        ConversionErrorView::InvalidIndexSpec(m) => "invalid index specification: "@ + m,
        ConversionErrorView::Read(m) => "source read failed: "@ + m,
        ConversionErrorView::Write(m) => "Lance write failed: "@ + m,
        ConversionErrorView::Validation(m) => "conversion validation failed: "@ + m,
        ConversionErrorView::Index(m) => "index creation failed: "@ + m,
        ConversionErrorView::InvalidDestination(m) => "invalid destination: "@ + m,
        ConversionErrorView::Unsupported(m) => "unsupported operation: "@ + m,
        ConversionErrorView::Delete(m) => "move source deletion failed after conversion: "@ + m,
    }
}

fn prefixed(prefix: &str, detail: &String) -> (r: String)
    ensures
        r@ == prefix@ + detail@,
{
    let mut r = String::from_str(prefix);
    r.append(detail.as_str());
    r
}

impl ConversionError {
    /// The human-readable text of this error.
    pub fn message(&self) -> (r: String)
        ensures
            r@ == conversion_error_message(self@),
    {
        match self {
            ConversionError::InvalidConfiguration(m) => prefixed("invalid converter configuration: ", m),
            ConversionError::InvalidSource(m) => prefixed("invalid source: ", m),
            ConversionError::UnsupportedType(m) => prefixed("unsupported source schema: ", m),
            ConversionError::InvalidBlobSpec(m) => prefixed("invalid blob column selection: ", m),
            ConversionError::InvalidIndexSpec(m) => prefixed("invalid index specification: ", m),
            ConversionError::Read(m) => prefixed("source read failed: ", m),
            ConversionError::Write(m) => prefixed("Lance write failed: ", m),
            ConversionError::Validation(m) => prefixed("conversion validation failed: ", m),
            ConversionError::Index(m) => prefixed("index creation failed: ", m),
            ConversionError::InvalidDestination(m) => prefixed("invalid destination: ", m),
            ConversionError::Unsupported(m) => prefixed("unsupported operation: ", m),
            ConversionError::Delete(m) => prefixed("move source deletion failed after conversion: ", m),
        }
    }
}

/// How the converter lays out the destination dataset, in MiB.
#[derive(Debug, Clone, Copy, PartialEq, Eq, Structural)]
pub struct ConverterConfig {
    /// Soft maximum size of each generated Lance data file.
    pub target_lance_file_size_mib: u64,
    /// Largest blob value stored inline in a data file.
    pub blob_inline_threshold_mib: u64,
    /// Largest blob value stored in packed blob storage.
    pub blob_dedicated_threshold_mib: u64,
}

/// Converter settings normalized to bytes.
#[derive(Debug, Clone, Copy, PartialEq, Eq, Structural)]
pub struct ByteConfig {
    pub max_bytes_per_file: usize,
    pub inline_threshold: usize,
    pub dedicated_threshold: usize,
}

/// A byte configuration the converter can run with: the dedicated threshold
/// is positive, above the inline threshold, and the inline threshold fits in
/// one data file.
pub open spec fn byte_config_consistent(config: ByteConfig) -> bool {
    &&& 0 < config.dedicated_threshold
    &&& config.inline_threshold < config.dedicated_threshold
    &&& config.inline_threshold <= config.max_bytes_per_file
}

/// The number of bytes in `mib` MiB.
pub open spec fn mib_bytes(mib: u64) -> int {
    mib * 1048576
}

/// `mib` MiB can be counted in bytes on this platform.
pub open spec fn fits_in_bytes(mib: u64) -> bool {
    mib_bytes(mib) <= u64::MAX && mib_bytes(mib) <= usize::MAX
}

/// Message for a setting whose byte count does not fit.
pub open spec fn too_large_message(setting: Seq<char>) -> Seq<char> {
    setting + " does not fit usize bytes"@
}

/// Message for an inline threshold that is not below the dedicated one.
pub open spec fn threshold_order_message() -> Seq<char> {
    "blob inline threshold must be smaller than blob dedicated threshold"@
}

/// Message for an inline threshold larger than a data file.
pub open spec fn inline_exceeds_file_message() -> Seq<char> {
    "blob inline threshold exceeds target Lance file size"@
}

/// What validating a converter configuration gives.
pub open spec fn config_outcome(config: ConverterConfig) -> Result<ByteConfig, ConversionErrorView> {
    if !fits_in_bytes(config.target_lance_file_size_mib) {
        Err(ConversionErrorView::InvalidConfiguration(too_large_message("target Lance file size"@)))
    } else if !fits_in_bytes(config.blob_inline_threshold_mib) {
        Err(ConversionErrorView::InvalidConfiguration(too_large_message("blob inline threshold"@)))
    } else if !fits_in_bytes(config.blob_dedicated_threshold_mib) {
        Err(ConversionErrorView::InvalidConfiguration(too_large_message("blob dedicated threshold"@)))
    } else if mib_bytes(config.blob_inline_threshold_mib) >= mib_bytes(config.blob_dedicated_threshold_mib) {
        Err(ConversionErrorView::InvalidConfiguration(threshold_order_message()))
    } else if mib_bytes(config.blob_inline_threshold_mib) > mib_bytes(config.target_lance_file_size_mib) {
        Err(ConversionErrorView::InvalidConfiguration(inline_exceeds_file_message()))
    } else {
        Ok(ByteConfig {
            max_bytes_per_file: mib_bytes(config.target_lance_file_size_mib) as usize,
            inline_threshold: mib_bytes(config.blob_inline_threshold_mib) as usize,
            dedicated_threshold: mib_bytes(config.blob_dedicated_threshold_mib) as usize,
        })
    }
}

/// Converts a MiB setting to bytes, naming the setting when it does not fit.
pub fn mib_to_usize(value: u64, setting: &str) -> (r: Result<usize, ConversionError>)
    ensures
        fits_in_bytes(value) ==> r == Ok::<usize, ConversionError>(mib_bytes(value) as usize),
        !fits_in_bytes(value) ==> (r matches Err(e) && e@ == ConversionErrorView::InvalidConfiguration(
            too_large_message(setting@),
        )),
{
    match value.checked_mul(MIB) {
        Some(bytes) => {
            if bytes <= usize::MAX as u64 {
                Ok(bytes as usize)
            } else {
                let mut message = String::from_str(setting);
                message.append(" does not fit usize bytes");
                Err(ConversionError::InvalidConfiguration(message))
            }
        },
        None => {
            let mut message = String::from_str(setting);
            message.append(" does not fit usize bytes");
            Err(ConversionError::InvalidConfiguration(message))
        },
    }
}

impl ConverterConfig {
    /// Normalizes the settings to bytes and checks that they are consistent.
    pub fn validate(self) -> (r: Result<ByteConfig, ConversionError>)
        ensures
            match config_outcome(self) {
                Ok(bytes) => r == Ok::<ByteConfig, ConversionError>(bytes),
                Err(e) => r matches Err(err) && err@ == e,
            },
            r matches Ok(bytes) ==> byte_config_consistent(bytes),
    {
        proof {
            reveal_strlit("target Lance file size");
            reveal_strlit("blob inline threshold");
            reveal_strlit("blob dedicated threshold");
        }
        let max_bytes_per_file = mib_to_usize(self.target_lance_file_size_mib, "target Lance file size")?;
        let inline_threshold = mib_to_usize(self.blob_inline_threshold_mib, "blob inline threshold")?;
        let dedicated_threshold = mib_to_usize(self.blob_dedicated_threshold_mib, "blob dedicated threshold")?;
        if inline_threshold >= dedicated_threshold {
            return Err(
                ConversionError::InvalidConfiguration(
                    String::from_str("blob inline threshold must be smaller than blob dedicated threshold"),
                ),
            );
        }
        if inline_threshold > max_bytes_per_file {
            return Err(
                ConversionError::InvalidConfiguration(
                    String::from_str("blob inline threshold exceeds target Lance file size"),
                ),
            );
        }
        Ok(ByteConfig { max_bytes_per_file, inline_threshold, dedicated_threshold })
    }
}

/// Converts Parquet sources with validated, byte-normalized settings.
#[derive(Debug)]
pub struct Converter {
    config: ByteConfig,
}

impl Converter {
    #[verifier::type_invariant]
    spec fn consistent(self) -> bool {
        byte_config_consistent(self.config)
    }

    /// The byte settings this converter runs with.
    pub closed spec fn settings(self) -> ByteConfig {
        self.config
    }

    /// Builds a converter, failing exactly when the settings are invalid.
    pub fn new(config: ConverterConfig) -> (r: Result<Converter, ConversionError>)
        ensures
            match config_outcome(config) {
                Ok(bytes) => r matches Ok(converter) && converter.settings() == bytes,
                Err(e) => r matches Err(err) && err@ == e,
            },
    {
        let bytes = config.validate()?;
        Ok(Converter { config: bytes })
    }

    /// The byte settings this converter runs with.
    pub fn byte_config(&self) -> (r: ByteConfig)
        ensures
            r == self.settings(),
            byte_config_consistent(r),
    {
        proof {
            use_type_invariant(self);
        }
        self.config
    }
}

} // verus!
