//! Errors of an import batch.
use vstd::prelude::*;
use vstd::string::*;

verus! {

/// Why an import batch produced no records.
#[derive(Debug, Clone, PartialEq, Eq)]
pub enum ImportError {
    /// The text could not be tokenized into rows at all.
    MalformedInput,
    /// A roster row did not carry the expected fields; `row` is the first such
    /// row, its fields joined with commas.
    RowFieldCountMismatch { row: String },
    /// The slot counter cannot hand out the slots the batch needs.
    AllocatorUnavailable,
}

/// The message of `MalformedInput`.
pub open spec fn malformed_message() -> Seq<char> {
    "Unable to parse CSV"@
}

/// The message of `RowFieldCountMismatch`, before the quoted row.
pub open spec fn mismatch_prefix() -> Seq<char> {
    "Unable to parse CSV, first error on line: "@
}

/// The message of `AllocatorUnavailable`.
pub open spec fn allocator_message() -> Seq<char> {
    "Unable to allocate table numbers"@
}

impl ImportError {
    /// A human-readable description; for a field-count mismatch it quotes the
    /// offending row verbatim.
    pub fn message(&self) -> (r: String)
        ensures
            match self {
                ImportError::MalformedInput => r@ == malformed_message(),
                ImportError::RowFieldCountMismatch { row } => r@ == mismatch_prefix() + row@,
                ImportError::AllocatorUnavailable => r@ == allocator_message(),
            },
    {
        match self {
            ImportError::MalformedInput => String::from_str("Unable to parse CSV"),
            ImportError::RowFieldCountMismatch { row } => {
                let mut m = String::from_str("Unable to parse CSV, first error on line: ");
                m.append(row.as_str());
                m
            },
            ImportError::AllocatorUnavailable => String::from_str("Unable to allocate table numbers"),
        }
    }
}

} // verus!
