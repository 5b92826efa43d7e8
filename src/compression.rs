use vstd::prelude::*;

verus! {

/// The compression algorithms an SST file can be written with.
#[derive(Clone, Copy, Debug, PartialEq, Eq, Structural)]
pub enum CompressionType {
    No,
    Snappy,
    Zlib,
    Bz2,
    Lz4,
    Lz4hc,
    Zstd,
    ZstdNotFinal,
    Disable,
}

/// Failure to negotiate a compression algorithm.
#[derive(Clone, Copy, Debug, PartialEq, Eq, Structural)]
pub enum CompressionError {
    /// The requested algorithm is not compiled into the engine.
    Unsupported(CompressionType),
}

/// The order in which algorithms are preferred when none was requested:
/// the cheapest codec first.
pub open spec fn priority() -> Seq<CompressionType> {
    seq![
        CompressionType::Lz4,
        CompressionType::Snappy,
        CompressionType::Zstd,
        CompressionType::Zlib,
        CompressionType::Bz2,
        CompressionType::Lz4hc,
        CompressionType::ZstdNotFinal,
    ]
}

/// The first algorithm of `prio` that `supported` holds, or `No` when there is none.
pub open spec fn first_supported(prio: Seq<CompressionType>, supported: Seq<CompressionType>) -> CompressionType
    decreases prio.len(),
{
    if prio.len() == 0 {
        CompressionType::No
    } else if supported.contains(prio[0]) {
        prio[0]
    } else {
        first_supported(prio.drop_first(), supported)
    }
}

/// The algorithm chosen when the caller requested none.
pub open spec fn spec_fastest(supported: Seq<CompressionType>) -> CompressionType {
    first_supported(priority(), supported)
}

/// Whether `ct` occurs in `supported`.
pub fn is_supported(supported: &Vec<CompressionType>, ct: CompressionType) -> (r: bool)
    ensures
        r == supported@.contains(ct),
{
    let mut i: usize = 0;
    while i < supported.len()
        invariant
            i <= supported@.len(),
            forall|j: int| 0 <= j < i ==> supported@[j] != ct,
        decreases supported@.len() - i,
    {
        if supported[i] == ct {
            return true;
        }
        i = i + 1;
    }
    false
}

/// The fastest algorithm among those the engine supports: the first of the
/// preference order that `supported` holds, or no compression at all.
pub fn fastest_supported(supported: &Vec<CompressionType>) -> (r: CompressionType)
    ensures
        r == spec_fastest(supported@),
        r == CompressionType::No || supported@.contains(r),
{
    let prio: [CompressionType; 7] = [
        CompressionType::Lz4,
        CompressionType::Snappy,
        CompressionType::Zstd,
        CompressionType::Zlib,
        CompressionType::Bz2,
        CompressionType::Lz4hc,
        CompressionType::ZstdNotFinal,
    ];
    assert(prio@ =~= priority());
    assert(priority().skip(0) =~= priority());
    let mut i: usize = 0;
    while i < 7
        invariant
            i <= 7,
            prio@ == priority(),
            first_supported(priority(), supported@) == first_supported(priority().skip(i as int), supported@),
        decreases 7 - i,
    {
        assert(priority().skip(i as int).drop_first() =~= priority().skip(i + 1));
        if is_supported(supported, prio[i]) {
            return prio[i];
        }
        i = i + 1;
    }
    assert(priority().skip(7).len() == 0);
    CompressionType::No
}

/// Checks an explicitly requested algorithm against the engine's supported set.
pub fn validate(supported: &Vec<CompressionType>, requested: CompressionType) -> (r: Result<CompressionType, CompressionError>)
    ensures
        supported@.contains(requested) ==> r == Ok::<CompressionType, CompressionError>(requested),
        !supported@.contains(requested) ==> r == Err::<CompressionType, CompressionError>(CompressionError::Unsupported(requested)),
{
    if is_supported(supported, requested) {
        Ok(requested)
    } else {
        Err(CompressionError::Unsupported(requested))
    }
}

/// The algorithm a writer uses: the requested one if the engine supports it,
/// else the fastest supported one when nothing was requested.
pub open spec fn spec_select(supported: Seq<CompressionType>, requested: Option<CompressionType>) -> Result<CompressionType, CompressionError> {
    match requested {
        Some(ct) => if supported.contains(ct) {
            Ok(ct)
        } else {
            Err(CompressionError::Unsupported(ct))
        },
        None => Ok(spec_fastest(supported)),
    }
}

/// Resolves the algorithm for a writer from an optional explicit request.
pub fn select(supported: &Vec<CompressionType>, requested: Option<CompressionType>) -> (r: Result<CompressionType, CompressionError>)
    ensures
        r == spec_select(supported@, requested),
{
    match requested {
        Some(ct) => validate(supported, ct),
        None => Ok(fastest_supported(supported)),
    }
}

/// The name used for an algorithm in messages.
pub open spec fn spec_compression_name(ct: CompressionType) -> &'static str {
    match ct {
        CompressionType::No => "no",
        CompressionType::Snappy => "snappy",
        CompressionType::Zlib => "zlib",
        CompressionType::Bz2 => "bz2",
        CompressionType::Lz4 => "lz4",
        CompressionType::Lz4hc => "lz4hc",
        CompressionType::Zstd => "zstd",
        CompressionType::ZstdNotFinal => "zstd_not_final",
        CompressionType::Disable => "disable",
    }
}

/// Renders an algorithm for messages.
pub fn fmt_db_compression_type(ct: CompressionType) -> (r: &'static str)
    ensures
        r == spec_compression_name(ct),
{
    match ct {
        CompressionType::No => "no",
        CompressionType::Snappy => "snappy",
        CompressionType::Zlib => "zlib",
        CompressionType::Bz2 => "bz2",
        CompressionType::Lz4 => "lz4",
        CompressionType::Lz4hc => "lz4hc",
        CompressionType::Zstd => "zstd",
        CompressionType::ZstdNotFinal => "zstd_not_final",
        CompressionType::Disable => "disable",
    }
}

} // verus!
