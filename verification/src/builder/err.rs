use vstd::prelude::*;

use crate::files::resolv::ResolveError;
use crate::realval::RealBits;

verus! {

/// The file role whose path failed to resolve.
#[derive(Debug, Clone, Copy, PartialEq, Eq, Structural)]
pub enum ResolveErrorKind {
    BasePath,
    Simulation,
    TonSourceSpec,
    TonSourceMesh,
    SurfelSpec,
    Scene,
    Layer,
    Benchmark,
}

impl ResolveErrorKind {
    /// The label shown to the user for this file role.
    pub fn describe(&self) -> (r: &'static str)
        ensures
            r@ == match *self {
                ResolveErrorKind::BasePath => "Custom base path"@,
                ResolveErrorKind::Simulation => "Simulation specification"@,
                ResolveErrorKind::TonSourceSpec => "Gammaton source specification"@,
                ResolveErrorKind::TonSourceMesh => "Gammaton source emission mesh"@,
                ResolveErrorKind::SurfelSpec => "Surfel specification"@,
                ResolveErrorKind::Scene => "Scene to simulate"@,
                ResolveErrorKind::Layer => "Texture sample referenced by layer effect"@,
                ResolveErrorKind::Benchmark => "Benchmarking CSV"@,
            },
    {
        match self {
            ResolveErrorKind::BasePath => "Custom base path",
            ResolveErrorKind::Simulation => "Simulation specification",
            ResolveErrorKind::TonSourceSpec => "Gammaton source specification",
            ResolveErrorKind::TonSourceMesh => "Gammaton source emission mesh",
            ResolveErrorKind::SurfelSpec => "Surfel specification",
            ResolveErrorKind::Scene => "Scene to simulate",
            ResolveErrorKind::Layer => "Texture sample referenced by layer effect",
            ResolveErrorKind::Benchmark => "Benchmarking CSV",
        }
    }
}

/// Why building a simulation failed. Every failure of the pipeline is one
/// of these named conditions; none is a bare string.
#[derive(Debug)]
pub enum Error {
    /// A specification file failed to parse; holds the parser's message.
    Parse(String),
    /// A referenced path could not be resolved.
    Resolve { cause: ResolveError, kind: ResolveErrorKind },
    /// Reading or writing a file failed; holds the reported message.
    Io(String),
    /// Loading a mesh or material file failed; holds the reported message.
    Asset(String),
    /// The specification maps no material to a surfel spec.
    SurfelSpecsMissing,
    /// The specification lists no effects, so a run would have no output.
    EffectsMissing,
    /// The specification lists no particle sources.
    SourcesMissing,
    /// No surfel or source spec mentions any substance name.
    SubstancesMissing,
    /// The sampling distance is absent or not positive.
    InvalidSurfelDistance(Option<RealBits>),
    /// A rule or effect references a substance name absent from the
    /// substance-name table.
    UnknownSubstanceName(String),
    /// An export gives only one of the mesh and material patterns.
    ExportPatternIncomplete,
    /// A blend defines no stops and the material has no original texture.
    NoBlendStops,
    /// A blend stop names no sample texture and the material has no
    /// original texture to fall back to; holds the stop's index.
    MissingStopTexture { stop_index: usize },
    /// Neither the blend, nor the original texture, nor any stop gives
    /// the output size.
    UndeterminedOutputSize,
    /// Only the nearest-count surfel lookup policy is supported by the
    /// table cache.
    UnsupportedLookup,
}

impl Error {
    pub fn resolve(cause: ResolveError, kind: ResolveErrorKind) -> (r: Self)
        ensures
            r == (Error::Resolve { cause, kind }),
    {
        Error::Resolve { cause, kind }
    }
}

} // verus!
