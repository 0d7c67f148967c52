//! The identifiers of generators (providers), models and media sources.
use vstd::prelude::*;

verus! {

/// The names of the image generators that a request can ask for.
#[derive(Debug)]
pub struct MediaGenerator;

impl MediaGenerator {
    pub const MIST: &'static str = "mist";

    pub const STABLE_HORDE: &'static str = "stable_horde";

    pub const DALLE: &'static str = "dalle";

    pub const DREAM: &'static str = "dream";

    pub const MIST_STABILITY: &'static str = "mist_stability";
}

/// The names of the models that a request can ask for.
#[derive(Debug)]
pub struct MediaModel;

impl MediaModel {
    pub const STABLE_DIFFUSION_1_5: &'static str = "stable_diffusion_1_5";

    pub const STABLE_DIFFUSION_2_1: &'static str = "stable_diffusion_2_1";

    pub const OPENJOURNEY: &'static str = "openjourney";

    pub const OPENJOURNEY_2: &'static str = "openjourney_2";

    pub const OPENJOURNEY_4: &'static str = "openjourney_4";

    pub const DREAMSHAPER: &'static str = "dreamshaper";

    pub const DREAMLIKE_DIFFUSION_1: &'static str = "dreamlike_diffusion_1";

    pub const ARCANE_DIFFUSION: &'static str = "arcane_diffusion";

    pub const DALLE: &'static str = "dalle";
}

/// The generator names are pairwise distinct.
pub proof fn lemma_generators_distinct()
    ensures
        MediaGenerator::MIST@ != MediaGenerator::STABLE_HORDE@,
        MediaGenerator::MIST@ != MediaGenerator::DALLE@,
        MediaGenerator::STABLE_HORDE@ != MediaGenerator::DALLE@,
        MediaGenerator::DREAM@ != MediaGenerator::DALLE@,
        MediaGenerator::DREAM@ != MediaGenerator::MIST_STABILITY@,
        MediaGenerator::DREAM@ != MediaGenerator::STABLE_HORDE@,
        MediaGenerator::MIST_STABILITY@ != MediaGenerator::DALLE@,
        MediaGenerator::MIST_STABILITY@ != MediaGenerator::STABLE_HORDE@,
        MediaGenerator::MIST@ != MediaGenerator::DREAM@,
        MediaGenerator::MIST@ != MediaGenerator::MIST_STABILITY@,
{
    reveal_strlit("mist");
    reveal_strlit("stable_horde");
    reveal_strlit("dalle");
    reveal_strlit("dream");
    reveal_strlit("mist_stability");
    assert(MediaGenerator::MIST@.len() != MediaGenerator::STABLE_HORDE@.len());
    assert(MediaGenerator::MIST@.len() != MediaGenerator::DALLE@.len());
    assert(MediaGenerator::STABLE_HORDE@.len() != MediaGenerator::DALLE@.len());
    assert(MediaGenerator::DREAM@[1] != MediaGenerator::DALLE@[1]);
    assert(MediaGenerator::DREAM@.len() != MediaGenerator::MIST_STABILITY@.len());
    assert(MediaGenerator::DREAM@.len() != MediaGenerator::STABLE_HORDE@.len());
    assert(MediaGenerator::MIST_STABILITY@.len() != MediaGenerator::DALLE@.len());
    assert(MediaGenerator::MIST_STABILITY@.len() != MediaGenerator::STABLE_HORDE@.len());
    assert(MediaGenerator::MIST@.len() != MediaGenerator::DREAM@.len());
    assert(MediaGenerator::MIST@.len() != MediaGenerator::MIST_STABILITY@.len());
}

/// Where a media item comes from.
#[derive(Debug)]
pub enum MediaSource {
    Mist,
    StableHorde,
    Dalle,
    Import,
}

/// The name under which a source is stored.
pub open spec fn source_name(s: MediaSource) -> Seq<char> {
    match s {
        MediaSource::Mist => MediaGenerator::MIST@,
        MediaSource::StableHorde => MediaGenerator::STABLE_HORDE@,
        MediaSource::Dalle => MediaGenerator::DALLE@,
        MediaSource::Import => "import"@,
    }
}

impl MediaSource {
    /// The name under which this source is stored.
    pub fn value(&self) -> (r: String)
        ensures
            r@ == source_name(*self),
    {
        match *self {
            MediaSource::Mist => String::from_str(MediaGenerator::MIST),
            MediaSource::StableHorde => String::from_str(MediaGenerator::STABLE_HORDE),
            MediaSource::Dalle => String::from_str(MediaGenerator::DALLE),
            MediaSource::Import => String::from_str("import"),
        }
    }
}

} // verus!
