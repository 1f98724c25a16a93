//! Hardware profiles and their classification into capability tiers.

use vstd::prelude::*;

verus! {

/// Mebibytes of video memory above which a machine is `Heavy` (8 GB).
pub const VRAM_HEAVY_ABOVE_MB: u64 = 8192;

/// Mebibytes of video memory from which a machine is `Medium` (4 GB).
pub const VRAM_MEDIUM_FROM_MB: u64 = 4096;

/// Bytes of system memory above which a machine is `Heavy` (32 GB).
pub const RAM_HEAVY_ABOVE_BYTES: u64 = 34359738368;

/// Bytes of system memory from which a machine is `Medium` (16 GB).
pub const RAM_MEDIUM_FROM_BYTES: u64 = 17179869184;

/// Coarse capability class of the host, used to pick models of a fitting size.
#[derive(Debug, Clone, Copy, PartialEq, Eq, Structural)]
pub enum HardwareTier {
    /// CPU only, less than 16 GB of memory.
    Light,
    /// A GPU with 4 to 8 GB of video memory, or 16 to 32 GB of memory.
    Medium,
    /// A GPU with more than 8 GB of video memory, or more than 32 GB of memory.
    Heavy,
    /// A neural processing unit is present.
    NPU,
}

/// One graphics adapter. `vram_mb` is absent where the amount is unknown, as
/// for integrated graphics without a driver to ask.
#[derive(Debug, Clone, PartialEq, Eq)]
pub struct GpuInfo {
    pub name: String,
    pub vram_mb: Option<u64>,
    pub vendor: String,
}

/// A graphics adapter as a plain value.
pub struct GpuView {
    pub name: Seq<char>,
    pub vram_mb: Option<u64>,
    pub vendor: Seq<char>,
}

impl View for GpuInfo {
    type V = GpuView;

    open spec fn view(&self) -> GpuView {
        GpuView { name: self.name@, vram_mb: self.vram_mb, vendor: self.vendor@ }
    }
}

/// The adapters of a list as plain values.
pub open spec fn gpu_views(gpus: Seq<GpuInfo>) -> Seq<GpuView> {
    gpus.map_values(|gpu: GpuInfo| gpu@)
}

/// What a probe found out about the host.
#[derive(Debug, Clone, PartialEq, Eq)]
pub struct HardwareInfo {
    pub total_memory_bytes: u64,
    pub cpu_count: usize,
    pub cpu_brand: String,
    pub gpu_info: Vec<GpuInfo>,
    pub npu_detected: bool,
    pub os_info: String,
}

/// The largest known amount of video memory among `gpus`, 0 where none is known.
pub open spec fn max_known_vram(gpus: Seq<GpuView>) -> nat
    decreases gpus.len(),
{
    if gpus.len() == 0 {
        0
    } else {
        let rest = max_known_vram(gpus.drop_last());
        match gpus.last().vram_mb {
            Some(mb) => if mb as nat > rest { mb as nat } else { rest },
            None => rest,
        }
    }
}

/// The tier of a machine, by the first rule that applies: a neural unit, then
/// the video memory, then the system memory.
pub open spec fn tier_of(npu_detected: bool, max_vram_mb: nat, total_memory_bytes: nat) -> HardwareTier {
    if npu_detected {
        HardwareTier::NPU
    } else if max_vram_mb > VRAM_HEAVY_ABOVE_MB {
        HardwareTier::Heavy
    } else if max_vram_mb >= VRAM_MEDIUM_FROM_MB {
        HardwareTier::Medium
    } else if total_memory_bytes > RAM_HEAVY_ABOVE_BYTES {
        HardwareTier::Heavy
    } else if total_memory_bytes >= RAM_MEDIUM_FROM_BYTES {
        HardwareTier::Medium
    } else {
        HardwareTier::Light
    }
}

impl HardwareInfo {
    /// The tier that this profile belongs to.
    pub open spec fn tier(&self) -> HardwareTier {
        tier_of(
            self.npu_detected,
            max_known_vram(gpu_views(self.gpu_info@)),
            self.total_memory_bytes as nat,
        )
    }

    /// The largest known amount of video memory, 0 where none is known.
    pub fn max_vram_mb(&self) -> (max: u64)
        ensures
            max as nat == max_known_vram(gpu_views(self.gpu_info@)),
    {
        let ghost views = gpu_views(self.gpu_info@);
        let mut max: u64 = 0;
        let mut i: usize = 0;
        while i < self.gpu_info.len()
            invariant
                i <= self.gpu_info.len(),
                views == gpu_views(self.gpu_info@),
                max as nat == max_known_vram(views.take(i as int)),
            decreases self.gpu_info.len() - i,
        {
            proof {
                assert(views.take(i + 1).drop_last() =~= views.take(i as int));
                assert(views.take(i + 1).last() == self.gpu_info@[i as int]@);
            }
            match self.gpu_info[i].vram_mb {
                Some(mb) => {
                    if mb > max {
                        max = mb;
                    }
                },
                None => {},
            }
            i += 1;
        }
        proof {
            assert(views.take(i as int) =~= views);
        }
        max
    }
}

/// Classifies a hardware profile.
pub fn classify(info: &HardwareInfo) -> (tier: HardwareTier)
    ensures
        tier == info.tier(),
{
    if info.npu_detected {
        return HardwareTier::NPU;
    }
    let max_vram = info.max_vram_mb();
    if max_vram > VRAM_HEAVY_ABOVE_MB {
        HardwareTier::Heavy
    } else if max_vram >= VRAM_MEDIUM_FROM_MB {
        HardwareTier::Medium
    } else if info.total_memory_bytes > RAM_HEAVY_ABOVE_BYTES {
        HardwareTier::Heavy
    } else if info.total_memory_bytes >= RAM_MEDIUM_FROM_BYTES {
        HardwareTier::Medium
    } else {
        HardwareTier::Light
    }
}

/// The name of a tier, as it is reported.
pub open spec fn tier_label(tier: HardwareTier) -> Seq<char> {
    match tier {
        HardwareTier::Light => "Light"@,
        HardwareTier::Medium => "Medium"@,
        HardwareTier::Heavy => "Heavy"@,
        HardwareTier::NPU => "NPU"@,
    }
}

/// The name of a tier, as it is reported.
pub fn tier_name(tier: HardwareTier) -> (name: &'static str)
    ensures
        name@ == tier_label(tier),
{
    match tier {
        HardwareTier::Light => "Light",
        HardwareTier::Medium => "Medium",
        HardwareTier::Heavy => "Heavy",
        HardwareTier::NPU => "NPU",
    }
}

/// What `max_known_vram` returns: no adapter is known to have more, and
/// some adapter is known to have as much, unless it is 0.
pub proof fn lemma_max_known_vram(gpus: Seq<GpuView>)
    ensures
        forall|i: int|
            0 <= i < gpus.len() && (#[trigger] gpus[i]).vram_mb.is_some() ==> gpus[i].vram_mb.unwrap()
                <= max_known_vram(gpus),
        max_known_vram(gpus) > 0 ==> exists|i: int|
            0 <= i < gpus.len() && (#[trigger] gpus[i]).vram_mb == Some(max_known_vram(gpus) as u64),
    decreases gpus.len(),
{
    if gpus.len() > 0 {
        let front = gpus.drop_last();
        lemma_max_known_vram(front);
        assert forall|i: int| 0 <= i < gpus.len() && (#[trigger] gpus[i]).vram_mb.is_some() implies gpus[i].vram_mb.unwrap()
            <= max_known_vram(gpus) by {
            if i < gpus.len() - 1 {
                assert(front[i] == gpus[i]);
            }
        }
        if max_known_vram(gpus) > 0 {
            if max_known_vram(gpus) == max_known_vram(front) {
                let i = choose|i: int|
                    0 <= i < front.len() && (#[trigger] front[i]).vram_mb == Some(max_known_vram(front) as u64);
                assert(gpus[i] == front[i]);
            } else {
                assert(gpus[gpus.len() - 1].vram_mb == Some(max_known_vram(gpus) as u64));
            }
        }
    }
}

/// Classification is a function of the profile: two profiles with the same
/// neural-unit flag, the same adapters and the same memory have one tier.
pub proof fn lemma_tier_is_function_of_profile(a: HardwareInfo, b: HardwareInfo)
    requires
        a.npu_detected == b.npu_detected,
        gpu_views(a.gpu_info@) == gpu_views(b.gpu_info@),
        a.total_memory_bytes == b.total_memory_bytes,
    ensures
        a.tier() == b.tier(),
{
}

/// A neural unit always wins: with one, the tier is `NPU` whatever the
/// adapters and the memory are.
pub proof fn lemma_npu_wins(max_vram_mb: nat, total_memory_bytes: nat)
    ensures
        tier_of(true, max_vram_mb, total_memory_bytes) == HardwareTier::NPU,
{
}

/// Video memory goes before system memory: without a neural unit, 4 GB of
/// video memory or more decide the tier, whatever the system memory is.
/// More than 8 GB make it `Heavy`, 4 GB to 8 GB `Medium`.
pub proof fn lemma_vram_goes_first(max_vram_mb: nat, total_memory_bytes: nat)
    requires
        max_vram_mb >= VRAM_MEDIUM_FROM_MB,
    ensures
        max_vram_mb > VRAM_HEAVY_ABOVE_MB ==> tier_of(false, max_vram_mb, total_memory_bytes)
            == HardwareTier::Heavy,
        max_vram_mb <= VRAM_HEAVY_ABOVE_MB ==> tier_of(false, max_vram_mb, total_memory_bytes)
            == HardwareTier::Medium,
{
}

/// Without a neural unit and with less than 4 GB of video memory, the
/// system memory decides: more than 32 GB make the tier `Heavy`, 16 GB to
/// 32 GB `Medium`, less `Light`.
pub proof fn lemma_ram_decides_last(max_vram_mb: nat, total_memory_bytes: nat)
    requires
        max_vram_mb < VRAM_MEDIUM_FROM_MB,
    ensures
        total_memory_bytes > RAM_HEAVY_ABOVE_BYTES ==> tier_of(false, max_vram_mb, total_memory_bytes)
            == HardwareTier::Heavy,
        RAM_MEDIUM_FROM_BYTES <= total_memory_bytes <= RAM_HEAVY_ABOVE_BYTES ==> tier_of(
            false,
            max_vram_mb,
            total_memory_bytes,
        ) == HardwareTier::Medium,
        total_memory_bytes < RAM_MEDIUM_FROM_BYTES ==> tier_of(false, max_vram_mb, total_memory_bytes)
            == HardwareTier::Light,
{
}

} // verus!
