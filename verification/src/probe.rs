//! Reading what the probing tools print, and making a hardware profile of it.
//!
//! The host runs the tools and asks the operating system; what it found
//! comes here as plain values.

use vstd::prelude::*;
use crate::hardware::{classify, gpu_views, max_known_vram, tier_of, GpuInfo, GpuView, HardwareInfo, HardwareTier};
use crate::text::{
    chars_of, contains_text, lowercase, lowercased, occurs_in, opt_str_view, trim_range, trimmed,
};

verus! {

/// The decimal digits.
pub open spec fn is_digit(c: char) -> bool {
    0x30 <= c as u32 <= 0x39
}

/// The number that a decimal digit stands for.
pub open spec fn digit_value(c: char) -> nat {
    (c as u32 - 0x30) as nat
}

/// Every character of `s` is a decimal digit.
pub open spec fn all_digits(s: Seq<char>) -> bool {
    forall|i: int| 0 <= i < s.len() ==> is_digit(#[trigger] s[i])
}

/// The number that the decimal digits `s` write.
pub open spec fn decimal_value(s: Seq<char>) -> nat
    decreases s.len(),
{
    if s.len() == 0 {
        0
    } else {
        decimal_value(s.drop_last()) * 10 + digit_value(s.last())
    }
}

/// The amount that `s` writes: `s` is one or more decimal digits and
/// nothing else, and the number fits 64 bits. Anything else is no amount.
pub open spec fn parsed_amount(s: Seq<char>) -> Option<u64> {
    if s.len() > 0 && all_digits(s) && decimal_value(s) <= u64::MAX {
        Some(decimal_value(s) as u64)
    } else {
        None
    }
}

/// Where the first ", " of `s` begins, or the length of `s` where it has none.
pub open spec fn separator_at(s: Seq<char>) -> int
    decreases s.len(),
{
    if s.len() < 2 {
        s.len() as int
    } else if s[0] == ',' && s[1] == ' ' {
        0
    } else {
        1 + separator_at(s.drop_first())
    }
}

/// Where the first line of `s` ends: the index of its first newline, or the
/// length of `s` where it has none.
pub open spec fn line_end(s: Seq<char>) -> int
    decreases s.len(),
{
    if s.len() == 0 {
        0
    } else if s[0] == '\n' {
        0
    } else {
        1 + line_end(s.drop_first())
    }
}

/// The adapter that one line of the NVIDIA tool's table names: what stands
/// before the first ", " is its name, what stands behind it its video memory
/// in mebibytes, both without the white space around them. A line without
/// ", ", or with no amount behind it, names none.
pub open spec fn parsed_row(line: Seq<char>) -> Option<GpuView> {
    let at = separator_at(line);
    if 0 <= at < line.len() {
        match parsed_amount(trimmed(line.skip(at + 2))) {
            Some(mb) => Some(
                GpuView { name: trimmed(line.take(at)), vram_mb: Some(mb), vendor: "NVIDIA"@ },
            ),
            None => None,
        }
    } else {
        None
    }
}

/// The adapters that the NVIDIA tool's table names, line by line.
pub open spec fn parsed_rows(text: Seq<char>) -> Seq<GpuView>
    decreases text.len(),
{
    let end = line_end(text);
    let rest = if 0 <= end < text.len() {
        parsed_rows(text.skip(end + 1))
    } else {
        Seq::empty()
    };
    match parsed_row(text.take(end)) {
        Some(row) => seq![row] + rest,
        None => rest,
    }
}

/// `p` is where the first ", " of `s` begins, or the length of `s`.
pub proof fn lemma_separator_at(s: Seq<char>, p: int)
    requires
        0 <= p <= s.len(),
        forall|j: int| 0 <= j < p && j + 1 < s.len() ==> !(#[trigger] s[j] == ',' && s[j + 1] == ' '),
        p < s.len() ==> p + 1 < s.len() && s[p] == ',' && s[p + 1] == ' ',
    ensures
        separator_at(s) == p,
    decreases s.len(),
{
    if s.len() >= 2 && p > 0 {
        let rest = s.drop_first();
        assert(!(s[0] == ',' && s[1] == ' '));
        assert forall|j: int| 0 <= j < p - 1 && j + 1 < rest.len() implies !(#[trigger] rest[j] == ','
            && rest[j + 1] == ' ') by {
            assert(rest[j] == s[j + 1]);
            assert(rest[j + 1] == s[j + 2]);
            assert(!(s[j + 1] == ',' && s[j + 2] == ' '));
        }
        if p < s.len() {
            assert(rest[p - 1] == s[p]);
            assert(rest[p] == s[p + 1]);
        }
        lemma_separator_at(rest, p - 1);
    }
}

/// `p` is the index of the first newline of `s`, or the length of `s`.
pub proof fn lemma_line_end(s: Seq<char>, p: int)
    requires
        0 <= p <= s.len(),
        forall|j: int| 0 <= j < p ==> #[trigger] s[j] != '\n',
        p < s.len() ==> s[p] == '\n',
    ensures
        line_end(s) == p,
    decreases s.len(),
{
    if s.len() > 0 && p > 0 {
        let rest = s.drop_first();
        assert(s[0] != '\n');
        assert forall|j: int| 0 <= j < p - 1 implies #[trigger] rest[j] != '\n' by {
            assert(rest[j] == s[j + 1]);
        }
        lemma_line_end(rest, p - 1);
    }
}

/// A longer run of digits writes no smaller number.
pub proof fn lemma_decimal_value_grows(s: Seq<char>, k: int)
    requires
        0 <= k <= s.len(),
    ensures
        decimal_value(s.take(k)) <= decimal_value(s),
    decreases s.len() - k,
{
    if k < s.len() {
        lemma_decimal_value_grows(s, k + 1);
        assert(s.take(k + 1).drop_last() =~= s.take(k));
    } else {
        assert(s.take(k) =~= s);
    }
}

/// Where the line that begins at `from` ends.
fn find_line_end(chars: &Vec<char>, from: usize) -> (end: usize)
    requires
        from <= chars@.len(),
    ensures
        from <= end <= chars@.len(),
        end - from == line_end(chars@.skip(from as int)),
{
    let mut end: usize = from;
    while end < chars.len() && chars[end] != '\n'
        invariant
            from <= end <= chars@.len(),
            forall|j: int| from <= j < end ==> #[trigger] chars@[j] != '\n',
        decreases chars@.len() - end,
    {
        end += 1;
    }
    proof {
        let rest = chars@.skip(from as int);
        assert forall|j: int| 0 <= j < end - from implies #[trigger] rest[j] != '\n' by {
            assert(rest[j] == chars@[from + j]);
        }
        lemma_line_end(rest, end - from);
    }
    end
}

/// Where the first ", " of the part `from..to` begins, `to` where it has none.
fn find_separator(chars: &Vec<char>, from: usize, to: usize) -> (at: usize)
    requires
        from <= to <= chars@.len(),
    ensures
        from <= at <= to,
        at - from == separator_at(chars@.subrange(from as int, to as int)),
{
    let ghost part = chars@.subrange(from as int, to as int);
    let mut at: usize = from;
    while to - at >= 2 && !(chars[at] == ',' && chars[at + 1] == ' ')
        invariant
            from <= at <= to <= chars@.len(),
            forall|j: int| from <= j < at && j + 1 < to ==> !(#[trigger] chars@[j] == ',' && chars@[j + 1] == ' '),
        decreases to - at,
    {
        at += 1;
    }
    if to - at < 2 {
        at = to;
    }
    proof {
        assert forall|j: int| 0 <= j < at - from && j + 1 < part.len() implies !(#[trigger] part[j] == ','
            && part[j + 1] == ' ') by {
            assert(part[j] == chars@[from + j]);
            assert(part[j + 1] == chars@[from + j + 1]);
            assert(!(chars@[from + j] == ',' && chars@[from + j + 1] == ' '));
        }
        if at < to {
            assert(part[at - from] == chars@[at as int]);
            assert(part[at - from + 1] == chars@[at + 1]);
        }
        lemma_separator_at(part, at - from);
    }
    at
}

/// The amount that the part `from..to` writes.
fn parse_amount(chars: &Vec<char>, from: usize, to: usize) -> (amount: Option<u64>)
    requires
        from <= to <= chars@.len(),
    ensures
        amount == parsed_amount(chars@.subrange(from as int, to as int)),
{
    let ghost part = chars@.subrange(from as int, to as int);
    if from == to {
        return None;
    }
    let mut value: u64 = 0;
    let mut i: usize = from;
    while i < to
        invariant
            from <= i <= to <= chars@.len(),
            part == chars@.subrange(from as int, to as int),
            all_digits(part.take(i - from)),
            value as nat == decimal_value(part.take(i - from)),
        decreases to - i,
    {
        let c = chars[i];
        let code = c as u32;
        proof {
            assert(part[i - from] == c);
            assert(part.take(i - from + 1).drop_last() =~= part.take(i - from));
        }
        if code < 0x30 || code > 0x39 {
            return None;
        }
        let digit: u64 = (code - 0x30) as u64;
        if value > (u64::MAX - digit) / 10 {
            proof {
                lemma_decimal_value_grows(part, i - from + 1);
            }
            return None;
        }
        value = value * 10 + digit;
        proof {
            assert forall|j: int| 0 <= j < i - from + 1 implies is_digit(#[trigger] part.take(i - from + 1)[j]) by {
                if j < i - from {
                    assert(part.take(i - from + 1)[j] == part.take(i - from)[j]);
                }
            }
        }
        i += 1;
    }
    proof {
        assert(part.take(to - from) =~= part);
    }
    Some(value)
}

/// The adapter that the line `from..to` of `output` names, if it names one.
fn parse_row(output: &str, chars: &Vec<char>, from: usize, to: usize) -> (row: Option<GpuInfo>)
    requires
        chars@ == output@,
        from <= to <= chars@.len(),
    ensures
        match parsed_row(chars@.subrange(from as int, to as int)) {
            Some(view) => row.is_some() && row.unwrap()@ == view,
            None => row.is_none(),
        },
{
    let ghost line = chars@.subrange(from as int, to as int);
    let at = find_separator(chars, from, to);
    if at >= to {
        return None;
    }
    proof {
        assert(at + 2 <= to) by {
            lemma_separator_fits(line);
        }
        assert(line.skip(at - from + 2) =~= chars@.subrange(at + 2, to as int));
        assert(line.take(at - from) =~= chars@.subrange(from as int, at as int));
    }
    let (amount_from, amount_to) = trim_range(chars, at + 2, to);
    match parse_amount(chars, amount_from, amount_to) {
        Some(mb) => {
            let (name_from, name_to) = trim_range(chars, from, at);
            let name = output.substring_char(name_from, name_to).to_owned();
            Some(GpuInfo { name, vram_mb: Some(mb), vendor: "NVIDIA".to_owned() })
        },
        None => None,
    }
}

/// Where `s` has a ", ", both of its characters are in `s`.
pub proof fn lemma_separator_fits(s: Seq<char>)
    ensures
        0 <= separator_at(s) <= s.len(),
        separator_at(s) < s.len() ==> separator_at(s) + 2 <= s.len() && s[separator_at(s)] == ','
            && s[separator_at(s) + 1] == ' ',
    decreases s.len(),
{
    if s.len() >= 2 && !(s[0] == ',' && s[1] == ' ') {
        let rest = s.drop_first();
        lemma_separator_fits(rest);
        if separator_at(rest) < rest.len() {
            assert(rest[separator_at(rest)] == s[separator_at(rest) + 1]);
            assert(rest[separator_at(rest) + 1] == s[separator_at(rest) + 2]);
        }
    }
}

/// Reads the table that the NVIDIA tool prints when asked for the name and
/// the total memory of each adapter, without header and units: one adapter
/// a line, its name, ", ", and its video memory in mebibytes. Lines that do
/// not read so are passed over.
pub fn parse_nvidia_smi(output: &str) -> (gpus: Vec<GpuInfo>)
    ensures
        gpu_views(gpus@) == parsed_rows(output@),
{
    let chars = chars_of(output);
    let n = chars.len();
    let mut gpus: Vec<GpuInfo> = Vec::new();
    let mut from: usize = 0;
    let mut done = false;
    proof {
        assert(chars@.skip(0) =~= chars@);
        assert(gpu_views(gpus@) =~= Seq::<GpuView>::empty());
        assert(Seq::<GpuView>::empty() + parsed_rows(chars@) =~= parsed_rows(chars@));
    }
    while !done
        invariant
            chars@ == output@,
            n == chars@.len(),
            from <= n,
            parsed_rows(chars@) == gpu_views(gpus@) + (if done {
                Seq::<GpuView>::empty()
            } else {
                parsed_rows(chars@.skip(from as int))
            }),
        decreases (if done { 0int } else { n - from + 1 }),
    {
        let ghost rest = chars@.skip(from as int);
        let ghost before = gpu_views(gpus@);
        let to = find_line_end(&chars, from);
        proof {
            assert(rest.take(to - from) =~= chars@.subrange(from as int, to as int));
            if to < n {
                assert(rest.skip(to - from + 1) =~= chars@.skip(to + 1));
            }
        }
        let row = parse_row(output, &chars, from, to);
        let ghost tail_rows = if to < n {
            parsed_rows(chars@.skip(to + 1))
        } else {
            Seq::<GpuView>::empty()
        };
        match row {
            Some(gpu) => {
                proof {
                    assert(parsed_rows(rest) == seq![gpu@] + tail_rows);
                }
                gpus.push(gpu);
                proof {
                    assert(gpu_views(gpus@) =~= before.push(gpu@));
                    assert(before + (seq![gpu@] + tail_rows) =~= before.push(gpu@) + tail_rows);
                }
            },
            None => {
                proof {
                    assert(parsed_rows(rest) == tail_rows);
                }
            },
        }
        if to < n {
            from = to + 1;
        } else {
            done = true;
        }
    }
    proof {
        assert(gpu_views(gpus@) + Seq::<GpuView>::empty() =~= gpu_views(gpus@));
    }
    gpus
}

/// The kind of operating system that the host runs.
#[derive(Debug, Clone, Copy, PartialEq, Eq, Structural)]
pub enum Platform {
    MacOs,
    Windows,
    Other,
}

/// What a probing tool left behind: whether it ended well, and what it
/// printed.
#[derive(Debug, Clone, PartialEq, Eq)]
pub struct ToolOutput {
    pub success: bool,
    pub stdout: String,
}

/// What the host found out for a probe. A tool that could not be run, or
/// did not end in time, has no output.
#[derive(Debug, Clone, PartialEq, Eq)]
pub struct ProbeReadings {
    pub total_memory_bytes: u64,
    pub cpu_count: usize,
    pub cpu_brand: String,
    pub os_name: Option<String>,
    pub os_version: Option<String>,
    pub platform: Platform,
    pub nvidia_smi: Option<ToolOutput>,
    pub rocm_smi: Option<ToolOutput>,
    pub lspci: Option<ToolOutput>,
}

/// Mebibytes of video memory that an AMD adapter is taken to have: its tool
/// is only asked whether there is one.
pub const AMD_ASSUMED_VRAM_MB: u64 = 8192;

/// The adapters that the NVIDIA tool reported, none where it did not end well.
pub open spec fn nvidia_gpus(tool: Option<ToolOutput>) -> Seq<GpuView> {
    match tool {
        Some(out) => if out.success {
            parsed_rows(out.stdout@)
        } else {
            Seq::empty()
        },
        None => Seq::empty(),
    }
}

/// One AMD adapter where the AMD tool ended well, none otherwise.
pub open spec fn amd_gpus(tool: Option<ToolOutput>) -> Seq<GpuView> {
    match tool {
        Some(out) => if out.success {
            seq![GpuView { name: "AMD GPU"@, vram_mb: Some(AMD_ASSUMED_VRAM_MB), vendor: "AMD"@ }]
        } else {
            Seq::empty()
        },
        None => Seq::empty(),
    }
}

/// The integrated adapter that a processor brand, in lower case, points to:
/// Intel's where it names "intel", else AMD's where it names "amd". How much
/// memory it has is unknown.
pub open spec fn integrated_gpus(cpu_brand_lower: Seq<char>) -> Seq<GpuView> {
    if occurs_in(cpu_brand_lower, "intel"@) {
        seq![GpuView { name: "Intel Integrated Graphics"@, vram_mb: None, vendor: "Intel"@ }]
    } else if occurs_in(cpu_brand_lower, "amd"@) {
        seq![GpuView { name: "AMD Integrated Graphics"@, vram_mb: None, vendor: "AMD"@ }]
    } else {
        Seq::empty()
    }
}

/// The adapters of the host: those that the vendors' tools reported, NVIDIA's
/// first; where they reported none, the one that the processor brand points to.
pub open spec fn detected_gpus(
    nvidia_smi: Option<ToolOutput>,
    rocm_smi: Option<ToolOutput>,
    cpu_brand_lower: Seq<char>,
) -> Seq<GpuView> {
    let reported = nvidia_gpus(nvidia_smi) + amd_gpus(rocm_smi);
    if reported.len() > 0 {
        reported
    } else {
        integrated_gpus(cpu_brand_lower)
    }
}

/// The signs of a neural unit: an Apple processor on macOS, or a device
/// listing, in lower case, that names "neural" or "npu".
pub open spec fn npu_signal(
    platform: Platform,
    cpu_brand_lower: Seq<char>,
    devices_lower: Option<Seq<char>>,
) -> bool {
    (platform == Platform::MacOs && occurs_in(cpu_brand_lower, "apple"@)) || match devices_lower {
        Some(listing) => occurs_in(listing, "neural"@) || occurs_in(listing, "npu"@),
        None => false,
    }
}

/// The description of the operating system: its name and its version, each
/// "Unknown" where it is not known, with a blank between them.
pub open spec fn os_description(name: Option<String>, version: Option<String>) -> Seq<char> {
    (match name {
        Some(n) => n@,
        None => "Unknown"@,
    }) + " "@ + (match version {
        Some(v) => v@,
        None => "Unknown"@,
    })
}

/// The device listing of the readings in lower case, if there is one.
pub open spec fn devices_lower(lspci: Option<ToolOutput>) -> Option<Seq<char>> {
    match lspci {
        Some(out) => Some(lowercased(out.stdout@)),
        None => None,
    }
}

/// The adapters of the host, by what the vendors' tools left behind and by
/// the processor brand in lower case.
pub fn detect_gpus(nvidia_smi: &Option<ToolOutput>, rocm_smi: &Option<ToolOutput>, cpu_brand_lower: &str) -> (gpus:
    Vec<GpuInfo>)
    ensures
        gpu_views(gpus@) == detected_gpus(*nvidia_smi, *rocm_smi, cpu_brand_lower@),
{
    let mut gpus: Vec<GpuInfo> = match nvidia_smi {
        Some(out) => if out.success {
            parse_nvidia_smi(out.stdout.as_str())
        } else {
            Vec::new()
        },
        None => Vec::new(),
    };
    proof {
        assert(gpu_views(gpus@) =~= nvidia_gpus(*nvidia_smi));
    }
    let amd_found = match rocm_smi {
        Some(out) => out.success,
        None => false,
    };
    if amd_found {
        let ghost before = gpu_views(gpus@);
        let amd = GpuInfo {
            name: "AMD GPU".to_owned(),
            vram_mb: Some(AMD_ASSUMED_VRAM_MB),
            vendor: "AMD".to_owned(),
        };
        gpus.push(amd);
        proof {
            assert(gpu_views(gpus@) =~= before + amd_gpus(*rocm_smi));
        }
    } else {
        proof {
            assert(gpu_views(gpus@) =~= gpu_views(gpus@) + amd_gpus(*rocm_smi));
        }
    }
    if gpus.len() == 0 {
        if contains_text(cpu_brand_lower, "intel") {
            gpus.push(
                GpuInfo {
                    name: "Intel Integrated Graphics".to_owned(),
                    vram_mb: None,
                    vendor: "Intel".to_owned(),
                },
            );
        } else if contains_text(cpu_brand_lower, "amd") {
            gpus.push(
                GpuInfo {
                    name: "AMD Integrated Graphics".to_owned(),
                    vram_mb: None,
                    vendor: "AMD".to_owned(),
                },
            );
        }
        proof {
            assert(gpu_views(gpus@) =~= integrated_gpus(cpu_brand_lower@));
        }
    }
    gpus
}

/// Whether the host shows a sign of a neural unit, by the processor brand
/// and the device listing, both in lower case.
pub fn detect_npu(platform: Platform, cpu_brand_lower: &str, devices_lower: Option<&str>) -> (found: bool)
    ensures
        found == npu_signal(platform, cpu_brand_lower@, opt_str_view(devices_lower)),
{
    if platform == Platform::MacOs && contains_text(cpu_brand_lower, "apple") {
        return true;
    }
    match devices_lower {
        Some(listing) => contains_text(listing, "neural") || contains_text(listing, "npu"),
        None => false,
    }
}

/// A probe of the host's hardware, over what the host found out.
#[derive(Debug, Clone, PartialEq, Eq)]
pub struct HardwareDetector {
    readings: ProbeReadings,
}

impl HardwareDetector {
    /// The readings that the probe works on.
    pub closed spec fn readings(&self) -> ProbeReadings {
        self.readings
    }

    /// The adapters that the readings show.
    pub open spec fn gpus(&self) -> Seq<GpuView> {
        detected_gpus(
            self.readings().nvidia_smi,
            self.readings().rocm_smi,
            lowercased(self.readings().cpu_brand@),
        )
    }

    /// Whether the readings show a sign of a neural unit.
    pub open spec fn npu(&self) -> bool {
        npu_signal(
            self.readings().platform,
            lowercased(self.readings().cpu_brand@),
            devices_lower(self.readings().lspci),
        )
    }

    /// A probe over `readings`.
    pub fn new(readings: ProbeReadings) -> (detector: HardwareDetector)
        ensures
            detector.readings() == readings,
    {
        HardwareDetector { readings }
    }

    /// The hardware profile that the readings give. A tool that left nothing
    /// behind costs the profile the field that it would have filled, and
    /// nothing else.
    pub fn get_detailed_info(&self) -> (info: HardwareInfo)
        ensures
            info.total_memory_bytes == self.readings().total_memory_bytes,
            info.cpu_count == self.readings().cpu_count,
            info.cpu_brand@ == self.readings().cpu_brand@,
            gpu_views(info.gpu_info@) == self.gpus(),
            info.npu_detected == self.npu(),
            info.os_info@ == os_description(self.readings().os_name, self.readings().os_version),
    {
        let brand_lower = lowercase(self.readings.cpu_brand.as_str());
        let gpu_info = detect_gpus(&self.readings.nvidia_smi, &self.readings.rocm_smi, brand_lower.as_str());
        let npu_detected = match &self.readings.lspci {
            Some(out) => {
                let listing = lowercase(out.stdout.as_str());
                detect_npu(self.readings.platform, brand_lower.as_str(), Some(listing.as_str()))
            },
            None => detect_npu(self.readings.platform, brand_lower.as_str(), None),
        };
        let name = match &self.readings.os_name {
            Some(n) => n.clone(),
            None => "Unknown".to_owned(),
        };
        let os_info = match &self.readings.os_version {
            Some(v) => name.concat(" ").concat(v.as_str()),
            None => name.concat(" ").concat("Unknown"),
        };
        HardwareInfo {
            total_memory_bytes: self.readings.total_memory_bytes,
            cpu_count: self.readings.cpu_count,
            cpu_brand: self.readings.cpu_brand.clone(),
            gpu_info,
            npu_detected,
            os_info,
        }
    }

    /// The tier of the host, by its readings.
    pub fn detect_tier(&self) -> (tier: HardwareTier)
        ensures
            tier == tier_of(
                self.npu(),
                max_known_vram(self.gpus()),
                self.readings().total_memory_bytes as nat,
            ),
    {
        let info = self.get_detailed_info();
        classify(&info)
    }
}

} // verus!
