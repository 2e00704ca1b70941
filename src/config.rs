//! The desired device configuration and the capability table that every
//! write to it is checked against.
use vstd::prelude::*;

use crate::format::{same_fourcc, NegotiatedFormat, StreamRate};

verus! {

/// What the consumer wants the device to deliver.
#[derive(Clone, Copy, Debug, PartialEq, Eq)]
pub struct DeviceConfig {
    pub device_index: usize,
    pub fourcc: [u8; 4],
    pub width: u32,
    pub height: u32,
    pub rate: StreamRate,
}

impl DeviceConfig {
    /// The format part of the configuration.
    pub open spec fn format_spec(self) -> NegotiatedFormat {
        NegotiatedFormat { fourcc: self.fourcc, width: self.width, height: self.height }
    }

    /// The format part of the configuration.
    pub fn format(&self) -> (r: NegotiatedFormat)
        ensures
            r == self.format_spec(),
    {
        NegotiatedFormat { fourcc: self.fourcc, width: self.width, height: self.height }
    }
}

/// A discrete frame size and the discrete frame intervals listed for it.
#[derive(Clone, Debug, PartialEq, Eq)]
pub struct FrameSizeCaps {
    pub width: u32,
    pub height: u32,
    pub rates: Vec<StreamRate>,
}

/// A pixel format and the discrete frame sizes listed for it.
#[derive(Clone, Debug, PartialEq, Eq)]
pub struct FormatCaps {
    pub fourcc: [u8; 4],
    pub description: String,
    pub sizes: Vec<FrameSizeCaps>,
}

/// One frame interval as the device enumerates it.
#[derive(Clone, Copy, Debug, PartialEq, Eq, Structural)]
pub enum IntervalEntry {
    Discrete(StreamRate),
    /// A continuous range, which is not offered.
    Stepwise,
}

/// The discrete intervals among `entries`, in order; continuous ranges are
/// left out.
pub open spec fn discrete_rates(entries: Seq<IntervalEntry>) -> Seq<StreamRate>
    decreases entries.len(),
{
    if entries.len() == 0 {
        Seq::empty()
    } else {
        discrete_rates(entries.drop_last()) + match entries.last() {
            IntervalEntry::Discrete(r) => seq![r],
            IntervalEntry::Stepwise => Seq::empty(),
        }
    }
}

impl FrameSizeCaps {
    /// The entry for `width` x `height` with the discrete intervals among
    /// `entries`, in the order the device listed them.
    pub fn from_intervals(width: u32, height: u32, entries: &Vec<IntervalEntry>) -> (r:
        FrameSizeCaps)
        ensures
            r.width == width,
            r.height == height,
            r.rates@ == discrete_rates(entries@),
    {
        let mut rates: Vec<StreamRate> = Vec::new();
        let mut i: usize = 0;
        while i < entries.len()
            invariant
                0 <= i <= entries@.len(),
                rates@ == discrete_rates(entries@.subrange(0, i as int)),
            decreases entries@.len() - i,
        {
            proof {
                let next = entries@.subrange(0, i as int + 1);
                assert(next.drop_last() =~= entries@.subrange(0, i as int));
            }
            match entries[i] {
                IntervalEntry::Discrete(r) => {
                    rates.push(r);
                },
                IntervalEntry::Stepwise => {},
            }
            proof {
                let next = entries@.subrange(0, i as int + 1);
                assert(rates@ =~= discrete_rates(next));
            }
            i = i + 1;
        }
        assert(entries@.subrange(0, entries@.len() as int) =~= entries@);
        FrameSizeCaps { width, height, rates }
    }
}

/// What the device offers, as last probed.
#[derive(Clone, Debug, PartialEq, Eq)]
pub struct CapabilityDescriptor {
    pub formats: Vec<FormatCaps>,
}

/// Why a configuration write was refused.
#[derive(Clone, Copy, Debug, PartialEq, Eq, Structural)]
pub enum ConfigError {
    /// The value is not listed in the capability table for the current choice.
    UnsupportedConfiguration,
}

/// `i` is the first entry of `formats` with tag `tag`.
pub open spec fn is_first_format(formats: Seq<FormatCaps>, tag: Seq<u8>, i: int) -> bool {
    &&& 0 <= i < formats.len()
    &&& formats[i].fourcc@ == tag
    &&& forall|j: int| 0 <= j < i ==> #[trigger] formats[j].fourcc@ != tag
}

pub open spec fn lists_format(formats: Seq<FormatCaps>, tag: Seq<u8>) -> bool {
    exists|i: int| 0 <= i < formats.len() && #[trigger] formats[i].fourcc@ == tag
}

/// The sizes listed for `tag` (those of its first entry), or none.
pub open spec fn format_sizes(formats: Seq<FormatCaps>, tag: Seq<u8>) -> Seq<FrameSizeCaps> {
    if lists_format(formats, tag) {
        formats[choose|i: int| is_first_format(formats, tag, i)].sizes@
    } else {
        Seq::empty()
    }
}

/// `j` is the first entry of `sizes` of `width` x `height`.
pub open spec fn is_first_size(sizes: Seq<FrameSizeCaps>, width: u32, height: u32, j: int) -> bool {
    &&& 0 <= j < sizes.len()
    &&& sizes[j].width == width && sizes[j].height == height
    &&& forall|k: int|
        0 <= k < j ==> !(#[trigger] sizes[k].width == width && sizes[k].height == height)
}

pub open spec fn lists_size(sizes: Seq<FrameSizeCaps>, width: u32, height: u32) -> bool {
    exists|j: int|
        0 <= j < sizes.len() && #[trigger] sizes[j].width == width && sizes[j].height == height
}

/// The rates listed for `width` x `height` (those of its first entry), or none.
pub open spec fn size_rates(sizes: Seq<FrameSizeCaps>, width: u32, height: u32) -> Seq<StreamRate> {
    if lists_size(sizes, width, height) {
        sizes[choose|j: int| is_first_size(sizes, width, height, j)].rates@
    } else {
        Seq::empty()
    }
}

/// The frame size kept when the listed sizes change: the current one where it
/// is listed or nothing is listed, else the first listed.
pub open spec fn pick_size(sizes: Seq<FrameSizeCaps>, width: u32, height: u32) -> (u32, u32) {
    if sizes.len() == 0 || lists_size(sizes, width, height) {
        (width, height)
    } else {
        (sizes[0].width, sizes[0].height)
    }
}

/// The rate kept when the listed rates change: the current one where it is
/// listed or nothing is listed, else the first listed.
pub open spec fn pick_rate(rates: Seq<StreamRate>, rate: StreamRate) -> StreamRate {
    if rates.len() == 0 || rates.contains(rate) {
        rate
    } else {
        rates[0]
    }
}

/// The configuration after a valid pixel format write of `tag`.
pub open spec fn with_pixel_format(
    formats: Seq<FormatCaps>,
    c: DeviceConfig,
    tag: [u8; 4],
) -> DeviceConfig {
    let sizes = format_sizes(formats, tag@);
    let (w, h) = pick_size(sizes, c.width, c.height);
    DeviceConfig {
        fourcc: tag,
        width: w,
        height: h,
        rate: pick_rate(size_rates(sizes, w, h), c.rate),
        ..c
    }
}

/// The configuration after a valid resolution write.
pub open spec fn with_resolution(
    formats: Seq<FormatCaps>,
    c: DeviceConfig,
    width: u32,
    height: u32,
) -> DeviceConfig {
    let sizes = format_sizes(formats, c.fourcc@);
    DeviceConfig {
        width: width,
        height: height,
        rate: pick_rate(size_rates(sizes, width, height), c.rate),
        ..c
    }
}

proof fn lemma_first_format_unique(formats: Seq<FormatCaps>, tag: Seq<u8>, i: int)
    requires
        is_first_format(formats, tag, i),
    ensures
        lists_format(formats, tag),
        format_sizes(formats, tag) == formats[i].sizes@,
{
    let k = choose|k: int| is_first_format(formats, tag, k);
    assert(is_first_format(formats, tag, k));
    if k < i {
        assert(formats[k].fourcc@ != tag);
    }
    if i < k {
        assert(formats[i].fourcc@ != tag);
    }
}

proof fn lemma_first_size_unique(sizes: Seq<FrameSizeCaps>, width: u32, height: u32, j: int)
    requires
        is_first_size(sizes, width, height, j),
    ensures
        lists_size(sizes, width, height),
        size_rates(sizes, width, height) == sizes[j].rates@,
{
    let k = choose|k: int| is_first_size(sizes, width, height, k);
    assert(is_first_size(sizes, width, height, k));
    if k < j {
        assert(!(sizes[k].width == width && sizes[k].height == height));
    }
    if j < k {
        assert(!(sizes[j].width == width && sizes[j].height == height));
    }
}

/// The index of the first entry of `formats` with tag `tag`.
pub fn find_format(formats: &Vec<FormatCaps>, tag: &[u8; 4]) -> (r: Option<usize>)
    ensures
        r is None <==> !lists_format(formats@, tag@),
        r matches Some(i) ==> is_first_format(formats@, tag@, i as int),
{
    let mut i: usize = 0;
    while i < formats.len()
        invariant
            0 <= i <= formats@.len(),
            forall|j: int| 0 <= j < i ==> #[trigger] formats@[j].fourcc@ != tag@,
        decreases formats@.len() - i,
    {
        if same_fourcc(&formats[i].fourcc, tag) {
            return Some(i);
        }
        i = i + 1;
    }
    None
}

/// The index of the first entry of `sizes` of `width` x `height`.
pub fn find_size(sizes: &Vec<FrameSizeCaps>, width: u32, height: u32) -> (r: Option<usize>)
    ensures
        r is None <==> !lists_size(sizes@, width, height),
        r matches Some(j) ==> is_first_size(sizes@, width, height, j as int),
{
    let mut j: usize = 0;
    while j < sizes.len()
        invariant
            0 <= j <= sizes@.len(),
            forall|k: int|
                0 <= k < j ==> !(#[trigger] sizes@[k].width == width && sizes@[k].height
                    == height),
        decreases sizes@.len() - j,
    {
        if sizes[j].width == width && sizes[j].height == height {
            return Some(j);
        }
        j = j + 1;
    }
    None
}

/// Whether `rate` is among `rates`.
pub fn lists_rate(rates: &Vec<StreamRate>, rate: StreamRate) -> (r: bool)
    ensures
        r == rates@.contains(rate),
{
    let mut k: usize = 0;
    while k < rates.len()
        invariant
            0 <= k <= rates@.len(),
            forall|m: int| 0 <= m < k ==> #[trigger] rates@[m] != rate,
        decreases rates@.len() - k,
    {
        if rates[k] == rate {
            return true;
        }
        k = k + 1;
    }
    false
}

/// The rates that `sizes` lists for `width` x `height`.
fn rates_for(sizes: &Vec<FrameSizeCaps>, width: u32, height: u32) -> (r: Option<usize>)
    ensures
        r is None ==> size_rates(sizes@, width, height) == Seq::<StreamRate>::empty(),
        r matches Some(j) ==> j < sizes@.len() && size_rates(sizes@, width, height)
            == sizes@[j as int].rates@,
        r is Some <==> lists_size(sizes@, width, height),
{
    let r = find_size(sizes, width, height);
    proof {
        if let Some(j) = r {
            lemma_first_size_unique(sizes@, width, height, j as int);
        }
    }
    r
}

/// The rate to keep among `rates`: `rate` where it is listed or nothing is.
fn choose_rate(rates: &Vec<StreamRate>, rate: StreamRate) -> (r: StreamRate)
    ensures
        r == pick_rate(rates@, rate),
{
    if rates.len() == 0 || lists_rate(rates, rate) {
        rate
    } else {
        rates[0]
    }
}

/// Holds the desired configuration and checks each write against the
/// capability table.
pub struct Coordinator {
    caps: CapabilityDescriptor,
    config: DeviceConfig,
}

impl Coordinator {
    pub closed spec fn config_spec(&self) -> DeviceConfig {
        self.config
    }

    pub closed spec fn formats_spec(&self) -> Seq<FormatCaps> {
        self.caps.formats@
    }

    /// A coordinator whose configuration starts at `config`, the device's own.
    pub fn new(caps: CapabilityDescriptor, config: DeviceConfig) -> (r: Coordinator)
        ensures
            r.config_spec() == config,
            r.formats_spec() == caps.formats@,
    {
        Coordinator { caps, config }
    }

    /// The configuration now desired.
    pub fn config(&self) -> (r: DeviceConfig)
        ensures
            r == self.config_spec(),
    {
        self.config
    }

    /// The capability table that writes are checked against.
    pub fn capabilities(&self) -> (r: &CapabilityDescriptor)
        ensures
            r.formats@ == self.formats_spec(),
    {
        &self.caps
    }

    /// The frame sizes listed for the current pixel format, if it is listed.
    pub fn listed_sizes(&self) -> (r: Option<&Vec<FrameSizeCaps>>)
        ensures
            r is Some <==> lists_format(self.formats_spec(), self.config_spec().fourcc@),
            r matches Some(v) ==> v@ == format_sizes(self.formats_spec(), self.config_spec().fourcc@),
    {
        match find_format(&self.caps.formats, &self.config.fourcc) {
            Some(i) => {
                proof {
                    lemma_first_format_unique(self.caps.formats@, self.config.fourcc@, i as int);
                }
                Some(&self.caps.formats[i].sizes)
            },
            None => None,
        }
    }

    /// The frame rates listed for the current pixel format and frame size, if
    /// that size is listed.
    pub fn listed_rates(&self) -> (r: Option<&Vec<StreamRate>>)
        ensures
            r is Some <==> lists_size(
                format_sizes(self.formats_spec(), self.config_spec().fourcc@),
                self.config_spec().width,
                self.config_spec().height,
            ),
            r matches Some(v) ==> v@ == size_rates(
                format_sizes(self.formats_spec(), self.config_spec().fourcc@),
                self.config_spec().width,
                self.config_spec().height,
            ),
    {
        match self.listed_sizes() {
            Some(sizes) => match rates_for(sizes, self.config.width, self.config.height) {
                Some(j) => Some(&sizes[j].rates),
                None => None,
            },
            None => None,
        }
    }

    /// Replaces the capability table with a newer probe; the configuration
    /// stays as it is.
    pub fn set_capabilities(&mut self, caps: CapabilityDescriptor)
        ensures
            final(self).formats_spec() == caps.formats@,
            final(self).config_spec() == old(self).config_spec(),
    {
        self.caps = caps;
    }

    /// Selects pixel format `tag`. The frame size and rate are kept where the
    /// table lists them for the new choice, else the first listed are taken.
    pub fn set_pixel_format(&mut self, tag: [u8; 4]) -> (r: Result<(), ConfigError>)
        ensures
            r is Ok <==> lists_format(old(self).formats_spec(), tag@),
            final(self).formats_spec() == old(self).formats_spec(),
            final(self).config_spec() == if r is Ok {
                with_pixel_format(old(self).formats_spec(), old(self).config_spec(), tag)
            } else {
                old(self).config_spec()
            },
    {
        let i = match find_format(&self.caps.formats, &tag) {
            Some(i) => i,
            None => {
                return Err(ConfigError::UnsupportedConfiguration);
            },
        };
        proof {
            lemma_first_format_unique(self.caps.formats@, tag@, i as int);
        }
        let sizes = &self.caps.formats[i].sizes;
        let (w, h) = if sizes.len() == 0 {
            (self.config.width, self.config.height)
        } else {
            match find_size(sizes, self.config.width, self.config.height) {
                Some(_) => (self.config.width, self.config.height),
                None => (sizes[0].width, sizes[0].height),
            }
        };
        let rate = match rates_for(sizes, w, h) {
            Some(j) => choose_rate(&sizes[j].rates, self.config.rate),
            None => self.config.rate,
        };
        self.config = DeviceConfig { fourcc: tag, width: w, height: h, rate, ..self.config };
        Ok(())
    }

    /// Selects frame size `width` x `height` for the current pixel format. The
    /// rate is kept where the table lists it for the new size, else the first
    /// listed is taken.
    pub fn set_resolution(&mut self, width: u32, height: u32) -> (r: Result<(), ConfigError>)
        ensures
            r is Ok <==> lists_size(
                format_sizes(old(self).formats_spec(), old(self).config_spec().fourcc@),
                width,
                height,
            ),
            final(self).formats_spec() == old(self).formats_spec(),
            final(self).config_spec() == if r is Ok {
                with_resolution(old(self).formats_spec(), old(self).config_spec(), width, height)
            } else {
                old(self).config_spec()
            },
    {
        let i = match find_format(&self.caps.formats, &self.config.fourcc) {
            Some(i) => i,
            None => {
                return Err(ConfigError::UnsupportedConfiguration);
            },
        };
        proof {
            lemma_first_format_unique(self.caps.formats@, self.config.fourcc@, i as int);
        }
        let sizes = &self.caps.formats[i].sizes;
        let rate = match rates_for(sizes, width, height) {
            Some(j) => choose_rate(&sizes[j].rates, self.config.rate),
            None => {
                return Err(ConfigError::UnsupportedConfiguration);
            },
        };
        self.config = DeviceConfig { width, height, rate, ..self.config };
        Ok(())
    }

    /// Selects the frame interval `numerator / denominator`, which the table
    /// must list for the current pixel format and frame size.
    pub fn set_frame_rate(&mut self, numerator: u32, denominator: u32) -> (r: Result<
        (),
        ConfigError,
    >)
        ensures
            r is Ok <==> size_rates(
                format_sizes(old(self).formats_spec(), old(self).config_spec().fourcc@),
                old(self).config_spec().width,
                old(self).config_spec().height,
            ).contains(StreamRate { numerator, denominator }),
            final(self).formats_spec() == old(self).formats_spec(),
            final(self).config_spec() == if r is Ok {
                DeviceConfig {
                    rate: StreamRate { numerator, denominator },
                    ..old(self).config_spec()
                }
            } else {
                old(self).config_spec()
            },
    {
        let rate = StreamRate { numerator, denominator };
        let i = match find_format(&self.caps.formats, &self.config.fourcc) {
            Some(i) => i,
            None => {
                return Err(ConfigError::UnsupportedConfiguration);
            },
        };
        proof {
            lemma_first_format_unique(self.caps.formats@, self.config.fourcc@, i as int);
        }
        let sizes = &self.caps.formats[i].sizes;
        match rates_for(sizes, self.config.width, self.config.height) {
            Some(j) => {
                if lists_rate(&sizes[j].rates, rate) {
                    self.config = DeviceConfig { rate, ..self.config };
                    Ok(())
                } else {
                    Err(ConfigError::UnsupportedConfiguration)
                }
            },
            None => Err(ConfigError::UnsupportedConfiguration),
        }
    }
}

} // verus!
