//! Looking for a buffer that one device can both draw into and sample from.
//!
//! Such a buffer is needed to try out imports without a client. The search goes through the devices
//! of the machine in order, and on each through the formats that may do. What only a device or an
//! allocator can tell is asked for step by step.

use vstd::prelude::*;

use crate::capabilities::{
    VulkanFormatCapabilities, VulkanFormatCapabilityRecord, VulkanFormatTiling,
    VulkanModifierCapabilityRecord,
};
use crate::dmabuf::Dmabuf;
use crate::error::VulkanError;
use crate::format::{is_drawable_below_10bit, Format, Fourcc};
use crate::geometry::Size;
use crate::image::VulkanImageUsage;
use crate::renderer::VulkanRenderer;
use crate::target::validate_dmabuf_render_target_metadata;

verus! {

impl VulkanModifierCapabilityRecord {
    /// Buffers like this can be drawn into and sampled from.
    pub open spec fn suits_loopback(self) -> bool {
        &&& self.plane_count == 1
        &&& self.usages.sampled
        &&& self.usages.color_attachment
        &&& self.usages.color_attachment_blend
        &&& self.format.drawable_below_10bit()
    }
}

impl VulkanFormatCapabilities {
    /// The formats that the first `count` modifier records suggest, in their order: those that can
    /// be drawn into and sampled from, and that are listed as targets.
    pub open spec fn loopback_formats_of(self, count: nat) -> Seq<Format>
        decreases count,
    {
        if count == 0 {
            Seq::empty()
        } else {
            let before = self.loopback_formats_of((count - 1) as nat);
            let record = self.modifier_records@[count - 1];
            let format = Format { code: record.format, modifier: record.modifier };
            if record.suits_loopback() && self.dmabuf_render_target@.contains(format) {
                before.push(format)
            } else {
                before
            }
        }
    }

    fn lists_target(&self, format: Format) -> (r: bool)
        ensures
            r == self.dmabuf_render_target@.contains(format),
    {
        let mut i: usize = 0;
        while i < self.dmabuf_render_target.len()
            invariant
                i <= self.dmabuf_render_target@.len(),
                forall|j: int| 0 <= j < i ==> #[trigger] self.dmabuf_render_target@[j] != format,
            decreases self.dmabuf_render_target.len() - i,
        {
            if self.dmabuf_render_target[i] == format {
                assert(self.dmabuf_render_target@[i as int] == format);
                return true;
            }
            i = i + 1;
        }
        false
    }

    /// The formats that may do, in the order of the modifier records.
    pub fn loopback_formats(&self) -> (r: Vec<Format>)
        ensures
            r@ == self.loopback_formats_of(self.modifier_records@.len()),
    {
        let mut formats: Vec<Format> = Vec::new();
        let mut i: usize = 0;
        while i < self.modifier_records.len()
            invariant
                i <= self.modifier_records@.len(),
                formats@ == self.loopback_formats_of(i as nat),
            decreases self.modifier_records.len() - i,
        {
            let record = self.modifier_records[i];
            let format = Format { code: record.format, modifier: record.modifier };
            if record.plane_count == 1 && record.usages.sampled && record.usages.color_attachment
                && record.usages.color_attachment_blend && is_drawable_below_10bit(record.format)
                && self.lists_target(format) {
                formats.push(format);
            }
            i = i + 1;
        }
        formats
    }
}

impl VulkanFormatCapabilityRecord {
    /// Images like this can be cleared, drawn into and read back.
    pub open spec fn suits_sample(self) -> bool {
        &&& self.tiling == VulkanFormatTiling::Optimal
        &&& self.usages.color_attachment
        &&& self.usages.color_attachment_blend
        &&& self.usages.transfer_src
        &&& self.usages.transfer_dst
    }

    fn can_take_sample(&self) -> (r: bool)
        ensures
            r == self.suits_sample(),
    {
        self.tiling == VulkanFormatTiling::Optimal && self.usages.color_attachment
            && self.usages.color_attachment_blend && self.usages.transfer_src
            && self.usages.transfer_dst
    }
}

impl VulkanFormatCapabilities {
    /// Some record says that samples can be drawn in `format`.
    pub open spec fn samples_in(self, format: Fourcc) -> bool {
        exists|i: int|
            0 <= i < self.records@.len() && (#[trigger] self.records@[i]).format == format
                && self.records@[i].suits_sample()
    }

    /// The record at `i` is the first in whose format samples can be drawn, with fewer than ten
    /// bits in a channel.
    pub open spec fn is_fallback(self, i: int) -> bool {
        &&& 0 <= i < self.records@.len()
        &&& self.records@[i].suits_sample()
        &&& self.records@[i].format.drawable_below_10bit()
        &&& forall|j: int|
            0 <= j < i ==> !((#[trigger] self.records@[j]).suits_sample()
                && self.records@[j].format.drawable_below_10bit())
    }
}

/// The format to draw samples in: `preferred` if possible, or else the first that is.
pub fn runtime_offscreen_sample_render_format(
    formats: &VulkanFormatCapabilities,
    preferred: Fourcc,
) -> (r: Option<Fourcc>)
    ensures
        match r {
            Some(format) => if formats.samples_in(preferred) {
                format == preferred
            } else {
                exists|i: int|
                    #[trigger] formats.is_fallback(i) && formats.records@[i].format == format
            },
            None => !formats.samples_in(preferred) && forall|i: int|
                0 <= i < formats.records@.len() ==> !((
                #[trigger] formats.records@[i]).suits_sample()
                    && formats.records@[i].format.drawable_below_10bit()),
        },
{
    let mut i: usize = 0;
    while i < formats.records.len()
        invariant
            i <= formats.records@.len(),
            forall|j: int|
                0 <= j < i ==> !((#[trigger] formats.records@[j]).format == preferred
                    && formats.records@[j].suits_sample()),
        decreases formats.records.len() - i,
    {
        let record = formats.records[i];
        if record.format == preferred && record.can_take_sample() {
            assert(formats.records@[i as int] == record);
            return Some(record.format);
        }
        i = i + 1;
    }
    let mut k: usize = 0;
    while k < formats.records.len()
        invariant
            k <= formats.records@.len(),
            !formats.samples_in(preferred),
            forall|j: int|
                0 <= j < k ==> !((#[trigger] formats.records@[j]).suits_sample()
                    && formats.records@[j].format.drawable_below_10bit()),
        decreases formats.records.len() - k,
    {
        let record = formats.records[k];
        if record.can_take_sample() && is_drawable_below_10bit(record.format) {
            assert(formats.is_fallback(k as int));
            return Some(record.format);
        }
        k = k + 1;
    }
    None
}

/// The extent of a loopback buffer.
pub const LOOPBACK_EDGE: i32 = 4;

/// A buffer that an allocator is to make and to export.
#[derive(Debug, Clone, Copy, PartialEq, Eq, Structural)]
pub struct LoopbackBufferPlan {
    pub size: Size,
    pub format: Format,
    /// What the allocator has to support for the format.
    pub usage: VulkanImageUsage,
}

impl VulkanImageUsage {
    /// What a loopback buffer is used for.
    pub open spec fn of_loopback() -> Self {
        VulkanImageUsage {
            sampled: true,
            color_attachment: true,
            transfer_src: true,
            transfer_dst: true,
        }
    }

    /// Loopback buffers are drawn into, sampled from and copied either way.
    pub fn loopback() -> (r: Self)
        ensures
            r == VulkanImageUsage::of_loopback(),
    {
        VulkanImageUsage {
            sampled: true,
            color_attachment: true,
            transfer_src: true,
            transfer_dst: true,
        }
    }
}

impl LoopbackBufferPlan {
    /// The loopback buffer of `format`.
    pub open spec fn of(format: Format) -> Self {
        LoopbackBufferPlan {
            size: Size { w: LOOPBACK_EDGE, h: LOOPBACK_EDGE },
            format,
            usage: VulkanImageUsage::of_loopback(),
        }
    }

    /// The loopback buffer of `format`.
    pub fn new(format: Format) -> (r: Self)
        ensures
            r == LoopbackBufferPlan::of(format),
    {
        LoopbackBufferPlan {
            size: Size { w: LOOPBACK_EDGE, h: LOOPBACK_EDGE },
            format,
            usage: VulkanImageUsage::loopback(),
        }
    }
}

/// Where a search stands on one device.
#[derive(Debug)]
pub enum LoopbackSearchPhase {
    /// Nothing is known about the device.
    CheckingExtensions,
    /// The device has all extensions that allocators need.
    CreatingPair,
    /// There is a renderer and an allocator; the formats before `next` did not do.
    TryingFormats { formats: Vec<Format>, next: usize },
    /// A buffer of this format was exported.
    Found(Format),
}

/// A search for a buffer that can be drawn into and sampled from.
#[derive(Debug)]
pub struct LoopbackSearch {
    /// The number of devices.
    pub devices: usize,
    /// The device that is looked at.
    pub device: usize,
    pub phase: LoopbackSearchPhase,
    pub found_extension_capable_device: bool,
    pub created_renderer_allocator_pair: bool,
    pub setup_errors: Vec<String>,
}

/// What a search has to know next, or how it has ended.
#[derive(Debug, Clone, Copy)]
pub enum LoopbackSearchStep {
    /// Whether the device has all extensions that allocators need.
    CheckExtensions(usize),
    /// What a renderer on the device can do, once there is an allocator as well.
    CreatePair(usize),
    /// Whether a buffer like this can be allocated and exported.
    TryFormat(usize, LoopbackBufferPlan),
    /// Such a buffer was found.
    Found(usize, Format),
    /// There is none, for this reason.
    Skip(&'static str),
    /// A device that has all extensions ought to have had a renderer and an allocator.
    NoPair,
}

/// What came of a format.
#[derive(Debug)]
pub enum LoopbackTrial {
    /// The allocator does not support the format for what the buffer is used for.
    Unsupported,
    /// Allocating or exporting failed.
    Failed(String),
    /// A buffer was exported.
    Exported,
}

impl LoopbackSearch {
    /// The search is on a device, unless it has ended without a find.
    pub open spec fn well_formed(self) -> bool {
        &&& self.device <= self.devices
        &&& self.device == self.devices ==> self.phase is CheckingExtensions
        &&& self.phase matches LoopbackSearchPhase::TryingFormats { formats, next } ==> next
            < formats@.len()
        &&& self.phase is CreatingPair ==> self.found_extension_capable_device
        &&& self.phase is TryingFormats ==> self.created_renderer_allocator_pair
        &&& self.phase is Found ==> self.created_renderer_allocator_pair
        &&& self.created_renderer_allocator_pair ==> self.found_extension_capable_device
    }

    /// What has to be known next.
    pub open spec fn next_step(self) -> LoopbackSearchStep {
        if self.device == self.devices {
            if !self.found_extension_capable_device {
                LoopbackSearchStep::Skip("no device supports allocator extensions")
            } else if !self.created_renderer_allocator_pair {
                LoopbackSearchStep::NoPair
            } else {
                LoopbackSearchStep::Skip("no common exportable sampled/render-target modifier")
            }
        } else {
            match self.phase {
                LoopbackSearchPhase::CheckingExtensions => LoopbackSearchStep::CheckExtensions(
                    self.device,
                ),
                LoopbackSearchPhase::CreatingPair => LoopbackSearchStep::CreatePair(self.device),
                LoopbackSearchPhase::TryingFormats { formats, next } => {
                    LoopbackSearchStep::TryFormat(
                        self.device,
                        LoopbackBufferPlan::of(formats@[next as int]),
                    )
                },
                LoopbackSearchPhase::Found(format) => LoopbackSearchStep::Found(
                    self.device,
                    format,
                ),
            }
        }
    }

    /// This search has moved on from `before` without a find: to the next format, or else to the
    /// next device.
    pub open spec fn moved_on(self, before: Self, formats: Seq<Format>, next: int) -> bool {
        if next < formats.len() {
            &&& self.device == before.device
            &&& self.phase matches LoopbackSearchPhase::TryingFormats {
                formats: left,
                next: tried,
            } && left@ == formats && tried == next
        } else {
            self.device == before.device + 1 && self.phase is CheckingExtensions
        }
    }

    /// This search is further than `before`, so that no search goes on forever.
    pub open spec fn ahead_of(self, before: Self) -> bool {
        &&& self.devices == before.devices
        &&& self.device >= before.device
        &&& self.device == before.device ==> match (before.phase, self.phase) {
            (LoopbackSearchPhase::CheckingExtensions, phase) => !(phase is CheckingExtensions),
            (LoopbackSearchPhase::CreatingPair, phase) => phase is TryingFormats || phase is Found,
            (
                LoopbackSearchPhase::TryingFormats { formats: earlier, next: then },
                LoopbackSearchPhase::TryingFormats { formats, next },
            ) => formats@ == earlier@ && then < next,
            (LoopbackSearchPhase::TryingFormats { .. }, phase) => phase is Found,
            (LoopbackSearchPhase::Found(_), _) => false,
        }
    }

    /// This search is one over `devices` devices that has not begun.
    pub open spec fn begins(self, devices: usize) -> bool {
        &&& self.devices == devices
        &&& self.device == 0
        &&& self.phase is CheckingExtensions
        &&& !self.found_extension_capable_device
        &&& !self.created_renderer_allocator_pair
        &&& self.setup_errors@.len() == 0
    }

    /// This search is `before`, once it knows whether the device has all extensions.
    pub open spec fn knows_extensions(self, before: Self, complete: bool) -> bool {
        self == if complete {
            LoopbackSearch {
                phase: LoopbackSearchPhase::CreatingPair,
                found_extension_capable_device: true,
                ..before
            }
        } else {
            LoopbackSearch { device: (before.device + 1) as usize, ..before }
        }
    }

    /// This search is `before`, once it knows which formats may do, or that there is no pair.
    pub open spec fn knows_formats(self, before: Self, formats: Option<Seq<Format>>) -> bool {
        &&& self.devices == before.devices
        &&& self.found_extension_capable_device
        &&& match formats {
            Some(formats) => self.created_renderer_allocator_pair && self.moved_on(
                before,
                formats,
                0,
            ),
            None => self.created_renderer_allocator_pair == before.created_renderer_allocator_pair
                && self.moved_on(before, Seq::empty(), 0),
        }
    }

    /// This search is `before`, once it knows whether a buffer of the format could be exported.
    pub open spec fn knows_trial(self, before: Self, exported: bool) -> bool {
        &&& self.devices == before.devices
        &&& self.found_extension_capable_device == before.found_extension_capable_device
        &&& self.created_renderer_allocator_pair == before.created_renderer_allocator_pair
        &&& before.phase matches LoopbackSearchPhase::TryingFormats { formats, next }
            && if exported {
            self.device == before.device && self.phase == LoopbackSearchPhase::Found(
                formats@[next as int],
            )
        } else {
            self.moved_on(before, formats@, next + 1)
        }
    }

    /// A search over `devices` devices.
    pub fn begin(devices: usize) -> (r: Self)
        ensures
            r.well_formed(),
            r.begins(devices),
    {
        LoopbackSearch {
            devices,
            device: 0,
            phase: LoopbackSearchPhase::CheckingExtensions,
            found_extension_capable_device: false,
            created_renderer_allocator_pair: false,
            setup_errors: Vec::new(),
        }
    }

    pub fn step(&self) -> (r: LoopbackSearchStep)
        requires
            self.well_formed(),
        ensures
            r == self.next_step(),
    {
        if self.device == self.devices {
            if !self.found_extension_capable_device {
                return LoopbackSearchStep::Skip("no device supports allocator extensions");
            }
            if !self.created_renderer_allocator_pair {
                return LoopbackSearchStep::NoPair;
            }
            return LoopbackSearchStep::Skip("no common exportable sampled/render-target modifier");
        }
        match &self.phase {
            LoopbackSearchPhase::CheckingExtensions => LoopbackSearchStep::CheckExtensions(
                self.device,
            ),
            LoopbackSearchPhase::CreatingPair => LoopbackSearchStep::CreatePair(self.device),
            LoopbackSearchPhase::TryingFormats { formats, next } => LoopbackSearchStep::TryFormat(
                self.device,
                LoopbackBufferPlan::new(formats[*next]),
            ),
            LoopbackSearchPhase::Found(format) => LoopbackSearchStep::Found(self.device, *format),
        }
    }

    /// Takes the answer to `CheckExtensions`.
    pub fn extensions_checked(&mut self, complete: bool)
        requires
            old(self).well_formed(),
            old(self).next_step() is CheckExtensions,
        ensures
            final(self).well_formed(),
            final(self).ahead_of(*old(self)),
            final(self).knows_extensions(*old(self), complete),
    {
        if complete {
            self.found_extension_capable_device = true;
            self.phase = LoopbackSearchPhase::CreatingPair;
        } else {
            self.device = self.device + 1;
        }
    }

    fn go_on(&mut self, formats: Vec<Format>, next: usize)
        requires
            old(self).device < old(self).devices,
        ensures
            final(self).moved_on(*old(self), formats@, next as int),
            final(self).devices == old(self).devices,
            final(self).found_extension_capable_device == old(self).found_extension_capable_device,
            final(self).created_renderer_allocator_pair
                == old(self).created_renderer_allocator_pair,
            final(self).setup_errors == old(self).setup_errors,
    {
        if next < formats.len() {
            self.phase = LoopbackSearchPhase::TryingFormats { formats, next };
        } else {
            self.device = self.device + 1;
            self.phase = LoopbackSearchPhase::CheckingExtensions;
        }
    }

    /// Takes the answer to `CreatePair`: what the formats of the renderer are, or what failed.
    pub fn pair_created(&mut self, outcome: Result<&VulkanFormatCapabilities, String>)
        requires
            old(self).well_formed(),
            old(self).next_step() is CreatePair,
        ensures
            final(self).well_formed(),
            final(self).ahead_of(*old(self)),
            match outcome {
                Ok(formats) => {
                    &&& final(self).knows_formats(
                        *old(self),
                        Some(formats.loopback_formats_of(formats.modifier_records@.len())),
                    )
                    &&& final(self).setup_errors == old(self).setup_errors
                },
                Err(error) => {
                    &&& final(self).knows_formats(*old(self), None)
                    &&& final(self).setup_errors@ == old(self).setup_errors@.push(error)
                },
            },
    {
        match outcome {
            Ok(formats) => {
                self.created_renderer_allocator_pair = true;
                self.go_on(formats.loopback_formats(), 0);
            },
            Err(error) => {
                self.setup_errors.push(error);
                self.go_on(Vec::new(), 0);
            },
        }
    }

    /// Takes the answer to `TryFormat`.
    pub fn format_tried(&mut self, outcome: LoopbackTrial)
        requires
            old(self).well_formed(),
            old(self).next_step() is TryFormat,
        ensures
            final(self).well_formed(),
            final(self).ahead_of(*old(self)),
            final(self).knows_trial(*old(self), outcome is Exported),
            final(self).setup_errors@ == (match outcome {
                LoopbackTrial::Failed(error) => old(self).setup_errors@.push(error),
                _ => old(self).setup_errors@,
            }),
    {
        let mut phase = LoopbackSearchPhase::CheckingExtensions;
        core::mem::swap(&mut phase, &mut self.phase);
        match phase {
            LoopbackSearchPhase::TryingFormats { formats, next } => {
                assert(next < formats.len());
                match outcome {
                    LoopbackTrial::Exported => {
                        self.phase = LoopbackSearchPhase::Found(formats[next]);
                    },
                    LoopbackTrial::Failed(error) => {
                        self.setup_errors.push(error);
                        self.go_on(formats, next + 1);
                    },
                    LoopbackTrial::Unsupported => {
                        self.go_on(formats, next + 1);
                    },
                }
            },
            _ => {},
        }
    }
}

/// Why a buffer that was exported is of no use after all.
#[derive(Debug)]
pub enum LoopbackMismatch {
    /// It has another format than was asked for.
    Format,
    /// It cannot be drawn into.
    Target(VulkanError),
    /// It has another size than was asked for.
    Size,
    /// It cannot be sampled from.
    Sampling(VulkanError),
    /// The renderer offers sampled imports to clients.
    Advertised,
}

/// Checks that `dmabuf` is what was asked for, and that `renderer` can draw into it and sample from
/// it without offering that to clients.
pub fn check_loopback_buffer(renderer: &VulkanRenderer, dmabuf: &Dmabuf, format: Format) -> (r:
    Result<(), LoopbackMismatch>)
    requires
        dmabuf.well_formed(),
    ensures
        r == (if dmabuf.format != format {
            Err(LoopbackMismatch::Format)
        } else if let Some(error) = dmabuf.target_metadata_refusal() {
            Err(LoopbackMismatch::Target(error))
        } else if dmabuf.size != LoopbackBufferPlan::of(format).size {
            Err(LoopbackMismatch::Size)
        } else if let Some(error) = renderer.sampled_metadata_refusal(*dmabuf) {
            Err(LoopbackMismatch::Sampling(error))
        } else if renderer.capabilities.import.dmabuf
            || renderer.capabilities.formats.dmabuf_import@.len() > 0 {
            Err(LoopbackMismatch::Advertised)
        } else {
            Ok(())
        }),
        r is Ok ==> renderer.public_import_contracts().validated() == VulkanError::unadvertised::<
            (),
        >("sampled dmabuf import"),
{
    if dmabuf.format != format {
        return Err(LoopbackMismatch::Format);
    }
    match validate_dmabuf_render_target_metadata(dmabuf) {
        Ok(_) => {},
        Err(error) => {
            return Err(LoopbackMismatch::Target(error));
        },
    }
    if dmabuf.size != LoopbackBufferPlan::new(format).size {
        return Err(LoopbackMismatch::Size);
    }
    match renderer.validate_sampled_dmabuf_import_metadata(dmabuf) {
        Ok(_) => {},
        Err(error) => {
            return Err(LoopbackMismatch::Sampling(error));
        },
    }
    if renderer.capabilities.import.dmabuf || renderer.capabilities.formats.dmabuf_import.len() > 0 {
        return Err(LoopbackMismatch::Advertised);
    }
    Ok(())
}

/// The formats that are tried are exactly those that can be drawn into and sampled from and are
/// listed as targets.
pub proof fn law_loopback_formats_suit(
    formats: VulkanFormatCapabilities,
    count: nat,
    format: Format,
)
    requires
        count <= formats.modifier_records@.len(),
    ensures
        formats.loopback_formats_of(count).contains(format) <==> {
            &&& formats.dmabuf_render_target@.contains(format)
            &&& exists|i: int|
                0 <= i < count && {
                    let record = #[trigger] formats.modifier_records@[i];
                    &&& record.suits_loopback()
                    &&& record.format == format.code
                    &&& record.modifier == format.modifier
                }
        },
    decreases count,
{
    if count > 0 {
        let before = formats.loopback_formats_of((count - 1) as nat);
        let record = formats.modifier_records@[count - 1];
        let last = Format { code: record.format, modifier: record.modifier };
        law_loopback_formats_suit(formats, (count - 1) as nat, format);
        if record.suits_loopback() && formats.dmabuf_render_target@.contains(last) {
            assert(before.push(last)[before.len() as int] == last);
            if before.contains(format) {
                let i = choose|i: int| 0 <= i < before.len() && before[i] == format;
                assert(before.push(last)[i] == format);
            }
        }
    }
}

/// What the machine answers about one of its devices.
pub struct LoopbackAnswers {
    /// The device has all extensions that allocators need.
    pub extensions: bool,
    /// The formats that may do, in order, if there is a renderer and an allocator.
    pub formats: Option<Seq<Format>>,
    /// The formats in which a buffer can be allocated and exported.
    pub exportable: Set<Format>,
}

impl LoopbackAnswers {
    /// A buffer of the format with the number `n` will do.
    pub open spec fn will_do(self, n: int) -> bool {
        &&& self.extensions
        &&& self.formats matches Some(formats) && 0 <= n < formats.len()
            && self.exportable.contains(formats[n])
    }

    /// No buffer of this device will do.
    pub open spec fn barren(self) -> bool {
        forall|n: int| !#[trigger] self.will_do(n)
    }

    /// Some device of `machine` has all extensions that allocators need.
    pub open spec fn capable(machine: Seq<Self>) -> bool {
        exists|d: int| 0 <= d < machine.len() && (#[trigger] machine[d]).extensions
    }

    /// Some device of `machine` has all extensions, and a renderer and an allocator.
    pub open spec fn paired(machine: Seq<Self>) -> bool {
        exists|d: int|
            0 <= d < machine.len() && (#[trigger] machine[d]).extensions
                && machine[d].formats is Some
    }

    /// No buffer of any device of `machine` will do.
    pub open spec fn all_barren(machine: Seq<Self>) -> bool {
        forall|d: int| 0 <= d < machine.len() ==> (#[trigger] machine[d]).barren()
    }

    /// The first buffer that will do is the one with the number `n` on the device with the number
    /// `device`.
    pub open spec fn first(machine: Seq<Self>, device: int, n: int) -> bool {
        &&& 0 <= device < machine.len()
        &&& machine[device].will_do(n)
        &&& forall|earlier: int| 0 <= earlier < n ==> !#[trigger] machine[device].will_do(earlier)
        &&& forall|earlier: int| 0 <= earlier < device ==> (#[trigger] machine[earlier]).barren()
    }
}

impl LoopbackAnswers {
    /// Where the device with the number `i` has gone once the device `useless` was removed.
    spec fn moved(i: int, useless: int, removed: bool) -> int {
        if removed && i > useless {
            i - 1
        } else {
            i
        }
    }

    proof fn lemma_useless(machine: Seq<Self>, changed: Seq<Self>, useless: int, removed: bool)
        requires
            0 <= useless < machine.len(),
            !machine[useless].extensions,
            removed ==> changed == machine.remove(useless),
            !removed ==> changed.len() == machine.len() && !changed[useless].extensions,
            !removed ==> forall|i: int|
                0 <= i < machine.len() && i != useless ==> #[trigger] changed[i] == machine[i],
        ensures
            Self::capable(changed) == Self::capable(machine),
            Self::paired(changed) == Self::paired(machine),
            Self::all_barren(changed) == Self::all_barren(machine),
    {
        assert(machine[useless].barren());
        assert(!removed ==> changed[useless].barren());
        assert forall|i: int| 0 <= i < machine.len() && i != useless implies changed[
            #[trigger] Self::moved(i, useless, removed)
        ] == machine[i] by {}
        if Self::capable(machine) {
            let d = choose|d: int| 0 <= d < machine.len() && (#[trigger] machine[d]).extensions;
            assert(changed[Self::moved(d, useless, removed)] == machine[d]);
        }
        if Self::paired(machine) {
            let d = choose|d: int|
                0 <= d < machine.len() && (#[trigger] machine[d]).extensions
                    && machine[d].formats is Some;
            assert(changed[Self::moved(d, useless, removed)] == machine[d]);
        }
        assert forall|i: int| 0 <= i < changed.len() && (removed || i != useless) implies
            #[trigger] changed[i] == machine[
            if removed && i >= useless {
                i + 1
            } else {
                i
            }
        ] by {}
        if Self::all_barren(changed) {
            assert forall|d: int| 0 <= d < machine.len() implies (#[trigger] machine[d]).barren() by {
                if d != useless {
                    assert(changed[Self::moved(d, useless, removed)] == machine[d]);
                    assert(changed[Self::moved(d, useless, removed)].barren());
                }
            }
        }
    }
}

impl LoopbackSearch {
    /// `after` is `before`, once it has the answer of `machine` to what it has asked.
    pub open spec fn answered(machine: Seq<LoopbackAnswers>, before: Self, after: Self) -> bool {
        let answers = machine[before.device as int];
        match before.next_step() {
            LoopbackSearchStep::CheckExtensions(_) => after.knows_extensions(
                before,
                answers.extensions,
            ),
            LoopbackSearchStep::CreatePair(_) => after.knows_formats(before, answers.formats),
            LoopbackSearchStep::TryFormat(_, plan) => after.knows_trial(
                before,
                answers.exportable.contains(plan.format),
            ),
            _ => false,
        }
    }

    /// The search asks nothing any more.
    pub open spec fn ended(self) -> bool {
        let step = self.next_step();
        step is Found || step is Skip || step is NoPair
    }

    /// `searches` is what becomes of a search over all devices of `machine`, answer by answer.
    pub open spec fn searched(machine: Seq<LoopbackAnswers>, searches: Seq<Self>) -> bool {
        &&& searches.len() > 0
        &&& searches[0].begins(machine.len() as usize)
        &&& forall|i: int, next: int|
            0 <= i && next == i + 1 && next < searches.len() ==> LoopbackSearch::answered(
                machine,
                #[trigger] searches[i],
                #[trigger] searches[next],
            )
    }

    /// What the search says about the devices of `machine` that it has asked about is true.
    spec fn agrees(self, machine: Seq<LoopbackAnswers>) -> bool {
        let here = machine[self.device as int];
        &&& self.devices == machine.len()
        &&& self.device <= self.devices
        &&& forall|d: int| 0 <= d < self.device ==> (#[trigger] machine[d]).barren()
        &&& self.device == self.devices ==> self.phase is CheckingExtensions
        &&& match self.phase {
            LoopbackSearchPhase::CheckingExtensions => true,
            LoopbackSearchPhase::CreatingPair => here.extensions,
            LoopbackSearchPhase::TryingFormats { formats, next } => {
                &&& here.extensions
                &&& here.formats == Some(formats@)
                &&& next < formats@.len()
                &&& forall|n: int| 0 <= n < next ==> !#[trigger] here.will_do(n)
            },
            LoopbackSearchPhase::Found(format) => exists|n: int|
                #[trigger] LoopbackAnswers::first(machine, self.device as int, n)
                    && here.formats->0[n] == format,
        }
        &&& self.found_extension_capable_device <==> exists|d: int|
            0 <= d < self.device + (if self.phase is CheckingExtensions {
                0int
            } else {
                1
            }) && (#[trigger] machine[d]).extensions
        &&& self.created_renderer_allocator_pair <==> exists|d: int|
            0 <= d < self.device + (if self.phase is TryingFormats || self.phase is Found {
                1int
            } else {
                0
            }) && (#[trigger] machine[d]).extensions && machine[d].formats is Some
    }

    proof fn lemma_agrees(machine: Seq<LoopbackAnswers>, before: Self, after: Self)
        requires
            before.agrees(machine),
            LoopbackSearch::answered(machine, before, after),
        ensures
            after.agrees(machine),
    {
        let here = machine[before.device as int];
        match before.phase {
            LoopbackSearchPhase::CheckingExtensions => {
                if !here.extensions {
                    assert(here.barren());
                }
            },
            LoopbackSearchPhase::CreatingPair => {
                assert(here.extensions);
                if here.formats is None || here.formats->0.len() == 0 {
                    assert(here.barren());
                }
            },
            LoopbackSearchPhase::TryingFormats { formats, next } => {
                if here.exportable.contains(formats@[next as int]) {
                    assert(LoopbackAnswers::first(machine, before.device as int, next as int));
                } else {
                    assert(!here.will_do(next as int));
                    if next + 1 == formats@.len() {
                        assert(here.barren());
                    }
                }
            },
            LoopbackSearchPhase::Found(_) => {},
        }
    }

    proof fn lemma_all_agree(machine: Seq<LoopbackAnswers>, searches: Seq<Self>, i: int)
        requires
            LoopbackSearch::searched(machine, searches),
            machine.len() <= usize::MAX,
            0 <= i < searches.len(),
        ensures
            searches[i].agrees(machine),
        decreases i,
    {
        if i > 0 {
            LoopbackSearch::lemma_all_agree(machine, searches, i - 1);
            assert(LoopbackSearch::answered(machine, searches[i - 1], searches[i]));
            LoopbackSearch::lemma_agrees(machine, searches[i - 1], searches[i]);
        }
    }
}

/// What a search comes to is determined by what the machine answers. It finds the first buffer that
/// will do: the first in the order of the formats on the first device that has one. Where no device
/// has all extensions, or where a pair exists and nothing will do, the search says so. Where some
/// device has all extensions and no such device has a pair, there should have been one.
pub proof fn law_loopback_searches_find_the_first(
    machine: Seq<LoopbackAnswers>,
    searches: Seq<LoopbackSearch>,
)
    requires
        machine.len() <= usize::MAX,
        LoopbackSearch::searched(machine, searches),
        searches.last().ended(),
    ensures
        searches.last().next_step() matches LoopbackSearchStep::Found(device, format) ==> exists|n: int|
            #[trigger] LoopbackAnswers::first(machine, device as int, n)
                && machine[device as int].formats->0[n] == format,
        searches.last().next_step() is Found <==> !LoopbackAnswers::all_barren(machine),
        searches.last().next_step() is NoPair <==> LoopbackAnswers::capable(machine)
            && !LoopbackAnswers::paired(machine),
        !LoopbackAnswers::capable(machine) ==> searches.last().next_step()
            == LoopbackSearchStep::Skip("no device supports allocator extensions"),
        LoopbackAnswers::paired(machine) && LoopbackAnswers::all_barren(machine)
            ==> searches.last().next_step() == LoopbackSearchStep::Skip(
            "no common exportable sampled/render-target modifier",
        ),
{
    LoopbackSearch::lemma_all_agree(machine, searches, searches.len() - 1);
    let end = searches.last();
    if let LoopbackSearchStep::Found(device, format) = end.next_step() {
        let n = choose|n: int|
            #[trigger] LoopbackAnswers::first(machine, end.device as int, n)
                && machine[end.device as int].formats->0[n] == format;
        assert(LoopbackAnswers::first(machine, device as int, n));
        assert(machine[device as int].will_do(n));
        assert(!machine[device as int].barren());
        assert(machine[device as int].extensions && machine[device as int].formats is Some);
    } else {
        assert(end.device == end.devices);
        assert(LoopbackAnswers::all_barren(machine));
        assert(end.found_extension_capable_device == LoopbackAnswers::capable(machine));
        assert(end.created_renderer_allocator_pair == LoopbackAnswers::paired(machine));
    }
}

/// There is at most one first buffer, so that the outcome of a search is determined by what the
/// machine answers.
pub proof fn law_first_loopback_buffers_are_unique(
    machine: Seq<LoopbackAnswers>,
    device: int,
    n: int,
    other_device: int,
    other: int,
)
    requires
        LoopbackAnswers::first(machine, device, n),
        LoopbackAnswers::first(machine, other_device, other),
    ensures
        device == other_device,
        n == other,
{
    if device < other_device {
        assert(machine[device].barren());
    }
    if other_device < device {
        assert(machine[other_device].barren());
    }
    if device == other_device && n < other {
        assert(!machine[device].will_do(n));
    }
    if device == other_device && other < n {
        assert(!machine[device].will_do(other));
    }
}

/// A device without the extensions never changes what a search comes to, whatever else may be said of
/// it: neither which buffer is the first, nor why there is none.
pub proof fn law_devices_without_extensions_change_nothing(
    machine: Seq<LoopbackAnswers>,
    useless: int,
    answers: LoopbackAnswers,
    device: int,
    n: int,
)
    requires
        0 <= useless < machine.len(),
        !machine[useless].extensions,
        !answers.extensions,
    ensures
        LoopbackAnswers::first(machine, device, n) <==> LoopbackAnswers::first(
            machine.update(useless, answers),
            device,
            n,
        ),
        device != useless ==> (LoopbackAnswers::first(machine, device, n)
            <==> LoopbackAnswers::first(
            machine.remove(useless),
            if device < useless {
                device
            } else {
                device - 1
            },
            n,
        )),
        LoopbackAnswers::capable(machine.update(useless, answers)) == LoopbackAnswers::capable(
            machine,
        ),
        LoopbackAnswers::paired(machine.update(useless, answers)) == LoopbackAnswers::paired(
            machine,
        ),
        LoopbackAnswers::all_barren(machine.update(useless, answers))
            == LoopbackAnswers::all_barren(machine),
        LoopbackAnswers::capable(machine.remove(useless)) == LoopbackAnswers::capable(machine),
        LoopbackAnswers::paired(machine.remove(useless)) == LoopbackAnswers::paired(machine),
        LoopbackAnswers::all_barren(machine.remove(useless)) == LoopbackAnswers::all_barren(
            machine,
        ),
{
    LoopbackAnswers::lemma_useless(machine, machine.update(useless, answers), useless, false);
    LoopbackAnswers::lemma_useless(machine, machine.remove(useless), useless, true);
    let updated = machine.update(useless, answers);
    let removed = machine.remove(useless);
    assert(machine[useless].barren());
    assert(answers.barren());
    if LoopbackAnswers::first(updated, device, n) {
        assert forall|earlier: int| 0 <= earlier < device implies (
        #[trigger] machine[earlier]).barren() by {
            assert(updated[earlier].barren());
        }
    }
    if device != useless {
        let at = if device < useless {
            device
        } else {
            device - 1
        };
        if LoopbackAnswers::first(machine, device, n) {
            assert(removed[at] == machine[device]);
            assert forall|earlier: int| 0 <= earlier < at implies (
            #[trigger] removed[earlier]).barren() by {
                let there = if earlier < useless {
                    earlier
                } else {
                    earlier + 1
                };
                assert(removed[earlier] == machine[there]);
                assert(machine[there].barren());
            }
        }
        if LoopbackAnswers::first(removed, at, n) {
            assert(removed[at] == machine[device]);
            assert forall|earlier: int| 0 <= earlier < device implies (
            #[trigger] machine[earlier]).barren() by {
                if earlier < useless {
                    assert(removed[earlier].barren());
                } else if earlier > useless {
                    assert(removed[earlier - 1].barren());
                }
            }
        }
    }
}

/// The node of a device that client timelines are made on: its render node, or else its primary
/// node.
pub fn syncobj_node(render_node: Option<u64>, primary_node: Option<u64>) -> (r: Option<u64>)
    ensures
        r == (if render_node is Some {
            render_node
        } else {
            primary_node
        }),
{
    match render_node {
        Some(node) => Some(node),
        None => primary_node,
    }
}

/// A record of a buffer of one plane that can be drawn into, blended into and sampled from, in a
/// format whose red has fewer than ten bits.
pub open spec fn is_loopback_record(record: VulkanModifierCapabilityRecord) -> bool {
    &&& record.plane_count == 1
    &&& record.usages.sampled && record.usages.color_attachment
        && record.usages.color_attachment_blend
    &&& record.format.pixel_bits() is Some
    &&& record.format.pixel_bits()->0.channels[crate::format::Channel::Red].1 < 10
}

proof fn lemma_loopback_formats(formats: VulkanFormatCapabilities, count: nat)
    requires
        count <= formats.modifier_records@.len(),
    ensures
        formats.loopback_formats_of(count) == formats.modifier_records@.take(count as int).filter(
            |record: VulkanModifierCapabilityRecord|
                is_loopback_record(record) && formats.dmabuf_render_target@.contains(
                    Format { code: record.format, modifier: record.modifier },
                ),
        ).map_values(
            |record: VulkanModifierCapabilityRecord|
                Format { code: record.format, modifier: record.modifier },
        ),
    decreases count,
{
    reveal(Seq::filter);
    let keep = |record: VulkanModifierCapabilityRecord|
        is_loopback_record(record) && formats.dmabuf_render_target@.contains(
            Format { code: record.format, modifier: record.modifier },
        );
    let name = |record: VulkanModifierCapabilityRecord|
        Format { code: record.format, modifier: record.modifier };
    let part = formats.modifier_records@.take(count as int);
    if count > 0 {
        lemma_loopback_formats(formats, (count - 1) as nat);
        let before = formats.modifier_records@.take(count - 1);
        assert(part.drop_last() =~= before);
        let record = formats.modifier_records@[count - 1];
        assert(part.last() == record);
        assert(keep(record) == (record.suits_loopback() && formats.dmabuf_render_target@.contains(
            name(record),
        )));
        if keep(record) {
            assert(part.filter(keep).map_values(name) =~= before.filter(keep).map_values(name).push(
                name(record),
            ));
        }
    } else {
        assert(part.filter(keep).map_values(name) =~= Seq::<Format>::empty());
    }
}

/// The formats to try are those of the records that may do and are listed as targets, one for each
/// and in the order of the records.
pub proof fn law_loopback_formats_keep_their_order(formats: VulkanFormatCapabilities, r: Vec<Format>)
    requires
        call_ensures(VulkanFormatCapabilities::loopback_formats, (&formats,), r),
    ensures
        r@ == formats.modifier_records@.filter(
            |record: VulkanModifierCapabilityRecord|
                is_loopback_record(record) && formats.dmabuf_render_target@.contains(
                    Format { code: record.format, modifier: record.modifier },
                ),
        ).map_values(
            |record: VulkanModifierCapabilityRecord|
                Format { code: record.format, modifier: record.modifier },
        ),
{
    lemma_loopback_formats(formats, formats.modifier_records@.len());
    assert(formats.modifier_records@.take(formats.modifier_records@.len() as int)
        =~= formats.modifier_records@);
}

/// A record of images, laid out as the device likes, that can be drawn into, blended into and copied
/// either way.
pub open spec fn is_sample_record(record: VulkanFormatCapabilityRecord) -> bool {
    &&& record.tiling is Optimal
    &&& record.usages.color_attachment && record.usages.color_attachment_blend
    &&& record.usages.transfer_src && record.usages.transfer_dst
}

/// Samples are drawn in the preferred format if the device can, else in the first format of fewer
/// than ten bits that it can, and in none only if there is neither.
pub proof fn law_samples_are_drawn_in_the_preferred_format(
    formats: VulkanFormatCapabilities,
    preferred: Fourcc,
    r: Option<Fourcc>,
)
    requires
        call_ensures(runtime_offscreen_sample_render_format, (&formats, preferred), r),
    ensures
        ({
            let records = formats.records@;
            let can = exists|i: int|
                0 <= i < records.len() && is_sample_record(#[trigger] records[i])
                    && records[i].format == preferred;
            &&& can ==> r == Some(preferred)
            &&& !can ==> match r {
                Some(format) => exists|i: int|
                    0 <= i < records.len() && #[trigger] records[i].format == format
                        && is_sample_record(records[i]) && crate::format::below_ten_bits(format)
                        && forall|j: int|
                        0 <= j < i && is_sample_record(#[trigger] records[j])
                            ==> !crate::format::below_ten_bits(records[j].format),
                None => forall|i: int|
                    0 <= i < records.len() && is_sample_record(#[trigger] records[i])
                        ==> !crate::format::below_ten_bits(records[i].format),
            }
        }),
{
    let records = formats.records@;
    assert forall|i: int| 0 <= i < records.len() implies is_sample_record(#[trigger] records[i])
        == records[i].suits_sample() && crate::format::below_ten_bits(records[i].format)
        == records[i].format.drawable_below_10bit() by {}
    if formats.samples_in(preferred) {
        let i = choose|i: int|
            0 <= i < records.len() && (#[trigger] records[i]).format == preferred
                && records[i].suits_sample();
        assert(is_sample_record(records[i]));
    } else if r is Some {
        let i = choose|i: int|
            #[trigger] formats.is_fallback(i) && records[i].format == r->0;
        assert(formats.is_fallback(i));
        assert(records[i].format == r->0);
        assert(is_sample_record(records[i]));
        assert forall|j: int| 0 <= j < i && is_sample_record(#[trigger] records[j]) implies !(
        crate::format::below_ten_bits(records[j].format)) by {
            assert(!(records[j].suits_sample() && records[j].format.drawable_below_10bit()));
        }
    }
}

/// A loopback buffer has four by four pixels of its format, and is drawn into, sampled from and
/// copied either way.
pub proof fn law_loopback_buffers_are_used_every_way(format: Format, r: LoopbackBufferPlan)
    requires
        call_ensures(LoopbackBufferPlan::new, (format,), r),
    ensures
        r.format == format,
        r.size.w == 4 && r.size.h == 4,
        r.usage.sampled && r.usage.color_attachment && r.usage.transfer_src && r.usage.transfer_dst,
{
}

/// A search asks about the device that it has come to, and about no device once it has seen all.
pub proof fn law_searches_ask_about_their_device(
    search: LoopbackSearch,
    r: LoopbackSearchStep,
    devices: usize,
    first: LoopbackSearch,
)
    requires
        call_ensures(LoopbackSearch::step, (&search,), r),
        call_ensures(LoopbackSearch::begin, (devices,), first),
    ensures
        match r {
            LoopbackSearchStep::CheckExtensions(device) => device == search.device && device
                != search.devices && search.phase is CheckingExtensions,
            LoopbackSearchStep::CreatePair(device) => device == search.device && device
                != search.devices && search.phase is CreatingPair,
            LoopbackSearchStep::TryFormat(device, plan) => {
                &&& device == search.device && device != search.devices
                &&& search.phase matches LoopbackSearchPhase::TryingFormats { formats, next }
                &&& plan.format == formats@[next as int]
                &&& plan.size.w == 4 && plan.size.h == 4
                &&& plan.usage.sampled && plan.usage.color_attachment && plan.usage.transfer_src
                    && plan.usage.transfer_dst
            },
            LoopbackSearchStep::Found(device, format) => {
                &&& device == search.device && device != search.devices
                &&& search.phase == LoopbackSearchPhase::Found(format)
            },
            LoopbackSearchStep::Skip(_) => search.device == search.devices && (
            !search.found_extension_capable_device || search.created_renderer_allocator_pair),
            LoopbackSearchStep::NoPair => search.device == search.devices
                && search.found_extension_capable_device && !search.created_renderer_allocator_pair,
        },
        first.devices == devices && first.device == 0 && first.phase is CheckingExtensions,
        !first.found_extension_capable_device && !first.created_renderer_allocator_pair,
        first.setup_errors@.len() == 0,
{
}

/// Every error of setting up is kept, in order, and nothing else is noted as one.
pub proof fn law_setup_errors_are_kept(
    checked: &mut LoopbackSearch,
    complete: bool,
    paired: &mut LoopbackSearch,
    pair: Result<&VulkanFormatCapabilities, String>,
    tried: &mut LoopbackSearch,
    trial: LoopbackTrial,
)
    requires
        call_ensures(LoopbackSearch::extensions_checked, (checked, complete), ()),
        call_ensures(LoopbackSearch::pair_created, (paired, pair), ()),
        call_ensures(LoopbackSearch::format_tried, (tried, trial), ()),
    ensures
        final(checked).setup_errors@ == old(checked).setup_errors@,
        pair is Ok ==> final(paired).setup_errors@ == old(paired).setup_errors@,
        pair matches Err(error) ==> final(paired).setup_errors@ == old(
            paired,
        ).setup_errors@.push(error),
        trial matches LoopbackTrial::Failed(error) ==> final(tried).setup_errors@ == old(
            tried,
        ).setup_errors@.push(error),
        !(trial is Failed) ==> final(tried).setup_errors@ == old(tried).setup_errors@,
{
}

/// A device is done with as soon as it lacks extensions, has no pair, or has no format left; only
/// then does the search come to the next device. It stays where a buffer was exported.
pub proof fn law_searches_leave_devices_when_done(
    checked: &mut LoopbackSearch,
    complete: bool,
    paired: &mut LoopbackSearch,
    pair: Result<&VulkanFormatCapabilities, String>,
    tried: &mut LoopbackSearch,
    trial: LoopbackTrial,
    formats: Vec<Format>,
    next: usize,
    candidates: Vec<Format>,
)
    requires
        old(checked).device < old(checked).devices,
        old(checked).phase is CheckingExtensions,
        old(tried).phase == (LoopbackSearchPhase::TryingFormats { formats, next }),
        pair is Ok ==> call_ensures(
            VulkanFormatCapabilities::loopback_formats,
            (pair->Ok_0,),
            candidates,
        ),
        call_ensures(LoopbackSearch::extensions_checked, (checked, complete), ()),
        call_ensures(LoopbackSearch::pair_created, (paired, pair), ()),
        call_ensures(LoopbackSearch::format_tried, (tried, trial), ()),
    ensures
        final(checked).device == old(checked).device + if complete {
            0int
        } else {
            1
        },
        final(checked).phase is CreatingPair <==> complete,
        final(checked).found_extension_capable_device == (complete || old(
            checked,
        ).found_extension_capable_device),
        pair is Ok ==> final(paired).created_renderer_allocator_pair,
        pair is Err ==> final(paired).created_renderer_allocator_pair == old(
            paired,
        ).created_renderer_allocator_pair,
        pair is Ok && candidates@.len() > 0 ==> {
            &&& final(paired).device == old(paired).device
            &&& final(paired).phase matches LoopbackSearchPhase::TryingFormats {
                formats: left,
                next: at,
            } && left@ == candidates@ && at == 0
        },
        pair is Err || candidates@.len() == 0 ==> final(paired).device == old(paired).device + 1
            && final(paired).phase is CheckingExtensions,
        trial is Exported ==> final(tried).device == old(tried).device && final(tried).phase
            == LoopbackSearchPhase::Found(formats@[next as int]),
        !(trial is Exported) && next + 1 < formats@.len() ==> {
            &&& final(tried).device == old(tried).device
            &&& final(tried).phase matches LoopbackSearchPhase::TryingFormats {
                formats: left,
                next: at,
            } && left@ == formats@ && at == next + 1
        },
        !(trial is Exported) && next + 1 >= formats@.len() ==> final(tried).device == old(
            tried,
        ).device + 1 && final(tried).phase is CheckingExtensions,
{
}

/// A buffer that was exported is of use exactly if it has the format and the four by four pixels that
/// were asked for, one plane with a stride, and a modifier that the device lists as one that can be
/// sampled, on a renderer that offers no sampled imports to clients.
pub proof fn law_useful_loopback_buffers_are_as_asked_for(
    renderer: VulkanRenderer,
    dmabuf: Dmabuf,
    format: Format,
    r: Result<(), LoopbackMismatch>,
    sampled: Result<crate::dmabuf::VulkanDmabufImportState, VulkanError>,
    drawn: Result<crate::dmabuf::VulkanDmabufImportState, VulkanError>,
)
    requires
        call_ensures(check_loopback_buffer, (&renderer, &dmabuf, format), r),
        call_ensures(
            VulkanRenderer::validate_sampled_dmabuf_import_metadata,
            (&renderer, &dmabuf),
            sampled,
        ),
        call_ensures(validate_dmabuf_render_target_metadata, (&dmabuf,), drawn),
    ensures
        r is Ok <==> {
            &&& dmabuf.format.code == format.code && dmabuf.format.modifier == format.modifier
            &&& dmabuf.size.w == 4 && dmabuf.size.h == 4
            &&& drawn is Ok
            &&& sampled is Ok
            &&& !renderer.capabilities.import.dmabuf
            &&& renderer.capabilities.formats.dmabuf_import@.len() == 0
        },
{
}

/// Timelines are made on the render node of a device where it has one.
pub proof fn law_timelines_prefer_the_render_node(
    render_node: Option<u64>,
    primary_node: Option<u64>,
    r: Option<u64>,
)
    requires
        call_ensures(syncobj_node, (render_node, primary_node), r),
    ensures
        render_node is Some ==> r == render_node,
        render_node is None ==> r == primary_node,
{
}

} // verus!
