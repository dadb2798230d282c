//! Command buffers, the layouts they move images through, and the semaphores they wait for.

use vstd::prelude::*;

use crate::error::VulkanError;
use crate::vk;

verus! {

/// The stages and accesses of a layout transition inside one queue family.
#[derive(Debug, Clone, Copy, PartialEq, Eq, Structural)]
pub struct VulkanImageLayoutTransition {
    pub src_stage: u32,
    pub dst_stage: u32,
    pub src_access: u32,
    pub dst_access: u32,
}

/// A layout that the renderer moves its images through.
#[derive(Debug, Clone, Copy)]
pub struct LayoutUse {
    pub stage: u32,
    pub access: u32,
    /// The usage that an image in this layout must have.
    pub usage: u32,
    /// Why an image without that usage is refused.
    pub refusal: &'static str,
}

impl LayoutUse {
    /// How the renderer uses images in `layout`, if it does.
    pub open spec fn of(layout: i32) -> Option<LayoutUse> {
        if layout == vk::IMAGE_LAYOUT_TRANSFER_DST_OPTIMAL {
            Some(
                LayoutUse {
                    stage: vk::PIPELINE_STAGE_TRANSFER,
                    access: vk::ACCESS_TRANSFER_WRITE,
                    usage: vk::IMAGE_USAGE_TRANSFER_DST,
                    refusal: "image transfer destination usage",
                },
            )
        } else if layout == vk::IMAGE_LAYOUT_TRANSFER_SRC_OPTIMAL {
            Some(
                LayoutUse {
                    stage: vk::PIPELINE_STAGE_TRANSFER,
                    access: vk::ACCESS_TRANSFER_READ,
                    usage: vk::IMAGE_USAGE_TRANSFER_SRC,
                    refusal: "image transfer source usage",
                },
            )
        } else if layout == vk::IMAGE_LAYOUT_SHADER_READ_ONLY_OPTIMAL {
            Some(
                LayoutUse {
                    stage: vk::PIPELINE_STAGE_FRAGMENT_SHADER,
                    access: vk::ACCESS_SHADER_READ,
                    usage: vk::IMAGE_USAGE_SAMPLED,
                    refusal: "image sampled usage",
                },
            )
        } else if layout == vk::IMAGE_LAYOUT_COLOR_ATTACHMENT_OPTIMAL {
            Some(
                LayoutUse {
                    stage: vk::PIPELINE_STAGE_COLOR_ATTACHMENT_OUTPUT,
                    access: vk::ACCESS_COLOR_ATTACHMENT_READ_WRITE,
                    usage: vk::IMAGE_USAGE_COLOR_ATTACHMENT,
                    refusal: "image color attachment usage",
                },
            )
        } else {
            None
        }
    }

    /// The renderer moves images from `from` to `to`.
    pub open spec fn connected(from: i32, to: i32) -> bool {
        ||| to == vk::IMAGE_LAYOUT_TRANSFER_DST_OPTIMAL && (from == vk::IMAGE_LAYOUT_UNDEFINED
            || from == vk::IMAGE_LAYOUT_SHADER_READ_ONLY_OPTIMAL || from
            == vk::IMAGE_LAYOUT_TRANSFER_SRC_OPTIMAL)
        ||| to == vk::IMAGE_LAYOUT_SHADER_READ_ONLY_OPTIMAL && from
            == vk::IMAGE_LAYOUT_TRANSFER_DST_OPTIMAL
        ||| to == vk::IMAGE_LAYOUT_TRANSFER_SRC_OPTIMAL && (from
            == vk::IMAGE_LAYOUT_TRANSFER_DST_OPTIMAL || from
            == vk::IMAGE_LAYOUT_COLOR_ATTACHMENT_OPTIMAL)
        ||| to == vk::IMAGE_LAYOUT_COLOR_ATTACHMENT_OPTIMAL && (from == vk::IMAGE_LAYOUT_UNDEFINED
            || from == vk::IMAGE_LAYOUT_TRANSFER_DST_OPTIMAL || from
            == vk::IMAGE_LAYOUT_TRANSFER_SRC_OPTIMAL)
    }

    /// What `image_layout_transition` answers.
    pub open spec fn transition(from: i32, to: i32, usage: u32) -> Result<
        VulkanImageLayoutTransition,
        VulkanError,
    > {
        if !Self::connected(from, to) {
            VulkanError::unsupported("image layout transition")
        } else {
            let target = Self::of(to)->0;
            if !vk::has_all(usage, target.usage) {
                VulkanError::unsupported(target.refusal)
            } else {
                Ok(
                    VulkanImageLayoutTransition {
                        src_stage: match Self::of(from) {
                            Some(source) => source.stage,
                            None => vk::PIPELINE_STAGE_TOP_OF_PIPE,
                        },
                        dst_stage: target.stage,
                        src_access: match Self::of(from) {
                            Some(source) => source.access,
                            None => vk::ACCESS_NONE,
                        },
                        dst_access: target.access,
                    },
                )
            }
        }
    }
}

fn layout_use(layout: i32) -> (r: Option<LayoutUse>)
    ensures
        r == LayoutUse::of(layout),
{
    if layout == vk::IMAGE_LAYOUT_TRANSFER_DST_OPTIMAL {
        Some(
            LayoutUse {
                stage: vk::PIPELINE_STAGE_TRANSFER,
                access: vk::ACCESS_TRANSFER_WRITE,
                usage: vk::IMAGE_USAGE_TRANSFER_DST,
                refusal: "image transfer destination usage",
            },
        )
    } else if layout == vk::IMAGE_LAYOUT_TRANSFER_SRC_OPTIMAL {
        Some(
            LayoutUse {
                stage: vk::PIPELINE_STAGE_TRANSFER,
                access: vk::ACCESS_TRANSFER_READ,
                usage: vk::IMAGE_USAGE_TRANSFER_SRC,
                refusal: "image transfer source usage",
            },
        )
    } else if layout == vk::IMAGE_LAYOUT_SHADER_READ_ONLY_OPTIMAL {
        Some(
            LayoutUse {
                stage: vk::PIPELINE_STAGE_FRAGMENT_SHADER,
                access: vk::ACCESS_SHADER_READ,
                usage: vk::IMAGE_USAGE_SAMPLED,
                refusal: "image sampled usage",
            },
        )
    } else if layout == vk::IMAGE_LAYOUT_COLOR_ATTACHMENT_OPTIMAL {
        Some(
            LayoutUse {
                stage: vk::PIPELINE_STAGE_COLOR_ATTACHMENT_OUTPUT,
                access: vk::ACCESS_COLOR_ATTACHMENT_READ_WRITE,
                usage: vk::IMAGE_USAGE_COLOR_ATTACHMENT,
                refusal: "image color attachment usage",
            },
        )
    } else {
        None
    }
}

fn layouts_connected(from: i32, to: i32) -> (r: bool)
    ensures
        r == LayoutUse::connected(from, to),
{
    if to == vk::IMAGE_LAYOUT_TRANSFER_DST_OPTIMAL {
        from == vk::IMAGE_LAYOUT_UNDEFINED || from == vk::IMAGE_LAYOUT_SHADER_READ_ONLY_OPTIMAL
            || from == vk::IMAGE_LAYOUT_TRANSFER_SRC_OPTIMAL
    } else if to == vk::IMAGE_LAYOUT_SHADER_READ_ONLY_OPTIMAL {
        from == vk::IMAGE_LAYOUT_TRANSFER_DST_OPTIMAL
    } else if to == vk::IMAGE_LAYOUT_TRANSFER_SRC_OPTIMAL {
        from == vk::IMAGE_LAYOUT_TRANSFER_DST_OPTIMAL || from
            == vk::IMAGE_LAYOUT_COLOR_ATTACHMENT_OPTIMAL
    } else if to == vk::IMAGE_LAYOUT_COLOR_ATTACHMENT_OPTIMAL {
        from == vk::IMAGE_LAYOUT_UNDEFINED || from == vk::IMAGE_LAYOUT_TRANSFER_DST_OPTIMAL || from
            == vk::IMAGE_LAYOUT_TRANSFER_SRC_OPTIMAL
    } else {
        false
    }
}

/// The transition of an image with `usage` from one layout to the next.
pub fn image_layout_transition(from: i32, to: i32, usage: u32) -> (r: Result<
    VulkanImageLayoutTransition,
    VulkanError,
>)
    ensures
        r == LayoutUse::transition(from, to, usage),
{
    if !layouts_connected(from, to) {
        return Err(VulkanError::UnsupportedOperation("image layout transition"));
    }
    let target = match layout_use(to) {
        Some(target) => target,
        None => {
            return Err(VulkanError::UnsupportedOperation("image layout transition"));
        },
    };
    if !vk::contains(usage, target.usage) {
        return Err(VulkanError::UnsupportedOperation(target.refusal));
    }
    let (src_stage, src_access) = match layout_use(from) {
        Some(source) => (source.stage, source.access),
        None => (vk::PIPELINE_STAGE_TOP_OF_PIPE, vk::ACCESS_NONE),
    };
    Ok(
        VulkanImageLayoutTransition {
            src_stage,
            dst_stage: target.stage,
            src_access,
            dst_access: target.access,
        },
    )
}

/// Where a command buffer is in its life.
#[derive(Debug, Clone, Copy, PartialEq, Eq, Structural)]
pub enum VulkanCommandBufferState {
    Initial,
    Recording,
    Executable,
    Submitted,
}

/// A command buffer of one queue family.
#[derive(Debug, Clone, Copy, PartialEq, Eq, Structural)]
pub struct VulkanCommandBuffer {
    pub queue_family_index: u32,
    pub state: VulkanCommandBufferState,
}

impl VulkanCommandBuffer {
    pub fn new(queue_family_index: u32) -> (r: Self)
        ensures
            r == (VulkanCommandBuffer {
                queue_family_index,
                state: VulkanCommandBufferState::Initial,
            }),
    {
        VulkanCommandBuffer { queue_family_index, state: VulkanCommandBufferState::Initial }
    }

    pub fn is_recording(&self) -> (r: bool)
        ensures
            r == (self.state == VulkanCommandBufferState::Recording),
    {
        self.state == VulkanCommandBufferState::Recording
    }

    pub fn is_executable_for_tests(&self) -> (r: bool)
        ensures
            r == (self.state == VulkanCommandBufferState::Executable),
    {
        self.state == VulkanCommandBufferState::Executable
    }

    pub fn is_submitted_for_tests(&self) -> (r: bool)
        ensures
            r == (self.state == VulkanCommandBufferState::Submitted),
    {
        self.state == VulkanCommandBufferState::Submitted
    }

    /// Starts recording; a command buffer is recorded once.
    pub fn begin(&mut self) -> (r: Result<(), VulkanError>)
        ensures
            if old(self).state == VulkanCommandBufferState::Initial {
                r == Ok::<(), VulkanError>(()) && *final(self) == (VulkanCommandBuffer {
                    state: VulkanCommandBufferState::Recording,
                    ..*old(self)
                })
            } else {
                r == VulkanError::unsupported::<()>("command buffer recording") && *final(self)
                    == *old(self)
            },
    {
        if self.state != VulkanCommandBufferState::Initial {
            return Err(VulkanError::UnsupportedOperation("command buffer recording"));
        }
        self.state = VulkanCommandBufferState::Recording;
        Ok(())
    }

    /// Commands can be recorded now.
    pub fn validate_recording(&self) -> (r: Result<(), VulkanError>)
        ensures
            r == (if self.state == VulkanCommandBufferState::Recording {
                Ok(())
            } else {
                VulkanError::unsupported("command buffer recording")
            }),
    {
        if self.state == VulkanCommandBufferState::Recording {
            Ok(())
        } else {
            Err(VulkanError::UnsupportedOperation("command buffer recording"))
        }
    }

    /// Ends recording.
    pub fn end(&mut self) -> (r: Result<(), VulkanError>)
        ensures
            if old(self).state == VulkanCommandBufferState::Recording {
                r == Ok::<(), VulkanError>(()) && *final(self) == (VulkanCommandBuffer {
                    state: VulkanCommandBufferState::Executable,
                    ..*old(self)
                })
            } else {
                r == VulkanError::unsupported::<()>("command buffer recording") && *final(self)
                    == *old(self)
            },
    {
        if self.state != VulkanCommandBufferState::Recording {
            return Err(VulkanError::UnsupportedOperation("command buffer recording"));
        }
        self.state = VulkanCommandBufferState::Executable;
        Ok(())
    }

    /// Hands the command buffer to a queue of `queue_family`.
    pub fn submit(&mut self, queue_family: u32) -> (r: Result<(), VulkanError>)
        ensures
            if old(self).state != VulkanCommandBufferState::Executable {
                r == VulkanError::unsupported::<()>("command buffer executable") && *final(self)
                    == *old(self)
            } else if old(self).queue_family_index != queue_family {
                r == VulkanError::unsupported::<()>("command buffer queue family") && *final(self)
                    == *old(self)
            } else {
                r == Ok::<(), VulkanError>(()) && *final(self) == (VulkanCommandBuffer {
                    state: VulkanCommandBufferState::Submitted,
                    ..*old(self)
                })
            },
    {
        if self.state != VulkanCommandBufferState::Executable {
            return Err(VulkanError::UnsupportedOperation("command buffer executable"));
        }
        if self.queue_family_index != queue_family {
            return Err(VulkanError::UnsupportedOperation("command buffer queue family"));
        }
        self.state = VulkanCommandBufferState::Submitted;
        Ok(())
    }
}

/// Whether work can wait for a semaphore at `stage` at all.
pub fn validate_submit_wait_stage(stage: u32) -> (r: Result<(), VulkanError>)
    ensures
        r == (if stage == 0 {
            VulkanError::unsupported("semaphore wait stage")
        } else {
            Ok(())
        }),
{
    if stage == 0 {
        Err(VulkanError::UnsupportedOperation("semaphore wait stage"))
    } else {
        Ok(())
    }
}

/// What a semaphore holds.
#[derive(Debug, Clone, Copy, PartialEq, Eq, Structural)]
pub enum VulkanSyncFileSemaphorePayloadState {
    Unsignaled,
    Signaled,
    /// Work that signals the semaphore was submitted and not waited for.
    PendingSignal,
}

/// Where the payload of an imported semaphore comes from.
#[derive(Debug, Clone, Copy, PartialEq, Eq, Structural)]
pub enum VulkanSyncFileImport {
    /// There is nothing to wait for.
    AlreadySignaled,
    /// The sync file that an export of a sync point hands out.
    Exported,
}

/// A wait for the semaphore with the number `semaphore`.
#[derive(Debug, Clone, Copy, PartialEq, Eq, Structural)]
pub struct VulkanSemaphoreWait {
    pub semaphore: usize,
    pub stage: u32,
}

/// The semaphores that a submission waits for and signals.
#[derive(Debug, Clone)]
pub struct VulkanSubmitSynchronization {
    pub waits: Vec<VulkanSemaphoreWait>,
    pub signals: Vec<usize>,
}

impl Default for VulkanSubmitSynchronization {
    fn default() -> (r: Self)
        ensures
            r.waits@.len() == 0,
            r.signals@.len() == 0,
    {
        VulkanSubmitSynchronization { waits: Vec::new(), signals: Vec::new() }
    }
}

impl VulkanSubmitSynchronization {
    /// The submission waits for `semaphore` at `stage` too.
    pub fn wait_sync_file(self, semaphore: usize, stage: u32) -> (r: Self)
        ensures
            r.waits@ == self.waits@.push(VulkanSemaphoreWait { semaphore, stage }),
            r.signals@ == self.signals@,
    {
        let mut synchronization = self;
        synchronization.waits.push(VulkanSemaphoreWait { semaphore, stage });
        synchronization
    }

    /// The submission signals `semaphore` too.
    pub fn signal_sync_file(self, semaphore: usize) -> (r: Self)
        ensures
            r.waits@ == self.waits@,
            r.signals@ == self.signals@.push(semaphore),
    {
        let mut synchronization = self;
        synchronization.signals.push(semaphore);
        synchronization
    }

    /// The numbers of all semaphores, those that are waited for first.
    pub open spec fn semaphores(self) -> Seq<usize> {
        self.waits@.map_values(|wait: VulkanSemaphoreWait| wait.semaphore) + self.signals@
    }

    pub open spec fn some_stage_is_empty(self) -> bool {
        exists|i: int| 0 <= i < self.waits@.len() && (#[trigger] self.waits@[i]).stage == 0
    }

    /// `semaphore` is waited for.
    pub open spec fn waits_for(self, semaphore: int) -> bool {
        exists|i: int|
            0 <= i < self.waits@.len() && (#[trigger] self.waits@[i]).semaphore == semaphore
    }

    /// `semaphore` is signaled.
    pub open spec fn signals_to(self, semaphore: int) -> bool {
        exists|i: int| 0 <= i < self.signals@.len() && #[trigger] self.signals@[i] == semaphore
    }

    /// All numbers name one of `count` semaphores.
    pub open spec fn names_only(self, count: nat) -> bool {
        &&& forall|i: int|
            0 <= i < self.waits@.len() ==> (#[trigger] self.waits@[i]).semaphore < count
        &&& forall|i: int| 0 <= i < self.signals@.len() ==> #[trigger] self.signals@[i] < count
    }
}

/// The sync-file semaphores of a device, by number.
#[derive(Debug)]
pub struct VulkanSyncFileSemaphores {
    payloads: Vec<VulkanSyncFileSemaphorePayloadState>,
}

impl View for VulkanSyncFileSemaphores {
    type V = Seq<VulkanSyncFileSemaphorePayloadState>;

    closed spec fn view(&self) -> Seq<VulkanSyncFileSemaphorePayloadState> {
        self.payloads@
    }
}

impl VulkanSyncFileSemaphores {
    /// Some semaphore that the submission waits for holds nothing.
    pub open spec fn some_wait_is_unsignaled(
        payloads: Seq<VulkanSyncFileSemaphorePayloadState>,
        synchronization: VulkanSubmitSynchronization,
    ) -> bool {
        exists|i: int|
            0 <= i < synchronization.waits@.len()
                && payloads[(#[trigger] synchronization.waits@[i]).semaphore as int]
                == VulkanSyncFileSemaphorePayloadState::Unsignaled
    }

    /// Some semaphore that the submission signals holds something already.
    pub open spec fn some_signal_is_taken(
        payloads: Seq<VulkanSyncFileSemaphorePayloadState>,
        synchronization: VulkanSubmitSynchronization,
    ) -> bool {
        exists|i: int|
            0 <= i < synchronization.signals@.len()
                && payloads[#[trigger] synchronization.signals@[i] as int]
                != VulkanSyncFileSemaphorePayloadState::Unsignaled
    }

    /// Why a submission is refused, if it is.
    pub open spec fn submit_refusal(
        payloads: Seq<VulkanSyncFileSemaphorePayloadState>,
        synchronization: VulkanSubmitSynchronization,
    ) -> Option<VulkanError> {
        if synchronization.some_stage_is_empty() {
            Some(VulkanError::UnsupportedOperation("semaphore wait stage"))
        } else if !synchronization.semaphores().no_duplicates() {
            Some(VulkanError::UnsupportedOperation("semaphore submit duplicate"))
        } else if Self::some_wait_is_unsignaled(payloads, synchronization) {
            Some(VulkanError::UnsupportedOperation("semaphore wait payload"))
        } else if Self::some_signal_is_taken(payloads, synchronization) {
            Some(VulkanError::UnsupportedOperation("semaphore signal payload"))
        } else {
            None
        }
    }

    /// The payloads after a submission whose signals end up as `signaled`.
    pub open spec fn submitted(
        payloads: Seq<VulkanSyncFileSemaphorePayloadState>,
        synchronization: VulkanSubmitSynchronization,
        signaled: VulkanSyncFileSemaphorePayloadState,
    ) -> Seq<VulkanSyncFileSemaphorePayloadState> {
        Seq::new(
            payloads.len(),
            |i: int|
                if synchronization.signals_to(i) {
                    signaled
                } else if synchronization.waits_for(i) {
                    VulkanSyncFileSemaphorePayloadState::Unsignaled
                } else {
                    payloads[i]
                },
        )
    }

    pub fn new() -> (r: Self)
        ensures
            r@.len() == 0,
    {
        VulkanSyncFileSemaphores { payloads: Vec::new() }
    }

    /// Adds a semaphore that holds what `_import` is about; it can be waited for at once.
    pub fn add_imported(&mut self, _import: VulkanSyncFileImport) -> (r: usize)
        ensures
            r == old(self)@.len(),
            final(self)@ == old(self)@.push(VulkanSyncFileSemaphorePayloadState::Signaled),
    {
        let number: usize = self.payloads.len();
        self.payloads.push(VulkanSyncFileSemaphorePayloadState::Signaled);
        number
    }

    /// Adds a semaphore that holds nothing and that can be exported once it is signaled.
    pub fn add_exportable(&mut self) -> (r: usize)
        ensures
            r == old(self)@.len(),
            final(self)@ == old(self)@.push(VulkanSyncFileSemaphorePayloadState::Unsignaled),
    {
        let number: usize = self.payloads.len();
        self.payloads.push(VulkanSyncFileSemaphorePayloadState::Unsignaled);
        number
    }

    pub fn payload_state_for_tests(&self, semaphore: usize) -> (r: Option<
        VulkanSyncFileSemaphorePayloadState,
    >)
        ensures
            r == (if semaphore < self@.len() {
                Some(self@[semaphore as int])
            } else {
                None
            }),
    {
        if semaphore < self.payloads.len() {
            Some(self.payloads[semaphore])
        } else {
            None
        }
    }

    /// Takes the payload of `semaphore` out as a sync file.
    pub fn export(&mut self, semaphore: usize) -> (r: Result<(), VulkanError>)
        requires
            semaphore < old(self)@.len(),
        ensures
            if old(self)@[semaphore as int] == VulkanSyncFileSemaphorePayloadState::Unsignaled {
                r == VulkanError::unsupported::<()>("sync-file semaphore payload") && final(self)@
                    == old(self)@
            } else {
                r == Ok::<(), VulkanError>(()) && final(self)@ == old(self)@.update(
                    semaphore as int,
                    VulkanSyncFileSemaphorePayloadState::Unsignaled,
                )
            },
    {
        if self.payloads[semaphore] == VulkanSyncFileSemaphorePayloadState::Unsignaled {
            return Err(VulkanError::UnsupportedOperation("sync-file semaphore payload"));
        }
        self.payloads.set(semaphore, VulkanSyncFileSemaphorePayloadState::Unsignaled);
        Ok(())
    }

    /// Whether a submission may wait for and signal what `synchronization` names.
    pub fn validate_submit(&self, synchronization: &VulkanSubmitSynchronization) -> (r: Result<
        (),
        VulkanError,
    >)
        requires
            synchronization.names_only(self@.len()),
        ensures
            r == (match Self::submit_refusal(self@, *synchronization) {
                Some(error) => Err::<(), VulkanError>(error),
                None => Ok(()),
            }),
    {
        let mut i: usize = 0;
        while i < synchronization.waits.len()
            invariant
                i <= synchronization.waits@.len(),
                forall|j: int| 0 <= j < i ==> (#[trigger] synchronization.waits@[j]).stage != 0,
            decreases synchronization.waits.len() - i,
        {
            if synchronization.waits[i].stage == 0 {
                assert(synchronization.waits@[i as int].stage == 0);
                return Err(VulkanError::UnsupportedOperation("semaphore wait stage"));
            }
            i = i + 1;
        }
        if has_duplicate(synchronization) {
            return Err(VulkanError::UnsupportedOperation("semaphore submit duplicate"));
        }
        let mut i: usize = 0;
        while i < synchronization.waits.len()
            invariant
                i <= synchronization.waits@.len(),
                synchronization.names_only(self@.len()),
                !synchronization.some_stage_is_empty(),
                synchronization.semaphores().no_duplicates(),
                forall|j: int|
                    0 <= j < i ==> self@[(#[trigger] synchronization.waits@[j]).semaphore as int]
                        != VulkanSyncFileSemaphorePayloadState::Unsignaled,
            decreases synchronization.waits.len() - i,
        {
            let semaphore: usize = synchronization.waits[i].semaphore;
            assert(synchronization.waits@[i as int].semaphore == semaphore);
            if self.payloads[semaphore] == VulkanSyncFileSemaphorePayloadState::Unsignaled {
                assert(Self::some_wait_is_unsignaled(self@, *synchronization));
                return Err(VulkanError::UnsupportedOperation("semaphore wait payload"));
            }
            i = i + 1;
        }
        let mut i: usize = 0;
        while i < synchronization.signals.len()
            invariant
                i <= synchronization.signals@.len(),
                synchronization.names_only(self@.len()),
                !synchronization.some_stage_is_empty(),
                synchronization.semaphores().no_duplicates(),
                !Self::some_wait_is_unsignaled(self@, *synchronization),
                forall|j: int|
                    0 <= j < i ==> self@[#[trigger] synchronization.signals@[j] as int]
                        == VulkanSyncFileSemaphorePayloadState::Unsignaled,
            decreases synchronization.signals.len() - i,
        {
            let semaphore: usize = synchronization.signals[i];
            assert(synchronization.signals@[i as int] == semaphore);
            if self.payloads[semaphore] != VulkanSyncFileSemaphorePayloadState::Unsignaled {
                assert(Self::some_signal_is_taken(self@, *synchronization));
                return Err(VulkanError::UnsupportedOperation("semaphore signal payload"));
            }
            i = i + 1;
        }
        Ok(())
    }

    fn apply(
        &mut self,
        synchronization: &VulkanSubmitSynchronization,
        signaled: VulkanSyncFileSemaphorePayloadState,
    )
        requires
            synchronization.names_only(old(self)@.len()),
        ensures
            final(self)@ == Self::submitted(old(self)@, *synchronization, signaled),
    {
        let ghost before = self@;
        let mut i: usize = 0;
        while i < synchronization.waits.len()
            invariant
                i <= synchronization.waits@.len(),
                before == old(self)@,
                self@.len() == before.len(),
                synchronization.names_only(before.len()),
                forall|k: int|
                    0 <= k < before.len() ==> #[trigger] self@[k] == if exists|j: int|
                        0 <= j < i && (#[trigger] synchronization.waits@[j]).semaphore == k {
                        VulkanSyncFileSemaphorePayloadState::Unsignaled
                    } else {
                        before[k]
                    },
            decreases synchronization.waits.len() - i,
        {
            let semaphore: usize = synchronization.waits[i].semaphore;
            assert(synchronization.waits@[i as int].semaphore == semaphore);
            self.payloads.set(semaphore, VulkanSyncFileSemaphorePayloadState::Unsignaled);
            i = i + 1;
        }
        let ghost waited = self@;
        assert forall|k: int| 0 <= k < before.len() implies #[trigger] waited[k]
            == if synchronization.waits_for(k) {
            VulkanSyncFileSemaphorePayloadState::Unsignaled
        } else {
            before[k]
        } by {}
        let mut i: usize = 0;
        while i < synchronization.signals.len()
            invariant
                i <= synchronization.signals@.len(),
                before == old(self)@,
                waited.len() == before.len(),
                self@.len() == before.len(),
                synchronization.names_only(before.len()),
                forall|k: int|
                    0 <= k < before.len() ==> #[trigger] self@[k] == if exists|j: int|
                        0 <= j < i && #[trigger] synchronization.signals@[j] == k {
                        signaled
                    } else {
                        waited[k]
                    },
            decreases synchronization.signals.len() - i,
        {
            let semaphore: usize = synchronization.signals[i];
            assert(synchronization.signals@[i as int] == semaphore);
            self.payloads.set(semaphore, signaled);
            i = i + 1;
        }
        assert forall|k: int| 0 <= k < before.len() implies #[trigger] self@[k]
            == Self::submitted(before, *synchronization, signaled)[k] by {
            assert(self@[k] == if synchronization.signals_to(k) {
                signaled
            } else {
                waited[k]
            });
        }
        assert(self@ =~= Self::submitted(before, *synchronization, signaled));
    }

    /// Records a submission that the caller waits for.
    pub fn submit_and_wait(&mut self, synchronization: &VulkanSubmitSynchronization) -> (r: Result<
        (),
        VulkanError,
    >)
        requires
            synchronization.names_only(old(self)@.len()),
        ensures
            match Self::submit_refusal(old(self)@, *synchronization) {
                Some(error) => r == Err::<(), VulkanError>(error) && final(self)@ == old(self)@,
                None => r == Ok::<(), VulkanError>(()) && final(self)@ == Self::submitted(
                    old(self)@,
                    *synchronization,
                    VulkanSyncFileSemaphorePayloadState::Signaled,
                ),
            },
    {
        match self.validate_submit(synchronization) {
            Ok(()) => {},
            Err(error) => {
                return Err(error);
            },
        }
        self.apply(synchronization, VulkanSyncFileSemaphorePayloadState::Signaled);
        Ok(())
    }

    /// Records a submission that is still running.
    pub fn submit(&mut self, synchronization: &VulkanSubmitSynchronization) -> (r: Result<
        (),
        VulkanError,
    >)
        requires
            synchronization.names_only(old(self)@.len()),
        ensures
            match Self::submit_refusal(old(self)@, *synchronization) {
                Some(error) => r == Err::<(), VulkanError>(error) && final(self)@ == old(self)@,
                None => r == Ok::<(), VulkanError>(()) && final(self)@ == Self::submitted(
                    old(self)@,
                    *synchronization,
                    VulkanSyncFileSemaphorePayloadState::PendingSignal,
                ),
            },
    {
        match self.validate_submit(synchronization) {
            Ok(()) => {},
            Err(error) => {
                return Err(error);
            },
        }
        self.apply(synchronization, VulkanSyncFileSemaphorePayloadState::PendingSignal);
        Ok(())
    }

    /// Records that the work which signals `semaphore` has finished. A payload that was exported
    /// meanwhile does not come back.
    pub fn complete(&mut self, semaphore: usize)
        requires
            semaphore < old(self)@.len(),
        ensures
            final(self)@ == if old(self)@[semaphore as int]
                == VulkanSyncFileSemaphorePayloadState::PendingSignal {
                old(self)@.update(semaphore as int, VulkanSyncFileSemaphorePayloadState::Signaled)
            } else {
                old(self)@
            },
    {
        if self.payloads[semaphore] == VulkanSyncFileSemaphorePayloadState::PendingSignal {
            self.payloads.set(semaphore, VulkanSyncFileSemaphorePayloadState::Signaled);
        }
    }
}

fn has_duplicate(synchronization: &VulkanSubmitSynchronization) -> (r: bool)
    ensures
        r == !synchronization.semaphores().no_duplicates(),
{
    let mut numbers: Vec<usize> = Vec::new();
    let ghost all = synchronization.semaphores();
    let mut i: usize = 0;
    while i < synchronization.waits.len()
        invariant
            i <= synchronization.waits@.len(),
            numbers@.len() == i,
            all == synchronization.semaphores(),
            forall|j: int| 0 <= j < i ==> #[trigger] numbers@[j] == all[j],
        decreases synchronization.waits.len() - i,
    {
        numbers.push(synchronization.waits[i].semaphore);
        i = i + 1;
    }
    let waits: usize = i;
    let mut i: usize = 0;
    while i < synchronization.signals.len()
        invariant
            i <= synchronization.signals@.len(),
            waits == synchronization.waits@.len(),
            numbers@.len() == waits + i,
            all == synchronization.semaphores(),
            forall|j: int| 0 <= j < waits + i ==> #[trigger] numbers@[j] == all[j],
        decreases synchronization.signals.len() - i,
    {
        numbers.push(synchronization.signals[i]);
        i = i + 1;
    }
    assert(numbers@ =~= all);
    let mut i: usize = 0;
    while i < numbers.len()
        invariant
            i <= numbers@.len(),
            numbers@ == all,
            all == synchronization.semaphores(),
            forall|a: int, b: int|
                0 <= a < b < i ==> #[trigger] numbers@[a] != #[trigger] numbers@[b],
        decreases numbers.len() - i,
    {
        let mut j: usize = 0;
        while j < i
            invariant
                j <= i < numbers@.len(),
                numbers@ == all,
                all == synchronization.semaphores(),
                forall|a: int, b: int|
                    0 <= a < b < i ==> #[trigger] numbers@[a] != #[trigger] numbers@[b],
                forall|a: int| 0 <= a < j ==> #[trigger] numbers@[a] != numbers@[i as int],
            decreases i - j,
        {
            if numbers[j] == numbers[i] {
                assert(all[j as int] == all[i as int]);
                return true;
            }
            j = j + 1;
        }
        i = i + 1;
    }
    false
}

/// A semaphore that a submission has signaled can be exported once, and only once.
pub proof fn law_signal_is_exported_once(
    payloads: Seq<VulkanSyncFileSemaphorePayloadState>,
    synchronization: VulkanSubmitSynchronization,
    signaled: VulkanSyncFileSemaphorePayloadState,
    semaphore: int,
)
    requires
        0 <= semaphore < payloads.len(),
        synchronization.signals_to(semaphore),
        signaled != VulkanSyncFileSemaphorePayloadState::Unsignaled,
    ensures
        ({
            let after = VulkanSyncFileSemaphores::submitted(payloads, synchronization, signaled);
            let exported = after.update(
                semaphore,
                VulkanSyncFileSemaphorePayloadState::Unsignaled,
            );
            &&& after[semaphore] != VulkanSyncFileSemaphorePayloadState::Unsignaled
            &&& exported[semaphore] == VulkanSyncFileSemaphorePayloadState::Unsignaled
        }),
{
}

/// After a submission that was accepted, its signals cannot be signaled again and its waits
/// cannot be waited for again: the same submission is refused.
pub proof fn law_submission_is_not_repeatable(
    payloads: Seq<VulkanSyncFileSemaphorePayloadState>,
    synchronization: VulkanSubmitSynchronization,
    signaled: VulkanSyncFileSemaphorePayloadState,
)
    requires
        synchronization.names_only(payloads.len()),
        synchronization.semaphores().len() > 0,
        signaled != VulkanSyncFileSemaphorePayloadState::Unsignaled,
        VulkanSyncFileSemaphores::submit_refusal(payloads, synchronization) is None,
    ensures
        VulkanSyncFileSemaphores::submit_refusal(
            VulkanSyncFileSemaphores::submitted(payloads, synchronization, signaled),
            synchronization,
        ) is Some,
{
    let after = VulkanSyncFileSemaphores::submitted(payloads, synchronization, signaled);
    if synchronization.signals@.len() > 0 {
        let k = synchronization.signals@[0] as int;
        assert(synchronization.signals_to(k));
        assert(after[k] == signaled);
        assert(VulkanSyncFileSemaphores::some_signal_is_taken(after, synchronization));
    } else {
        assert(synchronization.waits@.len() > 0);
        let k = synchronization.waits@[0].semaphore as int;
        assert(synchronization.waits_for(k));
        assert(!synchronization.signals_to(k));
        assert(after[k] == VulkanSyncFileSemaphorePayloadState::Unsignaled);
        assert(VulkanSyncFileSemaphores::some_wait_is_unsignaled(after, synchronization));
    }
}

/// What comes after a transition into a layout waits for it just where what comes before a
/// transition out of that layout is waited for: stages and accesses belong to the layout.
pub proof fn law_transitions_chain(
    a: i32,
    b: i32,
    c: i32,
    usage: u32,
    first: VulkanImageLayoutTransition,
    second: VulkanImageLayoutTransition,
)
    requires
        call_ensures(image_layout_transition, (a, b, usage), Ok(first)),
        call_ensures(image_layout_transition, (b, c, usage), Ok(second)),
    ensures
        second.src_stage == first.dst_stage,
        second.src_access == first.dst_access,
{
}

/// Which transitions there are: into a copy destination from nothing, from sampling and from a copy
/// source; into sampling from a copy destination; into a copy source from a copy destination and
/// from drawing; into drawing from nothing and from both sides of a copy. The image must have the
/// usage that the new layout is for, and the new use waits for the transition.
pub proof fn law_transitions_lead_to_a_use_of_the_image(
    from: i32,
    to: i32,
    usage: u32,
    r: Result<VulkanImageLayoutTransition, VulkanError>,
)
    requires
        call_ensures(image_layout_transition, (from, to, usage), r),
    ensures
        r is Ok <==> {
            ||| to == 7 && (from == 0 || from == 5 || from == 6) && usage & 0x2 != 0
            ||| to == 5 && from == 7 && usage & 0x4 != 0
            ||| to == 6 && (from == 7 || from == 2) && usage & 0x1 != 0
            ||| to == 2 && (from == 0 || from == 7 || from == 6) && usage & 0x10 != 0
        },
        r matches Ok(transition) ==> {
            &&& from == 0 ==> transition.src_access == 0 && transition.src_stage == 0x1
            &&& to == 7 ==> transition.dst_stage == 0x1000 && transition.dst_access == 0x1000
            &&& to == 6 ==> transition.dst_stage == 0x1000 && transition.dst_access == 0x800
            &&& to == 5 ==> transition.dst_stage == 0x80 && transition.dst_access == 0x20
            &&& to == 2 ==> transition.dst_stage == 0x400 && transition.dst_access == 0x180
            &&& from == 7 ==> transition.src_stage == 0x1000 && transition.src_access == 0x1000
            &&& from == 6 ==> transition.src_stage == 0x1000 && transition.src_access == 0x800
            &&& from == 5 ==> transition.src_stage == 0x80 && transition.src_access == 0x20
            &&& from == 2 ==> transition.src_stage == 0x400 && transition.src_access == 0x180
        },
{
    assert((usage & 0x1 == 0x1) == (usage & 0x1 != 0)) by (bit_vector);
    assert((usage & 0x2 == 0x2) == (usage & 0x2 != 0)) by (bit_vector);
    assert((usage & 0x4 == 0x4) == (usage & 0x4 != 0)) by (bit_vector);
    assert((usage & 0x10 == 0x10) == (usage & 0x10 != 0)) by (bit_vector);
}

/// A command buffer is recorded once, then submitted once, to its own queue family: a new one can
/// be begun, one that was begun can be ended, and one that was ended can be submitted. Everything
/// else is refused and changes nothing.
pub proof fn law_command_buffers_are_recorded_and_submitted_once(
    begun: &mut VulkanCommandBuffer,
    begin: Result<(), VulkanError>,
    ended: &mut VulkanCommandBuffer,
    end: Result<(), VulkanError>,
    submitted: &mut VulkanCommandBuffer,
    queue_family: u32,
    submit: Result<(), VulkanError>,
    buffer: VulkanCommandBuffer,
    valid: Result<(), VulkanError>,
)
    requires
        call_ensures(VulkanCommandBuffer::begin, (begun,), begin),
        call_ensures(VulkanCommandBuffer::end, (ended,), end),
        call_ensures(VulkanCommandBuffer::submit, (submitted, queue_family), submit),
        call_ensures(VulkanCommandBuffer::validate_recording, (&buffer,), valid),
    ensures
        begin is Ok <==> old(begun).state is Initial,
        begin is Ok ==> final(begun).state is Recording,
        end is Ok <==> old(ended).state is Recording,
        end is Ok ==> final(ended).state is Executable,
        submit is Ok <==> old(submitted).state is Executable && old(submitted).queue_family_index
            == queue_family,
        submit is Ok ==> final(submitted).state is Submitted,
        valid is Ok <==> buffer.state is Recording,
        begin is Err ==> *final(begun) == *old(begun),
        end is Err ==> *final(ended) == *old(ended),
        submit is Err ==> *final(submitted) == *old(submitted),
        final(begun).queue_family_index == old(begun).queue_family_index,
        final(ended).queue_family_index == old(ended).queue_family_index,
        final(submitted).queue_family_index == old(submitted).queue_family_index,
{
}

/// Waits and signals are added to a submission one by one, in their order, and neither displaces
/// the other.
pub proof fn law_submissions_wait_and_signal_as_asked(
    synchronization: VulkanSubmitSynchronization,
    semaphore: usize,
    stage: u32,
    waiting: VulkanSubmitSynchronization,
    signaling: VulkanSubmitSynchronization,
)
    requires
        call_ensures(
            VulkanSubmitSynchronization::wait_sync_file,
            (synchronization, semaphore, stage),
            waiting,
        ),
        call_ensures(
            VulkanSubmitSynchronization::signal_sync_file,
            (synchronization, semaphore),
            signaling,
        ),
    ensures
        waiting.waits@.drop_last() =~= synchronization.waits@,
        waiting.waits@.len() == synchronization.waits@.len() + 1,
        waiting.waits@.last().semaphore == semaphore && waiting.waits@.last().stage == stage,
        waiting.signals@ == synchronization.signals@,
        signaling.signals@.drop_last() =~= synchronization.signals@,
        signaling.signals@.len() == synchronization.signals@.len() + 1,
        signaling.signals@.last() == semaphore,
        signaling.waits@ == synchronization.waits@,
{
}

/// A submission is accepted exactly if every wait has a stage and waits for something that was or
/// will be signaled, every signal goes to a semaphore that holds nothing, and no semaphore is named
/// twice.
pub proof fn law_submissions_are_refused_for_a_reason(
    semaphores: VulkanSyncFileSemaphores,
    synchronization: VulkanSubmitSynchronization,
    r: Result<(), VulkanError>,
)
    requires
        call_ensures(VulkanSyncFileSemaphores::validate_submit, (&semaphores, &synchronization), r),
    ensures
        r is Ok <==> {
            &&& forall|i: int|
                0 <= i < synchronization.waits@.len() ==> (
                #[trigger] synchronization.waits@[i]).stage != 0
                    && !(semaphores@[synchronization.waits@[i].semaphore as int] is Unsignaled)
            &&& forall|i: int|
                0 <= i < synchronization.signals@.len()
                    ==> semaphores@[#[trigger] synchronization.signals@[i] as int] is Unsignaled
            &&& forall|i: int, j: int|
                0 <= i < j < synchronization.waits@.len() ==> (
                #[trigger] synchronization.waits@[i]).semaphore != (
                #[trigger] synchronization.waits@[j]).semaphore
            &&& forall|i: int, j: int|
                0 <= i < j < synchronization.signals@.len()
                    ==> #[trigger] synchronization.signals@[i]
                    != #[trigger] synchronization.signals@[j]
            &&& forall|i: int, j: int|
                0 <= i < synchronization.waits@.len() && 0 <= j < synchronization.signals@.len()
                    ==> (#[trigger] synchronization.waits@[i]).semaphore
                    != #[trigger] synchronization.signals@[j]
        },
{
    let all = synchronization.semaphores();
    let waits = synchronization.waits@;
    let signals = synchronization.signals@;
    let mapped = waits.map_values(|wait: VulkanSemaphoreWait| wait.semaphore);
    assert(all =~= mapped + signals);
    assert forall|i: int| 0 <= i < waits.len() implies #[trigger] all[i] == waits[i].semaphore by {}
    assert forall|j: int| 0 <= j < signals.len() implies all[waits.len() + j]
        == #[trigger] signals[j] by {}
    if all.no_duplicates() {
        assert forall|i: int, j: int| 0 <= i < j < waits.len() implies (
        #[trigger] waits[i]).semaphore != (#[trigger] waits[j]).semaphore by {
            assert(all[i] != all[j]);
        }
        assert forall|i: int, j: int| 0 <= i < j < signals.len() implies #[trigger] signals[i]
            != #[trigger] signals[j] by {
            assert(all[waits.len() + i] != all[waits.len() + j]);
        }
        assert forall|i: int, j: int| 0 <= i < waits.len() && 0 <= j < signals.len() implies (
        #[trigger] waits[i]).semaphore != #[trigger] signals[j] by {
            assert(all[i] != all[waits.len() + j]);
        }
    } else {
        let (a, b) = choose|a: int, b: int|
            0 <= a < all.len() && 0 <= b < all.len() && a != b && all[a] == all[b];
        let (i, j) = if a < b {
            (a, b)
        } else {
            (b, a)
        };
        if j < waits.len() {
            assert(waits[i].semaphore == waits[j].semaphore);
        } else if i < waits.len() {
            assert(waits[i].semaphore == signals[j - waits.len()]);
        } else {
            assert(signals[i - waits.len()] == signals[j - waits.len()]);
        }
    }
    if synchronization.some_stage_is_empty() {
        let i = choose|i: int| 0 <= i < waits.len() && (#[trigger] waits[i]).stage == 0;
        assert(waits[i].stage == 0);
    }
    if VulkanSyncFileSemaphores::some_wait_is_unsignaled(semaphores@, synchronization) {
        let i = choose|i: int|
            0 <= i < waits.len() && semaphores@[(#[trigger] waits[i]).semaphore as int]
                == VulkanSyncFileSemaphorePayloadState::Unsignaled;
        assert(semaphores@[waits[i].semaphore as int] is Unsignaled);
    }
    if VulkanSyncFileSemaphores::some_signal_is_taken(semaphores@, synchronization) {
        let i = choose|i: int|
            0 <= i < signals.len() && semaphores@[#[trigger] signals[i] as int]
                != VulkanSyncFileSemaphorePayloadState::Unsignaled;
        assert(!(semaphores@[signals[i] as int] is Unsignaled));
    }
}

/// A submission that was accepted takes what it waits for and leaves what it signals: signaled if it
/// was waited for, and pending if it is still running. Other semaphores hold what they held, and so
/// do all of them where the submission is refused.
pub proof fn law_submissions_take_and_leave_payloads(
    waited: &mut VulkanSyncFileSemaphores,
    running: &mut VulkanSyncFileSemaphores,
    synchronization: VulkanSubmitSynchronization,
    wait: Result<(), VulkanError>,
    run: Result<(), VulkanError>,
    valid: Result<(), VulkanError>,
    k: int,
)
    requires
        call_ensures(
            VulkanSyncFileSemaphores::submit_and_wait,
            (waited, &synchronization),
            wait,
        ),
        call_ensures(VulkanSyncFileSemaphores::submit, (running, &synchronization), run),
        old(running)@ == old(waited)@,
        call_ensures(VulkanSyncFileSemaphores::validate_submit, (old(waited), &synchronization), valid),
        0 <= k < old(waited)@.len(),
    ensures
        wait == valid,
        run == valid,
        final(waited)@.len() == old(waited)@.len() && final(running)@.len() == old(waited)@.len(),
        valid is Err ==> final(waited)@ == old(waited)@ && final(running)@ == old(waited)@,
        valid is Ok ==> {
            let signaled = exists|i: int|
                0 <= i < synchronization.signals@.len() && #[trigger] synchronization.signals@[i]
                    == k;
            let taken = exists|i: int|
                0 <= i < synchronization.waits@.len() && (
                #[trigger] synchronization.waits@[i]).semaphore == k;
            &&& signaled ==> final(waited)@[k] is Signaled && final(running)@[k] is PendingSignal
            &&& taken && !signaled ==> final(waited)@[k] is Unsignaled && final(running)@[k]
                is Unsignaled
            &&& !taken && !signaled ==> final(waited)@[k] == old(waited)@[k] && final(running)@[k]
                == old(waited)@[k]
        },
{
}

/// An imported semaphore can be waited for at once, one that is to be exported holds nothing yet;
/// each gets the next number, and the others keep what they hold. A payload is exported exactly if
/// there is one, and is gone then. Work that finishes signals what it was to signal.
pub proof fn law_semaphores_hold_one_payload(
    imported: &mut VulkanSyncFileSemaphores,
    import: VulkanSyncFileImport,
    imported_number: usize,
    exportable: &mut VulkanSyncFileSemaphores,
    exportable_number: usize,
    exported: &mut VulkanSyncFileSemaphores,
    completed: &mut VulkanSyncFileSemaphores,
    semaphore: usize,
    export: Result<(), VulkanError>,
    k: int,
)
    requires
        call_ensures(
            VulkanSyncFileSemaphores::add_imported,
            (imported, import),
            imported_number,
        ),
        call_ensures(VulkanSyncFileSemaphores::add_exportable, (exportable,), exportable_number),
        call_ensures(VulkanSyncFileSemaphores::export, (exported, semaphore), export),
        call_ensures(VulkanSyncFileSemaphores::complete, (completed, semaphore), ()),
        semaphore < old(exported)@.len(),
        semaphore < old(completed)@.len(),
    ensures
        imported_number == old(imported)@.len() && final(imported)@[imported_number as int]
            is Signaled,
        exportable_number == old(exportable)@.len() && final(exportable)@[exportable_number as int]
            is Unsignaled,
        0 <= k < old(imported)@.len() ==> final(imported)@[k] == old(imported)@[k],
        0 <= k < old(exportable)@.len() ==> final(exportable)@[k] == old(exportable)@[k],
        export is Ok <==> !(old(exported)@[semaphore as int] is Unsignaled),
        final(exported)@[semaphore as int] is Unsignaled,
        0 <= k < old(exported)@.len() && k != semaphore ==> final(exported)@[k] == old(
            exported,
        )@[k],
        old(completed)@[semaphore as int] is PendingSignal ==> final(completed)@[semaphore as int]
            is Signaled,
        !(old(completed)@[semaphore as int] is PendingSignal) ==> final(completed)@[semaphore as int]
            == old(completed)@[semaphore as int],
        0 <= k < old(completed)@.len() && k != semaphore ==> final(completed)@[k] == old(
            completed,
        )@[k],
{
}

/// Nothing can wait at no stage; at any other it can.
pub proof fn law_waits_have_a_stage(stage: u32, r: Result<(), VulkanError>)
    requires
        call_ensures(validate_submit_wait_stage, (stage,), r),
    ensures
        r is Ok <==> stage > 0,
        r is Err ==> r == VulkanError::unsupported::<()>("semaphore wait stage"),
{
}

/// A command buffer is in one state at a time, and starts out in none of those in which it could be
/// recorded into, submitted or waited for. New semaphores and submissions are empty.
pub proof fn law_command_buffers_are_in_one_state(
    buffer: VulkanCommandBuffer,
    recording: bool,
    executable: bool,
    submitted: bool,
    family: u32,
    first: VulkanCommandBuffer,
    semaphores: VulkanSyncFileSemaphores,
    none: VulkanSyncFileSemaphores,
    semaphore: usize,
    payload: Option<VulkanSyncFileSemaphorePayloadState>,
    submission: VulkanSubmitSynchronization,
)
    requires
        call_ensures(VulkanCommandBuffer::is_recording, (&buffer,), recording),
        call_ensures(VulkanCommandBuffer::is_executable_for_tests, (&buffer,), executable),
        call_ensures(VulkanCommandBuffer::is_submitted_for_tests, (&buffer,), submitted),
        call_ensures(VulkanCommandBuffer::new, (family,), first),
        call_ensures(VulkanSyncFileSemaphores::new, (), none),
        call_ensures(
            VulkanSyncFileSemaphores::payload_state_for_tests,
            (&semaphores, semaphore),
            payload,
        ),
        call_ensures(<VulkanSubmitSynchronization as Default>::default, (), submission),
    ensures
        recording <==> buffer.state is Recording,
        executable <==> buffer.state is Executable,
        submitted <==> buffer.state is Submitted,
        first.state is Initial && first.queue_family_index == family,
        none@.len() == 0,
        payload is Some <==> semaphore < semaphores@.len(),
        payload is Some ==> payload->0 == semaphores@[semaphore as int],
        submission.waits@.len() == 0 && submission.signals@.len() == 0,
{
}

/// Command buffers that are used out of turn, and submissions that make no sense, are unsupported.
pub proof fn law_misused_commands_are_unsupported(
    begun: &mut VulkanCommandBuffer,
    begin: Result<(), VulkanError>,
    ended: &mut VulkanCommandBuffer,
    end: Result<(), VulkanError>,
    semaphores: VulkanSyncFileSemaphores,
    synchronization: VulkanSubmitSynchronization,
    submit: Result<(), VulkanError>,
)
    requires
        call_ensures(VulkanCommandBuffer::begin, (begun,), begin),
        call_ensures(VulkanCommandBuffer::end, (ended,), end),
        call_ensures(
            VulkanSyncFileSemaphores::validate_submit,
            (&semaphores, &synchronization),
            submit,
        ),
    ensures
        begin is Err ==> begin->Err_0 is UnsupportedOperation && *final(begun) == *old(begun),
        end is Err ==> end->Err_0 is UnsupportedOperation && *final(ended) == *old(ended),
        submit is Err ==> submit->Err_0 is UnsupportedOperation,
{
}

} // verus!
