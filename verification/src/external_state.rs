//! What is known about the state in which clients have left their buffers.

use vstd::prelude::*;

use crate::dmabuf::Dmabuf;
use crate::error::VulkanError;
use crate::evidence::{
    SampledDmabufExternalImageState, SampledDmabufKnownLayoutEvidence, SampledDmabufLayoutEvidence,
    SampledDmabufReleaseOwnership, SampledDmabufReleaseOwnershipEvidence,
    SampledDmabufReleasePointEvidence, SampledDmabufWaylandCurrentReacquireLayoutEvidence,
    SampledDmabufWaylandExternalStateEvidenceSources, SampledDmabufWaylandExternalStateUse,
    SampledDmabufWaylandFirstImportLayoutEvidence, SampledDmabufWaylandForeignGeneralEvidence,
    SampledDmabufWaylandLayoutHistory, SampledDmabufWaylandTextureCacheReleaseLifecycle,
    SampledDmabufWaylandTextureCacheReplacementReleaseReachability,
};
use crate::identity::{ContextId, IdentitySource};
use crate::policy::SampledDmabufWaylandVulkanInteropPolicyContext;
use crate::renderer::VulkanRenderer;

verus! {

impl SampledDmabufWaylandForeignGeneralEvidence {
    /// The statement is about `dmabuf` and good for importing it with `history`.
    pub open spec fn checked(
        self,
        dmabuf: Dmabuf,
        history: SampledDmabufWaylandLayoutHistory,
    ) -> Result<(), VulkanError> {
        if self.dmabuf != dmabuf.weak_spec() {
            VulkanError::unsupported("sampled dmabuf Wayland external-state identity")
        } else if self.state != SampledDmabufExternalImageState::foreign_general_spec() {
            VulkanError::unsupported("sampled dmabuf Wayland external-state")
        } else if self.state_use.history_spec() != history {
            VulkanError::unsupported("sampled dmabuf Wayland external-state use")
        } else {
            Ok(())
        }
    }

    fn check(&self, dmabuf: &Dmabuf, history: SampledDmabufWaylandLayoutHistory) -> (r: Result<
        (),
        VulkanError,
    >)
        ensures
            r == self.checked(*dmabuf, history),
    {
        if !self.is_for_dmabuf(dmabuf) {
            return Err(
                VulkanError::UnsupportedOperation("sampled dmabuf Wayland external-state identity"),
            );
        }
        if !self.state.is_foreign_general() {
            return Err(VulkanError::UnsupportedOperation("sampled dmabuf Wayland external-state"));
        }
        if self.state_use.history() != history {
            return Err(VulkanError::UnsupportedOperation("sampled dmabuf Wayland external-state use"));
        }
        Ok(())
    }

    /// Why nothing is known about a buffer with `history` that nobody has said anything about.
    pub open spec fn absent<T>(history: SampledDmabufWaylandLayoutHistory) -> Result<
        T,
        VulkanError,
    > {
        match history {
            SampledDmabufWaylandLayoutHistory::LocallyAcquired => {
                VulkanError::lacking("sampled dmabuf Wayland Vulkan unreleased local acquire")
            },
            SampledDmabufWaylandLayoutHistory::NoRendererHistory => {
                VulkanError::lacking("sampled dmabuf Wayland Vulkan first-import layout policy")
            },
            SampledDmabufWaylandLayoutHistory::ReleasedByRendererToForeignGeneral => {
                VulkanError::lacking("sampled dmabuf Wayland Vulkan current reacquire layout policy")
            },
        }
    }
}

/// Drawing conclusions from what was said about a buffer.
impl VulkanRenderer {
    /// What a statement about `dmabuf` gives for importing it with `history`.
    pub fn sampled_dmabuf_wayland_external_state_evidence_sources(
        &self,
        dmabuf: &Dmabuf,
        history: SampledDmabufWaylandLayoutHistory,
        statement: Option<&SampledDmabufWaylandForeignGeneralEvidence>,
    ) -> (r: Result<SampledDmabufWaylandExternalStateEvidenceSources, VulkanError>)
        ensures
            r == (if history == SampledDmabufWaylandLayoutHistory::LocallyAcquired
                || statement is None {
                SampledDmabufWaylandForeignGeneralEvidence::absent(history)
            } else {
                match statement->0.checked(*dmabuf, history) {
                    Err(error) => Err(error),
                    Ok(()) => Ok(
                        SampledDmabufWaylandExternalStateEvidenceSources::of(
                            dmabuf.weak_spec(),
                            statement->0.state_use,
                        ),
                    ),
                }
            }),
    {
        if history == SampledDmabufWaylandLayoutHistory::LocallyAcquired {
            return Err(VulkanError::MissingCapability("sampled dmabuf Wayland Vulkan unreleased local acquire"));
        }
        let statement = match statement {
            Some(statement) => statement,
            None => {
                return match history {
                    SampledDmabufWaylandLayoutHistory::NoRendererHistory => Err(
                        VulkanError::MissingCapability("sampled dmabuf Wayland Vulkan first-import layout policy"),
                    ),
                    _ => Err(
                        VulkanError::MissingCapability("sampled dmabuf Wayland Vulkan current reacquire layout policy"),
                    ),
                };
            },
        };
        match statement.check(dmabuf, history) {
            Ok(()) => {},
            Err(error) => {
                return Err(error);
            },
        }
        let weak = dmabuf.weak();
        match statement.state_use {
            SampledDmabufWaylandExternalStateUse::FirstImport => Ok(
                SampledDmabufWaylandExternalStateEvidenceSources {
                    first_import_layout: Some(
                        SampledDmabufWaylandFirstImportLayoutEvidence { dmabuf: weak },
                    ),
                    first_import_foreign_general: Some(
                        SampledDmabufKnownLayoutEvidence::foreign_general(weak),
                    ),
                    current_reacquire_layout: None,
                    current_reacquire_foreign_general: None,
                },
            ),
            SampledDmabufWaylandExternalStateUse::CurrentReacquire => Ok(
                SampledDmabufWaylandExternalStateEvidenceSources {
                    first_import_layout: None,
                    first_import_foreign_general: None,
                    current_reacquire_layout: Some(
                        SampledDmabufWaylandCurrentReacquireLayoutEvidence { dmabuf: weak },
                    ),
                    current_reacquire_foreign_general: Some(
                        SampledDmabufKnownLayoutEvidence::foreign_general(weak),
                    ),
                },
            ),
        }
    }

    /// The history that an import is checked with: what was said about the buffer counts for more
    /// than what the renderer remembers, unless the renderer still holds the buffer.
    pub fn sampled_dmabuf_wayland_policy_layout_history(
        &self,
        history: SampledDmabufWaylandLayoutHistory,
        statement: Option<&SampledDmabufWaylandForeignGeneralEvidence>,
    ) -> (r: Result<SampledDmabufWaylandLayoutHistory, VulkanError>)
        ensures
            r == (if history == SampledDmabufWaylandLayoutHistory::LocallyAcquired {
                VulkanError::lacking("sampled dmabuf Wayland Vulkan unreleased local acquire")
            } else {
                match statement {
                    Some(statement) => Ok(statement.state_use.history_spec()),
                    None => Ok(history),
                }
            }),
    {
        if history == SampledDmabufWaylandLayoutHistory::LocallyAcquired {
            return Err(VulkanError::MissingCapability("sampled dmabuf Wayland Vulkan unreleased local acquire"));
        }
        match statement {
            Some(statement) => Ok(statement.state_use.history()),
            None => Ok(history),
        }
    }

    /// The layout at the first import, where it is one.
    pub fn sampled_dmabuf_wayland_first_import_layout_evidence(
        &self,
        dmabuf: &Dmabuf,
        history: SampledDmabufWaylandLayoutHistory,
        statement: Option<&SampledDmabufWaylandForeignGeneralEvidence>,
    ) -> (r: Result<Option<SampledDmabufWaylandFirstImportLayoutEvidence>, VulkanError>)
        ensures
            r == (if history != SampledDmabufWaylandLayoutHistory::NoRendererHistory {
                Ok(None)
            } else {
                match statement {
                    None => VulkanError::lacking("sampled dmabuf Wayland Vulkan first-import layout policy"),
                    Some(statement) => match statement.checked(*dmabuf, history) {
                        Err(error) => Err(error),
                        Ok(()) => Ok(
                            Some(
                                SampledDmabufWaylandFirstImportLayoutEvidence {
                                    dmabuf: dmabuf.weak_spec(),
                                },
                            ),
                        ),
                    },
                }
            }),
    {
        if history != SampledDmabufWaylandLayoutHistory::NoRendererHistory {
            return Ok(None);
        }
        match statement {
            None => Err(VulkanError::MissingCapability("sampled dmabuf Wayland Vulkan first-import layout policy")),
            Some(statement) => match statement.check(dmabuf, history) {
                Err(error) => Err(error),
                Ok(()) => Ok(
                    Some(SampledDmabufWaylandFirstImportLayoutEvidence { dmabuf: dmabuf.weak() }),
                ),
            },
        }
    }

    /// The state at the first import, where it is one.
    pub fn sampled_dmabuf_wayland_first_import_foreign_general_evidence(
        &self,
        dmabuf: &Dmabuf,
        history: SampledDmabufWaylandLayoutHistory,
        statement: Option<&SampledDmabufWaylandForeignGeneralEvidence>,
    ) -> (r: Result<Option<SampledDmabufKnownLayoutEvidence>, VulkanError>)
        ensures
            r == (if history != SampledDmabufWaylandLayoutHistory::NoRendererHistory {
                Ok(None)
            } else {
                match statement {
                    None => VulkanError::lacking("sampled dmabuf Wayland Vulkan foreign GENERAL policy"),
                    Some(statement) => match statement.checked(*dmabuf, history) {
                        Err(error) => Err(error),
                        Ok(()) => Ok(
                            Some(
                                SampledDmabufKnownLayoutEvidence::foreign_general_spec(
                                    dmabuf.weak_spec(),
                                ),
                            ),
                        ),
                    },
                }
            }),
    {
        if history != SampledDmabufWaylandLayoutHistory::NoRendererHistory {
            return Ok(None);
        }
        match statement {
            None => Err(VulkanError::MissingCapability("sampled dmabuf Wayland Vulkan foreign GENERAL policy")),
            Some(statement) => match statement.check(dmabuf, history) {
                Err(error) => Err(error),
                Ok(()) => Ok(Some(SampledDmabufKnownLayoutEvidence::foreign_general(dmabuf.weak()))),
            },
        }
    }

    /// The layout of a buffer that comes back, where it does.
    pub fn sampled_dmabuf_wayland_current_reacquire_layout_evidence(
        &self,
        dmabuf: &Dmabuf,
        history: SampledDmabufWaylandLayoutHistory,
        statement: Option<&SampledDmabufWaylandForeignGeneralEvidence>,
    ) -> (r: Result<Option<SampledDmabufWaylandCurrentReacquireLayoutEvidence>, VulkanError>)
        ensures
            r == (match history {
                SampledDmabufWaylandLayoutHistory::NoRendererHistory => Ok(None),
                SampledDmabufWaylandLayoutHistory::LocallyAcquired => {
                    VulkanError::lacking("sampled dmabuf Wayland Vulkan unreleased local acquire")
                },
                SampledDmabufWaylandLayoutHistory::ReleasedByRendererToForeignGeneral => {
                    match statement {
                        None => VulkanError::lacking("sampled dmabuf Wayland Vulkan current reacquire layout policy"),
                        Some(statement) => match statement.checked(*dmabuf, history) {
                            Err(error) => Err(error),
                            Ok(()) => Ok(
                                Some(
                                    SampledDmabufWaylandCurrentReacquireLayoutEvidence {
                                        dmabuf: dmabuf.weak_spec(),
                                    },
                                ),
                            ),
                        },
                    }
                },
            }),
    {
        match history {
            SampledDmabufWaylandLayoutHistory::NoRendererHistory => Ok(None),
            SampledDmabufWaylandLayoutHistory::LocallyAcquired => Err(
                VulkanError::MissingCapability("sampled dmabuf Wayland Vulkan unreleased local acquire"),
            ),
            SampledDmabufWaylandLayoutHistory::ReleasedByRendererToForeignGeneral => {
                match statement {
                    None => Err(
                        VulkanError::MissingCapability("sampled dmabuf Wayland Vulkan current reacquire layout policy"),
                    ),
                    Some(statement) => match statement.check(dmabuf, history) {
                        Err(error) => Err(error),
                        Ok(()) => Ok(
                            Some(
                                SampledDmabufWaylandCurrentReacquireLayoutEvidence {
                                    dmabuf: dmabuf.weak(),
                                },
                            ),
                        ),
                    },
                }
            },
        }
    }

    /// The state of a buffer that comes back, where it does, given what is known of its layout.
    pub fn sampled_dmabuf_wayland_current_reacquire_foreign_general_evidence(
        &self,
        dmabuf: &Dmabuf,
        history: SampledDmabufWaylandLayoutHistory,
        layout: Option<&SampledDmabufWaylandCurrentReacquireLayoutEvidence>,
    ) -> (r: Result<Option<SampledDmabufKnownLayoutEvidence>, VulkanError>)
        ensures
            r == (match history {
                SampledDmabufWaylandLayoutHistory::NoRendererHistory => Ok(None),
                SampledDmabufWaylandLayoutHistory::LocallyAcquired => {
                    VulkanError::lacking("sampled dmabuf Wayland Vulkan unreleased local acquire")
                },
                SampledDmabufWaylandLayoutHistory::ReleasedByRendererToForeignGeneral => {
                    match layout {
                        None => VulkanError::lacking("sampled dmabuf Wayland Vulkan current reacquire layout policy"),
                        Some(layout) => if layout.dmabuf == dmabuf.weak_spec() {
                            Ok(
                                Some(
                                    SampledDmabufKnownLayoutEvidence::foreign_general_spec(
                                        dmabuf.weak_spec(),
                                    ),
                                ),
                            )
                        } else {
                            VulkanError::unsupported("sampled dmabuf Wayland current reacquire identity")
                        },
                    }
                },
            }),
    {
        match history {
            SampledDmabufWaylandLayoutHistory::NoRendererHistory => Ok(None),
            SampledDmabufWaylandLayoutHistory::LocallyAcquired => Err(
                VulkanError::MissingCapability("sampled dmabuf Wayland Vulkan unreleased local acquire"),
            ),
            SampledDmabufWaylandLayoutHistory::ReleasedByRendererToForeignGeneral => {
                match layout {
                    None => Err(
                        VulkanError::MissingCapability("sampled dmabuf Wayland Vulkan current reacquire layout policy"),
                    ),
                    Some(layout) => if layout.is_for_dmabuf(dmabuf) {
                        Ok(Some(SampledDmabufKnownLayoutEvidence::foreign_general(dmabuf.weak())))
                    } else {
                        Err(
                            VulkanError::UnsupportedOperation("sampled dmabuf Wayland current reacquire identity"),
                        )
                    },
                }
            },
        }
    }
}

impl SampledDmabufLayoutEvidence {
    /// The state that this proves `dmabuf` to be in, or why it proves nothing.
    pub open spec fn known_layout(self, dmabuf: Dmabuf) -> Result<
        SampledDmabufKnownLayoutEvidence,
        VulkanError,
    > {
        let weak = dmabuf.weak_spec();
        let general = SampledDmabufExternalImageState::foreign_general_spec();
        match self {
            SampledDmabufLayoutEvidence::WaylandDmabuf => {
                VulkanError::lacking("sampled dmabuf known-layout contract")
            },
            SampledDmabufLayoutEvidence::KnownForeignGeneral(evidence) => {
                if evidence.dmabuf != weak {
                    VulkanError::unsupported("sampled dmabuf known-layout identity")
                } else if evidence.state != general {
                    VulkanError::unsupported("sampled dmabuf known external state")
                } else {
                    Ok(evidence)
                }
            },
            SampledDmabufLayoutEvidence::SmithayWaylandVulkanPolicy(policy) => {
                if policy.dmabuf != weak {
                    VulkanError::unsupported("sampled dmabuf Wayland policy identity")
                } else if policy.foreign_general.dmabuf != weak {
                    VulkanError::unsupported("sampled dmabuf Wayland foreign GENERAL identity")
                } else if policy.foreign_general.state != general {
                    VulkanError::unsupported("sampled dmabuf Wayland foreign GENERAL state")
                } else {
                    Ok(policy.foreign_general)
                }
            },
        }
    }
}

/// Smaller conditions.
impl VulkanRenderer {
    /// Checks that `evidence` proves the state of `dmabuf`.
    pub fn validate_sampled_dmabuf_known_layout_contract(
        &self,
        dmabuf: &Dmabuf,
        evidence: SampledDmabufLayoutEvidence,
    ) -> (r: Result<SampledDmabufKnownLayoutEvidence, VulkanError>)
        ensures
            r == evidence.known_layout(*dmabuf),
    {
        match evidence {
            SampledDmabufLayoutEvidence::WaylandDmabuf => Err(
                VulkanError::MissingCapability("sampled dmabuf known-layout contract"),
            ),
            SampledDmabufLayoutEvidence::KnownForeignGeneral(known) => {
                if !known.is_for_dmabuf(dmabuf) {
                    return Err(
                        VulkanError::UnsupportedOperation("sampled dmabuf known-layout identity"),
                    );
                }
                if !known.state.is_foreign_general() {
                    return Err(
                        VulkanError::UnsupportedOperation("sampled dmabuf known external state"),
                    );
                }
                Ok(known)
            },
            SampledDmabufLayoutEvidence::SmithayWaylandVulkanPolicy(policy) => {
                if !policy.dmabuf.is_for(dmabuf) {
                    return Err(VulkanError::UnsupportedOperation("sampled dmabuf Wayland policy identity"));
                }
                if !policy.foreign_general.is_for_dmabuf(dmabuf) {
                    return Err(
                        VulkanError::UnsupportedOperation("sampled dmabuf Wayland foreign GENERAL identity"),
                    );
                }
                if !policy.foreign_general.state.is_foreign_general() {
                    return Err(
                        VulkanError::UnsupportedOperation("sampled dmabuf Wayland foreign GENERAL state"),
                    );
                }
                Ok(policy.foreign_general)
            },
        }
    }

    /// Checks that the commit of `dmabuf` came with a release point.
    pub fn validate_sampled_dmabuf_wayland_release_point_contract(
        &self,
        dmabuf: &Dmabuf,
        has_release_point: bool,
    ) -> (r: Result<SampledDmabufReleasePointEvidence, VulkanError>)
        ensures
            r == (if has_release_point {
                Ok(SampledDmabufReleasePointEvidence { dmabuf: dmabuf.weak_spec() })
            } else {
                VulkanError::lacking("sampled dmabuf release point contract")
            }),
    {
        if !has_release_point {
            return Err(VulkanError::MissingCapability("sampled dmabuf release point contract"));
        }
        Ok(SampledDmabufReleasePointEvidence { dmabuf: dmabuf.weak() })
    }

    /// Checks that the release point of `dmabuf` can be taken over.
    pub fn validate_sampled_dmabuf_wayland_release_ownership_availability_contract(
        &self,
        dmabuf: &Dmabuf,
        available: bool,
    ) -> (r: Result<SampledDmabufReleaseOwnershipEvidence, VulkanError>)
        ensures
            r == (if available {
                Ok(SampledDmabufReleaseOwnershipEvidence { dmabuf: dmabuf.weak_spec() })
            } else {
                VulkanError::lacking("sampled dmabuf Wayland release ownership transfer")
            }),
    {
        if !available {
            return Err(
                VulkanError::MissingCapability("sampled dmabuf Wayland release ownership transfer"),
            );
        }
        Ok(SampledDmabufReleaseOwnershipEvidence { dmabuf: dmabuf.weak() })
    }

    /// Checks that textures which the import of `dmabuf` replaces were released before.
    pub fn validate_sampled_dmabuf_wayland_texture_cache_replacement_reachability_contract(
        &self,
        dmabuf: &Dmabuf,
        reachable: bool,
    ) -> (r: Result<SampledDmabufWaylandTextureCacheReplacementReleaseReachability, VulkanError>)
        ensures
            r == (if reachable {
                Ok(
                    SampledDmabufWaylandTextureCacheReplacementReleaseReachability {
                        dmabuf: dmabuf.weak_spec(),
                    },
                )
            } else {
                VulkanError::lacking(
                    "sampled dmabuf Wayland Vulkan import_surface post-retired-release call site",
                )
            }),
    {
        if !reachable {
            return Err(
                VulkanError::MissingCapability(
                    "sampled dmabuf Wayland Vulkan import_surface post-retired-release call site",
                ),
            );
        }
        Ok(
            SampledDmabufWaylandTextureCacheReplacementReleaseReachability {
                dmabuf: dmabuf.weak(),
            },
        )
    }

    /// Checks that `ownership` is about `dmabuf`.
    pub fn validate_sampled_dmabuf_release_lifecycle_contract(
        &self,
        dmabuf: &Dmabuf,
        ownership: &SampledDmabufReleaseOwnership,
    ) -> (r: Result<(), VulkanError>)
        ensures
            r == (if ownership.dmabuf == dmabuf.weak_spec() {
                Ok(())
            } else {
                VulkanError::unsupported("sampled dmabuf release ownership identity")
            }),
    {
        if !ownership.is_for_dmabuf(dmabuf) {
            return Err(
                VulkanError::UnsupportedOperation("sampled dmabuf release ownership identity"),
            );
        }
        Ok(())
    }
}

/// What is kept along with a client's buffer. The token names the commit that the buffer belongs
/// to at present.
#[derive(Debug, Clone, Copy, PartialEq, Eq, Structural)]
pub struct SampledDmabufWaylandUserData {
    pub foreign_general: Option<SampledDmabufWaylandForeignGeneralEvidence>,
    pub commit_token: Option<u64>,
    pub texture_cache_release_lifecycle: Option<SampledDmabufWaylandTextureCacheReleaseLifecycle>,
}

impl Default for SampledDmabufWaylandUserData {
    fn default() -> (r: Self)
        ensures
            r == SampledDmabufWaylandUserData::nothing(),
    {
        SampledDmabufWaylandUserData {
            foreign_general: None,
            commit_token: None,
            texture_cache_release_lifecycle: None,
        }
    }
}

impl SampledDmabufWaylandUserData {
    pub open spec fn nothing() -> Self {
        SampledDmabufWaylandUserData {
            foreign_general: None,
            commit_token: None,
            texture_cache_release_lifecycle: None,
        }
    }

    /// The statement about `dmabuf` that is kept here and belongs to the present commit.
    pub open spec fn statement(self, dmabuf: Dmabuf) -> Result<
        Option<SampledDmabufWaylandForeignGeneralEvidence>,
        VulkanError,
    > {
        match self.foreign_general {
            None => Ok(None),
            Some(statement) => if statement.dmabuf != dmabuf.weak_spec() {
                VulkanError::unsupported("sampled dmabuf Wayland external-state identity")
            } else if statement.commit_token is None || statement.commit_token
                != self.commit_token {
                VulkanError::unsupported("sampled dmabuf Wayland external-state commit token")
            } else {
                Ok(Some(statement))
            },
        }
    }

    /// The proof that textures of `dmabuf` are released by `renderer`, as it is kept here.
    pub open spec fn lifecycle(self, dmabuf: Dmabuf, renderer: ContextId) -> Result<
        Option<SampledDmabufWaylandTextureCacheReleaseLifecycle>,
        VulkanError,
    > {
        match self.texture_cache_release_lifecycle {
            None => Ok(None),
            Some(lifecycle) => if lifecycle.dmabuf != dmabuf.weak_spec() {
                VulkanError::unsupported("sampled dmabuf Wayland texture-cache release lifecycle identity")
            } else if lifecycle.renderer != Some(renderer) {
                VulkanError::unsupported(
                    "sampled dmabuf Wayland texture-cache release lifecycle renderer identity",
                )
            } else {
                Ok(Some(lifecycle))
            },
        }
    }
}

/// What is kept along with buffers.
impl VulkanRenderer {
    /// Notes that the present commit has left `dmabuf` in the general layout, for `state_use`.
    pub fn mark_wayland_dmabuf_user_data_foreign_general_for_sampled_import(
        ids: &mut IdentitySource,
        user_data: &mut SampledDmabufWaylandUserData,
        dmabuf: &Dmabuf,
        state_use: SampledDmabufWaylandExternalStateUse,
    ) -> (r: Result<(), VulkanError>)
        requires
            old(ids).has(1),
        ensures
            r == Ok::<(), VulkanError>(()),
            match old(user_data).commit_token {
                Some(token) => final(user_data).commit_token == Some(token) && *final(ids) == *old(
                    ids,
                ),
                None => final(user_data).commit_token matches Some(token) && !old(ids).knows(token)
                    && final(ids).knows(token) && final(ids).issued() == old(ids).issued() + 1,
            },
            final(user_data).foreign_general == Some(
                SampledDmabufWaylandForeignGeneralEvidence {
                    dmabuf: dmabuf.weak_spec(),
                    state_use,
                    state: SampledDmabufExternalImageState::foreign_general_spec(),
                    commit_token: final(user_data).commit_token,
                },
            ),
            final(user_data).texture_cache_release_lifecycle
                == old(user_data).texture_cache_release_lifecycle,
    {
        let token: u64 = match user_data.commit_token {
            Some(token) => token,
            None => ids.fresh(),
        };
        user_data.commit_token = Some(token);
        user_data.foreign_general = Some(
            SampledDmabufWaylandForeignGeneralEvidence {
                dmabuf: dmabuf.weak(),
                state_use,
                state: SampledDmabufExternalImageState::foreign_general(),
                commit_token: Some(token),
            },
        );
        Ok(())
    }

    /// Notes that textures of `dmabuf` are released by this renderer.
    pub fn mark_wayland_dmabuf_user_data_texture_cache_release_lifecycle_for_sampled_import(
        &self,
        user_data: &mut SampledDmabufWaylandUserData,
        dmabuf: &Dmabuf,
    ) -> (r: Result<(), VulkanError>)
        ensures
            r == Ok::<(), VulkanError>(()),
            *final(user_data) == (SampledDmabufWaylandUserData {
                texture_cache_release_lifecycle: Some(
                    SampledDmabufWaylandTextureCacheReleaseLifecycle {
                        dmabuf: dmabuf.weak_spec(),
                        renderer: Some(self.context_id),
                    },
                ),
                ..*old(user_data)
            }),
    {
        user_data.texture_cache_release_lifecycle = Some(
            SampledDmabufWaylandTextureCacheReleaseLifecycle {
                dmabuf: dmabuf.weak(),
                renderer: Some(self.context_id),
            },
        );
        Ok(())
    }

    /// The statement about `dmabuf` that is kept in `user_data`.
    pub fn sampled_dmabuf_wayland_user_data_foreign_general_evidence(
        &self,
        user_data: &SampledDmabufWaylandUserData,
        dmabuf: &Dmabuf,
    ) -> (r: Result<Option<SampledDmabufWaylandForeignGeneralEvidence>, VulkanError>)
        ensures
            r == user_data.statement(*dmabuf),
    {
        match user_data.foreign_general {
            None => Ok(None),
            Some(statement) => {
                if !statement.is_for_dmabuf(dmabuf) {
                    return Err(
                        VulkanError::UnsupportedOperation("sampled dmabuf Wayland external-state identity"),
                    );
                }
                match (statement.commit_token, user_data.commit_token) {
                    (Some(said), Some(present)) => if said == present {
                        Ok(Some(statement))
                    } else {
                        Err(
                            VulkanError::UnsupportedOperation(
                                "sampled dmabuf Wayland external-state commit token",
                            ),
                        )
                    },
                    _ => Err(
                        VulkanError::UnsupportedOperation(
                            "sampled dmabuf Wayland external-state commit token",
                        ),
                    ),
                }
            },
        }
    }

    /// The proof about the textures of `dmabuf` that is kept in `user_data`.
    pub fn sampled_dmabuf_wayland_user_data_texture_cache_release_lifecycle(
        &self,
        user_data: &SampledDmabufWaylandUserData,
        dmabuf: &Dmabuf,
    ) -> (r: Result<Option<SampledDmabufWaylandTextureCacheReleaseLifecycle>, VulkanError>)
        ensures
            r == user_data.lifecycle(*dmabuf, self.context_id),
    {
        match user_data.texture_cache_release_lifecycle {
            None => Ok(None),
            Some(lifecycle) => {
                if !lifecycle.is_for_dmabuf(dmabuf) {
                    return Err(
                        VulkanError::UnsupportedOperation(
                            "sampled dmabuf Wayland texture-cache release lifecycle identity",
                        ),
                    );
                }
                let ours = match lifecycle.renderer {
                    Some(renderer) => renderer == self.context_id,
                    None => false,
                };
                if !ours {
                    return Err(
                        VulkanError::UnsupportedOperation(
                            "sampled dmabuf Wayland texture-cache release lifecycle renderer identity",
                        ),
                    );
                }
                Ok(Some(lifecycle))
            },
        }
    }
}

/// A policy that holds rests on proofs that are all about the one buffer: its import metadata, a
/// layout that its history asks for, a foreign queue family, an explicit acquire fence, a release
/// point, released caches and a release point that can be taken over.
pub proof fn law_policy_rests_on_the_buffer(
    context: SampledDmabufWaylandVulkanInteropPolicyContext<'_>,
    foreign_queue_family: bool,
)
    requires
        context.interop_policy(foreign_queue_family) is Ok,
    ensures
        ({
            let weak = context.dmabuf.weak_spec();
            &&& context.import.describes(*context.dmabuf)
            &&& context.layout_history != SampledDmabufWaylandLayoutHistory::LocallyAcquired
            &&& foreign_queue_family
            &&& context.acquire_sync.dmabuf == weak && context.acquire_sync.acquire_sync.fence is Some
            &&& context.release_evidence.dmabuf == weak
            &&& context.per_commit_texture_import
            &&& context.foreign_general() matches Some(evidence) && evidence.dmabuf == weak
            &&& context.texture_cache_replacement_release_reachability matches Some(evidence)
                && evidence.dmabuf == weak
            &&& context.texture_cache_release_hook matches Some(evidence) && evidence.dmabuf == weak
            &&& context.texture_cache_release_lifecycle matches Some(evidence) && evidence.dmabuf
                == weak
            &&& context.release_ownership matches Some(evidence) && evidence.dmabuf == weak
        }),
{
}

/// Where every condition holds, the policies that they leave are accepted.
pub proof fn law_checked_contracts_are_accepted(
    context: SampledDmabufWaylandVulkanInteropPolicyContext<'_>,
    foreign_queue_family: bool,
)
    ensures
        context.contracts(foreign_queue_family) matches Ok(contracts) ==> contracts.validated(
            *context.dmabuf,
        ) is Ok,
        context.contracts(foreign_queue_family) is Ok <==> context.interop_policy(
            foreign_queue_family,
        ) is Ok,
{
}

/// A policy for one buffer proves nothing about another.
pub proof fn law_policy_is_bound_to_its_buffer(
    context: SampledDmabufWaylandVulkanInteropPolicyContext<'_>,
    foreign_queue_family: bool,
    other: Dmabuf,
)
    requires
        context.interop_policy(foreign_queue_family) is Ok,
        other.identity != context.dmabuf.identity,
    ensures
        context.interop_policy(foreign_queue_family)->Ok_0.known_layout(other) == VulkanError::unsupported::<
            SampledDmabufKnownLayoutEvidence,
        >("sampled dmabuf Wayland policy identity"),
{
}

/// A policy that rests on what a client's statement gave proves the state of the buffer.
pub proof fn law_stated_policy_proves_the_layout(
    context: SampledDmabufWaylandVulkanInteropPolicyContext<'_>,
    foreign_queue_family: bool,
    state_use: SampledDmabufWaylandExternalStateUse,
)
    requires
        ({
            let sources = SampledDmabufWaylandExternalStateEvidenceSources::of(
                context.dmabuf.weak_spec(),
                state_use,
            );
            &&& context.first_import_layout == sources.first_import_layout
            &&& context.first_import_foreign_general == sources.first_import_foreign_general
            &&& context.current_reacquire_layout == sources.current_reacquire_layout
            &&& context.current_reacquire_foreign_general
                == sources.current_reacquire_foreign_general
        }),
    ensures
        context.interop_policy(foreign_queue_family) is Ok ==> {
            &&& context.layout_history == state_use.history_spec()
            &&& context.interop_policy(foreign_queue_family)->Ok_0.known_layout(*context.dmabuf)
                == Ok::<SampledDmabufKnownLayoutEvidence, VulkanError>(
                SampledDmabufKnownLayoutEvidence::foreign_general_spec(
                    context.dmabuf.weak_spec(),
                ),
            )
        },
{
}

/// What was said about a buffer in one commit does not count in another.
pub proof fn law_statements_end_with_their_commit(
    user_data: SampledDmabufWaylandUserData,
    dmabuf: Dmabuf,
    next_token: Option<u64>,
)
    requires
        user_data.statement(dmabuf) matches Ok(Some(_)),
        next_token != user_data.commit_token,
    ensures
        (SampledDmabufWaylandUserData { commit_token: next_token, ..user_data }).statement(dmabuf)
            == VulkanError::unsupported::<Option<SampledDmabufWaylandForeignGeneralEvidence>>(
            "sampled dmabuf Wayland external-state commit token",
        ),
{
}

/// What a commit was said to have left a buffer in counts exactly if it is said of this buffer, if
/// the state is that of a foreign owner in the general layout, and if it is said for the kind of
/// import at hand: a first one, or another one after the renderer has released the buffer. It gives
/// a proof of just that kind. While the renderer still holds the buffer nothing counts.
pub proof fn law_statements_count_for_their_import(
    renderer: VulkanRenderer,
    dmabuf: Dmabuf,
    history: SampledDmabufWaylandLayoutHistory,
    statement: Option<&SampledDmabufWaylandForeignGeneralEvidence>,
    r: Result<SampledDmabufWaylandExternalStateEvidenceSources, VulkanError>,
)
    requires
        call_ensures(
            VulkanRenderer::sampled_dmabuf_wayland_external_state_evidence_sources,
            (&renderer, &dmabuf, history, statement),
            r,
        ),
    ensures
        ({
            let first = history is NoRendererHistory;
            let again = history is ReleasedByRendererToForeignGeneral;
            &&& r is Ok <==> {
                &&& statement is Some
                &&& statement->0.dmabuf.identity == dmabuf.identity
                &&& statement->0.state.queue_family == 0xffff_fffd
                &&& statement->0.state.layout == 1
                &&& (first && statement->0.state_use is FirstImport) || (again
                    && statement->0.state_use is CurrentReacquire)
            }
            &&& r matches Ok(sources) ==> {
                &&& sources.first_import_layout is Some <==> first
                &&& sources.first_import_foreign_general is Some <==> first
                &&& sources.current_reacquire_layout is Some <==> again
                &&& sources.current_reacquire_foreign_general is Some <==> again
                &&& first ==> sources.first_import_layout->0.dmabuf.identity == dmabuf.identity
                    && sources.first_import_foreign_general->0.dmabuf.identity == dmabuf.identity
                    && sources.first_import_foreign_general->0.state.layout == 1
                    && sources.first_import_foreign_general->0.state.queue_family == 0xffff_fffd
                &&& again ==> sources.current_reacquire_layout->0.dmabuf.identity
                    == dmabuf.identity
                    && sources.current_reacquire_foreign_general->0.dmabuf.identity
                    == dmabuf.identity
                    && sources.current_reacquire_foreign_general->0.state.layout == 1
                    && sources.current_reacquire_foreign_general->0.state.queue_family
                    == 0xffff_fffd
            }
        }),
{
}

/// A buffer that is still held locally is imported on no account; for any other, what was said about
/// it decides which kind of import it is, and what the renderer remembers where nothing was said.
pub proof fn law_statements_decide_the_kind_of_import(
    renderer: VulkanRenderer,
    history: SampledDmabufWaylandLayoutHistory,
    statement: Option<&SampledDmabufWaylandForeignGeneralEvidence>,
    r: Result<SampledDmabufWaylandLayoutHistory, VulkanError>,
)
    requires
        call_ensures(
            VulkanRenderer::sampled_dmabuf_wayland_policy_layout_history,
            (&renderer, history, statement),
            r,
        ),
    ensures
        r is Err <==> history is LocallyAcquired,
        r is Ok && statement is None ==> r == Ok::<SampledDmabufWaylandLayoutHistory, VulkanError>(
            history,
        ),
        r is Ok && statement is Some && statement->0.state_use is FirstImport ==> r->Ok_0
            is NoRendererHistory,
        r is Ok && statement is Some && statement->0.state_use is CurrentReacquire ==> r->Ok_0
            is ReleasedByRendererToForeignGeneral,
{
}

/// The proofs for a first import and for another one, asked for one by one, are those that the
/// statement gives as a whole.
pub proof fn law_single_proofs_agree_with_the_sources(
    renderer: VulkanRenderer,
    dmabuf: Dmabuf,
    history: SampledDmabufWaylandLayoutHistory,
    statement: Option<&SampledDmabufWaylandForeignGeneralEvidence>,
    sources: SampledDmabufWaylandExternalStateEvidenceSources,
    first: Result<Option<SampledDmabufWaylandFirstImportLayoutEvidence>, VulkanError>,
    first_general: Result<Option<SampledDmabufKnownLayoutEvidence>, VulkanError>,
    again: Result<Option<SampledDmabufWaylandCurrentReacquireLayoutEvidence>, VulkanError>,
    again_general: Result<Option<SampledDmabufKnownLayoutEvidence>, VulkanError>,
    layout: SampledDmabufWaylandCurrentReacquireLayoutEvidence,
)
    requires
        call_ensures(
            VulkanRenderer::sampled_dmabuf_wayland_external_state_evidence_sources,
            (&renderer, &dmabuf, history, statement),
            Ok(sources),
        ),
        call_ensures(
            VulkanRenderer::sampled_dmabuf_wayland_first_import_layout_evidence,
            (&renderer, &dmabuf, history, statement),
            first,
        ),
        call_ensures(
            VulkanRenderer::sampled_dmabuf_wayland_first_import_foreign_general_evidence,
            (&renderer, &dmabuf, history, statement),
            first_general,
        ),
        call_ensures(
            VulkanRenderer::sampled_dmabuf_wayland_current_reacquire_layout_evidence,
            (&renderer, &dmabuf, history, statement),
            again,
        ),
        history is ReleasedByRendererToForeignGeneral ==> sources.current_reacquire_layout == Some(
            layout,
        ),
        call_ensures(
            VulkanRenderer::sampled_dmabuf_wayland_current_reacquire_foreign_general_evidence,
            (&renderer, &dmabuf, history, Some(&layout)),
            again_general,
        ),
    ensures
        first == Ok::<Option<SampledDmabufWaylandFirstImportLayoutEvidence>, VulkanError>(
            sources.first_import_layout,
        ),
        first_general == Ok::<Option<SampledDmabufKnownLayoutEvidence>, VulkanError>(
            sources.first_import_foreign_general,
        ),
        again == Ok::<Option<SampledDmabufWaylandCurrentReacquireLayoutEvidence>, VulkanError>(
            sources.current_reacquire_layout,
        ),
        again_general == Ok::<Option<SampledDmabufKnownLayoutEvidence>, VulkanError>(
            sources.current_reacquire_foreign_general,
        ),
{
}

/// The layout of a buffer is known exactly if somebody who knows said of this very buffer, or the
/// whole policy for clients found of it, that a foreign owner left it in the general layout. That a
/// client sent it proves nothing.
pub proof fn law_known_layouts_are_foreign_and_general(
    renderer: VulkanRenderer,
    dmabuf: Dmabuf,
    evidence: SampledDmabufLayoutEvidence,
    r: Result<SampledDmabufKnownLayoutEvidence, VulkanError>,
)
    requires
        call_ensures(
            VulkanRenderer::validate_sampled_dmabuf_known_layout_contract,
            (&renderer, &dmabuf, evidence),
            r,
        ),
    ensures
        match evidence {
            SampledDmabufLayoutEvidence::WaylandDmabuf => r is Err,
            SampledDmabufLayoutEvidence::KnownForeignGeneral(known) => r is Ok
                <==> known.dmabuf.identity == dmabuf.identity && known.state.queue_family
                == 0xffff_fffd && known.state.layout == 1,
            SampledDmabufLayoutEvidence::SmithayWaylandVulkanPolicy(policy) => r is Ok
                <==> policy.dmabuf.identity == dmabuf.identity
                && policy.foreign_general.dmabuf.identity == dmabuf.identity
                && policy.foreign_general.state.queue_family == 0xffff_fffd
                && policy.foreign_general.state.layout == 1,
        },
        r matches Ok(known) ==> known.dmabuf.identity == dmabuf.identity && known.state.queue_family
            == 0xffff_fffd && known.state.layout == 1,
{
}

/// Each smaller condition is met exactly if what it is about is there, and its proof names the
/// buffer; a release is owed for the buffer that it names.
pub proof fn law_smaller_conditions_name_the_buffer(
    renderer: VulkanRenderer,
    dmabuf: Dmabuf,
    there: bool,
    ownership: SampledDmabufReleaseOwnership,
    point: Result<SampledDmabufReleasePointEvidence, VulkanError>,
    available: Result<SampledDmabufReleaseOwnershipEvidence, VulkanError>,
    reachable: Result<
        SampledDmabufWaylandTextureCacheReplacementReleaseReachability,
        VulkanError,
    >,
    lifecycle: Result<(), VulkanError>,
)
    requires
        call_ensures(
            VulkanRenderer::validate_sampled_dmabuf_wayland_release_point_contract,
            (&renderer, &dmabuf, there),
            point,
        ),
        call_ensures(
            VulkanRenderer::validate_sampled_dmabuf_wayland_release_ownership_availability_contract,
            (&renderer, &dmabuf, there),
            available,
        ),
        call_ensures(
            VulkanRenderer::validate_sampled_dmabuf_wayland_texture_cache_replacement_reachability_contract,
            (&renderer, &dmabuf, there),
            reachable,
        ),
        call_ensures(
            VulkanRenderer::validate_sampled_dmabuf_release_lifecycle_contract,
            (&renderer, &dmabuf, &ownership),
            lifecycle,
        ),
    ensures
        point is Ok <==> there,
        available is Ok <==> there,
        reachable is Ok <==> there,
        point matches Ok(evidence) ==> evidence.dmabuf.identity == dmabuf.identity,
        available matches Ok(evidence) ==> evidence.dmabuf.identity == dmabuf.identity,
        reachable matches Ok(evidence) ==> evidence.dmabuf.identity == dmabuf.identity,
        lifecycle is Ok <==> ownership.dmabuf.identity == dmabuf.identity,
{
}

/// What is said about a buffer in a commit is read back in that commit, for that buffer and for what
/// it was said for. About another buffer it says nothing, and it is refused then.
pub proof fn law_statements_are_read_back(
    ids: &mut IdentitySource,
    user_data: &mut SampledDmabufWaylandUserData,
    dmabuf: Dmabuf,
    state_use: SampledDmabufWaylandExternalStateUse,
    said: Result<(), VulkanError>,
    renderer: VulkanRenderer,
    other: Dmabuf,
    read: Result<Option<SampledDmabufWaylandForeignGeneralEvidence>, VulkanError>,
)
    requires
        call_ensures(
            VulkanRenderer::mark_wayland_dmabuf_user_data_foreign_general_for_sampled_import,
            (ids, user_data, &dmabuf, state_use),
            said,
        ),
        call_ensures(
            VulkanRenderer::sampled_dmabuf_wayland_user_data_foreign_general_evidence,
            (&renderer, final(user_data), &other),
            read,
        ),
    ensures
        said is Ok,
        other.identity == dmabuf.identity ==> (read matches Ok(Some(statement)) && {
            &&& statement.dmabuf.identity == dmabuf.identity
            &&& statement.state_use == state_use
            &&& statement.state.queue_family == 0xffff_fffd && statement.state.layout == 1
            &&& statement.commit_token == final(user_data).commit_token
        }),
        other.identity != dmabuf.identity ==> read is Err,
        final(user_data).commit_token is Some,
        old(user_data).commit_token is Some ==> final(user_data).commit_token == old(
            user_data,
        ).commit_token && *final(ids) == *old(ids),
        old(user_data).commit_token is None ==> old(ids).issued()
            <= final(user_data).commit_token->0 < final(ids).issued() && final(ids).issued() == old(
            ids,
        ).issued() + 1,
        final(user_data).texture_cache_release_lifecycle == old(
            user_data,
        ).texture_cache_release_lifecycle,
{
}

/// What a renderer notes about the release of a buffer's textures is read back by that renderer, for
/// that buffer. Another renderer, and the same about another buffer, is refused.
pub proof fn law_release_notes_are_read_back_by_their_renderer(
    renderer: VulkanRenderer,
    user_data: &mut SampledDmabufWaylandUserData,
    dmabuf: Dmabuf,
    noted: Result<(), VulkanError>,
    reader: VulkanRenderer,
    other: Dmabuf,
    read: Result<Option<SampledDmabufWaylandTextureCacheReleaseLifecycle>, VulkanError>,
)
    requires
        call_ensures(
            VulkanRenderer::mark_wayland_dmabuf_user_data_texture_cache_release_lifecycle_for_sampled_import,
            (&renderer, user_data, &dmabuf),
            noted,
        ),
        call_ensures(
            VulkanRenderer::sampled_dmabuf_wayland_user_data_texture_cache_release_lifecycle,
            (&reader, final(user_data), &other),
            read,
        ),
    ensures
        noted is Ok,
        read is Ok <==> other.identity == dmabuf.identity && reader.context_id
            == renderer.context_id,
        read is Ok ==> (read matches Ok(Some(lifecycle)) && lifecycle.dmabuf.identity
            == dmabuf.identity && lifecycle.renderer == Some(renderer.context_id)),
        final(user_data).foreign_general == old(user_data).foreign_general,
        final(user_data).commit_token == old(user_data).commit_token,
{
}

/// What is not said about a buffer is missing, and what is said of another one, of another state or
/// for another use is unsupported. That a client sent a buffer says nothing about it.
pub proof fn law_unsaid_states_are_missing(
    renderer: VulkanRenderer,
    dmabuf: Dmabuf,
    history: SampledDmabufWaylandLayoutHistory,
    statement: Option<&SampledDmabufWaylandForeignGeneralEvidence>,
    sources: Result<SampledDmabufWaylandExternalStateEvidenceSources, VulkanError>,
    kind: Result<SampledDmabufWaylandLayoutHistory, VulkanError>,
    evidence: SampledDmabufLayoutEvidence,
    known: Result<SampledDmabufKnownLayoutEvidence, VulkanError>,
    there: bool,
    point: Result<SampledDmabufReleasePointEvidence, VulkanError>,
    ownership: SampledDmabufReleaseOwnership,
    lifecycle: Result<(), VulkanError>,
)
    requires
        call_ensures(
            VulkanRenderer::sampled_dmabuf_wayland_external_state_evidence_sources,
            (&renderer, &dmabuf, history, statement),
            sources,
        ),
        call_ensures(
            VulkanRenderer::sampled_dmabuf_wayland_policy_layout_history,
            (&renderer, history, statement),
            kind,
        ),
        call_ensures(
            VulkanRenderer::validate_sampled_dmabuf_known_layout_contract,
            (&renderer, &dmabuf, evidence),
            known,
        ),
        call_ensures(
            VulkanRenderer::validate_sampled_dmabuf_wayland_release_point_contract,
            (&renderer, &dmabuf, there),
            point,
        ),
        call_ensures(
            VulkanRenderer::validate_sampled_dmabuf_release_lifecycle_contract,
            (&renderer, &dmabuf, &ownership),
            lifecycle,
        ),
    ensures
        sources is Err && statement is None ==> sources->Err_0 is MissingCapability,
        sources is Err && statement is Some && !(history is LocallyAcquired) ==> sources->Err_0
            is UnsupportedOperation,
        kind is Err ==> kind->Err_0 is MissingCapability,
        known is Err ==> (known->Err_0 is MissingCapability <==> evidence is WaylandDmabuf),
        known is Err && !(evidence is WaylandDmabuf) ==> known->Err_0 is UnsupportedOperation,
        point is Err ==> point->Err_0 is MissingCapability,
        lifecycle is Err ==> lifecycle->Err_0 is UnsupportedOperation,
{
}

} // verus!
