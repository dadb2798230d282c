//! Device extensions that the renderer asks for.

use vstd::prelude::*;

verus! {

/// A version of the Vulkan API.
#[derive(Debug, Clone, Copy, PartialEq, Eq, Structural)]
pub struct Version {
    pub major: u32,
    pub minor: u32,
    pub patch: u32,
}

impl Version {
    pub fn new(major: u32, minor: u32) -> (r: Self)
        ensures
            r == (Version { major, minor, patch: 0 }),
    {
        Version { major, minor, patch: 0 }
    }

    /// This version has everything that `major.minor` has.
    pub open spec fn at_least(self, major: u32, minor: u32) -> bool {
        self.major > major || (self.major == major && self.minor >= minor)
    }

    /// Whether this version has everything that `major.minor` has.
    pub fn is_at_least(self, major: u32, minor: u32) -> (r: bool)
        ensures
            r == self.at_least(major, minor),
    {
        self.major > major || (self.major == major && self.minor >= minor)
    }
}

/// A device extension.
#[derive(Debug, Clone, Copy, PartialEq, Eq, Structural)]
pub enum DeviceExtension {
    /// Imports memory from dmabufs.
    ExternalMemoryDmaBuf,
    /// Imports memory from file descriptors.
    ExternalMemoryFd,
    /// Creates images with a format modifier.
    ImageDrmFormatModifier,
    /// Names the queue family of foreign owners.
    QueueFamilyForeign,
    /// Lists the formats of an image; the modifiers need it.
    ImageFormatList,
    /// Shares semaphores.
    ExternalSemaphore,
    /// Shares semaphores through file descriptors.
    ExternalSemaphoreFd,
}

impl DeviceExtension {
    /// The name by which a device lists the extension.
    pub open spec fn name_spec(self) -> Seq<char> {
        match self {
            DeviceExtension::ExternalMemoryDmaBuf => "VK_EXT_external_memory_dma_buf"@,
            DeviceExtension::ExternalMemoryFd => "VK_KHR_external_memory_fd"@,
            DeviceExtension::ImageDrmFormatModifier => "VK_EXT_image_drm_format_modifier"@,
            DeviceExtension::QueueFamilyForeign => "VK_EXT_queue_family_foreign"@,
            DeviceExtension::ImageFormatList => "VK_KHR_image_format_list"@,
            DeviceExtension::ExternalSemaphore => "VK_KHR_external_semaphore"@,
            DeviceExtension::ExternalSemaphoreFd => "VK_KHR_external_semaphore_fd"@,
        }
    }

    /// The name by which a device lists the extension.
    pub fn name(self) -> (r: String)
        ensures
            r@ == self.name_spec(),
    {
        match self {
            DeviceExtension::ExternalMemoryDmaBuf => external_memory_dma_buf_name(),
            DeviceExtension::ExternalMemoryFd => external_memory_fd_name(),
            DeviceExtension::ImageDrmFormatModifier => image_drm_format_modifier_name(),
            DeviceExtension::QueueFamilyForeign => queue_family_foreign_name(),
            DeviceExtension::ImageFormatList => image_format_list_name(),
            DeviceExtension::ExternalSemaphore => external_semaphore_name(),
            DeviceExtension::ExternalSemaphoreFd => external_semaphore_fd_name(),
        }
    }

    /// Whether `extension` is in `extensions`.
    pub fn is_in(self, extensions: &[DeviceExtension]) -> (r: bool)
        ensures
            r == extensions@.contains(self),
    {
        let mut i: usize = 0;
        while i < extensions.len()
            invariant
                i <= extensions@.len(),
                forall|j: int| 0 <= j < i ==> extensions@[j] != self,
            decreases extensions.len() - i,
        {
            if extensions[i] == self {
                return true;
            }
            i = i + 1;
        }
        false
    }
}

/// `ash::ext::external_memory_dma_buf::NAME` is the text `VK_EXT_external_memory_dma_buf`.
#[verifier::external_body]
fn external_memory_dma_buf_name() -> (r: String)
    ensures
        r@ == "VK_EXT_external_memory_dma_buf"@,
{
    ash::ext::external_memory_dma_buf::NAME.to_string_lossy().into_owned()
}

/// `ash::khr::external_memory_fd::NAME` is the text `VK_KHR_external_memory_fd`.
#[verifier::external_body]
fn external_memory_fd_name() -> (r: String)
    ensures
        r@ == "VK_KHR_external_memory_fd"@,
{
    ash::khr::external_memory_fd::NAME.to_string_lossy().into_owned()
}

/// `ash::ext::image_drm_format_modifier::NAME` is the text `VK_EXT_image_drm_format_modifier`.
#[verifier::external_body]
fn image_drm_format_modifier_name() -> (r: String)
    ensures
        r@ == "VK_EXT_image_drm_format_modifier"@,
{
    ash::ext::image_drm_format_modifier::NAME.to_string_lossy().into_owned()
}

/// `ash::ext::queue_family_foreign::NAME` is the text `VK_EXT_queue_family_foreign`.
#[verifier::external_body]
fn queue_family_foreign_name() -> (r: String)
    ensures
        r@ == "VK_EXT_queue_family_foreign"@,
{
    ash::ext::queue_family_foreign::NAME.to_string_lossy().into_owned()
}

/// `ash::khr::image_format_list::NAME` is the text `VK_KHR_image_format_list`.
#[verifier::external_body]
fn image_format_list_name() -> (r: String)
    ensures
        r@ == "VK_KHR_image_format_list"@,
{
    ash::khr::image_format_list::NAME.to_string_lossy().into_owned()
}

/// `ash::khr::external_semaphore::NAME` is the text `VK_KHR_external_semaphore`.
#[verifier::external_body]
fn external_semaphore_name() -> (r: String)
    ensures
        r@ == "VK_KHR_external_semaphore"@,
{
    ash::khr::external_semaphore::NAME.to_string_lossy().into_owned()
}

/// `ash::khr::external_semaphore_fd::NAME` is the text `VK_KHR_external_semaphore_fd`.
#[verifier::external_body]
fn external_semaphore_fd_name() -> (r: String)
    ensures
        r@ == "VK_KHR_external_semaphore_fd"@,
{
    ash::khr::external_semaphore_fd::NAME.to_string_lossy().into_owned()
}

/// The names by which a device lists `extensions`, in their order.
pub fn device_extension_names(extensions: &[DeviceExtension]) -> (r: Vec<String>)
    ensures
        r@.len() == extensions@.len(),
        forall|i: int| 0 <= i < r@.len() ==> (#[trigger] r@[i])@ == extensions@[i].name_spec(),
{
    let mut names: Vec<String> = Vec::new();
    let mut i: usize = 0;
    while i < extensions.len()
        invariant
            i <= extensions@.len(),
            names@.len() == i,
            forall|j: int| 0 <= j < i ==> (#[trigger] names@[j])@ == extensions@[j].name_spec(),
        decreases extensions.len() - i,
    {
        names.push(extensions[i].name());
        i = i + 1;
    }
    names
}

/// The names `extensions`, one for one and in their order, as owned strings.
pub fn extension_names_for_tests(extensions: Vec<&str>) -> (r: Vec<String>)
    ensures
        r@.len() == extensions@.len(),
        forall|i: int| 0 <= i < r@.len() ==> (#[trigger] r@[i])@ == extensions@[i]@,
{
    let mut names: Vec<String> = Vec::new();
    let mut i: usize = 0;
    while i < extensions.len()
        invariant
            i <= extensions@.len(),
            names@.len() == i,
            forall|j: int| 0 <= j < i ==> (#[trigger] names@[j])@ == extensions@[j]@,
        decreases extensions.len() - i,
    {
        names.push(extensions[i].to_owned());
        i = i + 1;
    }
    names
}

/// Versions are compared by their major number first, and by their minor number only where the
/// major numbers agree; the patch does not count. So a version has all that any older one has.
pub proof fn law_versions_are_compared_by_major_and_minor(
    version: Version,
    major: u32,
    minor: u32,
    r: bool,
    older_major: u32,
    older_minor: u32,
    older: bool,
)
    requires
        call_ensures(Version::is_at_least, (version, major, minor), r),
        call_ensures(Version::is_at_least, (version, older_major, older_minor), older),
    ensures
        r <==> version.major * 0x1_0000_0000 + version.minor >= major * 0x1_0000_0000 + minor,
        r && older_major * 0x1_0000_0000 + older_minor <= major * 0x1_0000_0000 + minor ==> older,
{
}

/// Different extensions have different names, and each name is listed where its extension is.
pub proof fn law_extensions_have_names_of_their_own(
    a: DeviceExtension,
    b: DeviceExtension,
    of_a: String,
    of_b: String,
)
    requires
        call_ensures(DeviceExtension::name, (a,), of_a),
        call_ensures(DeviceExtension::name, (b,), of_b),
    ensures
        of_a@ == of_b@ <==> a == b,
{
    reveal_strlit("VK_EXT_external_memory_dma_buf");
    reveal_strlit("VK_KHR_external_memory_fd");
    reveal_strlit("VK_EXT_image_drm_format_modifier");
    reveal_strlit("VK_EXT_queue_family_foreign");
    reveal_strlit("VK_KHR_image_format_list");
    reveal_strlit("VK_KHR_external_semaphore");
    reveal_strlit("VK_KHR_external_semaphore_fd");
    let dma_buf = "VK_EXT_external_memory_dma_buf"@;
    let fd = "VK_KHR_external_memory_fd"@;
    let modifier = "VK_EXT_image_drm_format_modifier"@;
    let foreign = "VK_EXT_queue_family_foreign"@;
    let list = "VK_KHR_image_format_list"@;
    let semaphore = "VK_KHR_external_semaphore"@;
    let semaphore_fd = "VK_KHR_external_semaphore_fd"@;
    assert(dma_buf.len() == 30 && fd.len() == 25 && modifier.len() == 32 && foreign.len() == 27
        && list.len() == 24 && semaphore.len() == 25 && semaphore_fd.len() == 28);
    assert(fd[16] == 'm' && semaphore[16] == 's');
}

/// The names of extensions are listed one for one and in their order.
pub proof fn law_extension_names_keep_their_order(
    extensions: &[DeviceExtension],
    names: Vec<String>,
    i: int,
    name: String,
)
    requires
        call_ensures(device_extension_names, (extensions,), names),
        0 <= i < extensions@.len(),
        call_ensures(DeviceExtension::name, (extensions@[i],), name),
    ensures
        names@.len() == extensions@.len(),
        names@[i]@ == name@,
{
}

/// An extension is in a list exactly if some entry is that extension.
pub proof fn law_extensions_are_found_in_lists(
    extension: DeviceExtension,
    extensions: &[DeviceExtension],
    r: bool,
)
    requires
        call_ensures(DeviceExtension::is_in, (extension, extensions), r),
    ensures
        r <==> exists|i: int| 0 <= i < extensions@.len() && #[trigger] extensions@[i] == extension,
{
}

/// Names are copied one by one.
pub proof fn law_names_are_copied_one_by_one(names: Vec<&str>, r: Vec<String>, i: int)
    requires
        call_ensures(extension_names_for_tests, (names,), r),
        0 <= i < names@.len(),
    ensures
        r@.len() == names@.len(),
        r@[i]@ == names@[i]@,
{
}

/// Extensions go by the names that Vulkan has for them, and versions have the numbers that they were
/// made from.
pub proof fn law_extensions_go_by_their_vulkan_names(
    extension: DeviceExtension,
    name: String,
    major: u32,
    minor: u32,
    version: Version,
)
    requires
        call_ensures(DeviceExtension::name, (extension,), name),
        call_ensures(Version::new, (major, minor), version),
    ensures
        extension is ExternalMemoryDmaBuf ==> name@ == "VK_EXT_external_memory_dma_buf"@,
        extension is ExternalMemoryFd ==> name@ == "VK_KHR_external_memory_fd"@,
        extension is ImageDrmFormatModifier ==> name@ == "VK_EXT_image_drm_format_modifier"@,
        extension is QueueFamilyForeign ==> name@ == "VK_EXT_queue_family_foreign"@,
        extension is ImageFormatList ==> name@ == "VK_KHR_image_format_list"@,
        extension is ExternalSemaphore ==> name@ == "VK_KHR_external_semaphore"@,
        extension is ExternalSemaphoreFd ==> name@ == "VK_KHR_external_semaphore_fd"@,
        version.major == major && version.minor == minor && version.patch == 0,
{
}

} // verus!
