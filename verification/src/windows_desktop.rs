//! Enrichment metadata for the Windows backend: the product name read from
//! an executable image's version resource.
//!
//! Opening and mapping the executable file happens outside the library; the
//! image bytes are handed in, and pelite does the resource parsing behind
//! trusted wrappers.

use vstd::prelude::*;

verus! {

#[verifier::external_type_specification]
#[verifier::external_body]
pub struct ExVersionInfo<'a>(pelite::resources::version_info::VersionInfo<'a>);

#[verifier::external_type_specification]
#[verifier::external_body]
pub struct ExLanguage(pelite::resources::version_info::Language);

/// Enrichment metadata resolved for one executable.
pub struct WindowsAppInfo {
    pub app_name: String,
}

impl Clone for WindowsAppInfo {
    fn clone(&self) -> (r: Self)
        ensures
            r == *self,
    {
        WindowsAppInfo { app_name: self.app_name.clone() }
    }
}

/// Relies on pelite::PeFile::from_bytes, PeFile::resources and
/// Resources::version_info: the version-information resource of a PE image,
/// when the bytes are a well-formed image carrying one (parsing also fails
/// on a misaligned buffer, so nothing is assumed of the result).
#[verifier::external_body]
fn pe_version_info<'a>(bytes: &'a [u8]) -> (r: Option<
    pelite::resources::version_info::VersionInfo<'a>,
>) {
    let image = pelite::PeFile::from_bytes(bytes).ok()?;
    let resources = image.resources().ok()?;
    resources.version_info().ok()
}

/// Relies on VersionInfo::translation: the available language/charset
/// pairs of the version resource.
#[verifier::external_body]
fn vi_translation(vi: &pelite::resources::version_info::VersionInfo<'_>) -> (r: Vec<
    pelite::resources::version_info::Language,
>) {
    vi.translation().to_vec()
}

/// Relies on VersionInfo::value: the string value stored under `key` for
/// the given language, if any.
#[verifier::external_body]
fn vi_value(
    vi: &pelite::resources::version_info::VersionInfo<'_>,
    lang: pelite::resources::version_info::Language,
    key: &str,
) -> (r: Option<String>) {
    vi.value(lang, key)
}

/// The provider behind the Windows metadata cache.
pub struct WindowsDesktopInfo {
}

impl WindowsDesktopInfo {
    pub fn new() -> (r: Self) {
        WindowsDesktopInfo {  }
    }

    /// The image's product name: the "ProductName" string of the first
    /// translation that carries one. Bytes that are no well-formed PE
    /// image, or carry no such string, yield nothing — that is not an
    /// error.
    pub fn product_name_from_image(&self, bytes: &[u8]) -> (r: Option<WindowsAppInfo>) {
        let vi = match pe_version_info(bytes) {
            Some(vi) => vi,
            None => {
                return None;
            },
        };
        let langs = vi_translation(&vi);
        let n = langs.len();
        let mut i: usize = 0;
        while i < n
            invariant
                n == langs@.len(),
                i <= n,
            decreases n - i,
        {
            match vi_value(&vi, langs[i], "ProductName") {
                Some(name) => {
                    return Some(WindowsAppInfo { app_name: name });
                },
                None => {},
            }
            i += 1;
        }
        None
    }
}

} // verus!
