//! Permission handling that does not touch the system: what is required on
//! each platform, and what follows from the system's answers.

use vstd::prelude::*;
use vstd::string::*;
use crate::error::PlatformError;
use crate::keys::Platform;

verus! {

/// What to do next about the accessibility permission.
#[derive(Debug, Clone, Copy, PartialEq, Eq, Structural)]
pub enum PermissionStep {
    /// The permission is there.
    Granted,
    /// Ask the user, then see again.
    Prompt,
}

/// Whether the platform needs the accessibility permission for a global
/// key hook at all.
pub open spec fn needs_accessibility(platform: Platform) -> bool {
    platform == Platform::MacOs
}

/// What the user is told about permissions.
pub open spec fn permissions_text(platform: Platform) -> Seq<char> {
    match platform {
        Platform::MacOs => "This application requires accessibility permissions to capture keyboard events globally. Please grant access in System Settings > Privacy & Security > Accessibility."@,
        Platform::Windows => "This application may require administrator privileges for global keyboard capture on Windows."@,
        Platform::Other => "Platform-specific permissions may be required for global keyboard capture."@,
    }
}

/// Whether keys may be observed, given the system's answer where the
/// platform asks for one.
pub fn check_accessibility_permissions(platform: Platform, trusted: bool) -> (granted: bool)
    ensures
        granted == (!needs_accessibility(platform) || trusted),
{
    match platform {
        Platform::MacOs => trusted,
        _ => true,
    }
}

/// The step after the first look at the permission, made without asking
/// the user.
pub fn first_permission_step(platform: Platform, trusted: bool) -> (next: PermissionStep)
    ensures
        next == if !needs_accessibility(platform) || trusted {
            PermissionStep::Granted
        } else {
            PermissionStep::Prompt
        },
{
    if check_accessibility_permissions(platform, trusted) {
        PermissionStep::Granted
    } else {
        PermissionStep::Prompt
    }
}

/// The outcome after the user was asked: granted, or denied with the advice
/// where to grant it.
pub fn ensure_permissions(platform: Platform, trusted_after_prompt: bool) -> (result: Result<
    bool,
    PlatformError,
>)
    ensures
        result is Ok <==> !needs_accessibility(platform) || trusted_after_prompt,
        result matches Ok(granted) ==> granted,
        result matches Err(error) ==> (error matches PlatformError::PermissionDenied(text)
            && text@
            == "Accessibility permissions required. Please grant access in System Settings > Privacy & Security > Accessibility, then restart the app."@),
{
    if check_accessibility_permissions(platform, trusted_after_prompt) {
        Ok(true)
    } else {
        Err(
            PlatformError::PermissionDenied(
                String::from_str(
                    "Accessibility permissions required. Please grant access in System Settings > Privacy & Security > Accessibility, then restart the app.",
                ),
            ),
        )
    }
}

/// What the user is told about permissions on `platform`.
pub fn get_required_permissions_description(platform: Platform) -> (text: String)
    ensures
        text@ == permissions_text(platform),
{
    match platform {
        Platform::MacOs => String::from_str(
            "This application requires accessibility permissions to capture keyboard events globally. Please grant access in System Settings > Privacy & Security > Accessibility.",
        ),
        Platform::Windows => String::from_str(
            "This application may require administrator privileges for global keyboard capture on Windows.",
        ),
        Platform::Other => String::from_str(
            "Platform-specific permissions may be required for global keyboard capture.",
        ),
    }
}

} // verus!
