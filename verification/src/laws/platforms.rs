//! Laws of platform support.

use vstd::prelude::*;

use crate::models;
use crate::models::PlatformSupport;

verus! {

/// The game can be launched on Windows, and nowhere else.
pub proof fn only_windows_launches(os: Seq<char>, arch: Seq<char>)
    ensures
        models::platform_support(os, arch).can_launch <==> os == "windows"@,
{
}

/// The kind of processor is shown, but decides nothing.
pub proof fn processor_decides_nothing(os: Seq<char>, one: Seq<char>, other: Seq<char>)
    ensures
        models::platform_support(os, other) == (models::PlatformView {
            arch: other,
            ..models::platform_support(os, one)
        }),
{
}

/// A platform is fully supported exactly if the game can be launched on it.
pub proof fn full_support_means_launching(os: Seq<char>, arch: Seq<char>)
    ensures
        models::platform_support(os, arch).level == "supported"@ <==> models::platform_support(
            os,
            arch,
        ).can_launch,
{
    reveal_strlit("supported");
    reveal_strlit("experimental");
    reveal_strlit("installOnly");
    reveal_strlit("unsupported");
    assert("supported"@.len() == 9);
    assert("experimental"@.len() == 12);
    assert("installOnly"@.len() == 11);
    assert("unsupported"@.len() == 11);
}

/// Every platform is shown under its own names, with the level, the ability to launch and the
/// summary of its operating system.
pub proof fn platforms_are_supported_as_documented(
    os: &str,
    arch: &str,
    platform: PlatformSupport,
)
    requires
        call_ensures(models::current_platform, (os, arch), platform),
    ensures
        platform.os@ == os@,
        platform.arch@ == arch@,
        os@ == "windows"@ ==> {
            &&& platform.level@ == "supported"@
            &&& platform.can_launch
            &&& platform.summary@ == "Native install, repair, update, and launch support."@
        },
        os@ == "linux"@ ==> {
            &&& platform.level@ == "experimental"@
            &&& !platform.can_launch
            &&& platform.summary@
                == "Native installation is supported; launching through Proton is a follow-up integration."@
        },
        os@ == "macos"@ ==> {
            &&& platform.level@ == "installOnly"@
            &&& !platform.can_launch
            &&& platform.summary@
                == "The Windows game files can be managed, but Sunrise cannot currently run on macOS."@
        },
        os@ != "windows"@ && os@ != "linux"@ && os@ != "macos"@ ==> {
            &&& platform.level@ == "unsupported"@
            &&& !platform.can_launch
            &&& platform.summary@
                == "This platform does not have a matching DepotDownloader build."@
        },
{
    reveal_strlit("windows");
    reveal_strlit("linux");
    reveal_strlit("macos");
    assert("windows"@.len() == 7);
    assert("linux"@[0] == 'l');
    assert("macos"@[0] == 'm');
}

} // verus!
